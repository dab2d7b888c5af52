//! Routing of payment requests to one of several registered gateways.

use vstd::prelude::*;
use crate::error::{not_configured, GatewayError};
use crate::keyed::{lemma_entries_map_value, names_distinct, NameMap};
use crate::text::owned;

verus! {

/// Routes payment requests to the appropriate gateway.
///
/// Holds several gateways under their names (e.g. "stripe", "safepay") and
/// selects one by name at runtime; one of the names is the default.
#[derive(Debug, Clone)]
pub struct GatewayRouter<G> {
    gateways: NameMap<G>,
    default: String,
}

impl<G> GatewayRouter<G> {
    /// The registered gateways by name.
    pub closed spec fn registered(self) -> Map<Seq<char>, G> {
        self.gateways@
    }

    /// The names of the registered gateways in the order of registration.
    pub closed spec fn order(self) -> Seq<Seq<char>> {
        self.gateways.names()
    }

    /// The name of the default gateway.
    pub closed spec fn default_name(self) -> Seq<char> {
        self.default@
    }

    /// The default names a registered gateway, or nothing is registered and
    /// no default is set.
    pub open spec fn default_is_usable(self) -> bool {
        ||| self.registered().contains_key(self.default_name())
        ||| (self.default_name().len() == 0 && self.registered().dom().len() == 0)
    }

    /// A new, empty router with no gateways registered and no default.
    pub fn new() -> (r: Self)
        ensures
            r.registered() == Map::<Seq<char>, G>::empty(),
            r.order().len() == 0,
            r.default_name().len() == 0,
            r.default_is_usable(),
    {
        GatewayRouter { gateways: NameMap::new(), default: String::new() }
    }

    /// Register a gateway under its name, replacing any gateway registered
    /// under that name. The first gateway registered becomes the default.
    pub fn register(&mut self, name: String, gateway: G)
        ensures
            final(self).registered() == old(self).registered().insert(name@, gateway),
            final(self).default_name() == (if old(self).default_name().len() == 0 {
                name@
            } else {
                old(self).default_name()
            }),
            old(self).default_is_usable() ==> final(self).default_is_usable(),
            final(self).order() == (if old(self).registered().contains_key(name@) {
                old(self).order()
            } else {
                old(self).order().push(name@)
            }),
    {
        proof {
            self.gateways.lemma_finite();
        }
        self.gateways.insert(name.clone(), gateway);
        if self.default.as_str().is_empty() {
            self.default = name;
        }
    }

    /// Set which gateway should be the default (used when no specific gateway
    /// is requested).
    pub fn set_default(&mut self, name: &str)
        ensures
            final(self).registered() == old(self).registered(),
            final(self).order() == old(self).order(),
            final(self).default_name() == name@,
    {
        self.default = owned(name);
    }

    /// Get a gateway by name. Returns `None` if the gateway is not registered.
    pub fn get(&self, name: &str) -> (r: Option<&G>)
        ensures
            self.registered().contains_key(name@) ==> r == Some(&self.registered()[name@]),
            !self.registered().contains_key(name@) ==> r is None,
    {
        self.gateways.get(name)
    }

    /// Get the default gateway.
    pub fn default_gateway(&self) -> (r: Result<&G, GatewayError>)
        ensures
            self.registered().contains_key(self.default_name()) ==> r == Ok::<&G, GatewayError>(
                &self.registered()[self.default_name()],
            ),
            !self.registered().contains_key(self.default_name()) ==> not_configured(
                r,
                self.default_name(),
            ),
    {
        match self.gateways.get(self.default.as_str()) {
            Some(g) => Ok(g),
            None => Err(GatewayError::GatewayNotConfigured { gateway: self.default.clone() }),
        }
    }

    /// Get a gateway by name, or fall back to the default where no name (or
    /// an empty one) is given.
    pub fn get_or_default(&self, name: Option<&str>) -> (r: Result<&G, GatewayError>)
        ensures
            match name {
                Some(n) if n@.len() > 0 => {
                    &&& self.registered().contains_key(n@) ==> r == Ok::<&G, GatewayError>(
                        &self.registered()[n@],
                    )
                    &&& !self.registered().contains_key(n@) ==> not_configured(r, n@)
                },
                _ => {
                    &&& self.registered().contains_key(self.default_name()) ==> r == Ok::<
                        &G,
                        GatewayError,
                    >(&self.registered()[self.default_name()])
                    &&& !self.registered().contains_key(self.default_name()) ==> not_configured(
                        r,
                        self.default_name(),
                    )
                },
            },
    {
        match name {
            Some(n) if !n.is_empty() => match self.gateways.get(n) {
                Some(g) => Ok(g),
                None => Err(GatewayError::GatewayNotConfigured { gateway: owned(n) }),
            },
            _ => self.default_gateway(),
        }
    }

    /// All registered gateways, each once, in the order of registration.
    pub fn list_gateways(&self) -> (r: Vec<&G>)
        ensures
            r@.len() == self.order().len(),
            self.registered().dom().len() == self.order().len(),
            forall|i: int, j: int|
                0 <= i < j < self.order().len() ==> self.order()[i] != self.order()[j],
            forall|k: Seq<char>| #[trigger]
                self.registered().contains_key(k) <==> self.order().contains(k),
            forall|i: int|
                0 <= i < r@.len() ==> *r@[i] == self.registered()[#[trigger] self.order()[i]],
    {
        let entries = self.gateways.entries();
        let n = entries.len();
        let mut out: Vec<&G> = Vec::new();
        let mut i: usize = 0;
        while i < n
            invariant
                n == entries@.len(),
                i <= n,
                out@.len() == i,
                names_distinct(entries@),
                forall|j: int| 0 <= j < i ==> *out@[j] == entries@[j].1,
            decreases n - i,
        {
            out.push(&entries[i].1);
            i = i + 1;
        }
        proof {
            crate::keyed::lemma_entries_map_dom(entries@);
            let names = self.order();
            assert(names.len() == entries@.len());
            assert forall|a: int, b: int| 0 <= a < b < names.len() implies names[a] != names[b] by {
                assert(names[a] == entries@[a].0@);
                assert(names[b] == entries@[b].0@);
            }
            assert forall|k: Seq<char>| #[trigger]
                self.registered().contains_key(k) <==> names.contains(k) by {
                if self.registered().contains_key(k) {
                    let j = choose|j: int| 0 <= j < entries@.len() && entries@[j].0@ == k;
                    assert(names[j] == k);
                }
                if names.contains(k) {
                    let j = choose|j: int| 0 <= j < names.len() && names[j] == k;
                    assert(entries@[j].0@ == k);
                }
            }
            assert forall|j: int| 0 <= j < out@.len() implies *out@[j] == self.registered()[
                #[trigger] names[j]] by {
                lemma_entries_map_value(entries@, j);
            }
        }
        out
    }

    /// Check if a gateway is registered.
    pub fn has(&self, name: &str) -> (r: bool)
        ensures
            r == self.registered().contains_key(name@),
    {
        self.gateways.contains_key(name)
    }

    /// Return the number of registered gateways.
    pub fn len(&self) -> (r: usize)
        ensures
            r == self.registered().dom().len(),
    {
        self.gateways.len()
    }

    /// Returns true if no gateways are registered.
    pub fn is_empty(&self) -> (r: bool)
        ensures
            r == (self.registered().dom().len() == 0),
    {
        self.gateways.len() == 0
    }
}

impl<G> Default for GatewayRouter<G> {
    /// The same as `GatewayRouter::new()`: no gateways and no default.
    fn default() -> (r: Self)
        ensures
            r.registered() == Map::<Seq<char>, G>::empty(),
            r.order().len() == 0,
            r.default_name() == Seq::<char>::empty(),
    {
        Self::new()
    }
}

/// After a gateway is registered under a name, `get` finds that gateway
/// under the name, and every other name finds what it found before.
pub proof fn registered_gateway_is_found<G>(
    before: GatewayRouter<G>,
    after: GatewayRouter<G>,
    name: Seq<char>,
    gateway: G,
)
    requires
        after.registered() == before.registered().insert(name, gateway),
    ensures
        after.registered().contains_key(name),
        after.registered()[name] == gateway,
        forall|other: Seq<char>|
            other != name ==> (#[trigger] after.registered().contains_key(other)
                == before.registered().contains_key(other) && (before.registered().contains_key(other)
                ==> after.registered()[other] == before.registered()[other])),
{
}

/// A router whose default is usable answers `default_gateway()` with a gateway
/// exactly when some gateway is registered.
pub proof fn default_found_iff_nonempty<G>(r: GatewayRouter<G>)
    requires
        r.default_is_usable(),
    ensures
        r.registered().contains_key(r.default_name()) <==> r.registered().dom().len() > 0,
{
    r.gateways.lemma_finite();
    if r.registered().contains_key(r.default_name()) {
        vstd::set_lib::lemma_set_empty_equivalency_len(r.registered().dom());
    }
}

} // verus!
