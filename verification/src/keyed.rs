//! A map from names (strings) to values, kept as a list of entries in the
//! order in which their names were first inserted. No name occurs twice.

use vstd::prelude::*;
use crate::text::str_eq;

verus! {

/// The map that a list of entries denotes: later entries override earlier
/// ones with the same name.
pub open spec fn entries_map<V>(s: Seq<(String, V)>) -> Map<Seq<char>, V>
    decreases s.len(),
{
    if s.len() == 0 {
        Map::empty()
    } else {
        entries_map(s.drop_last()).insert(s.last().0@, s.last().1)
    }
}

/// No name occurs twice among the entries.
pub open spec fn names_distinct<V>(s: Seq<(String, V)>) -> bool {
    forall|i: int, j: int| 0 <= i < j < s.len() ==> s[i].0@ != s[j].0@
}

/// The map holds exactly the names of the entries.
pub proof fn lemma_entries_map_dom<V>(s: Seq<(String, V)>)
    ensures
        forall|k: Seq<char>|
            #[trigger] entries_map(s).dom().contains(k) <==> exists|i: int|
                0 <= i < s.len() && s[i].0@ == k,
        entries_map(s).dom().finite(),
    decreases s.len(),
{
    if s.len() > 0 {
        lemma_entries_map_dom(s.drop_last());
        assert forall|k: Seq<char>|
            #[trigger] entries_map(s).dom().contains(k) implies exists|i: int|
                0 <= i < s.len() && s[i].0@ == k by {
            if k != s.last().0@ {
                let i = choose|i: int| 0 <= i < s.drop_last().len() && s.drop_last()[i].0@ == k;
                assert(s[i] == s.drop_last()[i]);
            } else {
                assert(s[s.len() - 1].0@ == k);
            }
        }
        assert forall|k: Seq<char>|
            (exists|i: int| 0 <= i < s.len() && s[i].0@ == k) implies
            #[trigger] entries_map(s).dom().contains(k) by {
            let i = choose|i: int| 0 <= i < s.len() && s[i].0@ == k;
            if i < s.len() - 1 {
                assert(s.drop_last()[i] == s[i]);
            }
        }
    }
}

/// With distinct names, each entry's value is the map's value for its name.
pub proof fn lemma_entries_map_value<V>(s: Seq<(String, V)>, i: int)
    requires
        names_distinct(s),
        0 <= i < s.len(),
    ensures
        entries_map(s).contains_key(s[i].0@),
        entries_map(s)[s[i].0@] == s[i].1,
    decreases s.len(),
{
    lemma_entries_map_dom(s);
    if i < s.len() - 1 {
        let t = s.drop_last();
        assert(t[i] == s[i]);
        lemma_entries_map_value(t, i);
    }
}

/// With distinct names, the map has as many keys as there are entries.
pub proof fn lemma_entries_map_len<V>(s: Seq<(String, V)>)
    requires
        names_distinct(s),
    ensures
        entries_map(s).dom().len() == s.len(),
    decreases s.len(),
{
    if s.len() > 0 {
        let t = s.drop_last();
        lemma_entries_map_len(t);
        lemma_entries_map_dom(t);
        if entries_map(t).dom().contains(s.last().0@) {
            let i = choose|i: int| 0 <= i < t.len() && t[i].0@ == s.last().0@;
            assert(s[i] == t[i]);
        }
    }
}

/// Replacing the value of an entry is inserting into the map.
pub proof fn lemma_entries_map_update<V>(s: Seq<(String, V)>, i: int, e: (String, V))
    requires
        names_distinct(s),
        0 <= i < s.len(),
        e.0@ == s[i].0@,
    ensures
        entries_map(s.update(i, e)) == entries_map(s).insert(e.0@, e.1),
    decreases s.len(),
{
    let u = s.update(i, e);
    if i == s.len() - 1 {
        assert(u.drop_last() == s.drop_last());
        lemma_entries_map_dom(s.drop_last());
        assert(entries_map(s.drop_last()).insert(s.last().0@, s.last().1).insert(e.0@, e.1)
            == entries_map(s.drop_last()).insert(e.0@, e.1));
    } else {
        let t = s.drop_last();
        assert(u.drop_last() == t.update(i, e));
        lemma_entries_map_update(t, i, e);
        assert(s.last().0@ != e.0@) by {
            assert(s[i].0@ != s[s.len() - 1].0@);
        }
        assert(entries_map(t).insert(e.0@, e.1).insert(s.last().0@, s.last().1)
            == entries_map(t).insert(s.last().0@, s.last().1).insert(e.0@, e.1));
    }
}

/// After a value is stored under a name, `get` finds that value under the
/// name, and every other name finds what it found before.
pub proof fn stored_value_is_found<V>(before: Map<Seq<char>, V>, after: Map<Seq<char>, V>, name: Seq<char>, value: V)
    requires
        after == before.insert(name, value),
    ensures
        after.contains_key(name),
        after[name] == value,
        forall|other: Seq<char>|
            other != name ==> (#[trigger] after.contains_key(other) == before.contains_key(other) && (
            before.contains_key(other) ==> after[other] == before[other])),
{
}

/// A map from names to values that remembers the order in which names were
/// first inserted.
#[derive(Debug)]
pub struct NameMap<V> {
    entries: Vec<(String, V)>,
}

impl<V> View for NameMap<V> {
    type V = Map<Seq<char>, V>;

    closed spec fn view(&self) -> Map<Seq<char>, V> {
        entries_map(self.entries@)
    }
}

impl<V> NameMap<V> {
    #[verifier::type_invariant]
    closed spec fn distinct(self) -> bool {
        names_distinct(self.entries@)
    }

    /// The entries, in the order in which their names were first inserted.
    pub closed spec fn ordered(self) -> Seq<(String, V)> {
        self.entries@
    }

    /// A name map holds finitely many names.
    pub proof fn lemma_finite(self)
        ensures
            self@.dom().finite(),
    {
        lemma_entries_map_dom(self.entries@);
    }

    /// The names, in the order in which they were first inserted.
    pub open spec fn names(self) -> Seq<Seq<char>> {
        self.ordered().map_values(|e: (String, V)| e.0@)
    }

    /// The empty map.
    pub fn new() -> (r: Self)
        ensures
            r@ == Map::<Seq<char>, V>::empty(),
            r.ordered().len() == 0,
    {
        NameMap { entries: Vec::new() }
    }

    /// The position of the entry named `name`, if there is one.
    fn position(&self, name: &str) -> (r: Option<usize>)
        ensures
            match r {
                Some(i) => i < self.entries@.len() && self.entries@[i as int].0@ == name@,
                None => forall|i: int| 0 <= i < self.entries@.len() ==> self.entries@[i].0@ != name@,
            },
    {
        let n = self.entries.len();
        let mut i: usize = 0;
        while i < n
            invariant
                n == self.entries@.len(),
                i <= n,
                forall|j: int| 0 <= j < i ==> self.entries@[j].0@ != name@,
            decreases n - i,
        {
            if str_eq(self.entries[i].0.as_str(), name) {
                return Some(i);
            }
            i = i + 1;
        }
        None
    }

    /// The value stored under `name`, if any.
    pub fn get(&self, name: &str) -> (r: Option<&V>)
        ensures
            self@.contains_key(name@) ==> r == Some(&self@[name@]),
            !self@.contains_key(name@) ==> r is None,
    {
        proof {
            use_type_invariant(self);
            lemma_entries_map_dom(self.entries@);
        }
        match self.position(name) {
            Some(i) => {
                proof {
                    lemma_entries_map_value(self.entries@, i as int);
                }
                Some(&self.entries[i].1)
            },
            None => None,
        }
    }

    /// Whether a value is stored under `name`.
    pub fn contains_key(&self, name: &str) -> (r: bool)
        ensures
            r == self@.contains_key(name@),
    {
        proof {
            use_type_invariant(self);
            lemma_entries_map_dom(self.entries@);
        }
        self.position(name).is_some()
    }

    /// Stores `value` under `name`, replacing any value stored there before.
    /// A new name goes after all others; a known name keeps its place.
    pub fn insert(&mut self, name: String, value: V)
        ensures
            final(self)@ == old(self)@.insert(name@, value),
            old(self)@.contains_key(name@) ==> final(self).ordered().len() == old(self).ordered().len(),
            !old(self)@.contains_key(name@) ==> final(self).ordered() == old(self).ordered().push((name, value)),
            final(self).names() == (if old(self)@.contains_key(name@) {
                old(self).names()
            } else {
                old(self).names().push(name@)
            }),
    {
        proof {
            use_type_invariant(&*self);
            lemma_entries_map_dom(self.entries@);
        }
        let pos = self.position(name.as_str());
        let mut entries: Vec<(String, V)> = Vec::new();
        std::mem::swap(&mut entries, &mut self.entries);
        let ghost before = entries@;
        match pos {
            Some(i) => {
                proof {
                    lemma_entries_map_update(before, i as int, (name, value));
                }
                entries.set(i, (name, value));
                assert(entries@ == before.update(i as int, (name, value)));
                assert(entries@.map_values(|e: (String, V)| e.0@) =~= before.map_values(
                    |e: (String, V)| e.0@,
                ));
                assert(names_distinct(entries@)) by {
                    assert forall|a: int, b: int| 0 <= a < b < entries@.len() implies
                        entries@[a].0@ != entries@[b].0@ by {
                        assert(before[a].0@ != before[b].0@);
                    }
                }
            },
            None => {
                entries.push((name, value));
                assert(entries@.drop_last() == before);
                assert(entries@.map_values(|e: (String, V)| e.0@) =~= before.map_values(
                    |e: (String, V)| e.0@,
                ).push(name@));
            },
        }
        self.entries = entries;
    }

    /// The number of names with a stored value.
    pub fn len(&self) -> (r: usize)
        ensures
            r == self@.dom().len(),
    {
        proof {
            use_type_invariant(self);
            lemma_entries_map_len(self.entries@);
        }
        self.entries.len()
    }

    /// The entries, in the order in which their names were first inserted.
    pub fn entries(&self) -> (r: &Vec<(String, V)>)
        ensures
            r@ == self.ordered(),
            names_distinct(r@),
            entries_map(r@) == self@,
            self@.dom().len() == r@.len(),
    {
        proof {
            use_type_invariant(self);
            lemma_entries_map_len(self.entries@);
        }
        &self.entries
    }
}

impl<V: Clone> Clone for NameMap<V> {
    /// A copy with the same names in the same order; each value is a clone of
    /// the original's.
    fn clone(&self) -> (r: Self)
        ensures
            r.ordered().len() == self.ordered().len(),
            forall|i: int| 0 <= i < r.ordered().len() ==> #[trigger] r.ordered()[i].0@ == self.ordered()[i].0@,
            r@.dom() == self@.dom(),
            forall|k: Seq<char>| #[trigger] r@.contains_key(k) ==> cloned::<V>(self@[k], r@[k]),
    {
        proof {
            use_type_invariant(self);
        }
        let n = self.entries.len();
        let mut out: Vec<(String, V)> = Vec::new();
        let mut i: usize = 0;
        while i < n
            invariant
                n == self.entries@.len(),
                i <= n,
                out@.len() == i,
                names_distinct(self.entries@),
                forall|j: int| 0 <= j < i ==> #[trigger] out@[j].0@ == self.entries@[j].0@,
                forall|j: int| 0 <= j < i ==> cloned::<V>(self.entries@[j].1, #[trigger] out@[j].1),
            decreases n - i,
        {
            let k = self.entries[i].0.clone();
            let v = self.entries[i].1.clone();
            out.push((k, v));
            i = i + 1;
        }
        proof {
            lemma_entries_map_dom(out@);
            lemma_entries_map_dom(self.entries@);
            assert forall|k: Seq<char>| #[trigger] entries_map(out@).dom().contains(k) <==> entries_map(
                self.entries@,
            ).dom().contains(k) by {
                if entries_map(out@).dom().contains(k) {
                    let j = choose|j: int| 0 <= j < out@.len() && out@[j].0@ == k;
                    assert(self.entries@[j].0@ == k);
                }
                if entries_map(self.entries@).dom().contains(k) {
                    let j = choose|j: int| 0 <= j < self.entries@.len() && self.entries@[j].0@ == k;
                    assert(out@[j].0@ == k);
                }
            }
            assert(entries_map(out@).dom() =~= entries_map(self.entries@).dom());
            assert(names_distinct(out@)) by {
                assert forall|a: int, b: int| 0 <= a < b < out@.len() implies out@[a].0@
                    != out@[b].0@ by {
                    assert(out@[a].0@ == self.entries@[a].0@);
                    assert(out@[b].0@ == self.entries@[b].0@);
                }
            }
            assert forall|k: Seq<char>| #[trigger] entries_map(out@).contains_key(k) implies cloned::<V>(
                entries_map(self.entries@)[k],
                entries_map(out@)[k],
            ) by {
                let j = choose|j: int| 0 <= j < out@.len() && out@[j].0@ == k;
                lemma_entries_map_value(out@, j);
                assert(self.entries@[j].0@ == k);
                lemma_entries_map_value(self.entries@, j);
            }
        }
        NameMap { entries: out }
    }
}

} // verus!
