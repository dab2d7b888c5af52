//! JSON documents as plain values: what the gateways read from a webhook
//! body, and the parse that produces them.

use vstd::prelude::*;
use crate::keyed::{entries_map, lemma_entries_map_dom, NameMap};
use crate::text::{int_text_value, parse_i64, str_eq};
use serde_json::Value;

verus! {

/// A JSON document.
#[derive(Debug)]
pub enum JsonValue {
    Null,
    Bool(bool),
    /// A number, as its JSON text.
    Number(String),
    String(String),
    Array(Vec<JsonValue>),
    /// The members of an object in document order; where a name occurs more
    /// than once, the last member counts.
    Object(Vec<(String, JsonValue)>),
}

/// `b` holds the same document as `a`: the same kind of value, the same
/// scalars and texts, and, for arrays and objects, elements or members that
/// hold the same documents, in the same order and under the same names.
pub open spec fn same_json(a: JsonValue, b: JsonValue) -> bool
    decreases a,
{
    match a {
        JsonValue::Array(x) => b matches JsonValue::Array(y) && same_elements(x@, y@),
        JsonValue::Object(x) => b matches JsonValue::Object(y) && same_members(x@, y@),
        _ => b == a,
    }
}

/// Two lists of documents of the same length that hold the same documents,
/// position by position.
pub open spec fn same_elements(xs: Seq<JsonValue>, ys: Seq<JsonValue>) -> bool
    decreases xs,
{
    if xs.len() == 0 {
        ys.len() == 0
    } else {
        &&& ys.len() == xs.len()
        &&& same_elements(xs.subrange(0, xs.len() - 1), ys.subrange(0, ys.len() - 1))
        &&& same_json(xs[xs.len() - 1], ys[ys.len() - 1])
    }
}

/// Two lists of object members of the same length with the same names, in
/// the same order, holding the same documents.
pub open spec fn same_members(xs: Seq<(String, JsonValue)>, ys: Seq<(String, JsonValue)>) -> bool
    decreases xs,
{
    if xs.len() == 0 {
        ys.len() == 0
    } else {
        &&& ys.len() == xs.len()
        &&& same_members(xs.subrange(0, xs.len() - 1), ys.subrange(0, ys.len() - 1))
        &&& ys[ys.len() - 1].0@ == xs[xs.len() - 1].0@
        &&& same_json(xs[xs.len() - 1].1, ys[ys.len() - 1].1)
    }
}

/// A copy of a JSON document, member for member.
fn copy_json(v: &JsonValue) -> (r: JsonValue)
    ensures
        same_json(*v, r),
    decreases v,
{
    match v {
        JsonValue::Null => JsonValue::Null,
        JsonValue::Bool(b) => JsonValue::Bool(*b),
        JsonValue::Number(t) => JsonValue::Number(t.clone()),
        JsonValue::String(s) => JsonValue::String(s.clone()),
        JsonValue::Array(a) => {
            let mut out: Vec<JsonValue> = Vec::new();
            let mut i: usize = 0;
            while i < a.len()
                invariant
                    *v == JsonValue::Array(*a),
                    i <= a@.len(),
                    same_elements(a@.subrange(0, i as int), out@),
                decreases a.len() - i,
            {
                proof {
                    assert(decreases_to!(*v => v->Array_0));
                    assert(decreases_to!(*a => a@));
                    assert(decreases_to!(a@ => a@[i as int]));
                }
                let c = copy_json(&a[i]);
                let ghost before = out@;
                out.push(c);
                proof {
                    let xs = a@.subrange(0, i + 1);
                    assert(xs.subrange(0, xs.len() - 1) == a@.subrange(0, i as int));
                    assert(out@.subrange(0, out@.len() - 1) == before);
                    assert(xs[xs.len() - 1] == a@[i as int]);
                }
                i = i + 1;
            }
            assert(a@.subrange(0, a@.len() as int) == a@);
            JsonValue::Array(out)
        },
        JsonValue::Object(m) => {
            let mut out: Vec<(String, JsonValue)> = Vec::new();
            let mut i: usize = 0;
            while i < m.len()
                invariant
                    *v == JsonValue::Object(*m),
                    i <= m@.len(),
                    same_members(m@.subrange(0, i as int), out@),
                decreases m.len() - i,
            {
                proof {
                    assert(decreases_to!(*v => v->Object_0));
                    assert(decreases_to!(*m => m@));
                    assert(decreases_to!(m@ => m@[i as int]));
                    assert(decreases_to!(m@[i as int] => m@[i as int].1));
                }
                let k = m[i].0.clone();
                let c = copy_json(&m[i].1);
                let ghost before = out@;
                out.push((k, c));
                proof {
                    let xs = m@.subrange(0, i + 1);
                    assert(xs.subrange(0, xs.len() - 1) == m@.subrange(0, i as int));
                    assert(out@.subrange(0, out@.len() - 1) == before);
                    assert(xs[xs.len() - 1] == m@[i as int]);
                }
                i = i + 1;
            }
            assert(m@.subrange(0, m@.len() as int) == m@);
            JsonValue::Object(out)
        },
    }
}

impl Clone for JsonValue {
    /// A copy holding the same document.
    fn clone(&self) -> (r: Self)
        ensures
            same_json(*self, r),
    {
        copy_json(self)
    }
}

/// The member `key` of an object; `None` for a missing member or a value
/// that is not an object.
pub open spec fn json_get(v: JsonValue, key: Seq<char>) -> Option<JsonValue> {
    match v {
        JsonValue::Object(m) => if entries_map(m@).contains_key(key) {
            Some(entries_map(m@)[key])
        } else {
            None
        },
        _ => None,
    }
}

/// The text of a JSON string.
pub open spec fn json_str(v: JsonValue) -> Option<Seq<char>> {
    match v {
        JsonValue::String(s) => Some(s@),
        _ => None,
    }
}

/// A JSON number written as an integer (`-?[0-9]+`) in the range of `i64`.
pub open spec fn json_i64(v: JsonValue) -> Option<i64> {
    match v {
        JsonValue::Number(t) => match int_text_value(t@) {
            Some(x) => if i64::MIN <= x <= i64::MAX {
                Some(x as i64)
            } else {
                None
            },
            None => None,
        },
        _ => None,
    }
}

/// `json_get` on a value that may be missing.
pub open spec fn opt_get(v: Option<JsonValue>, key: Seq<char>) -> Option<JsonValue> {
    match v {
        Some(x) => json_get(x, key),
        None => None,
    }
}

/// `json_str` on a value that may be missing.
pub open spec fn opt_str(v: Option<JsonValue>) -> Option<Seq<char>> {
    match v {
        Some(x) => json_str(x),
        None => None,
    }
}

/// `json_i64` on a value that may be missing.
pub open spec fn opt_i64(v: Option<JsonValue>) -> Option<i64> {
    match v {
        Some(x) => json_i64(x),
        None => None,
    }
}

/// A borrowed value that may be missing, as a value.
pub open spec fn deref_opt(r: Option<&JsonValue>) -> Option<JsonValue> {
    match r {
        Some(x) => Some(*x),
        None => None,
    }
}

/// A borrowed string that may be missing, as text.
pub open spec fn view_opt_str(r: Option<&str>) -> Option<Seq<char>> {
    match r {
        Some(s) => Some(s@),
        None => None,
    }
}

/// Whether every member of an object is a JSON string.
pub open spec fn all_strings(m: Seq<(String, JsonValue)>) -> bool {
    forall|i: int| 0 <= i < m.len() ==> #[trigger] m[i].1 is String
}

/// The last entry named `key` is the map's value for `key`.
proof fn lemma_entries_map_last<V>(s: Seq<(String, V)>, i: int, key: Seq<char>)
    requires
        0 <= i < s.len(),
        s[i].0@ == key,
        forall|j: int| i < j < s.len() ==> #[trigger] s[j].0@ != key,
    ensures
        entries_map(s).contains_key(key),
        entries_map(s)[key] == s[i].1,
    decreases s.len(),
{
    if i < s.len() - 1 {
        let t = s.drop_last();
        assert forall|j: int| i < j < t.len() implies #[trigger] t[j].0@ != key by {
            assert(t[j] == s[j]);
        }
        assert(t[i] == s[i]);
        lemma_entries_map_last(t, i, key);
        assert(s[s.len() - 1].0@ != key);
    }
}

/// The parse of a JSON text: the document, or the parser's error message.
/// A function of the text alone.
pub uninterp spec fn json_parse(text: Seq<char>) -> Result<JsonValue, Seq<char>>;

#[verifier::external_type_specification]
#[verifier::external_body]
pub struct ExSerdeJsonValue(Value);

/// Converts a `serde_json::Value` into a `JsonValue`, variant for variant:
/// a number becomes its `Display` text, and object members keep the order in
/// which `serde_json` yields them. Nothing is claimed of it.
#[verifier::external_body]
fn from_serde_json(v: Value) -> JsonValue {
    match v {
        Value::Null => JsonValue::Null,
        Value::Bool(b) => JsonValue::Bool(b),
        Value::Number(n) => JsonValue::Number(n.to_string()),
        Value::String(s) => JsonValue::String(s),
        Value::Array(a) => JsonValue::Array(a.into_iter().map(from_serde_json).collect()),
        Value::Object(m) => JsonValue::Object(m.into_iter().map(|(k, x)| (k, from_serde_json(x))).collect()),
    }
}

/// Calls `serde_json::from_str::<serde_json::Value>`. Claimed: the outcome
/// (the document, or the text of the error) is a function of the input text
/// alone (named `json_parse`).
#[verifier::external_body]
fn serde_json_from_str(text: &str) -> (r: Result<JsonValue, String>)
    ensures
        match r {
            Ok(v) => json_parse(text@) == Ok::<JsonValue, Seq<char>>(v),
            Err(m) => json_parse(text@) == Err::<JsonValue, Seq<char>>(m@),
        },
{
    match serde_json::from_str::<Value>(text) {
        Ok(v) => Ok(from_serde_json(v)),
        Err(e) => Err(e.to_string()),
    }
}

impl JsonValue {
    /// Parses a JSON text.
    pub fn parse(text: &str) -> (r: Result<JsonValue, String>)
        ensures
            match r {
                Ok(v) => json_parse(text@) == Ok::<JsonValue, Seq<char>>(v),
                Err(m) => json_parse(text@) == Err::<JsonValue, Seq<char>>(m@),
            },
    {
        serde_json_from_str(text)
    }

    /// The member `key` of an object (the last one of that name).
    pub fn get(&self, key: &str) -> (r: Option<&JsonValue>)
        ensures
            deref_opt(r) == json_get(*self, key@),
    {
        match self {
            JsonValue::Object(m) => {
                let n = m.len();
                let mut i = n;
                while i > 0
                    invariant
                        i <= n,
                        n == m@.len(),
                        *self == JsonValue::Object(*m),
                        forall|j: int| i <= j < n ==> #[trigger] m@[j].0@ != key@,
                    decreases i,
                {
                    i = i - 1;
                    if str_eq(m[i].0.as_str(), key) {
                        proof {
                            lemma_entries_map_last(m@, i as int, key@);
                        }
                        return Some(&m[i].1);
                    }
                }
                proof {
                    lemma_entries_map_dom(m@);
                }
                None
            },
            _ => None,
        }
    }

    /// The text of a JSON string.
    pub fn as_str(&self) -> (r: Option<&str>)
        ensures
            view_opt_str(r) == json_str(*self),
    {
        match self {
            JsonValue::String(s) => Some(s.as_str()),
            _ => None,
        }
    }

    /// A JSON number written as an integer in the range of `i64`.
    pub fn as_i64(&self) -> (r: Option<i64>)
        ensures
            r == json_i64(*self),
    {
        match self {
            JsonValue::Number(t) => parse_i64(t.as_str()),
            _ => None,
        }
    }

    /// An object whose members are all strings, as a map from member names
    /// to their texts (where a name occurs twice, the last member counts);
    /// `None` for any other value.
    pub fn to_string_map(&self) -> (r: Option<NameMap<String>>)
        ensures
            r is Some <==> (*self is Object && all_strings(self->Object_0@)),
            r matches Some(map) ==> {
                let m = self->Object_0@;
                &&& map@.dom() == entries_map(m).dom()
                &&& forall|k: Seq<char>| #[trigger] map@.contains_key(k) ==> json_str(entries_map(m)[k]) == Some(map@[k]@)
            },
    {
        match self {
            JsonValue::Object(m) => {
                let n = m.len();
                let mut out: NameMap<String> = NameMap::new();
                let mut i: usize = 0;
                while i < n
                    invariant
                        i <= n,
                        n == m@.len(),
                        *self == JsonValue::Object(*m),
                        all_strings(m@.take(i as int)),
                        out@.dom() == entries_map(m@.take(i as int)).dom(),
                        forall|k: Seq<char>| #[trigger] out@.contains_key(k) ==> json_str(entries_map(m@.take(i as int))[k]) == Some(out@[k]@),
                    decreases n - i,
                {
                    assert(m@.take(i + 1).drop_last() == m@.take(i as int));
                    match &m[i].1 {
                        JsonValue::String(s) => {
                            out.insert(m[i].0.clone(), s.clone());
                            assert(m@.take(i + 1).last() == m@[i as int]);
                            assert(out@.dom() =~= entries_map(m@.take(i + 1)).dom());
                        },
                        _ => {
                            assert(!all_strings(m@)) by {
                                assert(!(m@[i as int].1 is String));
                            }
                            return None;
                        },
                    }
                    i = i + 1;
                }
                assert(m@.take(n as int) == m@);
                Some(out)
            },
            _ => None,
        }
    }
}

/// Reading a member of an object gives the value of the last member with
/// that name, and nothing where no member has it; any other value has no
/// members.
pub proof fn member_is_the_last_of_its_name(v: JsonValue, key: Seq<char>, r: Option<JsonValue>)
    requires
        r == json_get(v, key),
    ensures
        !(v is Object) ==> r is None,
        v matches JsonValue::Object(m) ==> {
            &&& forall|i: int|
                0 <= i < m@.len() && (#[trigger] m@[i]).0@ == key && (forall|j: int|
                    i < j < m@.len() ==> m@[j].0@ != key) ==> r == Some(m@[i].1)
            &&& (forall|i: int| 0 <= i < m@.len() ==> (#[trigger] m@[i]).0@ != key) ==> r is None
        },
{
    if let JsonValue::Object(m) = v {
        lemma_entries_map_dom(m@);
        assert forall|i: int|
            0 <= i < m@.len() && (#[trigger] m@[i]).0@ == key && (forall|j: int|
                i < j < m@.len() ==> m@[j].0@ != key) implies r == Some(m@[i].1) by {
            lemma_entries_map_last(m@, i, key);
        }
    }
}

} // verus!
