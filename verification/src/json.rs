//! The crate's own JSON tree.
//!
//! Two backends answer queries with JSON documents.  The logic that walks
//! those documents is verified, so the document must be a value Verus can
//! see into: this enum holds, as plain values, exactly what the listing
//! walks read — null-ness, booleans, unsigned integer values, strings,
//! arrays, and objects as ordered key/value pairs.  The only trusted step
//! is the parse itself.

use crate::text::str_eq;
use vstd::prelude::*;

verus! {

/// A JSON document as a tree of plain values.
///
/// A number carries its unsigned integer value when it has one, and
/// `None` for any other numeric shape; the listings read nothing else of
/// a number.  An object is a pair list looked up by key, first match
/// winning; a parsed document holds each key at most once, so the order
/// its pairs arrive in never matters.
#[derive(Debug)]
pub enum Json {
    Null,
    Bool(bool),
    Num(Option<u64>),
    Str(String),
    Arr(Vec<Json>),
    Obj(Vec<(String, Json)>),
}

/// The value under key `k` among the pairs from position `i` on: the
/// first pair with that key wins.
pub open spec fn obj_get_from(pairs: Seq<(String, Json)>, k: Seq<char>, i: int) -> Option<Json>
    decreases pairs.len() - i,
{
    if i < 0 || i >= pairs.len() {
        None
    } else if pairs[i].0@ == k {
        Some(pairs[i].1)
    } else {
        obj_get_from(pairs, k, i + 1)
    }
}

/// The value under key `k`: `None` for a missing key and for any
/// non-object.
pub open spec fn spec_get(v: Json, k: Seq<char>) -> Option<Json> {
    match v {
        Json::Obj(pairs) => obj_get_from(pairs@, k, 0),
        _ => None,
    }
}

/// The characters of a JSON string value.
pub open spec fn spec_as_str(v: Json) -> Option<Seq<char>> {
    match v {
        Json::Str(s) => Some(s@),
        _ => None,
    }
}

/// The unsigned integer value of a JSON number.
pub open spec fn spec_as_u64(v: Json) -> Option<u64> {
    match v {
        Json::Num(n) => n,
        _ => None,
    }
}

/// The elements of a JSON array value.
pub open spec fn spec_as_arr(v: Json) -> Option<Seq<Json>> {
    match v {
        Json::Arr(items) => Some(items@),
        _ => None,
    }
}

/// The boolean of a JSON boolean value.
pub open spec fn spec_as_bool(v: Json) -> Option<bool> {
    match v {
        Json::Bool(b) => Some(b),
        _ => None,
    }
}

/// A value found under a key sits below its object in the tree order;
/// the measure Verus uses for recursion over the tree respects it.
pub proof fn lemma_get_decreases(v: Json, k: Seq<char>)
    requires
        spec_get(v, k) is Some,
    ensures
        decreases_to!(v => spec_get(v, k)->0),
{
    match v {
        Json::Obj(pairs) => {
            lemma_obj_get_decreases(v, pairs, k, 0);
        },
        _ => {},
    }
}

proof fn lemma_obj_get_decreases(v: Json, pairs: Vec<(String, Json)>, k: Seq<char>, i: int)
    requires
        v == Json::Obj(pairs),
        obj_get_from(pairs@, k, i) is Some,
    ensures
        decreases_to!(v => obj_get_from(pairs@, k, i)->0),
    decreases pairs@.len() - i,
{
    if i < 0 || i >= pairs@.len() {
    } else if pairs@[i].0@ == k {
        assert(decreases_to!(v => v->Obj_0));
        assert(v->Obj_0 == pairs);
        assert(decreases_to!(pairs => pairs@));
        assert(decreases_to!(pairs@ => pairs@[i]));
        assert(decreases_to!(pairs@[i] => pairs@[i].1));
    } else {
        lemma_obj_get_decreases(v, pairs, k, i + 1);
    }
}

/// An array found under a key sits below its object in the tree order:
/// recursion over such an array's elements is well-founded.
pub proof fn lemma_get_arr_decreases(v: Json, k: Seq<char>)
    requires
        spec_get(v, k) is Some,
        spec_as_arr(spec_get(v, k)->0) is Some,
    ensures
        decreases_to!(v => spec_as_arr(spec_get(v, k)->0)->0),
{
    lemma_get_decreases(v, k);
    let j = spec_get(v, k)->0;
    match j {
        Json::Arr(items) => {
            assert(decreases_to!(j => j->Arr_0));
            assert(decreases_to!(j->Arr_0 => j->Arr_0@));
        },
        _ => {},
    }
}

impl Json {
    /// Whether this value is JSON `null`.
    pub fn is_null(&self) -> (r: bool)
        ensures
            r == (*self is Null),
    {
        match self {
            Json::Null => true,
            _ => false,
        }
    }

    /// The value under key `k` of an object, if any.
    pub fn get<'a>(&'a self, k: &str) -> (r: Option<&'a Json>)
        ensures
            r is Some <==> spec_get(*self, k@) is Some,
            r matches Some(j) ==> spec_get(*self, k@) == Some(*j),
    {
        match self {
            Json::Obj(pairs) => {
                let n = pairs.len();
                let mut i: usize = 0;
                while i < n
                    invariant
                        i <= n,
                        n == pairs@.len(),
                        *self == Json::Obj(*pairs),
                        obj_get_from(pairs@, k@, 0) == obj_get_from(pairs@, k@, i as int),
                    decreases n - i,
                {
                    if str_eq(pairs[i].0.as_str(), k) {
                        return Some(&pairs[i].1);
                    }
                    i += 1;
                }
                None
            },
            _ => None,
        }
    }

    /// The characters of a string value, if this is one.
    pub fn as_str(&self) -> (r: Option<&String>)
        ensures
            r is Some <==> spec_as_str(*self) is Some,
            r matches Some(s) ==> spec_as_str(*self) == Some(s@) && *self == Json::Str(*s),
    {
        match self {
            Json::Str(s) => Some(s),
            _ => None,
        }
    }

    /// The unsigned integer value of a number, if this is one and it has
    /// one.
    pub fn as_u64(&self) -> (r: Option<u64>)
        ensures
            r == spec_as_u64(*self),
    {
        match self {
            Json::Num(n) => *n,
            _ => None,
        }
    }

    /// The elements of an array value, if this is one.
    pub fn as_arr(&self) -> (r: Option<&Vec<Json>>)
        ensures
            r is Some <==> spec_as_arr(*self) is Some,
            r matches Some(items) ==> spec_as_arr(*self) == Some(items@),
    {
        match self {
            Json::Arr(items) => Some(items),
            _ => None,
        }
    }

    /// The boolean of a boolean value, if this is one.
    pub fn as_bool(&self) -> (r: Option<bool>)
        ensures
            r == spec_as_bool(*self),
    {
        match self {
            Json::Bool(b) => Some(*b),
            _ => None,
        }
    }
}

#[verifier::external_type_specification]
#[verifier::external_body]
pub struct ExValue(serde_json::Value);

/// What parsing a byte sequence as a JSON document yields, rendered as
/// the crate's own tree: a function of the bytes alone, named rather than
/// restated — writing the grammar out here would duplicate the parser it
/// stands for.
pub uninterp spec fn spec_json_doc(bytes: Seq<u8>) -> Option<Json>;

/// Relies on serde_json::from_slice::<Value>: parsing is deterministic in
/// the input bytes; a malformed document yields an error, mapped to
/// `None` here.
#[verifier::external_body]
pub(crate) fn parse_json(bytes: &[u8]) -> (r: Option<Json>)
    ensures
        r == spec_json_doc(bytes@),
{
    match serde_json::from_slice::<serde_json::Value>(bytes) {
        Ok(v) => Some(value_tree(&v)),
        Err(_) => None,
    }
}

/// Relies on serde_json::Value: rebuilds the parsed document as the
/// crate's own tree, variant by variant, moving each field across.  Only
/// `parse_json` uses it.
#[verifier::external_body]
fn value_tree(v: &serde_json::Value) -> Json {
    match v {
        serde_json::Value::Null => Json::Null,
        serde_json::Value::Bool(b) => Json::Bool(*b),
        serde_json::Value::Number(n) => Json::Num(n.as_u64()),
        serde_json::Value::String(s) => Json::Str(s.clone()),
        serde_json::Value::Array(items) => Json::Arr(items.iter().map(value_tree).collect()),
        serde_json::Value::Object(m) => Json::Obj(
            m.iter().map(|(k, x)| (k.clone(), value_tree(x))).collect(),
        ),
    }
}

} // verus!
