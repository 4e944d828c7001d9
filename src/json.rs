//! What the attribute bag relies on from `serde_json` and from std's
//! `HashMap`, whose contents Verus cannot model for `String` keys.
use std::collections::HashMap;
use serde_json::Value;
use vstd::prelude::*;

verus! {

/// serde_json's tree of JSON values; opaque here.
#[verifier::external_type_specification]
#[verifier::external_body]
pub struct ExValue(serde_json::Value);

/// serde_json's error type; opaque here.
#[verifier::external_type_specification]
#[verifier::external_body]
pub struct ExError(serde_json::Error);

/// The storage of an attribute bag.
pub type Attributes = HashMap<String, Value>;

/// The entries of an attribute map, keyed by the characters of each key.
pub uninterp spec fn attributes_of(m: Attributes) -> Map<Seq<char>, Value>;

/// The text held by a node, where the node is a JSON string.
pub uninterp spec fn text_of(v: Value) -> Option<Seq<char>>;

/// Whether a node is JSON null.
pub uninterp spec fn is_null_node(v: Value) -> bool;

/// The object node whose members are exactly the given entries.
pub uninterp spec fn object_of(entries: Map<Seq<char>, Value>) -> Value;

/// `vals` holds the value of each entry of `m` exactly once: its positions
/// stand one for one for the keys of `m`, in some order.
pub open spec fn lists_values(vals: Seq<Value>, m: Map<Seq<char>, Value>) -> bool {
    &&& vals.len() == m.len()
    &&& exists|ks: Seq<Seq<char>>| {
        &&& ks.len() == vals.len()
        &&& ks.no_duplicates()
        &&& ks.to_set() == m.dom()
        &&& forall|i: int| 0 <= i < ks.len() ==> vals[i] == m[#[trigger] ks[i]]
    }
}

/// `s` is the text of a JSON object: it opens with `{` and closes with `}`,
/// is exactly `{}` where `m` has no entry, and is longer where it has one.
pub open spec fn object_text(s: Seq<char>, m: Map<Seq<char>, Value>) -> bool {
    &&& s.len() >= 2
    &&& s[0] == '{'
    &&& s[s.len() - 1] == '}'
    &&& m.dom() == Set::<Seq<char>>::empty() ==> s == "{}"@
    &&& m.dom() != Set::<Seq<char>>::empty() ==> s.len() > 2
}

/// Relies on the derived `Clone` of serde_json's `Value`, which copies a node
/// variant by variant, so the copy is the same JSON value.
pub assume_specification[ <serde_json::Value as Clone>::clone ](v: &serde_json::Value) -> (r: serde_json::Value)
    ensures
        r == *v,
;

/// Relies on `serde_json::Value::as_str`: the text of a string node, `None`
/// for any other node.
pub assume_specification[ serde_json::Value::as_str ](v: &serde_json::Value) -> (r: Option<&str>)
    ensures
        match r {
            Some(s) => text_of(*v) == Some(s@),
            None => text_of(*v) is None,
        },
;

/// Relies on `serde_json::Value::Null` being the null node, which is what
/// `Value::is_null` tests for.
#[verifier::external_body]
pub(crate) fn null_node() -> (r: Value)
    ensures
        is_null_node(r),
{
    Value::Null
}

/// Relies on `HashMap::new`: a map without entries.
#[verifier::external_body]
pub(crate) fn new_attributes() -> (r: Attributes)
    ensures
        attributes_of(r).dom() == Set::<Seq<char>>::empty(),
{
    HashMap::new()
}

/// Relies on `HashMap::insert`: `key` is mapped to `v`, the other entries stay.
#[verifier::external_body]
pub(crate) fn insert_attribute(m: &mut Attributes, key: &str, v: Value)
    ensures
        attributes_of(*final(m)) == attributes_of(*old(m)).insert(key@, v),
{
    m.insert(key.to_string(), v);
}

/// Relies on `HashMap::get`: the value at `key`, if the map holds it.
#[verifier::external_body]
pub(crate) fn lookup_attribute<'a>(m: &'a Attributes, key: &str) -> (r: Option<&'a Value>)
    ensures
        match r {
            Some(v) => attributes_of(*m).contains_key(key@) && *v == attributes_of(*m)[key@],
            None => !attributes_of(*m).contains_key(key@),
        },
{
    m.get(key)
}

/// Relies on `HashMap::get_mut`: a place to write the value at `key`, if the
/// map holds it; what is written there becomes the value at `key`.
#[verifier::external_body]
pub(crate) fn lookup_attribute_mut<'a>(m: &'a mut Attributes, key: &str) -> (r: Option<&'a mut Value>)
    ensures
        match r {
            Some(v) => {
                &&& attributes_of(*old(m)).contains_key(key@)
                &&& *v == attributes_of(*old(m))[key@]
                &&& attributes_of(*final(m)) == attributes_of(*old(m)).insert(key@, *final(v))
            },
            None => {
                &&& !attributes_of(*old(m)).contains_key(key@)
                &&& attributes_of(*final(m)) == attributes_of(*old(m))
            },
        },
{
    m.get_mut(key)
}

/// Relies on `HashMap`'s `Extend`: each incoming entry is inserted, and
/// replaces the value of a key that was already there.
#[verifier::external_body]
pub(crate) fn extend_attributes(m: &mut Attributes, incoming: Attributes)
    ensures
        attributes_of(*final(m)) == attributes_of(*old(m)).union_prefer_right(attributes_of(incoming)),
{
    m.extend(incoming);
}

/// Relies on `HashMap::iter`, which visits every entry once in an arbitrary
/// order, and on the clone of each value being the same value.
#[verifier::external_body]
pub(crate) fn attribute_values(m: &Attributes) -> (r: Vec<Value>)
    ensures
        lists_values(r@, attributes_of(*m)),
{
    m.iter().map(|(_, v)| v.clone()).collect()
}

/// Relies on `Value::Object` built from the map's entries: one member per
/// entry, with its key and value.
#[verifier::external_body]
pub(crate) fn object_node(m: &Attributes) -> (r: Value)
    ensures
        r == object_of(attributes_of(*m)),
{
    Value::Object(m.clone().into_iter().collect())
}

/// Relies on `serde_json::to_string`: a map is written as `{`, its members
/// (each with its quoted key), then `}`, and an empty map as `{}`. Writing
/// into a `Vec` does not fail, nor do `String` keys or any `Value`, so the
/// result is `Ok`. The order of the members follows the
/// map's iteration order, so no more is stated of the text.
#[verifier::external_body]
pub(crate) fn encode_compact(m: &Attributes) -> (r: Result<String, serde_json::Error>)
    ensures
        r is Ok,
        r is Ok ==> object_text(r->Ok_0@, attributes_of(*m)),
{
    serde_json::to_string(m)
}

/// Relies on `serde_json::to_string_pretty`: as for the compact form, the
/// result is `Ok`, the text opens with `{` and closes with `}`, and an empty
/// map gives `{}`.
#[verifier::external_body]
pub(crate) fn encode_pretty(m: &Attributes) -> (r: Result<String, serde_json::Error>)
    ensures
        r is Ok,
        r is Ok ==> object_text(r->Ok_0@, attributes_of(*m)),
{
    serde_json::to_string_pretty(m)
}

} // verus!
