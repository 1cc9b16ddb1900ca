//! JSON text, read by `serde_json`.
//!
//! Nothing in this file is proved of `serde_json` itself. The contracts of its
//! functions state what its source shows of them, over three names:
//! [`value_tree`], for what a `serde_json::Value` holds, [`map_members`], for
//! what a `serde_json::Map` holds, and [`parsed`], for what
//! `serde_json::from_slice` makes of a text. What is proved here is that
//! [`json_of_value`] copies a value faithfully, given those contracts.

use crate::json::{Json, JsonNumber, JsonTree};
use vstd::prelude::*;

verus! {

/// `serde_json::Value`, a JSON value. Nothing of what is inside is seen here:
/// [`value_tree`] is the name of what it holds.
#[verifier::external_type_specification]
#[verifier::external_body]
pub struct ExValue(serde_json::Value);

/// `serde_json::Map`, the members of an object. [`map_members`] is the name of
/// what it holds.
#[verifier::external_type_specification]
#[verifier::external_body]
#[verifier::reject_recursive_types(K)]
#[verifier::reject_recursive_types(V)]
pub struct ExMap<K, V>(serde_json::Map<K, V>);

/// `serde_json::Error`. It is passed on from `serde_json::from_slice` and
/// never looked into.
#[verifier::external_type_specification]
#[verifier::external_body]
pub struct ExError(serde_json::Error);

/// What a `serde_json::Value` holds. An object's members come in the order in
/// which its map hands them out.
pub uninterp spec fn value_tree(value: serde_json::Value) -> JsonTree;

/// What a `serde_json::Map` holds, in the order in which it hands it out.
pub uninterp spec fn map_members(map: serde_json::Map<String, serde_json::Value>) -> Seq<(Seq<char>, JsonTree)>;

/// What `serde_json::from_slice` makes of a text: what the value holds that it
/// returns, or nothing where it returns an error.
pub uninterp spec fn parsed(text: Seq<u8>) -> Option<JsonTree>;

/// What each of a list of values holds.
pub open spec fn value_trees(values: Seq<serde_json::Value>) -> Seq<JsonTree> {
    Seq::new(values.len(), |i: int| value_tree(values[i]))
}

/// `serde_json::from_slice`, asked for a `Value`. It returns the same for the
/// same text; [`parsed`] is the name of what it returns.
#[verifier::external_body]
fn parse_value(text: &[u8]) -> (r: Result<serde_json::Value, serde_json::Error>)
    ensures
        match r {
            Ok(value) => parsed(text@) == Some(value_tree(value)),
            Err(_) => parsed(text@) is None,
        },
{
    serde_json::from_slice(text)
}

/// `Value::as_bool`: the truth value of `Value::Bool`, nothing of any other
/// variant.
pub assume_specification[ serde_json::Value::as_bool ](value: &serde_json::Value) -> (r: Option<bool>)
    ensures
        r == value_tree(*value).boolean(),
;

/// `Value::as_i64`: of a number, what `Number::as_i64` returns; nothing of any
/// other variant.
pub assume_specification[ serde_json::Value::as_i64 ](value: &serde_json::Value) -> (r: Option<i64>)
    ensures
        r == value_tree(*value).integer(),
;

/// `Value::as_str`: the string of `Value::String`, nothing of any other variant.
pub assume_specification<'a>[ serde_json::Value::as_str ](value: &'a serde_json::Value) -> (r: Option<&'a str>)
    ensures
        match r {
            Some(s) => value_tree(*value).text() == Some(s@),
            None => value_tree(*value).text() is None,
        },
;

/// `Value::as_array`: the vector of `Value::Array`, nothing of any other variant.
pub assume_specification<'a>[ serde_json::Value::as_array ](value: &'a serde_json::Value) -> (r: Option<
    &'a Vec<serde_json::Value>,
>)
    ensures
        match r {
            Some(items) => value_tree(*value).items() == Some(value_trees(items@)),
            None => value_tree(*value).items() is None,
        },
;

/// `Value::as_object`: the map of `Value::Object`, nothing of any other variant.
pub assume_specification<'a>[ serde_json::Value::as_object ](value: &'a serde_json::Value) -> (r: Option<
    &'a serde_json::Map<String, serde_json::Value>,
>)
    ensures
        match r {
            Some(map) => value_tree(*value).members() == Some(map_members(*map)),
            None => value_tree(*value).members() is None,
        },
;

/// `Value::as_f64`, its result taken by its bits. Of a number it returns the
/// number in double precision, whichever way the number is held; of any other
/// variant nothing.
#[verifier::external_body]
fn double_bits(value: &serde_json::Value) -> (r: Option<u64>)
    ensures
        r == value_tree(*value).number(),
{
    match value.as_f64() {
        Some(x) => Some(x.to_bits()),
        None => None,
    }
}

/// `Map::iter`, collected: every member once, in the map's order.
#[verifier::external_body]
fn map_entries<'a>(map: &'a serde_json::Map<String, serde_json::Value>) -> (r: Vec<
    (&'a String, &'a serde_json::Value),
>)
    ensures
        r@.len() == map_members(*map).len(),
        forall|i: int|
            0 <= i < r@.len() ==> #[trigger] map_members(*map)[i] == (r@[i].0@, value_tree(*r@[i].1)),
{
    map.iter().collect()
}

/// A value of `serde_json` as a [`Json`] that holds the same.
pub fn json_of_value(value: &serde_json::Value) -> (r: Json)
    ensures
        r@ == value_tree(*value),
    decreases value_tree(*value),
{
    if let Some(b) = value.as_bool() {
        Json::Boolean(b)
    } else if let Some(s) = value.as_str() {
        Json::Text(s.to_owned())
    } else if let Some(items) = value.as_array() {
        let mut out: Vec<Json> = Vec::new();
        let mut i: usize = 0;
        while i < items.len()
            invariant
                i <= items.len(),
                out@.len() == i,
                value_tree(*value) == JsonTree::Array(value_trees(items@)),
                forall|k: int| 0 <= k < i ==> (#[trigger] out@[k])@ == value_tree(items@[k]),
            decreases items.len() - i,
        {
            proof {
                let tree = value_tree(*value);
                assert(tree->Array_0[i as int] == value_tree(items@[i as int]));
                assert(decreases_to!(tree => tree->Array_0));
                assert(decreases_to!(tree->Array_0 => tree->Array_0[i as int]));
            }
            let item = json_of_value(&items[i]);
            out.push(item);
            i += 1;
        }
        let r = Json::Array(out);
        assert(r@->Array_0 =~= value_trees(items@));
        r
    } else if let Some(map) = value.as_object() {
        let entries = map_entries(map);
        let mut out: Vec<(String, Json)> = Vec::new();
        let mut i: usize = 0;
        while i < entries.len()
            invariant
                i <= entries.len(),
                out@.len() == i,
                value_tree(*value) == JsonTree::Object(map_members(*map)),
                entries@.len() == map_members(*map).len(),
                forall|k: int|
                    0 <= k < entries@.len() ==> #[trigger] map_members(*map)[k] == (
                        entries@[k].0@,
                        value_tree(*entries@[k].1),
                    ),
                forall|k: int|
                    0 <= k < i ==> (#[trigger] out@[k]).0@ == map_members(*map)[k].0 && out@[k].1@
                        == map_members(*map)[k].1,
            decreases entries.len() - i,
        {
            proof {
                let tree = value_tree(*value);
                assert(tree->Object_0[i as int] == (entries@[i as int].0@, value_tree(*entries@[i as int].1)));
                assert(decreases_to!(tree => tree->Object_0));
                assert(decreases_to!(tree->Object_0 => tree->Object_0[i as int]));
                assert(decreases_to!(tree->Object_0[i as int] => tree->Object_0[i as int].1));
            }
            let entry = entries[i];
            let member = json_of_value(entry.1);
            out.push((entry.0.clone(), member));
            i += 1;
        }
        let r = Json::Object(out);
        assert(r@->Object_0 =~= map_members(*map));
        r
    } else if let Some(bits) = double_bits(value) {
        Json::Number(JsonNumber { integer: value.as_i64(), bits })
    } else {
        Json::Null
    }
}

/// The value that a text stands for, or nothing if the text is not JSON.
pub fn read_json(text: &[u8]) -> (r: Option<Json>)
    ensures
        r.is_some() == parsed(text@).is_some(),
        r matches Some(json) ==> parsed(text@) == Some(json@),
{
    match parse_value(text) {
        Ok(value) => Some(json_of_value(&value)),
        Err(_) => None,
    }
}

} // verus!
