//! The library's own model of a parsed configuration or task document.
//!
//! The outside parsers (serde_json, serde_yaml) turn text into a tree; this
//! module re-expresses that tree as the plain datatype [`Json`], which every
//! validation step of the harness is then proved against. Numbers outside the
//! signed 64-bit range (or non-integral ones) are carried as `Num(None)`:
//! no harness field reads such a value, and fail-closed field checking only
//! needs the keys and the field kinds.

use vstd::prelude::*;

verus! {

/// A parsed document node, built from plain values only.
#[derive(Debug, PartialEq, Eq)]
pub enum Json {
    Null,
    Bool(bool),
    Num(Option<i64>),
    Str(String),
    Arr(Vec<Json>),
    Obj(Vec<(String, Json)>),
}

/// The node type serde_json parses JSON text into; opaque here, read only by
/// the conversion below.
#[verifier::external_type_specification]
#[verifier::external_body]
pub struct ExJsonValue(serde_json::Value);

/// The node type serde_yaml parses YAML text into; opaque here, read only by
/// the conversion below.
#[verifier::external_type_specification]
#[verifier::external_body]
pub struct ExYamlValue(serde_yaml::Value);

/// The document that JSON text denotes, if it parses.
pub uninterp spec fn json_of(text: Seq<char>) -> Option<Json>;

/// The document that YAML text denotes, if it parses and every node of it is
/// representable as a [`Json`] value.
pub uninterp spec fn yaml_of(text: Seq<char>) -> Option<Json>;

/// Re-expresses a parsed serde_json document as a [`Json`] node, one node and
/// one variant at a time.
#[verifier::external_body]
fn json_node_of_value(value: serde_json::Value) -> Json {
    match value {
        serde_json::Value::Null => Json::Null,
        serde_json::Value::Bool(b) => Json::Bool(b),
        serde_json::Value::Number(n) => Json::Num(n.as_i64()),
        serde_json::Value::String(s) => Json::Str(s),
        serde_json::Value::Array(items) => Json::Arr(
            items.into_iter().map(json_node_of_value).collect(),
        ),
        serde_json::Value::Object(entries) => Json::Obj(
            entries.into_iter().map(|(k, v)| (k, json_node_of_value(v))).collect(),
        ),
    }
}

/// Re-expresses one serde_yaml mapping entry; `None` for a non-string key or
/// an entry whose value a [`Json`] node cannot carry.
#[verifier::external_body]
fn json_entry_of_yaml(key: serde_yaml::Value, value: serde_yaml::Value) -> Option<(String, Json)> {
    match (key, json_node_of_yaml(value)) {
        (serde_yaml::Value::String(k), Some(node)) => Some((k, node)),
        _ => None,
    }
}

/// Re-expresses a parsed serde_yaml document as a [`Json`] node; `None` for
/// the nodes a [`Json`] value cannot carry (tagged values, mappings with a
/// non-string key).
#[verifier::external_body]
fn json_node_of_yaml(value: serde_yaml::Value) -> Option<Json> {
    match value {
        serde_yaml::Value::Null => Some(Json::Null),
        serde_yaml::Value::Bool(b) => Some(Json::Bool(b)),
        serde_yaml::Value::Number(n) => Some(Json::Num(n.as_i64())),
        serde_yaml::Value::String(s) => Some(Json::Str(s)),
        serde_yaml::Value::Sequence(v) => v.into_iter().map(json_node_of_yaml).collect::<Option<Vec<Json>>>().map(Json::Arr),
        serde_yaml::Value::Mapping(m) => m.into_iter().map(|(k, v)| json_entry_of_yaml(k, v)).collect::<Option<Vec<(String, Json)>>>().map(Json::Obj),
        serde_yaml::Value::Tagged(_) => None,
    }
}

/// Relies on serde_json::from_str: JSON text parses to at most one document,
/// a function of the text alone; the error value is its parse diagnostic.
#[verifier::external_body]
pub fn parse_json_text(text: &str) -> (parsed: Result<Json, String>)
    ensures
        parsed matches Ok(doc) ==> json_of(text@) == Some(doc),
        parsed is Err ==> json_of(text@) is None,
{
    match serde_json::from_str::<serde_json::Value>(text) {
        Ok(value) => Ok(json_node_of_value(value)),
        Err(err) => Err(format!("{}", err)),
    }
}

/// Relies on serde_yaml::from_str: YAML text parses to at most one document,
/// a function of the text alone. `Ok(None)` stands for a document that parses
/// but holds a node no [`Json`] value can carry.
#[verifier::external_body]
pub fn parse_yaml_text(text: &str) -> (parsed: Result<Option<Json>, String>)
    ensures
        parsed matches Ok(Some(doc)) ==> yaml_of(text@) == Some(doc),
        parsed matches Ok(None) ==> yaml_of(text@) is None,
        parsed is Err ==> yaml_of(text@) is None,
{
    match serde_yaml::from_str::<serde_yaml::Value>(text) {
        Ok(value) => Ok(json_node_of_yaml(value)),
        Err(err) => Err(format!("{}", err)),
    }
}

/// The value of the first field named `key`, if one exists.
pub open spec fn spec_get_field(fields: Seq<(String, Json)>, key: Seq<char>) -> Option<Json>
    decreases fields.len(),
{
    if fields.len() == 0 {
        None
    } else if fields[0].0@ == key {
        Some(fields[0].1)
    } else {
        spec_get_field(fields.skip(1), key)
    }
}

pub proof fn lemma_get_field_skip(fields: Seq<(String, Json)>, key: Seq<char>, n: int)
    requires
        0 <= n <= fields.len(),
        forall|j: int| 0 <= j < n ==> (#[trigger] fields[j]).0@ != key,
    ensures
        spec_get_field(fields, key) == spec_get_field(fields.skip(n), key),
    decreases n,
{
    if n > 0 {
        assert(fields[0].0@ != key);
        assert forall|j: int| 0 <= j < n - 1 implies (#[trigger] fields.skip(1)[j]).0@ != key by {
            assert(fields.skip(1)[j] == fields[j + 1]);
        }
        lemma_get_field_skip(fields.skip(1), key, n - 1);
        assert(fields.skip(1).skip(n - 1) =~= fields.skip(n));
    } else {
        assert(fields.skip(0) =~= fields);
    }
}

/// Content equality of a `String` against a key literal.
pub fn string_eq_str(s: &String, lit: &str) -> (eq: bool)
    ensures
        eq == (s@ == lit@),
{
    let lit_string = String::from_str(lit);
    *s == lit_string
}

/// Looks a field up by name: the executable form of [`spec_get_field`].
pub fn get_field<'a>(entries: &'a Vec<(String, Json)>, key: &str) -> (found: Option<&'a Json>)
    ensures
        match found {
            Some(value) => spec_get_field(entries@, key@) == Some(*value),
            None => spec_get_field(entries@, key@) is None,
        },
{
    let ghost all: Seq<(String, Json)> = entries@;
    let mut i: usize = 0;
    while i < entries.len()
        invariant
            0 <= i <= entries.len(),
            all == entries@,
            forall|j: int| 0 <= j < i ==> (#[trigger] all[j]).0@ != key@,
        decreases entries.len() - i,
    {
        if string_eq_str(&entries[i].0, key) {
            proof {
                lemma_get_field_skip(all, key@, i as int);
                assert(all.skip(i as int)[0] == all[i as int]);
            }
            return Some(&entries[i].1);
        }
        i += 1;
    }
    proof {
        lemma_get_field_skip(all, key@, entries.len() as int);
    }
    None
}

} // verus!
