//! JSON values of `serde_json`, as far as this crate builds them.
//!
//! Verus does not look inside `serde_json::Value`. The functions below make the
//! calls into `serde_json`; their contracts are believed, not proved, and say
//! over [`json_view`] and [`object_view`] which value each call builds.

use vstd::prelude::*;

verus! {

/// `serde_json::Value`, carried through as an opaque value.
#[verifier::external_type_specification]
#[verifier::external_body]
pub struct ExValue(serde_json::Value);

/// `serde_json::Map`, carried through as an opaque value.
#[verifier::external_type_specification]
#[verifier::external_body]
#[verifier::reject_recursive_types(K)]
#[verifier::reject_recursive_types(V)]
pub struct ExJsonMap<K, V>(serde_json::Map<K, V>);

/// What a JSON value holds, as a mathematical value.
pub enum JsonView {
    /// `null`.
    Null,
    /// `true` or `false`.
    Bool(bool),
    /// A string.
    Text(Seq<char>),
    /// An object: its members by key.
    Object(Map<Seq<char>, JsonView>),
    /// A number or an array; this crate builds neither.
    Other,
}

/// What the JSON value `v` holds.
pub uninterp spec fn json_view(v: serde_json::Value) -> JsonView;

/// The members of the JSON object map `m`, by key.
pub uninterp spec fn object_view(m: serde_json::Map<String, serde_json::Value>) -> Map<Seq<char>, JsonView>;

/// The members of an object that has none.
pub open spec fn no_members() -> Map<Seq<char>, JsonView> {
    Map::empty()
}

/// Builds `serde_json::Value::Null`: the result is JSON `null`.
#[verifier::external_body]
pub(crate) fn value_null() -> (v: serde_json::Value)
    ensures
        json_view(v) == JsonView::Null,
{
    serde_json::Value::Null
}

/// Builds `serde_json::Value::Bool`: the result is the JSON boolean `b`.
#[verifier::external_body]
pub(crate) fn value_bool(b: bool) -> (v: serde_json::Value)
    ensures
        json_view(v) == JsonView::Bool(b),
{
    serde_json::Value::Bool(b)
}

/// Builds `serde_json::Value::String`: the result is the JSON string with the
/// characters of `s`.
#[verifier::external_body]
pub(crate) fn value_text(s: String) -> (v: serde_json::Value)
    ensures
        json_view(v) == JsonView::Text(s@),
{
    serde_json::Value::String(s)
}

/// Builds `serde_json::Value::Object`: the result is the JSON object with the
/// members of `m`.
#[verifier::external_body]
pub(crate) fn value_object(m: serde_json::Map<String, serde_json::Value>) -> (v: serde_json::Value)
    ensures
        json_view(v) == JsonView::Object(object_view(m)),
{
    serde_json::Value::Object(m)
}

/// Calls `serde_json::Map::new`: the result has no members.
#[verifier::external_body]
pub(crate) fn object_new() -> (m: serde_json::Map<String, serde_json::Value>)
    ensures
        object_view(m) == no_members(),
{
    serde_json::Map::new()
}

/// Calls `serde_json::Map::insert`: afterwards the key `key` holds `value`,
/// whether or not the key was present before, and every other member is as it
/// was. The value that the key held before, if any, is dropped.
#[verifier::external_body]
pub(crate) fn object_insert(m: &mut serde_json::Map<String, serde_json::Value>, key: String, value: serde_json::Value)
    ensures
        object_view(*final(m)) == object_view(*old(m)).insert(key@, json_view(value)),
{
    let _ = m.insert(key, value);
}

} // verus!
