//! Declarations of serde_json's value type and the accessors the crate
//! needs.  A JSON value is opaque here: the verified logic takes whatever
//! these accessors hand back and is proved for every such outcome.

use vstd::prelude::*;

verus! {

#[verifier::external_type_specification]
#[verifier::external_body]
pub struct ExValue(serde_json::Value);

/// Relies on serde_json's `Value::get` with a string index: looks a key up
/// in an object, `None` on anything else or when the key is absent.
#[verifier::external_body]
pub(crate) fn json_get<'a>(v: &'a serde_json::Value, key: &str) -> (r: Option<
    &'a serde_json::Value,
>) {
    v.get(key)
}

/// Relies on serde_json's `Value::as_u64`: `Some` exactly when the value is
/// an integer that fits in a `u64`.
#[verifier::external_body]
pub(crate) fn json_as_u64(v: &serde_json::Value) -> (r: Option<u64>) {
    v.as_u64()
}

/// Relies on serde_json's `Value::as_str`: `Some` exactly when the value is
/// a string; the string is handed back owned.
#[verifier::external_body]
pub(crate) fn json_as_string(v: &serde_json::Value) -> (r: Option<String>) {
    v.as_str().map(|s| s.to_owned())
}

/// Relies on serde_json's `Value::as_object` and the object's iterator:
/// `Some` exactly when the value is an object, with its entries in the
/// map's iteration order.
#[verifier::external_body]
pub(crate) fn json_object_entries(v: &serde_json::Value) -> (r: Option<
    Vec<(String, serde_json::Value)>,
>) {
    match v.as_object() {
        Some(m) => Some(m.iter().map(|(k, val)| (k.clone(), val.clone())).collect()),
        None => None,
    }
}

} // verus!
