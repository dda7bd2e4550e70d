//! The library's bridge to `serde_json`: the declaration of its value type
//! and the serialization call used when an event is enqueued.

use vstd::prelude::*;

verus! {

/// Declares `serde_json::Value` so that opaque JSON documents can be carried
/// through the library's types.
#[verifier::external_type_specification]
#[verifier::external_body]
pub struct ExValue(serde_json::Value);

/// The JSON text that `serde_json` produces for a value. With this crate's
/// default map representation the rendering is a function of the value alone.
pub uninterp spec fn json_text_of(v: serde_json::Value) -> Seq<char>;

/// Relies on `serde_json::to_string`: renders a JSON value as JSON text.
/// The rendering depends only on the value, and on a `Value` the call always
/// succeeds: serialization fails only for a failing `Serialize` impl or a
/// map with non-string keys, and `Value` has neither.
#[verifier::external_body]
pub fn value_to_json(v: &serde_json::Value) -> (r: Result<String, String>)
    ensures
        r is Ok,
        r matches Ok(s) ==> s@ == json_text_of(*v),
{
    match serde_json::to_string(v) {
        Ok(s) => Ok(s),
        Err(e) => Err(format!("{e}")),
    }
}

} // verus!
