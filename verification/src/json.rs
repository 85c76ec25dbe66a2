//! Trusted interface to `serde_json` values.
//!
//! JSON values travel through the MCP layer opaquely: the logic never looks
//! inside one, it only stores, copies and serializes them.

use vstd::prelude::*;

verus! {

/// serde_json's JSON value type, declared so it can stand in fields and
/// signatures; the library never looks inside a value of it.
#[verifier::external_type_specification]
#[verifier::external_body]
pub struct ExValue(serde_json::Value);

/// The JSON text that serialization produces for a value; it is a function
/// of the value alone.
pub uninterp spec fn json_text_of(v: serde_json::Value) -> Seq<char>;

/// Relies on serde_json::to_string: serializing a `Value` is deterministic,
/// and it cannot fail because `Value` maps are keyed by strings.
#[verifier::external_body]
pub(crate) fn value_to_json_string(v: &serde_json::Value) -> (r: String)
    ensures
        r@ == json_text_of(*v),
{
    serde_json::to_string(v).unwrap_or_default()
}

/// Relies on the derived `Clone` of serde_json::Value: a structural copy.
pub assume_specification[ <serde_json::Value as Clone>::clone ](
    v: &serde_json::Value,
) -> (r: serde_json::Value)
    ensures
        r == *v,
;

} // verus!
