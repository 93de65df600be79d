//! The JSON value model.
//!
//! Parameters, results and ids are `serde_json::Value`s. The router never
//! looks inside one: it only moves and copies them, so to the verifier a
//! value is an opaque token that can be compared for equality.

use vstd::prelude::*;

verus! {

/// Makes `serde_json::Value` known to the verifier as an opaque type.
#[verifier::external_type_specification]
#[verifier::external_body]
pub struct ExValue(serde_json::Value);

/// `Value::clone`, which `serde_json` derives for its `Value` enum.
///
/// Trusted: the copy is equal to the value it was made from.
pub assume_specification[ <serde_json::Value as Clone>::clone ](value: &serde_json::Value) -> (copy:
    serde_json::Value)
    ensures
        copy == *value,
;

} // verus!
