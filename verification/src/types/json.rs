//! JSON payloads that the library carries without looking inside.

use vstd::prelude::*;

verus! {

/// `serde_json::Value`: a JSON document, carried as an opaque value.
#[verifier::external_type_specification]
#[verifier::external_body]
pub struct ExJsonValue(serde_json::Value);

/// `Clone` of `serde_json::Value`: the derived deep copy, which equals the
/// original document.
pub assume_specification[ <serde_json::Value as Clone>::clone ](v: &serde_json::Value) -> (r: serde_json::Value)
    ensures
        r == *v,
;

} // verus!
