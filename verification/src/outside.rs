//! Types of outside crates that values of this library carry through unchanged.
use vstd::prelude::*;

verus! {

/// A JSON document of `serde_json`, carried as it is.
#[verifier::external_type_specification]
#[verifier::external_body]
pub struct ExJsonValue(serde_json::Value);

} // verus!
