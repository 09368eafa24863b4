//! JSON values that the library carries without looking inside them.

use vstd::prelude::*;

verus! {

/// `serde_json::Value`, carried as an opaque value (prompt configuration,
/// metadata).
#[verifier::external_type_specification]
#[verifier::external_body]
pub struct ExJsonValue(serde_json::Value);

/// Trusted wrapper of `<serde_json::Value as Clone>::clone` (a derived,
/// structural clone): the copy is the same value.
#[verifier::external_body]
pub(crate) fn clone_json(v: &serde_json::Value) -> (r: serde_json::Value)
    ensures
        r == *v,
{
    v.clone()
}

/// Copies an optional JSON value.
pub fn clone_opt_json(v: &Option<serde_json::Value>) -> (r: Option<serde_json::Value>)
    ensures
        r == *v,
{
    match v {
        Some(x) => Some(clone_json(x)),
        None => None,
    }
}

} // verus!
