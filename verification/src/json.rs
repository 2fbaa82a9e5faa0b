//! JSON values, carried through the manager as opaque payloads.

use vstd::prelude::*;

verus! {

/// `serde_json::Value`, of which nothing but its identity is known here.
#[verifier::external_type_specification]
#[verifier::external_body]
pub struct ExJsonValue(serde_json::Value);

/// `Clone::clone` of `serde_json::Value`, which is derived: the copy holds
/// the same JSON document as the value it was made from.
pub assume_specification[ <serde_json::Value as Clone>::clone ](
    value: &serde_json::Value,
) -> (copy: serde_json::Value)
    ensures
        copy == *value,
;

} // verus!
