//! Identity of entities.
use vstd::prelude::*;

verus! {

/// `uuid::Uuid::new_v4`, read as a number with `Uuid::as_u128`: a fresh
/// random identifier. The value comes from the system's random source, so
/// nothing is promised of it.
#[verifier::external_body]
pub(crate) fn fresh_id() -> (id: u128) {
    uuid::Uuid::new_v4().as_u128()
}

} // verus!
