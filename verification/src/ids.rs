//! Fresh identifier generation, shared by token minting and user creation.

use vstd::prelude::*;

verus! {

/// Relies on `uuid::Uuid::new_v4`: a fresh random identifier in hyphenated
/// form. Its value is random, so nothing is assumed of it.
#[verifier::external_body]
pub(crate) fn fresh_uuid() -> (r: String) {
    uuid::Uuid::new_v4().to_string()
}

} // verus!
