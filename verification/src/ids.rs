//! Fresh identifiers for transactions and events.

use vstd::prelude::*;

verus! {

/// Relies on `uuid::Uuid::new_v4`: a freshly generated random identifier,
/// carried as its 128-bit value.  The result is random, so nothing is
/// assumed of it.
#[verifier::external_body]
pub(crate) fn fresh_uuid() -> u128 {
    uuid::Uuid::new_v4().as_u128()
}

} // verus!
