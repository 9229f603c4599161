//! The wall clock.

use vstd::prelude::*;

verus! {

/// Relies on `chrono::Utc::now`: the current wall-clock time, carried as
/// Unix seconds.  The result depends on the machine's clock, so nothing
/// is assumed of it.
#[verifier::external_body]
pub(crate) fn now_seconds() -> i64 {
    chrono::Utc::now().timestamp()
}

} // verus!
