//! The single seam through which the library sees the host's wall clock.

use vstd::prelude::*;

verus! {

/// Relies on `chrono::Utc::now` and `chrono::DateTime::timestamp`: the
/// current time as whole seconds since the Unix epoch, read from the host
/// clock.  Nothing is promised of the value; every caller must be correct
/// for an arbitrary result.
#[verifier::external_body]
pub fn now_utc_seconds() -> u64 {
    chrono::Utc::now().timestamp() as u64
}

} // verus!
