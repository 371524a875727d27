//! The wall clock, behind a trusted boundary: conversions that must resolve a
//! missing timestamp read it once and pass the reading on to verified code.

use vstd::prelude::*;

verus! {

/// Relies on `chrono::Utc::now` and `timestamp_millis`: milliseconds since
/// the Unix epoch at the moment of the call. Nothing is assumed about the
/// reading; callers state what holds for every value of it.
#[verifier::external_body]
pub(crate) fn now_millis() -> u64 {
    chrono::Utc::now().timestamp_millis() as u64
}

} // verus!
