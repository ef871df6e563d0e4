//! The wall clock.
use vstd::prelude::*;

verus! {

/// Relies on chrono::Utc::now, which reads the wall clock: the result is
/// the current time as seconds since the epoch, and nothing can be
/// promised of its value.
#[verifier::external_body]
pub fn now_timestamp() -> i64 {
    chrono::Utc::now().timestamp()
}

} // verus!
