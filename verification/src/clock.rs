//! The wall clock. Reading it is the one call into outside code that the
//! pipeline's logic makes; everything downstream of the reading is verified
//! for every possible value.

use vstd::prelude::*;

verus! {

/// Relies on chrono::Utc::now (and DateTime::timestamp_millis): the current
/// time as milliseconds since the Unix epoch. The reading is not under this
/// library's control — the clock may even step backwards between calls — so
/// nothing is promised of the value. Note that the underlying call panics
/// on a system clock set before the Unix epoch; no input can avoid that
/// here, it is a property of the process's environment.
#[verifier::external_body]
pub(crate) fn now_millis() -> i64 {
    chrono::Utc::now().timestamp_millis()
}

} // verus!
