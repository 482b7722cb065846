//! The wall clock, as provided by `chrono`.

use vstd::prelude::*;

verus! {

/// Calls `chrono::Utc::now` and hands out `timestamp_millis` of it: the
/// milliseconds since the Unix epoch. The value depends on the machine's
/// clock, so nothing is claimed of it. Like `Utc::now`, it does not return
/// where the system clock stands before the Unix epoch.
#[verifier::external_body]
pub(crate) fn now_millis() -> (now: i64) {
    chrono::Utc::now().timestamp_millis()
}

} // verus!
