//! Wall-clock time, in milliseconds since the Unix epoch.

use vstd::prelude::*;

verus! {

/// Relies on chrono::Utc::now and DateTime::timestamp_millis: the current UTC
/// time in milliseconds since the Unix epoch. The value depends on the
/// moment of the call, so nothing is stated of it.
#[verifier::external_body]
pub fn now_millis() -> (r: i64) {
    chrono::Utc::now().timestamp_millis()
}

} // verus!
