//! Wall-clock timestamps for records and events.

use vstd::prelude::*;

verus! {

/// Relies on chrono's `Utc::now` and `DateTime::to_rfc3339`: the current
/// wall-clock time rendered as an RFC 3339 string. The value depends on the
/// clock, so nothing is assumed about it; callers state what holds of every
/// outcome. (`Utc::now` has a documented panic on a system clock set before
/// the Unix epoch; no contract here rests on the call returning.)
#[verifier::external_body]
pub(crate) fn now_rfc3339() -> String {
    chrono::Utc::now().to_rfc3339()
}

} // verus!
