use vstd::prelude::*;

verus! {

/// Relies on chrono::Utc::now: the current wall-clock time, reported as
/// whole seconds since the Unix epoch. The result depends on the machine's
/// clock, so nothing is promised of it; callers must handle every value.
/// Caveat: chrono itself panics when the host clock is set before the
/// Unix epoch, an environment condition no precondition here can exclude.
#[verifier::external_body]
pub(crate) fn unix_now() -> i64 {
    chrono::Utc::now().timestamp()
}

} // verus!
