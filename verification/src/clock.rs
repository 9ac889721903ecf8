//! Thin access to the wall clock for time-based termination and for timing
//! whole runs. The clock is inherently nondeterministic, so nothing is
//! promised about the values these return.
use vstd::prelude::*;

verus! {

#[verifier::external_type_specification]
#[verifier::external_body]
pub struct ExSystemTime(std::time::SystemTime);

/// Relies on `std::time::SystemTime::now`: the current wall-clock time.
#[verifier::external_body]
pub(crate) fn now() -> std::time::SystemTime {
    std::time::SystemTime::now()
}

/// Relies on `std::time::SystemTime::checked_add`: the time `d` after `t`,
/// or `None` if that cannot be represented.
#[verifier::external_body]
pub(crate) fn time_add(t: &std::time::SystemTime, d: &core::time::Duration) -> Option<
    std::time::SystemTime,
> {
    t.checked_add(*d)
}

/// Relies on `SystemTime`'s `PartialOrd`: whether `a` is at or past `b`.
#[verifier::external_body]
pub(crate) fn time_at_or_past(a: &std::time::SystemTime, b: &std::time::SystemTime) -> bool {
    *a >= *b
}

/// Relies on `std::time::SystemTime::elapsed`: the wall-clock time since
/// `t`, or `None` if the clock has moved backwards meanwhile.
#[verifier::external_body]
pub(crate) fn elapsed_since(t: &std::time::SystemTime) -> Option<core::time::Duration> {
    t.elapsed().ok()
}

/// Relies on `core::time::Duration::from_secs`.
#[verifier::external_body]
pub(crate) fn duration_from_secs(secs: u64) -> core::time::Duration {
    core::time::Duration::from_secs(secs)
}

} // verus!
