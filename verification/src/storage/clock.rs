//! The clock of the machine, as far as the storage layer reads it.

use vstd::prelude::*;

verus! {

#[verifier::external_type_specification]
#[verifier::external_body]
pub struct ExInstant(std::time::Instant);

/// The length of a span of time in nanoseconds.
pub uninterp spec fn nanos_of(d: std::time::Duration) -> nat;

/// `Instant::now`: the present moment. Nothing is known of it.
#[verifier::external_body]
pub(crate) fn now() -> std::time::Instant {
    std::time::Instant::now()
}

/// `Instant::elapsed`: the time that has passed since a moment. It depends
/// on when it is asked for, so nothing is known of it.
#[verifier::external_body]
pub(crate) fn elapsed(since: &std::time::Instant) -> std::time::Duration {
    since.elapsed()
}

/// `Duration::as_nanos`: the length of a span in nanoseconds.
#[verifier::external_body]
pub(crate) fn nanos(d: &std::time::Duration) -> (r: u128)
    ensures
        r == nanos_of(*d),
{
    d.as_nanos()
}

/// `Utc::now` and `DateTime::timestamp` of `chrono`: the present moment in
/// whole seconds since the start of 1970. Nothing is known of it. `Utc::now`
/// does not return on a machine whose clock stands before 1970; no argument
/// decides that.
#[verifier::external_body]
pub(crate) fn unix_now() -> i64 {
    chrono::Utc::now().timestamp()
}

/// Whether the span `a` is longer than the span `b`.
pub fn longer(a: &std::time::Duration, b: &std::time::Duration) -> (r: bool)
    ensures
        r == (nanos_of(*a) > nanos_of(*b)),
{
    nanos(a) > nanos(b)
}

} // verus!
