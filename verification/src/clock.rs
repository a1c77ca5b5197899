//! The monotonic clock: instants and the time between them.

use vstd::prelude::*;

verus! {

/// The monotonic clock of the standard library, held opaque.
#[verifier::external_type_specification]
#[verifier::external_body]
pub struct ExInstant(std::time::Instant);

/// `Instant` is `Copy`: its `clone` gives back the same instant.
pub assume_specification[ <std::time::Instant as std::clone::Clone>::clone ](instant: &std::time::Instant) -> (r: std::time::Instant)
    ensures
        r == *instant,
;

/// Calls `std::time::Instant::now`. Nothing is promised about the instant:
/// it is the clock at the time of the call.
#[verifier::external_body]
pub(crate) fn instant_now() -> (r: std::time::Instant) {
    std::time::Instant::now()
}

/// Calls `Instant::elapsed` and converts the duration to whole milliseconds
/// (`Duration::as_millis`). Nothing is promised about the value: it depends on
/// the clock at the time of the call.
#[verifier::external_body]
pub(crate) fn millis_since(start: &std::time::Instant) -> (r: u128) {
    start.elapsed().as_millis()
}

/// Calls `Instant::duration_since` (which gives zero when `later` is
/// not after `earlier`) and converts the duration to whole milliseconds.
/// Instants are opaque here: what is stated is only that an instant is no
/// time after itself.
#[verifier::external_body]
pub(crate) fn millis_between(earlier: &std::time::Instant, later: &std::time::Instant) -> (r: u128)
    ensures
        *later == *earlier ==> r == 0,
{
    later.duration_since(*earlier).as_millis()
}

} // verus!
