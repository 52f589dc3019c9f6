//! What the runtime takes from `std::time`: durations read as nanoseconds and
//! a monotonic clock read against a fixed starting point.

use std::time::Duration;
use std::time::Instant;
use vstd::prelude::*;

verus! {

/// `std::time::Instant`, a reading of the monotonic clock, carried as it is.
#[verifier::external_type_specification]
#[verifier::external_body]
pub struct ExInstant(Instant);

/// The length of a duration in nanoseconds.
pub uninterp spec fn duration_nanos(d: Duration) -> nat;

/// `Duration::as_nanos` returns the whole length of the duration in
/// nanoseconds; nothing else is claimed of the number.
pub assume_specification[ Duration::as_nanos ](d: &Duration) -> (nanos: u128)
    ensures
        nanos == duration_nanos(*d),
;

/// `Duration::from_millis` makes the duration of that many milliseconds.
pub assume_specification[ Duration::from_millis ](millis: u64) -> (d: Duration)
    ensures
        duration_nanos(d) == millis * 1_000_000,
;

/// `Instant::now` reads the monotonic clock; nothing is claimed of the reading.
pub assume_specification[ Instant::now ]() -> (now: Instant)
;

/// `Instant::elapsed` returns the time since the instant was taken; nothing is
/// claimed of its length.
pub assume_specification[ Instant::elapsed ](start: &Instant) -> (elapsed: Duration)
;

/// The text that `Duration`'s `Debug` prints, such as `30s` or `2ms`.
pub uninterp spec fn duration_debug_text(d: Duration) -> Seq<char>;

/// Formats a duration with `Duration`'s `Debug`; the contract only names the
/// text.
#[verifier::external_body]
pub(crate) fn duration_debug(d: &Duration) -> (text: String)
    ensures
        text@ == duration_debug_text(*d),
{
    format!("{:?}", d)
}

} // verus!
