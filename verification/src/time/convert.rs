//! Conversions between `MicroSeconds` and `std::time::Duration`.

use std::time::Duration;
use vstd::prelude::*;
use super::microseconds::{MicroSeconds, checked_result};

verus! {

/// The number of whole seconds in a `Duration`: what `Duration::as_secs` returns for it.
pub uninterp spec fn duration_secs(d: Duration) -> u64;

/// The fractional part of a `Duration` in whole microseconds: what `Duration::subsec_micros`
/// returns for it.
pub uninterp spec fn duration_subsec_micros(d: Duration) -> u32;

/// The `Duration` that `Duration::from_micros` builds from a number of microseconds.
pub uninterp spec fn duration_from_micros(micros: u64) -> Duration;

/// The length of a `Duration` in whole microseconds (sub-microsecond parts dropped), as an
/// unbounded integer.
pub open spec fn duration_total_micros(d: Duration) -> int {
    duration_secs(d) * 1_000_000 + duration_subsec_micros(d)
}

/// `Duration::as_secs`: its documentation says it returns the number of whole seconds contained
/// by the duration. This names that number; nothing more is claimed.
pub assume_specification[ core::time::Duration::as_secs ](d: &Duration) -> (r: u64)
    ensures
        r == duration_secs(*d),
;

/// `Duration::subsec_micros`: its documentation says it returns the fractional part of the
/// duration in whole microseconds, which is therefore below one million.
pub assume_specification[ core::time::Duration::subsec_micros ](d: &Duration) -> (r: u32)
    ensures
        r == duration_subsec_micros(*d),
        r < 1_000_000,
;

/// `Duration::from_micros`: its documentation says it creates a duration from the given number of
/// microseconds, so the whole seconds are the quotient by one million and the fractional
/// microseconds the remainder.
pub assume_specification[ core::time::Duration::from_micros ](micros: u64) -> (r: Duration)
    ensures
        r == duration_from_micros(micros),
        duration_secs(r) == micros / 1_000_000,
        duration_subsec_micros(r) == micros % 1_000_000,
;

impl TryFrom<Duration> for MicroSeconds {
    type Error = ();

    /// Converts a `Duration`, dropping any sub-microsecond part; `Err` where it does not fit.
    fn try_from(t: Duration) -> (r: Result<Self, Self::Error>) {
        match MicroSeconds::from_duration(t) {
            Some(us) => Ok(us),
            None => Err(()),
        }
    }
}

impl vstd::std_specs::convert::TryFromSpecImpl<Duration> for MicroSeconds {
    open spec fn obeys_try_from_spec() -> bool {
        true
    }

    open spec fn try_from_spec(t: Duration) -> Result<Self, ()> {
        match checked_result(duration_total_micros(t)) {
            Some(us) => Ok(us),
            None => Err(()),
        }
    }
}

impl From<MicroSeconds> for Duration {
    fn from(t: MicroSeconds) -> (r: Duration) {
        Duration::from_micros(t.0)
    }
}

impl vstd::std_specs::convert::FromSpecImpl<MicroSeconds> for Duration {
    open spec fn obeys_from_spec() -> bool {
        true
    }

    open spec fn from_spec(t: MicroSeconds) -> Duration {
        duration_from_micros(t.0)
    }
}

} // verus!
