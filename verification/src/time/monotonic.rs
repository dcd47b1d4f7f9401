//! Monotonic timestamps.

use std::ops::{Add, AddAssign, Sub, SubAssign};
use std::time::Duration;
use vstd::prelude::*;
use super::microseconds::{MicroSeconds, checked_result};
use super::convert::duration_total_micros;

verus! {

/// A monotonic timestamp.
///
/// The current value of the monotonic system clock is read at the application's edge and handed
/// in as a `MicroSeconds` value.
#[derive(Copy, Clone, Debug, PartialEq, Eq, Structural, PartialOrd, Ord, Hash)]
pub struct MonotonicTs(pub MicroSeconds);

/// What a checked operation on a timestamp gives back for a mathematical result `v`.
pub open spec fn checked_ts(v: int) -> Option<MonotonicTs> {
    match checked_result(v) {
        Some(us) => Some(MonotonicTs(us)),
        None => None,
    }
}

impl MonotonicTs {
    /// Returns `true` so long as inner value is not the ‘invalid’ marker.
    pub fn is_valid(&self) -> (r: bool)
        ensures
            r == ((self.0).0 != u64::MAX),
    {
        self.0.is_valid()
    }

    /// Checked addition. Computes `self + rhs`, returning `None` if overflow occurred.
    pub fn checked_add(self, rhs: MicroSeconds) -> (r: Option<Self>)
        ensures
            r == checked_ts((self.0).0 + rhs.0),
    {
        match self.0.checked_add(rhs) {
            Some(us) => Some(MonotonicTs(us)),
            None => None,
        }
    }

    /// Checked addition of a `Duration`. Computes `self + rhs`, returning `None` if the duration
    /// does not fit in microseconds or if overflow occurred.
    pub fn checked_add_duration(self, rhs: Duration) -> (r: Option<Self>)
        ensures
            r == (match checked_result(duration_total_micros(rhs)) {
                Some(us) => checked_ts((self.0).0 + us.0),
                None => None,
            }),
    {
        match self.0.checked_add_duration(rhs) {
            Some(us) => Some(MonotonicTs(us)),
            None => None,
        }
    }

    /// Checked subtraction. Computes `self - rhs`, returning `None` if overflow occurred.
    pub fn checked_sub(self, rhs: MicroSeconds) -> (r: Option<Self>)
        ensures
            r == checked_ts((self.0).0 - rhs.0),
    {
        match self.0.checked_sub(rhs) {
            Some(us) => Some(MonotonicTs(us)),
            None => None,
        }
    }

    /// Checked subtraction of a `Duration`. Computes `self - rhs`, returning `None` if the
    /// duration does not fit in microseconds or if overflow occurred.
    pub fn checked_sub_duration(self, rhs: Duration) -> (r: Option<Self>)
        ensures
            r == (match checked_result(duration_total_micros(rhs)) {
                Some(us) => checked_ts((self.0).0 - us.0),
                None => None,
            }),
    {
        match self.0.checked_sub_duration(rhs) {
            Some(us) => Some(MonotonicTs(us)),
            None => None,
        }
    }
}

impl Add<MicroSeconds> for MonotonicTs {
    type Output = Self;

    /// Addition; the sum must not overflow.
    fn add(self, rhs: MicroSeconds) -> (r: Self) {
        MonotonicTs(MicroSeconds((self.0).0 + rhs.0))
    }
}

impl vstd::std_specs::ops::AddSpecImpl<MicroSeconds> for MonotonicTs {
    open spec fn obeys_add_spec() -> bool {
        true
    }

    open spec fn add_req(self, rhs: MicroSeconds) -> bool {
        (self.0).0 + rhs.0 <= u64::MAX
    }

    open spec fn add_spec(self, rhs: MicroSeconds) -> Self {
        MonotonicTs(MicroSeconds(((self.0).0 + rhs.0) as u64))
    }
}

impl Sub<MicroSeconds> for MonotonicTs {
    type Output = Self;

    /// Subtraction; `rhs` must not exceed the timestamp.
    fn sub(self, rhs: MicroSeconds) -> (r: Self) {
        MonotonicTs(MicroSeconds((self.0).0 - rhs.0))
    }
}

impl vstd::std_specs::ops::SubSpecImpl<MicroSeconds> for MonotonicTs {
    open spec fn obeys_sub_spec() -> bool {
        true
    }

    open spec fn sub_req(self, rhs: MicroSeconds) -> bool {
        (self.0).0 >= rhs.0
    }

    open spec fn sub_spec(self, rhs: MicroSeconds) -> Self {
        MonotonicTs(MicroSeconds(((self.0).0 - rhs.0) as u64))
    }
}

impl Add<Duration> for MonotonicTs {
    type Output = Self;

    /// Addition of a `Duration`; the duration must fit in microseconds and the sum must not
    /// overflow.
    fn add(self, rhs: Duration) -> (r: Self) {
        MonotonicTs(self.0 + rhs)
    }
}

impl vstd::std_specs::ops::AddSpecImpl<Duration> for MonotonicTs {
    open spec fn obeys_add_spec() -> bool {
        true
    }

    open spec fn add_req(self, rhs: Duration) -> bool {
        (self.0).0 + duration_total_micros(rhs) <= u64::MAX
    }

    open spec fn add_spec(self, rhs: Duration) -> Self {
        MonotonicTs(MicroSeconds(((self.0).0 + duration_total_micros(rhs)) as u64))
    }
}

impl Sub<Duration> for MonotonicTs {
    type Output = Self;

    /// Subtraction of a `Duration`; the duration must fit in microseconds and must not exceed
    /// the timestamp.
    fn sub(self, rhs: Duration) -> (r: Self) {
        MonotonicTs(self.0 - rhs)
    }
}

impl vstd::std_specs::ops::SubSpecImpl<Duration> for MonotonicTs {
    open spec fn obeys_sub_spec() -> bool {
        true
    }

    open spec fn sub_req(self, rhs: Duration) -> bool {
        duration_total_micros(rhs) <= (self.0).0
    }

    open spec fn sub_spec(self, rhs: Duration) -> Self {
        MonotonicTs(MicroSeconds(((self.0).0 - duration_total_micros(rhs)) as u64))
    }
}

impl AddAssign<MicroSeconds> for MonotonicTs {
    /// Adds `rhs` in place; the sum must not overflow.
    fn add_assign(&mut self, rhs: MicroSeconds)
        requires
            (old(self).0).0 + rhs.0 <= u64::MAX,
        ensures
            (final(self).0).0 == (old(self).0).0 + rhs.0,
    {
        *self = *self + rhs;
    }
}

impl SubAssign<MicroSeconds> for MonotonicTs {
    /// Subtracts `rhs` in place; `rhs` must not exceed the timestamp.
    fn sub_assign(&mut self, rhs: MicroSeconds)
        requires
            (old(self).0).0 >= rhs.0,
        ensures
            (final(self).0).0 == (old(self).0).0 - rhs.0,
    {
        *self = *self - rhs;
    }
}

impl AddAssign<Duration> for MonotonicTs {
    /// Adds a `Duration` in place; the duration must fit in microseconds and the sum must not
    /// overflow.
    fn add_assign(&mut self, rhs: Duration)
        requires
            (old(self).0).0 + duration_total_micros(rhs) <= u64::MAX,
        ensures
            (final(self).0).0 == (old(self).0).0 + duration_total_micros(rhs),
    {
        *self = *self + rhs;
    }
}

impl SubAssign<Duration> for MonotonicTs {
    /// Subtracts a `Duration` in place; the duration must fit in microseconds and must not exceed
    /// the timestamp.
    fn sub_assign(&mut self, rhs: Duration)
        requires
            duration_total_micros(rhs) <= (old(self).0).0,
        ensures
            (final(self).0).0 == (old(self).0).0 - duration_total_micros(rhs),
    {
        *self = *self - rhs;
    }
}

} // verus!
