//! Utility functions for handling timeval calculations (the older interface, kept beside
//! [`time`](crate::time)).
//!
//! Time can be expressed to PulseAudio in two forms, either Unix time ("wallclock"), or real-time
//! (monotonic). `MicroSeconds` values here are plain counts; the type does not tell which of the
//! two they are.

use std::ops::{Add, AddAssign, Div, DivAssign, Mul, MulAssign, Rem, RemAssign, Sub, SubAssign};
use vstd::prelude::*;
use crate::time::microseconds::checked_result as checked_time_result;

verus! {

/// Nanoseconds per second.
pub const NANOS_PER_SEC: u32 = 1_000_000_000;
/// Nanoseconds per millisecond.
pub const NANOS_PER_MILLI: u32 = 1_000_000;
/// Nanoseconds per microsecond.
pub const NANOS_PER_MICRO: u32 = 1_000;
/// Microseconds per second.
pub const MICROS_PER_SEC: u64 = 1_000_000;
/// Microseconds per millisecond.
pub const MICROS_PER_MILLI: u64 = 1_000;
/// Milliseconds per second.
pub const MILLIS_PER_SEC: u64 = 1_000;

/// Microseconds.
#[derive(Copy, Clone, Debug, Default, PartialEq, Eq, Structural, PartialOrd, Ord)]
pub struct MicroSeconds(pub u64);

/// What a checked operation gives back for a mathematical result `v`: the value where it fits in
/// 64 bits, `None` otherwise.
pub open spec fn checked_result(v: int) -> Option<MicroSeconds> {
    match checked_time_result(v) {
        Some(us) => Some(MicroSeconds(us.0)),
        None => None,
    }
}

impl MicroSeconds {
    /// Returns `true` so long as the value is not the ‘invalid’ marker (`u64::MAX`).
    pub fn is_valid(&self) -> (r: bool)
        ensures
            r == (self.0 != u64::MAX),
    {
        self.0 != 0xffff_ffff_ffff_ffffu64
    }

    /// Checked addition; `None` on overflow.
    pub fn checked_add(self, other: Self) -> (r: Option<Self>)
        ensures
            r == checked_result(self.0 + other.0),
    {
        match self.0.checked_add(other.0) {
            Some(i) => Some(MicroSeconds(i)),
            None => None,
        }
    }

    /// Checked subtraction; `None` on overflow.
    pub fn checked_sub(self, other: Self) -> (r: Option<Self>)
        ensures
            r == checked_result(self.0 - other.0),
    {
        match self.0.checked_sub(other.0) {
            Some(i) => Some(MicroSeconds(i)),
            None => None,
        }
    }

    /// Checked multiplication; `None` on overflow.
    pub fn checked_mul(self, rhs: u32) -> (r: Option<Self>)
        ensures
            r == checked_result(self.0 * rhs),
    {
        match self.0.checked_mul(rhs as u64) {
            Some(i) => Some(MicroSeconds(i)),
            None => None,
        }
    }

    /// Checked division; `None` if `rhs == 0`.
    pub fn checked_div(self, rhs: u32) -> (r: Option<Self>)
        ensures
            rhs == 0 ==> r is None,
            rhs != 0 ==> r == Some(MicroSeconds(self.0 / (rhs as u64))),
    {
        match self.0.checked_div(rhs as u64) {
            Some(i) => Some(MicroSeconds(i)),
            None => None,
        }
    }

    /// Checked remainder; `None` if `rhs == 0`.
    pub fn checked_rem(self, rhs: u32) -> (r: Option<Self>)
        ensures
            rhs == 0 ==> r is None,
            rhs != 0 ==> r == Some(MicroSeconds(self.0 % (rhs as u64))),
    {
        match self.0.checked_rem(rhs as u64) {
            Some(i) => Some(MicroSeconds(i)),
            None => None,
        }
    }
}

impl Add for MicroSeconds {
    type Output = Self;

    /// Addition; the sum must not overflow.
    fn add(self, other: Self) -> (r: Self) {
        MicroSeconds(self.0 + other.0)
    }
}

impl vstd::std_specs::ops::AddSpecImpl for MicroSeconds {
    open spec fn obeys_add_spec() -> bool {
        true
    }

    open spec fn add_req(self, other: Self) -> bool {
        self.0 + other.0 <= u64::MAX
    }

    open spec fn add_spec(self, other: Self) -> Self {
        MicroSeconds((self.0 + other.0) as u64)
    }
}

impl Sub for MicroSeconds {
    type Output = Self;

    /// Subtraction; `other` must not exceed `self`.
    fn sub(self, other: Self) -> (r: Self) {
        MicroSeconds(self.0 - other.0)
    }
}

impl vstd::std_specs::ops::SubSpecImpl for MicroSeconds {
    open spec fn obeys_sub_spec() -> bool {
        true
    }

    open spec fn sub_req(self, other: Self) -> bool {
        self.0 >= other.0
    }

    open spec fn sub_spec(self, other: Self) -> Self {
        MicroSeconds((self.0 - other.0) as u64)
    }
}

impl Mul<u32> for MicroSeconds {
    type Output = Self;

    /// Multiplication; the product must not overflow.
    fn mul(self, rhs: u32) -> (r: Self) {
        MicroSeconds(self.0 * (rhs as u64))
    }
}

impl vstd::std_specs::ops::MulSpecImpl<u32> for MicroSeconds {
    open spec fn obeys_mul_spec() -> bool {
        true
    }

    open spec fn mul_req(self, rhs: u32) -> bool {
        self.0 * rhs <= u64::MAX
    }

    open spec fn mul_spec(self, rhs: u32) -> Self {
        MicroSeconds((self.0 * rhs) as u64)
    }
}

impl Div<u32> for MicroSeconds {
    type Output = Self;

    /// Division; the divisor must not be zero.
    fn div(self, rhs: u32) -> (r: Self) {
        MicroSeconds(self.0 / (rhs as u64))
    }
}

impl vstd::std_specs::ops::DivSpecImpl<u32> for MicroSeconds {
    open spec fn obeys_div_spec() -> bool {
        true
    }

    open spec fn div_req(self, rhs: u32) -> bool {
        rhs != 0
    }

    open spec fn div_spec(self, rhs: u32) -> Self {
        MicroSeconds(self.0 / (rhs as u64))
    }
}

impl Rem<u32> for MicroSeconds {
    type Output = Self;

    /// Remainder; the divisor must not be zero.
    fn rem(self, rhs: u32) -> (r: Self) {
        MicroSeconds(self.0 % (rhs as u64))
    }
}

impl vstd::std_specs::ops::RemSpecImpl<u32> for MicroSeconds {
    open spec fn obeys_rem_spec() -> bool {
        true
    }

    open spec fn rem_req(self, rhs: u32) -> bool {
        rhs != 0
    }

    open spec fn rem_spec(self, rhs: u32) -> Self {
        MicroSeconds(self.0 % (rhs as u64))
    }
}

impl AddAssign for MicroSeconds {
    /// Adds `rhs` in place; the sum must not overflow.
    fn add_assign(&mut self, rhs: Self)
        requires
            old(self).0 + rhs.0 <= u64::MAX,
        ensures
            final(self).0 == old(self).0 + rhs.0,
    {
        *self = *self + rhs;
    }
}

impl SubAssign for MicroSeconds {
    /// Subtracts `rhs` in place; `rhs` must not exceed `self`.
    fn sub_assign(&mut self, rhs: Self)
        requires
            old(self).0 >= rhs.0,
        ensures
            final(self).0 == old(self).0 - rhs.0,
    {
        *self = *self - rhs;
    }
}

impl MulAssign<u32> for MicroSeconds {
    /// Multiplies in place; the product must not overflow.
    fn mul_assign(&mut self, rhs: u32)
        requires
            old(self).0 * rhs <= u64::MAX,
        ensures
            final(self).0 == old(self).0 * rhs,
    {
        *self = *self * rhs;
    }
}

impl DivAssign<u32> for MicroSeconds {
    /// Divides in place; the divisor must not be zero.
    fn div_assign(&mut self, rhs: u32)
        requires
            rhs != 0,
        ensures
            final(self).0 == old(self).0 / (rhs as u64),
    {
        *self = *self / rhs;
    }
}

impl RemAssign<u32> for MicroSeconds {
    /// Takes the remainder in place; the divisor must not be zero.
    fn rem_assign(&mut self, rhs: u32)
        requires
            rhs != 0,
        ensures
            final(self).0 == old(self).0 % (rhs as u64),
    {
        *self = *self % rhs;
    }
}

} // verus!
