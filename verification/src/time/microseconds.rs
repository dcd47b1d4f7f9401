//! MicroSeconds.

use std::ops::{Add, AddAssign, Div, DivAssign, Mul, MulAssign, Rem, RemAssign, Sub, SubAssign};
use std::time::Duration;
use vstd::prelude::*;
use super::convert::{duration_secs, duration_subsec_micros, duration_total_micros};
use crate::version::{decimal, digit_char};

verus! {

/// Microseconds. Represents a span of time like `std::time::Duration`.
///
/// This is an unsigned 64-bit type, and thus represents absolute values only.
#[derive(Copy, Clone, Debug, PartialEq, Eq, Structural, PartialOrd, Ord, Hash)]
pub struct MicroSeconds(pub u64);

/// What a checked operation gives back for a mathematical result `v`: the value where it fits in
/// 64 bits, `None` otherwise.
pub open spec fn checked_result(v: int) -> Option<MicroSeconds> {
    if 0 <= v <= u64::MAX {
        Some(MicroSeconds(v as u64))
    } else {
        None
    }
}

/// The absolute difference of two counts.
pub open spec fn abs_diff(a: u64, b: u64) -> int {
    if a >= b {
        a - b
    } else {
        b - a
    }
}

impl Default for MicroSeconds {
    /// Zero microseconds.
    fn default() -> (r: Self)
        ensures
            r.0 == 0,
    {
        MicroSeconds(0)
    }
}

impl MicroSeconds {
    /// `MicroSeconds` value representing an ‘invalid’ time (`u64::MAX`).
    pub fn invalid() -> (r: Self)
        ensures
            r.0 == u64::MAX,
    {
        MicroSeconds(0xffff_ffff_ffff_ffff)
    }

    /// One second in microseconds.
    pub fn second() -> (r: Self)
        ensures
            r.0 == 1_000_000,
    {
        MicroSeconds(super::MICROS_PER_SEC)
    }

    /// One millisecond in microseconds.
    pub fn millisecond() -> (r: Self)
        ensures
            r.0 == 1_000,
    {
        MicroSeconds(super::MICROS_PER_MILLI)
    }

    /// Zero value.
    pub fn zero() -> (r: Self)
        ensures
            r.0 == 0,
    {
        MicroSeconds(0)
    }

    /// Smallest _valid_ time value (zero).
    pub fn min_value() -> (r: Self)
        ensures
            r.0 == 0,
    {
        MicroSeconds(0)
    }

    /// Largest _valid_ time value (the largest integer value is reserved for representing
    /// ‘invalid’).
    pub fn max_value() -> (r: Self)
        ensures
            r.0 == u64::MAX - 1,
    {
        MicroSeconds(0xffff_ffff_ffff_fffe)
    }

    /// Get the inner `u64` value.
    pub fn inner(&self) -> (r: u64)
        ensures
            r == self.0,
    {
        self.0
    }

    /// Returns `true` so long as inner value is not the ‘invalid’ marker (`u64::MAX`).
    pub fn is_valid(&self) -> (r: bool)
        ensures
            r == (self.0 != u64::MAX),
    {
        self.0 != 0xffff_ffff_ffff_ffffu64
    }

    /// Returns `true` so long as inner value is zero.
    pub fn is_zero(&self) -> (r: bool)
        ensures
            r == (self.0 == 0),
    {
        self.0 == 0
    }

    /// Creates a new `MicroSeconds` from the specified number of whole seconds. Returns `None` on
    /// overflow.
    pub fn from_secs(secs: u64) -> (r: Option<Self>)
        ensures
            r == checked_result(secs * 1_000_000),
    {
        match secs.checked_mul(super::MICROS_PER_SEC) {
            Some(i) => Some(MicroSeconds(i)),
            None => None,
        }
    }

    /// Creates a new `MicroSeconds` from the specified number of whole milliseconds. Returns
    /// `None` on overflow.
    pub fn from_millis(millis: u64) -> (r: Option<Self>)
        ensures
            r == checked_result(millis * 1_000),
    {
        match millis.checked_mul(super::MICROS_PER_MILLI) {
            Some(i) => Some(MicroSeconds(i)),
            None => None,
        }
    }

    /// Returns the absolute difference with `other`.
    pub fn diff(self, other: Self) -> (r: Self)
        ensures
            r.0 == abs_diff(self.0, other.0),
    {
        if self.0 >= other.0 {
            MicroSeconds(self.0 - other.0)
        } else {
            MicroSeconds(other.0 - self.0)
        }
    }

    /// Returns the total number of whole seconds.
    pub fn as_secs(&self) -> (r: u64)
        ensures
            r == self.0 / 1_000_000,
    {
        self.0 / super::MICROS_PER_SEC
    }

    /// Returns the total number of whole milliseconds.
    pub fn as_millis(&self) -> (r: u64)
        ensures
            r == self.0 / 1_000,
    {
        self.0 / super::MICROS_PER_MILLI
    }

    /// Checked integer addition. Computes `self + rhs`, returning `None` if overflow occurred.
    pub fn checked_add(self, other: Self) -> (r: Option<Self>)
        ensures
            r == checked_result(self.0 + other.0),
    {
        match self.0.checked_add(other.0) {
            Some(i) => Some(MicroSeconds(i)),
            None => None,
        }
    }

    /// Checked addition of a `Duration`. Computes `self + rhs`, returning `None` if the duration
    /// does not fit in microseconds, or if overflow occurred. Any sub-microsecond part of the
    /// duration is dropped.
    pub fn checked_add_duration(self, rhs: Duration) -> (r: Option<Self>)
        ensures
            r == (match checked_result(duration_total_micros(rhs)) {
                Some(us) => checked_result(self.0 + us.0),
                None => None,
            }),
    {
        let usecs = match MicroSeconds::from_duration(rhs) {
            Some(u) => u,
            None => return None,
        };
        self.checked_add(usecs)
    }

    /// Checked integer subtraction. Computes `self - rhs`, returning `None` if overflow occurred.
    pub fn checked_sub(self, other: Self) -> (r: Option<Self>)
        ensures
            r == checked_result(self.0 - other.0),
    {
        match self.0.checked_sub(other.0) {
            Some(i) => Some(MicroSeconds(i)),
            None => None,
        }
    }

    /// Checked subtraction of a `Duration`. Computes `self - rhs`, returning `None` if the
    /// duration does not fit in microseconds, or if overflow occurred. Any sub-microsecond part of
    /// the duration is dropped.
    pub fn checked_sub_duration(self, rhs: Duration) -> (r: Option<Self>)
        ensures
            r == (match checked_result(duration_total_micros(rhs)) {
                Some(us) => checked_result(self.0 - us.0),
                None => None,
            }),
    {
        let usecs = match MicroSeconds::from_duration(rhs) {
            Some(u) => u,
            None => return None,
        };
        self.checked_sub(usecs)
    }

    /// Checked integer multiplication. Computes `self * rhs`, returning `None` if overflow
    /// occurred.
    pub fn checked_mul(self, rhs: u32) -> (r: Option<Self>)
        ensures
            r == checked_result(self.0 * rhs),
    {
        match self.0.checked_mul(rhs as u64) {
            Some(i) => Some(MicroSeconds(i)),
            None => None,
        }
    }

    /// Checked integer division. Computes `self / rhs`, returning `None` if `rhs == 0`.
    pub fn checked_div(self, rhs: u32) -> (r: Option<Self>)
        ensures
            rhs == 0 ==> r is None,
            rhs != 0 ==> r == Some(MicroSeconds(self.0 / (rhs as u64))),
    {
        match self.0.checked_div(rhs as u64) {
            Some(i) => Some(MicroSeconds(i)),
            None => None,
        }
    }

    /// Checked integer remainder. Computes `self % rhs`, returning `None` if `rhs == 0`.
    pub fn checked_rem(self, rhs: u32) -> (r: Option<Self>)
        ensures
            rhs == 0 ==> r is None,
            rhs != 0 ==> r == Some(MicroSeconds(self.0 % (rhs as u64))),
    {
        match self.0.checked_rem(rhs as u64) {
            Some(i) => Some(MicroSeconds(i)),
            None => None,
        }
    }

    /// Converts a `Duration` into microseconds, dropping any sub-microsecond part. Returns `None`
    /// where the value does not fit in 64 bits.
    pub(crate) fn from_duration(t: Duration) -> (r: Option<Self>)
        ensures
            r == checked_result(duration_total_micros(t)),
    {
        let secs = t.as_secs();
        let sub = t.subsec_micros();
        match secs.checked_mul(super::MICROS_PER_SEC) {
            Some(secs_as_micros) => match secs_as_micros.checked_add(sub as u64) {
                Some(total) => Some(MicroSeconds(total)),
                None => None,
            },
            None => {
                assert(duration_total_micros(t) > u64::MAX) by (nonlinear_arith)
                    requires
                        secs * 1_000_000 > u64::MAX,
                        duration_total_micros(t) == secs * 1_000_000 + sub,
                        sub >= 0,
                ;
                None
            },
        }
    }
}

/// The unit that follows the count when a value is shown: `" µs"`.
pub open spec fn unit_suffix() -> Seq<char> {
    seq![' ', 'µ', 's']
}

/// The decimal digit `d` as a one-character string.
fn digit_str(d: u64) -> (r: &'static str)
    requires
        d < 10,
    ensures
        r@ == seq![digit_char(d as nat)],
{
    proof {
        reveal_strlit("0");
        reveal_strlit("1");
        reveal_strlit("2");
        reveal_strlit("3");
        reveal_strlit("4");
        reveal_strlit("5");
        reveal_strlit("6");
        reveal_strlit("7");
        reveal_strlit("8");
        reveal_strlit("9");
    }
    if d == 0 {
        "0"
    } else if d == 1 {
        "1"
    } else if d == 2 {
        "2"
    } else if d == 3 {
        "3"
    } else if d == 4 {
        "4"
    } else if d == 5 {
        "5"
    } else if d == 6 {
        "6"
    } else if d == 7 {
        "7"
    } else if d == 8 {
        "8"
    } else {
        "9"
    }
}

/// Appends the decimal representation of `n` to `s`.
fn append_decimal(s: &mut String, n: u64)
    ensures
        final(s)@ == old(s)@ + decimal(n as nat),
    decreases n,
{
    if n >= 10 {
        append_decimal(s, n / 10);
    }
    let ghost before = s@;
    s.append(digit_str(n % 10));
    proof {
        if n >= 10 {
            assert(before == old(s)@ + decimal((n / 10) as nat));
            assert(s@ =~= old(s)@ + decimal((n / 10) as nat).push(digit_char((n % 10) as nat)));
        } else {
            assert(s@ =~= old(s)@ + decimal(n as nat));
        }
    }
}

impl MicroSeconds {
    /// The value shown as its count of microseconds followed by the unit, as in `"2700000 µs"`.
    pub fn to_string(&self) -> (r: String)
        ensures
            r@ == decimal(self.0 as nat) + unit_suffix(),
    {
        let mut s = String::new();
        append_decimal(&mut s, self.0);
        proof {
            reveal_strlit(" µs");
        }
        s.append(" µs");
        proof {
            assert(s@ =~= decimal(self.0 as nat) + unit_suffix());
        }
        s
    }
}

/// Adding then subtracting the same value gives back the first: where `a + b` does not
/// overflow, `(a + b) - b` is `a`.
pub proof fn lemma_add_sub_inverse(a: MicroSeconds, b: MicroSeconds)
    ensures
        checked_result(a.0 + b.0) matches Some(c) ==> checked_result(c.0 - b.0) == Some(a),
{
}

/// The difference of two values is symmetric, is zero exactly when they are equal, and adding it
/// to the smaller value gives the larger.
pub proof fn lemma_diff(a: MicroSeconds, b: MicroSeconds)
    ensures
        abs_diff(a.0, b.0) == abs_diff(b.0, a.0),
        (abs_diff(a.0, b.0) == 0) <==> a == b,
        a.0 <= b.0 ==> a.0 + abs_diff(a.0, b.0) == b.0,
{
}

/// Whole seconds survive a round trip: converting seconds to microseconds and back gives the
/// same number of seconds, and likewise for milliseconds.
pub proof fn lemma_secs_millis_round_trip(secs: u64, millis: u64)
    ensures
        checked_result(secs * 1_000_000) matches Some(us) ==> us.0 / 1_000_000 == secs,
        checked_result(millis * 1_000) matches Some(us) ==> us.0 / 1_000 == millis,
{
    assert((secs * 1_000_000) / 1_000_000 == secs) by (nonlinear_arith);
    assert((millis * 1_000) / 1_000 == millis) by (nonlinear_arith);
}

/// Multiplying by a non-zero factor and dividing by it gives back the value multiplied, where
/// the product does not overflow.
pub proof fn lemma_mul_div_inverse(a: MicroSeconds, k: u32)
    requires
        k != 0,
    ensures
        checked_result(a.0 * k) matches Some(p) ==> p.0 / (k as u64) == a.0,
{
    assert((a.0 * k) / (k as int) == a.0) by (nonlinear_arith)
        requires
            k != 0,
    ;
}

/// Converting microseconds to a `Duration` and back gives the same value: the duration built from
/// `m` microseconds (its whole seconds being the quotient of `m` by one million and its
/// fractional microseconds the remainder) converts back to `m`.
pub proof fn lemma_duration_round_trip(m: MicroSeconds, d: Duration)
    requires
        duration_secs(d) == m.0 / 1_000_000,
        duration_subsec_micros(d) == m.0 % 1_000_000,
    ensures
        checked_result(duration_total_micros(d)) == Some(m),
{
}

impl Add for MicroSeconds {
    type Output = Self;

    /// Addition; the sum must not overflow (where the checked form gives `None`).
    fn add(self, other: Self) -> (r: Self) {
        MicroSeconds(self.0 + other.0)
    }
}

impl vstd::std_specs::ops::AddSpecImpl for MicroSeconds {
    open spec fn obeys_add_spec() -> bool {
        true
    }

    open spec fn add_req(self, other: Self) -> bool {
        self.0 + other.0 <= u64::MAX
    }

    open spec fn add_spec(self, other: Self) -> Self {
        MicroSeconds((self.0 + other.0) as u64)
    }
}

impl Sub for MicroSeconds {
    type Output = Self;

    /// Subtraction; `other` must not exceed `self`.
    fn sub(self, other: Self) -> (r: Self) {
        MicroSeconds(self.0 - other.0)
    }
}

impl vstd::std_specs::ops::SubSpecImpl for MicroSeconds {
    open spec fn obeys_sub_spec() -> bool {
        true
    }

    open spec fn sub_req(self, other: Self) -> bool {
        self.0 >= other.0
    }

    open spec fn sub_spec(self, other: Self) -> Self {
        MicroSeconds((self.0 - other.0) as u64)
    }
}

impl Add<Duration> for MicroSeconds {
    type Output = Self;

    /// Addition of a `Duration`; the duration must fit in microseconds and the sum must not
    /// overflow.
    fn add(self, rhs: Duration) -> (r: Self) {
        match self.checked_add_duration(rhs) {
            Some(r) => r,
            None => {
                assert(false);
                self
            },
        }
    }
}

impl vstd::std_specs::ops::AddSpecImpl<Duration> for MicroSeconds {
    open spec fn obeys_add_spec() -> bool {
        true
    }

    open spec fn add_req(self, rhs: Duration) -> bool {
        self.0 + duration_total_micros(rhs) <= u64::MAX
    }

    open spec fn add_spec(self, rhs: Duration) -> Self {
        MicroSeconds((self.0 + duration_total_micros(rhs)) as u64)
    }
}

impl Sub<Duration> for MicroSeconds {
    type Output = Self;

    /// Subtraction of a `Duration`; the duration must fit in microseconds and must not exceed
    /// `self`.
    fn sub(self, rhs: Duration) -> (r: Self) {
        match self.checked_sub_duration(rhs) {
            Some(r) => r,
            None => {
                assert(false);
                self
            },
        }
    }
}

impl vstd::std_specs::ops::SubSpecImpl<Duration> for MicroSeconds {
    open spec fn obeys_sub_spec() -> bool {
        true
    }

    open spec fn sub_req(self, rhs: Duration) -> bool {
        duration_total_micros(rhs) <= self.0
    }

    open spec fn sub_spec(self, rhs: Duration) -> Self {
        MicroSeconds((self.0 - duration_total_micros(rhs)) as u64)
    }
}

impl Mul<u32> for MicroSeconds {
    type Output = Self;

    /// Multiplication; the product must not overflow.
    fn mul(self, rhs: u32) -> (r: Self) {
        MicroSeconds(self.0 * (rhs as u64))
    }
}

impl vstd::std_specs::ops::MulSpecImpl<u32> for MicroSeconds {
    open spec fn obeys_mul_spec() -> bool {
        true
    }

    open spec fn mul_req(self, rhs: u32) -> bool {
        self.0 * rhs <= u64::MAX
    }

    open spec fn mul_spec(self, rhs: u32) -> Self {
        MicroSeconds((self.0 * rhs) as u64)
    }
}

impl Mul<MicroSeconds> for u32 {
    type Output = MicroSeconds;

    /// Multiplication; the product must not overflow.
    fn mul(self, rhs: MicroSeconds) -> (r: MicroSeconds) {
        MicroSeconds(rhs.0 * (self as u64))
    }
}

impl vstd::std_specs::ops::MulSpecImpl<MicroSeconds> for u32 {
    open spec fn obeys_mul_spec() -> bool {
        true
    }

    open spec fn mul_req(self, rhs: MicroSeconds) -> bool {
        rhs.0 * self <= u64::MAX
    }

    open spec fn mul_spec(self, rhs: MicroSeconds) -> MicroSeconds {
        MicroSeconds((rhs.0 * self) as u64)
    }
}

impl Div<u32> for MicroSeconds {
    type Output = Self;

    /// Division; the divisor must not be zero.
    fn div(self, rhs: u32) -> (r: Self) {
        MicroSeconds(self.0 / (rhs as u64))
    }
}

impl vstd::std_specs::ops::DivSpecImpl<u32> for MicroSeconds {
    open spec fn obeys_div_spec() -> bool {
        true
    }

    open spec fn div_req(self, rhs: u32) -> bool {
        rhs != 0
    }

    open spec fn div_spec(self, rhs: u32) -> Self {
        MicroSeconds(self.0 / (rhs as u64))
    }
}

impl Rem<u32> for MicroSeconds {
    type Output = Self;

    /// Remainder; the divisor must not be zero.
    fn rem(self, rhs: u32) -> (r: Self) {
        MicroSeconds(self.0 % (rhs as u64))
    }
}

impl vstd::std_specs::ops::RemSpecImpl<u32> for MicroSeconds {
    open spec fn obeys_rem_spec() -> bool {
        true
    }

    open spec fn rem_req(self, rhs: u32) -> bool {
        rhs != 0
    }

    open spec fn rem_spec(self, rhs: u32) -> Self {
        MicroSeconds(self.0 % (rhs as u64))
    }
}

impl AddAssign for MicroSeconds {
    /// Adds `rhs` in place; the sum must not overflow.
    fn add_assign(&mut self, rhs: Self)
        requires
            old(self).0 + rhs.0 <= u64::MAX,
        ensures
            final(self).0 == old(self).0 + rhs.0,
    {
        *self = *self + rhs;
    }
}

impl SubAssign for MicroSeconds {
    /// Subtracts `rhs` in place; `rhs` must not exceed `self`.
    fn sub_assign(&mut self, rhs: Self)
        requires
            old(self).0 >= rhs.0,
        ensures
            final(self).0 == old(self).0 - rhs.0,
    {
        *self = *self - rhs;
    }
}

impl MulAssign<u32> for MicroSeconds {
    /// Multiplies in place; the product must not overflow.
    fn mul_assign(&mut self, rhs: u32)
        requires
            old(self).0 * rhs <= u64::MAX,
        ensures
            final(self).0 == old(self).0 * rhs,
    {
        *self = *self * rhs;
    }
}

impl DivAssign<u32> for MicroSeconds {
    /// Divides in place; the divisor must not be zero.
    fn div_assign(&mut self, rhs: u32)
        requires
            rhs != 0,
        ensures
            final(self).0 == old(self).0 / (rhs as u64),
    {
        *self = *self / rhs;
    }
}

impl RemAssign<u32> for MicroSeconds {
    /// Takes the remainder in place; the divisor must not be zero.
    fn rem_assign(&mut self, rhs: u32)
        requires
            rhs != 0,
        ensures
            final(self).0 == old(self).0 % (rhs as u64),
    {
        *self = *self % rhs;
    }
}

impl AddAssign<Duration> for MicroSeconds {
    /// Adds a `Duration` in place; the duration must fit in microseconds and the sum must not
    /// overflow.
    fn add_assign(&mut self, rhs: Duration)
        requires
            old(self).0 + duration_total_micros(rhs) <= u64::MAX,
        ensures
            final(self).0 == old(self).0 + duration_total_micros(rhs),
    {
        *self = *self + rhs;
    }
}

impl SubAssign<Duration> for MicroSeconds {
    /// Subtracts a `Duration` in place; the duration must fit in microseconds and must not exceed
    /// `self`.
    fn sub_assign(&mut self, rhs: Duration)
        requires
            duration_total_micros(rhs) <= old(self).0,
        ensures
            final(self).0 == old(self).0 - duration_total_micros(rhs),
    {
        *self = *self - rhs;
    }
}

} // verus!
