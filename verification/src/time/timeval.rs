//! Timeval.

use std::time::Duration;
use vstd::prelude::*;
use super::microseconds::MicroSeconds;
use super::convert::{duration_secs, duration_subsec_micros};

verus! {

/// Bit set in `tv_usec` to mark that the `Timeval` is in monotonic time.
pub const RTCLOCK_BIT: i64 = 0x4000_0000;

/// A time value split into whole seconds and microseconds, laid out like the C `struct timeval`
/// of a 64-bit platform.
#[derive(Copy, Clone, Debug, PartialEq, Eq, Structural, Hash)]
pub struct Timeval {
    /// Seconds.
    pub tv_sec: i64,
    /// Microseconds.
    pub tv_usec: i64,
}

impl Timeval {
    /// Creates a new instance, with values provided.
    pub fn new(sec: i64, usec: i64) -> (r: Self)
        ensures
            r.tv_sec == sec,
            r.tv_usec == usec,
    {
        Timeval { tv_sec: sec, tv_usec: usec }
    }

    /// Creates a new instance, with value of zero.
    pub fn new_zero() -> (r: Self)
        ensures
            r.tv_sec == 0,
            r.tv_usec == 0,
    {
        Self::new(0, 0)
    }

    /// Sets to the specified monotonic value `v`, which must not be the ‘invalid’ marker.
    ///
    /// The `rtclock` boolean is used for indicating support of the rtclock (monotonic time). If
    /// `true`, the value is split into seconds and microseconds and the ‘rt’ flag bit (bit 30) is
    /// set in the microseconds, marking the value as monotonic. If `false`, the timestamp is
    /// converted to a Unix wallclock timestamp: the wallclock time now, `wc_now`, moved by as much
    /// as `v` lies after (or before) the monotonic time now, `rt_now`, both read by the caller
    /// from the system clocks. A timestamp that would lie before the Unix epoch becomes the epoch
    /// itself, as the system library's time subtraction floors at zero.
    pub fn set_rt(&mut self, v: MicroSeconds, rtclock: bool, rt_now: MicroSeconds, wc_now: MicroSeconds)
        requires
            v.0 != u64::MAX,
        ensures
            rtclock ==> final(self).tv_sec == v.0 / 1_000_000,
            rtclock ==> final(self).tv_usec == ((v.0 % 1_000_000) as i64) | RTCLOCK_BIT,
            !rtclock ==> final(self).tv_sec == wallclock_from_rtclock(v.0, rt_now.0, wc_now.0)
                / 1_000_000,
            !rtclock ==> final(self).tv_usec == wallclock_from_rtclock(v.0, rt_now.0, wc_now.0)
                % 1_000_000,
    {
        if rtclock {
            *self = Timeval::from(v);
            self.tv_usec = self.tv_usec | RTCLOCK_BIT;
        } else {
            let total: u128 = if rt_now.0 < v.0 {
                wc_now.0 as u128 + (v.0 - rt_now.0) as u128
            } else {
                let back = rt_now.0 - v.0;
                if wc_now.0 >= back {
                    (wc_now.0 - back) as u128
                } else {
                    0
                }
            };
            *self = Timeval::new((total / 1_000_000) as i64, (total % 1_000_000) as i64);
        }
    }
}

/// The wallclock time, in microseconds since the Unix epoch, of the monotonic time `v`, given
/// the monotonic time `rt_now` and the wallclock time `wc_now` of the same moment: `wc_now` moved
/// forward by as much as `v` lies after `rt_now`, or back by as much as it lies before, and no
/// earlier than the epoch.
pub open spec fn wallclock_from_rtclock(v: u64, rt_now: u64, wc_now: u64) -> int {
    if rt_now < v {
        wc_now + (v - rt_now)
    } else if wc_now >= rt_now - v {
        wc_now - (rt_now - v)
    } else {
        0
    }
}

impl From<MicroSeconds> for Timeval {
    /// Splits a number of microseconds into whole seconds and the microseconds left over.
    fn from(t: MicroSeconds) -> (r: Self) {
        let secs = (t.0 / super::MICROS_PER_SEC) as i64;
        let micros = (t.0 % super::MICROS_PER_SEC) as i64;
        Timeval::new(secs, micros)
    }
}

impl vstd::std_specs::convert::FromSpecImpl<MicroSeconds> for Timeval {
    open spec fn obeys_from_spec() -> bool {
        true
    }

    open spec fn from_spec(t: MicroSeconds) -> Timeval {
        Timeval { tv_sec: (t.0 / 1_000_000) as i64, tv_usec: (t.0 % 1_000_000) as i64 }
    }
}

impl From<Duration> for Timeval {
    /// Takes the whole seconds and the fractional microseconds of a `Duration`; a number of
    /// seconds above `i64::MAX` wraps, as the cast to `time_t` does.
    fn from(t: Duration) -> (r: Self) {
        let secs = t.as_secs() as i64;
        let micros = t.subsec_micros() as i64;
        Timeval::new(secs, micros)
    }
}

impl vstd::std_specs::convert::FromSpecImpl<Duration> for Timeval {
    open spec fn obeys_from_spec() -> bool {
        true
    }

    open spec fn from_spec(t: Duration) -> Timeval {
        Timeval { tv_sec: duration_secs(t) as i64, tv_usec: duration_subsec_micros(t) as i64 }
    }
}

} // verus!

verus! {

/// Splitting a number of microseconds into a `Timeval` loses nothing: the seconds times one
/// million plus the microseconds give the number back, and the microseconds are below one
/// million.
pub proof fn lemma_timeval_from_micros(t: MicroSeconds)
    ensures
        ({
            let tv = <Timeval as vstd::std_specs::convert::FromSpec<MicroSeconds>>::from_spec(t);
            &&& tv.tv_sec * 1_000_000 + tv.tv_usec == t.0
            &&& 0 <= tv.tv_usec < 1_000_000
            &&& tv.tv_sec >= 0
        }),
{
    assert((t.0 / 1_000_000) <= i64::MAX);
}

/// A `Duration` built from a number of microseconds gives the same `Timeval` as the number
/// itself.
pub proof fn lemma_timeval_from_duration_agrees(t: MicroSeconds, d: Duration)
    requires
        duration_secs(d) == t.0 / 1_000_000,
        duration_subsec_micros(d) == t.0 % 1_000_000,
    ensures
        <Timeval as vstd::std_specs::convert::FromSpec<Duration>>::from_spec(d)
            == <Timeval as vstd::std_specs::convert::FromSpec<MicroSeconds>>::from_spec(t),
{
}

} // verus!
