use std::time::Duration;
use libpulse_binding::timeval::MicroSeconds as Us;
use libpulse_binding::time::{MicroSeconds, MonotonicTs, Timeval, MICROS_PER_SEC, NANOS_PER_MICRO};

#[test]
fn microseconds_constants() {
    assert_eq!(MicroSeconds::invalid(), MicroSeconds(std::u64::MAX));
    assert_eq!(MicroSeconds::second(), MicroSeconds(1_000_000));
    assert_eq!(MicroSeconds::millisecond(), MicroSeconds(1_000));
    assert_eq!(MicroSeconds::zero(), MicroSeconds(0));
    assert_eq!(MicroSeconds::min_value(), MicroSeconds(0));
    assert_eq!(MicroSeconds::max_value(), MicroSeconds(std::u64::MAX - 1));
    assert_eq!(MicroSeconds(100).inner(), 100);
}

#[test]
fn microseconds_validity() {
    assert_eq!(MicroSeconds::min_value().is_valid(), true);
    assert_eq!(MicroSeconds::max_value().is_valid(), true);
    assert_eq!(MicroSeconds::invalid().is_valid(), false);
    assert_eq!(MicroSeconds::zero().is_valid(), true);
    assert_eq!(MicroSeconds(60 * MICROS_PER_SEC).is_valid(), true);
    assert_eq!(MicroSeconds::zero().is_zero(), true);
    assert_eq!(MicroSeconds(0).is_zero(), true);
    assert_eq!(MicroSeconds(1).is_zero(), false);
}

#[test]
fn microseconds_from_and_as() {
    assert_eq!(MicroSeconds::from_secs(2), Some(MicroSeconds(2_000_000)));
    assert_eq!(MicroSeconds::from_secs(0xffff_ffff_0000_0000), None);
    assert_eq!(MicroSeconds::from_millis(23), Some(MicroSeconds(23_000)));
    assert_eq!(MicroSeconds::from_millis(0xffff_ffff_0000_0000), None);
    assert_eq!(MicroSeconds(2_300_000).as_secs(), 2);
    assert_eq!(MicroSeconds(2_800_000).as_secs(), 2);
    assert_eq!(MicroSeconds(23_000_300).as_millis(), 23_000);
    assert_eq!(MicroSeconds(23_000_800).as_millis(), 23_000);
    assert_eq!(MicroSeconds::from_secs(7).unwrap().as_secs(), 7);
}

#[test]
fn microseconds_diff() {
    assert_eq!(MicroSeconds(0).diff(MicroSeconds(0)), MicroSeconds(0));
    assert_eq!(MicroSeconds(100).diff(MicroSeconds(100)), MicroSeconds(0));
    assert_eq!(MicroSeconds(200).diff(MicroSeconds(150)), MicroSeconds(50));
    assert_eq!(MicroSeconds(150).diff(MicroSeconds(200)), MicroSeconds(50));
}

#[test]
fn microseconds_checked_ops() {
    let quater_minute = MicroSeconds(15 * MICROS_PER_SEC);
    let half_minute = MicroSeconds(30 * MICROS_PER_SEC);
    let three_quater_minute = MicroSeconds(45 * MICROS_PER_SEC);
    let whole_minute = MicroSeconds(60 * MICROS_PER_SEC);
    assert_eq!(half_minute.checked_add(quater_minute), Some(three_quater_minute));
    assert_eq!(MicroSeconds::max_value().checked_add(half_minute), None);
    assert_eq!(whole_minute.checked_sub(quater_minute), Some(three_quater_minute));
    assert_eq!(quater_minute.checked_sub(whole_minute), None);
    assert_eq!(quater_minute.checked_mul(4), Some(whole_minute));
    assert_eq!(MicroSeconds::max_value().checked_mul(2), None);
    assert_eq!(whole_minute.checked_div(4), Some(quater_minute));
    assert_eq!(whole_minute.checked_div(0), None);
    assert_eq!(whole_minute.checked_rem(4), Some(MicroSeconds::zero()));
    assert_eq!(whole_minute.checked_rem(7), Some(MicroSeconds(4)));
    assert_eq!(whole_minute.checked_rem(0), None);
}

#[test]
fn microseconds_checked_duration_ops() {
    let half_minute = MicroSeconds(30 * MICROS_PER_SEC);
    let duration1 = Duration::new(2, 5 * NANOS_PER_MICRO + 20); // 2s + 5us + 20ns
    let duration2 = Duration::new(MicroSeconds::max_value().inner() / MICROS_PER_SEC, 0);
    assert_eq!(half_minute.checked_add_duration(duration1), Some(MicroSeconds(32_000_005)));
    assert_eq!(half_minute.checked_add_duration(duration2), None);
    let duration3 = Duration::new(45, 0);
    assert_eq!(half_minute.checked_sub_duration(duration1), Some(MicroSeconds(27_999_995)));
    assert_eq!(half_minute.checked_sub_duration(duration3), None);
    assert_eq!(half_minute.checked_add_duration(Duration::new(u64::MAX, 0)), None);
}

#[test]
fn microseconds_operators() {
    let a = MicroSeconds(1_500);
    assert_eq!(a + MicroSeconds(500), MicroSeconds(2_000));
    assert_eq!(a - MicroSeconds(500), MicroSeconds(1_000));
    assert_eq!(a * 3, MicroSeconds(4_500));
    assert_eq!(3 * a, MicroSeconds(4_500));
    assert_eq!(a / 2, MicroSeconds(750));
    assert_eq!(a % 7, MicroSeconds(2));
    assert_eq!(a + Duration::from_millis(2), MicroSeconds(3_500));
    assert_eq!(a - Duration::from_micros(499), MicroSeconds(1_001));
}

#[test]
fn microseconds_duration_conversions() {
    let micro = MicroSeconds(2_700_000);
    let duration = Duration::from_micros(2_700_000);
    let timeval = Timeval::new(2, 700_000);
    assert_eq!(MicroSeconds::try_from(duration).unwrap(), micro);
    assert_eq!(Duration::from(micro), duration);
    assert_eq!(Timeval::from(micro), timeval);
    assert_eq!(Timeval::from(duration), timeval);
    assert_eq!(MicroSeconds::try_from(Duration::new(u64::MAX, 0)), Err(()));
    // Sub-microsecond parts are dropped.
    assert_eq!(MicroSeconds::try_from(Duration::new(1, 999)).unwrap(), MicroSeconds(1_000_000));
    // Round trip of an arbitrary value.
    let m = MicroSeconds(123_456_789_012);
    assert_eq!(MicroSeconds::try_from(Duration::from(m)), Ok(m));
}

#[test]
fn timeval_basics() {
    assert_eq!(Timeval::new_zero(), Timeval::new(0, 0));
    assert_eq!(Timeval::from(MicroSeconds(0)), Timeval::new(0, 0));
    assert_eq!(Timeval::from(MicroSeconds(999_999)), Timeval::new(0, 999_999));
    assert_eq!(Timeval::from(MicroSeconds(u64::MAX)), Timeval::new(18_446_744_073_709, 551_615));
}

#[test]
fn monotonic_ts_ops() {
    let ts = MonotonicTs(MicroSeconds(10_000));
    assert!(ts.is_valid());
    assert!(!MonotonicTs(MicroSeconds::invalid()).is_valid());
    assert_eq!(ts.checked_add(MicroSeconds(5)), Some(MonotonicTs(MicroSeconds(10_005))));
    assert_eq!(ts.checked_sub(MicroSeconds(10_001)), None);
    assert_eq!(ts.checked_add(MicroSeconds(u64::MAX)), None);
    assert_eq!(ts.checked_add_duration(Duration::from_millis(1)), Some(MonotonicTs(MicroSeconds(11_000))));
    assert_eq!(ts.checked_sub_duration(Duration::from_millis(1)), Some(MonotonicTs(MicroSeconds(9_000))));
    assert_eq!(ts.checked_sub_duration(Duration::from_millis(11)), None);
    assert_eq!(ts + MicroSeconds(1), MonotonicTs(MicroSeconds(10_001)));
    assert_eq!(ts - MicroSeconds(1), MonotonicTs(MicroSeconds(9_999)));
    assert_eq!(ts + Duration::from_micros(2), MonotonicTs(MicroSeconds(10_002)));
    assert_eq!(ts - Duration::from_micros(2), MonotonicTs(MicroSeconds(9_998)));
}

#[test]
fn legacy_timeval_microseconds() {
    assert!(Us(5).is_valid());
    assert!(!Us(u64::MAX).is_valid());
    assert_eq!(Us(5).checked_add(Us(6)), Some(Us(11)));
    assert_eq!(Us(u64::MAX).checked_add(Us(1)), None);
    assert_eq!(Us(5).checked_sub(Us(6)), None);
    assert_eq!(Us(7).checked_mul(3), Some(Us(21)));
    assert_eq!(Us(7).checked_div(2), Some(Us(3)));
    assert_eq!(Us(7).checked_div(0), None);
    assert_eq!(Us(7).checked_rem(4), Some(Us(3)));
    assert_eq!(Us(7).checked_rem(0), None);
    assert_eq!(Us(7) + Us(1), Us(8));
    assert_eq!(Us(7) - Us(1), Us(6));
    assert_eq!(Us(7) * 2, Us(14));
    assert_eq!(Us(7) / 2, Us(3));
    assert_eq!(Us(7) % 2, Us(1));
}

#[test]
fn timeval_set_rt() {
    let mut tv = Timeval::new_zero();
    tv.set_rt(MicroSeconds(2_700_000), true, MicroSeconds(5_000_000), MicroSeconds(99_000_001));
    assert_eq!(tv, Timeval::new(2, 700_000 | (1 << 30)));
    tv.set_rt(MicroSeconds(2_700_000), false, MicroSeconds(5_000_000), MicroSeconds(99_000_001));
    assert_eq!(tv, Timeval::new(96, 700_001));
    tv.set_rt(MicroSeconds(7_000_000), false, MicroSeconds(5_000_000), MicroSeconds(99_000_001));
    assert_eq!(tv, Timeval::new(101, 1));
    tv.set_rt(MicroSeconds(5_000_000), false, MicroSeconds(5_000_000), MicroSeconds(99_000_001));
    assert_eq!(tv, Timeval::new(99, 1));
    tv.set_rt(MicroSeconds(2_700_000), false, MicroSeconds(5_000_000), MicroSeconds(1_000_000));
    assert_eq!(tv, Timeval::new(0, 0));
    tv.set_rt(MicroSeconds(u64::MAX - 1), false, MicroSeconds(0), MicroSeconds(u64::MAX));
    assert_eq!(tv, Timeval::new(36_893_488_147_419, 103_229));
}

#[test]
fn microseconds_to_string() {
    assert_eq!(MicroSeconds(2_700_000).to_string(), "2700000 µs");
    assert_eq!(MicroSeconds(0).to_string(), "0 µs");
    assert_eq!(MicroSeconds(7).to_string(), "7 µs");
    assert_eq!(MicroSeconds(u64::MAX).to_string(), "18446744073709551615 µs");
}
