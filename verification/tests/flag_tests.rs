use libpulse_binding::context::flags as context_flags;
use libpulse_binding::context::subscribe::InterestMaskSet;
use libpulse_binding::def::{Device, SinkFlagSet, SourceFlagSet, TimingInfo};
use libpulse_binding::direction::flags as direction_flags;
use libpulse_binding::sample::Format;
use libpulse_binding::stream::{Direction, FlagSet, SeekMode};
use libpulse_binding::time::{MicroSeconds, MonotonicTs, Timeval, UnixTs};
use libpulse_binding::timeval::MicroSeconds as Us;
use std::time::Duration;

#[test]
fn sink_flag_set_values() {
    assert_eq!(SinkFlagSet::noflags().bits(), 0);
    assert_eq!(SinkFlagSet::hw_volume_ctrl().bits(), 1 << 0);
    assert_eq!(SinkFlagSet::latency().bits(), 1 << 1);
    assert_eq!(SinkFlagSet::hardware().bits(), 1 << 2);
    assert_eq!(SinkFlagSet::network().bits(), 1 << 3);
    assert_eq!(SinkFlagSet::hw_mute_ctrl().bits(), 1 << 4);
    assert_eq!(SinkFlagSet::decibel_volume().bits(), 1 << 5);
    assert_eq!(SinkFlagSet::flat_volume().bits(), 1 << 6);
    assert_eq!(SinkFlagSet::dynamic_latency().bits(), 1 << 7);
    assert_eq!(SinkFlagSet::set_formats().bits(), 1 << 8);
    assert_eq!(SinkFlagSet::all().bits(), 0x1ff);
}

#[test]
fn source_flag_set_values() {
    assert_eq!(SourceFlagSet::noflags().bits(), 0);
    assert_eq!(SourceFlagSet::hw_volume_ctrl().bits(), 1 << 0);
    assert_eq!(SourceFlagSet::latency().bits(), 1 << 1);
    assert_eq!(SourceFlagSet::hardware().bits(), 1 << 2);
    assert_eq!(SourceFlagSet::network().bits(), 1 << 3);
    assert_eq!(SourceFlagSet::hw_mute_ctrl().bits(), 1 << 4);
    assert_eq!(SourceFlagSet::decibel_volume().bits(), 1 << 5);
    assert_eq!(SourceFlagSet::dynamic_latency().bits(), 1 << 6);
    assert_eq!(SourceFlagSet::flat_volume().bits(), 1 << 7);
    assert_eq!(SourceFlagSet::all().bits(), 0xff);
}

#[test]
fn stream_flag_set_values() {
    assert_eq!(FlagSet::default().bits(), 0);
    assert_eq!(FlagSet::start_corked().bits(), 1 << 0);
    assert_eq!(FlagSet::interpolate_timing().bits(), 1 << 1);
    assert_eq!(FlagSet::not_monotonic().bits(), 1 << 2);
    assert_eq!(FlagSet::auto_timing_update().bits(), 1 << 3);
    assert_eq!(FlagSet::no_remap_channels().bits(), 1 << 4);
    assert_eq!(FlagSet::no_remix_channels().bits(), 1 << 5);
    assert_eq!(FlagSet::fix_format().bits(), 1 << 6);
    assert_eq!(FlagSet::fix_rate().bits(), 1 << 7);
    assert_eq!(FlagSet::fix_channels().bits(), 1 << 8);
    assert_eq!(FlagSet::dont_move().bits(), 1 << 9);
    assert_eq!(FlagSet::variable_rate().bits(), 1 << 10);
    assert_eq!(FlagSet::peak_detect().bits(), 1 << 11);
    assert_eq!(FlagSet::start_muted().bits(), 1 << 12);
    assert_eq!(FlagSet::adjust_latency().bits(), 1 << 13);
    assert_eq!(FlagSet::early_requests().bits(), 1 << 14);
    assert_eq!(FlagSet::dont_inhibit_auto_suspend().bits(), 1 << 15);
    assert_eq!(FlagSet::start_unmuted().bits(), 1 << 16);
    assert_eq!(FlagSet::fail_on_suspend().bits(), 1 << 17);
    assert_eq!(FlagSet::relative_volume().bits(), 1 << 18);
    assert_eq!(FlagSet::passthrough().bits(), 1 << 19);
    assert_eq!(FlagSet::all().bits(), 0xfffff);
}

#[test]
fn flag_set_operations() {
    let a = SinkFlagSet::latency().union(SinkFlagSet::hardware());
    assert_eq!(a.bits(), 0x6);
    assert!(a.contains(SinkFlagSet::latency()));
    assert!(!a.contains(SinkFlagSet::network()));
    assert!(a.intersects(SinkFlagSet::hardware().union(SinkFlagSet::network())));
    assert!(!a.intersects(SinkFlagSet::network()));
    assert_eq!(a.intersection(SinkFlagSet::hardware()).bits(), 0x4);
    assert_eq!(a.difference(SinkFlagSet::hardware()).bits(), 0x2);
    assert_eq!(a.symmetric_difference(SinkFlagSet::network()).bits(), 0xe);
    assert_eq!(a.complement().bits(), 0x1f9);
    assert!(SinkFlagSet::empty().is_empty());
    assert!(SinkFlagSet::all().is_all());
    assert!(!a.is_empty() && !a.is_all());
    assert_eq!(SinkFlagSet::from_bits(0x1ff).map(|s| s.bits()), Some(0x1ff));
    assert!(SinkFlagSet::from_bits(0x200).is_none());
    assert_eq!(SinkFlagSet::from_bits_truncate(0xffff).bits(), 0x1ff);
    assert!(SourceFlagSet::from_bits(0x100).is_none());
    assert_eq!(SourceFlagSet::from_bits_truncate(0x1ff).bits(), 0xff);
    assert!(FlagSet::from_bits(0x100000).is_none());
    assert_eq!(FlagSet::from_bits(0x80001).map(|s| s.bits()), Some(0x80001));

    let mut s = FlagSet::empty();
    s.insert(FlagSet::start_corked());
    assert!(s.contains(FlagSet::start_corked()));
    s.toggle(FlagSet::peak_detect());
    assert_eq!(s.bits(), 0x801);
    s.toggle(FlagSet::peak_detect());
    assert_eq!(s.bits(), 0x1);
    s.remove(FlagSet::start_corked());
    assert!(!s.intersects(FlagSet::start_corked()));
    s.set(FlagSet::fix_rate(), true);
    assert_eq!(s.bits(), 0x80);
    s.set(FlagSet::fix_rate(), false);
    assert!(s.is_empty());
}

#[test]
fn interest_mask_operations() {
    assert_eq!(InterestMaskSet::from_bits(0x2ff).map(|s| s.bits()), Some(0x2ff));
    assert!(InterestMaskSet::from_bits(0x100).is_none());
    let mut m = InterestMaskSet::empty();
    m.insert(InterestMaskSet::from_bits_truncate(0x3));
    assert_eq!(m.bits(), 0x3);
    m.remove(InterestMaskSet::from_bits_truncate(0x1));
    assert_eq!(m.bits(), 0x2);
    assert_eq!(m.intersection(InterestMaskSet::all()).bits(), 0x2);
    assert_eq!(m.complement().bits(), 0x2fd);
    assert!(m.intersects(InterestMaskSet::all()));
    m.toggle(InterestMaskSet::from_bits_truncate(0x200));
    assert_eq!(m.bits(), 0x202);
    m.set(InterestMaskSet::from_bits_truncate(0x2), false);
    assert_eq!(m.bits(), 0x200);
    assert!(!m.is_empty() && !m.is_all());
    assert_eq!(m.difference(m).bits(), 0);
    assert_eq!(m.symmetric_difference(InterestMaskSet::all()).bits(), 0xff);
}

#[test]
fn context_and_direction_flags() {
    assert_eq!(context_flags::NOFLAGS, 0);
    assert_eq!(context_flags::NOAUTOSPAWN, 1);
    assert_eq!(context_flags::NOFAIL, 2);
    assert_eq!(direction_flags::OUTPUT, 1);
    assert_eq!(direction_flags::INPUT, 2);
}

#[test]
fn reverse_endian_formats() {
    let little = u16::from_ne_bytes([1, 0]) == 1;
    assert_eq!(Format::s16re(), if little { Format::S16be } else { Format::S16le });
    assert_eq!(Format::float32re(), if little { Format::F32be } else { Format::F32le });
    assert_eq!(Format::s32re(), if little { Format::S32be } else { Format::S32le });
    assert_eq!(Format::s24re(), if little { Format::S24be } else { Format::S24le });
    assert_eq!(Format::s24_32re(), if little { Format::S24_32be } else { Format::S24_32le });
    assert_eq!(Format::s16re().is_re(), Some(true));
    assert_eq!(Format::float32re().is_ne(), Some(false));
}

#[test]
fn plain_records_and_enums() {
    assert_eq!(MicroSeconds::default(), MicroSeconds(0));
    let t = TimingInfo {
        timestamp: UnixTs(Timeval::new(5, 6)),
        synchronized_clocks: 0,
        sink_usec: MicroSeconds(1),
        source_usec: MicroSeconds(2),
        transport_usec: MicroSeconds(3),
        playing: 1,
        write_index_corrupt: 0,
        write_index: 100,
        read_index_corrupt: 0,
        read_index: 50,
        configured_sink_usec: MicroSeconds(4),
        configured_source_usec: MicroSeconds(5),
        since_underrun: 7,
    };
    let u = t;
    assert_eq!(t, u);
    assert_eq!(u.timestamp, UnixTs(Timeval::new(5, 6)));
    assert_ne!(SeekMode::Relative, SeekMode::RelativeEnd);
    assert_ne!(Direction::Playback, Direction::Record);
    assert_ne!(Device::Sink, Device::Source);
}

#[test]
fn compound_assignment_operators() {
    let mut m = MicroSeconds(10);
    m += MicroSeconds(5);
    assert_eq!(m, MicroSeconds(15));
    m -= MicroSeconds(3);
    assert_eq!(m, MicroSeconds(12));
    m *= 3;
    assert_eq!(m, MicroSeconds(36));
    m /= 5;
    assert_eq!(m, MicroSeconds(7));
    m %= 4;
    assert_eq!(m, MicroSeconds(3));
    m += Duration::from_millis(2);
    assert_eq!(m, MicroSeconds(2_003));
    m -= Duration::from_micros(3);
    assert_eq!(m, MicroSeconds(2_000));

    let mut l = Us(7);
    l += Us(1);
    l -= Us(2);
    l *= 4;
    l /= 3;
    l %= 5;
    assert_eq!(l, Us(3));

    let mut t = MonotonicTs(MicroSeconds(100));
    t += MicroSeconds(50);
    assert_eq!(t, MonotonicTs(MicroSeconds(150)));
    t -= MicroSeconds(20);
    assert_eq!(t, MonotonicTs(MicroSeconds(130)));
    t += Duration::from_micros(70);
    assert_eq!(t, MonotonicTs(MicroSeconds(200)));
    t -= Duration::from_micros(200);
    assert_eq!(t, MonotonicTs(MicroSeconds(0)));
}
