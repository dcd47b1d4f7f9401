use libpulse_binding::callbacks::ListResult;
use libpulse_binding::channelmap::{ChannelMap, Position};
use libpulse_binding::context::State as ContextState;
use libpulse_binding::context::subscribe::{Facility, InterestMaskSet, Operation, MASK_ALL, MASK_CARD, MASK_SINK, MASK_SOURCE};
use libpulse_binding::def::{BufferAttr, DevicePortType, PortAvailable, Retval, SinkState, SourceState};
use libpulse_binding::error::{Code, PAErr};
use libpulse_binding::format::Encoding;
use libpulse_binding::mainloop::standard::{count_from_query, prepare_timeout, run_from_query, IterateResult};
use libpulse_binding::sample::Format;
use libpulse_binding::stream::{self, Latency, PeekResult, State as StreamState};
use libpulse_binding::time::MicroSeconds;

#[test]
fn sink_and_source_states() {
    assert!(SinkState::Running.is_opened());
    assert!(SinkState::Idle.is_opened());
    assert!(!SinkState::Suspended.is_opened());
    assert!(!SinkState::Invalid.is_opened());
    assert!(SinkState::Running.is_running());
    assert!(!SinkState::Idle.is_running());
    assert!(SourceState::Running.is_opened());
    assert!(SourceState::Idle.is_opened());
    assert!(!SourceState::Suspended.is_opened());
    assert!(SourceState::Running.is_running());
    assert!(!SourceState::Invalid.is_running());
    assert_eq!(BufferAttr::default().maxlength, 0);
    assert_eq!(Retval(3), Retval(3));
}

#[test]
fn context_and_stream_states() {
    assert!(!ContextState::Unconnected.is_good());
    assert!(ContextState::Connecting.is_good());
    assert!(ContextState::Authorizing.is_good());
    assert!(ContextState::SettingName.is_good());
    assert!(ContextState::Ready.is_good());
    assert!(!ContextState::Failed.is_good());
    assert!(!ContextState::Terminated.is_good());
    assert!(!StreamState::Unconnected.is_good());
    assert!(StreamState::Creating.is_good());
    assert!(StreamState::Ready.is_good());
    assert!(!StreamState::Failed.is_good());
    assert!(!StreamState::Terminated.is_good());
}

#[test]
fn sample_format_endianness() {
    assert_eq!(Format::S16le.is_le(), Some(true));
    assert_eq!(Format::S16be.is_le(), Some(false));
    assert_eq!(Format::F32be.is_be(), Some(true));
    assert_eq!(Format::U8.is_le(), None);
    assert_eq!(Format::ALaw.is_be(), None);
    assert_eq!(Format::Invalid.is_le(), None);
    let little = u16::from_ne_bytes([1, 0]) == 1;
    assert_eq!(Format::S32le.is_ne(), Some(little));
    assert_eq!(Format::S32le.is_re(), Some(!little));
    assert_eq!(Format::ULaw.is_ne(), None);
    assert_eq!(Format::ULaw.is_re(), None);
    assert_eq!(Format::s16ne(), if little { Format::S16le } else { Format::S16be });
    assert_eq!(Format::float32ne().is_ne(), Some(true));
    assert_eq!(Format::s24_32ne().is_ne(), Some(true));
    assert_eq!(Format::s24ne().is_re(), Some(false));
    assert_eq!(Format::s32ne().is_ne(), Some(true));
    assert_eq!(Format::default(), Format::Invalid);
}

#[test]
fn sample_format_byte_order_given() {
    assert_eq!(Format::s16_for(true), Format::S16le);
    assert_eq!(Format::s16_for(false), Format::S16be);
    assert_eq!(Format::float32_for(true), Format::F32le);
    assert_eq!(Format::float32_for(false), Format::F32be);
    assert_eq!(Format::s32_for(true), Format::S32le);
    assert_eq!(Format::s32_for(false), Format::S32be);
    assert_eq!(Format::s24_for(true), Format::S24le);
    assert_eq!(Format::s24_for(false), Format::S24be);
    assert_eq!(Format::s24_32_for(true), Format::S24_32le);
    assert_eq!(Format::s24_32_for(false), Format::S24_32be);
    assert_eq!(Format::S16le.is_ne_for(true), Some(true));
    assert_eq!(Format::S16le.is_ne_for(false), Some(false));
    assert_eq!(Format::F32be.is_ne_for(false), Some(true));
    assert_eq!(Format::F32be.is_re_for(true), Some(true));
    assert_eq!(Format::S24_32le.is_re_for(true), Some(false));
    assert_eq!(Format::U8.is_ne_for(true), None);
    assert_eq!(Format::Invalid.is_re_for(false), None);
    for le in [true, false] {
        for f in [Format::s16_for(le), Format::float32_for(le), Format::s32_for(le),
                  Format::s24_for(le), Format::s24_32_for(le)] {
            assert_eq!(f.is_ne_for(le), Some(true));
            assert_eq!(f.is_re_for(le), Some(false));
            assert_eq!(f.is_ne_for(!le), Some(false));
        }
    }
}

#[test]
fn sample_format_sizes() {
    assert_eq!(Format::U8.size(), 1);
    assert_eq!(Format::ALaw.size(), 1);
    assert_eq!(Format::S16be.size(), 2);
    assert_eq!(Format::S24le.size(), 3);
    assert_eq!(Format::S24_32le.size(), 4);
    assert_eq!(Format::F32le.size(), 4);
    assert_eq!(Format::S32be.size(), 4);
}

#[test]
fn channel_positions_and_maps() {
    assert_eq!(Position::Invalid.to_mask(), 0);
    assert_eq!(Position::Mono.to_mask(), 1);
    assert_eq!(Position::FrontLeft.to_mask(), 2);
    assert_eq!(Position::Aux0.to_mask(), 1 << 12);
    assert_eq!(Position::TopRearCenter.to_mask(), 1 << 50);
    assert_eq!(Position::default(), Position::Invalid);

    let mut a = ChannelMap::default();
    assert_eq!(a.channels, 0);
    let mut b = ChannelMap::default();
    assert!(a.eq(&b));
    a.channels = 2;
    a.map[0] = Position::FrontLeft;
    a.map[1] = Position::FrontRight;
    assert!(!a.eq(&b));
    b.channels = 2;
    b.map[0] = Position::FrontLeft;
    b.map[1] = Position::FrontRight;
    b.map[5] = Position::Lfe; // beyond the channels in use
    assert!(a.eq(&b));
    b.map[1] = Position::Lfe;
    assert!(!a.eq(&b));
}

#[test]
fn subscription_events() {
    assert_eq!(Facility::from_event(0x10 | 3), Some(Facility::SourceOutput));
    assert_eq!(Operation::from_event(0x10 | 3), Some(Operation::Changed));
    assert_eq!(Facility::from_event(9 | 0x20), Some(Facility::Card));
    assert_eq!(Operation::from_event(9 | 0x20), Some(Operation::Removed));
    assert_eq!(Facility::from_event(8), None);
    assert_eq!(Facility::from_event(0xf), None);
    assert_eq!(Operation::from_event(0x30), None);
    assert_eq!(Operation::from_event(0), Some(Operation::New));
    assert_eq!(Facility::from_event(0), Some(Facility::Sink));
}

#[test]
fn subscription_masks() {
    assert_eq!(Facility::Sink.to_interest_mask().bits(), MASK_SINK);
    assert_eq!(Facility::Source.to_interest_mask().bits(), MASK_SOURCE);
    assert_eq!(Facility::Card.to_interest_mask().bits(), MASK_CARD);
    assert_eq!(Facility::Server.to_interest_mask().bits(), 0x80);
    let both = Facility::Sink.to_interest_mask().union(Facility::Source.to_interest_mask());
    assert_eq!(both.bits(), 0x3);
    assert!(both.contains(Facility::Sink.to_interest_mask()));
    assert!(!both.contains(Facility::Card.to_interest_mask()));
    assert_eq!(InterestMaskSet::from_bits_truncate(0xffff_ffff).bits(), MASK_ALL);
    assert_eq!(InterestMaskSet::all().bits(), MASK_ALL);
    assert_eq!(InterestMaskSet::empty().bits(), 0);
    assert!(InterestMaskSet::all().contains(both));
}

#[test]
fn encoding_default() {
    assert_eq!(Encoding::default(), Encoding::Invalid);
}

#[test]
fn stream_query_interpretation() {
    let no_data = PAErr::from(Code::NoData).0;
    assert_eq!(Latency::from_query(0, 20, 1), Ok(Latency::Negative(MicroSeconds(20))));
    assert_eq!(Latency::from_query(0, 20, 0), Ok(Latency::Positive(MicroSeconds(20))));
    assert_eq!(Latency::from_query(no_data, 20, 0), Ok(Latency::NoInfo));
    assert_eq!(Latency::from_query(-3, 20, 0), Err(PAErr(-3)));
    assert_eq!(stream::time_from_query(0, 7), Ok(Some(MicroSeconds(7))));
    assert_eq!(stream::time_from_query(no_data, 7), Ok(None));
    assert_eq!(stream::time_from_query(-1, 7), Err(PAErr(-1)));
    assert_eq!(stream::flag_from_query(0), Ok(false));
    assert_eq!(stream::flag_from_query(1), Ok(true));
    assert_eq!(stream::flag_from_query(-5), Err(PAErr(-5)));
    assert_eq!(stream::size_from_query(usize::MAX), None);
    assert_eq!(stream::size_from_query(42), Some(42));
    assert_eq!(stream::underflow_index_from_query(-1), None);
    assert_eq!(stream::underflow_index_from_query(9), Some(9));
    assert_eq!(stream::index_from_query(u32::MAX), None);
    assert_eq!(stream::index_from_query(4), Some(4));
    assert_eq!(stream::unit_from_query(0), Ok(()));
    assert_eq!(stream::unit_from_query(-2), Err(PAErr(-2)));
    let data = [1u8, 2, 3];
    assert!(matches!(PeekResult::from_query(0, Some(&data[..]), 3), Ok(PeekResult::Data(d)) if d == &data[..]));
    assert!(matches!(PeekResult::from_query(0, None, 0), Ok(PeekResult::Empty)));
    assert!(matches!(PeekResult::from_query(0, None, 9), Ok(PeekResult::Hole(9))));
    assert!(matches!(PeekResult::from_query(-4, None, 9), Err(PAErr(-4))));
}

#[test]
fn mainloop_query_interpretation() {
    assert_eq!(IterateResult::from_query(3, 0), IterateResult::Success(3));
    assert_eq!(IterateResult::from_query(-2, 7), IterateResult::Quit(Retval(7)));
    assert_eq!(IterateResult::from_query(-1, 7), IterateResult::Error(PAErr(-1)));
    assert!(IterateResult::Success(1).is_success());
    assert!(!IterateResult::Success(1).is_quit());
    assert!(IterateResult::Quit(Retval(0)).is_quit());
    assert!(IterateResult::Error(PAErr(-1)).is_error());
    assert!(!IterateResult::Quit(Retval(0)).is_error());
    assert_eq!(prepare_timeout(None), Ok(-1));
    assert_eq!(prepare_timeout(Some(MicroSeconds(1000))), Ok(1000));
    assert_eq!(prepare_timeout(Some(MicroSeconds(i32::MAX as u64))), Ok(i32::MAX));
    assert_eq!(prepare_timeout(Some(MicroSeconds(i32::MAX as u64 + 1))), Err(PAErr::from(Code::TooLarge)));
    assert_eq!(count_from_query(5), Ok(5));
    assert_eq!(count_from_query(-7), Err(PAErr(-7)));
    assert_eq!(run_from_query(0, 4), Ok(Retval(4)));
    assert_eq!(run_from_query(-1, 4), Err((PAErr(-1), Retval(4))));
}

#[test]
fn list_results() {
    assert!(matches!(ListResult::from_query(0, Some(5)), ListResult::Item(5)));
    assert!(matches!(ListResult::<u8>::from_query(1, None), ListResult::End));
    assert!(matches!(ListResult::<u8>::from_query(-1, None), ListResult::Error));
}

#[test]
fn port_decoding() {
    assert_eq!(PortAvailable::from_i32(0), Some(PortAvailable::Unknown));
    assert_eq!(PortAvailable::from_i32(1), Some(PortAvailable::No));
    assert_eq!(PortAvailable::from_i32(2), Some(PortAvailable::Yes));
    assert_eq!(PortAvailable::from_i32(3), None);
    assert_eq!(PortAvailable::from_i32(-1), None);
    assert_eq!(DevicePortType::from_u32(0), Some(DevicePortType::Unknown));
    assert_eq!(DevicePortType::from_u32(9), Some(DevicePortType::SPDIF));
    assert_eq!(DevicePortType::from_u32(22), Some(DevicePortType::Analog));
    assert_eq!(DevicePortType::from_u32(23), None);
}

#[test]
fn position_numbers() {
    assert_eq!(Position::Invalid.number(), -1);
    assert_eq!(Position::Mono.number(), 0);
    assert_eq!(Position::TopRearCenter.number(), 50);
    for n in -1..=50 {
        assert_eq!(Position::from_number(n).unwrap().number(), n);
    }
    assert_eq!(Position::from_number(51), None);
    assert_eq!(Position::from_number(-2), None);
}
