//! Global definitions.

use vstd::prelude::*;
use crate::time::{MicroSeconds, UnixTs};

verus! {

/// An invalid index.
pub const INVALID_INDEX: u32 = 0xffff_ffff;

/// PulseAudio 'quit return value' type.
pub type RetvalActual = i32;

/// A wrapper around integer ‘quit return values’ returned by PulseAudio.
#[derive(Debug, Copy, Clone, PartialEq, Eq, Structural)]
pub struct Retval(pub RetvalActual);

/// Playback and record buffer metrics.
///
/// Setting a field to `u32::MAX` asks the server to initialize it to a value it deems sensible.
#[derive(Debug, Default, Copy, Clone, PartialEq, Eq, Structural)]
pub struct BufferAttr {
    /// Maximum length of the buffer in bytes.
    pub maxlength: u32,
    /// Target length of the buffer (playback only).
    pub tlength: u32,
    /// Pre-buffering (playback only).
    pub prebuf: u32,
    /// Minimum request (playback only).
    pub minreq: u32,
    /// Fragment size (recording only).
    pub fragsize: u32,
}

/// Proves that the bit operations of [`SinkFlagSet`] keep a set within the known flags: the bits below
/// `0x200`.
proof fn lemma_sink_flag_bits(a: u32, b: u32, x: u32)
    by (bit_vector)
    requires
        a < 0x200,
        b < 0x200,
    ensures
        a | b < 0x200,
        a & b < 0x200,
        a & !b < 0x200,
        a ^ b < 0x200,
        !a & 0x1ff < 0x200,
        x & 0x1ff < 0x200,
        (x & 0x1ff == x) <==> x < 0x200,
{
}

/// Set of sink flags.
///
/// Only the bits of known flags (the low 9 bits) can be set.
#[derive(Debug, Copy, Clone, PartialEq, Eq, Structural)]
pub struct SinkFlagSet {
    bits: u32,
}

impl SinkFlagSet {
    /// The bits of the set.
    pub closed spec fn spec_bits(self) -> u32 {
        self.bits
    }

    #[verifier::type_invariant]
    spec fn only_known_bits(self) -> bool {
        self.bits < 0x200
    }

    /// Flag to pass when no specific options are needed.
    pub fn noflags() -> (r: Self)
        ensures
            r.spec_bits() == 0,
    {
        SinkFlagSet { bits: 0 }
    }

    /// Supports hardware volume control. This is a dynamic flag and may change at runtime after
    /// the sink has initialized.
    pub fn hw_volume_ctrl() -> (r: Self)
        ensures
            r.spec_bits() == 0x1,
    {
        SinkFlagSet { bits: 0x1 }
    }

    /// Supports latency querying.
    pub fn latency() -> (r: Self)
        ensures
            r.spec_bits() == 0x2,
    {
        SinkFlagSet { bits: 0x2 }
    }

    /// Is a hardware sink of some kind, in contrast to “virtual”/software sinks.
    pub fn hardware() -> (r: Self)
        ensures
            r.spec_bits() == 0x4,
    {
        SinkFlagSet { bits: 0x4 }
    }

    /// Is a networked sink of some kind.
    pub fn network() -> (r: Self)
        ensures
            r.spec_bits() == 0x8,
    {
        SinkFlagSet { bits: 0x8 }
    }

    /// Supports hardware mute control. This is a dynamic flag and may change at runtime after
    /// the sink has initialized.
    pub fn hw_mute_ctrl() -> (r: Self)
        ensures
            r.spec_bits() == 0x10,
    {
        SinkFlagSet { bits: 0x10 }
    }

    /// Volume can be translated to dB. This is a dynamic flag and may change at runtime after the
    /// sink has initialized.
    pub fn decibel_volume() -> (r: Self)
        ensures
            r.spec_bits() == 0x20,
    {
        SinkFlagSet { bits: 0x20 }
    }

    /// This sink is in flat volume mode, i.e. always the maximum of the volume of all connected
    /// inputs.
    pub fn flat_volume() -> (r: Self)
        ensures
            r.spec_bits() == 0x40,
    {
        SinkFlagSet { bits: 0x40 }
    }

    /// The latency can be adjusted dynamically depending on the needs of the connected streams.
    pub fn dynamic_latency() -> (r: Self)
        ensures
            r.spec_bits() == 0x80,
    {
        SinkFlagSet { bits: 0x80 }
    }

    /// The sink allows setting what formats are supported by the connected hardware. The actual
    /// functionality to do this might be provided by an extension.
    pub fn set_formats() -> (r: Self)
        ensures
            r.spec_bits() == 0x100,
    {
        SinkFlagSet { bits: 0x100 }
    }

    /// Gets the raw bits of the set.
    pub fn bits(&self) -> (r: u32)
        ensures
            r == self.spec_bits(),
            r < 0x200,
    {
        proof {
            use_type_invariant(self);
        }
        self.bits
    }

    /// Creates a set from raw bits; `None` where a bit does not correspond to a known flag.
    pub fn from_bits(bits: u32) -> (r: Option<Self>)
        ensures
            bits < 0x200 ==> (r matches Some(s) && s.spec_bits() == bits),
            bits >= 0x200 ==> r is None,
    {
        if bits < 0x200 {
            Some(SinkFlagSet { bits })
        } else {
            None
        }
    }

    /// Creates a set from raw bits, dropping any that do not correspond to a known flag.
    pub fn from_bits_truncate(bits: u32) -> (r: Self)
        ensures
            r.spec_bits() == bits & 0x1ff,
    {
        proof {
            lemma_sink_flag_bits(0, 0, bits);
        }
        SinkFlagSet { bits: bits & 0x1ff }
    }

    /// The empty set.
    pub fn empty() -> (r: Self)
        ensures
            r.spec_bits() == 0,
    {
        SinkFlagSet { bits: 0 }
    }

    /// The set of all known flags.
    pub fn all() -> (r: Self)
        ensures
            r.spec_bits() == 0x1ff,
    {
        SinkFlagSet { bits: 0x1ff }
    }

    /// Whether no flag is set.
    pub fn is_empty(&self) -> (r: bool)
        ensures
            r == (self.spec_bits() == 0),
    {
        self.bits == 0
    }

    /// Whether all known flags are set.
    pub fn is_all(&self) -> (r: bool)
        ensures
            r == (self.spec_bits() == 0x1ff),
    {
        self.bits == 0x1ff
    }

    /// Whether every flag of `other` is in this set.
    pub fn contains(&self, other: Self) -> (r: bool)
        ensures
            r == (self.spec_bits() & other.spec_bits() == other.spec_bits()),
    {
        self.bits & other.bits == other.bits
    }

    /// Whether this set and `other` share a flag.
    pub fn intersects(&self, other: Self) -> (r: bool)
        ensures
            r == (self.spec_bits() & other.spec_bits() != 0),
    {
        self.bits & other.bits != 0
    }

    /// The flags in either set.
    pub fn union(self, other: Self) -> (r: Self)
        ensures
            r.spec_bits() == self.spec_bits() | other.spec_bits(),
    {
        proof {
            use_type_invariant(self);
            use_type_invariant(other);
            lemma_sink_flag_bits(self.bits, other.bits, 0);
        }
        SinkFlagSet { bits: self.bits | other.bits }
    }

    /// The flags in both sets.
    pub fn intersection(self, other: Self) -> (r: Self)
        ensures
            r.spec_bits() == self.spec_bits() & other.spec_bits(),
    {
        proof {
            use_type_invariant(self);
            use_type_invariant(other);
            lemma_sink_flag_bits(self.bits, other.bits, 0);
        }
        SinkFlagSet { bits: self.bits & other.bits }
    }

    /// The flags in this set and not in `other`.
    pub fn difference(self, other: Self) -> (r: Self)
        ensures
            r.spec_bits() == self.spec_bits() & !other.spec_bits(),
    {
        proof {
            use_type_invariant(self);
            use_type_invariant(other);
            lemma_sink_flag_bits(self.bits, other.bits, 0);
        }
        SinkFlagSet { bits: self.bits & !other.bits }
    }

    /// The flags in exactly one of the two sets.
    pub fn symmetric_difference(self, other: Self) -> (r: Self)
        ensures
            r.spec_bits() == self.spec_bits() ^ other.spec_bits(),
    {
        proof {
            use_type_invariant(self);
            use_type_invariant(other);
            lemma_sink_flag_bits(self.bits, other.bits, 0);
        }
        SinkFlagSet { bits: self.bits ^ other.bits }
    }

    /// The known flags not in this set.
    pub fn complement(self) -> (r: Self)
        ensures
            r.spec_bits() == !self.spec_bits() & 0x1ff,
    {
        proof {
            use_type_invariant(self);
            lemma_sink_flag_bits(self.bits, 0, 0);
        }
        SinkFlagSet { bits: !self.bits & 0x1ff }
    }

    /// Adds the flags of `other`.
    pub fn insert(&mut self, other: Self)
        ensures
            final(self).spec_bits() == old(self).spec_bits() | other.spec_bits(),
    {
        *self = self.union(other);
    }

    /// Removes the flags of `other`.
    pub fn remove(&mut self, other: Self)
        ensures
            final(self).spec_bits() == old(self).spec_bits() & !other.spec_bits(),
    {
        *self = self.difference(other);
    }

    /// Flips the flags of `other`.
    pub fn toggle(&mut self, other: Self)
        ensures
            final(self).spec_bits() == old(self).spec_bits() ^ other.spec_bits(),
    {
        *self = self.symmetric_difference(other);
    }

    /// Adds the flags of `other` where `value` holds, and removes them otherwise.
    pub fn set(&mut self, other: Self, value: bool)
        ensures
            value ==> final(self).spec_bits() == old(self).spec_bits() | other.spec_bits(),
            !value ==> final(self).spec_bits() == old(self).spec_bits() & !other.spec_bits(),
    {
        if value {
            self.insert(other);
        } else {
            self.remove(other);
        }
    }
}

/// Proves that the bit operations of [`SourceFlagSet`] keep a set within the known flags: the bits below
/// `0x100`.
proof fn lemma_source_flag_bits(a: u32, b: u32, x: u32)
    by (bit_vector)
    requires
        a < 0x100,
        b < 0x100,
    ensures
        a | b < 0x100,
        a & b < 0x100,
        a & !b < 0x100,
        a ^ b < 0x100,
        !a & 0xff < 0x100,
        x & 0xff < 0x100,
        (x & 0xff == x) <==> x < 0x100,
{
}

/// Set of source flags.
///
/// Only the bits of known flags (the low 8 bits) can be set.
#[derive(Debug, Copy, Clone, PartialEq, Eq, Structural)]
pub struct SourceFlagSet {
    bits: u32,
}

impl SourceFlagSet {
    /// The bits of the set.
    pub closed spec fn spec_bits(self) -> u32 {
        self.bits
    }

    #[verifier::type_invariant]
    spec fn only_known_bits(self) -> bool {
        self.bits < 0x100
    }

    /// Flag to pass when no specific options are needed.
    pub fn noflags() -> (r: Self)
        ensures
            r.spec_bits() == 0,
    {
        SourceFlagSet { bits: 0 }
    }

    /// Supports hardware volume control. This is a dynamic flag and may change at runtime after
    /// the source has initialized.
    pub fn hw_volume_ctrl() -> (r: Self)
        ensures
            r.spec_bits() == 0x1,
    {
        SourceFlagSet { bits: 0x1 }
    }

    /// Supports latency querying.
    pub fn latency() -> (r: Self)
        ensures
            r.spec_bits() == 0x2,
    {
        SourceFlagSet { bits: 0x2 }
    }

    /// Is a hardware source of some kind, in contrast to “virtual”/software source.
    pub fn hardware() -> (r: Self)
        ensures
            r.spec_bits() == 0x4,
    {
        SourceFlagSet { bits: 0x4 }
    }

    /// Is a networked source of some kind.
    pub fn network() -> (r: Self)
        ensures
            r.spec_bits() == 0x8,
    {
        SourceFlagSet { bits: 0x8 }
    }

    /// Supports hardware mute control. This is a dynamic flag and may change at runtime after
    /// the source has initialized.
    pub fn hw_mute_ctrl() -> (r: Self)
        ensures
            r.spec_bits() == 0x10,
    {
        SourceFlagSet { bits: 0x10 }
    }

    /// Volume can be translated to dB. This is a dynamic flag and may change at runtime after the
    /// source has initialized.
    pub fn decibel_volume() -> (r: Self)
        ensures
            r.spec_bits() == 0x20,
    {
        SourceFlagSet { bits: 0x20 }
    }

    /// The latency can be adjusted dynamically depending on the needs of the connected streams.
    pub fn dynamic_latency() -> (r: Self)
        ensures
            r.spec_bits() == 0x40,
    {
        SourceFlagSet { bits: 0x40 }
    }

    /// This source is in flat volume mode, i.e. always the maximum of the volume of all
    /// connected outputs.
    pub fn flat_volume() -> (r: Self)
        ensures
            r.spec_bits() == 0x80,
    {
        SourceFlagSet { bits: 0x80 }
    }

    /// Gets the raw bits of the set.
    pub fn bits(&self) -> (r: u32)
        ensures
            r == self.spec_bits(),
            r < 0x100,
    {
        proof {
            use_type_invariant(self);
        }
        self.bits
    }

    /// Creates a set from raw bits; `None` where a bit does not correspond to a known flag.
    pub fn from_bits(bits: u32) -> (r: Option<Self>)
        ensures
            bits < 0x100 ==> (r matches Some(s) && s.spec_bits() == bits),
            bits >= 0x100 ==> r is None,
    {
        if bits < 0x100 {
            Some(SourceFlagSet { bits })
        } else {
            None
        }
    }

    /// Creates a set from raw bits, dropping any that do not correspond to a known flag.
    pub fn from_bits_truncate(bits: u32) -> (r: Self)
        ensures
            r.spec_bits() == bits & 0xff,
    {
        proof {
            lemma_source_flag_bits(0, 0, bits);
        }
        SourceFlagSet { bits: bits & 0xff }
    }

    /// The empty set.
    pub fn empty() -> (r: Self)
        ensures
            r.spec_bits() == 0,
    {
        SourceFlagSet { bits: 0 }
    }

    /// The set of all known flags.
    pub fn all() -> (r: Self)
        ensures
            r.spec_bits() == 0xff,
    {
        SourceFlagSet { bits: 0xff }
    }

    /// Whether no flag is set.
    pub fn is_empty(&self) -> (r: bool)
        ensures
            r == (self.spec_bits() == 0),
    {
        self.bits == 0
    }

    /// Whether all known flags are set.
    pub fn is_all(&self) -> (r: bool)
        ensures
            r == (self.spec_bits() == 0xff),
    {
        self.bits == 0xff
    }

    /// Whether every flag of `other` is in this set.
    pub fn contains(&self, other: Self) -> (r: bool)
        ensures
            r == (self.spec_bits() & other.spec_bits() == other.spec_bits()),
    {
        self.bits & other.bits == other.bits
    }

    /// Whether this set and `other` share a flag.
    pub fn intersects(&self, other: Self) -> (r: bool)
        ensures
            r == (self.spec_bits() & other.spec_bits() != 0),
    {
        self.bits & other.bits != 0
    }

    /// The flags in either set.
    pub fn union(self, other: Self) -> (r: Self)
        ensures
            r.spec_bits() == self.spec_bits() | other.spec_bits(),
    {
        proof {
            use_type_invariant(self);
            use_type_invariant(other);
            lemma_source_flag_bits(self.bits, other.bits, 0);
        }
        SourceFlagSet { bits: self.bits | other.bits }
    }

    /// The flags in both sets.
    pub fn intersection(self, other: Self) -> (r: Self)
        ensures
            r.spec_bits() == self.spec_bits() & other.spec_bits(),
    {
        proof {
            use_type_invariant(self);
            use_type_invariant(other);
            lemma_source_flag_bits(self.bits, other.bits, 0);
        }
        SourceFlagSet { bits: self.bits & other.bits }
    }

    /// The flags in this set and not in `other`.
    pub fn difference(self, other: Self) -> (r: Self)
        ensures
            r.spec_bits() == self.spec_bits() & !other.spec_bits(),
    {
        proof {
            use_type_invariant(self);
            use_type_invariant(other);
            lemma_source_flag_bits(self.bits, other.bits, 0);
        }
        SourceFlagSet { bits: self.bits & !other.bits }
    }

    /// The flags in exactly one of the two sets.
    pub fn symmetric_difference(self, other: Self) -> (r: Self)
        ensures
            r.spec_bits() == self.spec_bits() ^ other.spec_bits(),
    {
        proof {
            use_type_invariant(self);
            use_type_invariant(other);
            lemma_source_flag_bits(self.bits, other.bits, 0);
        }
        SourceFlagSet { bits: self.bits ^ other.bits }
    }

    /// The known flags not in this set.
    pub fn complement(self) -> (r: Self)
        ensures
            r.spec_bits() == !self.spec_bits() & 0xff,
    {
        proof {
            use_type_invariant(self);
            lemma_source_flag_bits(self.bits, 0, 0);
        }
        SourceFlagSet { bits: !self.bits & 0xff }
    }

    /// Adds the flags of `other`.
    pub fn insert(&mut self, other: Self)
        ensures
            final(self).spec_bits() == old(self).spec_bits() | other.spec_bits(),
    {
        *self = self.union(other);
    }

    /// Removes the flags of `other`.
    pub fn remove(&mut self, other: Self)
        ensures
            final(self).spec_bits() == old(self).spec_bits() & !other.spec_bits(),
    {
        *self = self.difference(other);
    }

    /// Flips the flags of `other`.
    pub fn toggle(&mut self, other: Self)
        ensures
            final(self).spec_bits() == old(self).spec_bits() ^ other.spec_bits(),
    {
        *self = self.symmetric_difference(other);
    }

    /// Adds the flags of `other` where `value` holds, and removes them otherwise.
    pub fn set(&mut self, other: Self, value: bool)
        ensures
            value ==> final(self).spec_bits() == old(self).spec_bits() | other.spec_bits(),
            !value ==> final(self).spec_bits() == old(self).spec_bits() & !other.spec_bits(),
    {
        if value {
            self.insert(other);
        } else {
            self.remove(other);
        }
    }
}

/// Set laws of the flag sets of this library ([`SinkFlagSet`], [`SourceFlagSet`], the stream
/// flag set and the subscription interest mask), whose operations are the bit operations on their
/// bits `a` and `b`: after inserting `b` a set contains `b`; after removing `b` it shares no flag
/// with `b`; toggling `b` twice gives the set back; union and intersection do not depend on the
/// order of their operands; a union contains each operand; and each operand contains an
/// intersection.
pub proof fn lemma_flag_set_laws(a: u32, b: u32)
    by (bit_vector)
    ensures
        (a | b) & b == b,
        (a & !b) & b == 0,
        (a ^ b) ^ b == a,
        a | b == b | a,
        a & b == b & a,
        (a | b) & a == a,
        a & (a & b) == a & b,
{
}

/// Type for sinks or sources.
#[derive(Debug, Copy, Clone, PartialEq, Eq, Structural)]
pub enum Device {
    /// A sink.
    Sink,
    /// A source.
    Source,
}

/// A structure for all kinds of timing information of a stream.
///
/// The server sends it; it is read at the application's edge and held here as plain values.
#[derive(Debug, Copy, Clone, PartialEq, Eq, Structural)]
pub struct TimingInfo {
    /// The system clock time when this timing info structure was current.
    pub timestamp: UnixTs,
    /// Non-zero if the local and the remote machine have synchronized clocks.
    pub synchronized_clocks: i32,
    /// Time in usecs a sample takes to be played on the sink. For playback streams and record
    /// streams connected to a monitor source.
    pub sink_usec: MicroSeconds,
    /// Time in usecs a sample takes from being recorded to being delivered to the application. Only
    /// for record streams.
    pub source_usec: MicroSeconds,
    /// Estimated time in usecs a sample takes to be transferred to/from the daemon. For both
    /// playback and record streams.
    pub transport_usec: MicroSeconds,
    /// Non-zero when the stream is currently not underrun and data is being passed on to the
    /// device. Only for playback streams.
    pub playing: i32,
    /// Non-zero if `write_index` is not up-to-date because a local write command that corrupted it
    /// has been issued in the time since this latency info was current.
    pub write_index_corrupt: i32,
    /// Current write index into the playback buffer in bytes.
    pub write_index: i64,
    /// Non-zero if `read_index` is not up-to-date because a local pause or flush request that
    /// corrupted it has been issued in the time since this latency info was current.
    pub read_index_corrupt: i32,
    /// Current read index into the playback buffer in bytes.
    pub read_index: i64,
    /// The configured latency for the sink.
    pub configured_sink_usec: MicroSeconds,
    /// The configured latency for the source.
    pub configured_source_usec: MicroSeconds,
    /// Bytes that were handed to the sink since the last underrun happened, or since playback
    /// started again after the last underrun. `playing` will tell you which case it is.
    pub since_underrun: i64,
}

/// Sink state.
#[derive(Debug, Copy, Clone, PartialEq, Eq, Structural)]
pub enum SinkState {
    /// This state is used when the server does not support sink state introspection.
    Invalid,
    /// Running, sink is playing and used by at least one non-corked sink-input.
    Running,
    /// When idle, the sink is playing but there is no non-corked sink-input attached to it.
    Idle,
    /// When suspended, actual sink access can be closed, for instance.
    Suspended,
}

impl SinkState {
    /// Checks if sink is playing: running or idle.
    pub fn is_opened(self) -> (r: bool)
        ensures
            r == (self == SinkState::Running || self == SinkState::Idle),
    {
        self == SinkState::Running || self == SinkState::Idle
    }

    /// Checks if sink is running.
    pub fn is_running(self) -> (r: bool)
        ensures
            r == (self == SinkState::Running),
    {
        self == SinkState::Running
    }
}

/// Source state.
#[derive(Debug, Copy, Clone, PartialEq, Eq, Structural)]
pub enum SourceState {
    /// This state is used when the server does not support source state introspection.
    Invalid,
    /// Running, source is recording and used by at least one non-corked source-output.
    Running,
    /// When idle, the source is still recording but there is no non-corked source-output.
    Idle,
    /// When suspended, actual source access can be closed, for instance.
    Suspended,
}

impl SourceState {
    /// Checks if source is recording: running or idle.
    pub fn is_opened(self) -> (r: bool)
        ensures
            r == (self == SourceState::Running || self == SourceState::Idle),
    {
        self == SourceState::Running || self == SourceState::Idle
    }

    /// Checks if source is running.
    pub fn is_running(self) -> (r: bool)
        ensures
            r == (self == SourceState::Running),
    {
        self == SourceState::Running
    }
}

/// Port availability.
#[derive(Debug, Copy, Clone, PartialEq, Eq, Structural)]
pub enum PortAvailable {
    /// This port does not support jack detection.
    Unknown,
    /// This port is not available, likely because the jack is not plugged in.
    No,
    /// This port is available, likely because the jack is plugged in.
    Yes,
}

/// Port type.
#[derive(Debug, Copy, Clone, PartialEq, Eq, Structural)]
#[allow(non_camel_case_types)]
pub enum DevicePortType {
    /// Unknown.
    Unknown,
    /// Auxiliary.
    Aux,
    /// Speaker.
    Speaker,
    /// Headphones.
    Headphones,
    /// Line.
    Line,
    /// Mic.
    Mic,
    /// Headset.
    Headset,
    /// Handset.
    Handset,
    /// Earpiece.
    Earpiece,
    /// SPDIF.
    SPDIF,
    /// HDMI.
    HDMI,
    /// TV.
    TV,
    /// Radio.
    Radio,
    /// Video.
    Video,
    /// USB.
    USB,
    /// Bluetooth.
    Bluetooth,
    /// Portable.
    Portable,
    /// Handsfree.
    Handsfree,
    /// Car.
    Car,
    /// HiFi.
    HiFi,
    /// Phone.
    Phone,
    /// Network.
    Network,
    /// Analog.
    Analog,
}

/// The port availability with the given C value, if there is one.
pub open spec fn port_available_of(n: i32) -> Option<PortAvailable> {
    if n == 0 {
        Some(PortAvailable::Unknown)
    } else if n == 1 {
        Some(PortAvailable::No)
    } else if n == 2 {
        Some(PortAvailable::Yes)
    } else {
        None
    }
}

impl PortAvailable {
    /// The availability with the given C value (`0` unknown, `1` no, `2` yes), if there is one.
    pub fn from_i32(n: i32) -> (r: Option<Self>)
        ensures
            r == port_available_of(n),
    {
        match n {
            0 => Some(PortAvailable::Unknown),
            1 => Some(PortAvailable::No),
            2 => Some(PortAvailable::Yes),
            _ => None,
        }
    }
}

/// The port type with the given C value (its position in the list, from zero), if there is one.
pub open spec fn device_port_type_of(n: u32) -> Option<DevicePortType> {
    if n == 0 {
        Some(DevicePortType::Unknown)
    } else if n == 1 {
        Some(DevicePortType::Aux)
    } else if n == 2 {
        Some(DevicePortType::Speaker)
    } else if n == 3 {
        Some(DevicePortType::Headphones)
    } else if n == 4 {
        Some(DevicePortType::Line)
    } else if n == 5 {
        Some(DevicePortType::Mic)
    } else if n == 6 {
        Some(DevicePortType::Headset)
    } else if n == 7 {
        Some(DevicePortType::Handset)
    } else if n == 8 {
        Some(DevicePortType::Earpiece)
    } else if n == 9 {
        Some(DevicePortType::SPDIF)
    } else if n == 10 {
        Some(DevicePortType::HDMI)
    } else if n == 11 {
        Some(DevicePortType::TV)
    } else if n == 12 {
        Some(DevicePortType::Radio)
    } else if n == 13 {
        Some(DevicePortType::Video)
    } else if n == 14 {
        Some(DevicePortType::USB)
    } else if n == 15 {
        Some(DevicePortType::Bluetooth)
    } else if n == 16 {
        Some(DevicePortType::Portable)
    } else if n == 17 {
        Some(DevicePortType::Handsfree)
    } else if n == 18 {
        Some(DevicePortType::Car)
    } else if n == 19 {
        Some(DevicePortType::HiFi)
    } else if n == 20 {
        Some(DevicePortType::Phone)
    } else if n == 21 {
        Some(DevicePortType::Network)
    } else if n == 22 {
        Some(DevicePortType::Analog)
    } else {
        None
    }
}

/// Port types decode from the values of the C enumeration of device port types
/// (`pa_device_port_type_t`): unknown `0`, aux `1`, speaker `2`, headphones `3`, line `4`, mic
/// `5`, headset `6`, handset `7`, earpiece `8`, SPDIF `9`, HDMI `10`, TV `11`, radio `12`, video
/// `13`, USB `14`, Bluetooth `15`, portable `16`, handsfree `17`, car `18`, HiFi `19`, phone `20`,
/// network `21` and analog `22`; any larger value decodes to nothing, and no two values decode to
/// the same port type. Availability decodes likewise from `pa_port_available_t`: unknown `0`, no
/// `1` and yes `2`.
pub proof fn lemma_port_values_are_c_values(n: u32, m: u32, k: i32)
    ensures
        device_port_type_of(0) == Some(DevicePortType::Unknown),
        device_port_type_of(1) == Some(DevicePortType::Aux),
        device_port_type_of(2) == Some(DevicePortType::Speaker),
        device_port_type_of(3) == Some(DevicePortType::Headphones),
        device_port_type_of(4) == Some(DevicePortType::Line),
        device_port_type_of(5) == Some(DevicePortType::Mic),
        device_port_type_of(6) == Some(DevicePortType::Headset),
        device_port_type_of(7) == Some(DevicePortType::Handset),
        device_port_type_of(8) == Some(DevicePortType::Earpiece),
        device_port_type_of(9) == Some(DevicePortType::SPDIF),
        device_port_type_of(10) == Some(DevicePortType::HDMI),
        device_port_type_of(11) == Some(DevicePortType::TV),
        device_port_type_of(12) == Some(DevicePortType::Radio),
        device_port_type_of(13) == Some(DevicePortType::Video),
        device_port_type_of(14) == Some(DevicePortType::USB),
        device_port_type_of(15) == Some(DevicePortType::Bluetooth),
        device_port_type_of(16) == Some(DevicePortType::Portable),
        device_port_type_of(17) == Some(DevicePortType::Handsfree),
        device_port_type_of(18) == Some(DevicePortType::Car),
        device_port_type_of(19) == Some(DevicePortType::HiFi),
        device_port_type_of(20) == Some(DevicePortType::Phone),
        device_port_type_of(21) == Some(DevicePortType::Network),
        device_port_type_of(22) == Some(DevicePortType::Analog),
        n > 22 ==> device_port_type_of(n) is None,
        n != m && device_port_type_of(n) is Some ==> device_port_type_of(n) != device_port_type_of(m),
        port_available_of(0) == Some(PortAvailable::Unknown),
        port_available_of(1) == Some(PortAvailable::No),
        port_available_of(2) == Some(PortAvailable::Yes),
        !(0 <= k <= 2) ==> port_available_of(k) is None,
{
}

impl DevicePortType {
    /// The port type with the given C value (its position in the list, from zero), if there is
    /// one.
    pub fn from_u32(n: u32) -> (r: Option<Self>)
        ensures
            r == device_port_type_of(n),
    {
        match n {
            0 => Some(DevicePortType::Unknown),
            1 => Some(DevicePortType::Aux),
            2 => Some(DevicePortType::Speaker),
            3 => Some(DevicePortType::Headphones),
            4 => Some(DevicePortType::Line),
            5 => Some(DevicePortType::Mic),
            6 => Some(DevicePortType::Headset),
            7 => Some(DevicePortType::Handset),
            8 => Some(DevicePortType::Earpiece),
            9 => Some(DevicePortType::SPDIF),
            10 => Some(DevicePortType::HDMI),
            11 => Some(DevicePortType::TV),
            12 => Some(DevicePortType::Radio),
            13 => Some(DevicePortType::Video),
            14 => Some(DevicePortType::USB),
            15 => Some(DevicePortType::Bluetooth),
            16 => Some(DevicePortType::Portable),
            17 => Some(DevicePortType::Handsfree),
            18 => Some(DevicePortType::Car),
            19 => Some(DevicePortType::HiFi),
            20 => Some(DevicePortType::Phone),
            21 => Some(DevicePortType::Network),
            22 => Some(DevicePortType::Analog),
            _ => None,
        }
    }
}

} // verus!
