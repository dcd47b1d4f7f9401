//! Audio streams for input, output and sample upload.
//!
//! The stream object itself lives at the application's edge, where it calls the system library;
//! what each call's raw result means is decided here.

use vstd::prelude::*;
use crate::error::{PAErr, Code, error_of_code};
use crate::time::MicroSeconds;

verus! {

/// Stream state.
#[derive(Debug, Copy, Clone, PartialEq, Eq, Structural)]
pub enum State {
    /// The stream is not yet connected to any sink or source.
    Unconnected,
    /// The stream is being created.
    Creating,
    /// The stream is established, you may pass audio data to it now.
    Ready,
    /// An error occurred that made the stream invalid.
    Failed,
    /// The stream has been terminated cleanly.
    Terminated,
}

impl State {
    /// Checks if the passed state is one of the connected states (returns `true` if so).
    pub fn is_good(self) -> (r: bool)
        ensures
            r == (self == State::Creating || self == State::Ready),
    {
        self == State::Creating || self == State::Ready
    }
}

/// Proves that the bit operations of [`FlagSet`] keep a set within the known flags: the bits below
/// `0x100000`.
proof fn lemma_stream_flag_bits(a: u32, b: u32, x: u32)
    by (bit_vector)
    requires
        a < 0x100000,
        b < 0x100000,
    ensures
        a | b < 0x100000,
        a & b < 0x100000,
        a & !b < 0x100000,
        a ^ b < 0x100000,
        !a & 0xfffff < 0x100000,
        x & 0xfffff < 0x100000,
        (x & 0xfffff == x) <==> x < 0x100000,
{
}

/// Set of stream flags.
///
/// Only the bits of known flags (the low 20 bits) can be set.
#[derive(Debug, Copy, Clone, PartialEq, Eq, Structural)]
pub struct FlagSet {
    bits: u32,
}

impl FlagSet {
    /// The bits of the set.
    pub closed spec fn spec_bits(self) -> u32 {
        self.bits
    }

    #[verifier::type_invariant]
    spec fn only_known_bits(self) -> bool {
        self.bits < 0x100000
    }

    /// Flag to pass when no specific options are needed.
    pub fn noflags() -> (r: Self)
        ensures
            r.spec_bits() == 0,
    {
        FlagSet { bits: 0 }
    }

    /// Create the stream corked, requiring an explicit uncork call to uncork it.
    pub fn start_corked() -> (r: Self)
        ensures
            r.spec_bits() == 0x1,
    {
        FlagSet { bits: 0x1 }
    }

    /// Interpolate the latency for this stream: the current record/playback time is estimated
    /// from the local time that passed since the last timing info update.
    pub fn interpolate_timing() -> (r: Self)
        ensures
            r.spec_bits() == 0x2,
    {
        FlagSet { bits: 0x2 }
    }

    /// Don’t force the time to increase monotonically.
    pub fn not_monotonic() -> (r: Self)
        ensures
            r.spec_bits() == 0x4,
    {
        FlagSet { bits: 0x4 }
    }

    /// If set timing update requests are issued periodically automatically.
    pub fn auto_timing_update() -> (r: Self)
        ensures
            r.spec_bits() == 0x8,
    {
        FlagSet { bits: 0x8 }
    }

    /// Don’t remap channels by their name, instead map them simply by their index. Implies
    /// [`no_remix_channels`](Self::no_remix_channels).
    pub fn no_remap_channels() -> (r: Self)
        ensures
            r.spec_bits() == 0x10,
    {
        FlagSet { bits: 0x10 }
    }

    /// When remapping channels by name, don’t upmix or downmix them to related channels. Copy
    /// them into matching channels of the device 1:1.
    pub fn no_remix_channels() -> (r: Self)
        ensures
            r.spec_bits() == 0x20,
    {
        FlagSet { bits: 0x20 }
    }

    /// Use the sample format of the sink/device this stream is being connected to, and possibly
    /// ignore the format the sample spec contains.
    pub fn fix_format() -> (r: Self)
        ensures
            r.spec_bits() == 0x40,
    {
        FlagSet { bits: 0x40 }
    }

    /// Use the sample rate of the sink, and possibly ignore the rate the sample spec contains.
    pub fn fix_rate() -> (r: Self)
        ensures
            r.spec_bits() == 0x80,
    {
        FlagSet { bits: 0x80 }
    }

    /// Use the number of channels and the channel map of the sink, and possibly ignore the number
    /// of channels and the map the sample spec and the passed channel map contains.
    pub fn fix_channels() -> (r: Self)
        ensures
            r.spec_bits() == 0x100,
    {
        FlagSet { bits: 0x100 }
    }

    /// Don’t allow moving of this stream to another sink/device.
    pub fn dont_move() -> (r: Self)
        ensures
            r.spec_bits() == 0x200,
    {
        FlagSet { bits: 0x200 }
    }

    /// Allow dynamic changing of the sampling rate during playback.
    pub fn variable_rate() -> (r: Self)
        ensures
            r.spec_bits() == 0x400,
    {
        FlagSet { bits: 0x400 }
    }

    /// Find peaks instead of resampling.
    pub fn peak_detect() -> (r: Self)
        ensures
            r.spec_bits() == 0x800,
    {
        FlagSet { bits: 0x800 }
    }

    /// Create in muted state.
    pub fn start_muted() -> (r: Self)
        ensures
            r.spec_bits() == 0x1000,
    {
        FlagSet { bits: 0x1000 }
    }

    /// Try to adjust the latency of the sink/source based on the requested buffer metrics and
    /// adjust buffer metrics accordingly.
    pub fn adjust_latency() -> (r: Self)
        ensures
            r.spec_bits() == 0x2000,
    {
        FlagSet { bits: 0x2000 }
    }

    /// Enable compatibility mode for legacy clients that rely on a “classic” hardware device
    /// fragment-style playback model.
    pub fn early_requests() -> (r: Self)
        ensures
            r.spec_bits() == 0x4000,
    {
        FlagSet { bits: 0x4000 }
    }

    /// If set this stream won’t be taken into account when it is checked whether the device
    /// this stream is connected to should auto-suspend.
    pub fn dont_inhibit_auto_suspend() -> (r: Self)
        ensures
            r.spec_bits() == 0x8000,
    {
        FlagSet { bits: 0x8000 }
    }

    /// Create in unmuted state.
    pub fn start_unmuted() -> (r: Self)
        ensures
            r.spec_bits() == 0x10000,
    {
        FlagSet { bits: 0x10000 }
    }

    /// If the sink/source this stream is connected to is suspended during the creation of this
    /// stream, cause it to fail.
    pub fn fail_on_suspend() -> (r: Self)
        ensures
            r.spec_bits() == 0x20000,
    {
        FlagSet { bits: 0x20000 }
    }

    /// If a volume is passed when this stream is created, consider it relative to the sink’s
    /// current volume, never as absolute device volume.
    pub fn relative_volume() -> (r: Self)
        ensures
            r.spec_bits() == 0x40000,
    {
        FlagSet { bits: 0x40000 }
    }

    /// Used to tag content that will be rendered by passthrough sinks. The data will be left as
    /// is and not reformatted, resampled.
    pub fn passthrough() -> (r: Self)
        ensures
            r.spec_bits() == 0x80000,
    {
        FlagSet { bits: 0x80000 }
    }

    /// Gets the raw bits of the set.
    pub fn bits(&self) -> (r: u32)
        ensures
            r == self.spec_bits(),
            r < 0x100000,
    {
        proof {
            use_type_invariant(self);
        }
        self.bits
    }

    /// Creates a set from raw bits; `None` where a bit does not correspond to a known flag.
    pub fn from_bits(bits: u32) -> (r: Option<Self>)
        ensures
            bits < 0x100000 ==> (r matches Some(s) && s.spec_bits() == bits),
            bits >= 0x100000 ==> r is None,
    {
        if bits < 0x100000 {
            Some(FlagSet { bits })
        } else {
            None
        }
    }

    /// Creates a set from raw bits, dropping any that do not correspond to a known flag.
    pub fn from_bits_truncate(bits: u32) -> (r: Self)
        ensures
            r.spec_bits() == bits & 0xfffff,
    {
        proof {
            lemma_stream_flag_bits(0, 0, bits);
        }
        FlagSet { bits: bits & 0xfffff }
    }

    /// The empty set.
    pub fn empty() -> (r: Self)
        ensures
            r.spec_bits() == 0,
    {
        FlagSet { bits: 0 }
    }

    /// The set of all known flags.
    pub fn all() -> (r: Self)
        ensures
            r.spec_bits() == 0xfffff,
    {
        FlagSet { bits: 0xfffff }
    }

    /// Whether no flag is set.
    pub fn is_empty(&self) -> (r: bool)
        ensures
            r == (self.spec_bits() == 0),
    {
        self.bits == 0
    }

    /// Whether all known flags are set.
    pub fn is_all(&self) -> (r: bool)
        ensures
            r == (self.spec_bits() == 0xfffff),
    {
        self.bits == 0xfffff
    }

    /// Whether every flag of `other` is in this set.
    pub fn contains(&self, other: Self) -> (r: bool)
        ensures
            r == (self.spec_bits() & other.spec_bits() == other.spec_bits()),
    {
        self.bits & other.bits == other.bits
    }

    /// Whether this set and `other` share a flag.
    pub fn intersects(&self, other: Self) -> (r: bool)
        ensures
            r == (self.spec_bits() & other.spec_bits() != 0),
    {
        self.bits & other.bits != 0
    }

    /// The flags in either set.
    pub fn union(self, other: Self) -> (r: Self)
        ensures
            r.spec_bits() == self.spec_bits() | other.spec_bits(),
    {
        proof {
            use_type_invariant(self);
            use_type_invariant(other);
            lemma_stream_flag_bits(self.bits, other.bits, 0);
        }
        FlagSet { bits: self.bits | other.bits }
    }

    /// The flags in both sets.
    pub fn intersection(self, other: Self) -> (r: Self)
        ensures
            r.spec_bits() == self.spec_bits() & other.spec_bits(),
    {
        proof {
            use_type_invariant(self);
            use_type_invariant(other);
            lemma_stream_flag_bits(self.bits, other.bits, 0);
        }
        FlagSet { bits: self.bits & other.bits }
    }

    /// The flags in this set and not in `other`.
    pub fn difference(self, other: Self) -> (r: Self)
        ensures
            r.spec_bits() == self.spec_bits() & !other.spec_bits(),
    {
        proof {
            use_type_invariant(self);
            use_type_invariant(other);
            lemma_stream_flag_bits(self.bits, other.bits, 0);
        }
        FlagSet { bits: self.bits & !other.bits }
    }

    /// The flags in exactly one of the two sets.
    pub fn symmetric_difference(self, other: Self) -> (r: Self)
        ensures
            r.spec_bits() == self.spec_bits() ^ other.spec_bits(),
    {
        proof {
            use_type_invariant(self);
            use_type_invariant(other);
            lemma_stream_flag_bits(self.bits, other.bits, 0);
        }
        FlagSet { bits: self.bits ^ other.bits }
    }

    /// The known flags not in this set.
    pub fn complement(self) -> (r: Self)
        ensures
            r.spec_bits() == !self.spec_bits() & 0xfffff,
    {
        proof {
            use_type_invariant(self);
            lemma_stream_flag_bits(self.bits, 0, 0);
        }
        FlagSet { bits: !self.bits & 0xfffff }
    }

    /// Adds the flags of `other`.
    pub fn insert(&mut self, other: Self)
        ensures
            final(self).spec_bits() == old(self).spec_bits() | other.spec_bits(),
    {
        *self = self.union(other);
    }

    /// Removes the flags of `other`.
    pub fn remove(&mut self, other: Self)
        ensures
            final(self).spec_bits() == old(self).spec_bits() & !other.spec_bits(),
    {
        *self = self.difference(other);
    }

    /// Flips the flags of `other`.
    pub fn toggle(&mut self, other: Self)
        ensures
            final(self).spec_bits() == old(self).spec_bits() ^ other.spec_bits(),
    {
        *self = self.symmetric_difference(other);
    }

    /// Adds the flags of `other` where `value` holds, and removes them otherwise.
    pub fn set(&mut self, other: Self, value: bool)
        ensures
            value ==> final(self).spec_bits() == old(self).spec_bits() | other.spec_bits(),
            !value ==> final(self).spec_bits() == old(self).spec_bits() & !other.spec_bits(),
    {
        if value {
            self.insert(other);
        } else {
            self.remove(other);
        }
    }
}

impl Default for FlagSet {
    /// No flags.
    fn default() -> (r: Self)
        ensures
            r.spec_bits() == 0,
    {
        FlagSet::noflags()
    }
}

/// Seek type for writing to a stream.
#[derive(Debug, Copy, Clone, PartialEq, Eq, Structural)]
pub enum SeekMode {
    /// Seek relatively to the write index.
    Relative,
    /// Seek relatively to the start of the buffer queue.
    Absolute,
    /// Seek relatively to the read index.
    RelativeOnRead,
    /// Seek relatively to the current end of the buffer queue.
    RelativeEnd,
}

/// The direction of a stream.
#[derive(Debug, Copy, Clone, PartialEq, Eq, Structural)]
pub enum Direction {
    /// Invalid direction.
    Invalid,
    /// Playback stream.
    Playback,
    /// Record stream.
    Record,
    /// Sample upload stream.
    Upload,
}

/// Result type for the stream's `peek()` method.
#[derive(Debug)]
pub enum PeekResult<'a> {
    /// No data (Null data pointer and size of 0 returned by PA).
    Empty,
    /// Data hole with given size (Null pointer with non-zero size returned by PA).
    Hole(usize),
    /// Data available, with slice into memory returned by PA.
    Data(&'a [u8]),
}

/// Result type for the stream's `get_latency()` method.
#[derive(Debug, Copy, Clone, PartialEq, Eq, Structural)]
pub enum Latency {
    /// No latency information (none has been received yet).
    NoInfo,
    /// A positive (greater than zero) amount of latency.
    Positive(MicroSeconds),
    /// A negative (less than zero) amount of latency.
    Negative(MicroSeconds),
}

/// The error value that the library returns when no timing information has been received yet.
pub open spec fn no_data_error() -> i32 {
    error_of_code(Code::NoData).0
}

impl<'a> PeekResult<'a> {
    /// Interprets what reading the next fragment returned: the return value `ret`, the data (when
    /// the data pointer was not null, the `nbytes` bytes it points to) and the byte count `nbytes`.
    ///
    /// A non-zero `ret` is an error; otherwise data is `Data`, and its absence is `Empty` for a
    /// count of zero and a `Hole` of that many bytes for any other count.
    pub fn from_query(ret: i32, data: Option<&'a [u8]>, nbytes: usize) -> (r: Result<
        PeekResult<'a>,
        PAErr,
    >)
        ensures
            ret != 0 ==> r == Err::<PeekResult<'a>, PAErr>(PAErr(ret)),
            ret == 0 && data is Some ==> r == Ok::<PeekResult<'a>, PAErr>(
                PeekResult::Data(data->0),
            ),
            ret == 0 && data is None && nbytes == 0 ==> r == Ok::<PeekResult<'a>, PAErr>(
                PeekResult::Empty,
            ),
            ret == 0 && data is None && nbytes != 0 ==> r == Ok::<PeekResult<'a>, PAErr>(
                PeekResult::Hole(nbytes),
            ),
    {
        if ret != 0 {
            return Err(PAErr(ret));
        }
        match data {
            Some(slice) => Ok(PeekResult::Data(slice)),
            None => if nbytes == 0 {
                Ok(PeekResult::Empty)
            } else {
                Ok(PeekResult::Hole(nbytes))
            },
        }
    }
}

impl Latency {
    /// Interprets what querying the total stream latency returned: the return value `ret`, the
    /// latency in microseconds `usecs` and the sign flag `negative`.
    ///
    /// Zero is success, with a negative latency when the flag is `1` and a positive one otherwise;
    /// the ‘no data’ error means no timing information has been received yet (`Latency::NoInfo`);
    /// any other value is an error.
    pub fn from_query(ret: i32, usecs: u64, negative: i32) -> (r: Result<Latency, PAErr>)
        ensures
            ret == 0 && negative == 1 ==> r == Ok::<Latency, PAErr>(
                Latency::Negative(MicroSeconds(usecs)),
            ),
            ret == 0 && negative != 1 ==> r == Ok::<Latency, PAErr>(
                Latency::Positive(MicroSeconds(usecs)),
            ),
            ret != 0 && ret == no_data_error() ==> r == Ok::<Latency, PAErr>(Latency::NoInfo),
            ret != 0 && ret != no_data_error() ==> r == Err::<Latency, PAErr>(PAErr(ret)),
    {
        if ret == 0 {
            if negative == 1 {
                Ok(Latency::Negative(MicroSeconds(usecs)))
            } else {
                Ok(Latency::Positive(MicroSeconds(usecs)))
            }
        } else if ret == PAErr::from(Code::NoData).0 {
            Ok(Latency::NoInfo)
        } else {
            Err(PAErr(ret))
        }
    }
}

/// Interprets what querying the stream time returned: the return value `ret` and the time in
/// microseconds `usecs`.
///
/// Zero is success; the ‘no data’ error means no timing information has been received yet
/// (`Ok(None)`); any other value is an error.
pub fn time_from_query(ret: i32, usecs: u64) -> (r: Result<Option<MicroSeconds>, PAErr>)
    ensures
        ret == 0 ==> r == Ok::<Option<MicroSeconds>, PAErr>(Some(MicroSeconds(usecs))),
        ret != 0 && ret == no_data_error() ==> r == Ok::<Option<MicroSeconds>, PAErr>(None),
        ret != 0 && ret != no_data_error() ==> r == Err::<Option<MicroSeconds>, PAErr>(
            PAErr(ret),
        ),
{
    if ret == 0 {
        Ok(Some(MicroSeconds(usecs)))
    } else if ret == PAErr::from(Code::NoData).0 {
        Ok(None)
    } else {
        Err(PAErr(ret))
    }
}

/// Interprets a yes/no query (whether the stream is suspended, or corked): `0` is no, `1` is
/// yes, any other value is an error.
pub fn flag_from_query(ret: i32) -> (r: Result<bool, PAErr>)
    ensures
        ret == 0 ==> r == Ok::<bool, PAErr>(false),
        ret == 1 ==> r == Ok::<bool, PAErr>(true),
        ret != 0 && ret != 1 ==> r == Err::<bool, PAErr>(PAErr(ret)),
{
    match ret {
        0 => Ok(false),
        1 => Ok(true),
        e => Err(PAErr(e)),
    }
}

/// Interprets a size query (writable or readable size): `usize::MAX` reports an error.
pub fn size_from_query(ret: usize) -> (r: Option<usize>)
    ensures
        ret == usize::MAX ==> r is None,
        ret != usize::MAX ==> r == Some(ret),
{
    if ret == usize::MAX {
        None
    } else {
        Some(ret)
    }
}

/// Interprets the underflow index query: a negative value means it is not known.
pub fn underflow_index_from_query(ret: i64) -> (r: Option<u64>)
    ensures
        ret < 0 ==> r is None,
        ret >= 0 ==> r == Some(ret as u64),
{
    if ret < 0 {
        None
    } else {
        Some(ret as u64)
    }
}

/// Interprets an index query: the invalid index means there is none.
pub fn index_from_query(ret: u32) -> (r: Option<u32>)
    ensures
        ret == crate::def::INVALID_INDEX ==> r is None,
        ret != crate::def::INVALID_INDEX ==> r == Some(ret),
{
    if ret == crate::def::INVALID_INDEX {
        None
    } else {
        Some(ret)
    }
}

/// Interprets the return value of an operation that succeeds with `0`.
pub fn unit_from_query(ret: i32) -> (r: Result<(), PAErr>)
    ensures
        ret == 0 ==> r == Ok::<(), PAErr>(()),
        ret != 0 ==> r == Err::<(), PAErr>(PAErr(ret)),
{
    if ret == 0 {
        Ok(())
    } else {
        Err(PAErr(ret))
    }
}

} // verus!
