//! Constants and routines for sample type handling.
//!
//! PulseAudio supports the following sample formats:
//!
//! * `U8` - Unsigned 8 bit integer PCM.
//! * `S16LE` - Signed 16 integer bit PCM, little endian.
//! * `S16BE` - Signed 16 integer bit PCM, big endian.
//! * `FLOAT32LE` - 32 bit IEEE floating point PCM, little endian.
//! * `FLOAT32BE` - 32 bit IEEE floating point PCM, big endian.
//! * `ALAW` - 8 bit a-Law.
//! * `ULAW` - 8 bit mu-Law.
//! * `S32LE` - Signed 32 bit integer PCM, little endian.
//! * `S32BE` - Signed 32 bit integer PCM, big endian.
//! * `S24LE` - Signed 24 bit integer PCM packed, little endian.
//! * `S24BE` - Signed 24 bit integer PCM packed, big endian.
//! * `S24_32LE` - Signed 24 bit integer PCM in LSB of 32 bit words, little endian.
//! * `S24_32BE` - Signed 24 bit integer PCM in LSB of 32 bit words, big endian.

use vstd::prelude::*;

verus! {

/// Maximum number of allowed channels.
pub const CHANNELS_MAX: u8 = 32;

/// Maximum allowed sample rate.
pub const RATE_MAX: u32 = 768000;

/// Sample format.
#[derive(Debug, Copy, Clone, PartialEq, Eq, Structural)]
#[allow(non_camel_case_types)]
pub enum Format {
    /// Unsigned 8 Bit PCM.
    U8,
    /// 8 Bit a-Law.
    ALaw,
    /// 8 Bit mu-Law.
    ULaw,
    /// Signed 16 Bit PCM, little endian (PC).
    S16le,
    /// Signed 16 Bit PCM, big endian.
    S16be,
    /// 32 Bit IEEE floating point, little endian (PC), range -1.0 to 1.0.
    F32le,
    /// 32 Bit IEEE floating point, big endian, range -1.0 to 1.0.
    F32be,
    /// Signed 32 Bit PCM, little endian (PC).
    S32le,
    /// Signed 32 Bit PCM, big endian.
    S32be,
    /// Signed 24 Bit PCM packed, little endian (PC).
    S24le,
    /// Signed 24 Bit PCM packed, big endian.
    S24be,
    /// Signed 24 Bit PCM in LSB of 32 Bit words, little endian (PC).
    S24_32le,
    /// Signed 24 Bit PCM in LSB of 32 Bit words, big endian.
    S24_32be,
    /// An invalid value.
    Invalid,
}

impl Default for Format {
    fn default() -> (r: Self)
        ensures
            r == Format::Invalid,
    {
        Format::Invalid
    }
}

/// A sample format and attribute specification.
#[derive(Debug, Copy, Clone)]
pub struct Spec {
    /// The sample format.
    pub format: Format,
    /// The sample rate. (e.g. 44100).
    pub rate: u32,
    /// Audio channels. (1 for mono, 2 for stereo, ...).
    pub channels: u8,
}

/// Whether a format is little endian: `Some(true)` for the little endian formats, `Some(false)`
/// for the big endian ones, `None` where endianness does not apply (8-bit formats) or is unknown
/// (the invalid format).
pub open spec fn format_is_le(f: Format) -> Option<bool> {
    match f {
        Format::S16le | Format::F32le | Format::S32le | Format::S24le | Format::S24_32le => Some(
            true,
        ),
        Format::S16be | Format::F32be | Format::S32be | Format::S24be | Format::S24_32be => Some(
            false,
        ),
        _ => None,
    }
}

/// Whether a format is big endian: the negation of [`format_is_le`] where endianness applies.
pub open spec fn format_is_be(f: Format) -> Option<bool> {
    match format_is_le(f) {
        Some(b) => Some(!b),
        None => None,
    }
}

/// The size in bytes of one sample of a (valid) format.
pub open spec fn format_size(f: Format) -> usize {
    match f {
        Format::U8 | Format::ALaw | Format::ULaw => 1,
        Format::S16le | Format::S16be => 2,
        Format::S24le | Format::S24be => 3,
        _ => 4,
    }
}

/// The memory representation of `x` in native byte order: `u16::to_ne_bytes`.
///
/// Its documentation says the bytes are in the platform's native order, so they are either the
/// little endian or the big endian bytes of `x`; which one is a fact of the machine and is not
/// stated.
#[verifier::external_body]
fn u16_native_bytes(x: u16) -> (r: [u8; 2])
    ensures
        (r[0] == x % 256 && r[1] == x / 256) || (r[0] == x / 256 && r[1] == x % 256),
{
    x.to_ne_bytes()
}

/// Whether the platform stores integers little endian first.
fn native_is_little_endian() -> bool {
    let bytes = u16_native_bytes(1);
    bytes[0] == 1
}

/// The variant of an endian-specific format in the given byte order (little endian when
/// `little_endian` holds, big endian otherwise); a format without byte order is left as it is.
pub open spec fn with_byte_order(f: Format, little_endian: bool) -> Format {
    match f {
        Format::S16le | Format::S16be => if little_endian {
            Format::S16le
        } else {
            Format::S16be
        },
        Format::F32le | Format::F32be => if little_endian {
            Format::F32le
        } else {
            Format::F32be
        },
        Format::S32le | Format::S32be => if little_endian {
            Format::S32le
        } else {
            Format::S32be
        },
        Format::S24le | Format::S24be => if little_endian {
            Format::S24le
        } else {
            Format::S24be
        },
        Format::S24_32le | Format::S24_32be => if little_endian {
            Format::S24_32le
        } else {
            Format::S24_32be
        },
        _ => f,
    }
}

/// Whether a format is in the native byte order of a platform that is little endian when
/// `little_endian` holds and big endian otherwise; `None` where endianness does not apply or is
/// unknown.
pub open spec fn format_is_ne_for(f: Format, little_endian: bool) -> Option<bool> {
    if little_endian {
        format_is_le(f)
    } else {
        format_is_be(f)
    }
}

/// Whether a format is in the reverse of the native byte order of such a platform.
pub open spec fn format_is_re_for(f: Format, little_endian: bool) -> Option<bool> {
    if little_endian {
        format_is_be(f)
    } else {
        format_is_le(f)
    }
}

/// Reverse endian is the negation of native endian, on either kind of platform: a format is
/// reverse endian exactly when it is not native endian, and neither answer is given for a format
/// without byte order.
pub proof fn lemma_reverse_endian_negates_native(f: Format, little_endian: bool)
    ensures
        format_is_re_for(f, little_endian) == (match format_is_ne_for(f, little_endian) {
            Some(b) => Some(!b),
            None => None,
        }),
        format_is_ne_for(f, little_endian) is None <==> format_is_le(f) is None,
        format_is_re_for(f, little_endian) is None <==> format_is_le(f) is None,
{
}

/// A format put in a platform's byte order is native endian there and not reverse endian, and
/// its variant in the other byte order is reverse endian there.
pub proof fn lemma_byte_order_variants(f: Format, little_endian: bool)
    requires
        format_is_le(f) is Some,
    ensures
        format_is_ne_for(with_byte_order(f, little_endian), little_endian) == Some(true),
        format_is_re_for(with_byte_order(f, little_endian), little_endian) == Some(false),
        format_is_ne_for(with_byte_order(f, !little_endian), little_endian) == Some(false),
        format_is_re_for(with_byte_order(f, !little_endian), little_endian) == Some(true),
{
}

/// The byte order of each endian-specific format is the one its name says: the `le` formats are
/// little endian and the `be` formats big endian, and the 8-bit formats and the invalid format
/// have none. Putting a format in a byte order gives a format of that byte order and the same
/// width.
pub proof fn lemma_format_byte_orders(f: Format, little_endian: bool)
    ensures
        format_is_le(Format::S16le) == Some(true),
        format_is_le(Format::F32le) == Some(true),
        format_is_le(Format::S32le) == Some(true),
        format_is_le(Format::S24le) == Some(true),
        format_is_le(Format::S24_32le) == Some(true),
        format_is_le(Format::S16be) == Some(false),
        format_is_le(Format::F32be) == Some(false),
        format_is_le(Format::S32be) == Some(false),
        format_is_le(Format::S24be) == Some(false),
        format_is_le(Format::S24_32be) == Some(false),
        format_is_le(Format::U8) is None,
        format_is_le(Format::ALaw) is None,
        format_is_le(Format::ULaw) is None,
        format_is_le(Format::Invalid) is None,
        format_is_le(f) is Some ==> format_is_le(with_byte_order(f, little_endian)) == Some(
            little_endian,
        ),
        format_is_le(f) is Some ==> with_byte_order(with_byte_order(f, !little_endian),
            little_endian) == with_byte_order(f, little_endian),
        format_is_le(f) is Some ==> with_byte_order(f, format_is_le(f)->0) == f,
{
}

/// The size of a sample depends on its format's width alone, not on its byte order: both byte
/// orders of an endian-specific format have the same size. Unsigned 8-bit, a-Law and mu-Law
/// samples take one byte, 16-bit samples two, packed 24-bit samples three, and 32-bit floating
/// point, 32-bit and 24-in-32-bit samples four.
pub proof fn lemma_format_size_by_width(f: Format, little_endian: bool)
    ensures
        format_is_le(f) is Some ==> format_size(with_byte_order(f, little_endian)) == format_size(f),
        format_size(Format::U8) == 1,
        format_size(Format::ALaw) == 1,
        format_size(Format::ULaw) == 1,
        format_size(Format::S16le) == 2,
        format_size(Format::S16be) == 2,
        format_size(Format::S24le) == 3,
        format_size(Format::S24be) == 3,
        format_size(Format::F32le) == 4,
        format_size(Format::F32be) == 4,
        format_size(Format::S32le) == 4,
        format_size(Format::S32be) == 4,
        format_size(Format::S24_32le) == 4,
        format_size(Format::S24_32be) == 4,
{
}

impl Format {
    /// Signed 16-bit PCM in the given byte order.
    pub fn s16_for(little_endian: bool) -> (r: Self)
        ensures
            little_endian ==> r == Format::S16le,
            !little_endian ==> r == Format::S16be,
            r == with_byte_order(Format::S16le, little_endian),
    {
        if little_endian { Format::S16le } else { Format::S16be }
    }

    /// 32-bit IEEE floating point in the given byte order.
    pub fn float32_for(little_endian: bool) -> (r: Self)
        ensures
            little_endian ==> r == Format::F32le,
            !little_endian ==> r == Format::F32be,
            r == with_byte_order(Format::F32le, little_endian),
    {
        if little_endian { Format::F32le } else { Format::F32be }
    }

    /// Signed 32-bit PCM in the given byte order.
    pub fn s32_for(little_endian: bool) -> (r: Self)
        ensures
            little_endian ==> r == Format::S32le,
            !little_endian ==> r == Format::S32be,
            r == with_byte_order(Format::S32le, little_endian),
    {
        if little_endian { Format::S32le } else { Format::S32be }
    }

    /// Signed 24-bit PCM packed, in the given byte order.
    pub fn s24_for(little_endian: bool) -> (r: Self)
        ensures
            little_endian ==> r == Format::S24le,
            !little_endian ==> r == Format::S24be,
            r == with_byte_order(Format::S24le, little_endian),
    {
        if little_endian { Format::S24le } else { Format::S24be }
    }

    /// Signed 24-bit PCM in LSB of 32-bit words, in the given byte order.
    pub fn s24_32_for(little_endian: bool) -> (r: Self)
        ensures
            little_endian ==> r == Format::S24_32le,
            !little_endian ==> r == Format::S24_32be,
            r == with_byte_order(Format::S24_32le, little_endian),
    {
        if little_endian { Format::S24_32le } else { Format::S24_32be }
    }

    /// Signed 16-bit PCM, native endian.
    ///
    /// Which byte order the platform has is not stated; given it, the result is that of
    /// [`s16_for`](Self::s16_for).
    pub fn s16ne() -> (r: Self)
        ensures
            r == Format::S16le || r == Format::S16be,
    {
        let little_endian = native_is_little_endian();
        Format::s16_for(little_endian)
    }

    /// 32-bit IEEE floating point, native endian.
    ///
    /// Which byte order the platform has is not stated; given it, the result is that of
    /// [`float32_for`](Self::float32_for).
    pub fn float32ne() -> (r: Self)
        ensures
            r == Format::F32le || r == Format::F32be,
    {
        let little_endian = native_is_little_endian();
        Format::float32_for(little_endian)
    }

    /// Signed 32-bit PCM, native endian.
    ///
    /// Which byte order the platform has is not stated; given it, the result is that of
    /// [`s32_for`](Self::s32_for).
    pub fn s32ne() -> (r: Self)
        ensures
            r == Format::S32le || r == Format::S32be,
    {
        let little_endian = native_is_little_endian();
        Format::s32_for(little_endian)
    }

    /// Signed 24-bit PCM packed, native endian.
    ///
    /// Which byte order the platform has is not stated; given it, the result is that of
    /// [`s24_for`](Self::s24_for).
    pub fn s24ne() -> (r: Self)
        ensures
            r == Format::S24le || r == Format::S24be,
    {
        let little_endian = native_is_little_endian();
        Format::s24_for(little_endian)
    }

    /// Signed 24-bit PCM in LSB of 32-bit words, native endian.
    ///
    /// Which byte order the platform has is not stated; given it, the result is that of
    /// [`s24_32_for`](Self::s24_32_for).
    pub fn s24_32ne() -> (r: Self)
        ensures
            r == Format::S24_32le || r == Format::S24_32be,
    {
        let little_endian = native_is_little_endian();
        Format::s24_32_for(little_endian)
    }

    /// Signed 16-bit PCM, reverse endian: the byte order that the platform does not have.
    ///
    /// Which byte order the platform has is not stated; given it, the result is that of
    /// [`s16_for`](Self::s16_for) for the other one.
    pub fn s16re() -> (r: Self)
        ensures
            r == Format::S16le || r == Format::S16be,
    {
        let little_endian = native_is_little_endian();
        Format::s16_for(!little_endian)
    }

    /// 32-bit IEEE floating point, reverse endian: the byte order that the platform does not have.
    ///
    /// Which byte order the platform has is not stated; given it, the result is that of
    /// [`float32_for`](Self::float32_for) for the other one.
    pub fn float32re() -> (r: Self)
        ensures
            r == Format::F32le || r == Format::F32be,
    {
        let little_endian = native_is_little_endian();
        Format::float32_for(!little_endian)
    }

    /// Signed 32-bit PCM, reverse endian: the byte order that the platform does not have.
    ///
    /// Which byte order the platform has is not stated; given it, the result is that of
    /// [`s32_for`](Self::s32_for) for the other one.
    pub fn s32re() -> (r: Self)
        ensures
            r == Format::S32le || r == Format::S32be,
    {
        let little_endian = native_is_little_endian();
        Format::s32_for(!little_endian)
    }

    /// Signed 24-bit PCM packed, reverse endian: the byte order that the platform does not have.
    ///
    /// Which byte order the platform has is not stated; given it, the result is that of
    /// [`s24_for`](Self::s24_for) for the other one.
    pub fn s24re() -> (r: Self)
        ensures
            r == Format::S24le || r == Format::S24be,
    {
        let little_endian = native_is_little_endian();
        Format::s24_for(!little_endian)
    }

    /// Signed 24-bit PCM in LSB of 32-bit words, reverse endian: the byte order that the platform does not have.
    ///
    /// Which byte order the platform has is not stated; given it, the result is that of
    /// [`s24_32_for`](Self::s24_32_for) for the other one.
    pub fn s24_32re() -> (r: Self)
        ensures
            r == Format::S24_32le || r == Format::S24_32be,
    {
        let little_endian = native_is_little_endian();
        Format::s24_32_for(!little_endian)
    }

    /// The size in bytes of one sample of this format.
    pub fn size(&self) -> (r: usize)
        requires
            *self != Format::Invalid,
        ensures
            r == format_size(*self),
    {
        match self {
            Format::U8 | Format::ALaw | Format::ULaw => 1,
            Format::S16le | Format::S16be => 2,
            Format::S24le | Format::S24be => 3,
            _ => 4,
        }
    }

    /// Checks if format is little endian.
    ///
    /// Returns `true` when the specified format is little endian, `false` if big endian. Returns
    /// `None` when endianness does not apply to this format, or if unknown.
    pub fn is_le(&self) -> (r: Option<bool>)
        ensures
            r == format_is_le(*self),
    {
        match self {
            Format::S16le | Format::F32le | Format::S32le | Format::S24le | Format::S24_32le => Some(
                true,
            ),
            Format::S16be | Format::F32be | Format::S32be | Format::S24be | Format::S24_32be => Some(
                false,
            ),
            _ => None,
        }
    }

    /// Checks if format is big endian.
    ///
    /// Returns `true` when the specified format is big endian, `false` if little endian. Returns
    /// `None` when endianness does not apply to this format, or if unknown.
    pub fn is_be(&self) -> (r: Option<bool>)
        ensures
            r == format_is_be(*self),
    {
        match self.is_le() {
            Some(b) => Some(!b),
            None => None,
        }
    }

    /// Checks if format is native endian on a platform that is little endian when
    /// `little_endian` holds and big endian otherwise.
    ///
    /// Returns `true` when the specified format is in that byte order, `false` when not. Returns
    /// `None` when endianness does not apply to the specified format, or endianness is unknown.
    pub fn is_ne_for(&self, little_endian: bool) -> (r: Option<bool>)
        ensures
            r == format_is_ne_for(*self, little_endian),
    {
        if little_endian {
            self.is_le()
        } else {
            self.is_be()
        }
    }

    /// Checks if format is the reverse of native endian on a platform that is little endian when
    /// `little_endian` holds and big endian otherwise: the negation of
    /// [`is_ne_for()`](Self::is_ne_for).
    pub fn is_re_for(&self, little_endian: bool) -> (r: Option<bool>)
        ensures
            r == format_is_re_for(*self, little_endian),
    {
        match self.is_ne_for(little_endian) {
            Some(b) => Some(!b),
            None => None,
        }
    }

    /// Checks if format is native endian.
    ///
    /// Returns `true` when the specified format is native endian, `false` when not. Returns `None`
    /// when endianness does not apply to the specified format, or endianness is unknown. Which
    /// byte order the platform has is not stated; given it, the answer is that of
    /// [`is_ne_for()`](Self::is_ne_for).
    pub fn is_ne(&self) -> (r: Option<bool>)
        ensures
            r == format_is_ne_for(*self, true) || r == format_is_ne_for(*self, false),
            format_is_le(*self) is None <==> r is None,
    {
        let little_endian = native_is_little_endian();
        self.is_ne_for(little_endian)
    }

    /// Checks if format is reverse of native endian.
    ///
    /// Returns `true` when the specified format is reverse endian, `false` when not. Returns `None`
    /// when endianness does not apply to the specified format, or endianness is unknown. Which
    /// byte order the platform has is not stated; given it, the answer is that of
    /// [`is_re_for()`](Self::is_re_for).
    pub fn is_re(&self) -> (r: Option<bool>)
        ensures
            r == format_is_re_for(*self, true) || r == format_is_re_for(*self, false),
            format_is_le(*self) is None <==> r is None,
    {
        let little_endian = native_is_little_endian();
        self.is_re_for(little_endian)
    }
}

} // verus!
