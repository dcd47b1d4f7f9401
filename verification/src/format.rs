//! Utility functions for handling a stream or sink format.

use vstd::prelude::*;

verus! {

/// Represents the type of encoding used in a stream or accepted by a sink.
#[derive(Debug, Copy, Clone, PartialEq, Eq, Structural)]
#[allow(non_camel_case_types)]
pub enum Encoding {
    /// Any encoding format, PCM or compressed.
    Any,
    /// Any PCM format.
    PCM,
    /// AC3 data encapsulated in IEC 61937 header/padding.
    AC3_IEC61937,
    /// EAC3 data encapsulated in IEC 61937 header/padding.
    EAC3_IEC61937,
    /// MPEG-1 or MPEG-2 (Part 3, not AAC) data encapsulated in IEC 61937 header/padding.
    MPEG_IEC61937,
    /// DTS data encapsulated in IEC 61937 header/padding.
    DTS_IEC61937,
    /// MPEG-2 AAC data encapsulated in IEC 61937 header/padding.
    MPEG2_AAC_IEC61937,
    /// Dolby TrueHD data encapsulated in IEC 61937 header/padding.
    TRUEHD_IEC61937,
    /// DTS-HD Master Audio encapsulated in IEC 61937 header/padding.
    DTSHD_IEC61937,
    /// Represents an invalid encoding.
    Invalid,
}

impl Default for Encoding {
    fn default() -> (r: Self)
        ensures
            r == Encoding::Invalid,
    {
        Encoding::Invalid
    }
}

} // verus!
