//! Constants and routines for handing channel mapping.
//!
//! Channel maps provide a way to associate channels in a stream with a specific speaker position.
//! A channel map consists of an array of [`Position`] values, one for each channel. This array is
//! stored together with a channel count in a [`ChannelMap`] structure.

use vstd::prelude::*;

verus! {

/// A mask of channel positions.
pub type PositionMask = u64;

/// Position mask covering all positions.
pub const POSITION_MASK_ALL: PositionMask = 0xffff_ffff_ffff_ffff;

/// A list of channel labels.
#[derive(Debug, Copy, Clone, PartialEq, Eq, Structural)]
pub enum Position {
    /// Invalid position.
    Invalid,
    /// Mono.
    Mono,
    /// Apple, Dolby call this ‘Left’.
    FrontLeft,
    /// Apple, Dolby call this ‘Right’.
    FrontRight,
    /// Apple, Dolby call this ‘Center’.
    FrontCenter,
    /// Microsoft calls this ‘Back Center’, Apple calls this ‘Center Surround’, Dolby calls this ‘Surround Rear Center’.
    RearCenter,
    /// Microsoft calls this ‘Back Left’, Apple calls this ‘Left Surround’, Dolby calls this ‘Surround Rear Left’.
    RearLeft,
    /// Microsoft calls this ‘Back Right’, Apple calls this ‘Right Surround’, Dolby calls this ‘Surround Rear Right’.
    RearRight,
    /// Aka subwoofer. Microsoft calls this ‘Low Frequency’, Apple calls this ‘LFEScreen’.
    Lfe,
    /// Apple, Dolby call this ‘Left Center’.
    FrontLeftOfCenter,
    /// Apple, Dolby call this ‘Right Center’.
    FrontRightOfCenter,
    /// Apple calls this ‘Left Surround Direct’, Dolby calls this ‘Surround Left’.
    SideLeft,
    /// Apple calls this ‘Right Surround Direct’, Dolby calls this ‘Surround Right’.
    SideRight,
    /// Auxiliary channel 0.
    Aux0,
    /// Auxiliary channel 1.
    Aux1,
    /// Auxiliary channel 2.
    Aux2,
    /// Auxiliary channel 3.
    Aux3,
    /// Auxiliary channel 4.
    Aux4,
    /// Auxiliary channel 5.
    Aux5,
    /// Auxiliary channel 6.
    Aux6,
    /// Auxiliary channel 7.
    Aux7,
    /// Auxiliary channel 8.
    Aux8,
    /// Auxiliary channel 9.
    Aux9,
    /// Auxiliary channel 10.
    Aux10,
    /// Auxiliary channel 11.
    Aux11,
    /// Auxiliary channel 12.
    Aux12,
    /// Auxiliary channel 13.
    Aux13,
    /// Auxiliary channel 14.
    Aux14,
    /// Auxiliary channel 15.
    Aux15,
    /// Auxiliary channel 16.
    Aux16,
    /// Auxiliary channel 17.
    Aux17,
    /// Auxiliary channel 18.
    Aux18,
    /// Auxiliary channel 19.
    Aux19,
    /// Auxiliary channel 20.
    Aux20,
    /// Auxiliary channel 21.
    Aux21,
    /// Auxiliary channel 22.
    Aux22,
    /// Auxiliary channel 23.
    Aux23,
    /// Auxiliary channel 24.
    Aux24,
    /// Auxiliary channel 25.
    Aux25,
    /// Auxiliary channel 26.
    Aux26,
    /// Auxiliary channel 27.
    Aux27,
    /// Auxiliary channel 28.
    Aux28,
    /// Auxiliary channel 29.
    Aux29,
    /// Auxiliary channel 30.
    Aux30,
    /// Auxiliary channel 31.
    Aux31,
    /// Apple calls this ‘Top Center Surround’.
    TopCenter,
    /// Apple calls this ‘Vertical Height Left’.
    TopFrontLeft,
    /// Apple calls this ‘Vertical Height Right’.
    TopFrontRight,
    /// Apple calls this ‘Vertical Height Center’.
    TopFrontCenter,
    /// Microsoft and Apple call this ‘Top Back Left’.
    TopRearLeft,
    /// Microsoft and Apple call this ‘Top Back Right’.
    TopRearRight,
    /// Microsoft and Apple call this ‘Top Back Center’.
    TopRearCenter,
}

/// The number of a channel position: `-1` for the invalid position, and from `0` (mono) up to
/// `50` (top rear center) in the order of the list.
pub open spec fn position_number(p: Position) -> int {
    match p {
        Position::Invalid => -1,
        Position::Mono => 0,
        Position::FrontLeft => 1,
        Position::FrontRight => 2,
        Position::FrontCenter => 3,
        Position::RearCenter => 4,
        Position::RearLeft => 5,
        Position::RearRight => 6,
        Position::Lfe => 7,
        Position::FrontLeftOfCenter => 8,
        Position::FrontRightOfCenter => 9,
        Position::SideLeft => 10,
        Position::SideRight => 11,
        Position::Aux0 => 12,
        Position::Aux1 => 13,
        Position::Aux2 => 14,
        Position::Aux3 => 15,
        Position::Aux4 => 16,
        Position::Aux5 => 17,
        Position::Aux6 => 18,
        Position::Aux7 => 19,
        Position::Aux8 => 20,
        Position::Aux9 => 21,
        Position::Aux10 => 22,
        Position::Aux11 => 23,
        Position::Aux12 => 24,
        Position::Aux13 => 25,
        Position::Aux14 => 26,
        Position::Aux15 => 27,
        Position::Aux16 => 28,
        Position::Aux17 => 29,
        Position::Aux18 => 30,
        Position::Aux19 => 31,
        Position::Aux20 => 32,
        Position::Aux21 => 33,
        Position::Aux22 => 34,
        Position::Aux23 => 35,
        Position::Aux24 => 36,
        Position::Aux25 => 37,
        Position::Aux26 => 38,
        Position::Aux27 => 39,
        Position::Aux28 => 40,
        Position::Aux29 => 41,
        Position::Aux30 => 42,
        Position::Aux31 => 43,
        Position::TopCenter => 44,
        Position::TopFrontLeft => 45,
        Position::TopFrontRight => 46,
        Position::TopFrontCenter => 47,
        Position::TopRearLeft => 48,
        Position::TopRearRight => 49,
        Position::TopRearCenter => 50,
    }
}

impl Default for Position {
    fn default() -> (r: Self)
        ensures
            r == Position::Invalid,
    {
        Position::Invalid
    }
}

impl Position {
    /// The number of this position (`-1` for the invalid one).
    pub fn number(self) -> (r: i32)
        ensures
            r == position_number(self),
    {
        match self {
            Position::Invalid => -1,
            Position::Mono => 0,
            Position::FrontLeft => 1,
            Position::FrontRight => 2,
            Position::FrontCenter => 3,
            Position::RearCenter => 4,
            Position::RearLeft => 5,
            Position::RearRight => 6,
            Position::Lfe => 7,
            Position::FrontLeftOfCenter => 8,
            Position::FrontRightOfCenter => 9,
            Position::SideLeft => 10,
            Position::SideRight => 11,
            Position::Aux0 => 12,
            Position::Aux1 => 13,
            Position::Aux2 => 14,
            Position::Aux3 => 15,
            Position::Aux4 => 16,
            Position::Aux5 => 17,
            Position::Aux6 => 18,
            Position::Aux7 => 19,
            Position::Aux8 => 20,
            Position::Aux9 => 21,
            Position::Aux10 => 22,
            Position::Aux11 => 23,
            Position::Aux12 => 24,
            Position::Aux13 => 25,
            Position::Aux14 => 26,
            Position::Aux15 => 27,
            Position::Aux16 => 28,
            Position::Aux17 => 29,
            Position::Aux18 => 30,
            Position::Aux19 => 31,
            Position::Aux20 => 32,
            Position::Aux21 => 33,
            Position::Aux22 => 34,
            Position::Aux23 => 35,
            Position::Aux24 => 36,
            Position::Aux25 => 37,
            Position::Aux26 => 38,
            Position::Aux27 => 39,
            Position::Aux28 => 40,
            Position::Aux29 => 41,
            Position::Aux30 => 42,
            Position::Aux31 => 43,
            Position::TopCenter => 44,
            Position::TopFrontLeft => 45,
            Position::TopFrontRight => 46,
            Position::TopFrontCenter => 47,
            Position::TopRearLeft => 48,
            Position::TopRearRight => 49,
            Position::TopRearCenter => 50,
        }
    }

    /// The position with the given number, if there is one.
    pub fn from_number(n: i32) -> (r: Option<Position>)
        ensures
            r matches Some(p) ==> position_number(p) == n,
            r is None <==> !(-1 <= n <= 50),
    {
        match n {
            -1 => Some(Position::Invalid),
            0 => Some(Position::Mono),
            1 => Some(Position::FrontLeft),
            2 => Some(Position::FrontRight),
            3 => Some(Position::FrontCenter),
            4 => Some(Position::RearCenter),
            5 => Some(Position::RearLeft),
            6 => Some(Position::RearRight),
            7 => Some(Position::Lfe),
            8 => Some(Position::FrontLeftOfCenter),
            9 => Some(Position::FrontRightOfCenter),
            10 => Some(Position::SideLeft),
            11 => Some(Position::SideRight),
            12 => Some(Position::Aux0),
            13 => Some(Position::Aux1),
            14 => Some(Position::Aux2),
            15 => Some(Position::Aux3),
            16 => Some(Position::Aux4),
            17 => Some(Position::Aux5),
            18 => Some(Position::Aux6),
            19 => Some(Position::Aux7),
            20 => Some(Position::Aux8),
            21 => Some(Position::Aux9),
            22 => Some(Position::Aux10),
            23 => Some(Position::Aux11),
            24 => Some(Position::Aux12),
            25 => Some(Position::Aux13),
            26 => Some(Position::Aux14),
            27 => Some(Position::Aux15),
            28 => Some(Position::Aux16),
            29 => Some(Position::Aux17),
            30 => Some(Position::Aux18),
            31 => Some(Position::Aux19),
            32 => Some(Position::Aux20),
            33 => Some(Position::Aux21),
            34 => Some(Position::Aux22),
            35 => Some(Position::Aux23),
            36 => Some(Position::Aux24),
            37 => Some(Position::Aux25),
            38 => Some(Position::Aux26),
            39 => Some(Position::Aux27),
            40 => Some(Position::Aux28),
            41 => Some(Position::Aux29),
            42 => Some(Position::Aux30),
            43 => Some(Position::Aux31),
            44 => Some(Position::TopCenter),
            45 => Some(Position::TopFrontLeft),
            46 => Some(Position::TopFrontRight),
            47 => Some(Position::TopFrontCenter),
            48 => Some(Position::TopRearLeft),
            49 => Some(Position::TopRearRight),
            50 => Some(Position::TopRearCenter),
            _ => None,
        }
    }

    /// Makes a bit mask from a channel position: the bit of the position's number, and no bit
    /// for the invalid position.
    pub fn to_mask(self) -> (r: PositionMask)
        ensures
            self == Position::Invalid ==> r == 0,
            self != Position::Invalid ==> r == 1u64 << (position_number(self) as u64),
    {
        let n: u64 = match self {
            Position::Invalid => {
                return 0;
            },
            Position::Mono => 0,
            Position::FrontLeft => 1,
            Position::FrontRight => 2,
            Position::FrontCenter => 3,
            Position::RearCenter => 4,
            Position::RearLeft => 5,
            Position::RearRight => 6,
            Position::Lfe => 7,
            Position::FrontLeftOfCenter => 8,
            Position::FrontRightOfCenter => 9,
            Position::SideLeft => 10,
            Position::SideRight => 11,
            Position::Aux0 => 12,
            Position::Aux1 => 13,
            Position::Aux2 => 14,
            Position::Aux3 => 15,
            Position::Aux4 => 16,
            Position::Aux5 => 17,
            Position::Aux6 => 18,
            Position::Aux7 => 19,
            Position::Aux8 => 20,
            Position::Aux9 => 21,
            Position::Aux10 => 22,
            Position::Aux11 => 23,
            Position::Aux12 => 24,
            Position::Aux13 => 25,
            Position::Aux14 => 26,
            Position::Aux15 => 27,
            Position::Aux16 => 28,
            Position::Aux17 => 29,
            Position::Aux18 => 30,
            Position::Aux19 => 31,
            Position::Aux20 => 32,
            Position::Aux21 => 33,
            Position::Aux22 => 34,
            Position::Aux23 => 35,
            Position::Aux24 => 36,
            Position::Aux25 => 37,
            Position::Aux26 => 38,
            Position::Aux27 => 39,
            Position::Aux28 => 40,
            Position::Aux29 => 41,
            Position::Aux30 => 42,
            Position::Aux31 => 43,
            Position::TopCenter => 44,
            Position::TopFrontLeft => 45,
            Position::TopFrontRight => 46,
            Position::TopFrontCenter => 47,
            Position::TopRearLeft => 48,
            Position::TopRearRight => 49,
            Position::TopRearCenter => 50,
        };
        1u64 << n
    }
}

/// A channel map: a channel count and a position for each channel (only the first `channels`
/// entries are in use).
#[derive(Debug, Copy, Clone)]
pub struct ChannelMap {
    /// Number of channels mapped.
    pub channels: u8,
    /// Channel labels.
    pub map: [Position; 32],
}

/// Whether two channel maps are equal: the same channel count, and the same positions for the
/// channels in use.
pub open spec fn maps_equal(a: ChannelMap, b: ChannelMap) -> bool {
    a.channels == b.channels && forall|i: int| 0 <= i < a.channels ==> #[trigger] a.map[i] == b.map[i]
}

impl Default for ChannelMap {
    /// A map with no channels, every position invalid.
    fn default() -> (r: Self)
        ensures
            r.channels == 0,
            forall|i: int| 0 <= i < 32 ==> #[trigger] r.map[i] == Position::Invalid,
    {
        ChannelMap { channels: 0, map: [Position::Invalid; 32] }
    }
}

impl ChannelMap {
    /// Compares two maps: equal where the channel counts are equal and the positions of the
    /// channels in use are equal. A channel count above the array's length (32) is not a valid
    /// map.
    pub fn eq(&self, other: &Self) -> (r: bool)
        requires
            self.channels <= 32,
            other.channels <= 32,
        ensures
            r == maps_equal(*self, *other),
    {
        if self.channels != other.channels {
            return false;
        }
        let n = self.channels as usize;
        let mut i: usize = 0;
        while i < n
            invariant
                n == self.channels,
                self.channels == other.channels,
                n <= 32,
                i <= n,
                forall|j: int| 0 <= j < i ==> #[trigger] self.map[j] == other.map[j],
            decreases n - i,
        {
            if self.map[i] != other.map[i] {
                return false;
            }
            i += 1;
        }
        true
    }
}

/// Position numbers are the values of the C enumeration of channel positions
/// (`pa_channel_position_t`): the invalid position is `-1`, mono `0`, front left `1`, front right
/// `2`, front center `3`, rear center `4`, rear left `5`, rear right `6`, LFE `7`, front left and
/// right of center `8` and `9`, side left and right `10` and `11`, the auxiliary channels `12` to
/// `43`, and the top positions `44` to `50`. So [`Position::from_number`] decodes each of these
/// values to its position, [`Position::number`] gives it back, and [`Position::to_mask`] sets the
/// bit of that value.
pub proof fn lemma_position_numbers_are_c_values()
    ensures
        position_number(Position::Invalid) == -1,
        position_number(Position::Mono) == 0,
        position_number(Position::FrontLeft) == 1,
        position_number(Position::FrontRight) == 2,
        position_number(Position::FrontCenter) == 3,
        position_number(Position::RearCenter) == 4,
        position_number(Position::RearLeft) == 5,
        position_number(Position::RearRight) == 6,
        position_number(Position::Lfe) == 7,
        position_number(Position::FrontLeftOfCenter) == 8,
        position_number(Position::FrontRightOfCenter) == 9,
        position_number(Position::SideLeft) == 10,
        position_number(Position::SideRight) == 11,
        position_number(Position::Aux0) == 12,
        position_number(Position::Aux1) == 13,
        position_number(Position::Aux2) == 14,
        position_number(Position::Aux3) == 15,
        position_number(Position::Aux4) == 16,
        position_number(Position::Aux5) == 17,
        position_number(Position::Aux6) == 18,
        position_number(Position::Aux7) == 19,
        position_number(Position::Aux8) == 20,
        position_number(Position::Aux9) == 21,
        position_number(Position::Aux10) == 22,
        position_number(Position::Aux11) == 23,
        position_number(Position::Aux12) == 24,
        position_number(Position::Aux13) == 25,
        position_number(Position::Aux14) == 26,
        position_number(Position::Aux15) == 27,
        position_number(Position::Aux16) == 28,
        position_number(Position::Aux17) == 29,
        position_number(Position::Aux18) == 30,
        position_number(Position::Aux19) == 31,
        position_number(Position::Aux20) == 32,
        position_number(Position::Aux21) == 33,
        position_number(Position::Aux22) == 34,
        position_number(Position::Aux23) == 35,
        position_number(Position::Aux24) == 36,
        position_number(Position::Aux25) == 37,
        position_number(Position::Aux26) == 38,
        position_number(Position::Aux27) == 39,
        position_number(Position::Aux28) == 40,
        position_number(Position::Aux29) == 41,
        position_number(Position::Aux30) == 42,
        position_number(Position::Aux31) == 43,
        position_number(Position::TopCenter) == 44,
        position_number(Position::TopFrontLeft) == 45,
        position_number(Position::TopFrontRight) == 46,
        position_number(Position::TopFrontCenter) == 47,
        position_number(Position::TopRearLeft) == 48,
        position_number(Position::TopRearRight) == 49,
        position_number(Position::TopRearCenter) == 50,
{
}

/// The layout of the position numbers: each left/right pair is numbered left first and one apart
/// (front, rear, front of center, side, top front, top rear), front left and right follow mono
/// and precede front center, the auxiliary channels are numbered consecutively from `Aux0`, and
/// every valid position's number lies from `0` to `50`, the range of its mask bit.
pub proof fn lemma_position_number_layout(p: Position)
    ensures
        position_number(Position::FrontLeft) == position_number(Position::Mono) + 1,
        position_number(Position::FrontRight) == position_number(Position::FrontLeft) + 1,
        position_number(Position::FrontCenter) == position_number(Position::FrontRight) + 1,
        position_number(Position::RearLeft) == position_number(Position::RearCenter) + 1,
        position_number(Position::RearRight) == position_number(Position::RearLeft) + 1,
        position_number(Position::FrontRightOfCenter) == position_number(Position::FrontLeftOfCenter) + 1,
        position_number(Position::SideRight) == position_number(Position::SideLeft) + 1,
        position_number(Position::TopFrontRight) == position_number(Position::TopFrontLeft) + 1,
        position_number(Position::TopRearRight) == position_number(Position::TopRearLeft) + 1,
        position_number(Position::Aux31) == position_number(Position::Aux0) + 31,
        position_number(Position::Mono) == 0,
        p != Position::Invalid ==> 0 <= position_number(p) <= 50,
        p == Position::Invalid <==> position_number(p) < 0,
{
}

/// Equality of channel maps is reflexive, symmetric and transitive.
pub proof fn lemma_maps_equal_is_equivalence(a: ChannelMap, b: ChannelMap, c: ChannelMap)
    ensures
        maps_equal(a, a),
        maps_equal(a, b) ==> maps_equal(b, a),
        maps_equal(a, b) && maps_equal(b, c) ==> maps_equal(a, c),
{
    if maps_equal(a, b) && maps_equal(b, c) {
        assert forall|i: int| 0 <= i < a.channels implies #[trigger] a.map[i] == c.map[i] by {
            assert(a.map[i] == b.map[i]);
            assert(b.map[i] == c.map[i]);
        }
    }
}

/// The masks of two valid positions share no bit unless the positions are the same, and each is
/// a single bit.
pub proof fn lemma_position_masks_distinct(p: Position, q: Position)
    requires
        p != Position::Invalid,
        q != Position::Invalid,
    ensures
        (1u64 << (position_number(p) as u64)) != 0,
        p != q ==> (1u64 << (position_number(p) as u64)) & (1u64 << (position_number(q) as u64)) == 0,
{
    let a = position_number(p) as u64;
    let b = position_number(q) as u64;
    assert(p != q ==> a != b);
    assert((1u64 << a) != 0 && (a != b ==> (1u64 << a) & (1u64 << b) == 0)) by (bit_vector)
        requires
            a < 64,
            b < 64,
    ;
}

} // verus!
