//! Daemon introspection event subscription subsystem.
//!
//! The application can be notified, asynchronously, whenever the internal layout of the server
//! changes. An event type carries a *facility* in its low four bits and an *operation* in the next
//! two; [`Facility::from_event`] and [`Operation::from_event`] take them apart. The interest mask
//! handed to the server when subscribing holds one bit per facility.

use vstd::prelude::*;

verus! {

/// The event type passed to the user callback: facility and operation bits.
pub type EventType = u32;

/// Mask to extract the facility value from an event type.
pub const FACILITY_MASK: u32 = 0xf;

/// Mask to extract the operation value from an event type.
pub const OPERATION_MASK: u32 = 0x30;

/// No facility (null selection; zero).
pub const MASK_NULL: u32 = 0;
/// Sink facility.
pub const MASK_SINK: u32 = 0x1;
/// Source facility.
pub const MASK_SOURCE: u32 = 0x2;
/// Sink input facility.
pub const MASK_SINK_INPUT: u32 = 0x4;
/// Source output facility.
pub const MASK_SOURCE_OUTPUT: u32 = 0x8;
/// Module facility.
pub const MASK_MODULE: u32 = 0x10;
/// Client facility.
pub const MASK_CLIENT: u32 = 0x20;
/// Sample cache facility.
pub const MASK_SAMPLE_CACHE: u32 = 0x40;
/// Server facility.
pub const MASK_SERVER: u32 = 0x80;
/// Card facility.
pub const MASK_CARD: u32 = 0x200;
/// All facilities.
pub const MASK_ALL: u32 = 0x2ff;

/// A set of masks used for expressing which facilities you are interested in when subscribing.
///
/// Only the bits of known facilities ([`MASK_ALL`]) can be set.
#[derive(Debug, Copy, Clone, PartialEq, Eq, Structural)]
pub struct InterestMaskSet {
    bits: u32,
}

impl InterestMaskSet {
    /// The bits of the set.
    pub closed spec fn spec_bits(self) -> u32 {
        self.bits
    }

    #[verifier::type_invariant]
    spec fn only_known_bits(self) -> bool {
        self.bits & 0x2ff == self.bits
    }

    /// Gets the raw bits of the set.
    pub fn bits(&self) -> (r: u32)
        ensures
            r == self.spec_bits(),
            r & 0x2ff == r,
    {
        proof {
            use_type_invariant(self);
        }
        self.bits
    }

    /// Creates a set from raw bits; `None` where a bit does not correspond to a known facility.
    pub fn from_bits(bits: u32) -> (r: Option<Self>)
        ensures
            bits & 0x2ff == bits ==> (r matches Some(s) && s.spec_bits() == bits),
            bits & 0x2ff != bits ==> r is None,
    {
        if bits & 0x2ff == bits {
            Some(InterestMaskSet { bits })
        } else {
            None
        }
    }

    /// Creates a set from raw bits, dropping any that do not correspond to a known facility.
    pub fn from_bits_truncate(bits: u32) -> (r: Self)
        ensures
            r.spec_bits() == bits & 0x2ff,
    {
        proof {
            lemma_interest_mask_bits(0, 0, bits);
        }
        InterestMaskSet { bits: bits & 0x2ff }
    }

    /// The empty set.
    pub fn empty() -> (r: Self)
        ensures
            r.spec_bits() == 0,
    {
        proof {
            lemma_interest_mask_bits(0, 0, 0);
        }
        InterestMaskSet { bits: 0 }
    }

    /// The set of all facilities.
    pub fn all() -> (r: Self)
        ensures
            r.spec_bits() == 0x2ff,
    {
        proof {
            lemma_interest_mask_bits(0, 0, 0);
        }
        InterestMaskSet { bits: 0x2ff }
    }

    /// Whether no facility is in the set.
    pub fn is_empty(&self) -> (r: bool)
        ensures
            r == (self.spec_bits() == 0),
    {
        self.bits == 0
    }

    /// Whether every facility is in the set.
    pub fn is_all(&self) -> (r: bool)
        ensures
            r == (self.spec_bits() == 0x2ff),
    {
        self.bits == 0x2ff
    }

    /// Whether every facility of `other` is in this set.
    pub fn contains(&self, other: Self) -> (r: bool)
        ensures
            r == (self.spec_bits() & other.spec_bits() == other.spec_bits()),
    {
        self.bits & other.bits == other.bits
    }

    /// Whether this set and `other` share a facility.
    pub fn intersects(&self, other: Self) -> (r: bool)
        ensures
            r == (self.spec_bits() & other.spec_bits() != 0),
    {
        self.bits & other.bits != 0
    }

    /// The union of two sets.
    pub fn union(self, other: Self) -> (r: Self)
        ensures
            r.spec_bits() == self.spec_bits() | other.spec_bits(),
    {
        proof {
            use_type_invariant(self);
            use_type_invariant(other);
            lemma_interest_mask_bits(self.bits, other.bits, 0);
        }
        InterestMaskSet { bits: self.bits | other.bits }
    }

    /// The facilities in both sets.
    pub fn intersection(self, other: Self) -> (r: Self)
        ensures
            r.spec_bits() == self.spec_bits() & other.spec_bits(),
    {
        proof {
            use_type_invariant(self);
            use_type_invariant(other);
            lemma_interest_mask_bits(self.bits, other.bits, 0);
        }
        InterestMaskSet { bits: self.bits & other.bits }
    }

    /// The facilities in this set and not in `other`.
    pub fn difference(self, other: Self) -> (r: Self)
        ensures
            r.spec_bits() == self.spec_bits() & !other.spec_bits(),
    {
        proof {
            use_type_invariant(self);
            use_type_invariant(other);
            lemma_interest_mask_bits(self.bits, other.bits, 0);
        }
        InterestMaskSet { bits: self.bits & !other.bits }
    }

    /// The facilities in exactly one of the two sets.
    pub fn symmetric_difference(self, other: Self) -> (r: Self)
        ensures
            r.spec_bits() == self.spec_bits() ^ other.spec_bits(),
    {
        proof {
            use_type_invariant(self);
            use_type_invariant(other);
            lemma_interest_mask_bits(self.bits, other.bits, 0);
        }
        InterestMaskSet { bits: self.bits ^ other.bits }
    }

    /// The facilities not in this set.
    pub fn complement(self) -> (r: Self)
        ensures
            r.spec_bits() == !self.spec_bits() & 0x2ff,
    {
        proof {
            use_type_invariant(self);
            lemma_interest_mask_bits(self.bits, 0, 0);
        }
        InterestMaskSet { bits: !self.bits & 0x2ff }
    }

    /// Adds the facilities of `other`.
    pub fn insert(&mut self, other: Self)
        ensures
            final(self).spec_bits() == old(self).spec_bits() | other.spec_bits(),
    {
        *self = self.union(other);
    }

    /// Removes the facilities of `other`.
    pub fn remove(&mut self, other: Self)
        ensures
            final(self).spec_bits() == old(self).spec_bits() & !other.spec_bits(),
    {
        *self = self.difference(other);
    }

    /// Flips the facilities of `other`.
    pub fn toggle(&mut self, other: Self)
        ensures
            final(self).spec_bits() == old(self).spec_bits() ^ other.spec_bits(),
    {
        *self = self.symmetric_difference(other);
    }

    /// Adds the facilities of `other` where `value` holds, and removes them otherwise.
    pub fn set(&mut self, other: Self, value: bool)
        ensures
            value ==> final(self).spec_bits() == old(self).spec_bits() | other.spec_bits(),
            !value ==> final(self).spec_bits() == old(self).spec_bits() & !other.spec_bits(),
    {
        if value {
            self.insert(other);
        } else {
            self.remove(other);
        }
    }
}

/// Proves that the bit operations of [`InterestMaskSet`] keep a set within the known facilities.
proof fn lemma_interest_mask_bits(a: u32, b: u32, x: u32)
    by (bit_vector)
    ensures
        a & 0x2ff == a && b & 0x2ff == b ==> (a | b) & 0x2ff == a | b,
        a & 0x2ff == a && b & 0x2ff == b ==> (a ^ b) & 0x2ff == a ^ b,
        a & 0x2ff == a ==> (a & b) & 0x2ff == a & b,
        a & 0x2ff == a ==> (a & !b) & 0x2ff == a & !b,
        (!a & 0x2ff) & 0x2ff == !a & 0x2ff,
        (x & 0x2ff) & 0x2ff == x & 0x2ff,
        0u32 & 0x2ff == 0u32,
        0x2ffu32 & 0x2ff == 0x2ffu32,
{
}

/// Facility component of an event.
#[derive(Debug, Copy, Clone, PartialEq, Eq, Structural)]
pub enum Facility {
    /// Sink.
    Sink,
    /// Source.
    Source,
    /// Sink-input.
    SinkInput,
    /// Source-output.
    SourceOutput,
    /// Module.
    Module,
    /// Client.
    Client,
    /// Sample-cache.
    SampleCache,
    /// Global server change, only occurring with `Operation::Changed`.
    Server,
    /// Card.
    Card,
}

/// Operation component of an event.
#[derive(Debug, Copy, Clone, PartialEq, Eq, Structural)]
pub enum Operation {
    /// A new object was created
    New,
    /// A property of the object was modified
    Changed,
    /// An object was removed
    Removed,
}

/// The facility value of a facility as it stands in an event type (value `8` was assigned once
/// and is obsolete).
pub open spec fn facility_code(f: Facility) -> u32 {
    match f {
        Facility::Sink => 0,
        Facility::Source => 1,
        Facility::SinkInput => 2,
        Facility::SourceOutput => 3,
        Facility::Module => 4,
        Facility::Client => 5,
        Facility::SampleCache => 6,
        Facility::Server => 7,
        Facility::Card => 9,
    }
}

/// The operation value of an operation as it stands in an event type.
pub open spec fn operation_code(o: Operation) -> u32 {
    match o {
        Operation::New => 0,
        Operation::Changed => 0x10,
        Operation::Removed => 0x20,
    }
}

/// The facility whose value is `v`, if there is one.
pub open spec fn facility_of_code(v: u32) -> Option<Facility> {
    if v == 0 {
        Some(Facility::Sink)
    } else if v == 1 {
        Some(Facility::Source)
    } else if v == 2 {
        Some(Facility::SinkInput)
    } else if v == 3 {
        Some(Facility::SourceOutput)
    } else if v == 4 {
        Some(Facility::Module)
    } else if v == 5 {
        Some(Facility::Client)
    } else if v == 6 {
        Some(Facility::SampleCache)
    } else if v == 7 {
        Some(Facility::Server)
    } else if v == 9 {
        Some(Facility::Card)
    } else {
        None
    }
}

/// The operation whose value is `v`, if there is one.
pub open spec fn operation_of_code(v: u32) -> Option<Operation> {
    if v == 0 {
        Some(Operation::New)
    } else if v == 0x10 {
        Some(Operation::Changed)
    } else if v == 0x20 {
        Some(Operation::Removed)
    } else {
        None
    }
}

impl Facility {
    /// Extracts the facility from an event type (its bits under [`FACILITY_MASK`]); `None` for
    /// a value that names no facility.
    pub fn from_event(value: EventType) -> (r: Option<Facility>)
        ensures
            r == facility_of_code(value & 0xf),
    {
        match value & FACILITY_MASK {
            0 => Some(Facility::Sink),
            1 => Some(Facility::Source),
            2 => Some(Facility::SinkInput),
            3 => Some(Facility::SourceOutput),
            4 => Some(Facility::Module),
            5 => Some(Facility::Client),
            6 => Some(Facility::SampleCache),
            7 => Some(Facility::Server),
            9 => Some(Facility::Card),
            _ => None,
        }
    }

    /// Converts to an interest mask: the set holding this facility alone, whose bit is the
    /// facility value's power of two.
    pub fn to_interest_mask(self) -> (r: InterestMaskSet)
        ensures
            r.spec_bits() == 1u32 << facility_code(self),
    {
        let code: u32 = match self {
            Facility::Sink => 0,
            Facility::Source => 1,
            Facility::SinkInput => 2,
            Facility::SourceOutput => 3,
            Facility::Module => 4,
            Facility::Client => 5,
            Facility::SampleCache => 6,
            Facility::Server => 7,
            Facility::Card => 9,
        };
        assert((1u32 << code) & 0x2ff == 1u32 << code) by (bit_vector)
            requires
                code <= 9,
                code != 8,
        ;
        InterestMaskSet::from_bits_truncate(1u32 << code)
    }
}

impl Operation {
    /// Extracts the operation from an event type (its bits under [`OPERATION_MASK`]); `None` for
    /// a value that names no operation.
    pub fn from_event(value: EventType) -> (r: Option<Operation>)
        ensures
            r == operation_of_code(value & 0x30),
    {
        match value & OPERATION_MASK {
            0 => Some(Operation::New),
            0x10 => Some(Operation::Changed),
            0x20 => Some(Operation::Removed),
            _ => None,
        }
    }
}

/// The facility values of event types and the interest masks are those of the C API: sink `0`,
/// source `1`, sink input `2`, source output `3`, module `4`, client `5`, sample cache `6`,
/// server `7` and card `9`, and each facility's interest mask is the C subscription mask constant
/// of that facility ([`MASK_SINK`] to [`MASK_CARD`]). Decoding the facility of an event type gives
/// the facility whose value its low four bits hold, and no other.
pub proof fn lemma_facility_values_are_c_values(v: u32, f: Facility)
    ensures
        facility_code(Facility::Sink) == 0,
        facility_code(Facility::Source) == 1,
        facility_code(Facility::SinkInput) == 2,
        facility_code(Facility::SourceOutput) == 3,
        facility_code(Facility::Module) == 4,
        facility_code(Facility::Client) == 5,
        facility_code(Facility::SampleCache) == 6,
        facility_code(Facility::Server) == 7,
        facility_code(Facility::Card) == 9,
        1u32 << facility_code(Facility::Sink) == MASK_SINK,
        1u32 << facility_code(Facility::Source) == MASK_SOURCE,
        1u32 << facility_code(Facility::SinkInput) == MASK_SINK_INPUT,
        1u32 << facility_code(Facility::SourceOutput) == MASK_SOURCE_OUTPUT,
        1u32 << facility_code(Facility::Module) == MASK_MODULE,
        1u32 << facility_code(Facility::Client) == MASK_CLIENT,
        1u32 << facility_code(Facility::SampleCache) == MASK_SAMPLE_CACHE,
        1u32 << facility_code(Facility::Server) == MASK_SERVER,
        1u32 << facility_code(Facility::Card) == MASK_CARD,
        facility_of_code(v) == Some(f) <==> v == facility_code(f),
{
    assert(1u32 << 0u32 == 0x1u32 && 1u32 << 1u32 == 0x2u32 && 1u32 << 2u32 == 0x4u32
        && 1u32 << 3u32 == 0x8u32 && 1u32 << 4u32 == 0x10u32 && 1u32 << 5u32 == 0x20u32
        && 1u32 << 6u32 == 0x40u32 && 1u32 << 7u32 == 0x80u32 && 1u32 << 9u32 == 0x200u32)
        by (bit_vector);
}

/// The operation values of event types are those of the C API: new `0x00`, changed `0x10` and
/// removed `0x20`, all within [`OPERATION_MASK`] and clear of [`FACILITY_MASK`]; decoding the
/// operation of an event type gives the operation whose value its operation bits hold, and no
/// other.
pub proof fn lemma_operation_values_are_c_values(v: u32, o: Operation)
    ensures
        operation_code(Operation::New) == 0x00,
        operation_code(Operation::Changed) == 0x10,
        operation_code(Operation::Removed) == 0x20,
        operation_code(o) & OPERATION_MASK == operation_code(o),
        operation_code(o) & FACILITY_MASK == 0,
        operation_of_code(v) == Some(o) <==> v == operation_code(o),
{
    let c = operation_code(o);
    assert(c & 0x30 == c && c & 0xf == 0) by (bit_vector)
        requires
            c == 0 || c == 0x10 || c == 0x20,
    ;
}

/// An event type made of a facility and an operation gives both back when taken apart.
pub proof fn lemma_event_round_trip(f: Facility, o: Operation)
    ensures
        facility_of_code((facility_code(f) | operation_code(o)) & 0xf) == Some(f),
        operation_of_code((facility_code(f) | operation_code(o)) & 0x30) == Some(o),
{
    let fc = facility_code(f);
    let oc = operation_code(o);
    assert((fc | oc) & 0xf == fc && (fc | oc) & 0x30 == oc) by (bit_vector)
        requires
            fc <= 9,
            oc == 0 || oc == 0x10 || oc == 0x20,
    ;
}

/// The interest mask of a facility is a single known bit, and different facilities have
/// different masks.
pub proof fn lemma_interest_mask_distinct(f: Facility, g: Facility)
    ensures
        (1u32 << facility_code(f)) & 0x2ff == 1u32 << facility_code(f),
        (1u32 << facility_code(f)) != 0,
        f != g ==> (1u32 << facility_code(f)) & (1u32 << facility_code(g)) == 0,
{
    let a = facility_code(f);
    let b = facility_code(g);
    assert((1u32 << a) & 0x2ff == 1u32 << a && (1u32 << a) != 0 && (a != b ==> (1u32 << a) & (
    1u32 << b) == 0)) by (bit_vector)
        requires
            a <= 9,
            a != 8,
            b <= 9,
    ;
}

} // verus!
