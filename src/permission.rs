//! Capability masks: three independent 64-bit sets of flags.

use vstd::prelude::*;

verus! {

/// A 64-bit set of flags that keeps every bit it is given.
pub trait BitMask: Sized {
    spec fn spec_bits(&self) -> u64;

    fn bits(&self) -> (r: u64)
        ensures
            r == self.spec_bits(),
    ;

    fn from_bits_retain(bits: u64) -> (r: Self)
        ensures
            r.spec_bits() == bits,
    ;
}

/// The signed 64-bit integer that a storage column holds for a mask: the same
/// bit pattern, read as two's complement.
pub fn to_column<F: BitMask>(f: &F) -> (r: i64)
    ensures
        r == f.spec_bits() as i64,
{
    f.bits() as i64
}

/// Reads a mask back from its signed column value, bit for bit.
pub fn from_column<F: BitMask>(v: i64) -> (r: F)
    ensures
        r.spec_bits() == v as u64,
{
    F::from_bits_retain(v as u64)
}

/// Storing a mask in a signed column and reading it back gives the same bits,
/// for every one of the 2^64 patterns.
pub proof fn lemma_column_round_trip(bits: u64)
    ensures
        (bits as i64) as u64 == bits,
{
    assert((bits as i64) as u64 == bits) by (bit_vector);
}

/// Reading a signed column value as a mask and storing it again gives the same
/// integer.
pub proof fn lemma_column_round_trip_signed(v: i64)
    ensures
        (v as u64) as i64 == v,
{
    assert((v as u64) as i64 == v) by (bit_vector);
}

/// Server-level capabilities.
#[derive(Debug, Clone, Copy, PartialEq, Eq, Structural)]
pub struct ServerPermission {
    pub bits: u64,
}

/// Capabilities of a member within a room.
#[derive(Debug, Clone, Copy, PartialEq, Eq, Structural)]
pub struct MemberPermission {
    pub bits: u64,
}

/// Attributes of a room; unnamed bits are allowed and kept.
#[derive(Debug, Clone, Copy, PartialEq, Eq, Structural, Default)]
pub struct RoomAttrs {
    pub bits: u64,
}

impl ServerPermission {
    /// May create rooms.
    pub fn create_room() -> (r: ServerPermission)
        ensures
            r.bits == 1,
    {
        ServerPermission { bits: 1 }
    }

    /// Every bit set.
    pub fn all() -> (r: ServerPermission)
        ensures
            r.bits == 0xffff_ffff_ffff_ffffu64,
    {
        ServerPermission { bits: 0xffff_ffff_ffff_ffffu64 }
    }
}

impl MemberPermission {
    /// May post chat messages.
    pub fn post_chat() -> (r: MemberPermission)
        ensures
            r.bits == 1,
    {
        MemberPermission { bits: 1 }
    }

    /// May add members to the room.
    pub fn add_member() -> (r: MemberPermission)
        ensures
            r.bits == 2,
    {
        MemberPermission { bits: 2 }
    }

    /// Every bit set.
    pub fn all() -> (r: MemberPermission)
        ensures
            r.bits == 0xffff_ffff_ffff_ffffu64,
    {
        MemberPermission { bits: 0xffff_ffff_ffff_ffffu64 }
    }
}

impl RoomAttrs {
    /// Anyone may read the room.
    pub fn public_readable() -> (r: RoomAttrs)
        ensures
            r.bits == 1,
    {
        RoomAttrs { bits: 1 }
    }

    /// Every bit set.
    pub fn all() -> (r: RoomAttrs)
        ensures
            r.bits == 0xffff_ffff_ffff_ffffu64,
    {
        RoomAttrs { bits: 0xffff_ffff_ffff_ffffu64 }
    }
}

impl BitMask for ServerPermission {
    open spec fn spec_bits(&self) -> u64 {
        self.bits
    }

    fn bits(&self) -> (r: u64) {
        self.bits
    }

    fn from_bits_retain(bits: u64) -> (r: ServerPermission) {
        ServerPermission { bits }
    }
}

impl ServerPermission {
    /// The empty set.
    pub fn empty() -> (r: ServerPermission)
        ensures
            r.bits == 0,
    {
        ServerPermission { bits: 0 }
    }

    /// The bits of either set.
    pub fn union(self, other: ServerPermission) -> (r: ServerPermission)
        ensures
            r.bits == self.bits | other.bits,
    {
        ServerPermission { bits: self.bits | other.bits }
    }

    /// The bits of both sets.
    pub fn intersection(self, other: ServerPermission) -> (r: ServerPermission)
        ensures
            r.bits == self.bits & other.bits,
    {
        ServerPermission { bits: self.bits & other.bits }
    }

    /// Whether every bit of `other` is set in `self`.
    pub fn contains(self, other: ServerPermission) -> (r: bool)
        ensures
            r == (self.bits & other.bits == other.bits),
    {
        self.bits & other.bits == other.bits
    }

    /// Whether every bit of `self` is set in `other`.
    pub fn is_subset(self, other: ServerPermission) -> (r: bool)
        ensures
            r == (self.bits & other.bits == self.bits),
    {
        self.bits & other.bits == self.bits
    }

    /// Whether the two sets share a bit.
    pub fn intersects(self, other: ServerPermission) -> (r: bool)
        ensures
            r == (self.bits & other.bits != 0),
    {
        self.bits & other.bits != 0
    }
}

impl BitMask for MemberPermission {
    open spec fn spec_bits(&self) -> u64 {
        self.bits
    }

    fn bits(&self) -> (r: u64) {
        self.bits
    }

    fn from_bits_retain(bits: u64) -> (r: MemberPermission) {
        MemberPermission { bits }
    }
}

impl MemberPermission {
    /// The empty set.
    pub fn empty() -> (r: MemberPermission)
        ensures
            r.bits == 0,
    {
        MemberPermission { bits: 0 }
    }

    /// The bits of either set.
    pub fn union(self, other: MemberPermission) -> (r: MemberPermission)
        ensures
            r.bits == self.bits | other.bits,
    {
        MemberPermission { bits: self.bits | other.bits }
    }

    /// The bits of both sets.
    pub fn intersection(self, other: MemberPermission) -> (r: MemberPermission)
        ensures
            r.bits == self.bits & other.bits,
    {
        MemberPermission { bits: self.bits & other.bits }
    }

    /// Whether every bit of `other` is set in `self`.
    pub fn contains(self, other: MemberPermission) -> (r: bool)
        ensures
            r == (self.bits & other.bits == other.bits),
    {
        self.bits & other.bits == other.bits
    }

    /// Whether every bit of `self` is set in `other`.
    pub fn is_subset(self, other: MemberPermission) -> (r: bool)
        ensures
            r == (self.bits & other.bits == self.bits),
    {
        self.bits & other.bits == self.bits
    }

    /// Whether the two sets share a bit.
    pub fn intersects(self, other: MemberPermission) -> (r: bool)
        ensures
            r == (self.bits & other.bits != 0),
    {
        self.bits & other.bits != 0
    }
}

impl BitMask for RoomAttrs {
    open spec fn spec_bits(&self) -> u64 {
        self.bits
    }

    fn bits(&self) -> (r: u64) {
        self.bits
    }

    fn from_bits_retain(bits: u64) -> (r: RoomAttrs) {
        RoomAttrs { bits }
    }
}

impl RoomAttrs {
    /// The empty set.
    pub fn empty() -> (r: RoomAttrs)
        ensures
            r.bits == 0,
    {
        RoomAttrs { bits: 0 }
    }

    /// The bits of either set.
    pub fn union(self, other: RoomAttrs) -> (r: RoomAttrs)
        ensures
            r.bits == self.bits | other.bits,
    {
        RoomAttrs { bits: self.bits | other.bits }
    }

    /// The bits of both sets.
    pub fn intersection(self, other: RoomAttrs) -> (r: RoomAttrs)
        ensures
            r.bits == self.bits & other.bits,
    {
        RoomAttrs { bits: self.bits & other.bits }
    }

    /// Whether every bit of `other` is set in `self`.
    pub fn contains(self, other: RoomAttrs) -> (r: bool)
        ensures
            r == (self.bits & other.bits == other.bits),
    {
        self.bits & other.bits == other.bits
    }

    /// Whether every bit of `self` is set in `other`.
    pub fn is_subset(self, other: RoomAttrs) -> (r: bool)
        ensures
            r == (self.bits & other.bits == self.bits),
    {
        self.bits & other.bits == self.bits
    }

    /// Whether the two sets share a bit.
    pub fn intersects(self, other: RoomAttrs) -> (r: bool)
        ensures
            r == (self.bits & other.bits != 0),
    {
        self.bits & other.bits != 0
    }
}

} // verus!
