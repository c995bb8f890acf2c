//! Sets of value types, kept as one bit mask for each axis of the type
//! universe.

use vstd::prelude::*;
use crate::types::LaneKind;
use crate::types::ValueType;

verus! {

/// Whether bit `k` of `mask` is set. Bits past the fifteenth are never set.
pub open spec fn spec_has_bit(mask: u16, k: u8) -> bool {
    k < 16 && (mask >> (k as u16)) & 1 == 1
}

/// Whether bit `k` of `mask` is set.
#[verifier::when_used_as_spec(spec_has_bit)]
pub fn has_bit(mask: u16, k: u8) -> (b: bool)
    ensures
        b == spec_has_bit(mask, k),
{
    k < 16 && (mask >> (k as u16)) & 1 == 1
}

/// Mask of the lane counts of the universe: 1 to 256.
pub const ALL_LANES: u16 = 0x01ff;

/// Mask of the least lane counts of dynamic vectors: 2 to 256.
pub const ALL_DYNAMIC_LANES: u16 = 0x01fe;

/// Mask of the integer widths: 8 to 128 bits.
pub const ALL_INTS: u8 = 0xf8;

/// Mask of the float widths: 32 and 64 bits.
pub const ALL_FLOATS: u8 = 0x60;

/// Mask of the reference widths: 32 and 64 bits.
pub const ALL_REFS: u8 = 0x60;

/// A set of value types: the types whose lane count is in the set's lane
/// counts and whose lane is in the set's lane types.
///
/// In each mask, bit `k` stands for the number `2^k`.
#[derive(Clone, Copy, Debug, PartialEq, Eq, Structural, Hash)]
pub struct TypeSet {
    /// Lane counts of scalars and fixed vectors.
    pub lanes: u16,
    /// Least lane counts of dynamic vectors.
    pub dynamic_lanes: u16,
    /// Widths of integer lanes.
    pub ints: u8,
    /// Widths of float lanes.
    pub floats: u8,
    /// Widths of reference lanes.
    pub refs: u8,
}

impl TypeSet {
    /// Whether lanes of `kind`, `2^log2_bits` bits wide, are in the set.
    pub open spec fn spec_has_lane(self, kind: LaneKind, log2_bits: u8) -> bool {
        match kind {
            LaneKind::Int => has_bit(self.ints as u16, log2_bits),
            LaneKind::Float => has_bit(self.floats as u16, log2_bits),
            LaneKind::Ref => has_bit(self.refs as u16, log2_bits),
        }
    }

    /// Whether `t` is in the set. One bit of one lane mask decides for the
    /// type's lane count, and one bit of one width mask for its lane.
    pub open spec fn spec_contains(self, t: ValueType) -> bool {
        &&& has_bit(
            if t.dynamic {
                self.dynamic_lanes
            } else {
                self.lanes
            },
            t.log2_lanes,
        )
        &&& self.spec_has_lane(t.kind, t.log2_bits)
    }

    /// Whether the masks name nothing outside the type universe.
    pub open spec fn wf(self) -> bool {
        &&& self.lanes & !ALL_LANES == 0
        &&& self.dynamic_lanes & !ALL_DYNAMIC_LANES == 0
        &&& self.ints & !ALL_INTS == 0
        &&& self.floats & !ALL_FLOATS == 0
        &&& self.refs & !ALL_REFS == 0
    }

    /// The set of all types.
    pub open spec fn spec_universe() -> TypeSet {
        TypeSet {
            lanes: ALL_LANES,
            dynamic_lanes: ALL_DYNAMIC_LANES,
            ints: ALL_INTS,
            floats: ALL_FLOATS,
            refs: ALL_REFS,
        }
    }

    /// The set of all types.
    #[verifier::when_used_as_spec(spec_universe)]
    pub fn universe() -> (s: TypeSet)
        ensures
            s == Self::spec_universe(),
    {
        TypeSet {
            lanes: ALL_LANES,
            dynamic_lanes: ALL_DYNAMIC_LANES,
            ints: ALL_INTS,
            floats: ALL_FLOATS,
            refs: ALL_REFS,
        }
    }

    /// Whether lanes of `kind`, `2^log2_bits` bits wide, are in the set.
    #[verifier::when_used_as_spec(spec_has_lane)]
    pub fn has_lane(self, kind: LaneKind, log2_bits: u8) -> (b: bool)
        ensures
            b == self.spec_has_lane(kind, log2_bits),
    {
        match kind {
            LaneKind::Int => has_bit(self.ints as u16, log2_bits),
            LaneKind::Float => has_bit(self.floats as u16, log2_bits),
            LaneKind::Ref => has_bit(self.refs as u16, log2_bits),
        }
    }

    /// Whether `t` is in the set.
    #[verifier::when_used_as_spec(spec_contains)]
    pub fn contains(self, t: ValueType) -> (b: bool)
        ensures
            b == self.spec_contains(t),
    {
        let lane_mask: u16 = if t.dynamic {
            self.dynamic_lanes
        } else {
            self.lanes
        };
        has_bit(lane_mask, t.log2_lanes) && self.has_lane(t.kind, t.log2_bits)
    }
}

/// A set bit of a mask that stays inside `all` is a bit of `all`.
proof fn lemma_bit_of_submask(mask: u16, all: u16, k: u8)
    requires
        mask & !all == 0,
        has_bit(mask, k),
    ensures
        has_bit(all, k),
{
    let k16 = k as u16;
    assert((all >> k16) & 1 == 1) by (bit_vector)
        requires
            mask & !all == 0,
            k16 < 16,
            (mask >> k16) & 1 == 1,
    ;
}

/// The bits of each mask of the universe are the logarithms of the
/// universe's lane counts and lane widths.
proof fn lemma_universe_bits(k: u8)
    ensures
        has_bit(ALL_LANES, k) <==> k <= 8,
        has_bit(ALL_DYNAMIC_LANES, k) <==> 1 <= k <= 8,
        has_bit(ALL_INTS as u16, k) <==> 3 <= k <= 7,
        has_bit(ALL_FLOATS as u16, k) <==> 5 <= k <= 6,
{
    let k16 = k as u16;
    assert(k16 < 16 ==> (((0x01ffu16 >> k16) & 1 == 1) <==> k16 <= 8)) by (bit_vector);
    assert(k16 < 16 ==> (((0x01feu16 >> k16) & 1 == 1) <==> 1 <= k16 <= 8)) by (bit_vector);
    assert(k16 < 16 ==> (((0xf8u16 >> k16) & 1 == 1) <==> 3 <= k16 <= 7)) by (bit_vector);
    assert(k16 < 16 ==> (((0x60u16 >> k16) & 1 == 1) <==> 5 <= k16 <= 6)) by (bit_vector);
}

/// The axes are exhaustive: the set of all types holds exactly the types of
/// the universe.
pub proof fn lemma_universe_is_exhaustive(t: ValueType)
    ensures
        TypeSet::universe().contains(t) <==> t.wf(),
{
    lemma_universe_bits(t.log2_lanes);
    lemma_universe_bits(t.log2_bits);
}

/// A set whose masks stay inside the universe holds only types of the
/// universe.
pub proof fn lemma_members_wf(s: TypeSet, t: ValueType)
    requires
        s.wf(),
        s.contains(t),
    ensures
        t.wf(),
{
    let all = TypeSet::universe();
    assert(all.contains(t)) by {
        if t.dynamic {
            lemma_bit_of_submask(s.dynamic_lanes, ALL_DYNAMIC_LANES, t.log2_lanes);
        } else {
            lemma_bit_of_submask(s.lanes, ALL_LANES, t.log2_lanes);
        }
        let ints = s.ints;
        let floats = s.floats;
        let refs = s.refs;
        assert((ints as u16) & !0xf8u16 == 0) by (bit_vector)
            requires
                ints & !0xf8u8 == 0,
        ;
        assert((floats as u16) & !0x60u16 == 0) by (bit_vector)
            requires
                floats & !0x60u8 == 0,
        ;
        assert((refs as u16) & !0x60u16 == 0) by (bit_vector)
            requires
                refs & !0x60u8 == 0,
        ;
        match t.kind {
            LaneKind::Int => lemma_bit_of_submask(s.ints as u16, ALL_INTS as u16, t.log2_bits),
            LaneKind::Float => lemma_bit_of_submask(
                s.floats as u16,
                ALL_FLOATS as u16,
                t.log2_bits,
            ),
            LaneKind::Ref => lemma_bit_of_submask(s.refs as u16, ALL_REFS as u16, t.log2_bits),
        }
    }
    lemma_universe_is_exhaustive(t);
}

} // verus!
