//! Concrete value types: a lane kind, a lane width and a lane count.
//!
//! Widths and lane counts are powers of two and are stored by their
//! logarithm: that is the number of the bit that stands for them in the
//! masks of a type set.

use vstd::prelude::*;
use vstd::arithmetic::power2::pow2;
use vstd::arithmetic::power2::lemma2_to64;
use vstd::arithmetic::power2::lemma_pow2_strictly_increases;
use vstd::arithmetic::power2::lemma_pow2_unfold;

verus! {

/// The kind of value that one lane holds.
#[derive(Clone, Copy, Debug, PartialEq, Eq, Structural, Hash)]
pub enum LaneKind {
    /// An integer.
    Int,
    /// A floating-point number.
    Float,
    /// A reference.
    Ref,
}

/// Largest logarithm of a lane count: a vector has at most 256 lanes.
pub const MAX_LOG2_LANES: u8 = 8;

/// Logarithm of the narrowest integer lane, 8 bits.
pub const MIN_LOG2_INT_BITS: u8 = 3;

/// Logarithm of the widest integer lane, 128 bits.
pub const MAX_LOG2_INT_BITS: u8 = 7;

/// Logarithm of the narrowest float or reference lane, 32 bits.
pub const MIN_LOG2_WIDE_BITS: u8 = 5;

/// Logarithm of the widest float or reference lane, 64 bits.
pub const MAX_LOG2_WIDE_BITS: u8 = 6;

/// A concrete value type.
///
/// A scalar is a type with one lane. A dynamic vector has a lane count that
/// is a run-time multiple of `2^log2_lanes`.
#[derive(Clone, Copy, Debug, PartialEq, Eq, Structural, Hash)]
pub struct ValueType {
    /// What each lane holds.
    pub kind: LaneKind,
    /// Logarithm of the width of a lane in bits.
    pub log2_bits: u8,
    /// Logarithm of the (least) number of lanes.
    pub log2_lanes: u8,
    /// Whether the lane count is fixed only at run time.
    pub dynamic: bool,
}

/// Whether lanes of `kind` exist with a width of `2^log2_bits` bits.
pub open spec fn supported_width(kind: LaneKind, log2_bits: u8) -> bool {
    match kind {
        LaneKind::Int => MIN_LOG2_INT_BITS <= log2_bits <= MAX_LOG2_INT_BITS,
        LaneKind::Float => MIN_LOG2_WIDE_BITS <= log2_bits <= MAX_LOG2_WIDE_BITS,
        LaneKind::Ref => MIN_LOG2_WIDE_BITS <= log2_bits <= MAX_LOG2_WIDE_BITS,
    }
}

impl ValueType {
    /// Whether this is one of the types of the type universe.
    pub open spec fn wf(self) -> bool {
        &&& supported_width(self.kind, self.log2_bits)
        &&& self.log2_lanes <= MAX_LOG2_LANES
        &&& self.dynamic ==> self.log2_lanes >= 1
    }

    /// Width of one lane in bits.
    pub open spec fn spec_lane_bits(self) -> nat {
        pow2(self.log2_bits as nat)
    }

    /// Number of lanes; for a dynamic vector the least number.
    pub open spec fn spec_lane_count(self) -> nat {
        pow2(self.log2_lanes as nat)
    }

    /// Whether the type has more than one lane or a lane count fixed at run time.
    pub open spec fn spec_is_vector(self) -> bool {
        self.log2_lanes > 0 || self.dynamic
    }

    /// The scalar type of one lane.
    pub open spec fn spec_lane_type(self) -> ValueType {
        ValueType { kind: self.kind, log2_bits: self.log2_bits, log2_lanes: 0, dynamic: false }
    }

    /// The scalar with lanes of `kind` that are `2^log2_bits` bits wide.
    pub open spec fn spec_scalar(kind: LaneKind, log2_bits: u8) -> ValueType {
        ValueType { kind, log2_bits, log2_lanes: 0, dynamic: false }
    }

    /// The element type of a vector; a scalar has none.
    pub open spec fn spec_lane_of(self) -> Option<ValueType> {
        if self.spec_is_vector() {
            Some(self.spec_lane_type())
        } else {
            None
        }
    }

    /// The type of a truth value computed lane by lane from values of this
    /// type: the 8-bit integer for a scalar, for a vector the integer vector
    /// with as many lanes of the same width. A vector of references has none.
    pub open spec fn spec_as_bool(self) -> Option<ValueType> {
        if !self.spec_is_vector() {
            Some(Self::spec_scalar(LaneKind::Int, MIN_LOG2_INT_BITS))
        } else if self.kind == LaneKind::Ref {
            None
        } else {
            Some(
                ValueType {
                    kind: LaneKind::Int,
                    log2_bits: self.log2_bits,
                    log2_lanes: self.log2_lanes,
                    dynamic: self.dynamic,
                },
            )
        }
    }

    /// The integer type with as many lanes of half the width. Only integer
    /// lanes wider than 8 bits have one.
    pub open spec fn spec_half_width(self) -> Option<ValueType> {
        if self.kind == LaneKind::Int && MIN_LOG2_INT_BITS < self.log2_bits <= MAX_LOG2_INT_BITS {
            Some(
                ValueType {
                    kind: self.kind,
                    log2_bits: (self.log2_bits - 1) as u8,
                    log2_lanes: self.log2_lanes,
                    dynamic: self.dynamic,
                },
            )
        } else {
            None
        }
    }

    /// The integer type with as many lanes of twice the width. Only integer
    /// lanes narrower than 128 bits have one.
    pub open spec fn spec_double_width(self) -> Option<ValueType> {
        if self.kind == LaneKind::Int && MIN_LOG2_INT_BITS <= self.log2_bits < MAX_LOG2_INT_BITS {
            Some(
                ValueType {
                    kind: self.kind,
                    log2_bits: (self.log2_bits + 1) as u8,
                    log2_lanes: self.log2_lanes,
                    dynamic: self.dynamic,
                },
            )
        } else {
            None
        }
    }

    /// Twice as many lanes of half the width: the same bits, cut finer.
    /// A type of 256 lanes has none.
    pub open spec fn spec_split_lanes(self) -> Option<ValueType> {
        match self.spec_half_width() {
            Some(half) => if self.log2_lanes < MAX_LOG2_LANES {
                Some(
                    ValueType {
                        kind: half.kind,
                        log2_bits: half.log2_bits,
                        log2_lanes: (self.log2_lanes + 1) as u8,
                        dynamic: self.dynamic,
                    },
                )
            } else {
                None
            },
            None => None,
        }
    }

    /// Half as many lanes of twice the width: the same bits, cut coarser.
    /// A scalar has none, nor a dynamic vector that would be left with one lane.
    pub open spec fn spec_merge_lanes(self) -> Option<ValueType> {
        match self.spec_double_width() {
            Some(double) => if self.log2_lanes > (if self.dynamic { 1u8 } else { 0u8 }) {
                Some(
                    ValueType {
                        kind: double.kind,
                        log2_bits: double.log2_bits,
                        log2_lanes: (self.log2_lanes - 1) as u8,
                        dynamic: self.dynamic,
                    },
                )
            } else {
                None
            },
            None => None,
        }
    }

    /// The fixed vector with the lanes and the least lane count of a dynamic
    /// vector. Only a dynamic vector has one.
    pub open spec fn spec_dynamic_to_vector(self) -> Option<ValueType> {
        if self.dynamic {
            Some(
                ValueType {
                    kind: self.kind,
                    log2_bits: self.log2_bits,
                    log2_lanes: self.log2_lanes,
                    dynamic: false,
                },
            )
        } else {
            None
        }
    }
    /// The scalar with lanes of `kind` that are `2^log2_bits` bits wide.
    #[verifier::when_used_as_spec(spec_scalar)]
    pub fn scalar(kind: LaneKind, log2_bits: u8) -> (t: ValueType)
        ensures
            t == Self::spec_scalar(kind, log2_bits),
    {
        ValueType { kind, log2_bits, log2_lanes: 0, dynamic: false }
    }

    /// Whether the type has more than one lane or a lane count fixed at run time.
    #[verifier::when_used_as_spec(spec_is_vector)]
    pub fn is_vector(self) -> (b: bool)
        ensures
            b == self.spec_is_vector(),
    {
        self.log2_lanes > 0 || self.dynamic
    }

    /// The scalar type of one lane.
    #[verifier::when_used_as_spec(spec_lane_type)]
    pub fn lane_type(self) -> (t: ValueType)
        ensures
            t == self.spec_lane_type(),
    {
        ValueType { kind: self.kind, log2_bits: self.log2_bits, log2_lanes: 0, dynamic: false }
    }

    /// The element type of a vector; `None` for a scalar.
    #[verifier::when_used_as_spec(spec_lane_of)]
    pub fn lane_of(self) -> (t: Option<ValueType>)
        ensures
            t == self.spec_lane_of(),
    {
        if self.is_vector() {
            Some(self.lane_type())
        } else {
            None
        }
    }

    /// The type of a lane-wise truth value; `None` for a vector of references.
    #[verifier::when_used_as_spec(spec_as_bool)]
    pub fn as_bool(self) -> (t: Option<ValueType>)
        ensures
            t == self.spec_as_bool(),
    {
        if !self.is_vector() {
            Some(Self::scalar(LaneKind::Int, MIN_LOG2_INT_BITS))
        } else {
            match self.kind {
                LaneKind::Ref => None,
                _ => Some(
                    ValueType {
                        kind: LaneKind::Int,
                        log2_bits: self.log2_bits,
                        log2_lanes: self.log2_lanes,
                        dynamic: self.dynamic,
                    },
                ),
            }
        }
    }

    /// As many integer lanes of half the width; `None` where the lanes are
    /// no integers or cannot be halved.
    #[verifier::when_used_as_spec(spec_half_width)]
    pub fn half_width(self) -> (t: Option<ValueType>)
        ensures
            t == self.spec_half_width(),
    {
        match self.kind {
            LaneKind::Int => if MIN_LOG2_INT_BITS < self.log2_bits && self.log2_bits
                <= MAX_LOG2_INT_BITS {
                Some(
                    ValueType {
                        kind: self.kind,
                        log2_bits: self.log2_bits - 1,
                        log2_lanes: self.log2_lanes,
                        dynamic: self.dynamic,
                    },
                )
            } else {
                None
            },
            _ => None,
        }
    }

    /// As many integer lanes of twice the width; `None` where the lanes are
    /// no integers or cannot be doubled.
    #[verifier::when_used_as_spec(spec_double_width)]
    pub fn double_width(self) -> (t: Option<ValueType>)
        ensures
            t == self.spec_double_width(),
    {
        match self.kind {
            LaneKind::Int => if MIN_LOG2_INT_BITS <= self.log2_bits && self.log2_bits
                < MAX_LOG2_INT_BITS {
                Some(
                    ValueType {
                        kind: self.kind,
                        log2_bits: self.log2_bits + 1,
                        log2_lanes: self.log2_lanes,
                        dynamic: self.dynamic,
                    },
                )
            } else {
                None
            },
            _ => None,
        }
    }

    /// Twice as many lanes of half the width.
    #[verifier::when_used_as_spec(spec_split_lanes)]
    pub fn split_lanes(self) -> (t: Option<ValueType>)
        ensures
            t == self.spec_split_lanes(),
    {
        match self.half_width() {
            Some(half) => if self.log2_lanes < MAX_LOG2_LANES {
                Some(
                    ValueType {
                        kind: half.kind,
                        log2_bits: half.log2_bits,
                        log2_lanes: self.log2_lanes + 1,
                        dynamic: self.dynamic,
                    },
                )
            } else {
                None
            },
            None => None,
        }
    }

    /// Half as many lanes of twice the width.
    #[verifier::when_used_as_spec(spec_merge_lanes)]
    pub fn merge_lanes(self) -> (t: Option<ValueType>)
        ensures
            t == self.spec_merge_lanes(),
    {
        let least: u8 = if self.dynamic { 1 } else { 0 };
        match self.double_width() {
            Some(double) => if self.log2_lanes > least {
                Some(
                    ValueType {
                        kind: double.kind,
                        log2_bits: double.log2_bits,
                        log2_lanes: self.log2_lanes - 1,
                        dynamic: self.dynamic,
                    },
                )
            } else {
                None
            },
            None => None,
        }
    }

    /// The fixed vector that a dynamic vector is a multiple of.
    #[verifier::when_used_as_spec(spec_dynamic_to_vector)]
    pub fn dynamic_to_vector(self) -> (t: Option<ValueType>)
        ensures
            t == self.spec_dynamic_to_vector(),
    {
        if self.dynamic {
            Some(
                ValueType {
                    kind: self.kind,
                    log2_bits: self.log2_bits,
                    log2_lanes: self.log2_lanes,
                    dynamic: false,
                },
            )
        } else {
            None
        }
    }
}

impl ValueType {
    /// The fixed vector of `2^log2_lanes` lanes of `kind`, each `2^log2_bits`
    /// bits wide.
    pub open spec fn spec_vector(kind: LaneKind, log2_bits: u8, log2_lanes: u8) -> ValueType {
        ValueType { kind, log2_bits, log2_lanes, dynamic: false }
    }

    /// The fixed vector of `2^log2_lanes` lanes of `kind`, each `2^log2_bits`
    /// bits wide.
    #[verifier::when_used_as_spec(spec_vector)]
    pub fn vector(kind: LaneKind, log2_bits: u8, log2_lanes: u8) -> (t: ValueType)
        ensures
            t == Self::spec_vector(kind, log2_bits, log2_lanes),
    {
        ValueType { kind, log2_bits, log2_lanes, dynamic: false }
    }

    /// The 8-bit integer.
    pub open spec fn spec_int8() -> ValueType {
        Self::spec_vector(LaneKind::Int, 3, 0)
    }

    /// The 8-bit integer.
    #[verifier::when_used_as_spec(spec_int8)]
    pub fn int8() -> (t: ValueType)
        ensures
            t == Self::spec_int8(),
    {
        Self::vector(LaneKind::Int, 3, 0)
    }

    /// The 16-bit integer.
    pub open spec fn spec_int16() -> ValueType {
        Self::spec_vector(LaneKind::Int, 4, 0)
    }

    /// The 16-bit integer.
    #[verifier::when_used_as_spec(spec_int16)]
    pub fn int16() -> (t: ValueType)
        ensures
            t == Self::spec_int16(),
    {
        Self::vector(LaneKind::Int, 4, 0)
    }

    /// The 32-bit integer.
    pub open spec fn spec_int32() -> ValueType {
        Self::spec_vector(LaneKind::Int, 5, 0)
    }

    /// The 32-bit integer.
    #[verifier::when_used_as_spec(spec_int32)]
    pub fn int32() -> (t: ValueType)
        ensures
            t == Self::spec_int32(),
    {
        Self::vector(LaneKind::Int, 5, 0)
    }

    /// The 64-bit integer.
    pub open spec fn spec_int64() -> ValueType {
        Self::spec_vector(LaneKind::Int, 6, 0)
    }

    /// The 64-bit integer.
    #[verifier::when_used_as_spec(spec_int64)]
    pub fn int64() -> (t: ValueType)
        ensures
            t == Self::spec_int64(),
    {
        Self::vector(LaneKind::Int, 6, 0)
    }

    /// The 128-bit integer.
    pub open spec fn spec_int128() -> ValueType {
        Self::spec_vector(LaneKind::Int, 7, 0)
    }

    /// The 128-bit integer.
    #[verifier::when_used_as_spec(spec_int128)]
    pub fn int128() -> (t: ValueType)
        ensures
            t == Self::spec_int128(),
    {
        Self::vector(LaneKind::Int, 7, 0)
    }

    /// The 32-bit float.
    pub open spec fn spec_float32() -> ValueType {
        Self::spec_vector(LaneKind::Float, 5, 0)
    }

    /// The 32-bit float.
    #[verifier::when_used_as_spec(spec_float32)]
    pub fn float32() -> (t: ValueType)
        ensures
            t == Self::spec_float32(),
    {
        Self::vector(LaneKind::Float, 5, 0)
    }

    /// The 64-bit float.
    pub open spec fn spec_float64() -> ValueType {
        Self::spec_vector(LaneKind::Float, 6, 0)
    }

    /// The 64-bit float.
    #[verifier::when_used_as_spec(spec_float64)]
    pub fn float64() -> (t: ValueType)
        ensures
            t == Self::spec_float64(),
    {
        Self::vector(LaneKind::Float, 6, 0)
    }

    /// The 32-bit reference.
    pub open spec fn spec_ref32() -> ValueType {
        Self::spec_vector(LaneKind::Ref, 5, 0)
    }

    /// The 32-bit reference.
    #[verifier::when_used_as_spec(spec_ref32)]
    pub fn ref32() -> (t: ValueType)
        ensures
            t == Self::spec_ref32(),
    {
        Self::vector(LaneKind::Ref, 5, 0)
    }

    /// The 64-bit reference.
    pub open spec fn spec_ref64() -> ValueType {
        Self::spec_vector(LaneKind::Ref, 6, 0)
    }

    /// The 64-bit reference.
    #[verifier::when_used_as_spec(spec_ref64)]
    pub fn ref64() -> (t: ValueType)
        ensures
            t == Self::spec_ref64(),
    {
        Self::vector(LaneKind::Ref, 6, 0)
    }

    /// The vector of sixteen 8-bit integers.
    pub open spec fn spec_int8x16() -> ValueType {
        Self::spec_vector(LaneKind::Int, 3, 4)
    }

    /// The vector of sixteen 8-bit integers.
    #[verifier::when_used_as_spec(spec_int8x16)]
    pub fn int8x16() -> (t: ValueType)
        ensures
            t == Self::spec_int8x16(),
    {
        Self::vector(LaneKind::Int, 3, 4)
    }

    /// The vector of eight 16-bit integers.
    pub open spec fn spec_int16x8() -> ValueType {
        Self::spec_vector(LaneKind::Int, 4, 3)
    }

    /// The vector of eight 16-bit integers.
    #[verifier::when_used_as_spec(spec_int16x8)]
    pub fn int16x8() -> (t: ValueType)
        ensures
            t == Self::spec_int16x8(),
    {
        Self::vector(LaneKind::Int, 4, 3)
    }

    /// The vector of four 32-bit integers.
    pub open spec fn spec_int32x4() -> ValueType {
        Self::spec_vector(LaneKind::Int, 5, 2)
    }

    /// The vector of four 32-bit integers.
    #[verifier::when_used_as_spec(spec_int32x4)]
    pub fn int32x4() -> (t: ValueType)
        ensures
            t == Self::spec_int32x4(),
    {
        Self::vector(LaneKind::Int, 5, 2)
    }

    /// The vector of two 64-bit integers.
    pub open spec fn spec_int64x2() -> ValueType {
        Self::spec_vector(LaneKind::Int, 6, 1)
    }

    /// The vector of two 64-bit integers.
    #[verifier::when_used_as_spec(spec_int64x2)]
    pub fn int64x2() -> (t: ValueType)
        ensures
            t == Self::spec_int64x2(),
    {
        Self::vector(LaneKind::Int, 6, 1)
    }

    /// The vector of four 32-bit floats.
    pub open spec fn spec_float32x4() -> ValueType {
        Self::spec_vector(LaneKind::Float, 5, 2)
    }

    /// The vector of four 32-bit floats.
    #[verifier::when_used_as_spec(spec_float32x4)]
    pub fn float32x4() -> (t: ValueType)
        ensures
            t == Self::spec_float32x4(),
    {
        Self::vector(LaneKind::Float, 5, 2)
    }

    /// The vector of two 64-bit floats.
    pub open spec fn spec_float64x2() -> ValueType {
        Self::spec_vector(LaneKind::Float, 6, 1)
    }

    /// The vector of two 64-bit floats.
    #[verifier::when_used_as_spec(spec_float64x2)]
    pub fn float64x2() -> (t: ValueType)
        ensures
            t == Self::spec_float64x2(),
    {
        Self::vector(LaneKind::Float, 6, 1)
    }
}

/// Two to the power `k`.
pub fn power_of_two(k: u8) -> (p: u32)
    requires
        k < 32,
    ensures
        p == pow2(k as nat),
{
    let mut p: u32 = 1;
    let mut i: u8 = 0;
    proof {
        lemma2_to64();
    }
    while i < k
        invariant
            i <= k < 32,
            p == pow2(i as nat),
        decreases k - i,
    {
        proof {
            lemma2_to64();
            lemma_pow2_unfold((i + 1) as nat);
            if i + 1 < 31 {
                lemma_pow2_strictly_increases((i + 1) as nat, 31);
            }
        }
        p = p * 2;
        i = i + 1;
    }
    p
}

/// The exponent of `n` where `n` is a power of two, `None` where it is none.
pub fn log2_exact(n: u16) -> (k: Option<u8>)
    ensures
        k matches Some(e) ==> e < 16 && pow2(e as nat) == n,
        k is None ==> forall|e: nat| pow2(e) != n,
{
    let mut p: u32 = 1;
    let mut i: u8 = 0;
    proof {
        lemma2_to64();
    }
    while i < 16
        invariant
            i <= 16,
            p == pow2(i as nat),
            p <= 0x1_0000,
            forall|e: nat| e < i ==> pow2(e) < n,
        decreases 16 - i,
    {
        if p == n as u32 {
            return Some(i);
        }
        if p > n as u32 {
            assert forall|e: nat| pow2(e) != n by {
                if e > i {
                    lemma_pow2_strictly_increases(i as nat, e);
                }
            }
            return None;
        }
        proof {
            lemma2_to64();
            lemma_pow2_unfold((i + 1) as nat);
        }
        p = p * 2;
        i = i + 1;
    }
    assert forall|e: nat| pow2(e) != n by {
        lemma2_to64();
        if e > 16 {
            lemma_pow2_strictly_increases(16, e);
        }
    }
    None
}

impl ValueType {
    /// The dynamic vector that is a run-time multiple of this fixed vector.
    /// Only a fixed vector has one.
    pub open spec fn spec_to_dynamic(self) -> Option<ValueType> {
        if self.log2_lanes > 0 && !self.dynamic {
            Some(
                ValueType {
                    kind: self.kind,
                    log2_bits: self.log2_bits,
                    log2_lanes: self.log2_lanes,
                    dynamic: true,
                },
            )
        } else {
            None
        }
    }

    /// The dynamic vector that is a run-time multiple of this fixed vector.
    #[verifier::when_used_as_spec(spec_to_dynamic)]
    pub fn to_dynamic(self) -> (t: Option<ValueType>)
        ensures
            t == self.spec_to_dynamic(),
    {
        if self.log2_lanes > 0 && !self.dynamic {
            Some(
                ValueType {
                    kind: self.kind,
                    log2_bits: self.log2_bits,
                    log2_lanes: self.log2_lanes,
                    dynamic: true,
                },
            )
        } else {
            None
        }
    }

    /// Whether this is one of the types of the type universe.
    pub fn is_wf(self) -> (b: bool)
        ensures
            b == self.wf(),
    {
        let width = match self.kind {
            LaneKind::Int => MIN_LOG2_INT_BITS <= self.log2_bits && self.log2_bits
                <= MAX_LOG2_INT_BITS,
            _ => MIN_LOG2_WIDE_BITS <= self.log2_bits && self.log2_bits <= MAX_LOG2_WIDE_BITS,
        };
        width && self.log2_lanes <= MAX_LOG2_LANES && (!self.dynamic || self.log2_lanes >= 1)
    }

    /// The scalar with a lane of `kind` that is `bits` wide, where the
    /// universe has such lanes.
    pub fn lane(kind: LaneKind, bits: u16) -> (t: Option<ValueType>)
        ensures
            t matches Some(scalar) ==> scalar.wf() && scalar == Self::scalar(kind, scalar.log2_bits)
                && scalar.spec_lane_bits() == bits,
            t is None ==> forall|k: u8| supported_width(kind, k) ==> pow2(k as nat) != bits,
    {
        match log2_exact(bits) {
            Some(k) => {
                let scalar = Self::scalar(kind, k);
                if scalar.is_wf() {
                    Some(scalar)
                } else {
                    assert forall|j: u8| supported_width(kind, j) implies pow2(j as nat)
                        != bits by {
                        if j < k {
                            lemma_pow2_strictly_increases(j as nat, k as nat);
                        } else if k < j {
                            lemma_pow2_strictly_increases(k as nat, j as nat);
                        }
                    }
                    None
                }
            },
            None => None,
        }
    }

    /// The integer that is `bits` wide, where `bits` is 8, 16, 32, 64 or 128.
    pub open spec fn spec_integer(bits: u16) -> Option<ValueType> {
        if bits == 8 {
            Some(Self::int8())
        } else if bits == 16 {
            Some(Self::int16())
        } else if bits == 32 {
            Some(Self::int32())
        } else if bits == 64 {
            Some(Self::int64())
        } else if bits == 128 {
            Some(Self::int128())
        } else {
            None
        }
    }

    /// The float that is `bits` wide, where `bits` is 32 or 64.
    pub open spec fn spec_float(bits: u16) -> Option<ValueType> {
        if bits == 32 {
            Some(Self::float32())
        } else if bits == 64 {
            Some(Self::float64())
        } else {
            None
        }
    }

    /// The reference that is `bits` wide, where `bits` is 32 or 64.
    pub open spec fn spec_reference(bits: u16) -> Option<ValueType> {
        if bits == 32 {
            Some(Self::ref32())
        } else if bits == 64 {
            Some(Self::ref64())
        } else {
            None
        }
    }

    /// The integer that is `bits` wide, where `bits` is 8, 16, 32, 64 or 128.
    #[verifier::when_used_as_spec(spec_integer)]
    pub fn integer(bits: u16) -> (t: Option<ValueType>)
        ensures
            t == Self::spec_integer(bits),
            t matches Some(scalar) ==> scalar.wf() && scalar.spec_lane_bits() == bits,
    {
        let t = Self::lane(LaneKind::Int, bits);
        proof {
            lemma2_to64();
            lemma_scalar_by_width(LaneKind::Int, bits, t);
        }
        t
    }

    /// The float that is `bits` wide, where `bits` is 32 or 64.
    #[verifier::when_used_as_spec(spec_float)]
    pub fn float(bits: u16) -> (t: Option<ValueType>)
        ensures
            t == Self::spec_float(bits),
            t matches Some(scalar) ==> scalar.wf() && scalar.spec_lane_bits() == bits,
    {
        let t = Self::lane(LaneKind::Float, bits);
        proof {
            lemma2_to64();
            lemma_scalar_by_width(LaneKind::Float, bits, t);
        }
        t
    }

    /// The reference that is `bits` wide, where `bits` is 32 or 64.
    #[verifier::when_used_as_spec(spec_reference)]
    pub fn reference(bits: u16) -> (t: Option<ValueType>)
        ensures
            t == Self::spec_reference(bits),
            t matches Some(scalar) ==> scalar.wf() && scalar.spec_lane_bits() == bits,
    {
        let t = Self::lane(LaneKind::Ref, bits);
        proof {
            lemma2_to64();
            lemma_scalar_by_width(LaneKind::Ref, bits, t);
        }
        t
    }

    /// The fixed vector with `lanes` times as many lanes. There is one
    /// where this type is no dynamic vector, `lanes` is a power of two and
    /// the vector has at most 256 lanes.
    pub fn by_lanes(self, lanes: u16) -> (t: Option<ValueType>)
        ensures
            t matches Some(v) ==> !self.dynamic && v.log2_lanes <= MAX_LOG2_LANES && v
                == Self::vector(self.kind, self.log2_bits, v.log2_lanes) && v.spec_lane_count()
                == self.spec_lane_count() * lanes,
            t is None ==> self.dynamic || forall|e: nat|
                self.log2_lanes + e <= MAX_LOG2_LANES ==> pow2(e) != lanes,
    {
        if self.dynamic {
            return None;
        }
        match log2_exact(lanes) {
            Some(e) => {
                let total: u16 = self.log2_lanes as u16 + e as u16;
                if total <= MAX_LOG2_LANES as u16 {
                    proof {
                        vstd::arithmetic::power2::lemma_pow2_adds(
                            self.log2_lanes as nat,
                            e as nat,
                        );
                    }
                    Some(Self::vector(self.kind, self.log2_bits, total as u8))
                } else {
                    assert forall|f: nat| self.log2_lanes + f <= MAX_LOG2_LANES implies pow2(f)
                        != lanes by {
                        lemma_pow2_strictly_increases(f, e as nat);
                    }
                    None
                }
            },
            None => None,
        }
    }

    /// Width of one lane in bits.
    pub fn lane_bits(self) -> (bits: u32)
        requires
            self.log2_bits < 32,
        ensures
            bits == self.spec_lane_bits(),
    {
        power_of_two(self.log2_bits)
    }

    /// Number of lanes; for a dynamic vector the least number.
    pub fn lane_count(self) -> (lanes: u32)
        requires
            self.log2_lanes < 32,
        ensures
            lanes == self.spec_lane_count(),
    {
        power_of_two(self.log2_lanes)
    }
}

/// What `ValueType::lane` promises fixes the logarithm of the width: the
/// scalar of `kind` that is `bits` wide has the one supported logarithm
/// whose power is `bits`, and there is no scalar where there is no such
/// logarithm.
proof fn lemma_scalar_by_width(kind: LaneKind, bits: u16, t: Option<ValueType>)
    requires
        t matches Some(scalar) ==> scalar.wf() && scalar == ValueType::scalar(
            kind,
            scalar.log2_bits,
        ) && scalar.spec_lane_bits() == bits,
        t is None ==> forall|k: u8| supported_width(kind, k) ==> pow2(k as nat) != bits,
    ensures
        forall|k: u8|
            supported_width(kind, k) && pow2(k as nat) == bits ==> t == Some(
                ValueType::scalar(kind, k),
            ),
        t is Some ==> supported_width(kind, t->0.log2_bits) && pow2(t->0.log2_bits as nat) == bits,
{
    assert forall|k: u8| supported_width(kind, k) && pow2(k as nat) == bits implies t == Some(
        ValueType::scalar(kind, k),
    ) by {
        let j = t->0.log2_bits;
        if j < k {
            lemma_pow2_strictly_increases(j as nat, k as nat);
        } else if k < j {
            lemma_pow2_strictly_increases(k as nat, j as nat);
        }
    }
}

/// A fixed vector made dynamic and fixed again is the vector itself.
pub proof fn lemma_dynamic_round_trip(t: ValueType)
    ensures
        t.to_dynamic() matches Some(d) ==> d.dynamic_to_vector() == Some(t),
        t.wf() ==> (t.dynamic_to_vector() matches Some(v) ==> v.to_dynamic() == Some(t)),
{
}

/// Halving the lanes of a doubled type, or doubling those of a halved one,
/// gives the type back: where a type has a double width, the half width of
/// that is the type itself, and the other way round.
pub proof fn lemma_half_double_round_trip(t: ValueType)
    ensures
        t.double_width() matches Some(d) ==> d.half_width() == Some(t),
        t.half_width() matches Some(h) ==> h.double_width() == Some(t),
{
}

/// Splitting the lanes of a merged type, or merging those of a split one,
/// gives the type back.
pub proof fn lemma_split_merge_round_trip(t: ValueType)
    requires
        t.wf(),
    ensures
        t.merge_lanes() matches Some(m) ==> m.split_lanes() == Some(t),
        t.split_lanes() matches Some(s) ==> s.merge_lanes() == Some(t),
{
}

/// What the derived types are in bits and lanes: a half width has lanes of
/// half the bits, a double width of twice the bits, both on as many lanes;
/// splitting and merging trade lane width for lane count and keep the
/// product.
pub proof fn lemma_derived_widths(t: ValueType)
    ensures
        t.half_width() matches Some(h) ==> 2 * h.spec_lane_bits() == t.spec_lane_bits()
            && h.spec_lane_count() == t.spec_lane_count(),
        t.double_width() matches Some(d) ==> d.spec_lane_bits() == 2 * t.spec_lane_bits()
            && d.spec_lane_count() == t.spec_lane_count(),
        t.split_lanes() matches Some(s) ==> 2 * s.spec_lane_bits() == t.spec_lane_bits()
            && s.spec_lane_count() == 2 * t.spec_lane_count(),
        t.merge_lanes() matches Some(m) ==> m.spec_lane_bits() == 2 * t.spec_lane_bits() && 2
            * m.spec_lane_count() == t.spec_lane_count(),
        t.lane_of() matches Some(e) ==> e.spec_lane_bits() == t.spec_lane_bits()
            && e.spec_lane_count() == 1,
        t.as_bool() matches Some(b) ==> b.kind == LaneKind::Int && b.spec_lane_count()
            == t.spec_lane_count(),
{
    lemma2_to64();
    if t.log2_bits > 0 {
        lemma_pow2_unfold(t.log2_bits as nat);
    }
    if t.log2_lanes > 0 {
        lemma_pow2_unfold(t.log2_lanes as nat);
    }
    lemma_pow2_unfold((t.log2_bits + 1) as nat);
    lemma_pow2_unfold((t.log2_lanes + 1) as nat);
}

/// The type universe is closed under the derivations: every type derived
/// from a type of the universe is one of it.
pub proof fn lemma_derived_types_wf(t: ValueType)
    requires
        t.wf(),
    ensures
        t.lane_type().wf(),
        t.lane_of() matches Some(e) ==> e.wf(),
        t.as_bool() matches Some(b) ==> b.wf(),
        t.half_width() matches Some(h) ==> h.wf(),
        t.double_width() matches Some(d) ==> d.wf(),
        t.split_lanes() matches Some(s) ==> s.wf(),
        t.merge_lanes() matches Some(m) ==> m.wf(),
        t.dynamic_to_vector() matches Some(v) ==> v.wf(),
        t.to_dynamic() matches Some(d) ==> d.wf(),
{
}

} // verus!
