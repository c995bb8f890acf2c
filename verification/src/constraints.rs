//! How the type of one operand follows from the controlling type, and the
//! record that every opcode carries about its operands.

use vstd::prelude::*;
use crate::types::ValueType;

verus! {

/// The rule for the type of one result or operand of an instruction.
#[derive(Clone, Copy, Debug, PartialEq, Eq, Structural, Hash)]
pub enum OperandConstraint {
    /// The type is this one, whatever the controlling type.
    Concrete(ValueType),
    /// Nothing here binds the type to the controlling type. The number
    /// names the class of free positions that the type belongs to; what the
    /// members of a class owe each other is settled elsewhere.
    Free(u8),
    /// The controlling type itself.
    Same,
    /// The element type of the controlling vector type.
    LaneOf,
    /// The truth-value type of the controlling type.
    AsBool,
    /// As many integer lanes of half the width.
    HalfWidth,
    /// As many integer lanes of twice the width.
    DoubleWidth,
    /// Twice as many lanes of half the width.
    SplitLanes,
    /// Half as many lanes of twice the width.
    MergeLanes,
    /// The fixed vector that the controlling dynamic vector is a multiple of.
    DynamicToVector,
}

impl OperandConstraint {
    /// The one type that the constraint allows under the controlling type
    /// `ctrl`. There is none for a free position, none where the rule needs
    /// a controlling type and `ctrl` is `None`, and none where the
    /// controlling type has no type of the kind asked for.
    pub open spec fn spec_expected_type(self, ctrl: Option<ValueType>) -> Option<ValueType> {
        match self {
            OperandConstraint::Concrete(t) => Some(t),
            OperandConstraint::Free(_) => None,
            _ => match ctrl {
                None => None,
                Some(c) => match self {
                    OperandConstraint::Same => Some(c),
                    OperandConstraint::LaneOf => c.lane_of(),
                    OperandConstraint::AsBool => c.as_bool(),
                    OperandConstraint::HalfWidth => c.half_width(),
                    OperandConstraint::DoubleWidth => c.double_width(),
                    OperandConstraint::SplitLanes => c.split_lanes(),
                    OperandConstraint::MergeLanes => c.merge_lanes(),
                    OperandConstraint::DynamicToVector => c.dynamic_to_vector(),
                    _ => None,
                },
            },
        }
    }

    /// Whether a position with this constraint may have the type `found`
    /// under the controlling type `ctrl`: any type at a free position, else
    /// the expected type and no other.
    pub open spec fn spec_admits(self, ctrl: Option<ValueType>, found: ValueType) -> bool {
        match self {
            OperandConstraint::Free(_) => true,
            _ => self.spec_expected_type(ctrl) == Some(found),
        }
    }

    /// Whether the constraint can be checked without a controlling type.
    pub open spec fn spec_is_closed(self) -> bool {
        self is Concrete || self is Free
    }

    /// The one type that the constraint allows under `ctrl`, if there is one.
    #[verifier::when_used_as_spec(spec_expected_type)]
    pub fn expected_type(self, ctrl: Option<ValueType>) -> (t: Option<ValueType>)
        ensures
            t == self.spec_expected_type(ctrl),
    {
        match self {
            OperandConstraint::Concrete(t) => Some(t),
            OperandConstraint::Free(_) => None,
            _ => match ctrl {
                None => None,
                Some(c) => match self {
                    OperandConstraint::Same => Some(c),
                    OperandConstraint::LaneOf => c.lane_of(),
                    OperandConstraint::AsBool => c.as_bool(),
                    OperandConstraint::HalfWidth => c.half_width(),
                    OperandConstraint::DoubleWidth => c.double_width(),
                    OperandConstraint::SplitLanes => c.split_lanes(),
                    OperandConstraint::MergeLanes => c.merge_lanes(),
                    OperandConstraint::DynamicToVector => c.dynamic_to_vector(),
                    _ => None,
                },
            },
        }
    }

    /// Whether a position with this constraint may have the type `found`.
    #[verifier::when_used_as_spec(spec_admits)]
    pub fn admits(self, ctrl: Option<ValueType>, found: ValueType) -> (b: bool)
        ensures
            b == self.spec_admits(ctrl, found),
    {
        match self {
            OperandConstraint::Free(_) => true,
            _ => match self.expected_type(ctrl) {
                Some(t) => t == found,
                None => false,
            },
        }
    }

    /// Whether the constraint can be checked without a controlling type.
    #[verifier::when_used_as_spec(spec_is_closed)]
    pub fn is_closed(self) -> (b: bool)
        ensures
            b == self.spec_is_closed(),
    {
        match self {
            OperandConstraint::Concrete(_) => true,
            OperandConstraint::Free(_) => true,
            _ => false,
        }
    }
}

/// Under a controlling type that has both a half and a double width, the
/// half-width rule applied to what the double-width rule expects gives the
/// controlling type back, and so does the double-width rule applied to what
/// the half-width rule expects.
pub proof fn lemma_half_of_double_is_same(t: ValueType)
    requires
        t.half_width() is Some,
        t.double_width() is Some,
    ensures
        OperandConstraint::HalfWidth.expected_type(
            OperandConstraint::DoubleWidth.expected_type(Some(t)),
        ) == Some(t),
        OperandConstraint::DoubleWidth.expected_type(
            OperandConstraint::HalfWidth.expected_type(Some(t)),
        ) == Some(t),
{
}

/// The type-set offset of an opcode that has no controlling type.
pub const NO_TYPE_SET: u8 = 255;

/// What is known of the operands of every instruction with one opcode.
///
/// `flags` packs four fields, from the low bit up: three bits for the
/// number of fixed results, one bit that says that the controlling type is
/// the type of an operand, one bit that says that it cannot be found
/// without that operand, and three bits for the number of fixed value
/// operands.
#[derive(Clone, Copy, Debug, PartialEq, Eq, Structural, Hash)]
pub struct OpcodeConstraints {
    /// The packed counts and marks.
    pub flags: u8,
    /// Where the type set of the controlling type stands in the table of
    /// type sets; `NO_TYPE_SET` where there is no controlling type.
    pub typeset_offset: u8,
    /// Where the constraints of the results, and after them those of the
    /// fixed value operands, begin in the table of operand constraints.
    pub constraint_offset: u8,
}

impl OpcodeConstraints {
    /// The record with these fields packed.
    pub open spec fn spec_packed(
        results: u8,
        use_typevar_operand: bool,
        requires_typevar_operand: bool,
        values: u8,
        typeset_offset: u8,
        constraint_offset: u8,
    ) -> OpcodeConstraints {
        OpcodeConstraints {
            flags: (results + (if use_typevar_operand {
                8int
            } else {
                0int
            }) + (if requires_typevar_operand {
                16int
            } else {
                0int
            }) + 32 * values) as u8,
            typeset_offset,
            constraint_offset,
        }
    }

    /// Number of results that every instruction with the opcode has.
    pub open spec fn spec_num_fixed_results(self) -> u8 {
        self.flags % 8
    }

    /// Whether the controlling type is the type of one of the operands.
    pub open spec fn spec_use_typevar_operand(self) -> bool {
        (self.flags / 8) % 2 == 1
    }

    /// Whether the controlling type cannot be told from the results, so
    /// that the operand that has it is needed.
    pub open spec fn spec_requires_typevar_operand(self) -> bool {
        (self.flags / 16) % 2 == 1
    }

    /// Number of value operands that every instruction with the opcode has.
    pub open spec fn spec_num_fixed_value_arguments(self) -> u8 {
        self.flags / 32
    }

    /// Number of positions with a constraint: the fixed results and the
    /// fixed value operands.
    pub open spec fn spec_num_constraints(self) -> u8 {
        (self.spec_num_fixed_results() + self.spec_num_fixed_value_arguments()) as u8
    }

    /// Whether the opcode has a controlling type.
    pub open spec fn spec_is_polymorphic(self) -> bool {
        self.typeset_offset != NO_TYPE_SET
    }

    /// Whether the opcode has a controlling type that is no operand's: the
    /// type of its first result, or one that the instruction names.
    pub open spec fn spec_typevar_from_result(self) -> bool {
        self.spec_is_polymorphic() && !self.spec_use_typevar_operand()
    }

    /// Number of results that every instruction with the opcode has.
    #[verifier::when_used_as_spec(spec_num_fixed_results)]
    pub fn num_fixed_results(self) -> (n: u8)
        ensures
            n == self.spec_num_fixed_results(),
            n <= 7,
    {
        let flags = self.flags;
        assert(flags & 0x07 == flags % 8) by (bit_vector);
        flags & 0x07
    }

    /// Whether the controlling type is the type of one of the operands.
    #[verifier::when_used_as_spec(spec_use_typevar_operand)]
    pub fn use_typevar_operand(self) -> (b: bool)
        ensures
            b == self.spec_use_typevar_operand(),
    {
        let flags = self.flags;
        assert((flags & 0x08 != 0) <==> ((flags / 8) % 2 == 1)) by (bit_vector);
        flags & 0x08 != 0
    }

    /// Whether the operand that has the controlling type is needed to find it.
    #[verifier::when_used_as_spec(spec_requires_typevar_operand)]
    pub fn requires_typevar_operand(self) -> (b: bool)
        ensures
            b == self.spec_requires_typevar_operand(),
    {
        let flags = self.flags;
        assert((flags & 0x10 != 0) <==> ((flags / 16) % 2 == 1)) by (bit_vector);
        flags & 0x10 != 0
    }

    /// Number of value operands that every instruction with the opcode has.
    #[verifier::when_used_as_spec(spec_num_fixed_value_arguments)]
    pub fn num_fixed_value_arguments(self) -> (n: u8)
        ensures
            n == self.spec_num_fixed_value_arguments(),
            n <= 7,
    {
        let flags = self.flags;
        assert((flags >> 5) & 0x07 == flags / 32) by (bit_vector);
        (flags >> 5) & 0x07
    }

    /// Number of positions with a constraint.
    #[verifier::when_used_as_spec(spec_num_constraints)]
    pub fn num_constraints(self) -> (n: u8)
        ensures
            n == self.spec_num_constraints(),
            n == self.num_fixed_results() + self.num_fixed_value_arguments(),
    {
        self.num_fixed_results() + self.num_fixed_value_arguments()
    }

    /// Whether the opcode has a controlling type.
    #[verifier::when_used_as_spec(spec_is_polymorphic)]
    pub fn is_polymorphic(self) -> (b: bool)
        ensures
            b == self.spec_is_polymorphic(),
    {
        self.typeset_offset != NO_TYPE_SET
    }

    /// Whether the opcode has a controlling type that is no operand's.
    #[verifier::when_used_as_spec(spec_typevar_from_result)]
    pub fn typevar_from_result(self) -> (b: bool)
        ensures
            b == self.spec_typevar_from_result(),
    {
        self.is_polymorphic() && !self.use_typevar_operand()
    }
}

/// Packing is undone by the accessors: a record packed from counts of at
/// most seven gives the counts and marks back.
pub proof fn lemma_packed_fields(
    results: u8,
    use_typevar_operand: bool,
    requires_typevar_operand: bool,
    values: u8,
    typeset_offset: u8,
    constraint_offset: u8,
)
    requires
        results <= 7,
        values <= 7,
    ensures
        ({
            let c = OpcodeConstraints::spec_packed(
                results,
                use_typevar_operand,
                requires_typevar_operand,
                values,
                typeset_offset,
                constraint_offset,
            );
            &&& c.num_fixed_results() == results
            &&& c.use_typevar_operand() == use_typevar_operand
            &&& c.requires_typevar_operand() == requires_typevar_operand
            &&& c.num_fixed_value_arguments() == values
            &&& c.typeset_offset == typeset_offset
            &&& c.constraint_offset == constraint_offset
        }),
{
}

} // verus!
