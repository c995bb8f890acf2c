//! What holds of every instantiation and its check.

use vstd::prelude::*;
use crate::constraints::OperandConstraint;
use crate::opcode::Opcode;
use crate::resolve::controlling_type_fits;
use crate::resolve::effective_controlling_type;
use crate::resolve::lemma_violation_position;
use crate::resolve::position_fits;
use crate::resolve::resolves_to;
use crate::resolve::well_typed;
use crate::resolve::TypeError;
use crate::tables::constraints_of;
use crate::tables::controlling_type_set_of;
use crate::tables::lemma_concrete_types_wf;
use crate::tables::lemma_controlling_types_wf;
use crate::tables::lemma_monomorphic_rows_are_closed;
use crate::tables::lemma_rows_in_range;
use crate::tables::lemma_type_set_mark;
use crate::tables::operand_constraints_of;
use crate::types::lemma_derived_types_wf;
use crate::types::ValueType;

verus! {

/// An instantiation has one outcome: two results that both satisfy
/// `resolves_to` for it are equal.
pub proof fn lemma_resolution_is_unique(
    opcode: Opcode,
    controlling_type: Option<ValueType>,
    types: Seq<ValueType>,
    first: Result<(), TypeError>,
    second: Result<(), TypeError>,
)
    requires
        resolves_to(opcode, controlling_type, types, first),
        resolves_to(opcode, controlling_type, types, second),
    ensures
        first == second,
{
    match (first, second) {
        (Ok(u), Ok(v)) => {},
        (Err(e), Ok(_)) => {
            lemma_violation_position(opcode, controlling_type, types, e);
        },
        (Ok(_), Err(e)) => {
            lemma_violation_position(opcode, controlling_type, types, e);
        },
        (Err(a), Err(b)) => {
            // Of two wrong positions the later one would have the earlier
            // one before it, where every position fits.
            lemma_violation_position(opcode, controlling_type, types, a);
            lemma_violation_position(opcode, controlling_type, types, b);
        },
    }
}

/// An opcode with a controlling type fails on every controlling type that
/// is none of its type set, and on none at all, whatever the operands: the
/// result is the error that names the controlling type.
pub proof fn lemma_foreign_controlling_type_fails(
    opcode: Opcode,
    controlling_type: Option<ValueType>,
    types: Seq<ValueType>,
    result: Result<(), TypeError>,
)
    requires
        resolves_to(opcode, controlling_type, types, result),
        constraints_of(opcode).is_polymorphic(),
        !(controlling_type matches Some(c) && controlling_type_set_of(opcode)->0.contains(c)),
    ensures
        result == Err::<(), TypeError>(
            TypeError::ControllingType { opcode, given: controlling_type },
        ),
{
    lemma_rows_in_range(opcode);
    if let Err(e) = result {
        lemma_violation_position(opcode, controlling_type, types, e);
    }
}

/// An opcode that needs the operand with its controlling type fails on
/// every controlling type that is none of its type set.
pub proof fn lemma_required_controlling_type(
    opcode: Opcode,
    controlling_type: Option<ValueType>,
    types: Seq<ValueType>,
    result: Result<(), TypeError>,
)
    requires
        resolves_to(opcode, controlling_type, types, result),
        constraints_of(opcode).requires_typevar_operand(),
        !(controlling_type matches Some(c) && controlling_type_set_of(opcode) matches Some(set)
            && set.contains(c)),
    ensures
        result is Err,
{
    lemma_type_set_mark(opcode);
    lemma_foreign_controlling_type_fails(opcode, controlling_type, types, result);
}

/// At a position that is to have the controlling type, that type passes and
/// every other type fails.
pub proof fn lemma_same_admits_the_controlling_type_only(
    opcode: Opcode,
    controlling_type: ValueType,
    types: Seq<ValueType>,
    i: int,
    result: Result<(), TypeError>,
)
    requires
        resolves_to(opcode, Some(controlling_type), types, result),
        0 <= i < operand_constraints_of(opcode).len(),
        operand_constraints_of(opcode)[i] == OperandConstraint::Same,
    ensures
        position_fits(opcode, Some(controlling_type), types, i) <==> i < types.len() && types[i]
            == controlling_type,
        result is Ok ==> i < types.len() && types[i] == controlling_type,
{
    if !constraints_of(opcode).is_polymorphic() {
        lemma_monomorphic_rows_are_closed(opcode, i);
    }
}

/// At a position that is to have the element type of a controlling vector
/// type, that element type passes and every other type fails, vectors of
/// the element among them. Under a scalar controlling type every type
/// fails.
pub proof fn lemma_lane_of_admits_the_element_only(
    opcode: Opcode,
    controlling_type: ValueType,
    types: Seq<ValueType>,
    i: int,
    result: Result<(), TypeError>,
)
    requires
        resolves_to(opcode, Some(controlling_type), types, result),
        0 <= i < operand_constraints_of(opcode).len(),
        operand_constraints_of(opcode)[i] == OperandConstraint::LaneOf,
    ensures
        position_fits(opcode, Some(controlling_type), types, i) <==> i < types.len()
            && controlling_type.is_vector() && types[i] == controlling_type.lane_type(),
        i < types.len() && types[i].is_vector() ==> result is Err,
        !controlling_type.is_vector() ==> result is Err,
{
    if !constraints_of(opcode).is_polymorphic() {
        lemma_monomorphic_rows_are_closed(opcode, i);
    }
    if result is Ok {
        assert(position_fits(opcode, Some(controlling_type), types, i));
    }
}

/// An instantiation passes where the controlling type fits and every
/// position that is not free was given the type that its constraint
/// expects.
pub proof fn lemma_expected_types_pass(
    opcode: Opcode,
    controlling_type: Option<ValueType>,
    types: Seq<ValueType>,
)
    requires
        controlling_type_fits(opcode, controlling_type),
        operand_constraints_of(opcode).len() <= types.len(),
        forall|i: int|
            #![trigger types[i]]
            0 <= i < operand_constraints_of(opcode).len() ==> operand_constraints_of(opcode)[i]
                is Free || operand_constraints_of(opcode)[i].expected_type(
                effective_controlling_type(opcode, controlling_type),
            ) == Some(types[i]),
    ensures
        resolves_to(opcode, controlling_type, types, Ok(())),
{
}

/// A well-typed instantiation has a type of the type universe at every
/// position that is not free.
pub proof fn lemma_well_typed_types_wf(
    opcode: Opcode,
    controlling_type: Option<ValueType>,
    types: Seq<ValueType>,
    i: int,
)
    requires
        well_typed(opcode, controlling_type, types),
        0 <= i < operand_constraints_of(opcode).len(),
        !(operand_constraints_of(opcode)[i] is Free),
    ensures
        types[i].wf(),
{
    assert(position_fits(opcode, controlling_type, types, i));
    lemma_rows_in_range(opcode);
    lemma_concrete_types_wf((constraints_of(opcode).constraint_offset + i) as u8);
    if constraints_of(opcode).is_polymorphic() {
        lemma_controlling_types_wf(opcode, controlling_type->0);
        lemma_derived_types_wf(controlling_type->0);
    } else {
        lemma_monomorphic_rows_are_closed(opcode, i);
    }
}

} // verus!
