//! Checking one instantiation of an opcode: the controlling type against the
//! opcode's type set, and the type of each result and fixed operand against
//! its constraint.

use vstd::prelude::*;
use crate::constraints::OperandConstraint;
use crate::opcode::Opcode;
use crate::tables::constraints_of;
use crate::tables::controlling_position;
use crate::tables::controlling_position_of;
use crate::tables::controlling_type_set;
use crate::tables::controlling_type_set_of;
use crate::tables::lemma_controlling_position;
use crate::tables::lemma_rows_in_range;
use crate::tables::operand_constraints;
use crate::tables::operand_constraints_of;
use crate::types::ValueType;

verus! {

/// Why an instantiation is ill-typed.
#[derive(Clone, Copy, Debug, PartialEq, Eq)]
pub enum TypeError {
    /// The opcode has a controlling type, and `given` is none or none of
    /// the opcode's type set.
    ControllingType { opcode: Opcode, given: Option<ValueType> },
    /// The position `index` has the type `found`, which `expected` does not
    /// admit.
    Operand { opcode: Opcode, index: usize, expected: OperandConstraint, found: ValueType },
    /// The position `index` has the constraint `expected` and was given no
    /// type.
    MissingOperand { opcode: Opcode, index: usize, expected: OperandConstraint },
}

/// The controlling type that the constraints of `opcode` are read under:
/// the given one where the opcode has a controlling type, none where it
/// has not.
pub open spec fn effective_controlling_type(
    opcode: Opcode,
    controlling_type: Option<ValueType>,
) -> Option<ValueType> {
    if constraints_of(opcode).is_polymorphic() {
        controlling_type
    } else {
        None
    }
}

/// Whether `controlling_type` is one that `opcode` can have: a member of its
/// type set, or anything at all where the opcode has no controlling type.
pub open spec fn controlling_type_fits(opcode: Opcode, controlling_type: Option<ValueType>) -> bool {
    match controlling_type_set_of(opcode) {
        Some(set) => controlling_type matches Some(c) && set.contains(c),
        None => true,
    }
}

/// Whether the position `i` of `opcode` was given a type and its constraint
/// admits that type.
pub open spec fn position_fits(
    opcode: Opcode,
    controlling_type: Option<ValueType>,
    types: Seq<ValueType>,
    i: int,
) -> bool {
    &&& i < types.len()
    &&& operand_constraints_of(opcode)[i].admits(
        effective_controlling_type(opcode, controlling_type),
        types[i],
    )
}

/// Whether the positions before `end` all fit.
pub open spec fn positions_fit_before(
    opcode: Opcode,
    controlling_type: Option<ValueType>,
    types: Seq<ValueType>,
    end: int,
) -> bool {
    forall|j: int| 0 <= j < end ==> position_fits(opcode, controlling_type, types, j)
}

/// Whether the instantiation is well-typed: the controlling type fits and
/// so does every position that has a constraint. Types past those positions
/// are not looked at.
pub open spec fn well_typed(
    opcode: Opcode,
    controlling_type: Option<ValueType>,
    types: Seq<ValueType>,
) -> bool {
    &&& controlling_type_fits(opcode, controlling_type)
    &&& positions_fit_before(
        opcode,
        controlling_type,
        types,
        operand_constraints_of(opcode).len() as int,
    )
}

/// Whether `error` names the first thing that is wrong with the
/// instantiation: the controlling type where that does not fit, else the
/// first position that does not.
pub open spec fn is_first_violation(
    opcode: Opcode,
    controlling_type: Option<ValueType>,
    types: Seq<ValueType>,
    error: TypeError,
) -> bool {
    let constraints = operand_constraints_of(opcode);
    match error {
        TypeError::ControllingType { opcode: o, given } => {
            &&& o == opcode
            &&& given == controlling_type
            &&& !controlling_type_fits(opcode, controlling_type)
        },
        TypeError::Operand { opcode: o, index, expected, found } => {
            &&& o == opcode
            &&& controlling_type_fits(opcode, controlling_type)
            &&& index < constraints.len()
            &&& index < types.len()
            &&& expected == constraints[index as int]
            &&& found == types[index as int]
            &&& !position_fits(opcode, controlling_type, types, index as int)
            &&& positions_fit_before(opcode, controlling_type, types, index as int)
        },
        TypeError::MissingOperand { opcode: o, index, expected } => {
            &&& o == opcode
            &&& controlling_type_fits(opcode, controlling_type)
            &&& index < constraints.len()
            &&& index == types.len()
            &&& expected == constraints[index as int]
            &&& positions_fit_before(opcode, controlling_type, types, index as int)
        },
    }
}

/// Whether `result` is the outcome for the instantiation: `Ok` where it is
/// well-typed, else the error that names its first violation.
pub open spec fn resolves_to(
    opcode: Opcode,
    controlling_type: Option<ValueType>,
    types: Seq<ValueType>,
    result: Result<(), TypeError>,
) -> bool {
    match result {
        Ok(_) => well_typed(opcode, controlling_type, types),
        Err(error) => is_first_violation(opcode, controlling_type, types, error),
    }
}

/// Checks the instantiation of `opcode` with the controlling type
/// `controlling_type` and with `operand_types` as the types of its results
/// and, after them, of its value operands.
///
/// The controlling type is checked first, against the opcode's type set;
/// an opcode without a controlling type takes none and ignores one that is
/// given. Then each position that has a constraint is checked in order.
/// Nothing is checked at a free position, and nothing past the last
/// constraint.
pub fn resolve(
    opcode: Opcode,
    controlling_type: Option<ValueType>,
    operand_types: &[ValueType],
) -> (result: Result<(), TypeError>)
    ensures
        resolves_to(opcode, controlling_type, operand_types@, result),
{
    let ctrl = match controlling_type_set(opcode) {
        Some(set) => match controlling_type {
            Some(c) => {
                if !set.contains(c) {
                    return Err(TypeError::ControllingType { opcode, given: controlling_type });
                }
                controlling_type
            },
            None => {
                return Err(TypeError::ControllingType { opcode, given: controlling_type });
            },
        },
        None => None,
    };
    let constraints = operand_constraints(opcode);
    let mut i: usize = 0;
    while i < constraints.len()
        invariant
            i <= constraints@.len(),
            constraints@ == operand_constraints_of(opcode),
            ctrl == effective_controlling_type(opcode, controlling_type),
            controlling_type_fits(opcode, controlling_type),
            positions_fit_before(opcode, controlling_type, operand_types@, i as int),
        decreases constraints@.len() - i,
    {
        let expected = constraints[i];
        if i >= operand_types.len() {
            assert(i == operand_types@.len()) by {
                if i > 0 {
                    assert(position_fits(opcode, controlling_type, operand_types@, i - 1));
                }
            }
            return Err(TypeError::MissingOperand { opcode, index: i, expected });
        }
        let found = operand_types[i];
        if !expected.admits(ctrl, found) {
            return Err(TypeError::Operand { opcode, index: i, expected, found });
        }
        i = i + 1;
    }
    Ok(())
}

impl TypeError {
    /// The opcode of the instantiation.
    pub open spec fn spec_opcode(self) -> Opcode {
        match self {
            TypeError::ControllingType { opcode, .. } => opcode,
            TypeError::Operand { opcode, .. } => opcode,
            TypeError::MissingOperand { opcode, .. } => opcode,
        }
    }

    /// The position that is wrong; `None` where the controlling type is.
    pub open spec fn spec_position(self) -> Option<usize> {
        match self {
            TypeError::ControllingType { .. } => None,
            TypeError::Operand { index, .. } => Some(index),
            TypeError::MissingOperand { index, .. } => Some(index),
        }
    }

    /// The opcode of the instantiation.
    #[verifier::when_used_as_spec(spec_opcode)]
    pub fn opcode(self) -> (opcode: Opcode)
        ensures
            opcode == self.spec_opcode(),
    {
        match self {
            TypeError::ControllingType { opcode, .. } => opcode,
            TypeError::Operand { opcode, .. } => opcode,
            TypeError::MissingOperand { opcode, .. } => opcode,
        }
    }

    /// The position that is wrong; `None` where the controlling type is.
    #[verifier::when_used_as_spec(spec_position)]
    pub fn position(self) -> (index: Option<usize>)
        ensures
            index == self.spec_position(),
    {
        match self {
            TypeError::ControllingType { .. } => None,
            TypeError::Operand { index, .. } => Some(index),
            TypeError::MissingOperand { index, .. } => Some(index),
        }
    }
}

/// What an error that names the first violation says of the instantiation:
/// without a position, that the controlling type does not fit; with one,
/// that the position does not fit and all before it do.
pub proof fn lemma_violation_position(
    opcode: Opcode,
    controlling_type: Option<ValueType>,
    types: Seq<ValueType>,
    error: TypeError,
)
    requires
        is_first_violation(opcode, controlling_type, types, error),
    ensures
        error.spec_opcode() == opcode,
        error.spec_position() is None ==> !controlling_type_fits(opcode, controlling_type),
        error.spec_position() matches Some(i) ==> {
            &&& controlling_type_fits(opcode, controlling_type)
            &&& i < operand_constraints_of(opcode).len()
            &&& !position_fits(opcode, controlling_type, types, i as int)
            &&& positions_fit_before(opcode, controlling_type, types, i as int)
        },
{
}

/// The controlling type that the types of an instruction name: the type
/// at the opcode's controlling position. `None` where the opcode has no
/// controlling type or no type was given at that position.
pub open spec fn inferred_controlling_type(opcode: Opcode, types: Seq<ValueType>) -> Option<
    ValueType,
> {
    match controlling_position_of(opcode) {
        Some(p) => if p < types.len() {
            Some(types[p as int])
        } else {
            None
        },
        None => None,
    }
}

/// The controlling type that `operand_types` name for `opcode`.
pub fn infer_controlling_type(opcode: Opcode, operand_types: &[ValueType]) -> (t: Option<
    ValueType,
>)
    ensures
        t == inferred_controlling_type(opcode, operand_types@),
{
    match controlling_position(opcode) {
        Some(p) => if (p as usize) < operand_types.len() {
            Some(operand_types[p as usize])
        } else {
            None
        },
        None => None,
    }
}

/// The type set of `istore32` has one member, the 64-bit integer.
proof fn lemma_istore32_types(t: ValueType)
    requires
        controlling_type_set_of(Opcode::Istore32) matches Some(set) && set.contains(t),
    ensures
        t == ValueType::int64(),
{
    let lanes = t.log2_lanes as u16;
    let bits = t.log2_bits as u16;
    assert(lanes < 16 && (0x0001u16 >> lanes) & 1 == 1 ==> lanes == 0) by (bit_vector);
    assert(lanes < 16 ==> (0x0000u16 >> lanes) & 1 == 0) by (bit_vector);
    assert(bits < 16 && (0x0040u16 >> bits) & 1 == 1 ==> bits == 6) by (bit_vector);
    assert(bits < 16 ==> (0x0000u16 >> bits) & 1 == 0) by (bit_vector);
}

/// An instantiation is well-typed under no controlling type but the one
/// that its types name: where the opcode has a controlling type, a
/// well-typed instantiation has that type at the controlling position.
pub proof fn lemma_well_typed_controlling_type(
    opcode: Opcode,
    controlling_type: Option<ValueType>,
    types: Seq<ValueType>,
)
    requires
        constraints_of(opcode).is_polymorphic(),
        well_typed(opcode, controlling_type, types),
    ensures
        controlling_type is Some,
        inferred_controlling_type(opcode, types) == controlling_type,
{
    lemma_rows_in_range(opcode);
    lemma_controlling_position(opcode);
    let p = controlling_position_of(opcode)->0;
    assert(position_fits(opcode, controlling_type, types, p as int));
    if opcode == Opcode::Istore32 {
        lemma_istore32_types(controlling_type->0);
    }
}

/// Whatever controlling type an instantiation is well-typed under, it is
/// well-typed under the one that its types name, and the opcode has the
/// same controlling type under both.
pub proof fn lemma_inference_is_complete(
    opcode: Opcode,
    controlling_type: Option<ValueType>,
    types: Seq<ValueType>,
)
    requires
        well_typed(opcode, controlling_type, types),
    ensures
        well_typed(opcode, inferred_controlling_type(opcode, types), types),
        effective_controlling_type(opcode, inferred_controlling_type(opcode, types))
            == effective_controlling_type(opcode, controlling_type),
{
    let inferred = inferred_controlling_type(opcode, types);
    if constraints_of(opcode).is_polymorphic() {
        lemma_well_typed_controlling_type(opcode, controlling_type, types);
    } else {
        lemma_rows_in_range(opcode);
        assert forall|j: int| 0 <= j < operand_constraints_of(opcode).len() implies position_fits(
            opcode,
            inferred,
            types,
            j,
        ) by {
            assert(position_fits(opcode, controlling_type, types, j));
        }
    }
}

/// Whether the instantiation is well-typed under the controlling type that
/// its own types name: `Ok` with the controlling type that the opcode has
/// under them, else the error that names the first violation.
pub open spec fn resolves_inferred_to(
    opcode: Opcode,
    types: Seq<ValueType>,
    result: Result<Option<ValueType>, TypeError>,
) -> bool {
    let inferred = inferred_controlling_type(opcode, types);
    match result {
        Ok(controlling_type) => controlling_type == effective_controlling_type(opcode, inferred)
            && well_typed(opcode, inferred, types),
        Err(error) => is_first_violation(opcode, inferred, types, error),
    }
}

/// Checks the instantiation of `opcode` with `operand_types` as the types of
/// its results and value operands, under the controlling type that those
/// types name, and returns that controlling type: `None` for an opcode
/// that has none.
///
/// It fails only on types that are well-typed under no controlling type.
pub fn infer_and_resolve(opcode: Opcode, operand_types: &[ValueType]) -> (result: Result<
    Option<ValueType>,
    TypeError,
>)
    ensures
        resolves_inferred_to(opcode, operand_types@, result),
        result is Err ==> forall|c: Option<ValueType>| !well_typed(opcode, c, operand_types@),
{
    let inferred = infer_controlling_type(opcode, operand_types);
    match resolve(opcode, inferred, operand_types) {
        Ok(_) => {
            proof {
                lemma_controlling_position(opcode);
            }
            Ok(inferred)
        },
        Err(error) => {
            proof {
                lemma_violation_position(opcode, inferred, operand_types@, error);
                assert forall|c: Option<ValueType>| !well_typed(opcode, c, operand_types@) by {
                    if well_typed(opcode, c, operand_types@) {
                        lemma_inference_is_complete(opcode, c, operand_types@);
                    }
                }
            }
            Err(error)
        },
    }
}

} // verus!
