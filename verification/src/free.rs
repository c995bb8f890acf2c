//! The positions that the check leaves open: those whose type no constraint
//! binds to the controlling type.

use vstd::prelude::*;
use crate::constraints::OperandConstraint;
use crate::opcode::Opcode;
use crate::tables::operand_constraints;
use crate::tables::operand_constraints_of;

verus! {

/// A position whose type no constraint binds, with the class that it
/// belongs to.
#[derive(Clone, Copy, Debug, PartialEq, Eq, Structural, Hash)]
pub struct FreeOperand {
    /// The position, counted as `resolve` counts them.
    pub index: usize,
    /// The class of free positions that the position belongs to.
    pub class: u8,
}

/// Whether `list` names the free positions among the first `end` positions
/// of `opcode`: each of them once, in rising order, with its class, and
/// no other position.
pub open spec fn lists_free_operands_before(
    opcode: Opcode,
    list: Seq<FreeOperand>,
    end: int,
) -> bool {
    let constraints = operand_constraints_of(opcode);
    &&& forall|k: int|
        0 <= k < list.len() ==> (#[trigger] list[k]).index < end && constraints[list[k].index as int]
            == OperandConstraint::Free(list[k].class)
    &&& forall|k: int, l: int|
        0 <= k < l < list.len() ==> (#[trigger] list[k]).index < (#[trigger] list[l]).index
    &&& forall|i: int|
        0 <= i < end && (#[trigger] constraints[i]) is Free ==> exists|k: int|
            0 <= k < list.len() && (#[trigger] list[k]).index == i
}

/// Whether `list` names the free positions of `opcode`.
pub open spec fn lists_free_operands(opcode: Opcode, list: Seq<FreeOperand>) -> bool {
    lists_free_operands_before(opcode, list, operand_constraints_of(opcode).len() as int)
}

/// The positions of `opcode` that `resolve` does not check, for whoever
/// settles the types of free positions: each with its class, in rising
/// order.
pub fn free_operands(opcode: Opcode) -> (list: Vec<FreeOperand>)
    ensures
        lists_free_operands(opcode, list@),
{
    let constraints = operand_constraints(opcode);
    let mut list: Vec<FreeOperand> = Vec::new();
    let mut i: usize = 0;
    while i < constraints.len()
        invariant
            i <= constraints@.len(),
            constraints@ == operand_constraints_of(opcode),
            lists_free_operands_before(opcode, list@, i as int),
        decreases constraints@.len() - i,
    {
        let ghost before = list@;
        match constraints[i] {
            OperandConstraint::Free(class) => {
                list.push(FreeOperand { index: i, class });
                proof {
                    assert(list@[before.len() as int].index == i);
                    assert forall|j: int|
                        0 <= j < i + 1 && (#[trigger] constraints@[j]) is Free implies exists|
                        k: int,
                    |
                        0 <= k < list@.len() && (#[trigger] list@[k]).index == j by {
                        if j < i {
                            // The positions before `i` keep their places.
                            let k = choose|k: int|
                                0 <= k < before.len() && (#[trigger] before[k]).index == j;
                        }
                    }
                }
            },
            _ => {},
        }
        i = i + 1;
    }
    list
}

/// The free positions of an opcode have one list: two lists that both name
/// them are equal.
pub proof fn lemma_free_operands_unique(
    opcode: Opcode,
    first: Seq<FreeOperand>,
    second: Seq<FreeOperand>,
)
    requires
        lists_free_operands(opcode, first),
        lists_free_operands(opcode, second),
    ensures
        first == second,
{
    let end = operand_constraints_of(opcode).len() as int;
    lemma_lists_agree(opcode, first, second, end);
    lemma_lists_agree(opcode, second, first, end);
}

/// Of two lists of the free positions before `end`, the first is no longer
/// than the second and agrees with it as far as it goes.
proof fn lemma_lists_agree(
    opcode: Opcode,
    first: Seq<FreeOperand>,
    second: Seq<FreeOperand>,
    end: int,
)
    requires
        lists_free_operands_before(opcode, first, end),
        lists_free_operands_before(opcode, second, end),
    ensures
        first.len() <= second.len(),
        forall|k: int| 0 <= k < first.len() ==> first[k] == second[k],
    decreases first.len() + second.len(),
{
    if first.len() > 0 {
        let last = first.last();
        let rest = first.drop_last();
        let constraints = operand_constraints_of(opcode);
        // The last entry of `first` is a free position, so `second` has it,
        // and what stands before it in either list names the free positions
        // before it.
        let m = choose|m: int| 0 <= m < second.len() && (#[trigger] second[m]).index == last.index;
        let front = second.subrange(0, m);
        assert(lists_free_operands_before(opcode, rest, last.index as int)) by {
            assert forall|i: int|
                0 <= i < last.index && (#[trigger] constraints[i]) is Free implies exists|k: int|
                0 <= k < rest.len() && (#[trigger] rest[k]).index == i by {
                let k = choose|k: int| 0 <= k < first.len() && (#[trigger] first[k]).index == i;
                assert(rest[k].index == i);
            }
        }
        assert(lists_free_operands_before(opcode, front, last.index as int)) by {
            assert forall|i: int|
                0 <= i < last.index && (#[trigger] constraints[i]) is Free implies exists|k: int|
                0 <= k < front.len() && (#[trigger] front[k]).index == i by {
                let k = choose|k: int| 0 <= k < second.len() && (#[trigger] second[k]).index == i;
                assert(front[k].index == i);
            }
        }
        lemma_lists_agree(opcode, rest, front, last.index as int);
        lemma_lists_agree(opcode, front, rest, last.index as int);
    }
}

} // verus!
