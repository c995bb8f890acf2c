use constraint_resolver::constraints::OperandConstraint;
use constraint_resolver::constraints::NO_TYPE_SET;
use constraint_resolver::format::InstructionFormat;
use constraint_resolver::format::Shape;
use constraint_resolver::opcode::Opcode;
use constraint_resolver::opcode::OPCODE_COUNT;
use constraint_resolver::tables::constraints_for;
use constraint_resolver::tables::controlling_type_set;
use constraint_resolver::tables::operand_constraint;
use constraint_resolver::tables::operand_constraints;
use constraint_resolver::tables::type_set;
use constraint_resolver::tables::OPERAND_CONSTRAINT_COUNT;
use constraint_resolver::tables::TYPE_SET_COUNT;
use constraint_resolver::types::ValueType;
use constraint_resolver::typeset::TypeSet;

fn every_opcode() -> Vec<Opcode> {
    (1..=OPCODE_COUNT).map(|c| Opcode::from_code(c).unwrap()).collect()
}

#[test]
fn iadd_record() {
    let row = constraints_for(Opcode::Iadd);
    assert_eq!(row.flags, 0x49);
    assert_eq!(row.typeset_offset, 13);
    assert_eq!(row.constraint_offset, 0);
    assert_eq!(row.num_fixed_results(), 1);
    assert!(row.use_typevar_operand());
    assert!(!row.requires_typevar_operand());
    assert_eq!(row.num_fixed_value_arguments(), 2);
    assert_eq!(row.num_constraints(), 3);
    assert!(row.is_polymorphic());
    assert!(!row.typevar_from_result());
}

#[test]
fn icmp_record() {
    let row = constraints_for(Opcode::Icmp);
    assert_eq!(row.flags, 0x59);
    assert!(row.requires_typevar_operand());
    assert_eq!(
        operand_constraints(Opcode::Icmp),
        vec![OperandConstraint::AsBool, OperandConstraint::Same, OperandConstraint::Same]
    );
}

#[test]
fn jump_record_has_no_type_set() {
    let row = constraints_for(Opcode::Jump);
    assert_eq!(row.flags, 0);
    assert_eq!(row.typeset_offset, NO_TYPE_SET);
    assert!(!row.is_polymorphic());
    assert_eq!(controlling_type_set(Opcode::Jump), None);
    assert_eq!(operand_constraints(Opcode::Jump), vec![]);
}

#[test]
fn iconst_takes_its_controlling_type_from_the_result() {
    let row = constraints_for(Opcode::Iconst);
    assert!(row.is_polymorphic());
    assert!(!row.use_typevar_operand());
    assert!(row.typevar_from_result());
    assert_eq!(operand_constraints(Opcode::Iconst), vec![OperandConstraint::Same]);
}

#[test]
fn type_set_is_none_exactly_with_the_mark() {
    for op in every_opcode() {
        let row = constraints_for(op);
        let set = controlling_type_set(op);
        assert_eq!(set.is_none(), row.typeset_offset == NO_TYPE_SET);
        assert_eq!(set.is_none(), !row.is_polymorphic());
        if set.is_none() {
            assert!(!row.use_typevar_operand());
            assert!(!row.requires_typevar_operand());
        }
        if row.requires_typevar_operand() {
            assert!(row.use_typevar_operand());
        }
        if !row.typevar_from_result() {
            assert_eq!(set.is_none(), !row.use_typevar_operand());
        }
    }
}

#[test]
fn records_point_into_the_tables() {
    for op in every_opcode() {
        let row = constraints_for(op);
        assert!(row.typeset_offset == NO_TYPE_SET || row.typeset_offset < TYPE_SET_COUNT);
        assert!(
            row.constraint_offset as usize + row.num_constraints() as usize
                <= OPERAND_CONSTRAINT_COUNT as usize
        );
        let constraints = operand_constraints(op);
        assert_eq!(constraints.len(), row.num_constraints() as usize);
        for (k, c) in constraints.iter().enumerate() {
            assert_eq!(Some(*c), operand_constraint(row.constraint_offset + k as u8));
        }
    }
}

#[test]
fn records_count_the_values_of_their_format() {
    for op in every_opcode() {
        assert_eq!(constraints_for(op).num_fixed_value_arguments(), op.format().shape().values);
    }
}

#[test]
fn opcode_without_controlling_type_has_closed_constraints() {
    for op in every_opcode() {
        if !constraints_for(op).is_polymorphic() {
            assert!(operand_constraints(op).iter().all(|c| c.is_closed()));
        }
    }
}

#[test]
fn type_set_table_bounds() {
    assert!(type_set(0).is_some());
    assert!(type_set(TYPE_SET_COUNT - 1).is_some());
    assert_eq!(type_set(TYPE_SET_COUNT), None);
    assert_eq!(type_set(NO_TYPE_SET), None);
    assert_eq!(
        type_set(0),
        Some(TypeSet { lanes: 1, dynamic_lanes: 0, ints: 0xf8, floats: 0, refs: 0 })
    );
    assert_eq!(
        type_set(24),
        Some(TypeSet { lanes: 1, dynamic_lanes: 0x1fe, ints: 0xf8, floats: 0x60, refs: 0 })
    );
    for i in 0..TYPE_SET_COUNT {
        let set = type_set(i).unwrap();
        assert_eq!(set.lanes & !0x1ff, 0);
        assert_eq!(set.dynamic_lanes & !0x1fe, 0);
        assert_eq!(set.ints & !0xf8, 0);
        assert_eq!(set.floats & !0x60, 0);
        assert_eq!(set.refs & !0x60, 0);
    }
}

#[test]
fn operand_constraint_table_bounds() {
    assert_eq!(operand_constraint(0), Some(OperandConstraint::Same));
    assert_eq!(operand_constraint(3), Some(OperandConstraint::Concrete(ValueType::int32())));
    assert_eq!(operand_constraint(6), Some(OperandConstraint::Concrete(ValueType::int8x16())));
    assert_eq!(operand_constraint(13), Some(OperandConstraint::Free(1)));
    assert_eq!(operand_constraint(74), Some(OperandConstraint::Same));
    assert_eq!(operand_constraint(OPERAND_CONSTRAINT_COUNT), None);
    assert_eq!(operand_constraint(255), None);
    for i in 0..OPERAND_CONSTRAINT_COUNT {
        if let Some(OperandConstraint::Concrete(t)) = operand_constraint(i) {
            assert!(t.is_wf());
        }
    }
}

#[test]
fn iadd_type_set_holds_integers_of_every_lane_count() {
    let set = controlling_type_set(Opcode::Iadd).unwrap();
    assert!(set.contains(ValueType::int32()));
    assert!(set.contains(ValueType::int8x16()));
    assert!(set.contains(ValueType::int32x4().to_dynamic().unwrap()));
    assert!(!set.contains(ValueType::float32()));
    assert!(!set.contains(ValueType::ref64()));
}

#[test]
fn formats_of_some_opcodes() {
    assert_eq!(Opcode::Iadd.format(), InstructionFormat::Binary);
    assert_eq!(Opcode::Icmp.format(), InstructionFormat::IntCompare);
    assert_eq!(Opcode::Jump.format(), InstructionFormat::Jump);
    assert_eq!(Opcode::Call.format(), InstructionFormat::Call);
    assert_eq!(
        InstructionFormat::Binary.shape(),
        Shape { values: 2, value_list: false, typevar_operand: Some(0), immediates: 0, blocks: 0 }
    );
    assert_eq!(
        InstructionFormat::CallIndirect.shape(),
        Shape { values: 1, value_list: true, typevar_operand: Some(0), immediates: 1, blocks: 0 }
    );
    assert_eq!(InstructionFormat::Ternary.shape().typevar_operand, Some(1));
    assert_eq!(InstructionFormat::AtomicCas.shape().typevar_operand, Some(2));
    assert_eq!(InstructionFormat::UnaryImm.shape().typevar_operand, None);
    assert_eq!(
        InstructionFormat::Brif.shape(),
        Shape { values: 1, value_list: false, typevar_operand: Some(0), immediates: 0, blocks: 2 }
    );
}
