use constraint_resolver::constraints::OperandConstraint;
use constraint_resolver::opcode::Opcode;
use constraint_resolver::opcode::OPCODE_COUNT;
use constraint_resolver::resolve::infer_and_resolve;
use constraint_resolver::resolve::infer_controlling_type;
use constraint_resolver::resolve::resolve;
use constraint_resolver::resolve::TypeError;
use constraint_resolver::tables::constraints_for;
use constraint_resolver::tables::controlling_position;
use constraint_resolver::tables::operand_constraints;
use constraint_resolver::types::ValueType;

fn each_opcode() -> Vec<Opcode> {
    (1..=OPCODE_COUNT).map(|c| Opcode::from_code(c).unwrap()).collect()
}

fn some_types() -> Vec<ValueType> {
    vec![
        ValueType::int8(),
        ValueType::int32(),
        ValueType::int64(),
        ValueType::int128(),
        ValueType::float32(),
        ValueType::float64(),
        ValueType::ref64(),
        ValueType::int8x16(),
        ValueType::int16x8(),
        ValueType::int32x4(),
        ValueType::int64x2(),
        ValueType::float32x4(),
        ValueType::int32x4().to_dynamic().unwrap(),
    ]
}

#[test]
fn controlling_positions() {
    assert_eq!(controlling_position(Opcode::Jump), None);
    assert_eq!(controlling_position(Opcode::Call), None);
    assert_eq!(controlling_position(Opcode::Brif), Some(0));
    assert_eq!(controlling_position(Opcode::Iadd), Some(1));
    assert_eq!(controlling_position(Opcode::Icmp), Some(1));
    assert_eq!(controlling_position(Opcode::Select), Some(2));
    assert_eq!(controlling_position(Opcode::AtomicCas), Some(3));
    assert_eq!(controlling_position(Opcode::Iconst), Some(0));
    assert_eq!(controlling_position(Opcode::Load), Some(0));
    assert_eq!(controlling_position(Opcode::Store), Some(0));
    assert_eq!(controlling_position(Opcode::Isplit), Some(2));
}

#[test]
fn controlling_position_holds_the_controlling_type() {
    for op in each_opcode() {
        let row = constraints_for(op);
        let position = controlling_position(op);
        assert_eq!(position.is_some(), row.is_polymorphic());
        if let Some(p) = position {
            let constraints = operand_constraints(op);
            let expected = if op == Opcode::Istore32 {
                OperandConstraint::Concrete(ValueType::int64())
            } else {
                OperandConstraint::Same
            };
            assert_eq!(constraints[p as usize], expected);
        }
    }
}

#[test]
fn inferred_controlling_types() {
    let i32 = ValueType::int32();
    let i64 = ValueType::int64();
    let i8 = ValueType::int8();
    assert_eq!(infer_controlling_type(Opcode::Iadd, &[i32, i64, i8]), Some(i64));
    assert_eq!(infer_controlling_type(Opcode::Select, &[i32, i8, i64, i32]), Some(i64));
    assert_eq!(infer_controlling_type(Opcode::Iconst, &[i8]), Some(i8));
    assert_eq!(infer_controlling_type(Opcode::Iconst, &[]), None);
    assert_eq!(infer_controlling_type(Opcode::Iadd, &[i32]), None);
    assert_eq!(infer_controlling_type(Opcode::Jump, &[i32]), None);
}

#[test]
fn infer_and_resolve_returns_the_controlling_type() {
    let i32 = ValueType::int32();
    let i64 = ValueType::int64();
    let i8 = ValueType::int8();
    let v = ValueType::int32x4();
    assert_eq!(infer_and_resolve(Opcode::Iadd, &[i32, i32, i32]), Ok(Some(i32)));
    assert_eq!(infer_and_resolve(Opcode::Icmp, &[v, v, v]), Ok(Some(v)));
    assert_eq!(infer_and_resolve(Opcode::Icmp, &[i8, i64, i64]), Ok(Some(i64)));
    assert_eq!(infer_and_resolve(Opcode::Iconst, &[i64]), Ok(Some(i64)));
    assert_eq!(infer_and_resolve(Opcode::Select, &[i64, i8, i64, i64]), Ok(Some(i64)));
    assert_eq!(infer_and_resolve(Opcode::Istore32, &[i64, i32]), Ok(Some(i64)));
    assert_eq!(infer_and_resolve(Opcode::Jump, &[]), Ok(None));
    assert_eq!(infer_and_resolve(Opcode::BrTable, &[i32]), Ok(None));
    assert_eq!(infer_and_resolve(Opcode::F32const, &[ValueType::float32()]), Ok(None));
}

#[test]
fn infer_and_resolve_reports_the_first_violation() {
    let i32 = ValueType::int32();
    let i64 = ValueType::int64();
    let f32 = ValueType::float32();
    assert_eq!(
        infer_and_resolve(Opcode::Iadd, &[i32, i32, i64]),
        Err(TypeError::Operand {
            opcode: Opcode::Iadd,
            index: 2,
            expected: OperandConstraint::Same,
            found: i64,
        })
    );
    assert_eq!(
        infer_and_resolve(Opcode::Iadd, &[i64, i32, i32]),
        Err(TypeError::Operand {
            opcode: Opcode::Iadd,
            index: 0,
            expected: OperandConstraint::Same,
            found: i64,
        })
    );
    assert_eq!(
        infer_and_resolve(Opcode::Iadd, &[f32, f32, f32]),
        Err(TypeError::ControllingType { opcode: Opcode::Iadd, given: Some(f32) })
    );
    assert_eq!(
        infer_and_resolve(Opcode::Iadd, &[i32]),
        Err(TypeError::ControllingType { opcode: Opcode::Iadd, given: None })
    );
    assert_eq!(
        infer_and_resolve(Opcode::Istore32, &[i32, i32]),
        Err(TypeError::ControllingType { opcode: Opcode::Istore32, given: Some(i32) })
    );
    assert_eq!(
        infer_and_resolve(Opcode::BrTable, &[i64]),
        Err(TypeError::Operand {
            opcode: Opcode::BrTable,
            index: 0,
            expected: OperandConstraint::Concrete(i32),
            found: i64,
        })
    );
}

#[test]
fn well_typed_instantiations_name_their_controlling_type() {
    let types = some_types();
    for op in each_opcode() {
        let constraints = operand_constraints(op);
        let polymorphic = constraints_for(op).is_polymorphic();
        for &ctrl in &types {
            // The types that the constraints expect under `ctrl`, with
            // `ctrl` itself at the free positions.
            let expected: Option<Vec<ValueType>> = constraints
                .iter()
                .map(|c| match c {
                    OperandConstraint::Free(_) => Some(ctrl),
                    _ => c.expected_type(if polymorphic { Some(ctrl) } else { None }),
                })
                .collect();
            let Some(instance) = expected else { continue };
            match resolve(op, Some(ctrl), &instance) {
                Ok(()) => {
                    let inferred = if polymorphic { Some(ctrl) } else { None };
                    assert_eq!(infer_controlling_type(op, &instance), inferred);
                    assert_eq!(infer_and_resolve(op, &instance), Ok(inferred));
                }
                Err(e) => assert_eq!(e, TypeError::ControllingType { opcode: op, given: Some(ctrl) }),
            }
        }
    }
}

#[test]
fn failure_of_infer_and_resolve_means_no_controlling_type_passes() {
    let types = some_types();
    for op in each_opcode() {
        for &a in &types {
            for &b in &types {
                let instance = [a, b, a, b, a];
                if infer_and_resolve(op, &instance).is_err() {
                    assert!(resolve(op, None, &instance).is_err());
                    for &ctrl in &types {
                        assert!(resolve(op, Some(ctrl), &instance).is_err());
                    }
                }
            }
        }
    }
}
