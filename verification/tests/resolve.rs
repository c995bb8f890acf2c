use constraint_resolver::constraints::OperandConstraint;
use constraint_resolver::free::free_operands;
use constraint_resolver::free::FreeOperand;
use constraint_resolver::opcode::Opcode;
use constraint_resolver::resolve::resolve;
use constraint_resolver::resolve::TypeError;
use constraint_resolver::tables::constraints_for;
use constraint_resolver::tables::controlling_type_set;
use constraint_resolver::tables::operand_constraints;
use constraint_resolver::types::ValueType;

fn all_opcodes() -> Vec<Opcode> {
    (1..=181u8).map(|c| Opcode::from_code(c).unwrap()).collect()
}

fn sample_types() -> Vec<ValueType> {
    let mut all = vec![
        ValueType::int8(),
        ValueType::int16(),
        ValueType::int32(),
        ValueType::int64(),
        ValueType::int128(),
        ValueType::float32(),
        ValueType::float64(),
        ValueType::ref32(),
        ValueType::ref64(),
        ValueType::int8x16(),
        ValueType::int16x8(),
        ValueType::int32x4(),
        ValueType::int64x2(),
        ValueType::float32x4(),
        ValueType::float64x2(),
    ];
    all.push(ValueType::int32x4().to_dynamic().unwrap());
    all.push(ValueType::float64x2().to_dynamic().unwrap());
    all
}

#[test]
fn iadd_on_i32_resolves() {
    let i32 = ValueType::int32();
    assert_eq!(resolve(Opcode::Iadd, Some(i32), &[i32, i32, i32]), Ok(()));
}

#[test]
fn iadd_with_one_i64_operand_fails_at_that_operand() {
    let i32 = ValueType::int32();
    let i64 = ValueType::int64();
    assert_eq!(
        resolve(Opcode::Iadd, Some(i32), &[i32, i32, i64]),
        Err(TypeError::Operand {
            opcode: Opcode::Iadd,
            index: 2,
            expected: OperandConstraint::Same,
            found: i64,
        })
    );
    assert_eq!(
        resolve(Opcode::Iadd, Some(i32), &[i32, i64, i32]),
        Err(TypeError::Operand {
            opcode: Opcode::Iadd,
            index: 1,
            expected: OperandConstraint::Same,
            found: i64,
        })
    );
}

#[test]
fn iadd_with_an_i64_result_fails_at_the_result() {
    let i32 = ValueType::int32();
    let i64 = ValueType::int64();
    let err = resolve(Opcode::Iadd, Some(i32), &[i64, i32, i32]).unwrap_err();
    assert_eq!(err.position(), Some(0));
    assert_eq!(err.opcode(), Opcode::Iadd);
}

#[test]
fn first_mismatch_is_reported() {
    let i32 = ValueType::int32();
    let i64 = ValueType::int64();
    let f32 = ValueType::float32();
    assert_eq!(
        resolve(Opcode::Iadd, Some(i32), &[i32, i64, f32]),
        Err(TypeError::Operand {
            opcode: Opcode::Iadd,
            index: 1,
            expected: OperandConstraint::Same,
            found: i64,
        })
    );
}

#[test]
fn icmp_on_i32x4_has_a_vector_truth_value() {
    let v = ValueType::int32x4();
    assert_eq!(resolve(Opcode::Icmp, Some(v), &[v, v, v]), Ok(()));
    let scalar_bool = ValueType::int8();
    assert_eq!(
        resolve(Opcode::Icmp, Some(v), &[scalar_bool, v, v]),
        Err(TypeError::Operand {
            opcode: Opcode::Icmp,
            index: 0,
            expected: OperandConstraint::AsBool,
            found: scalar_bool,
        })
    );
}

#[test]
fn icmp_on_a_scalar_has_an_i8_truth_value() {
    let i64 = ValueType::int64();
    let i8 = ValueType::int8();
    assert_eq!(resolve(Opcode::Icmp, Some(i64), &[i8, i64, i64]), Ok(()));
    assert!(resolve(Opcode::Icmp, Some(i64), &[i64, i64, i64]).is_err());
}

#[test]
fn fcmp_on_f64x2_has_an_integer_vector_truth_value() {
    let v = ValueType::float64x2();
    assert_eq!(resolve(Opcode::Fcmp, Some(v), &[ValueType::int64x2(), v, v]), Ok(()));
    assert!(resolve(Opcode::Fcmp, Some(v), &[v, v, v]).is_err());
}

#[test]
fn controlling_type_outside_the_type_set_fails() {
    let f32 = ValueType::float32();
    assert_eq!(
        resolve(Opcode::Iadd, Some(f32), &[f32, f32, f32]),
        Err(TypeError::ControllingType { opcode: Opcode::Iadd, given: Some(f32) })
    );
    let i32 = ValueType::int32();
    assert_eq!(
        resolve(Opcode::Iadd, None, &[i32, i32, i32]),
        Err(TypeError::ControllingType { opcode: Opcode::Iadd, given: None })
    );
}

#[test]
fn every_opcode_that_needs_its_typevar_operand_rejects_foreign_controlling_types() {
    let samples = sample_types();
    let mut seen = 0;
    for op in all_opcodes() {
        let row = constraints_for(op);
        if !row.requires_typevar_operand() {
            continue;
        }
        seen += 1;
        let set = controlling_type_set(op).expect("an opcode that needs its operand has a type set");
        assert_eq!(
            resolve(op, None, &samples),
            Err(TypeError::ControllingType { opcode: op, given: None })
        );
        for &t in &samples {
            if !set.contains(t) {
                let types = vec![t; 8];
                assert_eq!(
                    resolve(op, Some(t), &types),
                    Err(TypeError::ControllingType { opcode: op, given: Some(t) })
                );
            }
        }
    }
    assert!(seen > 0);
}

#[test]
fn same_admits_the_controlling_type_only() {
    let samples = sample_types();
    for op in all_opcodes() {
        let constraints = operand_constraints(op);
        let Some(set) = controlling_type_set(op) else { continue };
        for (i, c) in constraints.iter().enumerate() {
            if *c != OperandConstraint::Same {
                continue;
            }
            for &ctrl in samples.iter().filter(|t| set.contains(**t)) {
                for &other in samples.iter().filter(|t| set.contains(**t)) {
                    assert_eq!(c.admits(Some(ctrl), other), ctrl == other);
                    if ctrl != other {
                        let mut types = vec![ctrl; constraints.len()];
                        types[i] = other;
                        let err = resolve(op, Some(ctrl), &types).unwrap_err();
                        assert!(err.position().unwrap() <= i);
                    }
                }
            }
        }
    }
}

#[test]
fn lane_of_admits_the_element_only() {
    let v = ValueType::int32x4();
    let i32 = ValueType::int32();
    assert_eq!(resolve(Opcode::Extractlane, Some(v), &[i32, v]), Ok(()));
    assert_eq!(
        resolve(Opcode::Extractlane, Some(v), &[v, v]),
        Err(TypeError::Operand {
            opcode: Opcode::Extractlane,
            index: 0,
            expected: OperandConstraint::LaneOf,
            found: v,
        })
    );
    for other in sample_types() {
        if other != i32 {
            assert!(resolve(Opcode::Extractlane, Some(v), &[other, v]).is_err());
        }
    }
    assert_eq!(resolve(Opcode::Splat, Some(v), &[v, i32]), Ok(()));
    assert!(resolve(Opcode::Splat, Some(v), &[v, ValueType::int64()]).is_err());
}

#[test]
fn lane_of_a_scalar_admits_nothing() {
    let i32 = ValueType::int32();
    assert_eq!(OperandConstraint::LaneOf.expected_type(Some(i32)), None);
    assert!(!OperandConstraint::LaneOf.admits(Some(i32), i32));
}

#[test]
fn resolving_twice_gives_the_same_result() {
    let samples = sample_types();
    for op in all_opcodes() {
        for &ctrl in &samples {
            let types = vec![ctrl; 5];
            assert_eq!(resolve(op, Some(ctrl), &types), resolve(op, Some(ctrl), &types));
        }
        assert_eq!(resolve(op, None, &samples), resolve(op, None, &samples));
    }
}

#[test]
fn missing_operand_is_reported() {
    let i32 = ValueType::int32();
    assert_eq!(
        resolve(Opcode::Iadd, Some(i32), &[i32, i32]),
        Err(TypeError::MissingOperand {
            opcode: Opcode::Iadd,
            index: 2,
            expected: OperandConstraint::Same,
        })
    );
    assert_eq!(
        resolve(Opcode::Iadd, Some(i32), &[]),
        Err(TypeError::MissingOperand {
            opcode: Opcode::Iadd,
            index: 0,
            expected: OperandConstraint::Same,
        })
    );
}

#[test]
fn types_past_the_fixed_positions_are_not_checked() {
    let i64 = ValueType::int64();
    let f32 = ValueType::float32();
    assert_eq!(resolve(Opcode::CallIndirect, Some(i64), &[i64, f32, f32, i64]), Ok(()));
    assert_eq!(resolve(Opcode::Call, None, &[f32, i64]), Ok(()));
    assert_eq!(resolve(Opcode::Return, None, &[]), Ok(()));
}

#[test]
fn opcode_without_controlling_type_ignores_one() {
    let i32 = ValueType::int32();
    let f64 = ValueType::float64();
    assert_eq!(resolve(Opcode::BrTable, None, &[i32]), Ok(()));
    assert_eq!(resolve(Opcode::BrTable, Some(f64), &[i32]), Ok(()));
    assert_eq!(
        resolve(Opcode::BrTable, Some(f64), &[f64]),
        Err(TypeError::Operand {
            opcode: Opcode::BrTable,
            index: 0,
            expected: OperandConstraint::Concrete(i32),
            found: f64,
        })
    );
}

#[test]
fn concrete_constraints_do_not_follow_the_controlling_type() {
    assert_eq!(resolve(Opcode::F32const, None, &[ValueType::float32()]), Ok(()));
    assert!(resolve(Opcode::F32const, None, &[ValueType::float64()]).is_err());
    assert_eq!(resolve(Opcode::F64const, None, &[ValueType::float64()]), Ok(()));
}

#[test]
fn free_positions_take_any_type() {
    let i32 = ValueType::int32();
    for address in sample_types() {
        assert_eq!(resolve(Opcode::Load, Some(i32), &[i32, address]), Ok(()));
    }
    assert!(resolve(Opcode::Load, Some(i32), &[ValueType::int64(), i32]).is_err());
}

#[test]
fn free_positions_are_listed_with_their_class() {
    assert_eq!(free_operands(Opcode::Load), vec![FreeOperand { index: 1, class: 1 }]);
    assert_eq!(free_operands(Opcode::Iadd), vec![]);
    assert_eq!(free_operands(Opcode::Bitcast), vec![FreeOperand { index: 1, class: 5 }]);
    for op in all_opcodes() {
        let constraints = operand_constraints(op);
        let free = free_operands(op);
        let expected: Vec<FreeOperand> = constraints
            .iter()
            .enumerate()
            .filter_map(|(i, c)| match c {
                OperandConstraint::Free(n) => Some(FreeOperand { index: i, class: *n }),
                _ => None,
            })
            .collect();
        assert_eq!(free, expected);
    }
}

#[test]
fn half_and_double_width_positions() {
    let i64 = ValueType::int64();
    let i32 = ValueType::int32();
    let i128 = ValueType::int128();
    assert_eq!(resolve(Opcode::Isplit, Some(i64), &[i32, i32, i64]), Ok(()));
    assert_eq!(
        resolve(Opcode::Isplit, Some(i64), &[i32, i64, i64]),
        Err(TypeError::Operand {
            opcode: Opcode::Isplit,
            index: 1,
            expected: OperandConstraint::HalfWidth,
            found: i64,
        })
    );
    assert_eq!(resolve(Opcode::Iconcat, Some(i64), &[i128, i64, i64]), Ok(()));
    assert!(resolve(Opcode::Iconcat, Some(i64), &[i64, i64, i64]).is_err());
}

#[test]
fn width_without_a_half_or_double_fails() {
    let i8 = ValueType::int8();
    let i128 = ValueType::int128();
    assert_eq!(OperandConstraint::HalfWidth.expected_type(Some(i8)), None);
    assert_eq!(OperandConstraint::DoubleWidth.expected_type(Some(i128)), None);
    for t in sample_types() {
        assert!(!OperandConstraint::HalfWidth.admits(Some(i8), t));
        assert!(!OperandConstraint::DoubleWidth.admits(Some(i128), t));
    }
}

#[test]
fn split_and_merge_lanes_positions() {
    let i32x4 = ValueType::int32x4();
    let i16x8 = ValueType::int16x8();
    let i64x2 = ValueType::int64x2();
    assert_eq!(resolve(Opcode::Snarrow, Some(i32x4), &[i16x8, i32x4, i32x4]), Ok(()));
    assert!(resolve(Opcode::Snarrow, Some(i32x4), &[i32x4, i32x4, i32x4]).is_err());
    assert!(resolve(Opcode::Snarrow, Some(i32x4), &[ValueType::int16(), i32x4, i32x4]).is_err());
    assert_eq!(resolve(Opcode::SwidenLow, Some(i32x4), &[i64x2, i32x4]), Ok(()));
    assert_eq!(
        resolve(Opcode::SwidenLow, Some(i32x4), &[i32x4, i32x4]),
        Err(TypeError::Operand {
            opcode: Opcode::SwidenLow,
            index: 0,
            expected: OperandConstraint::MergeLanes,
            found: i32x4,
        })
    );
}

#[test]
fn dynamic_to_vector_position() {
    let fixed = ValueType::int32x4();
    let dynamic = fixed.to_dynamic().unwrap();
    assert_eq!(resolve(Opcode::ExtractVector, Some(dynamic), &[fixed, dynamic]), Ok(()));
    assert!(resolve(Opcode::ExtractVector, Some(dynamic), &[dynamic, dynamic]).is_err());
    assert_eq!(
        resolve(Opcode::ExtractVector, Some(fixed), &[fixed, fixed]),
        Err(TypeError::ControllingType { opcode: Opcode::ExtractVector, given: Some(fixed) })
    );
    assert_eq!(OperandConstraint::DynamicToVector.expected_type(Some(fixed)), None);
}

#[test]
fn expected_types_of_each_constraint() {
    let v = ValueType::int32x4();
    let ctrl = Some(v);
    assert_eq!(OperandConstraint::Same.expected_type(ctrl), Some(v));
    assert_eq!(OperandConstraint::LaneOf.expected_type(ctrl), Some(ValueType::int32()));
    assert_eq!(OperandConstraint::AsBool.expected_type(ctrl), Some(v));
    assert_eq!(OperandConstraint::HalfWidth.expected_type(ctrl).unwrap().lane_bits(), 16);
    assert_eq!(OperandConstraint::HalfWidth.expected_type(ctrl).unwrap().lane_count(), 4);
    assert_eq!(OperandConstraint::DoubleWidth.expected_type(ctrl).unwrap().lane_bits(), 64);
    assert_eq!(OperandConstraint::SplitLanes.expected_type(ctrl), Some(ValueType::int16x8()));
    assert_eq!(OperandConstraint::MergeLanes.expected_type(ctrl), Some(ValueType::int64x2()));
    assert_eq!(OperandConstraint::DynamicToVector.expected_type(ctrl), None);
    assert_eq!(
        OperandConstraint::Concrete(ValueType::float32()).expected_type(ctrl),
        Some(ValueType::float32())
    );
    assert_eq!(OperandConstraint::Free(3).expected_type(ctrl), None);
    assert!(OperandConstraint::Free(3).admits(ctrl, ValueType::ref64()));
    assert_eq!(OperandConstraint::Same.expected_type(None), None);
    assert!(OperandConstraint::Free(0).is_closed());
    assert!(OperandConstraint::Concrete(v).is_closed());
    assert!(!OperandConstraint::Same.is_closed());
}
