use constraint_resolver::opcode::Opcode;
use constraint_resolver::opcode::OPCODE_COUNT;

fn opcodes() -> Vec<Opcode> {
    (1..=OPCODE_COUNT).map(|c| Opcode::from_code(c).unwrap()).collect()
}

#[test]
fn codes_run_from_one() {
    assert_eq!(OPCODE_COUNT, 181);
    assert_eq!(Opcode::Jump.code(), 1);
    assert_eq!(Opcode::Brif.code(), 2);
    assert_eq!(Opcode::ExtractVector.code(), 181);
    assert_eq!(Opcode::from_code(0), None);
    assert_eq!(Opcode::from_code(182), None);
    assert_eq!(Opcode::from_code(255), None);
    for c in 1..=OPCODE_COUNT {
        assert_eq!(Opcode::from_code(c).unwrap().code(), c);
    }
}

#[test]
fn terminators() {
    let found: Vec<Opcode> = opcodes().into_iter().filter(|o| o.is_terminator()).collect();
    assert_eq!(
        found,
        vec![
            Opcode::Jump,
            Opcode::Brif,
            Opcode::BrTable,
            Opcode::Trap,
            Opcode::Return,
            Opcode::ReturnCall,
            Opcode::ReturnCallIndirect,
        ]
    );
}

#[test]
fn branches_calls_and_returns() {
    let branches: Vec<Opcode> = opcodes().into_iter().filter(|o| o.is_branch()).collect();
    assert_eq!(branches, vec![Opcode::Jump, Opcode::Brif, Opcode::BrTable]);
    let calls: Vec<Opcode> = opcodes().into_iter().filter(|o| o.is_call()).collect();
    assert_eq!(
        calls,
        vec![Opcode::Call, Opcode::CallIndirect, Opcode::ReturnCall, Opcode::ReturnCallIndirect]
    );
    let returns: Vec<Opcode> = opcodes().into_iter().filter(|o| o.is_return()).collect();
    assert_eq!(returns, vec![Opcode::Return, Opcode::ReturnCall, Opcode::ReturnCallIndirect]);
}

#[test]
fn memory_classes() {
    assert_eq!(opcodes().into_iter().filter(|o| o.can_load()).count(), 19);
    assert_eq!(opcodes().into_iter().filter(|o| o.can_store()).count(), 10);
    assert!(Opcode::Load.can_load());
    assert!(!Opcode::Load.can_store());
    assert!(Opcode::Store.can_store());
    assert!(!Opcode::Store.can_load());
    assert!(Opcode::AtomicCas.can_load() && Opcode::AtomicCas.can_store());
    assert!(Opcode::Uload8x8.can_load());
    assert!(Opcode::Istore32.can_store());
    assert!(!Opcode::Iadd.can_load() && !Opcode::Iadd.can_store());
}

#[test]
fn traps_and_other_effects() {
    assert_eq!(opcodes().into_iter().filter(|o| o.can_trap()).count(), 12);
    assert_eq!(opcodes().into_iter().filter(|o| o.has_other_side_effects()).count(), 9);
    assert_eq!(
        opcodes().into_iter().filter(|o| o.is_idempotent_despite_side_effects()).count(),
        8
    );
    assert!(Opcode::Udiv.can_trap());
    assert!(Opcode::Udiv.is_idempotent_despite_side_effects());
    assert!(Opcode::Trap.can_trap());
    assert!(!Opcode::Trap.is_idempotent_despite_side_effects());
    assert!(Opcode::Fence.has_other_side_effects());
    assert!(Opcode::SelectSpectreGuard.has_other_side_effects());
    assert!(Opcode::SelectSpectreGuard.is_idempotent_despite_side_effects());
    assert!(!Opcode::Iadd.can_trap());
    assert!(!Opcode::Iadd.has_other_side_effects());
}

#[test]
fn classes_that_exclude_each_other() {
    for op in opcodes() {
        assert_eq!(
            op.is_terminator(),
            op.is_branch() || op.is_return() || op == Opcode::Trap
        );
        assert!(!(op.is_branch() && op.is_return()));
        assert!(!(op.is_branch() && op.is_call()));
        assert_eq!(
            op.is_call() && op.is_return(),
            op == Opcode::ReturnCall || op == Opcode::ReturnCallIndirect
        );
        if op.is_terminator() {
            assert!(!op.can_load() && !op.can_store() && !op.has_other_side_effects());
            assert_eq!(op.can_trap(), op == Opcode::Trap);
        }
        if op.is_idempotent_despite_side_effects() {
            assert!(op.can_trap() || op.has_other_side_effects());
            assert!(!op.can_load() && !op.can_store() && !op.is_call() && !op.is_terminator());
        }
    }
}
