//! The tables of the instruction set: one record for each opcode, the type
//! sets that the records point into, and the operand constraints that they
//! share.

use vstd::prelude::*;
use crate::constraints::NO_TYPE_SET;
use crate::constraints::OpcodeConstraints;
use crate::constraints::OperandConstraint;
use crate::opcode::Opcode;
use crate::types::ValueType;
use crate::typeset::lemma_members_wf;
use crate::typeset::TypeSet;

verus! {

/// Number of type sets in the table.
pub const TYPE_SET_COUNT: u8 = 25;

/// Number of entries in the table of operand constraints.
pub const OPERAND_CONSTRAINT_COUNT: u8 = 75;

/// The flags of each opcode, by its code less one.
const ROW_FLAGS: [u8; 181] = [
    0x00, 0x38, 0x20, 0x00, 0x00, 0x38, 0x00, 0x38, 0x38, 0x00, 0x00, 0x38,
    0x00, 0x38, 0x01, 0x21, 0x41, 0x49, 0x39, 0x49, 0x49, 0x49, 0x49, 0x49,
    0x49, 0x49, 0x49, 0x49, 0x21, 0x58, 0x21, 0x21, 0x58, 0x21, 0x21, 0x58,
    0x39, 0x39, 0x58, 0x39, 0x39, 0x39, 0x39, 0x39, 0x39, 0x01, 0x38, 0x01,
    0x01, 0x38, 0x01, 0x01, 0x01, 0x01, 0x01, 0x38, 0x01, 0x01, 0x01, 0x21,
    0x01, 0x01, 0x01, 0x01, 0x41, 0x01, 0x00, 0x69, 0x69, 0x69, 0x69, 0x39,
    0x39, 0x21, 0x59, 0x39, 0x49, 0x49, 0x29, 0x29, 0x49, 0x49, 0x49, 0x49,
    0x49, 0x49, 0x49, 0x49, 0x29, 0x29, 0x29, 0x29, 0x29, 0x29, 0x29, 0x69,
    0x4a, 0x6a, 0x49, 0x69, 0x4a, 0x6a, 0x49, 0x49, 0x49, 0x29, 0x49, 0x49,
    0x49, 0x29, 0x29, 0x29, 0x49, 0x49, 0x29, 0x29, 0x49, 0x49, 0x49, 0x29,
    0x29, 0x29, 0x29, 0x29, 0x29, 0x29, 0x29, 0x29, 0x59, 0x49, 0x49, 0x49,
    0x49, 0x29, 0x69, 0x29, 0x29, 0x49, 0x49, 0x49, 0x49, 0x49, 0x29, 0x29,
    0x29, 0x29, 0x39, 0x39, 0x21, 0x21, 0x21, 0x21, 0x59, 0x59, 0x59, 0x39,
    0x39, 0x39, 0x39, 0x49, 0x21, 0x21, 0x21, 0x21, 0x21, 0x21, 0x21, 0x21,
    0x21, 0x21, 0x21, 0x21, 0x21, 0x3a, 0x59, 0x41, 0x69, 0x21, 0x58, 0x00,
    0x39,
];

/// The type-set offset of each opcode, by its code less one.
const ROW_TYPE_SETS: [u8; 181] = [
    255, 0, 255, 255, 255, 0, 255, 0, 0, 255, 255, 1,
    255, 1, 1, 2, 255, 2, 2, 3, 3, 3, 3, 4,
    4, 4, 4, 4, 5, 5, 6, 6, 6, 7, 7, 7,
    1, 1, 8, 1, 1, 1, 1, 1, 1, 5, 5, 1,
    5, 5, 1, 5, 5, 5, 1, 1, 1, 1, 1, 1,
    9, 255, 255, 10, 255, 11, 255, 12, 12, 12, 10, 10,
    10, 13, 13, 0, 13, 13, 13, 13, 13, 13, 13, 14,
    0, 0, 0, 0, 0, 0, 0, 0, 0, 0, 0, 0,
    0, 0, 7, 0, 0, 0, 15, 15, 15, 15, 15, 15,
    15, 0, 0, 0, 13, 13, 13, 13, 13, 13, 13, 13,
    13, 13, 0, 0, 0, 0, 16, 13, 17, 17, 17, 17,
    17, 17, 17, 17, 17, 17, 17, 17, 17, 17, 17, 17,
    17, 17, 11, 11, 5, 10, 3, 0, 18, 18, 18, 19,
    19, 19, 19, 19, 3, 3, 20, 20, 255, 255, 3, 3,
    3, 3, 20, 20, 20, 22, 9, 23, 23, 23, 23, 255,
    24,
];

/// The constraint offset of each opcode, by its code less one.
const ROW_CONSTRAINTS: [u8; 181] = [
    0, 0, 3, 0, 0, 0, 0, 0, 0, 0, 0, 0,
    0, 0, 0, 4, 6, 9, 11, 0, 0, 0, 0, 0,
    0, 0, 0, 0, 12, 12, 12, 12, 12, 12, 12, 12,
    14, 14, 16, 18, 18, 20, 20, 22, 22, 0, 0, 0,
    0, 0, 0, 0, 0, 0, 0, 0, 0, 0, 0, 23,
    0, 25, 26, 0, 6, 0, 0, 27, 27, 29, 32, 36,
    36, 37, 33, 36, 0, 0, 0, 0, 0, 0, 0, 0,
    0, 0, 0, 0, 0, 0, 0, 0, 0, 0, 0, 39,
    41, 41, 0, 39, 41, 41, 0, 0, 0, 0, 0, 0,
    0, 0, 0, 0, 46, 46, 0, 0, 46, 46, 46, 0,
    0, 0, 0, 0, 0, 0, 0, 0, 33, 0, 0, 0,
    0, 0, 29, 0, 0, 0, 0, 0, 0, 0, 0, 0,
    0, 0, 36, 36, 49, 4, 51, 27, 53, 53, 53, 56,
    56, 56, 56, 0, 27, 27, 57, 57, 59, 60, 62, 62,
    57, 57, 51, 51, 51, 64, 67, 69, 69, 12, 12, 0,
    73,
];

/// The lane counts of each type set.
const SET_LANES: [u16; 25] = [
    0x0001, 0x0001, 0x01fe, 0x01ff, 0x01fe, 0x01ff, 0x0001, 0x0001,
    0x0001, 0x01ff, 0x01fe, 0x0001, 0x01ff, 0x01ff, 0x000c, 0x01ff,
    0x0001, 0x01ff, 0x000e, 0x001e, 0x01ff, 0x0001, 0x01ff, 0x0001,
    0x0001,
];

/// The least lane counts of the dynamic vectors of each type set.
const SET_DYNAMIC_LANES: [u16; 25] = [
    0x0000, 0x0000, 0x01fe, 0x0000, 0x0000, 0x01fe, 0x0000, 0x0000,
    0x0000, 0x01fe, 0x0000, 0x0000, 0x0000, 0x01fe, 0x0000, 0x0000,
    0x0000, 0x01fe, 0x000e, 0x001e, 0x0000, 0x0000, 0x0000, 0x0000,
    0x01fe,
];

/// The integer widths of each type set.
const SET_INTS: [u8; 25] = [
    0xf8, 0x60, 0xf8, 0xf8, 0xf8, 0xf8, 0x70, 0x60, 0x40, 0x78, 0xf8, 0x00,
    0xf8, 0xf8, 0x30, 0xf8, 0xf0, 0x00, 0x70, 0x38, 0x00, 0x00, 0xf0, 0x78,
    0xf8,
];

/// The float widths of each type set.
const SET_FLOATS: [u8; 25] = [
    0x00, 0x00, 0x60, 0x00, 0x00, 0x60, 0x00, 0x00, 0x00, 0x00, 0x60, 0x00,
    0x60, 0x00, 0x00, 0x60, 0x00, 0x60, 0x00, 0x00, 0x60, 0x60, 0x00, 0x00,
    0x60,
];

/// The reference widths of each type set.
const SET_REFS: [u8; 25] = [
    0x00, 0x60, 0x00, 0x00, 0x00, 0x60, 0x00, 0x00, 0x00, 0x00, 0x00, 0x60,
    0x60, 0x00, 0x00, 0x00, 0x00, 0x00, 0x00, 0x00, 0x00, 0x00, 0x00, 0x00,
    0x00,
];

/// The record of each opcode. The arguments of `spec_packed` are the number
/// of fixed results, whether the controlling type is an operand's, whether
/// that operand is needed to find it, the number of fixed value operands,
/// the type-set offset and the constraint offset.
pub open spec fn constraints_of(opcode: Opcode) -> OpcodeConstraints {
    match opcode {
        Opcode::Jump => OpcodeConstraints::spec_packed(0, false, false, 0, NO_TYPE_SET, 0),
        Opcode::Brif => OpcodeConstraints::spec_packed(0, true, true, 1, 0, 0),
        Opcode::BrTable => OpcodeConstraints::spec_packed(0, false, false, 1, NO_TYPE_SET, 3),
        Opcode::Debugtrap => OpcodeConstraints::spec_packed(0, false, false, 0, NO_TYPE_SET, 0),
        Opcode::Trap => OpcodeConstraints::spec_packed(0, false, false, 0, NO_TYPE_SET, 0),
        Opcode::Trapz => OpcodeConstraints::spec_packed(0, true, true, 1, 0, 0),
        Opcode::ResumableTrap => OpcodeConstraints::spec_packed(0, false, false, 0, NO_TYPE_SET, 0),
        Opcode::Trapnz => OpcodeConstraints::spec_packed(0, true, true, 1, 0, 0),
        Opcode::ResumableTrapnz => OpcodeConstraints::spec_packed(0, true, true, 1, 0, 0),
        Opcode::Return => OpcodeConstraints::spec_packed(0, false, false, 0, NO_TYPE_SET, 0),
        Opcode::Call => OpcodeConstraints::spec_packed(0, false, false, 0, NO_TYPE_SET, 0),
        Opcode::CallIndirect => OpcodeConstraints::spec_packed(0, true, true, 1, 1, 0),
        Opcode::ReturnCall => OpcodeConstraints::spec_packed(0, false, false, 0, NO_TYPE_SET, 0),
        Opcode::ReturnCallIndirect => OpcodeConstraints::spec_packed(0, true, true, 1, 1, 0),
        Opcode::FuncAddr => OpcodeConstraints::spec_packed(1, false, false, 0, 1, 0),
        Opcode::Splat => OpcodeConstraints::spec_packed(1, false, false, 1, 2, 4),
        Opcode::Swizzle => OpcodeConstraints::spec_packed(1, false, false, 2, NO_TYPE_SET, 6),
        Opcode::Insertlane => OpcodeConstraints::spec_packed(1, true, false, 2, 2, 9),
        Opcode::Extractlane => OpcodeConstraints::spec_packed(1, true, true, 1, 2, 11),
        Opcode::Smin => OpcodeConstraints::spec_packed(1, true, false, 2, 3, 0),
        Opcode::Umin => OpcodeConstraints::spec_packed(1, true, false, 2, 3, 0),
        Opcode::Smax => OpcodeConstraints::spec_packed(1, true, false, 2, 3, 0),
        Opcode::Umax => OpcodeConstraints::spec_packed(1, true, false, 2, 3, 0),
        Opcode::AvgRound => OpcodeConstraints::spec_packed(1, true, false, 2, 4, 0),
        Opcode::UaddSat => OpcodeConstraints::spec_packed(1, true, false, 2, 4, 0),
        Opcode::SaddSat => OpcodeConstraints::spec_packed(1, true, false, 2, 4, 0),
        Opcode::UsubSat => OpcodeConstraints::spec_packed(1, true, false, 2, 4, 0),
        Opcode::SsubSat => OpcodeConstraints::spec_packed(1, true, false, 2, 4, 0),
        Opcode::Load => OpcodeConstraints::spec_packed(1, false, false, 1, 5, 12),
        Opcode::Store => OpcodeConstraints::spec_packed(0, true, true, 2, 5, 12),
        Opcode::Uload8 => OpcodeConstraints::spec_packed(1, false, false, 1, 6, 12),
        Opcode::Sload8 => OpcodeConstraints::spec_packed(1, false, false, 1, 6, 12),
        Opcode::Istore8 => OpcodeConstraints::spec_packed(0, true, true, 2, 6, 12),
        Opcode::Uload16 => OpcodeConstraints::spec_packed(1, false, false, 1, 7, 12),
        Opcode::Sload16 => OpcodeConstraints::spec_packed(1, false, false, 1, 7, 12),
        Opcode::Istore16 => OpcodeConstraints::spec_packed(0, true, true, 2, 7, 12),
        Opcode::Uload32 => OpcodeConstraints::spec_packed(1, true, true, 1, 1, 14),
        Opcode::Sload32 => OpcodeConstraints::spec_packed(1, true, true, 1, 1, 14),
        Opcode::Istore32 => OpcodeConstraints::spec_packed(0, true, true, 2, 8, 16),
        Opcode::Uload8x8 => OpcodeConstraints::spec_packed(1, true, true, 1, 1, 18),
        Opcode::Sload8x8 => OpcodeConstraints::spec_packed(1, true, true, 1, 1, 18),
        Opcode::Uload16x4 => OpcodeConstraints::spec_packed(1, true, true, 1, 1, 20),
        Opcode::Sload16x4 => OpcodeConstraints::spec_packed(1, true, true, 1, 1, 20),
        Opcode::Uload32x2 => OpcodeConstraints::spec_packed(1, true, true, 1, 1, 22),
        Opcode::Sload32x2 => OpcodeConstraints::spec_packed(1, true, true, 1, 1, 22),
        Opcode::StackLoad => OpcodeConstraints::spec_packed(1, false, false, 0, 5, 0),
        Opcode::StackStore => OpcodeConstraints::spec_packed(0, true, true, 1, 5, 0),
        Opcode::StackAddr => OpcodeConstraints::spec_packed(1, false, false, 0, 1, 0),
        Opcode::DynamicStackLoad => OpcodeConstraints::spec_packed(1, false, false, 0, 5, 0),
        Opcode::DynamicStackStore => OpcodeConstraints::spec_packed(0, true, true, 1, 5, 0),
        Opcode::DynamicStackAddr => OpcodeConstraints::spec_packed(1, false, false, 0, 1, 0),
        Opcode::GlobalValue => OpcodeConstraints::spec_packed(1, false, false, 0, 5, 0),
        Opcode::SymbolValue => OpcodeConstraints::spec_packed(1, false, false, 0, 5, 0),
        Opcode::TlsValue => OpcodeConstraints::spec_packed(1, false, false, 0, 5, 0),
        Opcode::GetPinnedReg => OpcodeConstraints::spec_packed(1, false, false, 0, 1, 0),
        Opcode::SetPinnedReg => OpcodeConstraints::spec_packed(0, true, true, 1, 1, 0),
        Opcode::GetFramePointer => OpcodeConstraints::spec_packed(1, false, false, 0, 1, 0),
        Opcode::GetStackPointer => OpcodeConstraints::spec_packed(1, false, false, 0, 1, 0),
        Opcode::GetReturnAddress => OpcodeConstraints::spec_packed(1, false, false, 0, 1, 0),
        Opcode::TableAddr => OpcodeConstraints::spec_packed(1, false, false, 1, 1, 23),
        Opcode::Iconst => OpcodeConstraints::spec_packed(1, false, false, 0, 9, 0),
        Opcode::F32const => OpcodeConstraints::spec_packed(1, false, false, 0, NO_TYPE_SET, 25),
        Opcode::F64const => OpcodeConstraints::spec_packed(1, false, false, 0, NO_TYPE_SET, 26),
        Opcode::Vconst => OpcodeConstraints::spec_packed(1, false, false, 0, 10, 0),
        Opcode::Shuffle => OpcodeConstraints::spec_packed(1, false, false, 2, NO_TYPE_SET, 6),
        Opcode::Null => OpcodeConstraints::spec_packed(1, false, false, 0, 11, 0),
        Opcode::Nop => OpcodeConstraints::spec_packed(0, false, false, 0, NO_TYPE_SET, 0),
        Opcode::Select => OpcodeConstraints::spec_packed(1, true, false, 3, 12, 27),
        Opcode::SelectSpectreGuard => OpcodeConstraints::spec_packed(1, true, false, 3, 12, 27),
        Opcode::Bitselect => OpcodeConstraints::spec_packed(1, true, false, 3, 12, 29),
        Opcode::Vselect => OpcodeConstraints::spec_packed(1, true, false, 3, 10, 32),
        Opcode::VanyTrue => OpcodeConstraints::spec_packed(1, true, true, 1, 10, 36),
        Opcode::VallTrue => OpcodeConstraints::spec_packed(1, true, true, 1, 10, 36),
        Opcode::VhighBits => OpcodeConstraints::spec_packed(1, false, false, 1, 13, 37),
        Opcode::Icmp => OpcodeConstraints::spec_packed(1, true, true, 2, 13, 33),
        Opcode::IcmpImm => OpcodeConstraints::spec_packed(1, true, true, 1, 0, 36),
        Opcode::Iadd => OpcodeConstraints::spec_packed(1, true, false, 2, 13, 0),
        Opcode::Isub => OpcodeConstraints::spec_packed(1, true, false, 2, 13, 0),
        Opcode::Ineg => OpcodeConstraints::spec_packed(1, true, false, 1, 13, 0),
        Opcode::Iabs => OpcodeConstraints::spec_packed(1, true, false, 1, 13, 0),
        Opcode::Imul => OpcodeConstraints::spec_packed(1, true, false, 2, 13, 0),
        Opcode::Umulhi => OpcodeConstraints::spec_packed(1, true, false, 2, 13, 0),
        Opcode::Smulhi => OpcodeConstraints::spec_packed(1, true, false, 2, 13, 0),
        Opcode::SqmulRoundSat => OpcodeConstraints::spec_packed(1, true, false, 2, 14, 0),
        Opcode::Udiv => OpcodeConstraints::spec_packed(1, true, false, 2, 0, 0),
        Opcode::Sdiv => OpcodeConstraints::spec_packed(1, true, false, 2, 0, 0),
        Opcode::Urem => OpcodeConstraints::spec_packed(1, true, false, 2, 0, 0),
        Opcode::Srem => OpcodeConstraints::spec_packed(1, true, false, 2, 0, 0),
        Opcode::IaddImm => OpcodeConstraints::spec_packed(1, true, false, 1, 0, 0),
        Opcode::ImulImm => OpcodeConstraints::spec_packed(1, true, false, 1, 0, 0),
        Opcode::UdivImm => OpcodeConstraints::spec_packed(1, true, false, 1, 0, 0),
        Opcode::SdivImm => OpcodeConstraints::spec_packed(1, true, false, 1, 0, 0),
        Opcode::UremImm => OpcodeConstraints::spec_packed(1, true, false, 1, 0, 0),
        Opcode::SremImm => OpcodeConstraints::spec_packed(1, true, false, 1, 0, 0),
        Opcode::IrsubImm => OpcodeConstraints::spec_packed(1, true, false, 1, 0, 0),
        Opcode::IaddCin => OpcodeConstraints::spec_packed(1, true, false, 3, 0, 39),
        Opcode::IaddCout => OpcodeConstraints::spec_packed(2, true, false, 2, 0, 41),
        Opcode::IaddCarry => OpcodeConstraints::spec_packed(2, true, false, 3, 0, 41),
        Opcode::UaddOverflowTrap => OpcodeConstraints::spec_packed(1, true, false, 2, 7, 0),
        Opcode::IsubBin => OpcodeConstraints::spec_packed(1, true, false, 3, 0, 39),
        Opcode::IsubBout => OpcodeConstraints::spec_packed(2, true, false, 2, 0, 41),
        Opcode::IsubBorrow => OpcodeConstraints::spec_packed(2, true, false, 3, 0, 41),
        Opcode::Band => OpcodeConstraints::spec_packed(1, true, false, 2, 15, 0),
        Opcode::Bor => OpcodeConstraints::spec_packed(1, true, false, 2, 15, 0),
        Opcode::Bxor => OpcodeConstraints::spec_packed(1, true, false, 2, 15, 0),
        Opcode::Bnot => OpcodeConstraints::spec_packed(1, true, false, 1, 15, 0),
        Opcode::BandNot => OpcodeConstraints::spec_packed(1, true, false, 2, 15, 0),
        Opcode::BorNot => OpcodeConstraints::spec_packed(1, true, false, 2, 15, 0),
        Opcode::BxorNot => OpcodeConstraints::spec_packed(1, true, false, 2, 15, 0),
        Opcode::BandImm => OpcodeConstraints::spec_packed(1, true, false, 1, 0, 0),
        Opcode::BorImm => OpcodeConstraints::spec_packed(1, true, false, 1, 0, 0),
        Opcode::BxorImm => OpcodeConstraints::spec_packed(1, true, false, 1, 0, 0),
        Opcode::Rotl => OpcodeConstraints::spec_packed(1, true, false, 2, 13, 46),
        Opcode::Rotr => OpcodeConstraints::spec_packed(1, true, false, 2, 13, 46),
        Opcode::RotlImm => OpcodeConstraints::spec_packed(1, true, false, 1, 13, 0),
        Opcode::RotrImm => OpcodeConstraints::spec_packed(1, true, false, 1, 13, 0),
        Opcode::Ishl => OpcodeConstraints::spec_packed(1, true, false, 2, 13, 46),
        Opcode::Ushr => OpcodeConstraints::spec_packed(1, true, false, 2, 13, 46),
        Opcode::Sshr => OpcodeConstraints::spec_packed(1, true, false, 2, 13, 46),
        Opcode::IshlImm => OpcodeConstraints::spec_packed(1, true, false, 1, 13, 0),
        Opcode::UshrImm => OpcodeConstraints::spec_packed(1, true, false, 1, 13, 0),
        Opcode::SshrImm => OpcodeConstraints::spec_packed(1, true, false, 1, 13, 0),
        Opcode::Bitrev => OpcodeConstraints::spec_packed(1, true, false, 1, 0, 0),
        Opcode::Clz => OpcodeConstraints::spec_packed(1, true, false, 1, 0, 0),
        Opcode::Cls => OpcodeConstraints::spec_packed(1, true, false, 1, 0, 0),
        Opcode::Ctz => OpcodeConstraints::spec_packed(1, true, false, 1, 0, 0),
        Opcode::Bswap => OpcodeConstraints::spec_packed(1, true, false, 1, 16, 0),
        Opcode::Popcnt => OpcodeConstraints::spec_packed(1, true, false, 1, 13, 0),
        Opcode::Fcmp => OpcodeConstraints::spec_packed(1, true, true, 2, 17, 33),
        Opcode::Fadd => OpcodeConstraints::spec_packed(1, true, false, 2, 17, 0),
        Opcode::Fsub => OpcodeConstraints::spec_packed(1, true, false, 2, 17, 0),
        Opcode::Fmul => OpcodeConstraints::spec_packed(1, true, false, 2, 17, 0),
        Opcode::Fdiv => OpcodeConstraints::spec_packed(1, true, false, 2, 17, 0),
        Opcode::Sqrt => OpcodeConstraints::spec_packed(1, true, false, 1, 17, 0),
        Opcode::Fma => OpcodeConstraints::spec_packed(1, true, false, 3, 17, 29),
        Opcode::Fneg => OpcodeConstraints::spec_packed(1, true, false, 1, 17, 0),
        Opcode::Fabs => OpcodeConstraints::spec_packed(1, true, false, 1, 17, 0),
        Opcode::Fcopysign => OpcodeConstraints::spec_packed(1, true, false, 2, 17, 0),
        Opcode::Fmin => OpcodeConstraints::spec_packed(1, true, false, 2, 17, 0),
        Opcode::FminPseudo => OpcodeConstraints::spec_packed(1, true, false, 2, 17, 0),
        Opcode::Fmax => OpcodeConstraints::spec_packed(1, true, false, 2, 17, 0),
        Opcode::FmaxPseudo => OpcodeConstraints::spec_packed(1, true, false, 2, 17, 0),
        Opcode::Ceil => OpcodeConstraints::spec_packed(1, true, false, 1, 17, 0),
        Opcode::Floor => OpcodeConstraints::spec_packed(1, true, false, 1, 17, 0),
        Opcode::Trunc => OpcodeConstraints::spec_packed(1, true, false, 1, 17, 0),
        Opcode::Nearest => OpcodeConstraints::spec_packed(1, true, false, 1, 17, 0),
        Opcode::IsNull => OpcodeConstraints::spec_packed(1, true, true, 1, 11, 36),
        Opcode::IsInvalid => OpcodeConstraints::spec_packed(1, true, true, 1, 11, 36),
        Opcode::Bitcast => OpcodeConstraints::spec_packed(1, false, false, 1, 5, 49),
        Opcode::ScalarToVector => OpcodeConstraints::spec_packed(1, false, false, 1, 10, 4),
        Opcode::Bmask => OpcodeConstraints::spec_packed(1, false, false, 1, 3, 51),
        Opcode::Ireduce => OpcodeConstraints::spec_packed(1, false, false, 1, 0, 27),
        Opcode::Snarrow => OpcodeConstraints::spec_packed(1, true, true, 2, 18, 53),
        Opcode::Unarrow => OpcodeConstraints::spec_packed(1, true, true, 2, 18, 53),
        Opcode::Uunarrow => OpcodeConstraints::spec_packed(1, true, true, 2, 18, 53),
        Opcode::SwidenLow => OpcodeConstraints::spec_packed(1, true, true, 1, 19, 56),
        Opcode::SwidenHigh => OpcodeConstraints::spec_packed(1, true, true, 1, 19, 56),
        Opcode::UwidenLow => OpcodeConstraints::spec_packed(1, true, true, 1, 19, 56),
        Opcode::UwidenHigh => OpcodeConstraints::spec_packed(1, true, true, 1, 19, 56),
        Opcode::IaddPairwise => OpcodeConstraints::spec_packed(1, true, false, 2, 19, 0),
        Opcode::Uextend => OpcodeConstraints::spec_packed(1, false, false, 1, 3, 27),
        Opcode::Sextend => OpcodeConstraints::spec_packed(1, false, false, 1, 3, 27),
        Opcode::Fpromote => OpcodeConstraints::spec_packed(1, false, false, 1, 20, 57),
        Opcode::Fdemote => OpcodeConstraints::spec_packed(1, false, false, 1, 20, 57),
        Opcode::Fvdemote => OpcodeConstraints::spec_packed(1, false, false, 1, NO_TYPE_SET, 59),
        Opcode::FvpromoteLow => OpcodeConstraints::spec_packed(1, false, false, 1, NO_TYPE_SET, 60),
        Opcode::FcvtToUint => OpcodeConstraints::spec_packed(1, false, false, 1, 3, 62),
        Opcode::FcvtToSint => OpcodeConstraints::spec_packed(1, false, false, 1, 3, 62),
        Opcode::FcvtToUintSat => OpcodeConstraints::spec_packed(1, false, false, 1, 3, 57),
        Opcode::FcvtToSintSat => OpcodeConstraints::spec_packed(1, false, false, 1, 3, 57),
        Opcode::FcvtFromUint => OpcodeConstraints::spec_packed(1, false, false, 1, 20, 51),
        Opcode::FcvtFromSint => OpcodeConstraints::spec_packed(1, false, false, 1, 20, 51),
        Opcode::FcvtLowFromSint => OpcodeConstraints::spec_packed(1, false, false, 1, 20, 51),
        Opcode::Isplit => OpcodeConstraints::spec_packed(2, true, true, 1, 22, 64),
        Opcode::Iconcat => OpcodeConstraints::spec_packed(1, true, true, 2, 9, 67),
        Opcode::AtomicRmw => OpcodeConstraints::spec_packed(1, false, false, 2, 23, 69),
        Opcode::AtomicCas => OpcodeConstraints::spec_packed(1, true, false, 3, 23, 69),
        Opcode::AtomicLoad => OpcodeConstraints::spec_packed(1, false, false, 1, 23, 12),
        Opcode::AtomicStore => OpcodeConstraints::spec_packed(0, true, true, 2, 23, 12),
        Opcode::Fence => OpcodeConstraints::spec_packed(0, false, false, 0, NO_TYPE_SET, 0),
        Opcode::ExtractVector => OpcodeConstraints::spec_packed(1, true, true, 1, 24, 73),
    }
}

/// The type set at `index` of the table, if the table is that long.
pub open spec fn type_set_at(index: u8) -> Option<TypeSet> {
    match index {
        // Integers of 8 to 128 bits, as scalars.
        0 => Some(TypeSet { lanes: 0x0001, dynamic_lanes: 0x0000, ints: 0xf8, floats: 0x00, refs: 0x00 }),
        // Integers of 32 or 64 bits and references of 32 or 64 bits, as scalars.
        1 => Some(TypeSet { lanes: 0x0001, dynamic_lanes: 0x0000, ints: 0x60, floats: 0x00, refs: 0x60 }),
        // Integers of 8 to 128 bits and floats of 32 or 64 bits, as fixed and dynamic vectors of 2 to 256 lanes.
        2 => Some(TypeSet { lanes: 0x01fe, dynamic_lanes: 0x01fe, ints: 0xf8, floats: 0x60, refs: 0x00 }),
        // Integers of 8 to 128 bits, as scalars and vectors of 2 to 256 lanes.
        3 => Some(TypeSet { lanes: 0x01ff, dynamic_lanes: 0x0000, ints: 0xf8, floats: 0x00, refs: 0x00 }),
        // Integers of 8 to 128 bits, as vectors of 2 to 256 lanes.
        4 => Some(TypeSet { lanes: 0x01fe, dynamic_lanes: 0x0000, ints: 0xf8, floats: 0x00, refs: 0x00 }),
        // Integers of 8 to 128 bits, floats of 32 or 64 bits and references of 32 or 64 bits, as scalars and fixed and dynamic vectors of 2 to 256 lanes.
        5 => Some(TypeSet { lanes: 0x01ff, dynamic_lanes: 0x01fe, ints: 0xf8, floats: 0x60, refs: 0x60 }),
        // Integers of 16 to 64 bits, as scalars.
        6 => Some(TypeSet { lanes: 0x0001, dynamic_lanes: 0x0000, ints: 0x70, floats: 0x00, refs: 0x00 }),
        // Integers of 32 or 64 bits, as scalars.
        7 => Some(TypeSet { lanes: 0x0001, dynamic_lanes: 0x0000, ints: 0x60, floats: 0x00, refs: 0x00 }),
        // Integers of 64 bits, as scalars.
        8 => Some(TypeSet { lanes: 0x0001, dynamic_lanes: 0x0000, ints: 0x40, floats: 0x00, refs: 0x00 }),
        // Integers of 8 to 64 bits, as scalars and fixed and dynamic vectors of 2 to 256 lanes.
        9 => Some(TypeSet { lanes: 0x01ff, dynamic_lanes: 0x01fe, ints: 0x78, floats: 0x00, refs: 0x00 }),
        // Integers of 8 to 128 bits and floats of 32 or 64 bits, as vectors of 2 to 256 lanes.
        10 => Some(TypeSet { lanes: 0x01fe, dynamic_lanes: 0x0000, ints: 0xf8, floats: 0x60, refs: 0x00 }),
        // References of 32 or 64 bits, as scalars.
        11 => Some(TypeSet { lanes: 0x0001, dynamic_lanes: 0x0000, ints: 0x00, floats: 0x00, refs: 0x60 }),
        // Integers of 8 to 128 bits, floats of 32 or 64 bits and references of 32 or 64 bits, as scalars and vectors of 2 to 256 lanes.
        12 => Some(TypeSet { lanes: 0x01ff, dynamic_lanes: 0x0000, ints: 0xf8, floats: 0x60, refs: 0x60 }),
        // Integers of 8 to 128 bits, as scalars and fixed and dynamic vectors of 2 to 256 lanes.
        13 => Some(TypeSet { lanes: 0x01ff, dynamic_lanes: 0x01fe, ints: 0xf8, floats: 0x00, refs: 0x00 }),
        // Integers of 16 or 32 bits, as vectors of 4 or 8 lanes.
        14 => Some(TypeSet { lanes: 0x000c, dynamic_lanes: 0x0000, ints: 0x30, floats: 0x00, refs: 0x00 }),
        // Integers of 8 to 128 bits and floats of 32 or 64 bits, as scalars and vectors of 2 to 256 lanes.
        15 => Some(TypeSet { lanes: 0x01ff, dynamic_lanes: 0x0000, ints: 0xf8, floats: 0x60, refs: 0x00 }),
        // Integers of 16 to 128 bits, as scalars.
        16 => Some(TypeSet { lanes: 0x0001, dynamic_lanes: 0x0000, ints: 0xf0, floats: 0x00, refs: 0x00 }),
        // Floats of 32 or 64 bits, as scalars and fixed and dynamic vectors of 2 to 256 lanes.
        17 => Some(TypeSet { lanes: 0x01ff, dynamic_lanes: 0x01fe, ints: 0x00, floats: 0x60, refs: 0x00 }),
        // Integers of 16 to 64 bits, as fixed and dynamic vectors of 2 to 8 lanes.
        18 => Some(TypeSet { lanes: 0x000e, dynamic_lanes: 0x000e, ints: 0x70, floats: 0x00, refs: 0x00 }),
        // Integers of 8 to 32 bits, as fixed and dynamic vectors of 2 to 16 lanes.
        19 => Some(TypeSet { lanes: 0x001e, dynamic_lanes: 0x001e, ints: 0x38, floats: 0x00, refs: 0x00 }),
        // Floats of 32 or 64 bits, as scalars and vectors of 2 to 256 lanes.
        20 => Some(TypeSet { lanes: 0x01ff, dynamic_lanes: 0x0000, ints: 0x00, floats: 0x60, refs: 0x00 }),
        // Floats of 32 or 64 bits, as scalars.
        21 => Some(TypeSet { lanes: 0x0001, dynamic_lanes: 0x0000, ints: 0x00, floats: 0x60, refs: 0x00 }),
        // Integers of 16 to 128 bits, as scalars and vectors of 2 to 256 lanes.
        22 => Some(TypeSet { lanes: 0x01ff, dynamic_lanes: 0x0000, ints: 0xf0, floats: 0x00, refs: 0x00 }),
        // Integers of 8 to 64 bits, as scalars.
        23 => Some(TypeSet { lanes: 0x0001, dynamic_lanes: 0x0000, ints: 0x78, floats: 0x00, refs: 0x00 }),
        // Integers of 8 to 128 bits and floats of 32 or 64 bits, as scalars and dynamic vectors of 2 to 256 lanes.
        24 => Some(TypeSet { lanes: 0x0001, dynamic_lanes: 0x01fe, ints: 0xf8, floats: 0x60, refs: 0x00 }),
        _ => None,
    }
}

/// The operand constraint at `index` of the table, if the table is that
/// long. The records of the opcodes point into this one sequence and share
/// its runs.
pub open spec fn operand_constraint_at(index: u8) -> Option<OperandConstraint> {
    match index {
        0 => Some(OperandConstraint::Same),
        1 => Some(OperandConstraint::Same),
        2 => Some(OperandConstraint::Same),
        3 => Some(OperandConstraint::Concrete(ValueType::int32())),
        4 => Some(OperandConstraint::Same),
        5 => Some(OperandConstraint::LaneOf),
        6 => Some(OperandConstraint::Concrete(ValueType::int8x16())),
        7 => Some(OperandConstraint::Concrete(ValueType::int8x16())),
        8 => Some(OperandConstraint::Concrete(ValueType::int8x16())),
        9 => Some(OperandConstraint::Same),
        10 => Some(OperandConstraint::Same),
        11 => Some(OperandConstraint::LaneOf),
        12 => Some(OperandConstraint::Same),
        13 => Some(OperandConstraint::Free(1)),
        14 => Some(OperandConstraint::Concrete(ValueType::int64())),
        15 => Some(OperandConstraint::Same),
        16 => Some(OperandConstraint::Concrete(ValueType::int64())),
        17 => Some(OperandConstraint::Free(1)),
        18 => Some(OperandConstraint::Concrete(ValueType::int16x8())),
        19 => Some(OperandConstraint::Same),
        20 => Some(OperandConstraint::Concrete(ValueType::int32x4())),
        21 => Some(OperandConstraint::Same),
        22 => Some(OperandConstraint::Concrete(ValueType::int64x2())),
        23 => Some(OperandConstraint::Same),
        24 => Some(OperandConstraint::Free(7)),
        25 => Some(OperandConstraint::Concrete(ValueType::float32())),
        26 => Some(OperandConstraint::Concrete(ValueType::float64())),
        27 => Some(OperandConstraint::Same),
        28 => Some(OperandConstraint::Free(0)),
        29 => Some(OperandConstraint::Same),
        30 => Some(OperandConstraint::Same),
        31 => Some(OperandConstraint::Same),
        32 => Some(OperandConstraint::Same),
        33 => Some(OperandConstraint::AsBool),
        34 => Some(OperandConstraint::Same),
        35 => Some(OperandConstraint::Same),
        36 => Some(OperandConstraint::Concrete(ValueType::int8())),
        37 => Some(OperandConstraint::Same),
        38 => Some(OperandConstraint::Free(10)),
        39 => Some(OperandConstraint::Same),
        40 => Some(OperandConstraint::Same),
        41 => Some(OperandConstraint::Same),
        42 => Some(OperandConstraint::Concrete(ValueType::int8())),
        43 => Some(OperandConstraint::Same),
        44 => Some(OperandConstraint::Same),
        45 => Some(OperandConstraint::Concrete(ValueType::int8())),
        46 => Some(OperandConstraint::Same),
        47 => Some(OperandConstraint::Same),
        48 => Some(OperandConstraint::Free(0)),
        49 => Some(OperandConstraint::Same),
        50 => Some(OperandConstraint::Free(5)),
        51 => Some(OperandConstraint::Same),
        52 => Some(OperandConstraint::Free(3)),
        53 => Some(OperandConstraint::SplitLanes),
        54 => Some(OperandConstraint::Same),
        55 => Some(OperandConstraint::Same),
        56 => Some(OperandConstraint::MergeLanes),
        57 => Some(OperandConstraint::Same),
        58 => Some(OperandConstraint::Free(17)),
        59 => Some(OperandConstraint::Concrete(ValueType::float32x4())),
        60 => Some(OperandConstraint::Concrete(ValueType::float64x2())),
        61 => Some(OperandConstraint::Concrete(ValueType::float32x4())),
        62 => Some(OperandConstraint::Same),
        63 => Some(OperandConstraint::Free(21)),
        64 => Some(OperandConstraint::HalfWidth),
        65 => Some(OperandConstraint::HalfWidth),
        66 => Some(OperandConstraint::Same),
        67 => Some(OperandConstraint::DoubleWidth),
        68 => Some(OperandConstraint::Same),
        69 => Some(OperandConstraint::Same),
        70 => Some(OperandConstraint::Free(1)),
        71 => Some(OperandConstraint::Same),
        72 => Some(OperandConstraint::Same),
        73 => Some(OperandConstraint::DynamicToVector),
        74 => Some(OperandConstraint::Same),
        _ => None,
    }
}

/// The operand constraint at `index` of the table, if the table is that long.
pub fn operand_constraint(index: u8) -> (c: Option<OperandConstraint>)
    ensures
        c == operand_constraint_at(index),
        c is Some <==> index < OPERAND_CONSTRAINT_COUNT,
{
    match index {
        0 => Some(OperandConstraint::Same),
        1 => Some(OperandConstraint::Same),
        2 => Some(OperandConstraint::Same),
        3 => Some(OperandConstraint::Concrete(ValueType::int32())),
        4 => Some(OperandConstraint::Same),
        5 => Some(OperandConstraint::LaneOf),
        6 => Some(OperandConstraint::Concrete(ValueType::int8x16())),
        7 => Some(OperandConstraint::Concrete(ValueType::int8x16())),
        8 => Some(OperandConstraint::Concrete(ValueType::int8x16())),
        9 => Some(OperandConstraint::Same),
        10 => Some(OperandConstraint::Same),
        11 => Some(OperandConstraint::LaneOf),
        12 => Some(OperandConstraint::Same),
        13 => Some(OperandConstraint::Free(1)),
        14 => Some(OperandConstraint::Concrete(ValueType::int64())),
        15 => Some(OperandConstraint::Same),
        16 => Some(OperandConstraint::Concrete(ValueType::int64())),
        17 => Some(OperandConstraint::Free(1)),
        18 => Some(OperandConstraint::Concrete(ValueType::int16x8())),
        19 => Some(OperandConstraint::Same),
        20 => Some(OperandConstraint::Concrete(ValueType::int32x4())),
        21 => Some(OperandConstraint::Same),
        22 => Some(OperandConstraint::Concrete(ValueType::int64x2())),
        23 => Some(OperandConstraint::Same),
        24 => Some(OperandConstraint::Free(7)),
        25 => Some(OperandConstraint::Concrete(ValueType::float32())),
        26 => Some(OperandConstraint::Concrete(ValueType::float64())),
        27 => Some(OperandConstraint::Same),
        28 => Some(OperandConstraint::Free(0)),
        29 => Some(OperandConstraint::Same),
        30 => Some(OperandConstraint::Same),
        31 => Some(OperandConstraint::Same),
        32 => Some(OperandConstraint::Same),
        33 => Some(OperandConstraint::AsBool),
        34 => Some(OperandConstraint::Same),
        35 => Some(OperandConstraint::Same),
        36 => Some(OperandConstraint::Concrete(ValueType::int8())),
        37 => Some(OperandConstraint::Same),
        38 => Some(OperandConstraint::Free(10)),
        39 => Some(OperandConstraint::Same),
        40 => Some(OperandConstraint::Same),
        41 => Some(OperandConstraint::Same),
        42 => Some(OperandConstraint::Concrete(ValueType::int8())),
        43 => Some(OperandConstraint::Same),
        44 => Some(OperandConstraint::Same),
        45 => Some(OperandConstraint::Concrete(ValueType::int8())),
        46 => Some(OperandConstraint::Same),
        47 => Some(OperandConstraint::Same),
        48 => Some(OperandConstraint::Free(0)),
        49 => Some(OperandConstraint::Same),
        50 => Some(OperandConstraint::Free(5)),
        51 => Some(OperandConstraint::Same),
        52 => Some(OperandConstraint::Free(3)),
        53 => Some(OperandConstraint::SplitLanes),
        54 => Some(OperandConstraint::Same),
        55 => Some(OperandConstraint::Same),
        56 => Some(OperandConstraint::MergeLanes),
        57 => Some(OperandConstraint::Same),
        58 => Some(OperandConstraint::Free(17)),
        59 => Some(OperandConstraint::Concrete(ValueType::float32x4())),
        60 => Some(OperandConstraint::Concrete(ValueType::float64x2())),
        61 => Some(OperandConstraint::Concrete(ValueType::float32x4())),
        62 => Some(OperandConstraint::Same),
        63 => Some(OperandConstraint::Free(21)),
        64 => Some(OperandConstraint::HalfWidth),
        65 => Some(OperandConstraint::HalfWidth),
        66 => Some(OperandConstraint::Same),
        67 => Some(OperandConstraint::DoubleWidth),
        68 => Some(OperandConstraint::Same),
        69 => Some(OperandConstraint::Same),
        70 => Some(OperandConstraint::Free(1)),
        71 => Some(OperandConstraint::Same),
        72 => Some(OperandConstraint::Same),
        73 => Some(OperandConstraint::DynamicToVector),
        74 => Some(OperandConstraint::Same),
        _ => None,
    }
}

/// The type set at `index` of the table, if the table is that long.
pub fn type_set(index: u8) -> (s: Option<TypeSet>)
    ensures
        s == type_set_at(index),
        s is Some <==> index < TYPE_SET_COUNT,
{
    if index < TYPE_SET_COUNT {
        let i = index as usize;
        Some(
            TypeSet {
                lanes: SET_LANES[i],
                dynamic_lanes: SET_DYNAMIC_LANES[i],
                ints: SET_INTS[i],
                floats: SET_FLOATS[i],
                refs: SET_REFS[i],
            },
        )
    } else {
        None
    }
}

/// The record of `opcode`: one read of each table column at the opcode's
/// code.
pub fn constraints_for(opcode: Opcode) -> (c: OpcodeConstraints)
    ensures
        c == constraints_of(opcode),
{
    let i = (opcode.code() - 1) as usize;
    OpcodeConstraints {
        flags: ROW_FLAGS[i],
        typeset_offset: ROW_TYPE_SETS[i],
        constraint_offset: ROW_CONSTRAINTS[i],
    }
}

/// The set of types that the controlling type of `opcode` ranges over;
/// `None` where the opcode has no controlling type.
pub open spec fn controlling_type_set_of(opcode: Opcode) -> Option<TypeSet> {
    type_set_at(constraints_of(opcode).typeset_offset)
}

/// The set of types that the controlling type of `opcode` ranges over;
/// `None` where the opcode has no controlling type.
pub fn controlling_type_set(opcode: Opcode) -> (s: Option<TypeSet>)
    ensures
        s == controlling_type_set_of(opcode),
        s is None <==> !constraints_of(opcode).is_polymorphic(),
{
    proof {
        lemma_rows_in_range(opcode);
    }
    type_set(constraints_for(opcode).typeset_offset)
}

/// The position, counted as the constraints are, of the result or operand
/// whose type is the controlling type of `opcode`: the operand that the
/// format names where the controlling type is an operand's, else the first
/// result. `None` where the opcode has no controlling type.
pub open spec fn controlling_position_of(opcode: Opcode) -> Option<u8> {
    let row = constraints_of(opcode);
    if !row.is_polymorphic() {
        None
    } else if row.use_typevar_operand() {
        match opcode.format().shape().typevar_operand {
            Some(k) => Some((row.num_fixed_results() + k) as u8),
            None => None,
        }
    } else {
        Some(0)
    }
}

/// The position of the result or operand whose type is the controlling type
/// of `opcode`; `None` where the opcode has no controlling type.
pub fn controlling_position(opcode: Opcode) -> (position: Option<u8>)
    ensures
        position == controlling_position_of(opcode),
        position is Some <==> constraints_of(opcode).is_polymorphic(),
{
    proof {
        lemma_controlling_position(opcode);
    }
    let row = constraints_for(opcode);
    if !row.is_polymorphic() {
        None
    } else if row.use_typevar_operand() {
        match opcode.format().shape().typevar_operand {
            Some(k) => Some(row.num_fixed_results() + k),
            None => None,
        }
    } else {
        Some(0)
    }
}

/// The constraints of the positions of `opcode`, the fixed results first and
/// the fixed value operands after them: the run of the table that begins at
/// the opcode's constraint offset. Values past the fixed ones have no
/// constraint.
pub open spec fn operand_constraints_of(opcode: Opcode) -> Seq<OperandConstraint> {
    let row = constraints_of(opcode);
    Seq::new(
        row.num_constraints() as nat,
        |k: int| operand_constraint_at((row.constraint_offset + k) as u8)->0,
    )
}

/// The constraints of the positions of `opcode`, results first.
pub fn operand_constraints(opcode: Opcode) -> (cs: Vec<OperandConstraint>)
    ensures
        cs@ == operand_constraints_of(opcode),
{
    let row = constraints_for(opcode);
    let count = row.num_constraints();
    let start = row.constraint_offset;
    proof {
        lemma_rows_in_range(opcode);
    }
    let mut cs: Vec<OperandConstraint> = Vec::new();
    let mut k: u8 = 0;
    while k < count
        invariant
            k <= count,
            start + count <= OPERAND_CONSTRAINT_COUNT,
            cs@.len() == k,
            forall|j: int|
                0 <= j < k ==> cs@[j] == (#[trigger] operand_constraint_at((start + j) as u8))->0,
        decreases count - k,
    {
        let c = operand_constraint(start + k);
        cs.push(c.unwrap());
        k = k + 1;
    }
    assert(cs@ =~= operand_constraints_of(opcode));
    cs
}

/// Every record points into the tables: its type-set offset is the mark of
/// no controlling type or the place of a type set, and its run of
/// constraints ends inside the table of operand constraints.
pub proof fn lemma_rows_in_range(opcode: Opcode)
    ensures
        ({
            let row = constraints_of(opcode);
            &&& row.typeset_offset == NO_TYPE_SET || row.typeset_offset < TYPE_SET_COUNT
            &&& row.constraint_offset + row.num_constraints() <= OPERAND_CONSTRAINT_COUNT
            &&& row.is_polymorphic() <==> controlling_type_set_of(opcode) is Some
        }),
{
}

/// Every opcode with a controlling type has a position for it among its
/// constrained positions, and the constraint there asks for the controlling
/// type itself. The one exception is `istore32`, whose stored value is a
/// 64-bit integer by a concrete constraint.
pub proof fn lemma_controlling_position(opcode: Opcode)
    ensures
        constraints_of(opcode).is_polymorphic() <==> controlling_position_of(opcode) is Some,
        controlling_position_of(opcode) matches Some(p) ==> {
            &&& p < operand_constraints_of(opcode).len()
            &&& opcode != Opcode::Istore32 ==> operand_constraints_of(opcode)[p as int]
                == OperandConstraint::Same
            &&& opcode == Opcode::Istore32 ==> operand_constraints_of(opcode)[p as int]
                == OperandConstraint::Concrete(ValueType::int64())
        },
{
}

/// The mark of no type set says exactly that an opcode has no controlling
/// type: the opcode's type set is `None` with the mark and `Some` without
/// it. An opcode with the mark has neither of the flags of a controlling
/// operand, and only an opcode whose controlling type is an operand's can
/// need that operand.
pub proof fn lemma_type_set_mark(opcode: Opcode)
    ensures
        controlling_type_set_of(opcode) is None <==> constraints_of(opcode).typeset_offset
            == NO_TYPE_SET,
        controlling_type_set_of(opcode) is None ==> !constraints_of(opcode).use_typevar_operand()
            && !constraints_of(opcode).requires_typevar_operand(),
        constraints_of(opcode).requires_typevar_operand() ==> constraints_of(
            opcode,
        ).use_typevar_operand(),
{
}

/// Of an opcode whose controlling type, if it has one, is an operand's, the
/// flags alone tell whether it has a type set.
pub proof fn lemma_type_set_follows_flags(opcode: Opcode)
    requires
        !constraints_of(opcode).typevar_from_result(),
    ensures
        controlling_type_set_of(opcode) is None <==> !constraints_of(opcode).use_typevar_operand(),
{
    lemma_type_set_mark(opcode);
}

/// The record of an opcode counts as many fixed value operands as the
/// opcode's format holds.
pub proof fn lemma_rows_match_formats(opcode: Opcode)
    ensures
        constraints_of(opcode).num_fixed_value_arguments() == opcode.format().shape().values,
{
}

/// An opcode without a controlling type has no constraint that needs one.
pub proof fn lemma_monomorphic_rows_are_closed(opcode: Opcode, i: int)
    requires
        !constraints_of(opcode).is_polymorphic(),
        0 <= i < operand_constraints_of(opcode).len(),
    ensures
        operand_constraints_of(opcode)[i].is_closed(),
{
}

/// No type set of the table names a lane count or a lane width outside the
/// type universe.
pub proof fn lemma_type_sets_wf(index: u8)
    ensures
        type_set_at(index) matches Some(set) ==> set.wf(),
{
    assert(0x0000u16 & !0x01ffu16 == 0 && 0x0001u16 & !0x01ffu16 == 0 && 0x000cu16 & !0x01ffu16
        == 0 && 0x000eu16 & !0x01ffu16 == 0 && 0x001eu16 & !0x01ffu16 == 0 && 0x01feu16
        & !0x01ffu16 == 0 && 0x01ffu16 & !0x01ffu16 == 0) by (bit_vector);
    assert(0x0000u16 & !0x01feu16 == 0 && 0x000eu16 & !0x01feu16 == 0 && 0x001eu16 & !0x01feu16
        == 0 && 0x01feu16 & !0x01feu16 == 0) by (bit_vector);
    assert(0x00u8 & !0xf8u8 == 0 && 0x30u8 & !0xf8u8 == 0 && 0x38u8 & !0xf8u8 == 0 && 0x40u8
        & !0xf8u8 == 0 && 0x60u8 & !0xf8u8 == 0 && 0x70u8 & !0xf8u8 == 0 && 0x78u8 & !0xf8u8 == 0
        && 0xf0u8 & !0xf8u8 == 0 && 0xf8u8 & !0xf8u8 == 0) by (bit_vector);
    assert(0x00u8 & !0x60u8 == 0 && 0x60u8 & !0x60u8 == 0) by (bit_vector);
}

/// Every concrete constraint of the table names a type of the type universe.
pub proof fn lemma_concrete_types_wf(index: u8)
    ensures
        operand_constraint_at(index) matches Some(OperandConstraint::Concrete(t)) ==> t.wf(),
{
}

/// A controlling type that an opcode can have is a type of the universe.
pub proof fn lemma_controlling_types_wf(opcode: Opcode, t: ValueType)
    requires
        controlling_type_set_of(opcode) matches Some(set) && set.contains(t),
    ensures
        t.wf(),
{
    lemma_type_sets_wf(constraints_of(opcode).typeset_offset);
    lemma_members_wf(controlling_type_set_of(opcode)->0, t);
}

} // verus!
