//! Instruction formats: the shape in which an instruction holds its
//! operands.

use vstd::prelude::*;
use crate::opcode::Opcode;

verus! {

/// What a format holds.
#[derive(Clone, Copy, Debug, PartialEq, Eq, Structural, Hash)]
pub struct Shape {
    /// Number of value operands that every instruction of the format has.
    pub values: u8,
    /// Whether more values may follow the fixed ones.
    pub value_list: bool,
    /// Which of the fixed value operands has the controlling type, where
    /// the controlling type is an operand's.
    pub typevar_operand: Option<u8>,
    /// Number of immediate operands.
    pub immediates: u8,
    /// Number of successor blocks.
    pub blocks: u8,
}

/// The format of an instruction. Every opcode has exactly one.
#[derive(Clone, Copy, Debug, PartialEq, Eq, Structural, Hash)]
pub enum InstructionFormat {
    /// Three values, the immediate `flags`.
    AtomicCas,
    /// Two values, the immediates `flags` and `op`.
    AtomicRmw,
    /// Two values.
    Binary,
    /// One value, the immediate `imm`.
    BinaryImm64,
    /// One value, the immediate `imm`.
    BinaryImm8,
    /// One value, the immediate `table`.
    BranchTable,
    /// One value, two successor blocks.
    Brif,
    /// No values, a list of further values, the immediate `func_ref`.
    Call,
    /// One value, a list of further values, the immediate `sig_ref`.
    CallIndirect,
    /// One value, the immediate `code`.
    CondTrap,
    /// No values, the immediate `dynamic_stack_slot`.
    DynamicStackLoad,
    /// One value, the immediate `dynamic_stack_slot`.
    DynamicStackStore,
    /// Two values, the immediate `cond`.
    FloatCompare,
    /// No values, the immediate `func_ref`.
    FuncAddr,
    /// Two values, the immediate `code`.
    IntAddTrap,
    /// Two values, the immediate `cond`.
    IntCompare,
    /// One value, the immediates `cond` and `imm`.
    IntCompareImm,
    /// No values, one successor block.
    Jump,
    /// One value, the immediates `flags` and `offset`.
    Load,
    /// One value, the immediate `flags`.
    LoadNoOffset,
    /// No values, a list of further values.
    MultiAry,
    /// No values.
    NullAry,
    /// Two values, the immediate `imm`.
    Shuffle,
    /// No values, the immediates `stack_slot` and `offset`.
    StackLoad,
    /// One value, the immediates `stack_slot` and `offset`.
    StackStore,
    /// Two values, the immediates `flags` and `offset`.
    Store,
    /// Two values, the immediate `flags`.
    StoreNoOffset,
    /// One value, the immediates `table` and `offset`.
    TableAddr,
    /// Three values.
    Ternary,
    /// Two values, the immediate `imm`.
    TernaryImm8,
    /// No values, the immediate `code`.
    Trap,
    /// One value.
    Unary,
    /// No values, the immediate `constant_handle`.
    UnaryConst,
    /// No values, the immediate `global_value`.
    UnaryGlobalValue,
    /// No values, the immediate `imm`.
    UnaryIeee32,
    /// No values, the immediate `imm`.
    UnaryIeee64,
    /// No values, the immediate `imm`.
    UnaryImm,
}

impl InstructionFormat {
    /// What the format holds.
    pub open spec fn spec_shape(self) -> Shape {
        match self {
            InstructionFormat::AtomicCas => (Shape {
                values: 3,
                value_list: false,
                typevar_operand: Some(2),
                immediates: 1,
                blocks: 0,
            }),
            InstructionFormat::AtomicRmw => (Shape {
                values: 2,
                value_list: false,
                typevar_operand: Some(0),
                immediates: 2,
                blocks: 0,
            }),
            InstructionFormat::Binary => (Shape {
                values: 2,
                value_list: false,
                typevar_operand: Some(0),
                immediates: 0,
                blocks: 0,
            }),
            InstructionFormat::BinaryImm64 => (Shape {
                values: 1,
                value_list: false,
                typevar_operand: Some(0),
                immediates: 1,
                blocks: 0,
            }),
            InstructionFormat::BinaryImm8 => (Shape {
                values: 1,
                value_list: false,
                typevar_operand: Some(0),
                immediates: 1,
                blocks: 0,
            }),
            InstructionFormat::BranchTable => (Shape {
                values: 1,
                value_list: false,
                typevar_operand: Some(0),
                immediates: 1,
                blocks: 0,
            }),
            InstructionFormat::Brif => (Shape {
                values: 1,
                value_list: false,
                typevar_operand: Some(0),
                immediates: 0,
                blocks: 2,
            }),
            InstructionFormat::Call => (Shape {
                values: 0,
                value_list: true,
                typevar_operand: None,
                immediates: 1,
                blocks: 0,
            }),
            InstructionFormat::CallIndirect => (Shape {
                values: 1,
                value_list: true,
                typevar_operand: Some(0),
                immediates: 1,
                blocks: 0,
            }),
            InstructionFormat::CondTrap => (Shape {
                values: 1,
                value_list: false,
                typevar_operand: Some(0),
                immediates: 1,
                blocks: 0,
            }),
            InstructionFormat::DynamicStackLoad => (Shape {
                values: 0,
                value_list: false,
                typevar_operand: None,
                immediates: 1,
                blocks: 0,
            }),
            InstructionFormat::DynamicStackStore => (Shape {
                values: 1,
                value_list: false,
                typevar_operand: Some(0),
                immediates: 1,
                blocks: 0,
            }),
            InstructionFormat::FloatCompare => (Shape {
                values: 2,
                value_list: false,
                typevar_operand: Some(0),
                immediates: 1,
                blocks: 0,
            }),
            InstructionFormat::FuncAddr => (Shape {
                values: 0,
                value_list: false,
                typevar_operand: None,
                immediates: 1,
                blocks: 0,
            }),
            InstructionFormat::IntAddTrap => (Shape {
                values: 2,
                value_list: false,
                typevar_operand: Some(0),
                immediates: 1,
                blocks: 0,
            }),
            InstructionFormat::IntCompare => (Shape {
                values: 2,
                value_list: false,
                typevar_operand: Some(0),
                immediates: 1,
                blocks: 0,
            }),
            InstructionFormat::IntCompareImm => (Shape {
                values: 1,
                value_list: false,
                typevar_operand: Some(0),
                immediates: 2,
                blocks: 0,
            }),
            InstructionFormat::Jump => (Shape {
                values: 0,
                value_list: false,
                typevar_operand: None,
                immediates: 0,
                blocks: 1,
            }),
            InstructionFormat::Load => (Shape {
                values: 1,
                value_list: false,
                typevar_operand: Some(0),
                immediates: 2,
                blocks: 0,
            }),
            InstructionFormat::LoadNoOffset => (Shape {
                values: 1,
                value_list: false,
                typevar_operand: Some(0),
                immediates: 1,
                blocks: 0,
            }),
            InstructionFormat::MultiAry => (Shape {
                values: 0,
                value_list: true,
                typevar_operand: None,
                immediates: 0,
                blocks: 0,
            }),
            InstructionFormat::NullAry => (Shape {
                values: 0,
                value_list: false,
                typevar_operand: None,
                immediates: 0,
                blocks: 0,
            }),
            InstructionFormat::Shuffle => (Shape {
                values: 2,
                value_list: false,
                typevar_operand: Some(0),
                immediates: 1,
                blocks: 0,
            }),
            InstructionFormat::StackLoad => (Shape {
                values: 0,
                value_list: false,
                typevar_operand: None,
                immediates: 2,
                blocks: 0,
            }),
            InstructionFormat::StackStore => (Shape {
                values: 1,
                value_list: false,
                typevar_operand: Some(0),
                immediates: 2,
                blocks: 0,
            }),
            InstructionFormat::Store => (Shape {
                values: 2,
                value_list: false,
                typevar_operand: Some(0),
                immediates: 2,
                blocks: 0,
            }),
            InstructionFormat::StoreNoOffset => (Shape {
                values: 2,
                value_list: false,
                typevar_operand: Some(0),
                immediates: 1,
                blocks: 0,
            }),
            InstructionFormat::TableAddr => (Shape {
                values: 1,
                value_list: false,
                typevar_operand: Some(0),
                immediates: 2,
                blocks: 0,
            }),
            InstructionFormat::Ternary => (Shape {
                values: 3,
                value_list: false,
                typevar_operand: Some(1),
                immediates: 0,
                blocks: 0,
            }),
            InstructionFormat::TernaryImm8 => (Shape {
                values: 2,
                value_list: false,
                typevar_operand: Some(0),
                immediates: 1,
                blocks: 0,
            }),
            InstructionFormat::Trap => (Shape {
                values: 0,
                value_list: false,
                typevar_operand: None,
                immediates: 1,
                blocks: 0,
            }),
            InstructionFormat::Unary => (Shape {
                values: 1,
                value_list: false,
                typevar_operand: Some(0),
                immediates: 0,
                blocks: 0,
            }),
            InstructionFormat::UnaryConst => (Shape {
                values: 0,
                value_list: false,
                typevar_operand: None,
                immediates: 1,
                blocks: 0,
            }),
            InstructionFormat::UnaryGlobalValue => (Shape {
                values: 0,
                value_list: false,
                typevar_operand: None,
                immediates: 1,
                blocks: 0,
            }),
            InstructionFormat::UnaryIeee32 => (Shape {
                values: 0,
                value_list: false,
                typevar_operand: None,
                immediates: 1,
                blocks: 0,
            }),
            InstructionFormat::UnaryIeee64 => (Shape {
                values: 0,
                value_list: false,
                typevar_operand: None,
                immediates: 1,
                blocks: 0,
            }),
            InstructionFormat::UnaryImm => (Shape {
                values: 0,
                value_list: false,
                typevar_operand: None,
                immediates: 1,
                blocks: 0,
            }),
        }
    }

    /// What the format holds.
    #[verifier::when_used_as_spec(spec_shape)]
    pub fn shape(self) -> (s: Shape)
        ensures
            s == self.spec_shape(),
    {
        match self {
            InstructionFormat::AtomicCas => (Shape {
                values: 3,
                value_list: false,
                typevar_operand: Some(2),
                immediates: 1,
                blocks: 0,
            }),
            InstructionFormat::AtomicRmw => (Shape {
                values: 2,
                value_list: false,
                typevar_operand: Some(0),
                immediates: 2,
                blocks: 0,
            }),
            InstructionFormat::Binary => (Shape {
                values: 2,
                value_list: false,
                typevar_operand: Some(0),
                immediates: 0,
                blocks: 0,
            }),
            InstructionFormat::BinaryImm64 => (Shape {
                values: 1,
                value_list: false,
                typevar_operand: Some(0),
                immediates: 1,
                blocks: 0,
            }),
            InstructionFormat::BinaryImm8 => (Shape {
                values: 1,
                value_list: false,
                typevar_operand: Some(0),
                immediates: 1,
                blocks: 0,
            }),
            InstructionFormat::BranchTable => (Shape {
                values: 1,
                value_list: false,
                typevar_operand: Some(0),
                immediates: 1,
                blocks: 0,
            }),
            InstructionFormat::Brif => (Shape {
                values: 1,
                value_list: false,
                typevar_operand: Some(0),
                immediates: 0,
                blocks: 2,
            }),
            InstructionFormat::Call => (Shape {
                values: 0,
                value_list: true,
                typevar_operand: None,
                immediates: 1,
                blocks: 0,
            }),
            InstructionFormat::CallIndirect => (Shape {
                values: 1,
                value_list: true,
                typevar_operand: Some(0),
                immediates: 1,
                blocks: 0,
            }),
            InstructionFormat::CondTrap => (Shape {
                values: 1,
                value_list: false,
                typevar_operand: Some(0),
                immediates: 1,
                blocks: 0,
            }),
            InstructionFormat::DynamicStackLoad => (Shape {
                values: 0,
                value_list: false,
                typevar_operand: None,
                immediates: 1,
                blocks: 0,
            }),
            InstructionFormat::DynamicStackStore => (Shape {
                values: 1,
                value_list: false,
                typevar_operand: Some(0),
                immediates: 1,
                blocks: 0,
            }),
            InstructionFormat::FloatCompare => (Shape {
                values: 2,
                value_list: false,
                typevar_operand: Some(0),
                immediates: 1,
                blocks: 0,
            }),
            InstructionFormat::FuncAddr => (Shape {
                values: 0,
                value_list: false,
                typevar_operand: None,
                immediates: 1,
                blocks: 0,
            }),
            InstructionFormat::IntAddTrap => (Shape {
                values: 2,
                value_list: false,
                typevar_operand: Some(0),
                immediates: 1,
                blocks: 0,
            }),
            InstructionFormat::IntCompare => (Shape {
                values: 2,
                value_list: false,
                typevar_operand: Some(0),
                immediates: 1,
                blocks: 0,
            }),
            InstructionFormat::IntCompareImm => (Shape {
                values: 1,
                value_list: false,
                typevar_operand: Some(0),
                immediates: 2,
                blocks: 0,
            }),
            InstructionFormat::Jump => (Shape {
                values: 0,
                value_list: false,
                typevar_operand: None,
                immediates: 0,
                blocks: 1,
            }),
            InstructionFormat::Load => (Shape {
                values: 1,
                value_list: false,
                typevar_operand: Some(0),
                immediates: 2,
                blocks: 0,
            }),
            InstructionFormat::LoadNoOffset => (Shape {
                values: 1,
                value_list: false,
                typevar_operand: Some(0),
                immediates: 1,
                blocks: 0,
            }),
            InstructionFormat::MultiAry => (Shape {
                values: 0,
                value_list: true,
                typevar_operand: None,
                immediates: 0,
                blocks: 0,
            }),
            InstructionFormat::NullAry => (Shape {
                values: 0,
                value_list: false,
                typevar_operand: None,
                immediates: 0,
                blocks: 0,
            }),
            InstructionFormat::Shuffle => (Shape {
                values: 2,
                value_list: false,
                typevar_operand: Some(0),
                immediates: 1,
                blocks: 0,
            }),
            InstructionFormat::StackLoad => (Shape {
                values: 0,
                value_list: false,
                typevar_operand: None,
                immediates: 2,
                blocks: 0,
            }),
            InstructionFormat::StackStore => (Shape {
                values: 1,
                value_list: false,
                typevar_operand: Some(0),
                immediates: 2,
                blocks: 0,
            }),
            InstructionFormat::Store => (Shape {
                values: 2,
                value_list: false,
                typevar_operand: Some(0),
                immediates: 2,
                blocks: 0,
            }),
            InstructionFormat::StoreNoOffset => (Shape {
                values: 2,
                value_list: false,
                typevar_operand: Some(0),
                immediates: 1,
                blocks: 0,
            }),
            InstructionFormat::TableAddr => (Shape {
                values: 1,
                value_list: false,
                typevar_operand: Some(0),
                immediates: 2,
                blocks: 0,
            }),
            InstructionFormat::Ternary => (Shape {
                values: 3,
                value_list: false,
                typevar_operand: Some(1),
                immediates: 0,
                blocks: 0,
            }),
            InstructionFormat::TernaryImm8 => (Shape {
                values: 2,
                value_list: false,
                typevar_operand: Some(0),
                immediates: 1,
                blocks: 0,
            }),
            InstructionFormat::Trap => (Shape {
                values: 0,
                value_list: false,
                typevar_operand: None,
                immediates: 1,
                blocks: 0,
            }),
            InstructionFormat::Unary => (Shape {
                values: 1,
                value_list: false,
                typevar_operand: Some(0),
                immediates: 0,
                blocks: 0,
            }),
            InstructionFormat::UnaryConst => (Shape {
                values: 0,
                value_list: false,
                typevar_operand: None,
                immediates: 1,
                blocks: 0,
            }),
            InstructionFormat::UnaryGlobalValue => (Shape {
                values: 0,
                value_list: false,
                typevar_operand: None,
                immediates: 1,
                blocks: 0,
            }),
            InstructionFormat::UnaryIeee32 => (Shape {
                values: 0,
                value_list: false,
                typevar_operand: None,
                immediates: 1,
                blocks: 0,
            }),
            InstructionFormat::UnaryIeee64 => (Shape {
                values: 0,
                value_list: false,
                typevar_operand: None,
                immediates: 1,
                blocks: 0,
            }),
            InstructionFormat::UnaryImm => (Shape {
                values: 0,
                value_list: false,
                typevar_operand: None,
                immediates: 1,
                blocks: 0,
            }),
        }
    }
}

impl Opcode {
    /// The format of the instructions with this opcode.
    pub open spec fn spec_format(self) -> InstructionFormat {
        match self {
            Opcode::Jump => InstructionFormat::Jump,
            Opcode::Brif => InstructionFormat::Brif,
            Opcode::BrTable => InstructionFormat::BranchTable,
            Opcode::Debugtrap => InstructionFormat::NullAry,
            Opcode::Trap => InstructionFormat::Trap,
            Opcode::Trapz => InstructionFormat::CondTrap,
            Opcode::ResumableTrap => InstructionFormat::Trap,
            Opcode::Trapnz => InstructionFormat::CondTrap,
            Opcode::ResumableTrapnz => InstructionFormat::CondTrap,
            Opcode::Return => InstructionFormat::MultiAry,
            Opcode::Call => InstructionFormat::Call,
            Opcode::CallIndirect => InstructionFormat::CallIndirect,
            Opcode::ReturnCall => InstructionFormat::Call,
            Opcode::ReturnCallIndirect => InstructionFormat::CallIndirect,
            Opcode::FuncAddr => InstructionFormat::FuncAddr,
            Opcode::Splat => InstructionFormat::Unary,
            Opcode::Swizzle => InstructionFormat::Binary,
            Opcode::Insertlane => InstructionFormat::TernaryImm8,
            Opcode::Extractlane => InstructionFormat::BinaryImm8,
            Opcode::Smin => InstructionFormat::Binary,
            Opcode::Umin => InstructionFormat::Binary,
            Opcode::Smax => InstructionFormat::Binary,
            Opcode::Umax => InstructionFormat::Binary,
            Opcode::AvgRound => InstructionFormat::Binary,
            Opcode::UaddSat => InstructionFormat::Binary,
            Opcode::SaddSat => InstructionFormat::Binary,
            Opcode::UsubSat => InstructionFormat::Binary,
            Opcode::SsubSat => InstructionFormat::Binary,
            Opcode::Load => InstructionFormat::Load,
            Opcode::Store => InstructionFormat::Store,
            Opcode::Uload8 => InstructionFormat::Load,
            Opcode::Sload8 => InstructionFormat::Load,
            Opcode::Istore8 => InstructionFormat::Store,
            Opcode::Uload16 => InstructionFormat::Load,
            Opcode::Sload16 => InstructionFormat::Load,
            Opcode::Istore16 => InstructionFormat::Store,
            Opcode::Uload32 => InstructionFormat::Load,
            Opcode::Sload32 => InstructionFormat::Load,
            Opcode::Istore32 => InstructionFormat::Store,
            Opcode::Uload8x8 => InstructionFormat::Load,
            Opcode::Sload8x8 => InstructionFormat::Load,
            Opcode::Uload16x4 => InstructionFormat::Load,
            Opcode::Sload16x4 => InstructionFormat::Load,
            Opcode::Uload32x2 => InstructionFormat::Load,
            Opcode::Sload32x2 => InstructionFormat::Load,
            Opcode::StackLoad => InstructionFormat::StackLoad,
            Opcode::StackStore => InstructionFormat::StackStore,
            Opcode::StackAddr => InstructionFormat::StackLoad,
            Opcode::DynamicStackLoad => InstructionFormat::DynamicStackLoad,
            Opcode::DynamicStackStore => InstructionFormat::DynamicStackStore,
            Opcode::DynamicStackAddr => InstructionFormat::DynamicStackLoad,
            Opcode::GlobalValue => InstructionFormat::UnaryGlobalValue,
            Opcode::SymbolValue => InstructionFormat::UnaryGlobalValue,
            Opcode::TlsValue => InstructionFormat::UnaryGlobalValue,
            Opcode::GetPinnedReg => InstructionFormat::NullAry,
            Opcode::SetPinnedReg => InstructionFormat::Unary,
            Opcode::GetFramePointer => InstructionFormat::NullAry,
            Opcode::GetStackPointer => InstructionFormat::NullAry,
            Opcode::GetReturnAddress => InstructionFormat::NullAry,
            Opcode::TableAddr => InstructionFormat::TableAddr,
            Opcode::Iconst => InstructionFormat::UnaryImm,
            Opcode::F32const => InstructionFormat::UnaryIeee32,
            Opcode::F64const => InstructionFormat::UnaryIeee64,
            Opcode::Vconst => InstructionFormat::UnaryConst,
            Opcode::Shuffle => InstructionFormat::Shuffle,
            Opcode::Null => InstructionFormat::NullAry,
            Opcode::Nop => InstructionFormat::NullAry,
            Opcode::Select => InstructionFormat::Ternary,
            Opcode::SelectSpectreGuard => InstructionFormat::Ternary,
            Opcode::Bitselect => InstructionFormat::Ternary,
            Opcode::Vselect => InstructionFormat::Ternary,
            Opcode::VanyTrue => InstructionFormat::Unary,
            Opcode::VallTrue => InstructionFormat::Unary,
            Opcode::VhighBits => InstructionFormat::Unary,
            Opcode::Icmp => InstructionFormat::IntCompare,
            Opcode::IcmpImm => InstructionFormat::IntCompareImm,
            Opcode::Iadd => InstructionFormat::Binary,
            Opcode::Isub => InstructionFormat::Binary,
            Opcode::Ineg => InstructionFormat::Unary,
            Opcode::Iabs => InstructionFormat::Unary,
            Opcode::Imul => InstructionFormat::Binary,
            Opcode::Umulhi => InstructionFormat::Binary,
            Opcode::Smulhi => InstructionFormat::Binary,
            Opcode::SqmulRoundSat => InstructionFormat::Binary,
            Opcode::Udiv => InstructionFormat::Binary,
            Opcode::Sdiv => InstructionFormat::Binary,
            Opcode::Urem => InstructionFormat::Binary,
            Opcode::Srem => InstructionFormat::Binary,
            Opcode::IaddImm => InstructionFormat::BinaryImm64,
            Opcode::ImulImm => InstructionFormat::BinaryImm64,
            Opcode::UdivImm => InstructionFormat::BinaryImm64,
            Opcode::SdivImm => InstructionFormat::BinaryImm64,
            Opcode::UremImm => InstructionFormat::BinaryImm64,
            Opcode::SremImm => InstructionFormat::BinaryImm64,
            Opcode::IrsubImm => InstructionFormat::BinaryImm64,
            Opcode::IaddCin => InstructionFormat::Ternary,
            Opcode::IaddCout => InstructionFormat::Binary,
            Opcode::IaddCarry => InstructionFormat::Ternary,
            Opcode::UaddOverflowTrap => InstructionFormat::IntAddTrap,
            Opcode::IsubBin => InstructionFormat::Ternary,
            Opcode::IsubBout => InstructionFormat::Binary,
            Opcode::IsubBorrow => InstructionFormat::Ternary,
            Opcode::Band => InstructionFormat::Binary,
            Opcode::Bor => InstructionFormat::Binary,
            Opcode::Bxor => InstructionFormat::Binary,
            Opcode::Bnot => InstructionFormat::Unary,
            Opcode::BandNot => InstructionFormat::Binary,
            Opcode::BorNot => InstructionFormat::Binary,
            Opcode::BxorNot => InstructionFormat::Binary,
            Opcode::BandImm => InstructionFormat::BinaryImm64,
            Opcode::BorImm => InstructionFormat::BinaryImm64,
            Opcode::BxorImm => InstructionFormat::BinaryImm64,
            Opcode::Rotl => InstructionFormat::Binary,
            Opcode::Rotr => InstructionFormat::Binary,
            Opcode::RotlImm => InstructionFormat::BinaryImm64,
            Opcode::RotrImm => InstructionFormat::BinaryImm64,
            Opcode::Ishl => InstructionFormat::Binary,
            Opcode::Ushr => InstructionFormat::Binary,
            Opcode::Sshr => InstructionFormat::Binary,
            Opcode::IshlImm => InstructionFormat::BinaryImm64,
            Opcode::UshrImm => InstructionFormat::BinaryImm64,
            Opcode::SshrImm => InstructionFormat::BinaryImm64,
            Opcode::Bitrev => InstructionFormat::Unary,
            Opcode::Clz => InstructionFormat::Unary,
            Opcode::Cls => InstructionFormat::Unary,
            Opcode::Ctz => InstructionFormat::Unary,
            Opcode::Bswap => InstructionFormat::Unary,
            Opcode::Popcnt => InstructionFormat::Unary,
            Opcode::Fcmp => InstructionFormat::FloatCompare,
            Opcode::Fadd => InstructionFormat::Binary,
            Opcode::Fsub => InstructionFormat::Binary,
            Opcode::Fmul => InstructionFormat::Binary,
            Opcode::Fdiv => InstructionFormat::Binary,
            Opcode::Sqrt => InstructionFormat::Unary,
            Opcode::Fma => InstructionFormat::Ternary,
            Opcode::Fneg => InstructionFormat::Unary,
            Opcode::Fabs => InstructionFormat::Unary,
            Opcode::Fcopysign => InstructionFormat::Binary,
            Opcode::Fmin => InstructionFormat::Binary,
            Opcode::FminPseudo => InstructionFormat::Binary,
            Opcode::Fmax => InstructionFormat::Binary,
            Opcode::FmaxPseudo => InstructionFormat::Binary,
            Opcode::Ceil => InstructionFormat::Unary,
            Opcode::Floor => InstructionFormat::Unary,
            Opcode::Trunc => InstructionFormat::Unary,
            Opcode::Nearest => InstructionFormat::Unary,
            Opcode::IsNull => InstructionFormat::Unary,
            Opcode::IsInvalid => InstructionFormat::Unary,
            Opcode::Bitcast => InstructionFormat::LoadNoOffset,
            Opcode::ScalarToVector => InstructionFormat::Unary,
            Opcode::Bmask => InstructionFormat::Unary,
            Opcode::Ireduce => InstructionFormat::Unary,
            Opcode::Snarrow => InstructionFormat::Binary,
            Opcode::Unarrow => InstructionFormat::Binary,
            Opcode::Uunarrow => InstructionFormat::Binary,
            Opcode::SwidenLow => InstructionFormat::Unary,
            Opcode::SwidenHigh => InstructionFormat::Unary,
            Opcode::UwidenLow => InstructionFormat::Unary,
            Opcode::UwidenHigh => InstructionFormat::Unary,
            Opcode::IaddPairwise => InstructionFormat::Binary,
            Opcode::Uextend => InstructionFormat::Unary,
            Opcode::Sextend => InstructionFormat::Unary,
            Opcode::Fpromote => InstructionFormat::Unary,
            Opcode::Fdemote => InstructionFormat::Unary,
            Opcode::Fvdemote => InstructionFormat::Unary,
            Opcode::FvpromoteLow => InstructionFormat::Unary,
            Opcode::FcvtToUint => InstructionFormat::Unary,
            Opcode::FcvtToSint => InstructionFormat::Unary,
            Opcode::FcvtToUintSat => InstructionFormat::Unary,
            Opcode::FcvtToSintSat => InstructionFormat::Unary,
            Opcode::FcvtFromUint => InstructionFormat::Unary,
            Opcode::FcvtFromSint => InstructionFormat::Unary,
            Opcode::FcvtLowFromSint => InstructionFormat::Unary,
            Opcode::Isplit => InstructionFormat::Unary,
            Opcode::Iconcat => InstructionFormat::Binary,
            Opcode::AtomicRmw => InstructionFormat::AtomicRmw,
            Opcode::AtomicCas => InstructionFormat::AtomicCas,
            Opcode::AtomicLoad => InstructionFormat::LoadNoOffset,
            Opcode::AtomicStore => InstructionFormat::StoreNoOffset,
            Opcode::Fence => InstructionFormat::NullAry,
            Opcode::ExtractVector => InstructionFormat::BinaryImm8,
        }
    }

    /// The format of the instructions with this opcode.
    #[verifier::when_used_as_spec(spec_format)]
    pub fn format(self) -> (f: InstructionFormat)
        ensures
            f == self.spec_format(),
    {
        match self {
            Opcode::Jump => InstructionFormat::Jump,
            Opcode::Brif => InstructionFormat::Brif,
            Opcode::BrTable => InstructionFormat::BranchTable,
            Opcode::Debugtrap => InstructionFormat::NullAry,
            Opcode::Trap => InstructionFormat::Trap,
            Opcode::Trapz => InstructionFormat::CondTrap,
            Opcode::ResumableTrap => InstructionFormat::Trap,
            Opcode::Trapnz => InstructionFormat::CondTrap,
            Opcode::ResumableTrapnz => InstructionFormat::CondTrap,
            Opcode::Return => InstructionFormat::MultiAry,
            Opcode::Call => InstructionFormat::Call,
            Opcode::CallIndirect => InstructionFormat::CallIndirect,
            Opcode::ReturnCall => InstructionFormat::Call,
            Opcode::ReturnCallIndirect => InstructionFormat::CallIndirect,
            Opcode::FuncAddr => InstructionFormat::FuncAddr,
            Opcode::Splat => InstructionFormat::Unary,
            Opcode::Swizzle => InstructionFormat::Binary,
            Opcode::Insertlane => InstructionFormat::TernaryImm8,
            Opcode::Extractlane => InstructionFormat::BinaryImm8,
            Opcode::Smin => InstructionFormat::Binary,
            Opcode::Umin => InstructionFormat::Binary,
            Opcode::Smax => InstructionFormat::Binary,
            Opcode::Umax => InstructionFormat::Binary,
            Opcode::AvgRound => InstructionFormat::Binary,
            Opcode::UaddSat => InstructionFormat::Binary,
            Opcode::SaddSat => InstructionFormat::Binary,
            Opcode::UsubSat => InstructionFormat::Binary,
            Opcode::SsubSat => InstructionFormat::Binary,
            Opcode::Load => InstructionFormat::Load,
            Opcode::Store => InstructionFormat::Store,
            Opcode::Uload8 => InstructionFormat::Load,
            Opcode::Sload8 => InstructionFormat::Load,
            Opcode::Istore8 => InstructionFormat::Store,
            Opcode::Uload16 => InstructionFormat::Load,
            Opcode::Sload16 => InstructionFormat::Load,
            Opcode::Istore16 => InstructionFormat::Store,
            Opcode::Uload32 => InstructionFormat::Load,
            Opcode::Sload32 => InstructionFormat::Load,
            Opcode::Istore32 => InstructionFormat::Store,
            Opcode::Uload8x8 => InstructionFormat::Load,
            Opcode::Sload8x8 => InstructionFormat::Load,
            Opcode::Uload16x4 => InstructionFormat::Load,
            Opcode::Sload16x4 => InstructionFormat::Load,
            Opcode::Uload32x2 => InstructionFormat::Load,
            Opcode::Sload32x2 => InstructionFormat::Load,
            Opcode::StackLoad => InstructionFormat::StackLoad,
            Opcode::StackStore => InstructionFormat::StackStore,
            Opcode::StackAddr => InstructionFormat::StackLoad,
            Opcode::DynamicStackLoad => InstructionFormat::DynamicStackLoad,
            Opcode::DynamicStackStore => InstructionFormat::DynamicStackStore,
            Opcode::DynamicStackAddr => InstructionFormat::DynamicStackLoad,
            Opcode::GlobalValue => InstructionFormat::UnaryGlobalValue,
            Opcode::SymbolValue => InstructionFormat::UnaryGlobalValue,
            Opcode::TlsValue => InstructionFormat::UnaryGlobalValue,
            Opcode::GetPinnedReg => InstructionFormat::NullAry,
            Opcode::SetPinnedReg => InstructionFormat::Unary,
            Opcode::GetFramePointer => InstructionFormat::NullAry,
            Opcode::GetStackPointer => InstructionFormat::NullAry,
            Opcode::GetReturnAddress => InstructionFormat::NullAry,
            Opcode::TableAddr => InstructionFormat::TableAddr,
            Opcode::Iconst => InstructionFormat::UnaryImm,
            Opcode::F32const => InstructionFormat::UnaryIeee32,
            Opcode::F64const => InstructionFormat::UnaryIeee64,
            Opcode::Vconst => InstructionFormat::UnaryConst,
            Opcode::Shuffle => InstructionFormat::Shuffle,
            Opcode::Null => InstructionFormat::NullAry,
            Opcode::Nop => InstructionFormat::NullAry,
            Opcode::Select => InstructionFormat::Ternary,
            Opcode::SelectSpectreGuard => InstructionFormat::Ternary,
            Opcode::Bitselect => InstructionFormat::Ternary,
            Opcode::Vselect => InstructionFormat::Ternary,
            Opcode::VanyTrue => InstructionFormat::Unary,
            Opcode::VallTrue => InstructionFormat::Unary,
            Opcode::VhighBits => InstructionFormat::Unary,
            Opcode::Icmp => InstructionFormat::IntCompare,
            Opcode::IcmpImm => InstructionFormat::IntCompareImm,
            Opcode::Iadd => InstructionFormat::Binary,
            Opcode::Isub => InstructionFormat::Binary,
            Opcode::Ineg => InstructionFormat::Unary,
            Opcode::Iabs => InstructionFormat::Unary,
            Opcode::Imul => InstructionFormat::Binary,
            Opcode::Umulhi => InstructionFormat::Binary,
            Opcode::Smulhi => InstructionFormat::Binary,
            Opcode::SqmulRoundSat => InstructionFormat::Binary,
            Opcode::Udiv => InstructionFormat::Binary,
            Opcode::Sdiv => InstructionFormat::Binary,
            Opcode::Urem => InstructionFormat::Binary,
            Opcode::Srem => InstructionFormat::Binary,
            Opcode::IaddImm => InstructionFormat::BinaryImm64,
            Opcode::ImulImm => InstructionFormat::BinaryImm64,
            Opcode::UdivImm => InstructionFormat::BinaryImm64,
            Opcode::SdivImm => InstructionFormat::BinaryImm64,
            Opcode::UremImm => InstructionFormat::BinaryImm64,
            Opcode::SremImm => InstructionFormat::BinaryImm64,
            Opcode::IrsubImm => InstructionFormat::BinaryImm64,
            Opcode::IaddCin => InstructionFormat::Ternary,
            Opcode::IaddCout => InstructionFormat::Binary,
            Opcode::IaddCarry => InstructionFormat::Ternary,
            Opcode::UaddOverflowTrap => InstructionFormat::IntAddTrap,
            Opcode::IsubBin => InstructionFormat::Ternary,
            Opcode::IsubBout => InstructionFormat::Binary,
            Opcode::IsubBorrow => InstructionFormat::Ternary,
            Opcode::Band => InstructionFormat::Binary,
            Opcode::Bor => InstructionFormat::Binary,
            Opcode::Bxor => InstructionFormat::Binary,
            Opcode::Bnot => InstructionFormat::Unary,
            Opcode::BandNot => InstructionFormat::Binary,
            Opcode::BorNot => InstructionFormat::Binary,
            Opcode::BxorNot => InstructionFormat::Binary,
            Opcode::BandImm => InstructionFormat::BinaryImm64,
            Opcode::BorImm => InstructionFormat::BinaryImm64,
            Opcode::BxorImm => InstructionFormat::BinaryImm64,
            Opcode::Rotl => InstructionFormat::Binary,
            Opcode::Rotr => InstructionFormat::Binary,
            Opcode::RotlImm => InstructionFormat::BinaryImm64,
            Opcode::RotrImm => InstructionFormat::BinaryImm64,
            Opcode::Ishl => InstructionFormat::Binary,
            Opcode::Ushr => InstructionFormat::Binary,
            Opcode::Sshr => InstructionFormat::Binary,
            Opcode::IshlImm => InstructionFormat::BinaryImm64,
            Opcode::UshrImm => InstructionFormat::BinaryImm64,
            Opcode::SshrImm => InstructionFormat::BinaryImm64,
            Opcode::Bitrev => InstructionFormat::Unary,
            Opcode::Clz => InstructionFormat::Unary,
            Opcode::Cls => InstructionFormat::Unary,
            Opcode::Ctz => InstructionFormat::Unary,
            Opcode::Bswap => InstructionFormat::Unary,
            Opcode::Popcnt => InstructionFormat::Unary,
            Opcode::Fcmp => InstructionFormat::FloatCompare,
            Opcode::Fadd => InstructionFormat::Binary,
            Opcode::Fsub => InstructionFormat::Binary,
            Opcode::Fmul => InstructionFormat::Binary,
            Opcode::Fdiv => InstructionFormat::Binary,
            Opcode::Sqrt => InstructionFormat::Unary,
            Opcode::Fma => InstructionFormat::Ternary,
            Opcode::Fneg => InstructionFormat::Unary,
            Opcode::Fabs => InstructionFormat::Unary,
            Opcode::Fcopysign => InstructionFormat::Binary,
            Opcode::Fmin => InstructionFormat::Binary,
            Opcode::FminPseudo => InstructionFormat::Binary,
            Opcode::Fmax => InstructionFormat::Binary,
            Opcode::FmaxPseudo => InstructionFormat::Binary,
            Opcode::Ceil => InstructionFormat::Unary,
            Opcode::Floor => InstructionFormat::Unary,
            Opcode::Trunc => InstructionFormat::Unary,
            Opcode::Nearest => InstructionFormat::Unary,
            Opcode::IsNull => InstructionFormat::Unary,
            Opcode::IsInvalid => InstructionFormat::Unary,
            Opcode::Bitcast => InstructionFormat::LoadNoOffset,
            Opcode::ScalarToVector => InstructionFormat::Unary,
            Opcode::Bmask => InstructionFormat::Unary,
            Opcode::Ireduce => InstructionFormat::Unary,
            Opcode::Snarrow => InstructionFormat::Binary,
            Opcode::Unarrow => InstructionFormat::Binary,
            Opcode::Uunarrow => InstructionFormat::Binary,
            Opcode::SwidenLow => InstructionFormat::Unary,
            Opcode::SwidenHigh => InstructionFormat::Unary,
            Opcode::UwidenLow => InstructionFormat::Unary,
            Opcode::UwidenHigh => InstructionFormat::Unary,
            Opcode::IaddPairwise => InstructionFormat::Binary,
            Opcode::Uextend => InstructionFormat::Unary,
            Opcode::Sextend => InstructionFormat::Unary,
            Opcode::Fpromote => InstructionFormat::Unary,
            Opcode::Fdemote => InstructionFormat::Unary,
            Opcode::Fvdemote => InstructionFormat::Unary,
            Opcode::FvpromoteLow => InstructionFormat::Unary,
            Opcode::FcvtToUint => InstructionFormat::Unary,
            Opcode::FcvtToSint => InstructionFormat::Unary,
            Opcode::FcvtToUintSat => InstructionFormat::Unary,
            Opcode::FcvtToSintSat => InstructionFormat::Unary,
            Opcode::FcvtFromUint => InstructionFormat::Unary,
            Opcode::FcvtFromSint => InstructionFormat::Unary,
            Opcode::FcvtLowFromSint => InstructionFormat::Unary,
            Opcode::Isplit => InstructionFormat::Unary,
            Opcode::Iconcat => InstructionFormat::Binary,
            Opcode::AtomicRmw => InstructionFormat::AtomicRmw,
            Opcode::AtomicCas => InstructionFormat::AtomicCas,
            Opcode::AtomicLoad => InstructionFormat::LoadNoOffset,
            Opcode::AtomicStore => InstructionFormat::StoreNoOffset,
            Opcode::Fence => InstructionFormat::NullAry,
            Opcode::ExtractVector => InstructionFormat::BinaryImm8,
        }
    }
}

} // verus!
