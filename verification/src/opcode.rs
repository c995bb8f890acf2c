//! The opcodes of the instruction set and what is known of each without
//! looking at its operands.

use vstd::prelude::*;

verus! {

/// An instruction opcode.
///
/// Each variant is shown with the textual form of its instruction.
#[derive(Clone, Copy, Debug, PartialEq, Eq, Structural, Hash)]
pub enum Opcode {
    /// `jump block_call`.
    Jump,
    /// `brif c, block_then, block_else`.
    /// Type inferred from `c`.
    Brif,
    /// `br_table x, JT`.
    BrTable,
    /// `debugtrap`.
    Debugtrap,
    /// `trap code`.
    Trap,
    /// `trapz c, code`.
    /// Type inferred from `c`.
    Trapz,
    /// `resumable_trap code`.
    ResumableTrap,
    /// `trapnz c, code`.
    /// Type inferred from `c`.
    Trapnz,
    /// `resumable_trapnz c, code`.
    /// Type inferred from `c`.
    ResumableTrapnz,
    /// `return rvals`.
    Return,
    /// `rvals = call FN, args`.
    Call,
    /// `rvals = call_indirect SIG, callee, args`.
    /// Type inferred from `callee`.
    CallIndirect,
    /// `return_call FN, args`.
    ReturnCall,
    /// `return_call_indirect SIG, callee, args`.
    /// Type inferred from `callee`.
    ReturnCallIndirect,
    /// `addr = func_addr FN`.
    FuncAddr,
    /// `a = splat x`.
    Splat,
    /// `a = swizzle x, y`.
    Swizzle,
    /// `a = insertlane x, y, Idx`.
    /// Type inferred from `x`.
    Insertlane,
    /// `a = extractlane x, Idx`.
    /// Type inferred from `x`.
    Extractlane,
    /// `a = smin x, y`.
    /// Type inferred from `x`.
    Smin,
    /// `a = umin x, y`.
    /// Type inferred from `x`.
    Umin,
    /// `a = smax x, y`.
    /// Type inferred from `x`.
    Smax,
    /// `a = umax x, y`.
    /// Type inferred from `x`.
    Umax,
    /// `a = avg_round x, y`.
    /// Type inferred from `x`.
    AvgRound,
    /// `a = uadd_sat x, y`.
    /// Type inferred from `x`.
    UaddSat,
    /// `a = sadd_sat x, y`.
    /// Type inferred from `x`.
    SaddSat,
    /// `a = usub_sat x, y`.
    /// Type inferred from `x`.
    UsubSat,
    /// `a = ssub_sat x, y`.
    /// Type inferred from `x`.
    SsubSat,
    /// `a = load MemFlags, p, Offset`.
    Load,
    /// `store MemFlags, x, p, Offset`.
    /// Type inferred from `x`.
    Store,
    /// `a = uload8 MemFlags, p, Offset`.
    Uload8,
    /// `a = sload8 MemFlags, p, Offset`.
    Sload8,
    /// `istore8 MemFlags, x, p, Offset`.
    /// Type inferred from `x`.
    Istore8,
    /// `a = uload16 MemFlags, p, Offset`.
    Uload16,
    /// `a = sload16 MemFlags, p, Offset`.
    Sload16,
    /// `istore16 MemFlags, x, p, Offset`.
    /// Type inferred from `x`.
    Istore16,
    /// `a = uload32 MemFlags, p, Offset`.
    /// Type inferred from `p`.
    Uload32,
    /// `a = sload32 MemFlags, p, Offset`.
    /// Type inferred from `p`.
    Sload32,
    /// `istore32 MemFlags, x, p, Offset`.
    /// Type inferred from `x`.
    Istore32,
    /// `a = uload8x8 MemFlags, p, Offset`.
    /// Type inferred from `p`.
    Uload8x8,
    /// `a = sload8x8 MemFlags, p, Offset`.
    /// Type inferred from `p`.
    Sload8x8,
    /// `a = uload16x4 MemFlags, p, Offset`.
    /// Type inferred from `p`.
    Uload16x4,
    /// `a = sload16x4 MemFlags, p, Offset`.
    /// Type inferred from `p`.
    Sload16x4,
    /// `a = uload32x2 MemFlags, p, Offset`.
    /// Type inferred from `p`.
    Uload32x2,
    /// `a = sload32x2 MemFlags, p, Offset`.
    /// Type inferred from `p`.
    Sload32x2,
    /// `a = stack_load SS, Offset`.
    StackLoad,
    /// `stack_store x, SS, Offset`.
    /// Type inferred from `x`.
    StackStore,
    /// `addr = stack_addr SS, Offset`.
    StackAddr,
    /// `a = dynamic_stack_load DSS`.
    DynamicStackLoad,
    /// `dynamic_stack_store x, DSS`.
    /// Type inferred from `x`.
    DynamicStackStore,
    /// `addr = dynamic_stack_addr DSS`.
    DynamicStackAddr,
    /// `a = global_value GV`.
    GlobalValue,
    /// `a = symbol_value GV`.
    SymbolValue,
    /// `a = tls_value GV`.
    TlsValue,
    /// `addr = get_pinned_reg`.
    GetPinnedReg,
    /// `set_pinned_reg addr`.
    /// Type inferred from `addr`.
    SetPinnedReg,
    /// `addr = get_frame_pointer`.
    GetFramePointer,
    /// `addr = get_stack_pointer`.
    GetStackPointer,
    /// `addr = get_return_address`.
    GetReturnAddress,
    /// `addr = table_addr T, p, Offset`.
    TableAddr,
    /// `a = iconst N`.
    Iconst,
    /// `a = f32const N`.
    F32const,
    /// `a = f64const N`.
    F64const,
    /// `a = vconst N`.
    Vconst,
    /// `a = shuffle a, b, mask`.
    Shuffle,
    /// `a = null`.
    Null,
    /// `nop`.
    Nop,
    /// `a = select c, x, y`.
    /// Type inferred from `x`.
    Select,
    /// `a = select_spectre_guard c, x, y`.
    /// Type inferred from `x`.
    SelectSpectreGuard,
    /// `a = bitselect c, x, y`.
    /// Type inferred from `x`.
    Bitselect,
    /// `a = vselect c, x, y`.
    /// Type inferred from `x`.
    Vselect,
    /// `s = vany_true a`.
    /// Type inferred from `a`.
    VanyTrue,
    /// `s = vall_true a`.
    /// Type inferred from `a`.
    VallTrue,
    /// `x = vhigh_bits a`.
    VhighBits,
    /// `a = icmp Cond, x, y`.
    /// Type inferred from `x`.
    Icmp,
    /// `a = icmp_imm Cond, x, Y`.
    /// Type inferred from `x`.
    IcmpImm,
    /// `a = iadd x, y`.
    /// Type inferred from `x`.
    Iadd,
    /// `a = isub x, y`.
    /// Type inferred from `x`.
    Isub,
    /// `a = ineg x`.
    /// Type inferred from `x`.
    Ineg,
    /// `a = iabs x`.
    /// Type inferred from `x`.
    Iabs,
    /// `a = imul x, y`.
    /// Type inferred from `x`.
    Imul,
    /// `a = umulhi x, y`.
    /// Type inferred from `x`.
    Umulhi,
    /// `a = smulhi x, y`.
    /// Type inferred from `x`.
    Smulhi,
    /// `a = sqmul_round_sat x, y`.
    /// Type inferred from `x`.
    SqmulRoundSat,
    /// `a = udiv x, y`.
    /// Type inferred from `x`.
    Udiv,
    /// `a = sdiv x, y`.
    /// Type inferred from `x`.
    Sdiv,
    /// `a = urem x, y`.
    /// Type inferred from `x`.
    Urem,
    /// `a = srem x, y`.
    /// Type inferred from `x`.
    Srem,
    /// `a = iadd_imm x, Y`.
    /// Type inferred from `x`.
    IaddImm,
    /// `a = imul_imm x, Y`.
    /// Type inferred from `x`.
    ImulImm,
    /// `a = udiv_imm x, Y`.
    /// Type inferred from `x`.
    UdivImm,
    /// `a = sdiv_imm x, Y`.
    /// Type inferred from `x`.
    SdivImm,
    /// `a = urem_imm x, Y`.
    /// Type inferred from `x`.
    UremImm,
    /// `a = srem_imm x, Y`.
    /// Type inferred from `x`.
    SremImm,
    /// `a = irsub_imm x, Y`.
    /// Type inferred from `x`.
    IrsubImm,
    /// `a = iadd_cin x, y, c_in`.
    /// Type inferred from `y`.
    IaddCin,
    /// `a, c_out = iadd_cout x, y`.
    /// Type inferred from `x`.
    IaddCout,
    /// `a, c_out = iadd_carry x, y, c_in`.
    /// Type inferred from `y`.
    IaddCarry,
    /// `a = uadd_overflow_trap x, y, code`.
    /// Type inferred from `x`.
    UaddOverflowTrap,
    /// `a = isub_bin x, y, b_in`.
    /// Type inferred from `y`.
    IsubBin,
    /// `a, b_out = isub_bout x, y`.
    /// Type inferred from `x`.
    IsubBout,
    /// `a, b_out = isub_borrow x, y, b_in`.
    /// Type inferred from `y`.
    IsubBorrow,
    /// `a = band x, y`.
    /// Type inferred from `x`.
    Band,
    /// `a = bor x, y`.
    /// Type inferred from `x`.
    Bor,
    /// `a = bxor x, y`.
    /// Type inferred from `x`.
    Bxor,
    /// `a = bnot x`.
    /// Type inferred from `x`.
    Bnot,
    /// `a = band_not x, y`.
    /// Type inferred from `x`.
    BandNot,
    /// `a = bor_not x, y`.
    /// Type inferred from `x`.
    BorNot,
    /// `a = bxor_not x, y`.
    /// Type inferred from `x`.
    BxorNot,
    /// `a = band_imm x, Y`.
    /// Type inferred from `x`.
    BandImm,
    /// `a = bor_imm x, Y`.
    /// Type inferred from `x`.
    BorImm,
    /// `a = bxor_imm x, Y`.
    /// Type inferred from `x`.
    BxorImm,
    /// `a = rotl x, y`.
    /// Type inferred from `x`.
    Rotl,
    /// `a = rotr x, y`.
    /// Type inferred from `x`.
    Rotr,
    /// `a = rotl_imm x, Y`.
    /// Type inferred from `x`.
    RotlImm,
    /// `a = rotr_imm x, Y`.
    /// Type inferred from `x`.
    RotrImm,
    /// `a = ishl x, y`.
    /// Type inferred from `x`.
    Ishl,
    /// `a = ushr x, y`.
    /// Type inferred from `x`.
    Ushr,
    /// `a = sshr x, y`.
    /// Type inferred from `x`.
    Sshr,
    /// `a = ishl_imm x, Y`.
    /// Type inferred from `x`.
    IshlImm,
    /// `a = ushr_imm x, Y`.
    /// Type inferred from `x`.
    UshrImm,
    /// `a = sshr_imm x, Y`.
    /// Type inferred from `x`.
    SshrImm,
    /// `a = bitrev x`.
    /// Type inferred from `x`.
    Bitrev,
    /// `a = clz x`.
    /// Type inferred from `x`.
    Clz,
    /// `a = cls x`.
    /// Type inferred from `x`.
    Cls,
    /// `a = ctz x`.
    /// Type inferred from `x`.
    Ctz,
    /// `a = bswap x`.
    /// Type inferred from `x`.
    Bswap,
    /// `a = popcnt x`.
    /// Type inferred from `x`.
    Popcnt,
    /// `a = fcmp Cond, x, y`.
    /// Type inferred from `x`.
    Fcmp,
    /// `a = fadd x, y`.
    /// Type inferred from `x`.
    Fadd,
    /// `a = fsub x, y`.
    /// Type inferred from `x`.
    Fsub,
    /// `a = fmul x, y`.
    /// Type inferred from `x`.
    Fmul,
    /// `a = fdiv x, y`.
    /// Type inferred from `x`.
    Fdiv,
    /// `a = sqrt x`.
    /// Type inferred from `x`.
    Sqrt,
    /// `a = fma x, y, z`.
    /// Type inferred from `y`.
    Fma,
    /// `a = fneg x`.
    /// Type inferred from `x`.
    Fneg,
    /// `a = fabs x`.
    /// Type inferred from `x`.
    Fabs,
    /// `a = fcopysign x, y`.
    /// Type inferred from `x`.
    Fcopysign,
    /// `a = fmin x, y`.
    /// Type inferred from `x`.
    Fmin,
    /// `a = fmin_pseudo x, y`.
    /// Type inferred from `x`.
    FminPseudo,
    /// `a = fmax x, y`.
    /// Type inferred from `x`.
    Fmax,
    /// `a = fmax_pseudo x, y`.
    /// Type inferred from `x`.
    FmaxPseudo,
    /// `a = ceil x`.
    /// Type inferred from `x`.
    Ceil,
    /// `a = floor x`.
    /// Type inferred from `x`.
    Floor,
    /// `a = trunc x`.
    /// Type inferred from `x`.
    Trunc,
    /// `a = nearest x`.
    /// Type inferred from `x`.
    Nearest,
    /// `a = is_null x`.
    /// Type inferred from `x`.
    IsNull,
    /// `a = is_invalid x`.
    /// Type inferred from `x`.
    IsInvalid,
    /// `a = bitcast MemFlags, x`.
    Bitcast,
    /// `a = scalar_to_vector s`.
    ScalarToVector,
    /// `a = bmask x`.
    Bmask,
    /// `a = ireduce x`.
    Ireduce,
    /// `a = snarrow x, y`.
    /// Type inferred from `x`.
    Snarrow,
    /// `a = unarrow x, y`.
    /// Type inferred from `x`.
    Unarrow,
    /// `a = uunarrow x, y`.
    /// Type inferred from `x`.
    Uunarrow,
    /// `a = swiden_low x`.
    /// Type inferred from `x`.
    SwidenLow,
    /// `a = swiden_high x`.
    /// Type inferred from `x`.
    SwidenHigh,
    /// `a = uwiden_low x`.
    /// Type inferred from `x`.
    UwidenLow,
    /// `a = uwiden_high x`.
    /// Type inferred from `x`.
    UwidenHigh,
    /// `a = iadd_pairwise x, y`.
    /// Type inferred from `x`.
    IaddPairwise,
    /// `a = uextend x`.
    Uextend,
    /// `a = sextend x`.
    Sextend,
    /// `a = fpromote x`.
    Fpromote,
    /// `a = fdemote x`.
    Fdemote,
    /// `a = fvdemote x`.
    Fvdemote,
    /// `x = fvpromote_low a`.
    FvpromoteLow,
    /// `a = fcvt_to_uint x`.
    FcvtToUint,
    /// `a = fcvt_to_sint x`.
    FcvtToSint,
    /// `a = fcvt_to_uint_sat x`.
    FcvtToUintSat,
    /// `a = fcvt_to_sint_sat x`.
    FcvtToSintSat,
    /// `a = fcvt_from_uint x`.
    FcvtFromUint,
    /// `a = fcvt_from_sint x`.
    FcvtFromSint,
    /// `a = fcvt_low_from_sint x`.
    FcvtLowFromSint,
    /// `lo, hi = isplit x`.
    /// Type inferred from `x`.
    Isplit,
    /// `a = iconcat lo, hi`.
    /// Type inferred from `lo`.
    Iconcat,
    /// `a = atomic_rmw MemFlags, AtomicRmwOp, p, x`.
    AtomicRmw,
    /// `a = atomic_cas MemFlags, p, e, x`.
    /// Type inferred from `x`.
    AtomicCas,
    /// `a = atomic_load MemFlags, p`.
    AtomicLoad,
    /// `atomic_store MemFlags, x, p`.
    /// Type inferred from `x`.
    AtomicStore,
    /// `fence`.
    Fence,
    /// `a = extract_vector x, y`.
    /// Type inferred from `x`.
    ExtractVector,
}

/// Number of opcodes; their codes run from 1 to this number.
pub const OPCODE_COUNT: u8 = 181;

impl Opcode {
    /// The integer code of the opcode, from 1 up in the order of declaration.
    pub open spec fn spec_code(self) -> u8 {
        match self {
            Opcode::Jump => 1,
            Opcode::Brif => 2,
            Opcode::BrTable => 3,
            Opcode::Debugtrap => 4,
            Opcode::Trap => 5,
            Opcode::Trapz => 6,
            Opcode::ResumableTrap => 7,
            Opcode::Trapnz => 8,
            Opcode::ResumableTrapnz => 9,
            Opcode::Return => 10,
            Opcode::Call => 11,
            Opcode::CallIndirect => 12,
            Opcode::ReturnCall => 13,
            Opcode::ReturnCallIndirect => 14,
            Opcode::FuncAddr => 15,
            Opcode::Splat => 16,
            Opcode::Swizzle => 17,
            Opcode::Insertlane => 18,
            Opcode::Extractlane => 19,
            Opcode::Smin => 20,
            Opcode::Umin => 21,
            Opcode::Smax => 22,
            Opcode::Umax => 23,
            Opcode::AvgRound => 24,
            Opcode::UaddSat => 25,
            Opcode::SaddSat => 26,
            Opcode::UsubSat => 27,
            Opcode::SsubSat => 28,
            Opcode::Load => 29,
            Opcode::Store => 30,
            Opcode::Uload8 => 31,
            Opcode::Sload8 => 32,
            Opcode::Istore8 => 33,
            Opcode::Uload16 => 34,
            Opcode::Sload16 => 35,
            Opcode::Istore16 => 36,
            Opcode::Uload32 => 37,
            Opcode::Sload32 => 38,
            Opcode::Istore32 => 39,
            Opcode::Uload8x8 => 40,
            Opcode::Sload8x8 => 41,
            Opcode::Uload16x4 => 42,
            Opcode::Sload16x4 => 43,
            Opcode::Uload32x2 => 44,
            Opcode::Sload32x2 => 45,
            Opcode::StackLoad => 46,
            Opcode::StackStore => 47,
            Opcode::StackAddr => 48,
            Opcode::DynamicStackLoad => 49,
            Opcode::DynamicStackStore => 50,
            Opcode::DynamicStackAddr => 51,
            Opcode::GlobalValue => 52,
            Opcode::SymbolValue => 53,
            Opcode::TlsValue => 54,
            Opcode::GetPinnedReg => 55,
            Opcode::SetPinnedReg => 56,
            Opcode::GetFramePointer => 57,
            Opcode::GetStackPointer => 58,
            Opcode::GetReturnAddress => 59,
            Opcode::TableAddr => 60,
            Opcode::Iconst => 61,
            Opcode::F32const => 62,
            Opcode::F64const => 63,
            Opcode::Vconst => 64,
            Opcode::Shuffle => 65,
            Opcode::Null => 66,
            Opcode::Nop => 67,
            Opcode::Select => 68,
            Opcode::SelectSpectreGuard => 69,
            Opcode::Bitselect => 70,
            Opcode::Vselect => 71,
            Opcode::VanyTrue => 72,
            Opcode::VallTrue => 73,
            Opcode::VhighBits => 74,
            Opcode::Icmp => 75,
            Opcode::IcmpImm => 76,
            Opcode::Iadd => 77,
            Opcode::Isub => 78,
            Opcode::Ineg => 79,
            Opcode::Iabs => 80,
            Opcode::Imul => 81,
            Opcode::Umulhi => 82,
            Opcode::Smulhi => 83,
            Opcode::SqmulRoundSat => 84,
            Opcode::Udiv => 85,
            Opcode::Sdiv => 86,
            Opcode::Urem => 87,
            Opcode::Srem => 88,
            Opcode::IaddImm => 89,
            Opcode::ImulImm => 90,
            Opcode::UdivImm => 91,
            Opcode::SdivImm => 92,
            Opcode::UremImm => 93,
            Opcode::SremImm => 94,
            Opcode::IrsubImm => 95,
            Opcode::IaddCin => 96,
            Opcode::IaddCout => 97,
            Opcode::IaddCarry => 98,
            Opcode::UaddOverflowTrap => 99,
            Opcode::IsubBin => 100,
            Opcode::IsubBout => 101,
            Opcode::IsubBorrow => 102,
            Opcode::Band => 103,
            Opcode::Bor => 104,
            Opcode::Bxor => 105,
            Opcode::Bnot => 106,
            Opcode::BandNot => 107,
            Opcode::BorNot => 108,
            Opcode::BxorNot => 109,
            Opcode::BandImm => 110,
            Opcode::BorImm => 111,
            Opcode::BxorImm => 112,
            Opcode::Rotl => 113,
            Opcode::Rotr => 114,
            Opcode::RotlImm => 115,
            Opcode::RotrImm => 116,
            Opcode::Ishl => 117,
            Opcode::Ushr => 118,
            Opcode::Sshr => 119,
            Opcode::IshlImm => 120,
            Opcode::UshrImm => 121,
            Opcode::SshrImm => 122,
            Opcode::Bitrev => 123,
            Opcode::Clz => 124,
            Opcode::Cls => 125,
            Opcode::Ctz => 126,
            Opcode::Bswap => 127,
            Opcode::Popcnt => 128,
            Opcode::Fcmp => 129,
            Opcode::Fadd => 130,
            Opcode::Fsub => 131,
            Opcode::Fmul => 132,
            Opcode::Fdiv => 133,
            Opcode::Sqrt => 134,
            Opcode::Fma => 135,
            Opcode::Fneg => 136,
            Opcode::Fabs => 137,
            Opcode::Fcopysign => 138,
            Opcode::Fmin => 139,
            Opcode::FminPseudo => 140,
            Opcode::Fmax => 141,
            Opcode::FmaxPseudo => 142,
            Opcode::Ceil => 143,
            Opcode::Floor => 144,
            Opcode::Trunc => 145,
            Opcode::Nearest => 146,
            Opcode::IsNull => 147,
            Opcode::IsInvalid => 148,
            Opcode::Bitcast => 149,
            Opcode::ScalarToVector => 150,
            Opcode::Bmask => 151,
            Opcode::Ireduce => 152,
            Opcode::Snarrow => 153,
            Opcode::Unarrow => 154,
            Opcode::Uunarrow => 155,
            Opcode::SwidenLow => 156,
            Opcode::SwidenHigh => 157,
            Opcode::UwidenLow => 158,
            Opcode::UwidenHigh => 159,
            Opcode::IaddPairwise => 160,
            Opcode::Uextend => 161,
            Opcode::Sextend => 162,
            Opcode::Fpromote => 163,
            Opcode::Fdemote => 164,
            Opcode::Fvdemote => 165,
            Opcode::FvpromoteLow => 166,
            Opcode::FcvtToUint => 167,
            Opcode::FcvtToSint => 168,
            Opcode::FcvtToUintSat => 169,
            Opcode::FcvtToSintSat => 170,
            Opcode::FcvtFromUint => 171,
            Opcode::FcvtFromSint => 172,
            Opcode::FcvtLowFromSint => 173,
            Opcode::Isplit => 174,
            Opcode::Iconcat => 175,
            Opcode::AtomicRmw => 176,
            Opcode::AtomicCas => 177,
            Opcode::AtomicLoad => 178,
            Opcode::AtomicStore => 179,
            Opcode::Fence => 180,
            Opcode::ExtractVector => 181,
        }
    }

    /// The integer code of the opcode.
    #[verifier::when_used_as_spec(spec_code)]
    pub fn code(self) -> (c: u8)
        ensures
            c == self.spec_code(),
            1 <= c <= OPCODE_COUNT,
    {
        match self {
            Opcode::Jump => 1,
            Opcode::Brif => 2,
            Opcode::BrTable => 3,
            Opcode::Debugtrap => 4,
            Opcode::Trap => 5,
            Opcode::Trapz => 6,
            Opcode::ResumableTrap => 7,
            Opcode::Trapnz => 8,
            Opcode::ResumableTrapnz => 9,
            Opcode::Return => 10,
            Opcode::Call => 11,
            Opcode::CallIndirect => 12,
            Opcode::ReturnCall => 13,
            Opcode::ReturnCallIndirect => 14,
            Opcode::FuncAddr => 15,
            Opcode::Splat => 16,
            Opcode::Swizzle => 17,
            Opcode::Insertlane => 18,
            Opcode::Extractlane => 19,
            Opcode::Smin => 20,
            Opcode::Umin => 21,
            Opcode::Smax => 22,
            Opcode::Umax => 23,
            Opcode::AvgRound => 24,
            Opcode::UaddSat => 25,
            Opcode::SaddSat => 26,
            Opcode::UsubSat => 27,
            Opcode::SsubSat => 28,
            Opcode::Load => 29,
            Opcode::Store => 30,
            Opcode::Uload8 => 31,
            Opcode::Sload8 => 32,
            Opcode::Istore8 => 33,
            Opcode::Uload16 => 34,
            Opcode::Sload16 => 35,
            Opcode::Istore16 => 36,
            Opcode::Uload32 => 37,
            Opcode::Sload32 => 38,
            Opcode::Istore32 => 39,
            Opcode::Uload8x8 => 40,
            Opcode::Sload8x8 => 41,
            Opcode::Uload16x4 => 42,
            Opcode::Sload16x4 => 43,
            Opcode::Uload32x2 => 44,
            Opcode::Sload32x2 => 45,
            Opcode::StackLoad => 46,
            Opcode::StackStore => 47,
            Opcode::StackAddr => 48,
            Opcode::DynamicStackLoad => 49,
            Opcode::DynamicStackStore => 50,
            Opcode::DynamicStackAddr => 51,
            Opcode::GlobalValue => 52,
            Opcode::SymbolValue => 53,
            Opcode::TlsValue => 54,
            Opcode::GetPinnedReg => 55,
            Opcode::SetPinnedReg => 56,
            Opcode::GetFramePointer => 57,
            Opcode::GetStackPointer => 58,
            Opcode::GetReturnAddress => 59,
            Opcode::TableAddr => 60,
            Opcode::Iconst => 61,
            Opcode::F32const => 62,
            Opcode::F64const => 63,
            Opcode::Vconst => 64,
            Opcode::Shuffle => 65,
            Opcode::Null => 66,
            Opcode::Nop => 67,
            Opcode::Select => 68,
            Opcode::SelectSpectreGuard => 69,
            Opcode::Bitselect => 70,
            Opcode::Vselect => 71,
            Opcode::VanyTrue => 72,
            Opcode::VallTrue => 73,
            Opcode::VhighBits => 74,
            Opcode::Icmp => 75,
            Opcode::IcmpImm => 76,
            Opcode::Iadd => 77,
            Opcode::Isub => 78,
            Opcode::Ineg => 79,
            Opcode::Iabs => 80,
            Opcode::Imul => 81,
            Opcode::Umulhi => 82,
            Opcode::Smulhi => 83,
            Opcode::SqmulRoundSat => 84,
            Opcode::Udiv => 85,
            Opcode::Sdiv => 86,
            Opcode::Urem => 87,
            Opcode::Srem => 88,
            Opcode::IaddImm => 89,
            Opcode::ImulImm => 90,
            Opcode::UdivImm => 91,
            Opcode::SdivImm => 92,
            Opcode::UremImm => 93,
            Opcode::SremImm => 94,
            Opcode::IrsubImm => 95,
            Opcode::IaddCin => 96,
            Opcode::IaddCout => 97,
            Opcode::IaddCarry => 98,
            Opcode::UaddOverflowTrap => 99,
            Opcode::IsubBin => 100,
            Opcode::IsubBout => 101,
            Opcode::IsubBorrow => 102,
            Opcode::Band => 103,
            Opcode::Bor => 104,
            Opcode::Bxor => 105,
            Opcode::Bnot => 106,
            Opcode::BandNot => 107,
            Opcode::BorNot => 108,
            Opcode::BxorNot => 109,
            Opcode::BandImm => 110,
            Opcode::BorImm => 111,
            Opcode::BxorImm => 112,
            Opcode::Rotl => 113,
            Opcode::Rotr => 114,
            Opcode::RotlImm => 115,
            Opcode::RotrImm => 116,
            Opcode::Ishl => 117,
            Opcode::Ushr => 118,
            Opcode::Sshr => 119,
            Opcode::IshlImm => 120,
            Opcode::UshrImm => 121,
            Opcode::SshrImm => 122,
            Opcode::Bitrev => 123,
            Opcode::Clz => 124,
            Opcode::Cls => 125,
            Opcode::Ctz => 126,
            Opcode::Bswap => 127,
            Opcode::Popcnt => 128,
            Opcode::Fcmp => 129,
            Opcode::Fadd => 130,
            Opcode::Fsub => 131,
            Opcode::Fmul => 132,
            Opcode::Fdiv => 133,
            Opcode::Sqrt => 134,
            Opcode::Fma => 135,
            Opcode::Fneg => 136,
            Opcode::Fabs => 137,
            Opcode::Fcopysign => 138,
            Opcode::Fmin => 139,
            Opcode::FminPseudo => 140,
            Opcode::Fmax => 141,
            Opcode::FmaxPseudo => 142,
            Opcode::Ceil => 143,
            Opcode::Floor => 144,
            Opcode::Trunc => 145,
            Opcode::Nearest => 146,
            Opcode::IsNull => 147,
            Opcode::IsInvalid => 148,
            Opcode::Bitcast => 149,
            Opcode::ScalarToVector => 150,
            Opcode::Bmask => 151,
            Opcode::Ireduce => 152,
            Opcode::Snarrow => 153,
            Opcode::Unarrow => 154,
            Opcode::Uunarrow => 155,
            Opcode::SwidenLow => 156,
            Opcode::SwidenHigh => 157,
            Opcode::UwidenLow => 158,
            Opcode::UwidenHigh => 159,
            Opcode::IaddPairwise => 160,
            Opcode::Uextend => 161,
            Opcode::Sextend => 162,
            Opcode::Fpromote => 163,
            Opcode::Fdemote => 164,
            Opcode::Fvdemote => 165,
            Opcode::FvpromoteLow => 166,
            Opcode::FcvtToUint => 167,
            Opcode::FcvtToSint => 168,
            Opcode::FcvtToUintSat => 169,
            Opcode::FcvtToSintSat => 170,
            Opcode::FcvtFromUint => 171,
            Opcode::FcvtFromSint => 172,
            Opcode::FcvtLowFromSint => 173,
            Opcode::Isplit => 174,
            Opcode::Iconcat => 175,
            Opcode::AtomicRmw => 176,
            Opcode::AtomicCas => 177,
            Opcode::AtomicLoad => 178,
            Opcode::AtomicStore => 179,
            Opcode::Fence => 180,
            Opcode::ExtractVector => 181,
        }
    }

    /// The opcode with the code `c`, if there is one.
    pub fn from_code(c: u8) -> (op: Option<Opcode>)
        ensures
            op matches Some(o) ==> o.code() == c,
            op is None <==> !(1 <= c <= OPCODE_COUNT),
    {
        match c {
            1 => Some(Opcode::Jump),
            2 => Some(Opcode::Brif),
            3 => Some(Opcode::BrTable),
            4 => Some(Opcode::Debugtrap),
            5 => Some(Opcode::Trap),
            6 => Some(Opcode::Trapz),
            7 => Some(Opcode::ResumableTrap),
            8 => Some(Opcode::Trapnz),
            9 => Some(Opcode::ResumableTrapnz),
            10 => Some(Opcode::Return),
            11 => Some(Opcode::Call),
            12 => Some(Opcode::CallIndirect),
            13 => Some(Opcode::ReturnCall),
            14 => Some(Opcode::ReturnCallIndirect),
            15 => Some(Opcode::FuncAddr),
            16 => Some(Opcode::Splat),
            17 => Some(Opcode::Swizzle),
            18 => Some(Opcode::Insertlane),
            19 => Some(Opcode::Extractlane),
            20 => Some(Opcode::Smin),
            21 => Some(Opcode::Umin),
            22 => Some(Opcode::Smax),
            23 => Some(Opcode::Umax),
            24 => Some(Opcode::AvgRound),
            25 => Some(Opcode::UaddSat),
            26 => Some(Opcode::SaddSat),
            27 => Some(Opcode::UsubSat),
            28 => Some(Opcode::SsubSat),
            29 => Some(Opcode::Load),
            30 => Some(Opcode::Store),
            31 => Some(Opcode::Uload8),
            32 => Some(Opcode::Sload8),
            33 => Some(Opcode::Istore8),
            34 => Some(Opcode::Uload16),
            35 => Some(Opcode::Sload16),
            36 => Some(Opcode::Istore16),
            37 => Some(Opcode::Uload32),
            38 => Some(Opcode::Sload32),
            39 => Some(Opcode::Istore32),
            40 => Some(Opcode::Uload8x8),
            41 => Some(Opcode::Sload8x8),
            42 => Some(Opcode::Uload16x4),
            43 => Some(Opcode::Sload16x4),
            44 => Some(Opcode::Uload32x2),
            45 => Some(Opcode::Sload32x2),
            46 => Some(Opcode::StackLoad),
            47 => Some(Opcode::StackStore),
            48 => Some(Opcode::StackAddr),
            49 => Some(Opcode::DynamicStackLoad),
            50 => Some(Opcode::DynamicStackStore),
            51 => Some(Opcode::DynamicStackAddr),
            52 => Some(Opcode::GlobalValue),
            53 => Some(Opcode::SymbolValue),
            54 => Some(Opcode::TlsValue),
            55 => Some(Opcode::GetPinnedReg),
            56 => Some(Opcode::SetPinnedReg),
            57 => Some(Opcode::GetFramePointer),
            58 => Some(Opcode::GetStackPointer),
            59 => Some(Opcode::GetReturnAddress),
            60 => Some(Opcode::TableAddr),
            61 => Some(Opcode::Iconst),
            62 => Some(Opcode::F32const),
            63 => Some(Opcode::F64const),
            64 => Some(Opcode::Vconst),
            65 => Some(Opcode::Shuffle),
            66 => Some(Opcode::Null),
            67 => Some(Opcode::Nop),
            68 => Some(Opcode::Select),
            69 => Some(Opcode::SelectSpectreGuard),
            70 => Some(Opcode::Bitselect),
            71 => Some(Opcode::Vselect),
            72 => Some(Opcode::VanyTrue),
            73 => Some(Opcode::VallTrue),
            74 => Some(Opcode::VhighBits),
            75 => Some(Opcode::Icmp),
            76 => Some(Opcode::IcmpImm),
            77 => Some(Opcode::Iadd),
            78 => Some(Opcode::Isub),
            79 => Some(Opcode::Ineg),
            80 => Some(Opcode::Iabs),
            81 => Some(Opcode::Imul),
            82 => Some(Opcode::Umulhi),
            83 => Some(Opcode::Smulhi),
            84 => Some(Opcode::SqmulRoundSat),
            85 => Some(Opcode::Udiv),
            86 => Some(Opcode::Sdiv),
            87 => Some(Opcode::Urem),
            88 => Some(Opcode::Srem),
            89 => Some(Opcode::IaddImm),
            90 => Some(Opcode::ImulImm),
            91 => Some(Opcode::UdivImm),
            92 => Some(Opcode::SdivImm),
            93 => Some(Opcode::UremImm),
            94 => Some(Opcode::SremImm),
            95 => Some(Opcode::IrsubImm),
            96 => Some(Opcode::IaddCin),
            97 => Some(Opcode::IaddCout),
            98 => Some(Opcode::IaddCarry),
            99 => Some(Opcode::UaddOverflowTrap),
            100 => Some(Opcode::IsubBin),
            101 => Some(Opcode::IsubBout),
            102 => Some(Opcode::IsubBorrow),
            103 => Some(Opcode::Band),
            104 => Some(Opcode::Bor),
            105 => Some(Opcode::Bxor),
            106 => Some(Opcode::Bnot),
            107 => Some(Opcode::BandNot),
            108 => Some(Opcode::BorNot),
            109 => Some(Opcode::BxorNot),
            110 => Some(Opcode::BandImm),
            111 => Some(Opcode::BorImm),
            112 => Some(Opcode::BxorImm),
            113 => Some(Opcode::Rotl),
            114 => Some(Opcode::Rotr),
            115 => Some(Opcode::RotlImm),
            116 => Some(Opcode::RotrImm),
            117 => Some(Opcode::Ishl),
            118 => Some(Opcode::Ushr),
            119 => Some(Opcode::Sshr),
            120 => Some(Opcode::IshlImm),
            121 => Some(Opcode::UshrImm),
            122 => Some(Opcode::SshrImm),
            123 => Some(Opcode::Bitrev),
            124 => Some(Opcode::Clz),
            125 => Some(Opcode::Cls),
            126 => Some(Opcode::Ctz),
            127 => Some(Opcode::Bswap),
            128 => Some(Opcode::Popcnt),
            129 => Some(Opcode::Fcmp),
            130 => Some(Opcode::Fadd),
            131 => Some(Opcode::Fsub),
            132 => Some(Opcode::Fmul),
            133 => Some(Opcode::Fdiv),
            134 => Some(Opcode::Sqrt),
            135 => Some(Opcode::Fma),
            136 => Some(Opcode::Fneg),
            137 => Some(Opcode::Fabs),
            138 => Some(Opcode::Fcopysign),
            139 => Some(Opcode::Fmin),
            140 => Some(Opcode::FminPseudo),
            141 => Some(Opcode::Fmax),
            142 => Some(Opcode::FmaxPseudo),
            143 => Some(Opcode::Ceil),
            144 => Some(Opcode::Floor),
            145 => Some(Opcode::Trunc),
            146 => Some(Opcode::Nearest),
            147 => Some(Opcode::IsNull),
            148 => Some(Opcode::IsInvalid),
            149 => Some(Opcode::Bitcast),
            150 => Some(Opcode::ScalarToVector),
            151 => Some(Opcode::Bmask),
            152 => Some(Opcode::Ireduce),
            153 => Some(Opcode::Snarrow),
            154 => Some(Opcode::Unarrow),
            155 => Some(Opcode::Uunarrow),
            156 => Some(Opcode::SwidenLow),
            157 => Some(Opcode::SwidenHigh),
            158 => Some(Opcode::UwidenLow),
            159 => Some(Opcode::UwidenHigh),
            160 => Some(Opcode::IaddPairwise),
            161 => Some(Opcode::Uextend),
            162 => Some(Opcode::Sextend),
            163 => Some(Opcode::Fpromote),
            164 => Some(Opcode::Fdemote),
            165 => Some(Opcode::Fvdemote),
            166 => Some(Opcode::FvpromoteLow),
            167 => Some(Opcode::FcvtToUint),
            168 => Some(Opcode::FcvtToSint),
            169 => Some(Opcode::FcvtToUintSat),
            170 => Some(Opcode::FcvtToSintSat),
            171 => Some(Opcode::FcvtFromUint),
            172 => Some(Opcode::FcvtFromSint),
            173 => Some(Opcode::FcvtLowFromSint),
            174 => Some(Opcode::Isplit),
            175 => Some(Opcode::Iconcat),
            176 => Some(Opcode::AtomicRmw),
            177 => Some(Opcode::AtomicCas),
            178 => Some(Opcode::AtomicLoad),
            179 => Some(Opcode::AtomicStore),
            180 => Some(Opcode::Fence),
            181 => Some(Opcode::ExtractVector),
            _ => None,
        }
    }

    /// The opcodes that end a block.
    pub open spec fn terminator_opcodes() -> Set<Opcode> {
        set![
            Opcode::BrTable,
            Opcode::Brif,
            Opcode::Jump,
            Opcode::Return,
            Opcode::ReturnCall,
            Opcode::ReturnCallIndirect,
            Opcode::Trap,
        ]
    }

    /// Whether the instruction ends its block.
    pub open spec fn spec_is_terminator(self) -> bool {
        Opcode::terminator_opcodes().contains(self)
    }

    /// Whether the instruction ends its block.
    #[verifier::when_used_as_spec(spec_is_terminator)]
    pub fn is_terminator(self) -> (b: bool)
        ensures
            b == self.spec_is_terminator(),
    {
        match self {
            Opcode::BrTable
            | Opcode::Brif
            | Opcode::Jump
            | Opcode::Return
            | Opcode::ReturnCall
            | Opcode::ReturnCallIndirect
            | Opcode::Trap => true,
            _ => false,
        }
    }

    /// The opcodes that branch or jump.
    pub open spec fn branch_opcodes() -> Set<Opcode> {
        set![
            Opcode::BrTable,
            Opcode::Brif,
            Opcode::Jump,
        ]
    }

    /// Whether the instruction branches or jumps.
    pub open spec fn spec_is_branch(self) -> bool {
        Opcode::branch_opcodes().contains(self)
    }

    /// Whether the instruction branches or jumps.
    #[verifier::when_used_as_spec(spec_is_branch)]
    pub fn is_branch(self) -> (b: bool)
        ensures
            b == self.spec_is_branch(),
    {
        match self {
            Opcode::BrTable
            | Opcode::Brif
            | Opcode::Jump => true,
            _ => false,
        }
    }

    /// The opcodes that call a function.
    pub open spec fn call_opcodes() -> Set<Opcode> {
        set![
            Opcode::Call,
            Opcode::CallIndirect,
            Opcode::ReturnCall,
            Opcode::ReturnCallIndirect,
        ]
    }

    /// Whether the instruction calls a function.
    pub open spec fn spec_is_call(self) -> bool {
        Opcode::call_opcodes().contains(self)
    }

    /// Whether the instruction calls a function.
    #[verifier::when_used_as_spec(spec_is_call)]
    pub fn is_call(self) -> (b: bool)
        ensures
            b == self.spec_is_call(),
    {
        match self {
            Opcode::Call
            | Opcode::CallIndirect
            | Opcode::ReturnCall
            | Opcode::ReturnCallIndirect => true,
            _ => false,
        }
    }

    /// The opcodes that return from the function.
    pub open spec fn return_opcodes() -> Set<Opcode> {
        set![
            Opcode::Return,
            Opcode::ReturnCall,
            Opcode::ReturnCallIndirect,
        ]
    }

    /// Whether the instruction returns from the function.
    pub open spec fn spec_is_return(self) -> bool {
        Opcode::return_opcodes().contains(self)
    }

    /// Whether the instruction returns from the function.
    #[verifier::when_used_as_spec(spec_is_return)]
    pub fn is_return(self) -> (b: bool)
        ensures
            b == self.spec_is_return(),
    {
        match self {
            Opcode::Return
            | Opcode::ReturnCall
            | Opcode::ReturnCallIndirect => true,
            _ => false,
        }
    }

    /// The opcodes that may read memory.
    pub open spec fn load_opcodes() -> Set<Opcode> {
        set![
            Opcode::AtomicCas,
            Opcode::AtomicLoad,
            Opcode::AtomicRmw,
            Opcode::Debugtrap,
            Opcode::DynamicStackLoad,
            Opcode::Load,
            Opcode::Sload16,
            Opcode::Sload16x4,
            Opcode::Sload32,
            Opcode::Sload32x2,
            Opcode::Sload8,
            Opcode::Sload8x8,
            Opcode::StackLoad,
            Opcode::Uload16,
            Opcode::Uload16x4,
            Opcode::Uload32,
            Opcode::Uload32x2,
            Opcode::Uload8,
            Opcode::Uload8x8,
        ]
    }

    /// Whether the instruction may read memory.
    pub open spec fn spec_can_load(self) -> bool {
        Opcode::load_opcodes().contains(self)
    }

    /// Whether the instruction may read memory.
    #[verifier::when_used_as_spec(spec_can_load)]
    pub fn can_load(self) -> (b: bool)
        ensures
            b == self.spec_can_load(),
    {
        match self {
            Opcode::AtomicCas
            | Opcode::AtomicLoad
            | Opcode::AtomicRmw
            | Opcode::Debugtrap
            | Opcode::DynamicStackLoad
            | Opcode::Load
            | Opcode::Sload16
            | Opcode::Sload16x4
            | Opcode::Sload32
            | Opcode::Sload32x2
            | Opcode::Sload8
            | Opcode::Sload8x8
            | Opcode::StackLoad
            | Opcode::Uload16
            | Opcode::Uload16x4
            | Opcode::Uload32
            | Opcode::Uload32x2
            | Opcode::Uload8
            | Opcode::Uload8x8 => true,
            _ => false,
        }
    }

    /// The opcodes that may write memory.
    pub open spec fn store_opcodes() -> Set<Opcode> {
        set![
            Opcode::AtomicCas,
            Opcode::AtomicRmw,
            Opcode::AtomicStore,
            Opcode::Debugtrap,
            Opcode::DynamicStackStore,
            Opcode::Istore16,
            Opcode::Istore32,
            Opcode::Istore8,
            Opcode::StackStore,
            Opcode::Store,
        ]
    }

    /// Whether the instruction may write memory.
    pub open spec fn spec_can_store(self) -> bool {
        Opcode::store_opcodes().contains(self)
    }

    /// Whether the instruction may write memory.
    #[verifier::when_used_as_spec(spec_can_store)]
    pub fn can_store(self) -> (b: bool)
        ensures
            b == self.spec_can_store(),
    {
        match self {
            Opcode::AtomicCas
            | Opcode::AtomicRmw
            | Opcode::AtomicStore
            | Opcode::Debugtrap
            | Opcode::DynamicStackStore
            | Opcode::Istore16
            | Opcode::Istore32
            | Opcode::Istore8
            | Opcode::StackStore
            | Opcode::Store => true,
            _ => false,
        }
    }

    /// The opcodes that may trap.
    pub open spec fn trap_opcodes() -> Set<Opcode> {
        set![
            Opcode::FcvtToSint,
            Opcode::FcvtToUint,
            Opcode::ResumableTrap,
            Opcode::ResumableTrapnz,
            Opcode::Sdiv,
            Opcode::Srem,
            Opcode::Trap,
            Opcode::Trapnz,
            Opcode::Trapz,
            Opcode::UaddOverflowTrap,
            Opcode::Udiv,
            Opcode::Urem,
        ]
    }

    /// Whether the instruction may trap.
    pub open spec fn spec_can_trap(self) -> bool {
        Opcode::trap_opcodes().contains(self)
    }

    /// Whether the instruction may trap.
    #[verifier::when_used_as_spec(spec_can_trap)]
    pub fn can_trap(self) -> (b: bool)
        ensures
            b == self.spec_can_trap(),
    {
        match self {
            Opcode::FcvtToSint
            | Opcode::FcvtToUint
            | Opcode::ResumableTrap
            | Opcode::ResumableTrapnz
            | Opcode::Sdiv
            | Opcode::Srem
            | Opcode::Trap
            | Opcode::Trapnz
            | Opcode::Trapz
            | Opcode::UaddOverflowTrap
            | Opcode::Udiv
            | Opcode::Urem => true,
            _ => false,
        }
    }

    /// The opcodes with an effect that is no load, store or trap.
    pub open spec fn other_side_effect_opcodes() -> Set<Opcode> {
        set![
            Opcode::AtomicCas,
            Opcode::AtomicLoad,
            Opcode::AtomicRmw,
            Opcode::AtomicStore,
            Opcode::Debugtrap,
            Opcode::Fence,
            Opcode::GetPinnedReg,
            Opcode::SelectSpectreGuard,
            Opcode::SetPinnedReg,
        ]
    }

    /// Whether the instruction has an effect that is no load, store or trap.
    pub open spec fn spec_has_other_side_effects(self) -> bool {
        Opcode::other_side_effect_opcodes().contains(self)
    }

    /// Whether the instruction has an effect that is no load, store or trap.
    #[verifier::when_used_as_spec(spec_has_other_side_effects)]
    pub fn has_other_side_effects(self) -> (b: bool)
        ensures
            b == self.spec_has_other_side_effects(),
    {
        match self {
            Opcode::AtomicCas
            | Opcode::AtomicLoad
            | Opcode::AtomicRmw
            | Opcode::AtomicStore
            | Opcode::Debugtrap
            | Opcode::Fence
            | Opcode::GetPinnedReg
            | Opcode::SelectSpectreGuard
            | Opcode::SetPinnedReg => true,
            _ => false,
        }
    }

    /// The opcodes whose effects a second run with the same operands repeats unchanged.
    pub open spec fn idempotent_opcodes() -> Set<Opcode> {
        set![
            Opcode::FcvtToSint,
            Opcode::FcvtToUint,
            Opcode::Sdiv,
            Opcode::SelectSpectreGuard,
            Opcode::Srem,
            Opcode::UaddOverflowTrap,
            Opcode::Udiv,
            Opcode::Urem,
        ]
    }

    /// Whether an instruction with effects may still be merged with an equal one.
    pub open spec fn spec_is_idempotent_despite_side_effects(self) -> bool {
        Opcode::idempotent_opcodes().contains(self)
    }

    /// Whether an instruction with effects may still be merged with an equal one.
    #[verifier::when_used_as_spec(spec_is_idempotent_despite_side_effects)]
    pub fn is_idempotent_despite_side_effects(self) -> (b: bool)
        ensures
            b == self.spec_is_idempotent_despite_side_effects(),
    {
        match self {
            Opcode::FcvtToSint
            | Opcode::FcvtToUint
            | Opcode::Sdiv
            | Opcode::SelectSpectreGuard
            | Opcode::Srem
            | Opcode::UaddOverflowTrap
            | Opcode::Udiv
            | Opcode::Urem => true,
            _ => false,
        }
    }
}

/// What ends a block: the branches, the returns and the plain trap, and
/// nothing else. No branch is a return or a call.
pub proof fn lemma_terminators(opcode: Opcode)
    ensures
        opcode.is_terminator() <==> opcode.is_branch() || opcode.is_return() || opcode
            == Opcode::Trap,
        !(opcode.is_branch() && opcode.is_return()),
        !(opcode.is_branch() && opcode.is_call()),
{
}

/// The instructions that both call and return are the two tail calls.
pub proof fn lemma_tail_calls(opcode: Opcode)
    ensures
        opcode.is_call() && opcode.is_return() <==> opcode == Opcode::ReturnCall || opcode
            == Opcode::ReturnCallIndirect,
{
}

/// An instruction that ends a block touches no memory, and the only one that
/// may trap is the plain trap. A branch has no effect of any sort.
pub proof fn lemma_terminators_are_pure_control(opcode: Opcode)
    ensures
        opcode.is_terminator() ==> !opcode.can_load() && !opcode.can_store()
            && !opcode.has_other_side_effects(),
        opcode.is_terminator() && opcode.can_trap() ==> opcode == Opcode::Trap,
        opcode.is_branch() ==> !opcode.can_trap(),
{
}

/// Only an instruction with an effect is marked as idempotent despite it,
/// and none that touches memory, calls or ends a block.
pub proof fn lemma_idempotent_effects(opcode: Opcode)
    ensures
        opcode.is_idempotent_despite_side_effects() ==> opcode.can_trap()
            || opcode.has_other_side_effects(),
        opcode.is_idempotent_despite_side_effects() ==> !opcode.can_load() && !opcode.can_store()
            && !opcode.is_call() && !opcode.is_terminator(),
{
}

} // verus!
