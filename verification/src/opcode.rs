//! The operation codes of the assembly's binary serialization: one byte per operation.

use vstd::prelude::*;

verus! {

/// Operation codes of the assembly instructions, one per byte value, in the order of their
/// byte values (`Assert` is 0, `While` is 255).
#[derive(Copy, Clone, Debug, PartialEq, Eq, Structural)]
pub enum OpCode {
    Assert,
    AssertWithError,
    AssertEq,
    AssertEqWithError,
    AssertEqw,
    AssertEqwWithError,
    Assertz,
    AssertzWithError,
    Add,
    AddImm,
    Sub,
    SubImm,
    Mul,
    MulImm,
    Div,
    DivImm,
    Neg,
    Inv,
    Incr,
    Pow2,
    Exp,
    ExpImm,
    ExpBitLength,
    Not,
    And,
    Or,
    Xor,
    Eq,
    EqImm,
    Neq,
    NeqImm,
    Eqw,
    Lt,
    Lte,
    Gt,
    Gte,
    IsOdd,

    // ----- ext2 operations ----------------------------------------------------------------------
    Ext2Add,
    Ext2Sub,
    Ext2Mul,
    Ext2Div,
    Ext2Neg,
    Ext2Inv,

    // ----- u32 manipulation ---------------------------------------------------------------------
    U32Test,
    U32TestW,
    U32Assert,
    U32AssertWithError,
    U32Assert2,
    U32Assert2WithError,
    U32AssertW,
    U32AssertWWithError,
    U32Split,
    U32Cast,
    U32CheckedAdd,
    U32CheckedAddImm,
    U32WrappingAdd,
    U32WrappingAddImm,
    U32OverflowingAdd,
    U32OverflowingAddImm,
    U32OverflowingAdd3,
    U32WrappingAdd3,
    U32CheckedSub,
    U32CheckedSubImm,
    U32WrappingSub,
    U32WrappingSubImm,
    U32OverflowingSub,
    U32OverflowingSubImm,
    U32CheckedMul,
    U32CheckedMulImm,
    U32WrappingMul,
    U32WrappingMulImm,
    U32OverflowingMul,
    U32OverflowingMulImm,
    U32OverflowingMadd,
    U32WrappingMadd,
    U32CheckedDiv,
    U32CheckedDivImm,
    U32UncheckedDiv,
    U32UncheckedDivImm,
    U32CheckedMod,
    U32CheckedModImm,
    U32UncheckedMod,
    U32UncheckedModImm,
    U32CheckedDivMod,
    U32CheckedDivModImm,
    U32UncheckedDivMod,
    U32UncheckedDivModImm,
    U32CheckedAnd,
    U32CheckedOr,
    U32CheckedXor,
    U32CheckedNot,
    U32CheckedShr,
    U32CheckedShrImm,
    U32UncheckedShr,
    U32UncheckedShrImm,
    U32CheckedShl,
    U32CheckedShlImm,
    U32UncheckedShl,
    U32UncheckedShlImm,
    U32CheckedRotr,
    U32CheckedRotrImm,
    U32UncheckedRotr,
    U32UncheckedRotrImm,
    U32CheckedRotl,
    U32CheckedRotlImm,
    U32UncheckedRotl,
    U32UncheckedRotlImm,
    U32CheckedPopcnt,
    U32UncheckedPopcnt,
    U32CheckedEq,
    U32CheckedEqImm,
    U32CheckedNeq,
    U32CheckedNeqImm,
    U32CheckedLt,
    U32UncheckedLt,
    U32CheckedLte,
    U32UncheckedLte,
    U32CheckedGt,
    U32UncheckedGt,
    U32CheckedGte,
    U32UncheckedGte,
    U32CheckedMin,
    U32UncheckedMin,
    U32CheckedMax,
    U32UncheckedMax,

    // ----- stack manipulation -------------------------------------------------------------------
    Drop,
    DropW,
    PadW,
    Dup0,
    Dup1,
    Dup2,
    Dup3,
    Dup4,
    Dup5,
    Dup6,
    Dup7,
    Dup8,
    Dup9,
    Dup10,
    Dup11,
    Dup12,
    Dup13,
    Dup14,
    Dup15,
    DupW0,
    DupW1,
    DupW2,
    DupW3,
    Swap1,
    Swap2,
    Swap3,
    Swap4,
    Swap5,
    Swap6,
    Swap7,
    Swap8,
    Swap9,
    Swap10,
    Swap11,
    Swap12,
    Swap13,
    Swap14,
    Swap15,
    SwapW1,
    SwapW2,
    SwapW3,
    SwapDW,
    MovUp2,
    MovUp3,
    MovUp4,
    MovUp5,
    MovUp6,
    MovUp7,
    MovUp8,
    MovUp9,
    MovUp10,
    MovUp11,
    MovUp12,
    MovUp13,
    MovUp14,
    MovUp15,
    MovUpW2,
    MovUpW3,
    MovDn2,
    MovDn3,
    MovDn4,
    MovDn5,
    MovDn6,
    MovDn7,
    MovDn8,
    MovDn9,
    MovDn10,
    MovDn11,
    MovDn12,
    MovDn13,
    MovDn14,
    MovDn15,
    MovDnW2,
    MovDnW3,
    CSwap,
    CSwapW,
    CDrop,
    CDropW,

    // ----- input / output operations ------------------------------------------------------------
    PushU8,
    PushU16,
    PushU32,
    PushFelt,
    PushWord,
    PushU8List,
    PushU16List,
    PushU32List,
    PushFeltList,

    Locaddr,
    Sdepth,
    Caller,
    Clk,

    MemLoad,
    MemLoadImm,
    MemLoadW,
    MemLoadWImm,
    LocLoad,
    LocLoadW,
    MemStore,
    MemStoreImm,
    LocStore,
    MemStoreW,
    MemStoreWImm,
    LocStoreW,

    MemStream,
    AdvPipe,

    AdvPush,
    AdvLoadW,

    AdvInject,

    // ----- cryptographic operations -------------------------------------------------------------
    Hash,
    HMerge,
    HPerm,
    MTreeGet,
    MTreeSet,
    MTreeMerge,
    MTreeVerify,

    // ----- STARK proof verification -------------------------------------------------------------
    FriExt2Fold4,

    // ----- exec / call --------------------------------------------------------------------------
    ExecLocal,
    ExecImported,
    CallLocal,
    CallMastRoot,
    CallImported,
    SysCall,
    DynExec,
    DynCall,
    ProcRefLocal,
    ProcRefImported,

    // ----- debugging ----------------------------------------------------------------------------
    Debug,

    // ----- emit --------------------------------------------------------------------------------
    Emit,

    // ----- control flow -------------------------------------------------------------------------
    IfElse,
    Repeat,
    While,
}

/// The byte that encodes `op`.
pub open spec fn opcode_byte(op: OpCode) -> u8 {
    match op {
        OpCode::Assert => 0u8,
        OpCode::AssertWithError => 1u8,
        OpCode::AssertEq => 2u8,
        OpCode::AssertEqWithError => 3u8,
        OpCode::AssertEqw => 4u8,
        OpCode::AssertEqwWithError => 5u8,
        OpCode::Assertz => 6u8,
        OpCode::AssertzWithError => 7u8,
        OpCode::Add => 8u8,
        OpCode::AddImm => 9u8,
        OpCode::Sub => 10u8,
        OpCode::SubImm => 11u8,
        OpCode::Mul => 12u8,
        OpCode::MulImm => 13u8,
        OpCode::Div => 14u8,
        OpCode::DivImm => 15u8,
        OpCode::Neg => 16u8,
        OpCode::Inv => 17u8,
        OpCode::Incr => 18u8,
        OpCode::Pow2 => 19u8,
        OpCode::Exp => 20u8,
        OpCode::ExpImm => 21u8,
        OpCode::ExpBitLength => 22u8,
        OpCode::Not => 23u8,
        OpCode::And => 24u8,
        OpCode::Or => 25u8,
        OpCode::Xor => 26u8,
        OpCode::Eq => 27u8,
        OpCode::EqImm => 28u8,
        OpCode::Neq => 29u8,
        OpCode::NeqImm => 30u8,
        OpCode::Eqw => 31u8,
        OpCode::Lt => 32u8,
        OpCode::Lte => 33u8,
        OpCode::Gt => 34u8,
        OpCode::Gte => 35u8,
        OpCode::IsOdd => 36u8,
        OpCode::Ext2Add => 37u8,
        OpCode::Ext2Sub => 38u8,
        OpCode::Ext2Mul => 39u8,
        OpCode::Ext2Div => 40u8,
        OpCode::Ext2Neg => 41u8,
        OpCode::Ext2Inv => 42u8,
        OpCode::U32Test => 43u8,
        OpCode::U32TestW => 44u8,
        OpCode::U32Assert => 45u8,
        OpCode::U32AssertWithError => 46u8,
        OpCode::U32Assert2 => 47u8,
        OpCode::U32Assert2WithError => 48u8,
        OpCode::U32AssertW => 49u8,
        OpCode::U32AssertWWithError => 50u8,
        OpCode::U32Split => 51u8,
        OpCode::U32Cast => 52u8,
        OpCode::U32CheckedAdd => 53u8,
        OpCode::U32CheckedAddImm => 54u8,
        OpCode::U32WrappingAdd => 55u8,
        OpCode::U32WrappingAddImm => 56u8,
        OpCode::U32OverflowingAdd => 57u8,
        OpCode::U32OverflowingAddImm => 58u8,
        OpCode::U32OverflowingAdd3 => 59u8,
        OpCode::U32WrappingAdd3 => 60u8,
        OpCode::U32CheckedSub => 61u8,
        OpCode::U32CheckedSubImm => 62u8,
        OpCode::U32WrappingSub => 63u8,
        OpCode::U32WrappingSubImm => 64u8,
        OpCode::U32OverflowingSub => 65u8,
        OpCode::U32OverflowingSubImm => 66u8,
        OpCode::U32CheckedMul => 67u8,
        OpCode::U32CheckedMulImm => 68u8,
        OpCode::U32WrappingMul => 69u8,
        OpCode::U32WrappingMulImm => 70u8,
        OpCode::U32OverflowingMul => 71u8,
        OpCode::U32OverflowingMulImm => 72u8,
        OpCode::U32OverflowingMadd => 73u8,
        OpCode::U32WrappingMadd => 74u8,
        OpCode::U32CheckedDiv => 75u8,
        OpCode::U32CheckedDivImm => 76u8,
        OpCode::U32UncheckedDiv => 77u8,
        OpCode::U32UncheckedDivImm => 78u8,
        OpCode::U32CheckedMod => 79u8,
        OpCode::U32CheckedModImm => 80u8,
        OpCode::U32UncheckedMod => 81u8,
        OpCode::U32UncheckedModImm => 82u8,
        OpCode::U32CheckedDivMod => 83u8,
        OpCode::U32CheckedDivModImm => 84u8,
        OpCode::U32UncheckedDivMod => 85u8,
        OpCode::U32UncheckedDivModImm => 86u8,
        OpCode::U32CheckedAnd => 87u8,
        OpCode::U32CheckedOr => 88u8,
        OpCode::U32CheckedXor => 89u8,
        OpCode::U32CheckedNot => 90u8,
        OpCode::U32CheckedShr => 91u8,
        OpCode::U32CheckedShrImm => 92u8,
        OpCode::U32UncheckedShr => 93u8,
        OpCode::U32UncheckedShrImm => 94u8,
        OpCode::U32CheckedShl => 95u8,
        OpCode::U32CheckedShlImm => 96u8,
        OpCode::U32UncheckedShl => 97u8,
        OpCode::U32UncheckedShlImm => 98u8,
        OpCode::U32CheckedRotr => 99u8,
        OpCode::U32CheckedRotrImm => 100u8,
        OpCode::U32UncheckedRotr => 101u8,
        OpCode::U32UncheckedRotrImm => 102u8,
        OpCode::U32CheckedRotl => 103u8,
        OpCode::U32CheckedRotlImm => 104u8,
        OpCode::U32UncheckedRotl => 105u8,
        OpCode::U32UncheckedRotlImm => 106u8,
        OpCode::U32CheckedPopcnt => 107u8,
        OpCode::U32UncheckedPopcnt => 108u8,
        OpCode::U32CheckedEq => 109u8,
        OpCode::U32CheckedEqImm => 110u8,
        OpCode::U32CheckedNeq => 111u8,
        OpCode::U32CheckedNeqImm => 112u8,
        OpCode::U32CheckedLt => 113u8,
        OpCode::U32UncheckedLt => 114u8,
        OpCode::U32CheckedLte => 115u8,
        OpCode::U32UncheckedLte => 116u8,
        OpCode::U32CheckedGt => 117u8,
        OpCode::U32UncheckedGt => 118u8,
        OpCode::U32CheckedGte => 119u8,
        OpCode::U32UncheckedGte => 120u8,
        OpCode::U32CheckedMin => 121u8,
        OpCode::U32UncheckedMin => 122u8,
        OpCode::U32CheckedMax => 123u8,
        OpCode::U32UncheckedMax => 124u8,
        OpCode::Drop => 125u8,
        OpCode::DropW => 126u8,
        OpCode::PadW => 127u8,
        OpCode::Dup0 => 128u8,
        OpCode::Dup1 => 129u8,
        OpCode::Dup2 => 130u8,
        OpCode::Dup3 => 131u8,
        OpCode::Dup4 => 132u8,
        OpCode::Dup5 => 133u8,
        OpCode::Dup6 => 134u8,
        OpCode::Dup7 => 135u8,
        OpCode::Dup8 => 136u8,
        OpCode::Dup9 => 137u8,
        OpCode::Dup10 => 138u8,
        OpCode::Dup11 => 139u8,
        OpCode::Dup12 => 140u8,
        OpCode::Dup13 => 141u8,
        OpCode::Dup14 => 142u8,
        OpCode::Dup15 => 143u8,
        OpCode::DupW0 => 144u8,
        OpCode::DupW1 => 145u8,
        OpCode::DupW2 => 146u8,
        OpCode::DupW3 => 147u8,
        OpCode::Swap1 => 148u8,
        OpCode::Swap2 => 149u8,
        OpCode::Swap3 => 150u8,
        OpCode::Swap4 => 151u8,
        OpCode::Swap5 => 152u8,
        OpCode::Swap6 => 153u8,
        OpCode::Swap7 => 154u8,
        OpCode::Swap8 => 155u8,
        OpCode::Swap9 => 156u8,
        OpCode::Swap10 => 157u8,
        OpCode::Swap11 => 158u8,
        OpCode::Swap12 => 159u8,
        OpCode::Swap13 => 160u8,
        OpCode::Swap14 => 161u8,
        OpCode::Swap15 => 162u8,
        OpCode::SwapW1 => 163u8,
        OpCode::SwapW2 => 164u8,
        OpCode::SwapW3 => 165u8,
        OpCode::SwapDW => 166u8,
        OpCode::MovUp2 => 167u8,
        OpCode::MovUp3 => 168u8,
        OpCode::MovUp4 => 169u8,
        OpCode::MovUp5 => 170u8,
        OpCode::MovUp6 => 171u8,
        OpCode::MovUp7 => 172u8,
        OpCode::MovUp8 => 173u8,
        OpCode::MovUp9 => 174u8,
        OpCode::MovUp10 => 175u8,
        OpCode::MovUp11 => 176u8,
        OpCode::MovUp12 => 177u8,
        OpCode::MovUp13 => 178u8,
        OpCode::MovUp14 => 179u8,
        OpCode::MovUp15 => 180u8,
        OpCode::MovUpW2 => 181u8,
        OpCode::MovUpW3 => 182u8,
        OpCode::MovDn2 => 183u8,
        OpCode::MovDn3 => 184u8,
        OpCode::MovDn4 => 185u8,
        OpCode::MovDn5 => 186u8,
        OpCode::MovDn6 => 187u8,
        OpCode::MovDn7 => 188u8,
        OpCode::MovDn8 => 189u8,
        OpCode::MovDn9 => 190u8,
        OpCode::MovDn10 => 191u8,
        OpCode::MovDn11 => 192u8,
        OpCode::MovDn12 => 193u8,
        OpCode::MovDn13 => 194u8,
        OpCode::MovDn14 => 195u8,
        OpCode::MovDn15 => 196u8,
        OpCode::MovDnW2 => 197u8,
        OpCode::MovDnW3 => 198u8,
        OpCode::CSwap => 199u8,
        OpCode::CSwapW => 200u8,
        OpCode::CDrop => 201u8,
        OpCode::CDropW => 202u8,
        OpCode::PushU8 => 203u8,
        OpCode::PushU16 => 204u8,
        OpCode::PushU32 => 205u8,
        OpCode::PushFelt => 206u8,
        OpCode::PushWord => 207u8,
        OpCode::PushU8List => 208u8,
        OpCode::PushU16List => 209u8,
        OpCode::PushU32List => 210u8,
        OpCode::PushFeltList => 211u8,
        OpCode::Locaddr => 212u8,
        OpCode::Sdepth => 213u8,
        OpCode::Caller => 214u8,
        OpCode::Clk => 215u8,
        OpCode::MemLoad => 216u8,
        OpCode::MemLoadImm => 217u8,
        OpCode::MemLoadW => 218u8,
        OpCode::MemLoadWImm => 219u8,
        OpCode::LocLoad => 220u8,
        OpCode::LocLoadW => 221u8,
        OpCode::MemStore => 222u8,
        OpCode::MemStoreImm => 223u8,
        OpCode::LocStore => 224u8,
        OpCode::MemStoreW => 225u8,
        OpCode::MemStoreWImm => 226u8,
        OpCode::LocStoreW => 227u8,
        OpCode::MemStream => 228u8,
        OpCode::AdvPipe => 229u8,
        OpCode::AdvPush => 230u8,
        OpCode::AdvLoadW => 231u8,
        OpCode::AdvInject => 232u8,
        OpCode::Hash => 233u8,
        OpCode::HMerge => 234u8,
        OpCode::HPerm => 235u8,
        OpCode::MTreeGet => 236u8,
        OpCode::MTreeSet => 237u8,
        OpCode::MTreeMerge => 238u8,
        OpCode::MTreeVerify => 239u8,
        OpCode::FriExt2Fold4 => 240u8,
        OpCode::ExecLocal => 241u8,
        OpCode::ExecImported => 242u8,
        OpCode::CallLocal => 243u8,
        OpCode::CallMastRoot => 244u8,
        OpCode::CallImported => 245u8,
        OpCode::SysCall => 246u8,
        OpCode::DynExec => 247u8,
        OpCode::DynCall => 248u8,
        OpCode::ProcRefLocal => 249u8,
        OpCode::ProcRefImported => 250u8,
        OpCode::Debug => 251u8,
        OpCode::Emit => 252u8,
        OpCode::IfElse => 253u8,
        OpCode::Repeat => 254u8,
        OpCode::While => 255u8,
    }
}

/// The operation code that the byte `b` encodes.
pub open spec fn opcode_of_byte(b: u8) -> OpCode {
    if b == 0u8 {
        OpCode::Assert
    } else if b == 1u8 {
        OpCode::AssertWithError
    } else if b == 2u8 {
        OpCode::AssertEq
    } else if b == 3u8 {
        OpCode::AssertEqWithError
    } else if b == 4u8 {
        OpCode::AssertEqw
    } else if b == 5u8 {
        OpCode::AssertEqwWithError
    } else if b == 6u8 {
        OpCode::Assertz
    } else if b == 7u8 {
        OpCode::AssertzWithError
    } else if b == 8u8 {
        OpCode::Add
    } else if b == 9u8 {
        OpCode::AddImm
    } else if b == 10u8 {
        OpCode::Sub
    } else if b == 11u8 {
        OpCode::SubImm
    } else if b == 12u8 {
        OpCode::Mul
    } else if b == 13u8 {
        OpCode::MulImm
    } else if b == 14u8 {
        OpCode::Div
    } else if b == 15u8 {
        OpCode::DivImm
    } else if b == 16u8 {
        OpCode::Neg
    } else if b == 17u8 {
        OpCode::Inv
    } else if b == 18u8 {
        OpCode::Incr
    } else if b == 19u8 {
        OpCode::Pow2
    } else if b == 20u8 {
        OpCode::Exp
    } else if b == 21u8 {
        OpCode::ExpImm
    } else if b == 22u8 {
        OpCode::ExpBitLength
    } else if b == 23u8 {
        OpCode::Not
    } else if b == 24u8 {
        OpCode::And
    } else if b == 25u8 {
        OpCode::Or
    } else if b == 26u8 {
        OpCode::Xor
    } else if b == 27u8 {
        OpCode::Eq
    } else if b == 28u8 {
        OpCode::EqImm
    } else if b == 29u8 {
        OpCode::Neq
    } else if b == 30u8 {
        OpCode::NeqImm
    } else if b == 31u8 {
        OpCode::Eqw
    } else if b == 32u8 {
        OpCode::Lt
    } else if b == 33u8 {
        OpCode::Lte
    } else if b == 34u8 {
        OpCode::Gt
    } else if b == 35u8 {
        OpCode::Gte
    } else if b == 36u8 {
        OpCode::IsOdd
    } else if b == 37u8 {
        OpCode::Ext2Add
    } else if b == 38u8 {
        OpCode::Ext2Sub
    } else if b == 39u8 {
        OpCode::Ext2Mul
    } else if b == 40u8 {
        OpCode::Ext2Div
    } else if b == 41u8 {
        OpCode::Ext2Neg
    } else if b == 42u8 {
        OpCode::Ext2Inv
    } else if b == 43u8 {
        OpCode::U32Test
    } else if b == 44u8 {
        OpCode::U32TestW
    } else if b == 45u8 {
        OpCode::U32Assert
    } else if b == 46u8 {
        OpCode::U32AssertWithError
    } else if b == 47u8 {
        OpCode::U32Assert2
    } else if b == 48u8 {
        OpCode::U32Assert2WithError
    } else if b == 49u8 {
        OpCode::U32AssertW
    } else if b == 50u8 {
        OpCode::U32AssertWWithError
    } else if b == 51u8 {
        OpCode::U32Split
    } else if b == 52u8 {
        OpCode::U32Cast
    } else if b == 53u8 {
        OpCode::U32CheckedAdd
    } else if b == 54u8 {
        OpCode::U32CheckedAddImm
    } else if b == 55u8 {
        OpCode::U32WrappingAdd
    } else if b == 56u8 {
        OpCode::U32WrappingAddImm
    } else if b == 57u8 {
        OpCode::U32OverflowingAdd
    } else if b == 58u8 {
        OpCode::U32OverflowingAddImm
    } else if b == 59u8 {
        OpCode::U32OverflowingAdd3
    } else if b == 60u8 {
        OpCode::U32WrappingAdd3
    } else if b == 61u8 {
        OpCode::U32CheckedSub
    } else if b == 62u8 {
        OpCode::U32CheckedSubImm
    } else if b == 63u8 {
        OpCode::U32WrappingSub
    } else if b == 64u8 {
        OpCode::U32WrappingSubImm
    } else if b == 65u8 {
        OpCode::U32OverflowingSub
    } else if b == 66u8 {
        OpCode::U32OverflowingSubImm
    } else if b == 67u8 {
        OpCode::U32CheckedMul
    } else if b == 68u8 {
        OpCode::U32CheckedMulImm
    } else if b == 69u8 {
        OpCode::U32WrappingMul
    } else if b == 70u8 {
        OpCode::U32WrappingMulImm
    } else if b == 71u8 {
        OpCode::U32OverflowingMul
    } else if b == 72u8 {
        OpCode::U32OverflowingMulImm
    } else if b == 73u8 {
        OpCode::U32OverflowingMadd
    } else if b == 74u8 {
        OpCode::U32WrappingMadd
    } else if b == 75u8 {
        OpCode::U32CheckedDiv
    } else if b == 76u8 {
        OpCode::U32CheckedDivImm
    } else if b == 77u8 {
        OpCode::U32UncheckedDiv
    } else if b == 78u8 {
        OpCode::U32UncheckedDivImm
    } else if b == 79u8 {
        OpCode::U32CheckedMod
    } else if b == 80u8 {
        OpCode::U32CheckedModImm
    } else if b == 81u8 {
        OpCode::U32UncheckedMod
    } else if b == 82u8 {
        OpCode::U32UncheckedModImm
    } else if b == 83u8 {
        OpCode::U32CheckedDivMod
    } else if b == 84u8 {
        OpCode::U32CheckedDivModImm
    } else if b == 85u8 {
        OpCode::U32UncheckedDivMod
    } else if b == 86u8 {
        OpCode::U32UncheckedDivModImm
    } else if b == 87u8 {
        OpCode::U32CheckedAnd
    } else if b == 88u8 {
        OpCode::U32CheckedOr
    } else if b == 89u8 {
        OpCode::U32CheckedXor
    } else if b == 90u8 {
        OpCode::U32CheckedNot
    } else if b == 91u8 {
        OpCode::U32CheckedShr
    } else if b == 92u8 {
        OpCode::U32CheckedShrImm
    } else if b == 93u8 {
        OpCode::U32UncheckedShr
    } else if b == 94u8 {
        OpCode::U32UncheckedShrImm
    } else if b == 95u8 {
        OpCode::U32CheckedShl
    } else if b == 96u8 {
        OpCode::U32CheckedShlImm
    } else if b == 97u8 {
        OpCode::U32UncheckedShl
    } else if b == 98u8 {
        OpCode::U32UncheckedShlImm
    } else if b == 99u8 {
        OpCode::U32CheckedRotr
    } else if b == 100u8 {
        OpCode::U32CheckedRotrImm
    } else if b == 101u8 {
        OpCode::U32UncheckedRotr
    } else if b == 102u8 {
        OpCode::U32UncheckedRotrImm
    } else if b == 103u8 {
        OpCode::U32CheckedRotl
    } else if b == 104u8 {
        OpCode::U32CheckedRotlImm
    } else if b == 105u8 {
        OpCode::U32UncheckedRotl
    } else if b == 106u8 {
        OpCode::U32UncheckedRotlImm
    } else if b == 107u8 {
        OpCode::U32CheckedPopcnt
    } else if b == 108u8 {
        OpCode::U32UncheckedPopcnt
    } else if b == 109u8 {
        OpCode::U32CheckedEq
    } else if b == 110u8 {
        OpCode::U32CheckedEqImm
    } else if b == 111u8 {
        OpCode::U32CheckedNeq
    } else if b == 112u8 {
        OpCode::U32CheckedNeqImm
    } else if b == 113u8 {
        OpCode::U32CheckedLt
    } else if b == 114u8 {
        OpCode::U32UncheckedLt
    } else if b == 115u8 {
        OpCode::U32CheckedLte
    } else if b == 116u8 {
        OpCode::U32UncheckedLte
    } else if b == 117u8 {
        OpCode::U32CheckedGt
    } else if b == 118u8 {
        OpCode::U32UncheckedGt
    } else if b == 119u8 {
        OpCode::U32CheckedGte
    } else if b == 120u8 {
        OpCode::U32UncheckedGte
    } else if b == 121u8 {
        OpCode::U32CheckedMin
    } else if b == 122u8 {
        OpCode::U32UncheckedMin
    } else if b == 123u8 {
        OpCode::U32CheckedMax
    } else if b == 124u8 {
        OpCode::U32UncheckedMax
    } else if b == 125u8 {
        OpCode::Drop
    } else if b == 126u8 {
        OpCode::DropW
    } else if b == 127u8 {
        OpCode::PadW
    } else if b == 128u8 {
        OpCode::Dup0
    } else if b == 129u8 {
        OpCode::Dup1
    } else if b == 130u8 {
        OpCode::Dup2
    } else if b == 131u8 {
        OpCode::Dup3
    } else if b == 132u8 {
        OpCode::Dup4
    } else if b == 133u8 {
        OpCode::Dup5
    } else if b == 134u8 {
        OpCode::Dup6
    } else if b == 135u8 {
        OpCode::Dup7
    } else if b == 136u8 {
        OpCode::Dup8
    } else if b == 137u8 {
        OpCode::Dup9
    } else if b == 138u8 {
        OpCode::Dup10
    } else if b == 139u8 {
        OpCode::Dup11
    } else if b == 140u8 {
        OpCode::Dup12
    } else if b == 141u8 {
        OpCode::Dup13
    } else if b == 142u8 {
        OpCode::Dup14
    } else if b == 143u8 {
        OpCode::Dup15
    } else if b == 144u8 {
        OpCode::DupW0
    } else if b == 145u8 {
        OpCode::DupW1
    } else if b == 146u8 {
        OpCode::DupW2
    } else if b == 147u8 {
        OpCode::DupW3
    } else if b == 148u8 {
        OpCode::Swap1
    } else if b == 149u8 {
        OpCode::Swap2
    } else if b == 150u8 {
        OpCode::Swap3
    } else if b == 151u8 {
        OpCode::Swap4
    } else if b == 152u8 {
        OpCode::Swap5
    } else if b == 153u8 {
        OpCode::Swap6
    } else if b == 154u8 {
        OpCode::Swap7
    } else if b == 155u8 {
        OpCode::Swap8
    } else if b == 156u8 {
        OpCode::Swap9
    } else if b == 157u8 {
        OpCode::Swap10
    } else if b == 158u8 {
        OpCode::Swap11
    } else if b == 159u8 {
        OpCode::Swap12
    } else if b == 160u8 {
        OpCode::Swap13
    } else if b == 161u8 {
        OpCode::Swap14
    } else if b == 162u8 {
        OpCode::Swap15
    } else if b == 163u8 {
        OpCode::SwapW1
    } else if b == 164u8 {
        OpCode::SwapW2
    } else if b == 165u8 {
        OpCode::SwapW3
    } else if b == 166u8 {
        OpCode::SwapDW
    } else if b == 167u8 {
        OpCode::MovUp2
    } else if b == 168u8 {
        OpCode::MovUp3
    } else if b == 169u8 {
        OpCode::MovUp4
    } else if b == 170u8 {
        OpCode::MovUp5
    } else if b == 171u8 {
        OpCode::MovUp6
    } else if b == 172u8 {
        OpCode::MovUp7
    } else if b == 173u8 {
        OpCode::MovUp8
    } else if b == 174u8 {
        OpCode::MovUp9
    } else if b == 175u8 {
        OpCode::MovUp10
    } else if b == 176u8 {
        OpCode::MovUp11
    } else if b == 177u8 {
        OpCode::MovUp12
    } else if b == 178u8 {
        OpCode::MovUp13
    } else if b == 179u8 {
        OpCode::MovUp14
    } else if b == 180u8 {
        OpCode::MovUp15
    } else if b == 181u8 {
        OpCode::MovUpW2
    } else if b == 182u8 {
        OpCode::MovUpW3
    } else if b == 183u8 {
        OpCode::MovDn2
    } else if b == 184u8 {
        OpCode::MovDn3
    } else if b == 185u8 {
        OpCode::MovDn4
    } else if b == 186u8 {
        OpCode::MovDn5
    } else if b == 187u8 {
        OpCode::MovDn6
    } else if b == 188u8 {
        OpCode::MovDn7
    } else if b == 189u8 {
        OpCode::MovDn8
    } else if b == 190u8 {
        OpCode::MovDn9
    } else if b == 191u8 {
        OpCode::MovDn10
    } else if b == 192u8 {
        OpCode::MovDn11
    } else if b == 193u8 {
        OpCode::MovDn12
    } else if b == 194u8 {
        OpCode::MovDn13
    } else if b == 195u8 {
        OpCode::MovDn14
    } else if b == 196u8 {
        OpCode::MovDn15
    } else if b == 197u8 {
        OpCode::MovDnW2
    } else if b == 198u8 {
        OpCode::MovDnW3
    } else if b == 199u8 {
        OpCode::CSwap
    } else if b == 200u8 {
        OpCode::CSwapW
    } else if b == 201u8 {
        OpCode::CDrop
    } else if b == 202u8 {
        OpCode::CDropW
    } else if b == 203u8 {
        OpCode::PushU8
    } else if b == 204u8 {
        OpCode::PushU16
    } else if b == 205u8 {
        OpCode::PushU32
    } else if b == 206u8 {
        OpCode::PushFelt
    } else if b == 207u8 {
        OpCode::PushWord
    } else if b == 208u8 {
        OpCode::PushU8List
    } else if b == 209u8 {
        OpCode::PushU16List
    } else if b == 210u8 {
        OpCode::PushU32List
    } else if b == 211u8 {
        OpCode::PushFeltList
    } else if b == 212u8 {
        OpCode::Locaddr
    } else if b == 213u8 {
        OpCode::Sdepth
    } else if b == 214u8 {
        OpCode::Caller
    } else if b == 215u8 {
        OpCode::Clk
    } else if b == 216u8 {
        OpCode::MemLoad
    } else if b == 217u8 {
        OpCode::MemLoadImm
    } else if b == 218u8 {
        OpCode::MemLoadW
    } else if b == 219u8 {
        OpCode::MemLoadWImm
    } else if b == 220u8 {
        OpCode::LocLoad
    } else if b == 221u8 {
        OpCode::LocLoadW
    } else if b == 222u8 {
        OpCode::MemStore
    } else if b == 223u8 {
        OpCode::MemStoreImm
    } else if b == 224u8 {
        OpCode::LocStore
    } else if b == 225u8 {
        OpCode::MemStoreW
    } else if b == 226u8 {
        OpCode::MemStoreWImm
    } else if b == 227u8 {
        OpCode::LocStoreW
    } else if b == 228u8 {
        OpCode::MemStream
    } else if b == 229u8 {
        OpCode::AdvPipe
    } else if b == 230u8 {
        OpCode::AdvPush
    } else if b == 231u8 {
        OpCode::AdvLoadW
    } else if b == 232u8 {
        OpCode::AdvInject
    } else if b == 233u8 {
        OpCode::Hash
    } else if b == 234u8 {
        OpCode::HMerge
    } else if b == 235u8 {
        OpCode::HPerm
    } else if b == 236u8 {
        OpCode::MTreeGet
    } else if b == 237u8 {
        OpCode::MTreeSet
    } else if b == 238u8 {
        OpCode::MTreeMerge
    } else if b == 239u8 {
        OpCode::MTreeVerify
    } else if b == 240u8 {
        OpCode::FriExt2Fold4
    } else if b == 241u8 {
        OpCode::ExecLocal
    } else if b == 242u8 {
        OpCode::ExecImported
    } else if b == 243u8 {
        OpCode::CallLocal
    } else if b == 244u8 {
        OpCode::CallMastRoot
    } else if b == 245u8 {
        OpCode::CallImported
    } else if b == 246u8 {
        OpCode::SysCall
    } else if b == 247u8 {
        OpCode::DynExec
    } else if b == 248u8 {
        OpCode::DynCall
    } else if b == 249u8 {
        OpCode::ProcRefLocal
    } else if b == 250u8 {
        OpCode::ProcRefImported
    } else if b == 251u8 {
        OpCode::Debug
    } else if b == 252u8 {
        OpCode::Emit
    } else if b == 253u8 {
        OpCode::IfElse
    } else if b == 254u8 {
        OpCode::Repeat
    } else {
        OpCode::While
    }
}

/// Errors of reading an operation code.
#[derive(Debug, Clone, Copy, PartialEq, Eq, Structural)]
pub enum DeserializationError {
    /// The source holds no byte at the position read.
    UnexpectedEOF,
}

impl OpCode {
    /// Returns the byte that encodes this operation code.
    pub fn as_u8(&self) -> (res: u8)
        ensures
            res == opcode_byte(*self),
    {
        match self {
            OpCode::Assert => 0u8,
            OpCode::AssertWithError => 1u8,
            OpCode::AssertEq => 2u8,
            OpCode::AssertEqWithError => 3u8,
            OpCode::AssertEqw => 4u8,
            OpCode::AssertEqwWithError => 5u8,
            OpCode::Assertz => 6u8,
            OpCode::AssertzWithError => 7u8,
            OpCode::Add => 8u8,
            OpCode::AddImm => 9u8,
            OpCode::Sub => 10u8,
            OpCode::SubImm => 11u8,
            OpCode::Mul => 12u8,
            OpCode::MulImm => 13u8,
            OpCode::Div => 14u8,
            OpCode::DivImm => 15u8,
            OpCode::Neg => 16u8,
            OpCode::Inv => 17u8,
            OpCode::Incr => 18u8,
            OpCode::Pow2 => 19u8,
            OpCode::Exp => 20u8,
            OpCode::ExpImm => 21u8,
            OpCode::ExpBitLength => 22u8,
            OpCode::Not => 23u8,
            OpCode::And => 24u8,
            OpCode::Or => 25u8,
            OpCode::Xor => 26u8,
            OpCode::Eq => 27u8,
            OpCode::EqImm => 28u8,
            OpCode::Neq => 29u8,
            OpCode::NeqImm => 30u8,
            OpCode::Eqw => 31u8,
            OpCode::Lt => 32u8,
            OpCode::Lte => 33u8,
            OpCode::Gt => 34u8,
            OpCode::Gte => 35u8,
            OpCode::IsOdd => 36u8,
            OpCode::Ext2Add => 37u8,
            OpCode::Ext2Sub => 38u8,
            OpCode::Ext2Mul => 39u8,
            OpCode::Ext2Div => 40u8,
            OpCode::Ext2Neg => 41u8,
            OpCode::Ext2Inv => 42u8,
            OpCode::U32Test => 43u8,
            OpCode::U32TestW => 44u8,
            OpCode::U32Assert => 45u8,
            OpCode::U32AssertWithError => 46u8,
            OpCode::U32Assert2 => 47u8,
            OpCode::U32Assert2WithError => 48u8,
            OpCode::U32AssertW => 49u8,
            OpCode::U32AssertWWithError => 50u8,
            OpCode::U32Split => 51u8,
            OpCode::U32Cast => 52u8,
            OpCode::U32CheckedAdd => 53u8,
            OpCode::U32CheckedAddImm => 54u8,
            OpCode::U32WrappingAdd => 55u8,
            OpCode::U32WrappingAddImm => 56u8,
            OpCode::U32OverflowingAdd => 57u8,
            OpCode::U32OverflowingAddImm => 58u8,
            OpCode::U32OverflowingAdd3 => 59u8,
            OpCode::U32WrappingAdd3 => 60u8,
            OpCode::U32CheckedSub => 61u8,
            OpCode::U32CheckedSubImm => 62u8,
            OpCode::U32WrappingSub => 63u8,
            OpCode::U32WrappingSubImm => 64u8,
            OpCode::U32OverflowingSub => 65u8,
            OpCode::U32OverflowingSubImm => 66u8,
            OpCode::U32CheckedMul => 67u8,
            OpCode::U32CheckedMulImm => 68u8,
            OpCode::U32WrappingMul => 69u8,
            OpCode::U32WrappingMulImm => 70u8,
            OpCode::U32OverflowingMul => 71u8,
            OpCode::U32OverflowingMulImm => 72u8,
            OpCode::U32OverflowingMadd => 73u8,
            OpCode::U32WrappingMadd => 74u8,
            OpCode::U32CheckedDiv => 75u8,
            OpCode::U32CheckedDivImm => 76u8,
            OpCode::U32UncheckedDiv => 77u8,
            OpCode::U32UncheckedDivImm => 78u8,
            OpCode::U32CheckedMod => 79u8,
            OpCode::U32CheckedModImm => 80u8,
            OpCode::U32UncheckedMod => 81u8,
            OpCode::U32UncheckedModImm => 82u8,
            OpCode::U32CheckedDivMod => 83u8,
            OpCode::U32CheckedDivModImm => 84u8,
            OpCode::U32UncheckedDivMod => 85u8,
            OpCode::U32UncheckedDivModImm => 86u8,
            OpCode::U32CheckedAnd => 87u8,
            OpCode::U32CheckedOr => 88u8,
            OpCode::U32CheckedXor => 89u8,
            OpCode::U32CheckedNot => 90u8,
            OpCode::U32CheckedShr => 91u8,
            OpCode::U32CheckedShrImm => 92u8,
            OpCode::U32UncheckedShr => 93u8,
            OpCode::U32UncheckedShrImm => 94u8,
            OpCode::U32CheckedShl => 95u8,
            OpCode::U32CheckedShlImm => 96u8,
            OpCode::U32UncheckedShl => 97u8,
            OpCode::U32UncheckedShlImm => 98u8,
            OpCode::U32CheckedRotr => 99u8,
            OpCode::U32CheckedRotrImm => 100u8,
            OpCode::U32UncheckedRotr => 101u8,
            OpCode::U32UncheckedRotrImm => 102u8,
            OpCode::U32CheckedRotl => 103u8,
            OpCode::U32CheckedRotlImm => 104u8,
            OpCode::U32UncheckedRotl => 105u8,
            OpCode::U32UncheckedRotlImm => 106u8,
            OpCode::U32CheckedPopcnt => 107u8,
            OpCode::U32UncheckedPopcnt => 108u8,
            OpCode::U32CheckedEq => 109u8,
            OpCode::U32CheckedEqImm => 110u8,
            OpCode::U32CheckedNeq => 111u8,
            OpCode::U32CheckedNeqImm => 112u8,
            OpCode::U32CheckedLt => 113u8,
            OpCode::U32UncheckedLt => 114u8,
            OpCode::U32CheckedLte => 115u8,
            OpCode::U32UncheckedLte => 116u8,
            OpCode::U32CheckedGt => 117u8,
            OpCode::U32UncheckedGt => 118u8,
            OpCode::U32CheckedGte => 119u8,
            OpCode::U32UncheckedGte => 120u8,
            OpCode::U32CheckedMin => 121u8,
            OpCode::U32UncheckedMin => 122u8,
            OpCode::U32CheckedMax => 123u8,
            OpCode::U32UncheckedMax => 124u8,
            OpCode::Drop => 125u8,
            OpCode::DropW => 126u8,
            OpCode::PadW => 127u8,
            OpCode::Dup0 => 128u8,
            OpCode::Dup1 => 129u8,
            OpCode::Dup2 => 130u8,
            OpCode::Dup3 => 131u8,
            OpCode::Dup4 => 132u8,
            OpCode::Dup5 => 133u8,
            OpCode::Dup6 => 134u8,
            OpCode::Dup7 => 135u8,
            OpCode::Dup8 => 136u8,
            OpCode::Dup9 => 137u8,
            OpCode::Dup10 => 138u8,
            OpCode::Dup11 => 139u8,
            OpCode::Dup12 => 140u8,
            OpCode::Dup13 => 141u8,
            OpCode::Dup14 => 142u8,
            OpCode::Dup15 => 143u8,
            OpCode::DupW0 => 144u8,
            OpCode::DupW1 => 145u8,
            OpCode::DupW2 => 146u8,
            OpCode::DupW3 => 147u8,
            OpCode::Swap1 => 148u8,
            OpCode::Swap2 => 149u8,
            OpCode::Swap3 => 150u8,
            OpCode::Swap4 => 151u8,
            OpCode::Swap5 => 152u8,
            OpCode::Swap6 => 153u8,
            OpCode::Swap7 => 154u8,
            OpCode::Swap8 => 155u8,
            OpCode::Swap9 => 156u8,
            OpCode::Swap10 => 157u8,
            OpCode::Swap11 => 158u8,
            OpCode::Swap12 => 159u8,
            OpCode::Swap13 => 160u8,
            OpCode::Swap14 => 161u8,
            OpCode::Swap15 => 162u8,
            OpCode::SwapW1 => 163u8,
            OpCode::SwapW2 => 164u8,
            OpCode::SwapW3 => 165u8,
            OpCode::SwapDW => 166u8,
            OpCode::MovUp2 => 167u8,
            OpCode::MovUp3 => 168u8,
            OpCode::MovUp4 => 169u8,
            OpCode::MovUp5 => 170u8,
            OpCode::MovUp6 => 171u8,
            OpCode::MovUp7 => 172u8,
            OpCode::MovUp8 => 173u8,
            OpCode::MovUp9 => 174u8,
            OpCode::MovUp10 => 175u8,
            OpCode::MovUp11 => 176u8,
            OpCode::MovUp12 => 177u8,
            OpCode::MovUp13 => 178u8,
            OpCode::MovUp14 => 179u8,
            OpCode::MovUp15 => 180u8,
            OpCode::MovUpW2 => 181u8,
            OpCode::MovUpW3 => 182u8,
            OpCode::MovDn2 => 183u8,
            OpCode::MovDn3 => 184u8,
            OpCode::MovDn4 => 185u8,
            OpCode::MovDn5 => 186u8,
            OpCode::MovDn6 => 187u8,
            OpCode::MovDn7 => 188u8,
            OpCode::MovDn8 => 189u8,
            OpCode::MovDn9 => 190u8,
            OpCode::MovDn10 => 191u8,
            OpCode::MovDn11 => 192u8,
            OpCode::MovDn12 => 193u8,
            OpCode::MovDn13 => 194u8,
            OpCode::MovDn14 => 195u8,
            OpCode::MovDn15 => 196u8,
            OpCode::MovDnW2 => 197u8,
            OpCode::MovDnW3 => 198u8,
            OpCode::CSwap => 199u8,
            OpCode::CSwapW => 200u8,
            OpCode::CDrop => 201u8,
            OpCode::CDropW => 202u8,
            OpCode::PushU8 => 203u8,
            OpCode::PushU16 => 204u8,
            OpCode::PushU32 => 205u8,
            OpCode::PushFelt => 206u8,
            OpCode::PushWord => 207u8,
            OpCode::PushU8List => 208u8,
            OpCode::PushU16List => 209u8,
            OpCode::PushU32List => 210u8,
            OpCode::PushFeltList => 211u8,
            OpCode::Locaddr => 212u8,
            OpCode::Sdepth => 213u8,
            OpCode::Caller => 214u8,
            OpCode::Clk => 215u8,
            OpCode::MemLoad => 216u8,
            OpCode::MemLoadImm => 217u8,
            OpCode::MemLoadW => 218u8,
            OpCode::MemLoadWImm => 219u8,
            OpCode::LocLoad => 220u8,
            OpCode::LocLoadW => 221u8,
            OpCode::MemStore => 222u8,
            OpCode::MemStoreImm => 223u8,
            OpCode::LocStore => 224u8,
            OpCode::MemStoreW => 225u8,
            OpCode::MemStoreWImm => 226u8,
            OpCode::LocStoreW => 227u8,
            OpCode::MemStream => 228u8,
            OpCode::AdvPipe => 229u8,
            OpCode::AdvPush => 230u8,
            OpCode::AdvLoadW => 231u8,
            OpCode::AdvInject => 232u8,
            OpCode::Hash => 233u8,
            OpCode::HMerge => 234u8,
            OpCode::HPerm => 235u8,
            OpCode::MTreeGet => 236u8,
            OpCode::MTreeSet => 237u8,
            OpCode::MTreeMerge => 238u8,
            OpCode::MTreeVerify => 239u8,
            OpCode::FriExt2Fold4 => 240u8,
            OpCode::ExecLocal => 241u8,
            OpCode::ExecImported => 242u8,
            OpCode::CallLocal => 243u8,
            OpCode::CallMastRoot => 244u8,
            OpCode::CallImported => 245u8,
            OpCode::SysCall => 246u8,
            OpCode::DynExec => 247u8,
            OpCode::DynCall => 248u8,
            OpCode::ProcRefLocal => 249u8,
            OpCode::ProcRefImported => 250u8,
            OpCode::Debug => 251u8,
            OpCode::Emit => 252u8,
            OpCode::IfElse => 253u8,
            OpCode::Repeat => 254u8,
            OpCode::While => 255u8,
        }
    }

    /// Returns the operation code that `value` encodes; every byte encodes one.
    pub fn from_u8(value: u8) -> (res: OpCode)
        ensures
            res == opcode_of_byte(value),
    {
        match value {
            0u8 => OpCode::Assert,
            1u8 => OpCode::AssertWithError,
            2u8 => OpCode::AssertEq,
            3u8 => OpCode::AssertEqWithError,
            4u8 => OpCode::AssertEqw,
            5u8 => OpCode::AssertEqwWithError,
            6u8 => OpCode::Assertz,
            7u8 => OpCode::AssertzWithError,
            8u8 => OpCode::Add,
            9u8 => OpCode::AddImm,
            10u8 => OpCode::Sub,
            11u8 => OpCode::SubImm,
            12u8 => OpCode::Mul,
            13u8 => OpCode::MulImm,
            14u8 => OpCode::Div,
            15u8 => OpCode::DivImm,
            16u8 => OpCode::Neg,
            17u8 => OpCode::Inv,
            18u8 => OpCode::Incr,
            19u8 => OpCode::Pow2,
            20u8 => OpCode::Exp,
            21u8 => OpCode::ExpImm,
            22u8 => OpCode::ExpBitLength,
            23u8 => OpCode::Not,
            24u8 => OpCode::And,
            25u8 => OpCode::Or,
            26u8 => OpCode::Xor,
            27u8 => OpCode::Eq,
            28u8 => OpCode::EqImm,
            29u8 => OpCode::Neq,
            30u8 => OpCode::NeqImm,
            31u8 => OpCode::Eqw,
            32u8 => OpCode::Lt,
            33u8 => OpCode::Lte,
            34u8 => OpCode::Gt,
            35u8 => OpCode::Gte,
            36u8 => OpCode::IsOdd,
            37u8 => OpCode::Ext2Add,
            38u8 => OpCode::Ext2Sub,
            39u8 => OpCode::Ext2Mul,
            40u8 => OpCode::Ext2Div,
            41u8 => OpCode::Ext2Neg,
            42u8 => OpCode::Ext2Inv,
            43u8 => OpCode::U32Test,
            44u8 => OpCode::U32TestW,
            45u8 => OpCode::U32Assert,
            46u8 => OpCode::U32AssertWithError,
            47u8 => OpCode::U32Assert2,
            48u8 => OpCode::U32Assert2WithError,
            49u8 => OpCode::U32AssertW,
            50u8 => OpCode::U32AssertWWithError,
            51u8 => OpCode::U32Split,
            52u8 => OpCode::U32Cast,
            53u8 => OpCode::U32CheckedAdd,
            54u8 => OpCode::U32CheckedAddImm,
            55u8 => OpCode::U32WrappingAdd,
            56u8 => OpCode::U32WrappingAddImm,
            57u8 => OpCode::U32OverflowingAdd,
            58u8 => OpCode::U32OverflowingAddImm,
            59u8 => OpCode::U32OverflowingAdd3,
            60u8 => OpCode::U32WrappingAdd3,
            61u8 => OpCode::U32CheckedSub,
            62u8 => OpCode::U32CheckedSubImm,
            63u8 => OpCode::U32WrappingSub,
            64u8 => OpCode::U32WrappingSubImm,
            65u8 => OpCode::U32OverflowingSub,
            66u8 => OpCode::U32OverflowingSubImm,
            67u8 => OpCode::U32CheckedMul,
            68u8 => OpCode::U32CheckedMulImm,
            69u8 => OpCode::U32WrappingMul,
            70u8 => OpCode::U32WrappingMulImm,
            71u8 => OpCode::U32OverflowingMul,
            72u8 => OpCode::U32OverflowingMulImm,
            73u8 => OpCode::U32OverflowingMadd,
            74u8 => OpCode::U32WrappingMadd,
            75u8 => OpCode::U32CheckedDiv,
            76u8 => OpCode::U32CheckedDivImm,
            77u8 => OpCode::U32UncheckedDiv,
            78u8 => OpCode::U32UncheckedDivImm,
            79u8 => OpCode::U32CheckedMod,
            80u8 => OpCode::U32CheckedModImm,
            81u8 => OpCode::U32UncheckedMod,
            82u8 => OpCode::U32UncheckedModImm,
            83u8 => OpCode::U32CheckedDivMod,
            84u8 => OpCode::U32CheckedDivModImm,
            85u8 => OpCode::U32UncheckedDivMod,
            86u8 => OpCode::U32UncheckedDivModImm,
            87u8 => OpCode::U32CheckedAnd,
            88u8 => OpCode::U32CheckedOr,
            89u8 => OpCode::U32CheckedXor,
            90u8 => OpCode::U32CheckedNot,
            91u8 => OpCode::U32CheckedShr,
            92u8 => OpCode::U32CheckedShrImm,
            93u8 => OpCode::U32UncheckedShr,
            94u8 => OpCode::U32UncheckedShrImm,
            95u8 => OpCode::U32CheckedShl,
            96u8 => OpCode::U32CheckedShlImm,
            97u8 => OpCode::U32UncheckedShl,
            98u8 => OpCode::U32UncheckedShlImm,
            99u8 => OpCode::U32CheckedRotr,
            100u8 => OpCode::U32CheckedRotrImm,
            101u8 => OpCode::U32UncheckedRotr,
            102u8 => OpCode::U32UncheckedRotrImm,
            103u8 => OpCode::U32CheckedRotl,
            104u8 => OpCode::U32CheckedRotlImm,
            105u8 => OpCode::U32UncheckedRotl,
            106u8 => OpCode::U32UncheckedRotlImm,
            107u8 => OpCode::U32CheckedPopcnt,
            108u8 => OpCode::U32UncheckedPopcnt,
            109u8 => OpCode::U32CheckedEq,
            110u8 => OpCode::U32CheckedEqImm,
            111u8 => OpCode::U32CheckedNeq,
            112u8 => OpCode::U32CheckedNeqImm,
            113u8 => OpCode::U32CheckedLt,
            114u8 => OpCode::U32UncheckedLt,
            115u8 => OpCode::U32CheckedLte,
            116u8 => OpCode::U32UncheckedLte,
            117u8 => OpCode::U32CheckedGt,
            118u8 => OpCode::U32UncheckedGt,
            119u8 => OpCode::U32CheckedGte,
            120u8 => OpCode::U32UncheckedGte,
            121u8 => OpCode::U32CheckedMin,
            122u8 => OpCode::U32UncheckedMin,
            123u8 => OpCode::U32CheckedMax,
            124u8 => OpCode::U32UncheckedMax,
            125u8 => OpCode::Drop,
            126u8 => OpCode::DropW,
            127u8 => OpCode::PadW,
            128u8 => OpCode::Dup0,
            129u8 => OpCode::Dup1,
            130u8 => OpCode::Dup2,
            131u8 => OpCode::Dup3,
            132u8 => OpCode::Dup4,
            133u8 => OpCode::Dup5,
            134u8 => OpCode::Dup6,
            135u8 => OpCode::Dup7,
            136u8 => OpCode::Dup8,
            137u8 => OpCode::Dup9,
            138u8 => OpCode::Dup10,
            139u8 => OpCode::Dup11,
            140u8 => OpCode::Dup12,
            141u8 => OpCode::Dup13,
            142u8 => OpCode::Dup14,
            143u8 => OpCode::Dup15,
            144u8 => OpCode::DupW0,
            145u8 => OpCode::DupW1,
            146u8 => OpCode::DupW2,
            147u8 => OpCode::DupW3,
            148u8 => OpCode::Swap1,
            149u8 => OpCode::Swap2,
            150u8 => OpCode::Swap3,
            151u8 => OpCode::Swap4,
            152u8 => OpCode::Swap5,
            153u8 => OpCode::Swap6,
            154u8 => OpCode::Swap7,
            155u8 => OpCode::Swap8,
            156u8 => OpCode::Swap9,
            157u8 => OpCode::Swap10,
            158u8 => OpCode::Swap11,
            159u8 => OpCode::Swap12,
            160u8 => OpCode::Swap13,
            161u8 => OpCode::Swap14,
            162u8 => OpCode::Swap15,
            163u8 => OpCode::SwapW1,
            164u8 => OpCode::SwapW2,
            165u8 => OpCode::SwapW3,
            166u8 => OpCode::SwapDW,
            167u8 => OpCode::MovUp2,
            168u8 => OpCode::MovUp3,
            169u8 => OpCode::MovUp4,
            170u8 => OpCode::MovUp5,
            171u8 => OpCode::MovUp6,
            172u8 => OpCode::MovUp7,
            173u8 => OpCode::MovUp8,
            174u8 => OpCode::MovUp9,
            175u8 => OpCode::MovUp10,
            176u8 => OpCode::MovUp11,
            177u8 => OpCode::MovUp12,
            178u8 => OpCode::MovUp13,
            179u8 => OpCode::MovUp14,
            180u8 => OpCode::MovUp15,
            181u8 => OpCode::MovUpW2,
            182u8 => OpCode::MovUpW3,
            183u8 => OpCode::MovDn2,
            184u8 => OpCode::MovDn3,
            185u8 => OpCode::MovDn4,
            186u8 => OpCode::MovDn5,
            187u8 => OpCode::MovDn6,
            188u8 => OpCode::MovDn7,
            189u8 => OpCode::MovDn8,
            190u8 => OpCode::MovDn9,
            191u8 => OpCode::MovDn10,
            192u8 => OpCode::MovDn11,
            193u8 => OpCode::MovDn12,
            194u8 => OpCode::MovDn13,
            195u8 => OpCode::MovDn14,
            196u8 => OpCode::MovDn15,
            197u8 => OpCode::MovDnW2,
            198u8 => OpCode::MovDnW3,
            199u8 => OpCode::CSwap,
            200u8 => OpCode::CSwapW,
            201u8 => OpCode::CDrop,
            202u8 => OpCode::CDropW,
            203u8 => OpCode::PushU8,
            204u8 => OpCode::PushU16,
            205u8 => OpCode::PushU32,
            206u8 => OpCode::PushFelt,
            207u8 => OpCode::PushWord,
            208u8 => OpCode::PushU8List,
            209u8 => OpCode::PushU16List,
            210u8 => OpCode::PushU32List,
            211u8 => OpCode::PushFeltList,
            212u8 => OpCode::Locaddr,
            213u8 => OpCode::Sdepth,
            214u8 => OpCode::Caller,
            215u8 => OpCode::Clk,
            216u8 => OpCode::MemLoad,
            217u8 => OpCode::MemLoadImm,
            218u8 => OpCode::MemLoadW,
            219u8 => OpCode::MemLoadWImm,
            220u8 => OpCode::LocLoad,
            221u8 => OpCode::LocLoadW,
            222u8 => OpCode::MemStore,
            223u8 => OpCode::MemStoreImm,
            224u8 => OpCode::LocStore,
            225u8 => OpCode::MemStoreW,
            226u8 => OpCode::MemStoreWImm,
            227u8 => OpCode::LocStoreW,
            228u8 => OpCode::MemStream,
            229u8 => OpCode::AdvPipe,
            230u8 => OpCode::AdvPush,
            231u8 => OpCode::AdvLoadW,
            232u8 => OpCode::AdvInject,
            233u8 => OpCode::Hash,
            234u8 => OpCode::HMerge,
            235u8 => OpCode::HPerm,
            236u8 => OpCode::MTreeGet,
            237u8 => OpCode::MTreeSet,
            238u8 => OpCode::MTreeMerge,
            239u8 => OpCode::MTreeVerify,
            240u8 => OpCode::FriExt2Fold4,
            241u8 => OpCode::ExecLocal,
            242u8 => OpCode::ExecImported,
            243u8 => OpCode::CallLocal,
            244u8 => OpCode::CallMastRoot,
            245u8 => OpCode::CallImported,
            246u8 => OpCode::SysCall,
            247u8 => OpCode::DynExec,
            248u8 => OpCode::DynCall,
            249u8 => OpCode::ProcRefLocal,
            250u8 => OpCode::ProcRefImported,
            251u8 => OpCode::Debug,
            252u8 => OpCode::Emit,
            253u8 => OpCode::IfElse,
            254u8 => OpCode::Repeat,
            _ => OpCode::While,
        }
    }

    /// Appends the byte that encodes this operation code to `target`.
    pub fn write_into(&self, target: &mut Vec<u8>)
        ensures
            final(target)@ == old(target)@.push(opcode_byte(*self)),
    {
        target.push(self.as_u8());
    }

    /// Reads an operation code from the byte of `source` at `*pos` and advances `*pos` past
    /// it; fails when there is no byte left.
    pub fn read_from(source: &[u8], pos: &mut usize) -> (res: Result<OpCode, DeserializationError>)
        ensures
            *old(pos) < source@.len() ==> res == Ok::<OpCode, DeserializationError>(
                opcode_of_byte(source@[*old(pos) as int]),
            ) && *final(pos) == *old(pos) + 1,
            *old(pos) >= source@.len() ==> res == Err::<OpCode, DeserializationError>(
                DeserializationError::UnexpectedEOF,
            ) && *final(pos) == *old(pos),
    {
        if *pos < source.len() {
            let value = source[*pos];
            *pos = *pos + 1;
            Ok(OpCode::from_u8(value))
        } else {
            Err(DeserializationError::UnexpectedEOF)
        }
    }
}

// LAWS
// ================================================================================================

/// Decoding the byte of an operation code gives the operation code back.
pub proof fn lemma_opcode_byte_roundtrip(op: OpCode)
    ensures
        opcode_of_byte(opcode_byte(op)) == op,
{
}

/// Every byte encodes an operation code, and encoding that operation code gives the byte
/// back.
pub proof fn lemma_byte_opcode_roundtrip(b: u8)
    ensures
        opcode_byte(opcode_of_byte(b)) == b,
{
}

/// Reading back what `write_into` wrote gives the same operation code.
pub proof fn lemma_write_read_roundtrip(op: OpCode, before: Seq<u8>)
    ensures
        opcode_of_byte(before.push(opcode_byte(op))[before.len() as int]) == op,
{
    lemma_opcode_byte_roundtrip(op);
}

/// The encoding is the one fixed for the serialized format: each operation code is written as
/// its index in the declaration order of `OpCode` (`Assert` is 0, `Sub` is 10, `Mul` is 12,
/// ..., `While` is 255).
pub proof fn lemma_opcode_byte_is_declaration_index()
    ensures
        opcode_byte(OpCode::Assert) == 0,
        opcode_byte(OpCode::AssertWithError) == 1,
        opcode_byte(OpCode::AssertEq) == 2,
        opcode_byte(OpCode::AssertEqWithError) == 3,
        opcode_byte(OpCode::AssertEqw) == 4,
        opcode_byte(OpCode::AssertEqwWithError) == 5,
        opcode_byte(OpCode::Assertz) == 6,
        opcode_byte(OpCode::AssertzWithError) == 7,
        opcode_byte(OpCode::Add) == 8,
        opcode_byte(OpCode::AddImm) == 9,
        opcode_byte(OpCode::Sub) == 10,
        opcode_byte(OpCode::SubImm) == 11,
        opcode_byte(OpCode::Mul) == 12,
        opcode_byte(OpCode::MulImm) == 13,
        opcode_byte(OpCode::Div) == 14,
        opcode_byte(OpCode::DivImm) == 15,
        opcode_byte(OpCode::Neg) == 16,
        opcode_byte(OpCode::Inv) == 17,
        opcode_byte(OpCode::Incr) == 18,
        opcode_byte(OpCode::Pow2) == 19,
        opcode_byte(OpCode::Exp) == 20,
        opcode_byte(OpCode::ExpImm) == 21,
        opcode_byte(OpCode::ExpBitLength) == 22,
        opcode_byte(OpCode::Not) == 23,
        opcode_byte(OpCode::And) == 24,
        opcode_byte(OpCode::Or) == 25,
        opcode_byte(OpCode::Xor) == 26,
        opcode_byte(OpCode::Eq) == 27,
        opcode_byte(OpCode::EqImm) == 28,
        opcode_byte(OpCode::Neq) == 29,
        opcode_byte(OpCode::NeqImm) == 30,
        opcode_byte(OpCode::Eqw) == 31,
        opcode_byte(OpCode::Lt) == 32,
        opcode_byte(OpCode::Lte) == 33,
        opcode_byte(OpCode::Gt) == 34,
        opcode_byte(OpCode::Gte) == 35,
        opcode_byte(OpCode::IsOdd) == 36,
        opcode_byte(OpCode::Ext2Add) == 37,
        opcode_byte(OpCode::Ext2Sub) == 38,
        opcode_byte(OpCode::Ext2Mul) == 39,
        opcode_byte(OpCode::Ext2Div) == 40,
        opcode_byte(OpCode::Ext2Neg) == 41,
        opcode_byte(OpCode::Ext2Inv) == 42,
        opcode_byte(OpCode::U32Test) == 43,
        opcode_byte(OpCode::U32TestW) == 44,
        opcode_byte(OpCode::U32Assert) == 45,
        opcode_byte(OpCode::U32AssertWithError) == 46,
        opcode_byte(OpCode::U32Assert2) == 47,
        opcode_byte(OpCode::U32Assert2WithError) == 48,
        opcode_byte(OpCode::U32AssertW) == 49,
        opcode_byte(OpCode::U32AssertWWithError) == 50,
        opcode_byte(OpCode::U32Split) == 51,
        opcode_byte(OpCode::U32Cast) == 52,
        opcode_byte(OpCode::U32CheckedAdd) == 53,
        opcode_byte(OpCode::U32CheckedAddImm) == 54,
        opcode_byte(OpCode::U32WrappingAdd) == 55,
        opcode_byte(OpCode::U32WrappingAddImm) == 56,
        opcode_byte(OpCode::U32OverflowingAdd) == 57,
        opcode_byte(OpCode::U32OverflowingAddImm) == 58,
        opcode_byte(OpCode::U32OverflowingAdd3) == 59,
        opcode_byte(OpCode::U32WrappingAdd3) == 60,
        opcode_byte(OpCode::U32CheckedSub) == 61,
        opcode_byte(OpCode::U32CheckedSubImm) == 62,
        opcode_byte(OpCode::U32WrappingSub) == 63,
        opcode_byte(OpCode::U32WrappingSubImm) == 64,
        opcode_byte(OpCode::U32OverflowingSub) == 65,
        opcode_byte(OpCode::U32OverflowingSubImm) == 66,
        opcode_byte(OpCode::U32CheckedMul) == 67,
        opcode_byte(OpCode::U32CheckedMulImm) == 68,
        opcode_byte(OpCode::U32WrappingMul) == 69,
        opcode_byte(OpCode::U32WrappingMulImm) == 70,
        opcode_byte(OpCode::U32OverflowingMul) == 71,
        opcode_byte(OpCode::U32OverflowingMulImm) == 72,
        opcode_byte(OpCode::U32OverflowingMadd) == 73,
        opcode_byte(OpCode::U32WrappingMadd) == 74,
        opcode_byte(OpCode::U32CheckedDiv) == 75,
        opcode_byte(OpCode::U32CheckedDivImm) == 76,
        opcode_byte(OpCode::U32UncheckedDiv) == 77,
        opcode_byte(OpCode::U32UncheckedDivImm) == 78,
        opcode_byte(OpCode::U32CheckedMod) == 79,
        opcode_byte(OpCode::U32CheckedModImm) == 80,
        opcode_byte(OpCode::U32UncheckedMod) == 81,
        opcode_byte(OpCode::U32UncheckedModImm) == 82,
        opcode_byte(OpCode::U32CheckedDivMod) == 83,
        opcode_byte(OpCode::U32CheckedDivModImm) == 84,
        opcode_byte(OpCode::U32UncheckedDivMod) == 85,
        opcode_byte(OpCode::U32UncheckedDivModImm) == 86,
        opcode_byte(OpCode::U32CheckedAnd) == 87,
        opcode_byte(OpCode::U32CheckedOr) == 88,
        opcode_byte(OpCode::U32CheckedXor) == 89,
        opcode_byte(OpCode::U32CheckedNot) == 90,
        opcode_byte(OpCode::U32CheckedShr) == 91,
        opcode_byte(OpCode::U32CheckedShrImm) == 92,
        opcode_byte(OpCode::U32UncheckedShr) == 93,
        opcode_byte(OpCode::U32UncheckedShrImm) == 94,
        opcode_byte(OpCode::U32CheckedShl) == 95,
        opcode_byte(OpCode::U32CheckedShlImm) == 96,
        opcode_byte(OpCode::U32UncheckedShl) == 97,
        opcode_byte(OpCode::U32UncheckedShlImm) == 98,
        opcode_byte(OpCode::U32CheckedRotr) == 99,
        opcode_byte(OpCode::U32CheckedRotrImm) == 100,
        opcode_byte(OpCode::U32UncheckedRotr) == 101,
        opcode_byte(OpCode::U32UncheckedRotrImm) == 102,
        opcode_byte(OpCode::U32CheckedRotl) == 103,
        opcode_byte(OpCode::U32CheckedRotlImm) == 104,
        opcode_byte(OpCode::U32UncheckedRotl) == 105,
        opcode_byte(OpCode::U32UncheckedRotlImm) == 106,
        opcode_byte(OpCode::U32CheckedPopcnt) == 107,
        opcode_byte(OpCode::U32UncheckedPopcnt) == 108,
        opcode_byte(OpCode::U32CheckedEq) == 109,
        opcode_byte(OpCode::U32CheckedEqImm) == 110,
        opcode_byte(OpCode::U32CheckedNeq) == 111,
        opcode_byte(OpCode::U32CheckedNeqImm) == 112,
        opcode_byte(OpCode::U32CheckedLt) == 113,
        opcode_byte(OpCode::U32UncheckedLt) == 114,
        opcode_byte(OpCode::U32CheckedLte) == 115,
        opcode_byte(OpCode::U32UncheckedLte) == 116,
        opcode_byte(OpCode::U32CheckedGt) == 117,
        opcode_byte(OpCode::U32UncheckedGt) == 118,
        opcode_byte(OpCode::U32CheckedGte) == 119,
        opcode_byte(OpCode::U32UncheckedGte) == 120,
        opcode_byte(OpCode::U32CheckedMin) == 121,
        opcode_byte(OpCode::U32UncheckedMin) == 122,
        opcode_byte(OpCode::U32CheckedMax) == 123,
        opcode_byte(OpCode::U32UncheckedMax) == 124,
        opcode_byte(OpCode::Drop) == 125,
        opcode_byte(OpCode::DropW) == 126,
        opcode_byte(OpCode::PadW) == 127,
        opcode_byte(OpCode::Dup0) == 128,
        opcode_byte(OpCode::Dup1) == 129,
        opcode_byte(OpCode::Dup2) == 130,
        opcode_byte(OpCode::Dup3) == 131,
        opcode_byte(OpCode::Dup4) == 132,
        opcode_byte(OpCode::Dup5) == 133,
        opcode_byte(OpCode::Dup6) == 134,
        opcode_byte(OpCode::Dup7) == 135,
        opcode_byte(OpCode::Dup8) == 136,
        opcode_byte(OpCode::Dup9) == 137,
        opcode_byte(OpCode::Dup10) == 138,
        opcode_byte(OpCode::Dup11) == 139,
        opcode_byte(OpCode::Dup12) == 140,
        opcode_byte(OpCode::Dup13) == 141,
        opcode_byte(OpCode::Dup14) == 142,
        opcode_byte(OpCode::Dup15) == 143,
        opcode_byte(OpCode::DupW0) == 144,
        opcode_byte(OpCode::DupW1) == 145,
        opcode_byte(OpCode::DupW2) == 146,
        opcode_byte(OpCode::DupW3) == 147,
        opcode_byte(OpCode::Swap1) == 148,
        opcode_byte(OpCode::Swap2) == 149,
        opcode_byte(OpCode::Swap3) == 150,
        opcode_byte(OpCode::Swap4) == 151,
        opcode_byte(OpCode::Swap5) == 152,
        opcode_byte(OpCode::Swap6) == 153,
        opcode_byte(OpCode::Swap7) == 154,
        opcode_byte(OpCode::Swap8) == 155,
        opcode_byte(OpCode::Swap9) == 156,
        opcode_byte(OpCode::Swap10) == 157,
        opcode_byte(OpCode::Swap11) == 158,
        opcode_byte(OpCode::Swap12) == 159,
        opcode_byte(OpCode::Swap13) == 160,
        opcode_byte(OpCode::Swap14) == 161,
        opcode_byte(OpCode::Swap15) == 162,
        opcode_byte(OpCode::SwapW1) == 163,
        opcode_byte(OpCode::SwapW2) == 164,
        opcode_byte(OpCode::SwapW3) == 165,
        opcode_byte(OpCode::SwapDW) == 166,
        opcode_byte(OpCode::MovUp2) == 167,
        opcode_byte(OpCode::MovUp3) == 168,
        opcode_byte(OpCode::MovUp4) == 169,
        opcode_byte(OpCode::MovUp5) == 170,
        opcode_byte(OpCode::MovUp6) == 171,
        opcode_byte(OpCode::MovUp7) == 172,
        opcode_byte(OpCode::MovUp8) == 173,
        opcode_byte(OpCode::MovUp9) == 174,
        opcode_byte(OpCode::MovUp10) == 175,
        opcode_byte(OpCode::MovUp11) == 176,
        opcode_byte(OpCode::MovUp12) == 177,
        opcode_byte(OpCode::MovUp13) == 178,
        opcode_byte(OpCode::MovUp14) == 179,
        opcode_byte(OpCode::MovUp15) == 180,
        opcode_byte(OpCode::MovUpW2) == 181,
        opcode_byte(OpCode::MovUpW3) == 182,
        opcode_byte(OpCode::MovDn2) == 183,
        opcode_byte(OpCode::MovDn3) == 184,
        opcode_byte(OpCode::MovDn4) == 185,
        opcode_byte(OpCode::MovDn5) == 186,
        opcode_byte(OpCode::MovDn6) == 187,
        opcode_byte(OpCode::MovDn7) == 188,
        opcode_byte(OpCode::MovDn8) == 189,
        opcode_byte(OpCode::MovDn9) == 190,
        opcode_byte(OpCode::MovDn10) == 191,
        opcode_byte(OpCode::MovDn11) == 192,
        opcode_byte(OpCode::MovDn12) == 193,
        opcode_byte(OpCode::MovDn13) == 194,
        opcode_byte(OpCode::MovDn14) == 195,
        opcode_byte(OpCode::MovDn15) == 196,
        opcode_byte(OpCode::MovDnW2) == 197,
        opcode_byte(OpCode::MovDnW3) == 198,
        opcode_byte(OpCode::CSwap) == 199,
        opcode_byte(OpCode::CSwapW) == 200,
        opcode_byte(OpCode::CDrop) == 201,
        opcode_byte(OpCode::CDropW) == 202,
        opcode_byte(OpCode::PushU8) == 203,
        opcode_byte(OpCode::PushU16) == 204,
        opcode_byte(OpCode::PushU32) == 205,
        opcode_byte(OpCode::PushFelt) == 206,
        opcode_byte(OpCode::PushWord) == 207,
        opcode_byte(OpCode::PushU8List) == 208,
        opcode_byte(OpCode::PushU16List) == 209,
        opcode_byte(OpCode::PushU32List) == 210,
        opcode_byte(OpCode::PushFeltList) == 211,
        opcode_byte(OpCode::Locaddr) == 212,
        opcode_byte(OpCode::Sdepth) == 213,
        opcode_byte(OpCode::Caller) == 214,
        opcode_byte(OpCode::Clk) == 215,
        opcode_byte(OpCode::MemLoad) == 216,
        opcode_byte(OpCode::MemLoadImm) == 217,
        opcode_byte(OpCode::MemLoadW) == 218,
        opcode_byte(OpCode::MemLoadWImm) == 219,
        opcode_byte(OpCode::LocLoad) == 220,
        opcode_byte(OpCode::LocLoadW) == 221,
        opcode_byte(OpCode::MemStore) == 222,
        opcode_byte(OpCode::MemStoreImm) == 223,
        opcode_byte(OpCode::LocStore) == 224,
        opcode_byte(OpCode::MemStoreW) == 225,
        opcode_byte(OpCode::MemStoreWImm) == 226,
        opcode_byte(OpCode::LocStoreW) == 227,
        opcode_byte(OpCode::MemStream) == 228,
        opcode_byte(OpCode::AdvPipe) == 229,
        opcode_byte(OpCode::AdvPush) == 230,
        opcode_byte(OpCode::AdvLoadW) == 231,
        opcode_byte(OpCode::AdvInject) == 232,
        opcode_byte(OpCode::Hash) == 233,
        opcode_byte(OpCode::HMerge) == 234,
        opcode_byte(OpCode::HPerm) == 235,
        opcode_byte(OpCode::MTreeGet) == 236,
        opcode_byte(OpCode::MTreeSet) == 237,
        opcode_byte(OpCode::MTreeMerge) == 238,
        opcode_byte(OpCode::MTreeVerify) == 239,
        opcode_byte(OpCode::FriExt2Fold4) == 240,
        opcode_byte(OpCode::ExecLocal) == 241,
        opcode_byte(OpCode::ExecImported) == 242,
        opcode_byte(OpCode::CallLocal) == 243,
        opcode_byte(OpCode::CallMastRoot) == 244,
        opcode_byte(OpCode::CallImported) == 245,
        opcode_byte(OpCode::SysCall) == 246,
        opcode_byte(OpCode::DynExec) == 247,
        opcode_byte(OpCode::DynCall) == 248,
        opcode_byte(OpCode::ProcRefLocal) == 249,
        opcode_byte(OpCode::ProcRefImported) == 250,
        opcode_byte(OpCode::Debug) == 251,
        opcode_byte(OpCode::Emit) == 252,
        opcode_byte(OpCode::IfElse) == 253,
        opcode_byte(OpCode::Repeat) == 254,
        opcode_byte(OpCode::While) == 255,
{
}

/// Each byte reads back as the operation code declared at that index of `OpCode`.
pub proof fn lemma_byte_reads_as_declared_opcode()
    ensures
        opcode_of_byte(0) == OpCode::Assert,
        opcode_of_byte(1) == OpCode::AssertWithError,
        opcode_of_byte(2) == OpCode::AssertEq,
        opcode_of_byte(3) == OpCode::AssertEqWithError,
        opcode_of_byte(4) == OpCode::AssertEqw,
        opcode_of_byte(5) == OpCode::AssertEqwWithError,
        opcode_of_byte(6) == OpCode::Assertz,
        opcode_of_byte(7) == OpCode::AssertzWithError,
        opcode_of_byte(8) == OpCode::Add,
        opcode_of_byte(9) == OpCode::AddImm,
        opcode_of_byte(10) == OpCode::Sub,
        opcode_of_byte(11) == OpCode::SubImm,
        opcode_of_byte(12) == OpCode::Mul,
        opcode_of_byte(13) == OpCode::MulImm,
        opcode_of_byte(14) == OpCode::Div,
        opcode_of_byte(15) == OpCode::DivImm,
        opcode_of_byte(16) == OpCode::Neg,
        opcode_of_byte(17) == OpCode::Inv,
        opcode_of_byte(18) == OpCode::Incr,
        opcode_of_byte(19) == OpCode::Pow2,
        opcode_of_byte(20) == OpCode::Exp,
        opcode_of_byte(21) == OpCode::ExpImm,
        opcode_of_byte(22) == OpCode::ExpBitLength,
        opcode_of_byte(23) == OpCode::Not,
        opcode_of_byte(24) == OpCode::And,
        opcode_of_byte(25) == OpCode::Or,
        opcode_of_byte(26) == OpCode::Xor,
        opcode_of_byte(27) == OpCode::Eq,
        opcode_of_byte(28) == OpCode::EqImm,
        opcode_of_byte(29) == OpCode::Neq,
        opcode_of_byte(30) == OpCode::NeqImm,
        opcode_of_byte(31) == OpCode::Eqw,
        opcode_of_byte(32) == OpCode::Lt,
        opcode_of_byte(33) == OpCode::Lte,
        opcode_of_byte(34) == OpCode::Gt,
        opcode_of_byte(35) == OpCode::Gte,
        opcode_of_byte(36) == OpCode::IsOdd,
        opcode_of_byte(37) == OpCode::Ext2Add,
        opcode_of_byte(38) == OpCode::Ext2Sub,
        opcode_of_byte(39) == OpCode::Ext2Mul,
        opcode_of_byte(40) == OpCode::Ext2Div,
        opcode_of_byte(41) == OpCode::Ext2Neg,
        opcode_of_byte(42) == OpCode::Ext2Inv,
        opcode_of_byte(43) == OpCode::U32Test,
        opcode_of_byte(44) == OpCode::U32TestW,
        opcode_of_byte(45) == OpCode::U32Assert,
        opcode_of_byte(46) == OpCode::U32AssertWithError,
        opcode_of_byte(47) == OpCode::U32Assert2,
        opcode_of_byte(48) == OpCode::U32Assert2WithError,
        opcode_of_byte(49) == OpCode::U32AssertW,
        opcode_of_byte(50) == OpCode::U32AssertWWithError,
        opcode_of_byte(51) == OpCode::U32Split,
        opcode_of_byte(52) == OpCode::U32Cast,
        opcode_of_byte(53) == OpCode::U32CheckedAdd,
        opcode_of_byte(54) == OpCode::U32CheckedAddImm,
        opcode_of_byte(55) == OpCode::U32WrappingAdd,
        opcode_of_byte(56) == OpCode::U32WrappingAddImm,
        opcode_of_byte(57) == OpCode::U32OverflowingAdd,
        opcode_of_byte(58) == OpCode::U32OverflowingAddImm,
        opcode_of_byte(59) == OpCode::U32OverflowingAdd3,
        opcode_of_byte(60) == OpCode::U32WrappingAdd3,
        opcode_of_byte(61) == OpCode::U32CheckedSub,
        opcode_of_byte(62) == OpCode::U32CheckedSubImm,
        opcode_of_byte(63) == OpCode::U32WrappingSub,
        opcode_of_byte(64) == OpCode::U32WrappingSubImm,
        opcode_of_byte(65) == OpCode::U32OverflowingSub,
        opcode_of_byte(66) == OpCode::U32OverflowingSubImm,
        opcode_of_byte(67) == OpCode::U32CheckedMul,
        opcode_of_byte(68) == OpCode::U32CheckedMulImm,
        opcode_of_byte(69) == OpCode::U32WrappingMul,
        opcode_of_byte(70) == OpCode::U32WrappingMulImm,
        opcode_of_byte(71) == OpCode::U32OverflowingMul,
        opcode_of_byte(72) == OpCode::U32OverflowingMulImm,
        opcode_of_byte(73) == OpCode::U32OverflowingMadd,
        opcode_of_byte(74) == OpCode::U32WrappingMadd,
        opcode_of_byte(75) == OpCode::U32CheckedDiv,
        opcode_of_byte(76) == OpCode::U32CheckedDivImm,
        opcode_of_byte(77) == OpCode::U32UncheckedDiv,
        opcode_of_byte(78) == OpCode::U32UncheckedDivImm,
        opcode_of_byte(79) == OpCode::U32CheckedMod,
        opcode_of_byte(80) == OpCode::U32CheckedModImm,
        opcode_of_byte(81) == OpCode::U32UncheckedMod,
        opcode_of_byte(82) == OpCode::U32UncheckedModImm,
        opcode_of_byte(83) == OpCode::U32CheckedDivMod,
        opcode_of_byte(84) == OpCode::U32CheckedDivModImm,
        opcode_of_byte(85) == OpCode::U32UncheckedDivMod,
        opcode_of_byte(86) == OpCode::U32UncheckedDivModImm,
        opcode_of_byte(87) == OpCode::U32CheckedAnd,
        opcode_of_byte(88) == OpCode::U32CheckedOr,
        opcode_of_byte(89) == OpCode::U32CheckedXor,
        opcode_of_byte(90) == OpCode::U32CheckedNot,
        opcode_of_byte(91) == OpCode::U32CheckedShr,
        opcode_of_byte(92) == OpCode::U32CheckedShrImm,
        opcode_of_byte(93) == OpCode::U32UncheckedShr,
        opcode_of_byte(94) == OpCode::U32UncheckedShrImm,
        opcode_of_byte(95) == OpCode::U32CheckedShl,
        opcode_of_byte(96) == OpCode::U32CheckedShlImm,
        opcode_of_byte(97) == OpCode::U32UncheckedShl,
        opcode_of_byte(98) == OpCode::U32UncheckedShlImm,
        opcode_of_byte(99) == OpCode::U32CheckedRotr,
        opcode_of_byte(100) == OpCode::U32CheckedRotrImm,
        opcode_of_byte(101) == OpCode::U32UncheckedRotr,
        opcode_of_byte(102) == OpCode::U32UncheckedRotrImm,
        opcode_of_byte(103) == OpCode::U32CheckedRotl,
        opcode_of_byte(104) == OpCode::U32CheckedRotlImm,
        opcode_of_byte(105) == OpCode::U32UncheckedRotl,
        opcode_of_byte(106) == OpCode::U32UncheckedRotlImm,
        opcode_of_byte(107) == OpCode::U32CheckedPopcnt,
        opcode_of_byte(108) == OpCode::U32UncheckedPopcnt,
        opcode_of_byte(109) == OpCode::U32CheckedEq,
        opcode_of_byte(110) == OpCode::U32CheckedEqImm,
        opcode_of_byte(111) == OpCode::U32CheckedNeq,
        opcode_of_byte(112) == OpCode::U32CheckedNeqImm,
        opcode_of_byte(113) == OpCode::U32CheckedLt,
        opcode_of_byte(114) == OpCode::U32UncheckedLt,
        opcode_of_byte(115) == OpCode::U32CheckedLte,
        opcode_of_byte(116) == OpCode::U32UncheckedLte,
        opcode_of_byte(117) == OpCode::U32CheckedGt,
        opcode_of_byte(118) == OpCode::U32UncheckedGt,
        opcode_of_byte(119) == OpCode::U32CheckedGte,
        opcode_of_byte(120) == OpCode::U32UncheckedGte,
        opcode_of_byte(121) == OpCode::U32CheckedMin,
        opcode_of_byte(122) == OpCode::U32UncheckedMin,
        opcode_of_byte(123) == OpCode::U32CheckedMax,
        opcode_of_byte(124) == OpCode::U32UncheckedMax,
        opcode_of_byte(125) == OpCode::Drop,
        opcode_of_byte(126) == OpCode::DropW,
        opcode_of_byte(127) == OpCode::PadW,
        opcode_of_byte(128) == OpCode::Dup0,
        opcode_of_byte(129) == OpCode::Dup1,
        opcode_of_byte(130) == OpCode::Dup2,
        opcode_of_byte(131) == OpCode::Dup3,
        opcode_of_byte(132) == OpCode::Dup4,
        opcode_of_byte(133) == OpCode::Dup5,
        opcode_of_byte(134) == OpCode::Dup6,
        opcode_of_byte(135) == OpCode::Dup7,
        opcode_of_byte(136) == OpCode::Dup8,
        opcode_of_byte(137) == OpCode::Dup9,
        opcode_of_byte(138) == OpCode::Dup10,
        opcode_of_byte(139) == OpCode::Dup11,
        opcode_of_byte(140) == OpCode::Dup12,
        opcode_of_byte(141) == OpCode::Dup13,
        opcode_of_byte(142) == OpCode::Dup14,
        opcode_of_byte(143) == OpCode::Dup15,
        opcode_of_byte(144) == OpCode::DupW0,
        opcode_of_byte(145) == OpCode::DupW1,
        opcode_of_byte(146) == OpCode::DupW2,
        opcode_of_byte(147) == OpCode::DupW3,
        opcode_of_byte(148) == OpCode::Swap1,
        opcode_of_byte(149) == OpCode::Swap2,
        opcode_of_byte(150) == OpCode::Swap3,
        opcode_of_byte(151) == OpCode::Swap4,
        opcode_of_byte(152) == OpCode::Swap5,
        opcode_of_byte(153) == OpCode::Swap6,
        opcode_of_byte(154) == OpCode::Swap7,
        opcode_of_byte(155) == OpCode::Swap8,
        opcode_of_byte(156) == OpCode::Swap9,
        opcode_of_byte(157) == OpCode::Swap10,
        opcode_of_byte(158) == OpCode::Swap11,
        opcode_of_byte(159) == OpCode::Swap12,
        opcode_of_byte(160) == OpCode::Swap13,
        opcode_of_byte(161) == OpCode::Swap14,
        opcode_of_byte(162) == OpCode::Swap15,
        opcode_of_byte(163) == OpCode::SwapW1,
        opcode_of_byte(164) == OpCode::SwapW2,
        opcode_of_byte(165) == OpCode::SwapW3,
        opcode_of_byte(166) == OpCode::SwapDW,
        opcode_of_byte(167) == OpCode::MovUp2,
        opcode_of_byte(168) == OpCode::MovUp3,
        opcode_of_byte(169) == OpCode::MovUp4,
        opcode_of_byte(170) == OpCode::MovUp5,
        opcode_of_byte(171) == OpCode::MovUp6,
        opcode_of_byte(172) == OpCode::MovUp7,
        opcode_of_byte(173) == OpCode::MovUp8,
        opcode_of_byte(174) == OpCode::MovUp9,
        opcode_of_byte(175) == OpCode::MovUp10,
        opcode_of_byte(176) == OpCode::MovUp11,
        opcode_of_byte(177) == OpCode::MovUp12,
        opcode_of_byte(178) == OpCode::MovUp13,
        opcode_of_byte(179) == OpCode::MovUp14,
        opcode_of_byte(180) == OpCode::MovUp15,
        opcode_of_byte(181) == OpCode::MovUpW2,
        opcode_of_byte(182) == OpCode::MovUpW3,
        opcode_of_byte(183) == OpCode::MovDn2,
        opcode_of_byte(184) == OpCode::MovDn3,
        opcode_of_byte(185) == OpCode::MovDn4,
        opcode_of_byte(186) == OpCode::MovDn5,
        opcode_of_byte(187) == OpCode::MovDn6,
        opcode_of_byte(188) == OpCode::MovDn7,
        opcode_of_byte(189) == OpCode::MovDn8,
        opcode_of_byte(190) == OpCode::MovDn9,
        opcode_of_byte(191) == OpCode::MovDn10,
        opcode_of_byte(192) == OpCode::MovDn11,
        opcode_of_byte(193) == OpCode::MovDn12,
        opcode_of_byte(194) == OpCode::MovDn13,
        opcode_of_byte(195) == OpCode::MovDn14,
        opcode_of_byte(196) == OpCode::MovDn15,
        opcode_of_byte(197) == OpCode::MovDnW2,
        opcode_of_byte(198) == OpCode::MovDnW3,
        opcode_of_byte(199) == OpCode::CSwap,
        opcode_of_byte(200) == OpCode::CSwapW,
        opcode_of_byte(201) == OpCode::CDrop,
        opcode_of_byte(202) == OpCode::CDropW,
        opcode_of_byte(203) == OpCode::PushU8,
        opcode_of_byte(204) == OpCode::PushU16,
        opcode_of_byte(205) == OpCode::PushU32,
        opcode_of_byte(206) == OpCode::PushFelt,
        opcode_of_byte(207) == OpCode::PushWord,
        opcode_of_byte(208) == OpCode::PushU8List,
        opcode_of_byte(209) == OpCode::PushU16List,
        opcode_of_byte(210) == OpCode::PushU32List,
        opcode_of_byte(211) == OpCode::PushFeltList,
        opcode_of_byte(212) == OpCode::Locaddr,
        opcode_of_byte(213) == OpCode::Sdepth,
        opcode_of_byte(214) == OpCode::Caller,
        opcode_of_byte(215) == OpCode::Clk,
        opcode_of_byte(216) == OpCode::MemLoad,
        opcode_of_byte(217) == OpCode::MemLoadImm,
        opcode_of_byte(218) == OpCode::MemLoadW,
        opcode_of_byte(219) == OpCode::MemLoadWImm,
        opcode_of_byte(220) == OpCode::LocLoad,
        opcode_of_byte(221) == OpCode::LocLoadW,
        opcode_of_byte(222) == OpCode::MemStore,
        opcode_of_byte(223) == OpCode::MemStoreImm,
        opcode_of_byte(224) == OpCode::LocStore,
        opcode_of_byte(225) == OpCode::MemStoreW,
        opcode_of_byte(226) == OpCode::MemStoreWImm,
        opcode_of_byte(227) == OpCode::LocStoreW,
        opcode_of_byte(228) == OpCode::MemStream,
        opcode_of_byte(229) == OpCode::AdvPipe,
        opcode_of_byte(230) == OpCode::AdvPush,
        opcode_of_byte(231) == OpCode::AdvLoadW,
        opcode_of_byte(232) == OpCode::AdvInject,
        opcode_of_byte(233) == OpCode::Hash,
        opcode_of_byte(234) == OpCode::HMerge,
        opcode_of_byte(235) == OpCode::HPerm,
        opcode_of_byte(236) == OpCode::MTreeGet,
        opcode_of_byte(237) == OpCode::MTreeSet,
        opcode_of_byte(238) == OpCode::MTreeMerge,
        opcode_of_byte(239) == OpCode::MTreeVerify,
        opcode_of_byte(240) == OpCode::FriExt2Fold4,
        opcode_of_byte(241) == OpCode::ExecLocal,
        opcode_of_byte(242) == OpCode::ExecImported,
        opcode_of_byte(243) == OpCode::CallLocal,
        opcode_of_byte(244) == OpCode::CallMastRoot,
        opcode_of_byte(245) == OpCode::CallImported,
        opcode_of_byte(246) == OpCode::SysCall,
        opcode_of_byte(247) == OpCode::DynExec,
        opcode_of_byte(248) == OpCode::DynCall,
        opcode_of_byte(249) == OpCode::ProcRefLocal,
        opcode_of_byte(250) == OpCode::ProcRefImported,
        opcode_of_byte(251) == OpCode::Debug,
        opcode_of_byte(252) == OpCode::Emit,
        opcode_of_byte(253) == OpCode::IfElse,
        opcode_of_byte(254) == OpCode::Repeat,
        opcode_of_byte(255) == OpCode::While,
{
    lemma_opcode_byte_is_declaration_index();
    lemma_opcode_byte_roundtrip(OpCode::Assert);
    lemma_opcode_byte_roundtrip(OpCode::AssertWithError);
    lemma_opcode_byte_roundtrip(OpCode::AssertEq);
    lemma_opcode_byte_roundtrip(OpCode::AssertEqWithError);
    lemma_opcode_byte_roundtrip(OpCode::AssertEqw);
    lemma_opcode_byte_roundtrip(OpCode::AssertEqwWithError);
    lemma_opcode_byte_roundtrip(OpCode::Assertz);
    lemma_opcode_byte_roundtrip(OpCode::AssertzWithError);
    lemma_opcode_byte_roundtrip(OpCode::Add);
    lemma_opcode_byte_roundtrip(OpCode::AddImm);
    lemma_opcode_byte_roundtrip(OpCode::Sub);
    lemma_opcode_byte_roundtrip(OpCode::SubImm);
    lemma_opcode_byte_roundtrip(OpCode::Mul);
    lemma_opcode_byte_roundtrip(OpCode::MulImm);
    lemma_opcode_byte_roundtrip(OpCode::Div);
    lemma_opcode_byte_roundtrip(OpCode::DivImm);
    lemma_opcode_byte_roundtrip(OpCode::Neg);
    lemma_opcode_byte_roundtrip(OpCode::Inv);
    lemma_opcode_byte_roundtrip(OpCode::Incr);
    lemma_opcode_byte_roundtrip(OpCode::Pow2);
    lemma_opcode_byte_roundtrip(OpCode::Exp);
    lemma_opcode_byte_roundtrip(OpCode::ExpImm);
    lemma_opcode_byte_roundtrip(OpCode::ExpBitLength);
    lemma_opcode_byte_roundtrip(OpCode::Not);
    lemma_opcode_byte_roundtrip(OpCode::And);
    lemma_opcode_byte_roundtrip(OpCode::Or);
    lemma_opcode_byte_roundtrip(OpCode::Xor);
    lemma_opcode_byte_roundtrip(OpCode::Eq);
    lemma_opcode_byte_roundtrip(OpCode::EqImm);
    lemma_opcode_byte_roundtrip(OpCode::Neq);
    lemma_opcode_byte_roundtrip(OpCode::NeqImm);
    lemma_opcode_byte_roundtrip(OpCode::Eqw);
    lemma_opcode_byte_roundtrip(OpCode::Lt);
    lemma_opcode_byte_roundtrip(OpCode::Lte);
    lemma_opcode_byte_roundtrip(OpCode::Gt);
    lemma_opcode_byte_roundtrip(OpCode::Gte);
    lemma_opcode_byte_roundtrip(OpCode::IsOdd);
    lemma_opcode_byte_roundtrip(OpCode::Ext2Add);
    lemma_opcode_byte_roundtrip(OpCode::Ext2Sub);
    lemma_opcode_byte_roundtrip(OpCode::Ext2Mul);
    lemma_opcode_byte_roundtrip(OpCode::Ext2Div);
    lemma_opcode_byte_roundtrip(OpCode::Ext2Neg);
    lemma_opcode_byte_roundtrip(OpCode::Ext2Inv);
    lemma_opcode_byte_roundtrip(OpCode::U32Test);
    lemma_opcode_byte_roundtrip(OpCode::U32TestW);
    lemma_opcode_byte_roundtrip(OpCode::U32Assert);
    lemma_opcode_byte_roundtrip(OpCode::U32AssertWithError);
    lemma_opcode_byte_roundtrip(OpCode::U32Assert2);
    lemma_opcode_byte_roundtrip(OpCode::U32Assert2WithError);
    lemma_opcode_byte_roundtrip(OpCode::U32AssertW);
    lemma_opcode_byte_roundtrip(OpCode::U32AssertWWithError);
    lemma_opcode_byte_roundtrip(OpCode::U32Split);
    lemma_opcode_byte_roundtrip(OpCode::U32Cast);
    lemma_opcode_byte_roundtrip(OpCode::U32CheckedAdd);
    lemma_opcode_byte_roundtrip(OpCode::U32CheckedAddImm);
    lemma_opcode_byte_roundtrip(OpCode::U32WrappingAdd);
    lemma_opcode_byte_roundtrip(OpCode::U32WrappingAddImm);
    lemma_opcode_byte_roundtrip(OpCode::U32OverflowingAdd);
    lemma_opcode_byte_roundtrip(OpCode::U32OverflowingAddImm);
    lemma_opcode_byte_roundtrip(OpCode::U32OverflowingAdd3);
    lemma_opcode_byte_roundtrip(OpCode::U32WrappingAdd3);
    lemma_opcode_byte_roundtrip(OpCode::U32CheckedSub);
    lemma_opcode_byte_roundtrip(OpCode::U32CheckedSubImm);
    lemma_opcode_byte_roundtrip(OpCode::U32WrappingSub);
    lemma_opcode_byte_roundtrip(OpCode::U32WrappingSubImm);
    lemma_opcode_byte_roundtrip(OpCode::U32OverflowingSub);
    lemma_opcode_byte_roundtrip(OpCode::U32OverflowingSubImm);
    lemma_opcode_byte_roundtrip(OpCode::U32CheckedMul);
    lemma_opcode_byte_roundtrip(OpCode::U32CheckedMulImm);
    lemma_opcode_byte_roundtrip(OpCode::U32WrappingMul);
    lemma_opcode_byte_roundtrip(OpCode::U32WrappingMulImm);
    lemma_opcode_byte_roundtrip(OpCode::U32OverflowingMul);
    lemma_opcode_byte_roundtrip(OpCode::U32OverflowingMulImm);
    lemma_opcode_byte_roundtrip(OpCode::U32OverflowingMadd);
    lemma_opcode_byte_roundtrip(OpCode::U32WrappingMadd);
    lemma_opcode_byte_roundtrip(OpCode::U32CheckedDiv);
    lemma_opcode_byte_roundtrip(OpCode::U32CheckedDivImm);
    lemma_opcode_byte_roundtrip(OpCode::U32UncheckedDiv);
    lemma_opcode_byte_roundtrip(OpCode::U32UncheckedDivImm);
    lemma_opcode_byte_roundtrip(OpCode::U32CheckedMod);
    lemma_opcode_byte_roundtrip(OpCode::U32CheckedModImm);
    lemma_opcode_byte_roundtrip(OpCode::U32UncheckedMod);
    lemma_opcode_byte_roundtrip(OpCode::U32UncheckedModImm);
    lemma_opcode_byte_roundtrip(OpCode::U32CheckedDivMod);
    lemma_opcode_byte_roundtrip(OpCode::U32CheckedDivModImm);
    lemma_opcode_byte_roundtrip(OpCode::U32UncheckedDivMod);
    lemma_opcode_byte_roundtrip(OpCode::U32UncheckedDivModImm);
    lemma_opcode_byte_roundtrip(OpCode::U32CheckedAnd);
    lemma_opcode_byte_roundtrip(OpCode::U32CheckedOr);
    lemma_opcode_byte_roundtrip(OpCode::U32CheckedXor);
    lemma_opcode_byte_roundtrip(OpCode::U32CheckedNot);
    lemma_opcode_byte_roundtrip(OpCode::U32CheckedShr);
    lemma_opcode_byte_roundtrip(OpCode::U32CheckedShrImm);
    lemma_opcode_byte_roundtrip(OpCode::U32UncheckedShr);
    lemma_opcode_byte_roundtrip(OpCode::U32UncheckedShrImm);
    lemma_opcode_byte_roundtrip(OpCode::U32CheckedShl);
    lemma_opcode_byte_roundtrip(OpCode::U32CheckedShlImm);
    lemma_opcode_byte_roundtrip(OpCode::U32UncheckedShl);
    lemma_opcode_byte_roundtrip(OpCode::U32UncheckedShlImm);
    lemma_opcode_byte_roundtrip(OpCode::U32CheckedRotr);
    lemma_opcode_byte_roundtrip(OpCode::U32CheckedRotrImm);
    lemma_opcode_byte_roundtrip(OpCode::U32UncheckedRotr);
    lemma_opcode_byte_roundtrip(OpCode::U32UncheckedRotrImm);
    lemma_opcode_byte_roundtrip(OpCode::U32CheckedRotl);
    lemma_opcode_byte_roundtrip(OpCode::U32CheckedRotlImm);
    lemma_opcode_byte_roundtrip(OpCode::U32UncheckedRotl);
    lemma_opcode_byte_roundtrip(OpCode::U32UncheckedRotlImm);
    lemma_opcode_byte_roundtrip(OpCode::U32CheckedPopcnt);
    lemma_opcode_byte_roundtrip(OpCode::U32UncheckedPopcnt);
    lemma_opcode_byte_roundtrip(OpCode::U32CheckedEq);
    lemma_opcode_byte_roundtrip(OpCode::U32CheckedEqImm);
    lemma_opcode_byte_roundtrip(OpCode::U32CheckedNeq);
    lemma_opcode_byte_roundtrip(OpCode::U32CheckedNeqImm);
    lemma_opcode_byte_roundtrip(OpCode::U32CheckedLt);
    lemma_opcode_byte_roundtrip(OpCode::U32UncheckedLt);
    lemma_opcode_byte_roundtrip(OpCode::U32CheckedLte);
    lemma_opcode_byte_roundtrip(OpCode::U32UncheckedLte);
    lemma_opcode_byte_roundtrip(OpCode::U32CheckedGt);
    lemma_opcode_byte_roundtrip(OpCode::U32UncheckedGt);
    lemma_opcode_byte_roundtrip(OpCode::U32CheckedGte);
    lemma_opcode_byte_roundtrip(OpCode::U32UncheckedGte);
    lemma_opcode_byte_roundtrip(OpCode::U32CheckedMin);
    lemma_opcode_byte_roundtrip(OpCode::U32UncheckedMin);
    lemma_opcode_byte_roundtrip(OpCode::U32CheckedMax);
    lemma_opcode_byte_roundtrip(OpCode::U32UncheckedMax);
    lemma_opcode_byte_roundtrip(OpCode::Drop);
    lemma_opcode_byte_roundtrip(OpCode::DropW);
    lemma_opcode_byte_roundtrip(OpCode::PadW);
    lemma_opcode_byte_roundtrip(OpCode::Dup0);
    lemma_opcode_byte_roundtrip(OpCode::Dup1);
    lemma_opcode_byte_roundtrip(OpCode::Dup2);
    lemma_opcode_byte_roundtrip(OpCode::Dup3);
    lemma_opcode_byte_roundtrip(OpCode::Dup4);
    lemma_opcode_byte_roundtrip(OpCode::Dup5);
    lemma_opcode_byte_roundtrip(OpCode::Dup6);
    lemma_opcode_byte_roundtrip(OpCode::Dup7);
    lemma_opcode_byte_roundtrip(OpCode::Dup8);
    lemma_opcode_byte_roundtrip(OpCode::Dup9);
    lemma_opcode_byte_roundtrip(OpCode::Dup10);
    lemma_opcode_byte_roundtrip(OpCode::Dup11);
    lemma_opcode_byte_roundtrip(OpCode::Dup12);
    lemma_opcode_byte_roundtrip(OpCode::Dup13);
    lemma_opcode_byte_roundtrip(OpCode::Dup14);
    lemma_opcode_byte_roundtrip(OpCode::Dup15);
    lemma_opcode_byte_roundtrip(OpCode::DupW0);
    lemma_opcode_byte_roundtrip(OpCode::DupW1);
    lemma_opcode_byte_roundtrip(OpCode::DupW2);
    lemma_opcode_byte_roundtrip(OpCode::DupW3);
    lemma_opcode_byte_roundtrip(OpCode::Swap1);
    lemma_opcode_byte_roundtrip(OpCode::Swap2);
    lemma_opcode_byte_roundtrip(OpCode::Swap3);
    lemma_opcode_byte_roundtrip(OpCode::Swap4);
    lemma_opcode_byte_roundtrip(OpCode::Swap5);
    lemma_opcode_byte_roundtrip(OpCode::Swap6);
    lemma_opcode_byte_roundtrip(OpCode::Swap7);
    lemma_opcode_byte_roundtrip(OpCode::Swap8);
    lemma_opcode_byte_roundtrip(OpCode::Swap9);
    lemma_opcode_byte_roundtrip(OpCode::Swap10);
    lemma_opcode_byte_roundtrip(OpCode::Swap11);
    lemma_opcode_byte_roundtrip(OpCode::Swap12);
    lemma_opcode_byte_roundtrip(OpCode::Swap13);
    lemma_opcode_byte_roundtrip(OpCode::Swap14);
    lemma_opcode_byte_roundtrip(OpCode::Swap15);
    lemma_opcode_byte_roundtrip(OpCode::SwapW1);
    lemma_opcode_byte_roundtrip(OpCode::SwapW2);
    lemma_opcode_byte_roundtrip(OpCode::SwapW3);
    lemma_opcode_byte_roundtrip(OpCode::SwapDW);
    lemma_opcode_byte_roundtrip(OpCode::MovUp2);
    lemma_opcode_byte_roundtrip(OpCode::MovUp3);
    lemma_opcode_byte_roundtrip(OpCode::MovUp4);
    lemma_opcode_byte_roundtrip(OpCode::MovUp5);
    lemma_opcode_byte_roundtrip(OpCode::MovUp6);
    lemma_opcode_byte_roundtrip(OpCode::MovUp7);
    lemma_opcode_byte_roundtrip(OpCode::MovUp8);
    lemma_opcode_byte_roundtrip(OpCode::MovUp9);
    lemma_opcode_byte_roundtrip(OpCode::MovUp10);
    lemma_opcode_byte_roundtrip(OpCode::MovUp11);
    lemma_opcode_byte_roundtrip(OpCode::MovUp12);
    lemma_opcode_byte_roundtrip(OpCode::MovUp13);
    lemma_opcode_byte_roundtrip(OpCode::MovUp14);
    lemma_opcode_byte_roundtrip(OpCode::MovUp15);
    lemma_opcode_byte_roundtrip(OpCode::MovUpW2);
    lemma_opcode_byte_roundtrip(OpCode::MovUpW3);
    lemma_opcode_byte_roundtrip(OpCode::MovDn2);
    lemma_opcode_byte_roundtrip(OpCode::MovDn3);
    lemma_opcode_byte_roundtrip(OpCode::MovDn4);
    lemma_opcode_byte_roundtrip(OpCode::MovDn5);
    lemma_opcode_byte_roundtrip(OpCode::MovDn6);
    lemma_opcode_byte_roundtrip(OpCode::MovDn7);
    lemma_opcode_byte_roundtrip(OpCode::MovDn8);
    lemma_opcode_byte_roundtrip(OpCode::MovDn9);
    lemma_opcode_byte_roundtrip(OpCode::MovDn10);
    lemma_opcode_byte_roundtrip(OpCode::MovDn11);
    lemma_opcode_byte_roundtrip(OpCode::MovDn12);
    lemma_opcode_byte_roundtrip(OpCode::MovDn13);
    lemma_opcode_byte_roundtrip(OpCode::MovDn14);
    lemma_opcode_byte_roundtrip(OpCode::MovDn15);
    lemma_opcode_byte_roundtrip(OpCode::MovDnW2);
    lemma_opcode_byte_roundtrip(OpCode::MovDnW3);
    lemma_opcode_byte_roundtrip(OpCode::CSwap);
    lemma_opcode_byte_roundtrip(OpCode::CSwapW);
    lemma_opcode_byte_roundtrip(OpCode::CDrop);
    lemma_opcode_byte_roundtrip(OpCode::CDropW);
    lemma_opcode_byte_roundtrip(OpCode::PushU8);
    lemma_opcode_byte_roundtrip(OpCode::PushU16);
    lemma_opcode_byte_roundtrip(OpCode::PushU32);
    lemma_opcode_byte_roundtrip(OpCode::PushFelt);
    lemma_opcode_byte_roundtrip(OpCode::PushWord);
    lemma_opcode_byte_roundtrip(OpCode::PushU8List);
    lemma_opcode_byte_roundtrip(OpCode::PushU16List);
    lemma_opcode_byte_roundtrip(OpCode::PushU32List);
    lemma_opcode_byte_roundtrip(OpCode::PushFeltList);
    lemma_opcode_byte_roundtrip(OpCode::Locaddr);
    lemma_opcode_byte_roundtrip(OpCode::Sdepth);
    lemma_opcode_byte_roundtrip(OpCode::Caller);
    lemma_opcode_byte_roundtrip(OpCode::Clk);
    lemma_opcode_byte_roundtrip(OpCode::MemLoad);
    lemma_opcode_byte_roundtrip(OpCode::MemLoadImm);
    lemma_opcode_byte_roundtrip(OpCode::MemLoadW);
    lemma_opcode_byte_roundtrip(OpCode::MemLoadWImm);
    lemma_opcode_byte_roundtrip(OpCode::LocLoad);
    lemma_opcode_byte_roundtrip(OpCode::LocLoadW);
    lemma_opcode_byte_roundtrip(OpCode::MemStore);
    lemma_opcode_byte_roundtrip(OpCode::MemStoreImm);
    lemma_opcode_byte_roundtrip(OpCode::LocStore);
    lemma_opcode_byte_roundtrip(OpCode::MemStoreW);
    lemma_opcode_byte_roundtrip(OpCode::MemStoreWImm);
    lemma_opcode_byte_roundtrip(OpCode::LocStoreW);
    lemma_opcode_byte_roundtrip(OpCode::MemStream);
    lemma_opcode_byte_roundtrip(OpCode::AdvPipe);
    lemma_opcode_byte_roundtrip(OpCode::AdvPush);
    lemma_opcode_byte_roundtrip(OpCode::AdvLoadW);
    lemma_opcode_byte_roundtrip(OpCode::AdvInject);
    lemma_opcode_byte_roundtrip(OpCode::Hash);
    lemma_opcode_byte_roundtrip(OpCode::HMerge);
    lemma_opcode_byte_roundtrip(OpCode::HPerm);
    lemma_opcode_byte_roundtrip(OpCode::MTreeGet);
    lemma_opcode_byte_roundtrip(OpCode::MTreeSet);
    lemma_opcode_byte_roundtrip(OpCode::MTreeMerge);
    lemma_opcode_byte_roundtrip(OpCode::MTreeVerify);
    lemma_opcode_byte_roundtrip(OpCode::FriExt2Fold4);
    lemma_opcode_byte_roundtrip(OpCode::ExecLocal);
    lemma_opcode_byte_roundtrip(OpCode::ExecImported);
    lemma_opcode_byte_roundtrip(OpCode::CallLocal);
    lemma_opcode_byte_roundtrip(OpCode::CallMastRoot);
    lemma_opcode_byte_roundtrip(OpCode::CallImported);
    lemma_opcode_byte_roundtrip(OpCode::SysCall);
    lemma_opcode_byte_roundtrip(OpCode::DynExec);
    lemma_opcode_byte_roundtrip(OpCode::DynCall);
    lemma_opcode_byte_roundtrip(OpCode::ProcRefLocal);
    lemma_opcode_byte_roundtrip(OpCode::ProcRefImported);
    lemma_opcode_byte_roundtrip(OpCode::Debug);
    lemma_opcode_byte_roundtrip(OpCode::Emit);
    lemma_opcode_byte_roundtrip(OpCode::IfElse);
    lemma_opcode_byte_roundtrip(OpCode::Repeat);
    lemma_opcode_byte_roundtrip(OpCode::While);
}

} // verus!
