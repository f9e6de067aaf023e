use vstd::prelude::*;

use crate::bytes::{be16, be32};
use crate::opcode::{array_type_of, ArrayType, Opcode};

verus! {

/// Why an instruction byte array could not be decoded.
#[derive(Debug, Clone, Copy, PartialEq, Eq, Structural)]
pub enum DisasmError {
    /// The byte is not an opcode of the instruction set.
    UnknownOpcode(u8),
    /// The array ends before all operand bytes of the last instruction.
    MissingArgument,
    /// A reserved operand byte is not zero.
    InvalidArgument,
    /// The element type tag of `newarray` lies outside 4 to 11.
    InvalidArrayType,
    /// A variable-length instruction (`lookupswitch`, `tableswitch`, `wide`)
    /// that this decoder does not handle.
    UnsupportedOpcode(u8),
}

/// The instruction whose opcode byte is `b[p]`, with the number of operand
/// bytes that follow it, or the reason it cannot be decoded.
pub open spec fn decode_at(b: Seq<u8>, p: int) -> Result<(Opcode, nat), DisasmError>
    recommends
        0 <= p < b.len(),
{
    let op = b[p];
    match op {
        0x00u8 => Ok((Opcode::Nop, 0)),
        0x01u8 => Ok((Opcode::AconstNull, 0)),
        0x02u8 => Ok((Opcode::IconstM1, 0)),
        0x03u8 => Ok((Opcode::Iconst0, 0)),
        0x04u8 => Ok((Opcode::Iconst1, 0)),
        0x05u8 => Ok((Opcode::Iconst2, 0)),
        0x06u8 => Ok((Opcode::Iconst3, 0)),
        0x07u8 => Ok((Opcode::Iconst4, 0)),
        0x08u8 => Ok((Opcode::Iconst5, 0)),
        0x09u8 => Ok((Opcode::Lconst0, 0)),
        0x0au8 => Ok((Opcode::Lconst1, 0)),
        0x0bu8 => Ok((Opcode::Fconst0, 0)),
        0x0cu8 => Ok((Opcode::Fconst1, 0)),
        0x0du8 => Ok((Opcode::Fconst2, 0)),
        0x0eu8 => Ok((Opcode::Dconst0, 0)),
        0x0fu8 => Ok((Opcode::Dconst1, 0)),
        0x10u8 => if p + 1 < b.len() { Ok((Opcode::Bipush(b[p + 1] as i8), 1)) } else { Err(DisasmError::MissingArgument) },
        0x11u8 => if p + 2 < b.len() { Ok((Opcode::Sipush(be16(b, p + 1) as i16), 2)) } else { Err(DisasmError::MissingArgument) },
        0x12u8 => if p + 1 < b.len() { Ok((Opcode::Ldc(b[p + 1]), 1)) } else { Err(DisasmError::MissingArgument) },
        0x13u8 => if p + 2 < b.len() { Ok((Opcode::LdcW(be16(b, p + 1)), 2)) } else { Err(DisasmError::MissingArgument) },
        0x14u8 => if p + 2 < b.len() { Ok((Opcode::Ldc2W(be16(b, p + 1)), 2)) } else { Err(DisasmError::MissingArgument) },
        0x15u8 => if p + 1 < b.len() { Ok((Opcode::Iload(b[p + 1]), 1)) } else { Err(DisasmError::MissingArgument) },
        0x16u8 => if p + 1 < b.len() { Ok((Opcode::Lload(b[p + 1]), 1)) } else { Err(DisasmError::MissingArgument) },
        0x17u8 => if p + 1 < b.len() { Ok((Opcode::Fload(b[p + 1]), 1)) } else { Err(DisasmError::MissingArgument) },
        0x18u8 => if p + 1 < b.len() { Ok((Opcode::Dload(b[p + 1]), 1)) } else { Err(DisasmError::MissingArgument) },
        0x19u8 => if p + 1 < b.len() { Ok((Opcode::Aload(b[p + 1]), 1)) } else { Err(DisasmError::MissingArgument) },
        0x1au8 => Ok((Opcode::Iload0, 0)),
        0x1bu8 => Ok((Opcode::Iload1, 0)),
        0x1cu8 => Ok((Opcode::Iload2, 0)),
        0x1du8 => Ok((Opcode::Iload3, 0)),
        0x1eu8 => Ok((Opcode::Lload0, 0)),
        0x1fu8 => Ok((Opcode::Lload1, 0)),
        0x20u8 => Ok((Opcode::Lload2, 0)),
        0x21u8 => Ok((Opcode::Lload3, 0)),
        0x22u8 => Ok((Opcode::Fload0, 0)),
        0x23u8 => Ok((Opcode::Fload1, 0)),
        0x24u8 => Ok((Opcode::Fload2, 0)),
        0x25u8 => Ok((Opcode::Fload3, 0)),
        0x26u8 => Ok((Opcode::Dload0, 0)),
        0x27u8 => Ok((Opcode::Dload1, 0)),
        0x28u8 => Ok((Opcode::Dload2, 0)),
        0x29u8 => Ok((Opcode::Dload3, 0)),
        0x2au8 => Ok((Opcode::Aload0, 0)),
        0x2bu8 => Ok((Opcode::Aload1, 0)),
        0x2cu8 => Ok((Opcode::Aload2, 0)),
        0x2du8 => Ok((Opcode::Aload3, 0)),
        0x2eu8 => Ok((Opcode::Iaload, 0)),
        0x2fu8 => Ok((Opcode::Laload, 0)),
        0x30u8 => Ok((Opcode::Faload, 0)),
        0x31u8 => Ok((Opcode::Daload, 0)),
        0x32u8 => Ok((Opcode::Aaload, 0)),
        0x33u8 => Ok((Opcode::Baload, 0)),
        0x34u8 => Ok((Opcode::Caload, 0)),
        0x35u8 => Ok((Opcode::Saload, 0)),
        0x36u8 => if p + 1 < b.len() { Ok((Opcode::Istore(b[p + 1]), 1)) } else { Err(DisasmError::MissingArgument) },
        0x37u8 => if p + 1 < b.len() { Ok((Opcode::Lstore(b[p + 1]), 1)) } else { Err(DisasmError::MissingArgument) },
        0x38u8 => if p + 1 < b.len() { Ok((Opcode::Fstore(b[p + 1]), 1)) } else { Err(DisasmError::MissingArgument) },
        0x39u8 => if p + 1 < b.len() { Ok((Opcode::Dstore(b[p + 1]), 1)) } else { Err(DisasmError::MissingArgument) },
        0x3au8 => if p + 1 < b.len() { Ok((Opcode::Astore(b[p + 1]), 1)) } else { Err(DisasmError::MissingArgument) },
        0x3bu8 => Ok((Opcode::Istore0, 0)),
        0x3cu8 => Ok((Opcode::Istore1, 0)),
        0x3du8 => Ok((Opcode::Istore2, 0)),
        0x3eu8 => Ok((Opcode::Istore3, 0)),
        0x3fu8 => Ok((Opcode::Lstore0, 0)),
        0x40u8 => Ok((Opcode::Lstore1, 0)),
        0x41u8 => Ok((Opcode::Lstore2, 0)),
        0x42u8 => Ok((Opcode::Lstore3, 0)),
        0x43u8 => Ok((Opcode::Fstore0, 0)),
        0x44u8 => Ok((Opcode::Fstore1, 0)),
        0x45u8 => Ok((Opcode::Fstore2, 0)),
        0x46u8 => Ok((Opcode::Fstore3, 0)),
        0x47u8 => Ok((Opcode::Dstore0, 0)),
        0x48u8 => Ok((Opcode::Dstore1, 0)),
        0x49u8 => Ok((Opcode::Dstore2, 0)),
        0x4au8 => Ok((Opcode::Dstore3, 0)),
        0x4bu8 => Ok((Opcode::Astore0, 0)),
        0x4cu8 => Ok((Opcode::Astore1, 0)),
        0x4du8 => Ok((Opcode::Astore2, 0)),
        0x4eu8 => Ok((Opcode::Astore3, 0)),
        0x4fu8 => Ok((Opcode::Iastore, 0)),
        0x50u8 => Ok((Opcode::Lastore, 0)),
        0x51u8 => Ok((Opcode::Fastore, 0)),
        0x52u8 => Ok((Opcode::Dastore, 0)),
        0x53u8 => Ok((Opcode::Aastore, 0)),
        0x54u8 => Ok((Opcode::Bastore, 0)),
        0x55u8 => Ok((Opcode::Castore, 0)),
        0x56u8 => Ok((Opcode::Sastore, 0)),
        0x57u8 => Ok((Opcode::Pop, 0)),
        0x58u8 => Ok((Opcode::Pop2, 0)),
        0x59u8 => Ok((Opcode::Dup, 0)),
        0x5au8 => Ok((Opcode::DupX1, 0)),
        0x5bu8 => Ok((Opcode::DupX2, 0)),
        0x5cu8 => Ok((Opcode::Dup2, 0)),
        0x5du8 => Ok((Opcode::Dup2X1, 0)),
        0x5eu8 => Ok((Opcode::Dup2X2, 0)),
        0x5fu8 => Ok((Opcode::Swap, 0)),
        0x60u8 => Ok((Opcode::Iadd, 0)),
        0x61u8 => Ok((Opcode::Ladd, 0)),
        0x62u8 => Ok((Opcode::Fadd, 0)),
        0x63u8 => Ok((Opcode::Dadd, 0)),
        0x64u8 => Ok((Opcode::Isub, 0)),
        0x65u8 => Ok((Opcode::Lsub, 0)),
        0x66u8 => Ok((Opcode::Fsub, 0)),
        0x67u8 => Ok((Opcode::Dsub, 0)),
        0x68u8 => Ok((Opcode::Imul, 0)),
        0x69u8 => Ok((Opcode::Lmul, 0)),
        0x6au8 => Ok((Opcode::Fmul, 0)),
        0x6bu8 => Ok((Opcode::Dmul, 0)),
        0x6cu8 => Ok((Opcode::Idiv, 0)),
        0x6du8 => Ok((Opcode::Ldiv, 0)),
        0x6eu8 => Ok((Opcode::Fdiv, 0)),
        0x6fu8 => Ok((Opcode::Ddiv, 0)),
        0x70u8 => Ok((Opcode::Irem, 0)),
        0x71u8 => Ok((Opcode::Lrem, 0)),
        0x72u8 => Ok((Opcode::Frem, 0)),
        0x73u8 => Ok((Opcode::Drem, 0)),
        0x74u8 => Ok((Opcode::Ineg, 0)),
        0x75u8 => Ok((Opcode::Lneg, 0)),
        0x76u8 => Ok((Opcode::Fneg, 0)),
        0x77u8 => Ok((Opcode::Dneg, 0)),
        0x78u8 => Ok((Opcode::Ishl, 0)),
        0x79u8 => Ok((Opcode::Lshl, 0)),
        0x7au8 => Ok((Opcode::Ishr, 0)),
        0x7bu8 => Ok((Opcode::Lshr, 0)),
        0x7cu8 => Ok((Opcode::Iushr, 0)),
        0x7du8 => Ok((Opcode::Lushr, 0)),
        0x7eu8 => Ok((Opcode::Iand, 0)),
        0x7fu8 => Ok((Opcode::Land, 0)),
        0x80u8 => Ok((Opcode::Ior, 0)),
        0x81u8 => Ok((Opcode::Lor, 0)),
        0x82u8 => Ok((Opcode::Ixor, 0)),
        0x83u8 => Ok((Opcode::Lxor, 0)),
        0x84u8 => if p + 2 < b.len() { Ok((Opcode::Iinc(b[p + 1], b[p + 2]), 2)) } else { Err(DisasmError::MissingArgument) },
        0x85u8 => Ok((Opcode::I2l, 0)),
        0x86u8 => Ok((Opcode::I2f, 0)),
        0x87u8 => Ok((Opcode::I2d, 0)),
        0x88u8 => Ok((Opcode::L2i, 0)),
        0x89u8 => Ok((Opcode::L2f, 0)),
        0x8au8 => Ok((Opcode::L2d, 0)),
        0x8bu8 => Ok((Opcode::F2i, 0)),
        0x8cu8 => Ok((Opcode::F2l, 0)),
        0x8du8 => Ok((Opcode::F2d, 0)),
        0x8eu8 => Ok((Opcode::D2i, 0)),
        0x8fu8 => Ok((Opcode::D2l, 0)),
        0x90u8 => Ok((Opcode::D2f, 0)),
        0x91u8 => Ok((Opcode::I2b, 0)),
        0x92u8 => Ok((Opcode::I2c, 0)),
        0x93u8 => Ok((Opcode::I2s, 0)),
        0x94u8 => Ok((Opcode::Lcmp, 0)),
        0x95u8 => Ok((Opcode::Fcmpl, 0)),
        0x96u8 => Ok((Opcode::Fcmpg, 0)),
        0x97u8 => Ok((Opcode::Dcmpl, 0)),
        0x98u8 => Ok((Opcode::Dcmpg, 0)),
        0x99u8 => if p + 2 < b.len() { Ok((Opcode::Ifeq(be16(b, p + 1)), 2)) } else { Err(DisasmError::MissingArgument) },
        0x9au8 => if p + 2 < b.len() { Ok((Opcode::Ifne(be16(b, p + 1)), 2)) } else { Err(DisasmError::MissingArgument) },
        0x9bu8 => if p + 2 < b.len() { Ok((Opcode::Iflt(be16(b, p + 1)), 2)) } else { Err(DisasmError::MissingArgument) },
        0x9cu8 => if p + 2 < b.len() { Ok((Opcode::Ifge(be16(b, p + 1)), 2)) } else { Err(DisasmError::MissingArgument) },
        0x9du8 => if p + 2 < b.len() { Ok((Opcode::Ifgt(be16(b, p + 1)), 2)) } else { Err(DisasmError::MissingArgument) },
        0x9eu8 => if p + 2 < b.len() { Ok((Opcode::Ifle(be16(b, p + 1)), 2)) } else { Err(DisasmError::MissingArgument) },
        0x9fu8 => if p + 2 < b.len() { Ok((Opcode::IfIcmpeq(be16(b, p + 1)), 2)) } else { Err(DisasmError::MissingArgument) },
        0xa0u8 => if p + 2 < b.len() { Ok((Opcode::IfIcmpne(be16(b, p + 1)), 2)) } else { Err(DisasmError::MissingArgument) },
        0xa1u8 => if p + 2 < b.len() { Ok((Opcode::IfIcmplt(be16(b, p + 1)), 2)) } else { Err(DisasmError::MissingArgument) },
        0xa2u8 => if p + 2 < b.len() { Ok((Opcode::IfIcmpge(be16(b, p + 1)), 2)) } else { Err(DisasmError::MissingArgument) },
        0xa3u8 => if p + 2 < b.len() { Ok((Opcode::IfIcmpgt(be16(b, p + 1)), 2)) } else { Err(DisasmError::MissingArgument) },
        0xa4u8 => if p + 2 < b.len() { Ok((Opcode::IfIcmple(be16(b, p + 1)), 2)) } else { Err(DisasmError::MissingArgument) },
        0xa5u8 => if p + 2 < b.len() { Ok((Opcode::IfAcmpeq(be16(b, p + 1)), 2)) } else { Err(DisasmError::MissingArgument) },
        0xa6u8 => if p + 2 < b.len() { Ok((Opcode::IfAcmpne(be16(b, p + 1)), 2)) } else { Err(DisasmError::MissingArgument) },
        0xa7u8 => if p + 2 < b.len() { Ok((Opcode::Goto(be16(b, p + 1)), 2)) } else { Err(DisasmError::MissingArgument) },
        0xa8u8 => if p + 2 < b.len() { Ok((Opcode::Jsr(be16(b, p + 1)), 2)) } else { Err(DisasmError::MissingArgument) },
        0xa9u8 => if p + 1 < b.len() { Ok((Opcode::Ret(b[p + 1]), 1)) } else { Err(DisasmError::MissingArgument) },
        0xaau8 => Err(DisasmError::UnsupportedOpcode(op)),
        0xabu8 => Err(DisasmError::UnsupportedOpcode(op)),
        0xacu8 => Ok((Opcode::Ireturn, 0)),
        0xadu8 => Ok((Opcode::Lreturn, 0)),
        0xaeu8 => Ok((Opcode::Freturn, 0)),
        0xafu8 => Ok((Opcode::Dreturn, 0)),
        0xb0u8 => Ok((Opcode::Areturn, 0)),
        0xb1u8 => Ok((Opcode::Return, 0)),
        0xb2u8 => if p + 2 < b.len() { Ok((Opcode::Getstatic(be16(b, p + 1)), 2)) } else { Err(DisasmError::MissingArgument) },
        0xb3u8 => if p + 2 < b.len() { Ok((Opcode::Putstatic(be16(b, p + 1)), 2)) } else { Err(DisasmError::MissingArgument) },
        0xb4u8 => if p + 2 < b.len() { Ok((Opcode::Getfield(be16(b, p + 1)), 2)) } else { Err(DisasmError::MissingArgument) },
        0xb5u8 => if p + 2 < b.len() { Ok((Opcode::Putfield(be16(b, p + 1)), 2)) } else { Err(DisasmError::MissingArgument) },
        0xb6u8 => if p + 2 < b.len() { Ok((Opcode::Invokevirtual(be16(b, p + 1)), 2)) } else { Err(DisasmError::MissingArgument) },
        0xb7u8 => if p + 2 < b.len() { Ok((Opcode::Invokespecial(be16(b, p + 1)), 2)) } else { Err(DisasmError::MissingArgument) },
        0xb8u8 => if p + 2 < b.len() { Ok((Opcode::Invokestatic(be16(b, p + 1)), 2)) } else { Err(DisasmError::MissingArgument) },
        0xb9u8 => if p + 4 < b.len() { if b[p + 4] == 0 { Ok((Opcode::Invokeinterface(be16(b, p + 1), b[p + 3]), 4)) } else { Err(DisasmError::InvalidArgument) } } else { Err(DisasmError::MissingArgument) },
        0xbau8 => if p + 4 < b.len() { if be16(b, p + 3) == 0 { Ok((Opcode::Invokedynamic(be16(b, p + 1)), 4)) } else { Err(DisasmError::InvalidArgument) } } else { Err(DisasmError::MissingArgument) },
        0xbbu8 => if p + 2 < b.len() { Ok((Opcode::New(be16(b, p + 1)), 2)) } else { Err(DisasmError::MissingArgument) },
        0xbcu8 => if p + 1 < b.len() { match array_type_of(b[p + 1]) { Some(t) => Ok((Opcode::Newarray(t), 1)), None => Err(DisasmError::InvalidArrayType) } } else { Err(DisasmError::MissingArgument) },
        0xbdu8 => if p + 2 < b.len() { Ok((Opcode::Anewarray(be16(b, p + 1)), 2)) } else { Err(DisasmError::MissingArgument) },
        0xbeu8 => Ok((Opcode::Arraylength, 0)),
        0xbfu8 => Ok((Opcode::Athrow, 0)),
        0xc0u8 => if p + 2 < b.len() { Ok((Opcode::Checkcast(be16(b, p + 1)), 2)) } else { Err(DisasmError::MissingArgument) },
        0xc1u8 => if p + 2 < b.len() { Ok((Opcode::Instanceof(be16(b, p + 1)), 2)) } else { Err(DisasmError::MissingArgument) },
        0xc2u8 => Ok((Opcode::Monitorenter, 0)),
        0xc3u8 => Ok((Opcode::Monitorexit, 0)),
        0xc4u8 => Err(DisasmError::UnsupportedOpcode(op)),
        0xc5u8 => if p + 3 < b.len() { Ok((Opcode::Multianewarray(be16(b, p + 1), b[p + 3]), 3)) } else { Err(DisasmError::MissingArgument) },
        0xc6u8 => if p + 2 < b.len() { Ok((Opcode::Ifnull(be16(b, p + 1)), 2)) } else { Err(DisasmError::MissingArgument) },
        0xc7u8 => if p + 2 < b.len() { Ok((Opcode::Ifnonnull(be16(b, p + 1)), 2)) } else { Err(DisasmError::MissingArgument) },
        0xc8u8 => if p + 4 < b.len() { Ok((Opcode::GotoW(be32(b, p + 1)), 4)) } else { Err(DisasmError::MissingArgument) },
        0xc9u8 => if p + 4 < b.len() { Ok((Opcode::JsrW(be32(b, p + 1)), 4)) } else { Err(DisasmError::MissingArgument) },
        0xcau8 => Ok((Opcode::Breakpoint, 0)),
        _ => Err(DisasmError::UnknownOpcode(op)),
    }
}

/// Prefixes `pre` to a successful decoding; passes an error through.
pub open spec fn prepend(pre: Seq<Opcode>, r: Result<Seq<Opcode>, DisasmError>) -> Result<
    Seq<Opcode>,
    DisasmError,
> {
    match r {
        Ok(s) => Ok(pre + s),
        Err(e) => Err(e),
    }
}

/// The instructions encoded by `b` from offset `p` on, decoded left to right;
/// the first instruction that fails to decode decides the error.
pub open spec fn disasm_from(b: Seq<u8>, p: int) -> Result<Seq<Opcode>, DisasmError>
    decreases b.len() - p,
{
    if p < 0 || p >= b.len() {
        Ok(Seq::empty())
    } else {
        match decode_at(b, p) {
            Err(e) => Err(e),
            Ok((op, w)) => prepend(seq![op], disasm_from(b, p + 1 + w)),
        }
    }
}

/// An opcode byte at the end of the input whose instruction takes operand
/// bytes fails to decode with `MissingArgument`: an instruction that
/// decodes with `w > 0` operand bytes once a byte follows it cannot decode
/// with none following.
pub proof fn lemma_trailing_opcode_missing_argument(b: Seq<u8>, x: u8)
    requires
        b.len() >= 1,
        decode_at(b.push(x), b.len() - 1) matches Ok((_, w)) && w > 0,
    ensures
        decode_at(b, b.len() - 1) == Err::<(Opcode, nat), DisasmError>(DisasmError::MissingArgument),
        disasm_from(b, b.len() - 1) == Err::<Seq<Opcode>, DisasmError>(DisasmError::MissingArgument),
{
    let p = b.len() - 1;
    assert(b.push(x)[p] == b[p]);
}

/// Decoding reaches byte `0xFF` only to fail there with `UnknownOpcode(255)`.
pub proof fn lemma_unknown_opcode(b: Seq<u8>, p: int)
    requires
        0 <= p < b.len(),
        b[p] == 0xFFu8,
    ensures
        disasm_from(b, p) == Err::<Seq<Opcode>, DisasmError>(DisasmError::UnknownOpcode(255)),
{
}

proof fn lemma_prepend_twice(a: Seq<Opcode>, b: Seq<Opcode>, r: Result<Seq<Opcode>, DisasmError>)
    ensures
        prepend(a, prepend(b, r)) == prepend(a + b, r),
{
    if let Ok(s) = r {
        assert(a + (b + s) =~= (a + b) + s);
    }
}

/// Composes two bytes, most significant first.
fn compose_u16(one: u8, two: u8) -> (r: u16)
    ensures
        r as int == one as int * 0x100 + two as int,
{
    (one as u16) * 0x100 + (two as u16)
}

/// Composes four bytes, most significant first.
fn compose_u32(one: u8, two: u8, three: u8, four: u8) -> (r: u32)
    ensures
        r as int == one as int * 0x1000000 + two as int * 0x10000 + three as int * 0x100
            + four as int,
{
    (one as u32) * 0x1000000 + (two as u32) * 0x10000 + (three as u32) * 0x100 + (four as u32)
}

/// The array type named by a `newarray` operand byte.
fn parse_array_type(index: u8) -> (r: Result<ArrayType, DisasmError>)
    ensures
        r == (match array_type_of(index) {
            Some(t) => Ok(t),
            None => Err(DisasmError::InvalidArrayType),
        }),
{
    match index {
        4 => Ok(ArrayType::BOOLEAN),
        5 => Ok(ArrayType::CHAR),
        6 => Ok(ArrayType::FLOAT),
        7 => Ok(ArrayType::DOUBLE),
        8 => Ok(ArrayType::BYTE),
        9 => Ok(ArrayType::SHORT),
        10 => Ok(ArrayType::INT),
        11 => Ok(ArrayType::LONG),
        _ => Err(DisasmError::InvalidArrayType),
    }
}

/// A left-to-right decoder over an instruction byte array. `index` is the
/// offset of the byte being decoded; `opcodes` holds what was decoded so far.
pub struct Disasm<'a> {
    bytes: &'a [u8],
    index: usize,
    opcodes: Vec<Opcode>,
}

impl<'a> Disasm<'a> {
    pub closed spec fn bytes_view(&self) -> Seq<u8> {
        self.bytes@
    }

    pub closed spec fn position(&self) -> int {
        self.index as int
    }

    pub closed spec fn decoded(&self) -> Seq<Opcode> {
        self.opcodes@
    }

    /// A decoder at the start of `bytes`, with nothing decoded yet.
    pub fn new(bytes: &'a [u8]) -> (r: Self)
        ensures
            r.bytes_view() == bytes@,
            r.position() == 0,
            r.decoded() == Seq::<Opcode>::empty(),
    {
        Self { bytes, index: 0, opcodes: Vec::new() }
    }

    /// Steps to the next byte and reads it as an operand.
    fn argument(&mut self) -> (r: Result<u8, DisasmError>)
        requires
            old(self).index < old(self).bytes@.len(),
        ensures
            final(self).bytes == old(self).bytes,
            final(self).opcodes == old(self).opcodes,
            r is Ok ==> final(self).index == old(self).index + 1,
            r == (if old(self).index + 1 < old(self).bytes@.len() {
                Ok(old(self).bytes@[old(self).index + 1])
            } else {
                Err(DisasmError::MissingArgument)
            }),
    {
        if self.bytes.len() - self.index > 1 {
            self.index += 1;
            Ok(self.bytes[self.index])
        } else {
            Err(DisasmError::MissingArgument)
        }
    }

    /// Steps over the next two bytes and reads them as a big-endian operand.
    fn argument_u16(&mut self) -> (r: Result<u16, DisasmError>)
        requires
            old(self).index < old(self).bytes@.len(),
        ensures
            final(self).bytes == old(self).bytes,
            final(self).opcodes == old(self).opcodes,
            r is Ok ==> final(self).index == old(self).index + 2,
            r == (if old(self).index + 2 < old(self).bytes@.len() {
                Ok(be16(old(self).bytes@, old(self).index + 1))
            } else {
                Err(DisasmError::MissingArgument)
            }),
    {
        if self.bytes.len() - self.index > 2 {
            self.index += 2;
            Ok(compose_u16(self.bytes[self.index - 1], self.bytes[self.index]))
        } else {
            Err(DisasmError::MissingArgument)
        }
    }

    /// Steps over the next four bytes and reads them as a big-endian operand.
    fn argument_u32(&mut self) -> (r: Result<u32, DisasmError>)
        requires
            old(self).index < old(self).bytes@.len(),
        ensures
            final(self).bytes == old(self).bytes,
            final(self).opcodes == old(self).opcodes,
            r is Ok ==> final(self).index == old(self).index + 4,
            r == (if old(self).index + 4 < old(self).bytes@.len() {
                Ok(be32(old(self).bytes@, old(self).index + 1))
            } else {
                Err(DisasmError::MissingArgument)
            }),
    {
        if self.bytes.len() - self.index > 4 {
            self.index += 4;
            Ok(
                compose_u32(
                    self.bytes[self.index - 3],
                    self.bytes[self.index - 2],
                    self.bytes[self.index - 1],
                    self.bytes[self.index],
                ),
            )
        } else {
            Err(DisasmError::MissingArgument)
        }
    }

    /// Decodes the instruction at `index`, leaving `index` on its last
    /// operand byte.
    #[verifier::rlimit(100)]
    fn next_opcode(&mut self) -> (r: Result<Opcode, DisasmError>)
        requires
            old(self).index < old(self).bytes@.len(),
        ensures
            final(self).bytes == old(self).bytes,
            final(self).opcodes == old(self).opcodes,
            match decode_at(old(self).bytes@, old(self).index as int) {
                Ok((op, w)) => r == Ok::<Opcode, DisasmError>(op) && final(self).index
                    == old(self).index + w,
                Err(e) => r == Err::<Opcode, DisasmError>(e),
            },
    {
        let op = self.bytes[self.index];
        let opcode = match op {
            0x00u8 => Opcode::Nop,
            0x01u8 => Opcode::AconstNull,
            0x02u8 => Opcode::IconstM1,
            0x03u8 => Opcode::Iconst0,
            0x04u8 => Opcode::Iconst1,
            0x05u8 => Opcode::Iconst2,
            0x06u8 => Opcode::Iconst3,
            0x07u8 => Opcode::Iconst4,
            0x08u8 => Opcode::Iconst5,
            0x09u8 => Opcode::Lconst0,
            0x0au8 => Opcode::Lconst1,
            0x0bu8 => Opcode::Fconst0,
            0x0cu8 => Opcode::Fconst1,
            0x0du8 => Opcode::Fconst2,
            0x0eu8 => Opcode::Dconst0,
            0x0fu8 => Opcode::Dconst1,
            0x10u8 => Opcode::Bipush(self.argument()? as i8),
            0x11u8 => Opcode::Sipush(self.argument_u16()? as i16),
            0x12u8 => Opcode::Ldc(self.argument()?),
            0x13u8 => Opcode::LdcW(self.argument_u16()?),
            0x14u8 => Opcode::Ldc2W(self.argument_u16()?),
            0x15u8 => Opcode::Iload(self.argument()?),
            0x16u8 => Opcode::Lload(self.argument()?),
            0x17u8 => Opcode::Fload(self.argument()?),
            0x18u8 => Opcode::Dload(self.argument()?),
            0x19u8 => Opcode::Aload(self.argument()?),
            0x1au8 => Opcode::Iload0,
            0x1bu8 => Opcode::Iload1,
            0x1cu8 => Opcode::Iload2,
            0x1du8 => Opcode::Iload3,
            0x1eu8 => Opcode::Lload0,
            0x1fu8 => Opcode::Lload1,
            0x20u8 => Opcode::Lload2,
            0x21u8 => Opcode::Lload3,
            0x22u8 => Opcode::Fload0,
            0x23u8 => Opcode::Fload1,
            0x24u8 => Opcode::Fload2,
            0x25u8 => Opcode::Fload3,
            0x26u8 => Opcode::Dload0,
            0x27u8 => Opcode::Dload1,
            0x28u8 => Opcode::Dload2,
            0x29u8 => Opcode::Dload3,
            0x2au8 => Opcode::Aload0,
            0x2bu8 => Opcode::Aload1,
            0x2cu8 => Opcode::Aload2,
            0x2du8 => Opcode::Aload3,
            0x2eu8 => Opcode::Iaload,
            0x2fu8 => Opcode::Laload,
            0x30u8 => Opcode::Faload,
            0x31u8 => Opcode::Daload,
            0x32u8 => Opcode::Aaload,
            0x33u8 => Opcode::Baload,
            0x34u8 => Opcode::Caload,
            0x35u8 => Opcode::Saload,
            0x36u8 => Opcode::Istore(self.argument()?),
            0x37u8 => Opcode::Lstore(self.argument()?),
            0x38u8 => Opcode::Fstore(self.argument()?),
            0x39u8 => Opcode::Dstore(self.argument()?),
            0x3au8 => Opcode::Astore(self.argument()?),
            0x3bu8 => Opcode::Istore0,
            0x3cu8 => Opcode::Istore1,
            0x3du8 => Opcode::Istore2,
            0x3eu8 => Opcode::Istore3,
            0x3fu8 => Opcode::Lstore0,
            0x40u8 => Opcode::Lstore1,
            0x41u8 => Opcode::Lstore2,
            0x42u8 => Opcode::Lstore3,
            0x43u8 => Opcode::Fstore0,
            0x44u8 => Opcode::Fstore1,
            0x45u8 => Opcode::Fstore2,
            0x46u8 => Opcode::Fstore3,
            0x47u8 => Opcode::Dstore0,
            0x48u8 => Opcode::Dstore1,
            0x49u8 => Opcode::Dstore2,
            0x4au8 => Opcode::Dstore3,
            0x4bu8 => Opcode::Astore0,
            0x4cu8 => Opcode::Astore1,
            0x4du8 => Opcode::Astore2,
            0x4eu8 => Opcode::Astore3,
            0x4fu8 => Opcode::Iastore,
            0x50u8 => Opcode::Lastore,
            0x51u8 => Opcode::Fastore,
            0x52u8 => Opcode::Dastore,
            0x53u8 => Opcode::Aastore,
            0x54u8 => Opcode::Bastore,
            0x55u8 => Opcode::Castore,
            0x56u8 => Opcode::Sastore,
            0x57u8 => Opcode::Pop,
            0x58u8 => Opcode::Pop2,
            0x59u8 => Opcode::Dup,
            0x5au8 => Opcode::DupX1,
            0x5bu8 => Opcode::DupX2,
            0x5cu8 => Opcode::Dup2,
            0x5du8 => Opcode::Dup2X1,
            0x5eu8 => Opcode::Dup2X2,
            0x5fu8 => Opcode::Swap,
            0x60u8 => Opcode::Iadd,
            0x61u8 => Opcode::Ladd,
            0x62u8 => Opcode::Fadd,
            0x63u8 => Opcode::Dadd,
            0x64u8 => Opcode::Isub,
            0x65u8 => Opcode::Lsub,
            0x66u8 => Opcode::Fsub,
            0x67u8 => Opcode::Dsub,
            0x68u8 => Opcode::Imul,
            0x69u8 => Opcode::Lmul,
            0x6au8 => Opcode::Fmul,
            0x6bu8 => Opcode::Dmul,
            0x6cu8 => Opcode::Idiv,
            0x6du8 => Opcode::Ldiv,
            0x6eu8 => Opcode::Fdiv,
            0x6fu8 => Opcode::Ddiv,
            0x70u8 => Opcode::Irem,
            0x71u8 => Opcode::Lrem,
            0x72u8 => Opcode::Frem,
            0x73u8 => Opcode::Drem,
            0x74u8 => Opcode::Ineg,
            0x75u8 => Opcode::Lneg,
            0x76u8 => Opcode::Fneg,
            0x77u8 => Opcode::Dneg,
            0x78u8 => Opcode::Ishl,
            0x79u8 => Opcode::Lshl,
            0x7au8 => Opcode::Ishr,
            0x7bu8 => Opcode::Lshr,
            0x7cu8 => Opcode::Iushr,
            0x7du8 => Opcode::Lushr,
            0x7eu8 => Opcode::Iand,
            0x7fu8 => Opcode::Land,
            0x80u8 => Opcode::Ior,
            0x81u8 => Opcode::Lor,
            0x82u8 => Opcode::Ixor,
            0x83u8 => Opcode::Lxor,
            0x84u8 => Opcode::Iinc(self.argument()?, self.argument()?),
            0x85u8 => Opcode::I2l,
            0x86u8 => Opcode::I2f,
            0x87u8 => Opcode::I2d,
            0x88u8 => Opcode::L2i,
            0x89u8 => Opcode::L2f,
            0x8au8 => Opcode::L2d,
            0x8bu8 => Opcode::F2i,
            0x8cu8 => Opcode::F2l,
            0x8du8 => Opcode::F2d,
            0x8eu8 => Opcode::D2i,
            0x8fu8 => Opcode::D2l,
            0x90u8 => Opcode::D2f,
            0x91u8 => Opcode::I2b,
            0x92u8 => Opcode::I2c,
            0x93u8 => Opcode::I2s,
            0x94u8 => Opcode::Lcmp,
            0x95u8 => Opcode::Fcmpl,
            0x96u8 => Opcode::Fcmpg,
            0x97u8 => Opcode::Dcmpl,
            0x98u8 => Opcode::Dcmpg,
            0x99u8 => Opcode::Ifeq(self.argument_u16()?),
            0x9au8 => Opcode::Ifne(self.argument_u16()?),
            0x9bu8 => Opcode::Iflt(self.argument_u16()?),
            0x9cu8 => Opcode::Ifge(self.argument_u16()?),
            0x9du8 => Opcode::Ifgt(self.argument_u16()?),
            0x9eu8 => Opcode::Ifle(self.argument_u16()?),
            0x9fu8 => Opcode::IfIcmpeq(self.argument_u16()?),
            0xa0u8 => Opcode::IfIcmpne(self.argument_u16()?),
            0xa1u8 => Opcode::IfIcmplt(self.argument_u16()?),
            0xa2u8 => Opcode::IfIcmpge(self.argument_u16()?),
            0xa3u8 => Opcode::IfIcmpgt(self.argument_u16()?),
            0xa4u8 => Opcode::IfIcmple(self.argument_u16()?),
            0xa5u8 => Opcode::IfAcmpeq(self.argument_u16()?),
            0xa6u8 => Opcode::IfAcmpne(self.argument_u16()?),
            0xa7u8 => Opcode::Goto(self.argument_u16()?),
            0xa8u8 => Opcode::Jsr(self.argument_u16()?),
            0xa9u8 => Opcode::Ret(self.argument()?),
            0xaau8 => return Err(DisasmError::UnsupportedOpcode(op)),
            0xabu8 => return Err(DisasmError::UnsupportedOpcode(op)),
            0xacu8 => Opcode::Ireturn,
            0xadu8 => Opcode::Lreturn,
            0xaeu8 => Opcode::Freturn,
            0xafu8 => Opcode::Dreturn,
            0xb0u8 => Opcode::Areturn,
            0xb1u8 => Opcode::Return,
            0xb2u8 => Opcode::Getstatic(self.argument_u16()?),
            0xb3u8 => Opcode::Putstatic(self.argument_u16()?),
            0xb4u8 => Opcode::Getfield(self.argument_u16()?),
            0xb5u8 => Opcode::Putfield(self.argument_u16()?),
            0xb6u8 => Opcode::Invokevirtual(self.argument_u16()?),
            0xb7u8 => Opcode::Invokespecial(self.argument_u16()?),
            0xb8u8 => Opcode::Invokestatic(self.argument_u16()?),
            0xb9u8 => {
                let opcode = Opcode::Invokeinterface(self.argument_u16()?, self.argument()?);
                if self.argument()? != 0 {
                    return Err(DisasmError::InvalidArgument);
                }
                opcode
            },
            0xbau8 => {
                let opcode = Opcode::Invokedynamic(self.argument_u16()?);
                if self.argument_u16()? != 0 {
                    return Err(DisasmError::InvalidArgument);
                }
                opcode
            },
            0xbbu8 => Opcode::New(self.argument_u16()?),
            0xbcu8 => Opcode::Newarray(parse_array_type(self.argument()?)?),
            0xbdu8 => Opcode::Anewarray(self.argument_u16()?),
            0xbeu8 => Opcode::Arraylength,
            0xbfu8 => Opcode::Athrow,
            0xc0u8 => Opcode::Checkcast(self.argument_u16()?),
            0xc1u8 => Opcode::Instanceof(self.argument_u16()?),
            0xc2u8 => Opcode::Monitorenter,
            0xc3u8 => Opcode::Monitorexit,
            0xc4u8 => return Err(DisasmError::UnsupportedOpcode(op)),
            0xc5u8 => Opcode::Multianewarray(self.argument_u16()?, self.argument()?),
            0xc6u8 => Opcode::Ifnull(self.argument_u16()?),
            0xc7u8 => Opcode::Ifnonnull(self.argument_u16()?),
            0xc8u8 => Opcode::GotoW(self.argument_u32()?),
            0xc9u8 => Opcode::JsrW(self.argument_u32()?),
            0xcau8 => Opcode::Breakpoint,
            _ => return Err(DisasmError::UnknownOpcode(op)),
        };
        Ok(opcode)
    }

    /// Decodes the rest of the byte array, appending each instruction to
    /// the decoded ones; stops at the first instruction that fails.
    pub fn process(&mut self) -> (r: Result<(), DisasmError>)
        ensures
            final(self).bytes_view() == old(self).bytes_view(),
            match disasm_from(old(self).bytes_view(), old(self).position()) {
                Ok(ops) => r is Ok && final(self).decoded() == old(self).decoded() + ops
                    && final(self).position() == (if old(self).position() <= old(self).bytes_view().len() {
                    old(self).bytes_view().len() as int
                } else {
                    old(self).position()
                }),
                Err(e) => r == Err::<(), DisasmError>(e),
            },
    {
        let ghost b = self.bytes@;
        let ghost start = self.index as int;
        let ghost before = self.opcodes@;
        if self.index > self.bytes.len() {
            return Ok(());
        }
        while self.index < self.bytes.len()
            invariant
                self.bytes@ == b,
                b == old(self).bytes@,
                start == old(self).index,
                before == old(self).opcodes@,
                self.index <= b.len(),
                prepend(before, disasm_from(b, start)) == prepend(
                    self.opcodes@,
                    disasm_from(b, self.index as int),
                ),
            decreases b.len() - self.index,
        {
            let ghost at = self.index as int;
            let ghost pre = self.opcodes@;
            let opcode = match self.next_opcode() {
                Ok(opcode) => opcode,
                Err(e) => {
                    assert(disasm_from(b, at) == Err::<Seq<Opcode>, DisasmError>(e));
                    return Err(e);
                },
            };
            proof {
                lemma_prepend_twice(pre, seq![opcode], disasm_from(b, self.index + 1));
            }
            self.opcodes.push(opcode);
            self.index += 1;
            assert(pre.push(opcode) == pre + seq![opcode]);
        }
        assert(self.opcodes@ + Seq::<Opcode>::empty() == self.opcodes@);
        Ok(())
    }
}

/// Decodes a whole instruction byte array into its instructions.
pub fn disasm(bytes: &[u8]) -> (r: Result<Vec<Opcode>, DisasmError>)
    ensures
        match disasm_from(bytes@, 0) {
            Ok(ops) => r is Ok && r->Ok_0@ == ops,
            Err(e) => r == Err::<Vec<Opcode>, DisasmError>(e),
        },
{
    let mut disasm = Disasm::new(bytes);
    match disasm.process() {
        Ok(()) => {
            assert(Seq::<Opcode>::empty() + disasm_from(bytes@, 0)->Ok_0 == disasm_from(bytes@, 0)->Ok_0);
            Ok(disasm.opcodes)
        },
        Err(e) => Err(e),
    }
}

} // verus!
