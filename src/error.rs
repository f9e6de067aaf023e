use vstd::prelude::*;

use crate::constants::{ConstantIndex, ConstantTag};
use crate::disasm::DisasmError;

verus! {

/// What is wrong with the layout of a class file.
#[derive(Debug, Clone, Copy, PartialEq, Eq, Structural)]
pub enum FormatError {
    /// The first four bytes are not `0xCAFEBABE`; they are given.
    InvalidMagic(u32),
    /// The major version is below 45.
    UnsupportedVersion { major: u16, minor: u16 },
    /// The constant at `index` has a tag that no constant kind uses.
    UnknownConstantTag { index: u16, tag: u8 },
    /// The Utf8 constant at `index` is not valid modified UTF-8.
    InvalidString { index: u16 },
    /// A long or double constant is the last declared entry, so the slot
    /// `index` that it also occupies lies outside the pool.
    MissingSecondSlot { index: u16 },
    /// A method handle names a reference kind outside 1 to 9.
    UnknownReferenceKind(u8),
}

/// Why a class file could not be decoded.
#[derive(Debug, Clone, Copy, PartialEq, Eq, Structural)]
pub enum JvmParseError {
    /// The input ended inside a value or a length-prefixed section.
    UnexpectedEof,
    InvalidFormat(FormatError),
    /// The index is zero, past the pool's end, or the second slot of a long
    /// or double constant.
    MissingConstant(ConstantIndex),
    /// The index names a constant of another kind than the one given.
    WrongConstantType(ConstantIndex, ConstantTag),
    /// A method body failed to disassemble.
    InvalidCode(DisasmError),
}

} // verus!
