//! Decoding of compiled class files and execution of their bytecode on a
//! typed stack machine.
//!
//! [`parse::parse_class_file`] decodes a class file from its bytes into a
//! [`classfile::ClassFile`]; method bodies are disassembled by
//! [`disasm::disasm`] into [`opcode::Opcode`]s, which a
//! [`engine::FnCall`] executes against a [`engine::JEngine`].

pub mod bytes;
pub mod classfile;
pub mod constants;
pub mod descriptor;
pub mod disasm;
pub mod engine;
pub mod error;
pub mod opcode;
pub mod parse;

pub use classfile::{
    AccessFlags, Attribute, ClassFile, Code, ConstantValue, ExceptionTableEntry, Field, Method,
};
pub use constants::{Constant, ConstantIndex, ConstantPool, ConstantTag, ReferenceKind};
pub use descriptor::{
    parse_field_descriptor, parse_field_descriptor_incomplete, ComponentType, FieldType,
    MethodDescriptor,
};
pub use disasm::{disasm, Disasm, DisasmError};
pub use engine::{
    ArrayRef, FloatOp, FnAction, FnCall, FnError, JEngine, JObject, JValue, LoadedClass,
    LoadedMethod, ObjectRef,
};
pub use error::{FormatError, JvmParseError};
pub use opcode::{ArrayType, Opcode};
pub use parse::{parse_bytes_u16, parse_bytes_u32, parse_class_file};
