use vstd::prelude::*;

use crate::constants::{ConstantIndex, ConstantPool};
use crate::opcode::Opcode;

verus! {

pub const ACC_PUBLIC: u16 = 0x0001;
pub const ACC_FINAL: u16 = 0x0010;
pub const ACC_SUPER: u16 = 0x0020;
pub const ACC_INTERFACE: u16 = 0x0200;
pub const ACC_ABSTRACT: u16 = 0x0400;
pub const ACC_SYNTHETIC: u16 = 0x1000;
pub const ACC_ANNOTATION: u16 = 0x2000;
pub const ACC_ENUM: u16 = 0x4000;
pub const ACC_MODULE: u16 = 0x8000;

/// Every access flag that a class file defines.
pub const ACC_ALL: u16 = 0xF631;

/// The access flags of a class, field or method: a set of the `ACC_` bits.
#[derive(Debug, Clone, Copy, PartialEq, Eq, Structural)]
pub struct AccessFlags {
    bits: u16,
}

impl AccessFlags {
    pub closed spec fn spec_bits(&self) -> u16 {
        self.bits
    }

    /// The flags among `bits` that are defined; the others are dropped.
    pub fn from_bits_truncate(bits: u16) -> (r: AccessFlags)
        ensures
            r.spec_bits() == bits & ACC_ALL,
    {
        AccessFlags { bits: bits & ACC_ALL }
    }

    /// The flags as a bit set.
    pub fn bits(&self) -> (r: u16)
        ensures
            r == self.spec_bits(),
    {
        self.bits
    }

    /// Whether every bit of `flags` is set.
    pub fn contains(&self, flags: u16) -> (r: bool)
        ensures
            r == (self.spec_bits() & flags == flags),
    {
        self.bits & flags == flags
    }
}

/// The value of a constant field.
#[derive(Debug, Clone, Copy, PartialEq, Eq, Structural)]
pub struct ConstantValue {
    pub constantvalue_index: ConstantIndex,
}

/// A handler range of a method body: instructions in
/// `[start_pc, end_pc)` are covered by the handler at `handler_pc` for
/// exceptions of class `catch_type` (0: all).
#[derive(Debug, Clone, Copy, PartialEq, Eq, Structural)]
pub struct ExceptionTableEntry {
    pub start_pc: u16,
    pub end_pc: u16,
    pub handler_pc: u16,
    pub catch_type: u16,
}

/// A method body.
#[derive(Debug)]
pub struct Code {
    pub max_stack: u16,
    pub max_locals: u16,
    pub code: Vec<Opcode>,
    pub exception_table: Vec<ExceptionTableEntry>,
    pub attributes: Vec<Attribute>,
}

/// An attribute of a class, field, method or method body. Attributes with
/// names this decoder does not know are kept as raw bytes.
#[derive(Debug)]
pub enum Attribute {
    Code(Code),
    ConstantValue(ConstantValue),
    /// Index of the Utf8 constant naming the source file.
    SourceFile(ConstantIndex),
    Unknown { name: ConstantIndex, value: Vec<u8> },
}

pub struct Field {
    pub access_flags: AccessFlags,
    pub name_index: ConstantIndex,
    pub descriptor_index: ConstantIndex,
    pub attributes: Vec<Attribute>,
}

pub struct Method {
    pub access_flags: AccessFlags,
    pub name_index: ConstantIndex,
    pub descriptor_index: ConstantIndex,
    pub attributes: Vec<Attribute>,
}

/// A decoded class file.
pub struct ClassFile {
    pub(crate) magic: u32,
    pub(crate) minor_version: u16,
    pub(crate) major_version: u16,
    pub(crate) constants: ConstantPool,
    pub(crate) access_flags: AccessFlags,
    pub(crate) this_class: ConstantIndex,
    pub(crate) super_class: ConstantIndex,
    pub(crate) interfaces: Vec<ConstantIndex>,
    pub(crate) fields: Vec<Field>,
    pub(crate) methods: Vec<Method>,
    pub(crate) attributes: Vec<Attribute>,
}

impl ClassFile {
    pub(crate) fn new(
        magic: u32,
        minor_version: u16,
        major_version: u16,
        constants: ConstantPool,
        access_flags: AccessFlags,
        this_class: ConstantIndex,
        super_class: ConstantIndex,
        interfaces: Vec<ConstantIndex>,
        fields: Vec<Field>,
        methods: Vec<Method>,
        attributes: Vec<Attribute>,
    ) -> (r: ClassFile)
        ensures
            r.spec_magic() == magic,
            r.spec_minor_version() == minor_version,
            r.spec_major_version() == major_version,
            r.spec_constant_pool() == constants,
            r.spec_access_flags() == access_flags,
            r.spec_this_class() == this_class,
            r.spec_super_class() == super_class,
            r.spec_interfaces() == interfaces@,
            r.spec_fields() == fields@,
            r.spec_methods() == methods@,
            r.spec_attributes() == attributes@,
    {
        ClassFile {
            magic,
            minor_version,
            major_version,
            constants,
            access_flags,
            this_class,
            super_class,
            interfaces,
            fields,
            methods,
            attributes,
        }
    }

    pub closed spec fn spec_magic(&self) -> u32 {
        self.magic
    }

    pub closed spec fn spec_minor_version(&self) -> u16 {
        self.minor_version
    }

    pub closed spec fn spec_major_version(&self) -> u16 {
        self.major_version
    }

    pub closed spec fn spec_constant_pool(&self) -> ConstantPool {
        self.constants
    }

    pub closed spec fn spec_access_flags(&self) -> AccessFlags {
        self.access_flags
    }

    pub closed spec fn spec_this_class(&self) -> ConstantIndex {
        self.this_class
    }

    pub closed spec fn spec_super_class(&self) -> ConstantIndex {
        self.super_class
    }

    pub closed spec fn spec_interfaces(&self) -> Seq<ConstantIndex> {
        self.interfaces@
    }

    pub closed spec fn spec_fields(&self) -> Seq<Field> {
        self.fields@
    }

    pub closed spec fn spec_methods(&self) -> Seq<Method> {
        self.methods@
    }

    pub closed spec fn spec_attributes(&self) -> Seq<Attribute> {
        self.attributes@
    }

    pub fn magic(&self) -> (r: u32)
        ensures
            r == self.spec_magic(),
    {
        self.magic
    }

    pub fn minor_version(&self) -> (r: u16)
        ensures
            r == self.spec_minor_version(),
    {
        self.minor_version
    }

    pub fn major_version(&self) -> (r: u16)
        ensures
            r == self.spec_major_version(),
    {
        self.major_version
    }

    pub fn access_flags(&self) -> (r: AccessFlags)
        ensures
            r == self.spec_access_flags(),
    {
        self.access_flags
    }

    pub fn constant_pool(&self) -> (r: &ConstantPool)
        ensures
            r == self.spec_constant_pool(),
    {
        &self.constants
    }

    pub fn this_class(&self) -> (r: ConstantIndex)
        ensures
            r == self.spec_this_class(),
    {
        self.this_class
    }

    pub fn super_class(&self) -> (r: ConstantIndex)
        ensures
            r == self.spec_super_class(),
    {
        self.super_class
    }

    pub fn interfaces(&self) -> (r: &[ConstantIndex])
        ensures
            r@ == self.spec_interfaces(),
    {
        self.interfaces.as_slice()
    }

    pub fn fields(&self) -> (r: &[Field])
        ensures
            r@ == self.spec_fields(),
    {
        self.fields.as_slice()
    }

    pub fn methods(&self) -> (r: &[Method])
        ensures
            r@ == self.spec_methods(),
    {
        self.methods.as_slice()
    }

    pub fn attributes(&self) -> (r: &[Attribute])
        ensures
            r@ == self.spec_attributes(),
    {
        self.attributes.as_slice()
    }
}

} // verus!
