use vstd::prelude::*;

use crate::error::{FormatError, JvmParseError};

verus! {

/// A 1-based index into the constant pool; 0 names no constant.
#[derive(Debug, Clone, Copy, PartialEq, Eq, Hash, Structural)]
pub struct ConstantIndex(pub u16);

/// The kind of a constant, as its tag byte encodes it.
#[derive(Debug, Clone, Copy, PartialEq, Eq, Structural)]
pub enum ConstantTag {
    Class,
    Fieldref,
    Methodref,
    InterfaceMethodref,
    String,
    Integer,
    Float,
    Long,
    Double,
    NameAndType,
    Utf8,
    MethodHandle,
    MethodType,
    InvokeDynamic,
}

/// The constant kind that a tag byte encodes.
pub open spec fn constant_tag_of(tag: u8) -> Option<ConstantTag> {
    match tag {
        7u8 => Some(ConstantTag::Class),
        9u8 => Some(ConstantTag::Fieldref),
        10u8 => Some(ConstantTag::Methodref),
        11u8 => Some(ConstantTag::InterfaceMethodref),
        8u8 => Some(ConstantTag::String),
        3u8 => Some(ConstantTag::Integer),
        4u8 => Some(ConstantTag::Float),
        5u8 => Some(ConstantTag::Long),
        6u8 => Some(ConstantTag::Double),
        12u8 => Some(ConstantTag::NameAndType),
        1u8 => Some(ConstantTag::Utf8),
        15u8 => Some(ConstantTag::MethodHandle),
        16u8 => Some(ConstantTag::MethodType),
        18u8 => Some(ConstantTag::InvokeDynamic),
        _ => None,
    }
}

impl ConstantTag {
    /// The kind that `value` encodes, or an error naming the unknown tag.
    pub fn try_from(value: u8) -> (r: Result<ConstantTag, JvmParseError>)
        ensures
            r == (match constant_tag_of(value) {
                Some(t) => Ok(t),
                None => Err(
                    JvmParseError::InvalidFormat(
                        FormatError::UnknownConstantTag { index: 0, tag: value },
                    ),
                ),
            }),
    {
        match value {
            7 => Ok(ConstantTag::Class),
            9 => Ok(ConstantTag::Fieldref),
            10 => Ok(ConstantTag::Methodref),
            11 => Ok(ConstantTag::InterfaceMethodref),
            8 => Ok(ConstantTag::String),
            3 => Ok(ConstantTag::Integer),
            4 => Ok(ConstantTag::Float),
            5 => Ok(ConstantTag::Long),
            6 => Ok(ConstantTag::Double),
            12 => Ok(ConstantTag::NameAndType),
            1 => Ok(ConstantTag::Utf8),
            15 => Ok(ConstantTag::MethodHandle),
            16 => Ok(ConstantTag::MethodType),
            18 => Ok(ConstantTag::InvokeDynamic),
            _ => Err(
                JvmParseError::InvalidFormat(
                    FormatError::UnknownConstantTag { index: 0, tag: value },
                ),
            ),
        }
    }
}

/// The kind of field or method access that a method handle performs.
#[derive(Debug, Clone, Copy, PartialEq, Eq, Structural)]
pub enum ReferenceKind {
    GetField,
    GetStatic,
    PutField,
    PutStatic,
    InvokeVirtual,
    InvokeStatic,
    InvokeSpecial,
    NewInvokeSpecial,
    InvokeInterface,
}

/// The reference kind that a byte encodes; the valid ones are 1 to 9.
pub open spec fn reference_kind_of(value: u8) -> Option<ReferenceKind> {
    match value {
        1u8 => Some(ReferenceKind::GetField),
        2u8 => Some(ReferenceKind::GetStatic),
        3u8 => Some(ReferenceKind::PutField),
        4u8 => Some(ReferenceKind::PutStatic),
        5u8 => Some(ReferenceKind::InvokeVirtual),
        6u8 => Some(ReferenceKind::InvokeStatic),
        7u8 => Some(ReferenceKind::InvokeSpecial),
        8u8 => Some(ReferenceKind::NewInvokeSpecial),
        9u8 => Some(ReferenceKind::InvokeInterface),
        _ => None,
    }
}

impl ReferenceKind {
    /// The reference kind that `value` encodes, or an error naming it.
    pub fn try_from(value: u8) -> (r: Result<ReferenceKind, JvmParseError>)
        ensures
            r == (match reference_kind_of(value) {
                Some(k) => Ok(k),
                None => Err(JvmParseError::InvalidFormat(FormatError::UnknownReferenceKind(value))),
            }),
    {
        match value {
            1 => Ok(ReferenceKind::GetField),
            2 => Ok(ReferenceKind::GetStatic),
            3 => Ok(ReferenceKind::PutField),
            4 => Ok(ReferenceKind::PutStatic),
            5 => Ok(ReferenceKind::InvokeVirtual),
            6 => Ok(ReferenceKind::InvokeStatic),
            7 => Ok(ReferenceKind::InvokeSpecial),
            8 => Ok(ReferenceKind::NewInvokeSpecial),
            9 => Ok(ReferenceKind::InvokeInterface),
            _ => Err(JvmParseError::InvalidFormat(FormatError::UnknownReferenceKind(value))),
        }
    }
}

/// One slot of the constant pool. `Float` and `Double` hold the IEEE-754 bit
/// patterns of their values.
#[derive(Debug, Clone, PartialEq)]
pub enum Constant {
    Class { name_index: ConstantIndex },
    Fieldref { class_index: ConstantIndex, name_and_type_index: ConstantIndex },
    Methodref { class_index: ConstantIndex, name_and_type_index: ConstantIndex },
    InterfaceMethodref { class_index: ConstantIndex, name_and_type_index: ConstantIndex },
    String(ConstantIndex),
    Integer(i32),
    Float(u32),
    Long(i64),
    Double(u64),
    NameAndType { name_index: ConstantIndex, descriptor_index: ConstantIndex },
    Utf8(String),
    MethodHandle { reference_kind: ReferenceKind, reference_index: ConstantIndex },
    MethodType { descriptor_index: ConstantIndex },
    InvokeDynamic { bootstrap_method_attr_index: ConstantIndex, name_and_type_index: ConstantIndex },
    /// The second slot of a long or double constant.
    InvalidConstant,
}

/// A constant as a value: a Utf8 constant by its characters.
pub enum ConstantModel {
    Class { name_index: ConstantIndex },
    Fieldref { class_index: ConstantIndex, name_and_type_index: ConstantIndex },
    Methodref { class_index: ConstantIndex, name_and_type_index: ConstantIndex },
    InterfaceMethodref { class_index: ConstantIndex, name_and_type_index: ConstantIndex },
    String(ConstantIndex),
    Integer(i32),
    Float(u32),
    Long(i64),
    Double(u64),
    NameAndType { name_index: ConstantIndex, descriptor_index: ConstantIndex },
    Utf8(Seq<char>),
    MethodHandle { reference_kind: ReferenceKind, reference_index: ConstantIndex },
    MethodType { descriptor_index: ConstantIndex },
    InvokeDynamic { bootstrap_method_attr_index: ConstantIndex, name_and_type_index: ConstantIndex },
    InvalidConstant,
}

impl View for Constant {
    type V = ConstantModel;

    open spec fn view(&self) -> ConstantModel {
        match self {
            Constant::Class { name_index } => ConstantModel::Class { name_index: *name_index },
            Constant::Fieldref { class_index, name_and_type_index } => ConstantModel::Fieldref {
                class_index: *class_index,
                name_and_type_index: *name_and_type_index,
            },
            Constant::Methodref { class_index, name_and_type_index } => ConstantModel::Methodref {
                class_index: *class_index,
                name_and_type_index: *name_and_type_index,
            },
            Constant::InterfaceMethodref {
                class_index,
                name_and_type_index,
            } => ConstantModel::InterfaceMethodref {
                class_index: *class_index,
                name_and_type_index: *name_and_type_index,
            },
            Constant::String(i) => ConstantModel::String(*i),
            Constant::Integer(v) => ConstantModel::Integer(*v),
            Constant::Float(v) => ConstantModel::Float(*v),
            Constant::Long(v) => ConstantModel::Long(*v),
            Constant::Double(v) => ConstantModel::Double(*v),
            Constant::NameAndType { name_index, descriptor_index } => ConstantModel::NameAndType {
                name_index: *name_index,
                descriptor_index: *descriptor_index,
            },
            Constant::Utf8(s) => ConstantModel::Utf8(s@),
            Constant::MethodHandle {
                reference_kind,
                reference_index,
            } => ConstantModel::MethodHandle {
                reference_kind: *reference_kind,
                reference_index: *reference_index,
            },
            Constant::MethodType { descriptor_index } => ConstantModel::MethodType {
                descriptor_index: *descriptor_index,
            },
            Constant::InvokeDynamic {
                bootstrap_method_attr_index,
                name_and_type_index,
            } => ConstantModel::InvokeDynamic {
                bootstrap_method_attr_index: *bootstrap_method_attr_index,
                name_and_type_index: *name_and_type_index,
            },
            Constant::InvalidConstant => ConstantModel::InvalidConstant,
        }
    }
}

impl Constant {
    /// Whether this is a real constant rather than the second slot of a
    /// long or double one.
    pub fn is_valid(&self) -> (r: bool)
        ensures
            r == !(self@ is InvalidConstant),
    {
        !matches!(self, Constant::InvalidConstant)
    }
}

/// Whether a pool keeps the double-slot rule: every long or double constant
/// is followed by an `InvalidConstant` slot.
pub open spec fn pool_wf(s: Seq<ConstantModel>) -> bool {
    forall|i: int|
        0 <= i < s.len() && (#[trigger] s[i] is Long || s[i] is Double) ==> i + 1 < s.len()
            && s[i + 1] is InvalidConstant
}

/// The constant at a 1-based index: none at 0, past the end, or on the
/// second slot of a long or double constant.
pub open spec fn pool_get(s: Seq<ConstantModel>, index: ConstantIndex) -> Option<ConstantModel> {
    if index.0 == 0 || index.0 > s.len() || s[index.0 - 1] is InvalidConstant {
        None
    } else {
        Some(s[index.0 - 1])
    }
}

/// The `(index, constant)` pairs of the real constants among the first `n`
/// slots, in order.
pub open spec fn pool_entries(s: Seq<ConstantModel>, n: int) -> Seq<(ConstantIndex, ConstantModel)>
    decreases n,
{
    if n <= 0 {
        Seq::empty()
    } else if s[n - 1] is InvalidConstant {
        pool_entries(s, n - 1)
    } else {
        pool_entries(s, n - 1).push((ConstantIndex(n as u16), s[n - 1]))
    }
}

/// The constant pool of a class file, indexed from 1.
pub struct ConstantPool(Vec<Constant>);

impl View for ConstantPool {
    type V = Seq<ConstantModel>;

    closed spec fn view(&self) -> Seq<ConstantModel> {
        self.0@.map_values(|c: Constant| c@)
    }
}

impl ConstantPool {
    /// The pool whose slots are `constant_pool`, slot 1 first.
    pub fn new(constant_pool: Vec<Constant>) -> (r: Self)
        requires
            constant_pool@.len() < 0x10000,
            pool_wf(constant_pool@.map_values(|c: Constant| c@)),
        ensures
            r@ == constant_pool@.map_values(|c: Constant| c@),
            r.wf(),
    {
        Self(constant_pool)
    }

    /// The pool keeps the double-slot rule and fits 16-bit indices.
    pub open spec fn wf(&self) -> bool {
        &&& self@.len() < 0x10000
        &&& pool_wf(self@)
    }

    /// The real constants with their indices, the second slots of long and
    /// double constants left out.
    pub fn all(&self) -> (r: Vec<(ConstantIndex, &Constant)>)
        requires
            self.wf(),
        ensures
            r@.map_values(|e: (ConstantIndex, &Constant)| (e.0, e.1@)) == pool_entries(
                self@,
                self@.len() as int,
            ),
    {
        let mut out: Vec<(ConstantIndex, &Constant)> = Vec::new();
        let mut i: usize = 0;
        while i < self.0.len()
            invariant
                i <= self.0@.len(),
                self.wf(),
                out@.map_values(|e: (ConstantIndex, &Constant)| (e.0, e.1@)) == pool_entries(
                    self@,
                    i as int,
                ),
            decreases self.0@.len() - i,
        {
            let c = &self.0[i];
            if c.is_valid() {
                out.push((ConstantIndex((i + 1) as u16), c));
            }
            i += 1;
            assert(out@.map_values(|e: (ConstantIndex, &Constant)| (e.0, e.1@)) =~= pool_entries(
                self@,
                i as int,
            ));
        }
        out
    }

    /// The constant at `index`; none at 0, past the end, or on the second
    /// slot of a long or double constant.
    pub fn get(&self, index: ConstantIndex) -> (r: Option<&Constant>)
        ensures
            match r {
                Some(c) => pool_get(self@, index) == Some(c@),
                None => pool_get(self@, index) is None,
            },
    {
        if index.0 == 0 || index.0 as usize > self.0.len() {
            None
        } else {
            let c = &self.0[(index.0 - 1) as usize];
            if c.is_valid() {
                Some(c)
            } else {
                None
            }
        }
    }

    /// The text of the Utf8 constant at `index`.
    pub fn resolve_utf8(&self, index: ConstantIndex) -> (r: Result<&str, JvmParseError>)
        ensures
            match pool_get(self@, index) {
                Some(ConstantModel::Utf8(s)) => r is Ok && r->Ok_0@ == s,
                Some(_) => r == Err::<&str, JvmParseError>(
                    JvmParseError::WrongConstantType(index, ConstantTag::Utf8),
                ),
                None => r == Err::<&str, JvmParseError>(JvmParseError::MissingConstant(index)),
            },
    {
        match self.get(index) {
            Some(Constant::Utf8(utf8)) => Ok(utf8.as_str()),
            Some(_) => Err(JvmParseError::WrongConstantType(index, ConstantTag::Utf8)),
            None => Err(JvmParseError::MissingConstant(index)),
        }
    }

    /// The name index of the Class constant at `index`.
    pub fn resolve_class(&self, index: ConstantIndex) -> (r: Result<ConstantIndex, JvmParseError>)
        ensures
            match pool_get(self@, index) {
                Some(ConstantModel::Class { name_index }) => r == Ok::<
                    ConstantIndex,
                    JvmParseError,
                >(name_index),
                Some(_) => r == Err::<ConstantIndex, JvmParseError>(
                    JvmParseError::WrongConstantType(index, ConstantTag::Class),
                ),
                None => r == Err::<ConstantIndex, JvmParseError>(
                    JvmParseError::MissingConstant(index),
                ),
            },
    {
        match self.get(index) {
            Some(Constant::Class { name_index }) => Ok(*name_index),
            Some(_) => Err(JvmParseError::WrongConstantType(index, ConstantTag::Class)),
            None => Err(JvmParseError::MissingConstant(index)),
        }
    }
}

/// The second slot of a long or double constant resolves to nothing: it
/// never yields the constant before it, nor any other.
pub proof fn lemma_second_slot_absent(pool: ConstantPool, k: u16)
    requires
        pool.wf(),
        1 <= k <= pool@.len(),
        pool@[k - 1] is Long || pool@[k - 1] is Double,
    ensures
        k + 1 <= pool@.len(),
        pool_get(pool@, ConstantIndex((k + 1) as u16)) is None,
{
    assert(pool@[k - 1] is Long || pool@[k - 1] is Double);
}

} // verus!
