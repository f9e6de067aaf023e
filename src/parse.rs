use vstd::prelude::*;

use crate::bytes::{be16, be32, be64, read_bytes_at, read_u16_at, read_u32_at, read_u64_at, read_u8_at};
use crate::classfile::{
    AccessFlags, Attribute, ClassFile, Code, ConstantValue, ExceptionTableEntry, Field, Method,
    ACC_ALL,
};
use crate::constants::{
    pool_get, pool_wf, reference_kind_of, Constant, ConstantIndex, ConstantModel, ConstantPool,
    ReferenceKind,
};
use crate::disasm::{disasm, disasm_from};
use crate::error::{FormatError, JvmParseError};
use crate::opcode::Opcode;

verus! {

/// The characters that the bytes `b` of a Utf8 constant encode (as standard
/// or as Java's modified UTF-8), or none where they encode none.
pub uninterp spec fn java_utf8_decode(b: Seq<u8>) -> Option<Seq<char>>;

/// Relies on cesu8's `from_java_cesu8`: takes bytes that are valid standard
/// UTF-8 as they are, and otherwise decodes them as Java's modified UTF-8
/// (null as two bytes, supplementary characters as surrogate pairs), failing
/// where they are neither. The outcome depends on the bytes alone.
#[verifier::external_body]
fn decode_java_utf8(b: &[u8]) -> (r: Option<String>)
    ensures
        match r {
            Some(s) => java_utf8_decode(b@) == Some(s@),
            None => java_utf8_decode(b@) is None,
        },
{
    cesu8::from_java_cesu8(b).ok().map(|s| s.into_owned())
}

/// The byte at `p`, or the end of input.
pub open spec fn byte_at(b: Seq<u8>, p: int) -> Result<u8, JvmParseError> {
    if 0 <= p < b.len() {
        Ok(b[p])
    } else {
        Err(JvmParseError::UnexpectedEof)
    }
}

/// The big-endian `u16` at `p`, or the end of input.
pub open spec fn u16_at(b: Seq<u8>, p: int) -> Result<u16, JvmParseError> {
    if 0 <= p && p + 2 <= b.len() {
        Ok(be16(b, p))
    } else {
        Err(JvmParseError::UnexpectedEof)
    }
}

/// The big-endian `u32` at `p`, or the end of input.
pub open spec fn u32_at(b: Seq<u8>, p: int) -> Result<u32, JvmParseError> {
    if 0 <= p && p + 4 <= b.len() {
        Ok(be32(b, p))
    } else {
        Err(JvmParseError::UnexpectedEof)
    }
}

fn take_u8(b: &[u8], p: usize) -> (r: Result<u8, JvmParseError>)
    ensures
        r == byte_at(b@, p as int),
{
    match read_u8_at(b, p) {
        Ok(v) => Ok(v),
        Err(_) => Err(JvmParseError::UnexpectedEof),
    }
}

fn take_u16(b: &[u8], p: usize) -> (r: Result<u16, JvmParseError>)
    ensures
        r == u16_at(b@, p as int),
{
    match read_u16_at(b, p) {
        Ok(v) => Ok(v),
        Err(_) => Err(JvmParseError::UnexpectedEof),
    }
}

fn take_u32(b: &[u8], p: usize) -> (r: Result<u32, JvmParseError>)
    ensures
        r == u32_at(b@, p as int),
{
    match read_u32_at(b, p) {
        Ok(v) => Ok(v),
        Err(_) => Err(JvmParseError::UnexpectedEof),
    }
}

/// The bytes of a section prefixed by its 2-byte length at `p`, with the
/// offset after it.
pub fn parse_bytes_u16(b: &[u8], p: usize) -> (r: Result<(Vec<u8>, usize), JvmParseError>)
    ensures
        match u16_at(b@, p as int) {
            Err(e) => r == Err::<(Vec<u8>, usize), JvmParseError>(e),
            Ok(n) => if p + 2 + n <= b@.len() {
                r is Ok && r->Ok_0.0@ == b@.subrange(p + 2, p + 2 + n) && r->Ok_0.1 == p + 2 + n
            } else {
                r == Err::<(Vec<u8>, usize), JvmParseError>(JvmParseError::UnexpectedEof)
            },
        },
{
    let len = b.len();
    let n = take_u16(b, p)? as usize;
    match read_bytes_at(b, p + 2, n) {
        Ok(bytes) => Ok((bytes, p + 2 + n)),
        Err(_) => Err(JvmParseError::UnexpectedEof),
    }
}

/// The bytes of a section prefixed by its 4-byte length at `p`, with the
/// offset after it.
pub fn parse_bytes_u32(b: &[u8], p: usize) -> (r: Result<(Vec<u8>, usize), JvmParseError>)
    ensures
        match u32_at(b@, p as int) {
            Err(e) => r == Err::<(Vec<u8>, usize), JvmParseError>(e),
            Ok(n) => if p + 4 + n <= b@.len() {
                r is Ok && r->Ok_0.0@ == b@.subrange(p + 4, p + 4 + n) && r->Ok_0.1 == p + 4 + n
            } else {
                r == Err::<(Vec<u8>, usize), JvmParseError>(JvmParseError::UnexpectedEof)
            },
        },
{
    let len = b.len();
    let n = take_u32(b, p)? as usize;
    match read_bytes_at(b, p + 4, n) {
        Ok(bytes) => Ok((bytes, p + 4 + n)),
        Err(_) => Err(JvmParseError::UnexpectedEof),
    }
}

/// `c`, ending `n` bytes after `p`, if those bytes are there.
pub open spec fn sized(b: Seq<u8>, p: int, n: int, c: ConstantModel) -> Result<
    (ConstantModel, int),
    JvmParseError,
> {
    if p + n <= b.len() {
        Ok((c, p + n))
    } else {
        Err(JvmParseError::UnexpectedEof)
    }
}

/// The constant whose tag byte is at `p`, for slot `index`, with the offset
/// just past it.
#[verifier::opaque]
pub open spec fn constant_entry(b: Seq<u8>, p: int, index: u16) -> Result<
    (ConstantModel, int),
    JvmParseError,
> {
    if p < 0 || p >= b.len() {
        Err(JvmParseError::UnexpectedEof)
    } else {
        let tag = b[p];
        let first = ConstantIndex(be16(b, p + 1));
        let second = ConstantIndex(be16(b, p + 3));
        match tag {
            7u8 => sized(b, p, 3, ConstantModel::Class { name_index: first }),
            9u8 => sized(
                b,
                p,
                5,
                ConstantModel::Fieldref { class_index: first, name_and_type_index: second },
            ),
            10u8 => sized(
                b,
                p,
                5,
                ConstantModel::Methodref { class_index: first, name_and_type_index: second },
            ),
            11u8 => sized(
                b,
                p,
                5,
                ConstantModel::InterfaceMethodref { class_index: first, name_and_type_index: second },
            ),
            8u8 => sized(b, p, 3, ConstantModel::String(first)),
            3u8 => sized(b, p, 5, ConstantModel::Integer(be32(b, p + 1) as i32)),
            4u8 => sized(b, p, 5, ConstantModel::Float(be32(b, p + 1))),
            5u8 => sized(b, p, 9, ConstantModel::Long(be64(b, p + 1) as i64)),
            6u8 => sized(b, p, 9, ConstantModel::Double(be64(b, p + 1))),
            12u8 => sized(
                b,
                p,
                5,
                ConstantModel::NameAndType { name_index: first, descriptor_index: second },
            ),
            15u8 => if p + 2 > b.len() {
                Err(JvmParseError::UnexpectedEof)
            } else {
                match reference_kind_of(b[p + 1]) {
                    None => Err(
                        JvmParseError::InvalidFormat(FormatError::UnknownReferenceKind(b[p + 1])),
                    ),
                    Some(k) => sized(
                        b,
                        p,
                        4,
                        ConstantModel::MethodHandle {
                            reference_kind: k,
                            reference_index: ConstantIndex(be16(b, p + 2)),
                        },
                    ),
                }
            },
            16u8 => sized(b, p, 3, ConstantModel::MethodType { descriptor_index: first }),
            18u8 => sized(
                b,
                p,
                5,
                ConstantModel::InvokeDynamic {
                    bootstrap_method_attr_index: first,
                    name_and_type_index: second,
                },
            ),
            1u8 => if p + 3 > b.len() || p + 3 + be16(b, p + 1) > b.len() {
                Err(JvmParseError::UnexpectedEof)
            } else {
                let end = p + 3 + be16(b, p + 1);
                match java_utf8_decode(b.subrange(p + 3, end)) {
                    Some(s) => Ok((ConstantModel::Utf8(s), end)),
                    None => Err(JvmParseError::InvalidFormat(FormatError::InvalidString { index })),
                }
            },
            _ => Err(JvmParseError::InvalidFormat(FormatError::UnknownConstantTag { index, tag })),
        }
    }
}

/// Prefixes `pre` to the slots of a successful decoding.
pub open spec fn prepend_slots(
    pre: Seq<ConstantModel>,
    r: Result<(Seq<ConstantModel>, int), JvmParseError>,
) -> Result<(Seq<ConstantModel>, int), JvmParseError> {
    match r {
        Ok((s, q)) => Ok((pre + s, q)),
        Err(e) => Err(e),
    }
}

/// The slots `i` up to `count - 1` of a constant pool whose entry for slot
/// `i` starts at `p`, with the offset just past the last entry. A long or
/// double constant fills two slots, the second with `InvalidConstant`, and
/// fails where it is the last declared entry.
pub open spec fn pool_from(b: Seq<u8>, p: int, i: int, count: int) -> Result<
    (Seq<ConstantModel>, int),
    JvmParseError,
>
    decreases count - i,
{
    if i >= count {
        Ok((Seq::empty(), p))
    } else {
        match constant_entry(b, p, i as u16) {
            Err(e) => Err(e),
            Ok((c, q)) => if c is Long || c is Double {
                if i + 1 >= count {
                    Err(JvmParseError::InvalidFormat(FormatError::MissingSecondSlot { index: (i + 1) as u16 }))
                } else {
                    prepend_slots(seq![c, ConstantModel::InvalidConstant], pool_from(b, q, i + 2, count))
                }
            } else {
                prepend_slots(seq![c], pool_from(b, q, i + 1, count))
            },
        }
    }
}

/// The constant pool whose 2-byte count is at `p`, with the offset after it.
pub open spec fn constant_pool_at(b: Seq<u8>, p: int) -> Result<
    (Seq<ConstantModel>, int),
    JvmParseError,
> {
    match u16_at(b, p) {
        Err(e) => Err(e),
        Ok(count) => pool_from(b, p + 2, 1, count as int),
    }
}

proof fn lemma_prepend_slots_twice(
    a: Seq<ConstantModel>,
    c: Seq<ConstantModel>,
    r: Result<(Seq<ConstantModel>, int), JvmParseError>,
)
    ensures
        prepend_slots(a, prepend_slots(c, r)) == prepend_slots(a + c, r),
{
    if let Ok((s, q)) = r {
        assert(a + (c + s) =~= (a + c) + s);
    }
}

/// A decoded pool keeps the double-slot rule and has one slot for each
/// declared index.
proof fn lemma_pool_from_wf(b: Seq<u8>, p: int, i: int, count: int)
    requires
        i <= count,
    ensures
        pool_from(b, p, i, count) matches Ok((s, _)) ==> pool_wf(s) && s.len() == count - i,
    decreases count - i,
{
    if i < count {
        if let Ok((c, q)) = constant_entry(b, p, i as u16) {
            if c is Long || c is Double {
                if i + 1 < count {
                    lemma_pool_from_wf(b, q, i + 2, count);
                    if let Ok((s, _)) = pool_from(b, q, i + 2, count) {
                        let t = seq![c, ConstantModel::InvalidConstant] + s;
                        assert forall|j: int|
                            0 <= j < t.len() && (#[trigger] t[j] is Long || t[j] is Double) implies j
                            + 1 < t.len() && t[j + 1] is InvalidConstant by {
                            if j >= 2 {
                                assert(t[j] == s[j - 2]);
                                assert(t[j + 1] == s[j - 1]);
                            }
                        }
                    }
                }
            } else {
                lemma_pool_from_wf(b, q, i + 1, count);
                if let Ok((s, _)) = pool_from(b, q, i + 1, count) {
                    let t = seq![c] + s;
                    assert forall|j: int|
                        0 <= j < t.len() && (#[trigger] t[j] is Long || t[j] is Double) implies j + 1
                        < t.len() && t[j + 1] is InvalidConstant by {
                        if j >= 1 {
                            assert(t[j] == s[j - 1]);
                            assert(t[j + 1] == s[j]);
                        }
                    }
                }
            }
        }
    }
}

/// Decodes the constant whose tag byte is at `p`, for slot `index`.
fn parse_constant(b: &[u8], p: usize, index: u16) -> (r: Result<(Constant, usize), JvmParseError>)
    ensures
        match constant_entry(b@, p as int, index) {
            Ok((c, q)) => r is Ok && r->Ok_0.0@ == c && r->Ok_0.1 == q,
            Err(e) => r == Err::<(Constant, usize), JvmParseError>(e),
        },
{
    reveal(constant_entry);
    let len = b.len();
    let tag = take_u8(b, p)?;
    let q = p + 1;
    let constant = match tag {
        7 => Constant::Class { name_index: ConstantIndex(take_u16(b, q)?) },
        9 => Constant::Fieldref {
            class_index: ConstantIndex(take_u16(b, q)?),
            name_and_type_index: ConstantIndex(take_u16(b, q + 2)?),
        },
        10 => Constant::Methodref {
            class_index: ConstantIndex(take_u16(b, q)?),
            name_and_type_index: ConstantIndex(take_u16(b, q + 2)?),
        },
        11 => Constant::InterfaceMethodref {
            class_index: ConstantIndex(take_u16(b, q)?),
            name_and_type_index: ConstantIndex(take_u16(b, q + 2)?),
        },
        8 => Constant::String(ConstantIndex(take_u16(b, q)?)),
        3 => Constant::Integer(#[verifier::truncate] (take_u32(b, q)? as i32)),
        4 => Constant::Float(take_u32(b, q)?),
        5 => match read_u64_at(b, q) {
            Ok(v) => Constant::Long(#[verifier::truncate] (v as i64)),
            Err(_) => return Err(JvmParseError::UnexpectedEof),
        },
        6 => match read_u64_at(b, q) {
            Ok(v) => Constant::Double(v),
            Err(_) => return Err(JvmParseError::UnexpectedEof),
        },
        12 => Constant::NameAndType {
            name_index: ConstantIndex(take_u16(b, q)?),
            descriptor_index: ConstantIndex(take_u16(b, q + 2)?),
        },
        15 => Constant::MethodHandle {
            reference_kind: ReferenceKind::try_from(take_u8(b, q)?)?,
            reference_index: ConstantIndex(take_u16(b, q + 1)?),
        },
        16 => Constant::MethodType { descriptor_index: ConstantIndex(take_u16(b, q)?) },
        18 => Constant::InvokeDynamic {
            bootstrap_method_attr_index: ConstantIndex(take_u16(b, q)?),
            name_and_type_index: ConstantIndex(take_u16(b, q + 2)?),
        },
        1 => {
            let (buf, end) = parse_bytes_u16(b, q)?;
            match decode_java_utf8(buf.as_slice()) {
                Some(s) => {
                    return Ok((Constant::Utf8(s), end));
                },
                None => {
                    return Err(JvmParseError::InvalidFormat(FormatError::InvalidString { index }))
                },
            }
        },
        _ => {
            return Err(JvmParseError::InvalidFormat(FormatError::UnknownConstantTag { index, tag }))
        },
    };
    let width: usize = match tag {
        7 | 8 | 16 => 3,
        5 | 6 => 9,
        15 => 4,
        _ => 5,
    };
    Ok((constant, p + width))
}

/// Decodes the constant pool whose 2-byte count is at `p`; returns its slots
/// and the offset after it.
pub fn parse_constants(b: &[u8], p: usize) -> (r: Result<(Vec<Constant>, usize), JvmParseError>)
    ensures
        match constant_pool_at(b@, p as int) {
            Ok((s, q)) => r is Ok && r->Ok_0.0@.map_values(|c: Constant| c@) == s && r->Ok_0.1
                == q,
            Err(e) => r == Err::<(Vec<Constant>, usize), JvmParseError>(e),
        },
{
    let len = b.len();
    let count = take_u16(b, p)? as u32;
    let ghost start = p + 2;
    assert(constant_pool_at(b@, p as int) == pool_from(b@, start, 1, count as int));
    let mut pos = p + 2;
    let mut constants: Vec<Constant> = Vec::new();
    let mut i: u32 = 1;
    while i < count
        invariant
            1 <= i <= count + 1,
            count < 0x10000,
            len == b@.len(),
            start == p + 2,
            constant_pool_at(b@, p as int) == pool_from(b@, start, 1, count as int),
            prepend_slots(Seq::empty(), pool_from(b@, start, 1, count as int)) == prepend_slots(
                constants@.map_values(|c: Constant| c@),
                pool_from(b@, pos as int, i as int, count as int),
            ),
        decreases count - i,
    {
        let ghost pre = constants@.map_values(|c: Constant| c@);
        let ghost at = pos as int;
        let (constant, next) = match parse_constant(b, pos, i as u16) {
            Ok(x) => x,
            Err(e) => {
                assert(pool_from(b@, at, i as int, count as int) == Err::<
                    (Seq<ConstantModel>, int),
                    JvmParseError,
                >(e));
                assert(pool_from(b@, start, 1, count as int) == Err::<
                    (Seq<ConstantModel>, int),
                    JvmParseError,
                >(e));
                return Err(e);
            },
        };
        let long_constant = matches!(constant, Constant::Long(_)) || matches!(
            constant,
            Constant::Double(_)
        );
        let ghost c = constant@;
        constants.push(constant);
        pos = next;
        if long_constant {
            if i + 1 >= count {
                assert(pool_from(b@, at, i as int, count as int) == Err::<
                    (Seq<ConstantModel>, int),
                    JvmParseError,
                >(JvmParseError::InvalidFormat(FormatError::MissingSecondSlot { index: (i + 1) as u16 })));
                assert(pool_from(b@, start, 1, count as int) == Err::<
                    (Seq<ConstantModel>, int),
                    JvmParseError,
                >(JvmParseError::InvalidFormat(FormatError::MissingSecondSlot { index: (i + 1) as u16 })));
                return Err(
                    JvmParseError::InvalidFormat(
                        FormatError::MissingSecondSlot { index: (i + 1) as u16 },
                    ),
                );
            }
            constants.push(Constant::InvalidConstant);
            proof {
                lemma_prepend_slots_twice(
                    pre,
                    seq![c, ConstantModel::InvalidConstant],
                    pool_from(b@, pos as int, i + 2, count as int),
                );
                assert(constants@.map_values(|c: Constant| c@) =~= pre + seq![
                    c,
                    ConstantModel::InvalidConstant,
                ]);
            }
            i += 2;
        } else {
            proof {
                lemma_prepend_slots_twice(
                    pre,
                    seq![c],
                    pool_from(b@, pos as int, i + 1, count as int),
                );
                assert(constants@.map_values(|c: Constant| c@) =~= pre + seq![c]);
            }
            i += 1;
        }
    }
    assert(constants@.map_values(|c: Constant| c@) + Seq::empty() =~= constants@.map_values(
        |c: Constant| c@,
    ));
    assert(Seq::<ConstantModel>::empty() + pool_from(b@, start, 1, count as int)->Ok_0.0
        =~= pool_from(b@, start, 1, count as int)->Ok_0.0);
    Ok((constants, pos))
}

/// Whether two strings hold the same characters.
fn same_text(a: &str, b: &str) -> (r: bool)
    ensures
        r == (a@ == b@),
{
    let n = a.unicode_len();
    if n != b.unicode_len() {
        return false;
    }
    let mut i: usize = 0;
    while i < n
        invariant
            n == a@.len(),
            n == b@.len(),
            i <= n,
            a@.subrange(0, i as int) == b@.subrange(0, i as int),
        decreases n - i,
    {
        if a.get_char(i) != b.get_char(i) {
            assert(a@[i as int] != b@[i as int]);
            return false;
        }
        assert(a@.subrange(0, i + 1) =~= a@.subrange(0, i as int).push(a@[i as int]));
        assert(b@.subrange(0, i + 1) =~= b@.subrange(0, i as int).push(b@[i as int]));
        i += 1;
    }
    assert(a@ =~= a@.subrange(0, n as int));
    assert(b@ =~= b@.subrange(0, n as int));
    true
}

/// The exception-table entry whose eight bytes start at `p`.
pub open spec fn exception_entry_at(b: Seq<u8>, p: int) -> ExceptionTableEntry {
    ExceptionTableEntry {
        start_pc: be16(b, p),
        end_pc: be16(b, p + 2),
        handler_pc: be16(b, p + 4),
        catch_type: be16(b, p + 6),
    }
}

/// What a method body decoded from `info` holds: its limits, its
/// instructions disassembled from the length-prefixed byte array, its
/// exception table, and each of its nested attributes.
pub open spec fn code_decoded(info: Seq<u8>, pool: Seq<ConstantModel>, c: Code) -> bool
    decreases info.len(), 3int,
{
    let n = be32(info, 4) as int;
    let t = 8 + n;
    let entries = c.exception_table@.len() as int;
    &&& info.len() >= 8
    &&& c.max_stack == be16(info, 0)
    &&& c.max_locals == be16(info, 2)
    &&& t + 2 <= info.len()
    &&& disasm_from(info.subrange(8, t), 0) == Ok::<Seq<Opcode>, crate::disasm::DisasmError>(
        c.code@,
    )
    &&& entries == be16(info, t)
    &&& t + 2 + 8 * entries + 2 <= info.len()
    &&& forall|k: int|
        0 <= k < entries ==> #[trigger] c.exception_table@[k] == exception_entry_at(
            info,
            t + 2 + 8 * k,
        )
    &&& attributes_decoded(info, t + 2 + 8 * entries, pool, c.attributes@)
}

/// What an attribute decoded at `p`, ending at `q`, holds: a name that
/// resolves to a Utf8 constant, a 4-byte length, and a body dispatched on
/// that name; an unknown name keeps the body's bytes as they are.
pub open spec fn attribute_decoded(
    b: Seq<u8>,
    p: int,
    pool: Seq<ConstantModel>,
    a: Attribute,
    q: int,
) -> bool
    decreases b.len(), 1int,
{
    let idx = ConstantIndex(be16(b, p));
    let info = b.subrange(p + 6, q);
    &&& 0 <= p && p + 6 <= q <= b.len()
    &&& q == p + 6 + be32(b, p + 2)
    &&& pool_get(pool, idx) matches Some(ConstantModel::Utf8(name)) && match a {
        Attribute::Code(c) => name == "Code"@ && code_decoded(info, pool, c),
        Attribute::ConstantValue(v) => name == "ConstantValue"@ && info.len() >= 2
            && v.constantvalue_index == ConstantIndex(be16(info, 0)),
        Attribute::SourceFile(i) => name == "SourceFile"@ && info.len() >= 2 && i == ConstantIndex(
            be16(info, 0),
        ),
        Attribute::Unknown { name: n, value } => n == idx && value@ == info && name != "Code"@
            && name != "ConstantValue"@ && name != "SourceFile"@,
    }
}

/// The error of resolving the Utf8 constant at `idx`, if it fails.
pub open spec fn utf8_error(pool: Seq<ConstantModel>, idx: ConstantIndex) -> Option<JvmParseError> {
    match pool_get(pool, idx) {
        Some(ConstantModel::Utf8(_)) => None,
        Some(_) => Some(JvmParseError::WrongConstantType(idx, crate::constants::ConstantTag::Utf8)),
        None => Some(JvmParseError::MissingConstant(idx)),
    }
}

/// The offset of attribute `k` of a list whose first attribute starts at
/// `start`: each attribute's 4-byte length says where the next one starts.
pub open spec fn attribute_offset(b: Seq<u8>, start: int, k: nat) -> int
    decreases k,
{
    if k == 0 {
        start
    } else {
        let q = attribute_offset(b, start, (k - 1) as nat);
        q + 6 + be32(b, q + 2)
    }
}

/// The offset just past a field or method at `p`: past its attribute list.
pub open spec fn member_end(b: Seq<u8>, p: int) -> int {
    attribute_offset(b, p + 8, be16(b, p + 6) as nat)
}

/// The offset of member `k` of a list whose first member starts at `start`.
pub open spec fn member_offset(b: Seq<u8>, start: int, k: nat) -> int
    decreases k,
{
    if k == 0 {
        start
    } else {
        member_end(b, member_offset(b, start, (k - 1) as nat))
    }
}

/// What a field or method decoded at `p` holds: its flags, name index and
/// descriptor index, and each of its attributes.
pub open spec fn member_decoded(
    b: Seq<u8>,
    p: int,
    pool: Seq<ConstantModel>,
    flags: AccessFlags,
    name: ConstantIndex,
    descriptor: ConstantIndex,
    attributes: Seq<Attribute>,
) -> bool {
    &&& 0 <= p && p + 8 <= b.len()
    &&& flags.spec_bits() == be16(b, p) & ACC_ALL
    &&& name == ConstantIndex(be16(b, p + 2))
    &&& descriptor == ConstantIndex(be16(b, p + 4))
    &&& attributes.len() == be16(b, p + 6)
    &&& forall|k: int|
        0 <= k < attributes.len() ==> attribute_decoded(
            b,
            attribute_offset(b, p + 8, k as nat),
            pool,
            #[trigger] attributes[k],
            attribute_offset(b, p + 8, (k + 1) as nat),
        )
}

/// Decodes the attribute at `p`; returns it and the offset after it.
pub fn parse_attribute(b: &[u8], p: usize, pool: &ConstantPool) -> (r: Result<
    (Attribute, usize),
    JvmParseError,
>)
    ensures
        r matches Ok((a, q)) ==> attribute_decoded(b@, p as int, pool@, a, q as int),
        u16_at(b@, p as int) is Err ==> r == Err::<(Attribute, usize), JvmParseError>(
            JvmParseError::UnexpectedEof,
        ),
        u16_at(b@, p as int) matches Ok(i) ==> (utf8_error(pool@, ConstantIndex(i)) matches Some(
            e,
        ) ==> r == Err::<(Attribute, usize), JvmParseError>(e)),
        (exists|a: Attribute, q: int| attribute_decoded(b@, p as int, pool@, a, q)) ==> r is Ok,
    decreases b@.len(), 0int,
{
    let ghost good = exists|a: Attribute, q: int| attribute_decoded(b@, p as int, pool@, a, q);
    let ghost w = if good {
        choose|a: Attribute, q: int| attribute_decoded(b@, p as int, pool@, a, q)
    } else {
        arbitrary()
    };
    assert(good ==> attribute_decoded(b@, p as int, pool@, w.0, w.1));
    proof {
        reveal_strlit("Code");
        reveal_strlit("ConstantValue");
        reveal_strlit("SourceFile");
        assert("Code"@.len() == 4);
        assert("ConstantValue"@.len() == 13);
        assert("SourceFile"@.len() == 10);
    }
    let len = b.len();
    let name_index = ConstantIndex(take_u16(b, p)?);
    let name = pool.resolve_utf8(name_index)?;
    let (info, end) = parse_bytes_u32(b, p + 2)?;
    let ghost body = b@.subrange(p + 6, end as int);
    assert(info@ == body);
    assert(good ==> end == w.1);
    let attribute = if same_text(name, "Code") {
        assert(good ==> w.0 is Code && code_decoded(info@, pool@, w.0->Code_0));
        Attribute::Code(parse_code(info.as_slice(), pool)?)
    } else if same_text(name, "ConstantValue") {
        assert(good ==> info@.len() >= 2);
        let index = take_u16(info.as_slice(), 0)?;
        Attribute::ConstantValue(ConstantValue { constantvalue_index: ConstantIndex(index) })
    } else if same_text(name, "SourceFile") {
        assert(good ==> info@.len() >= 2);
        Attribute::SourceFile(ConstantIndex(take_u16(info.as_slice(), 0)?))
    } else {
        Attribute::Unknown { name: name_index, value: info }
    };
    Ok((attribute, end))
}

/// Decodes a count-prefixed attribute list at `p`; returns it and the offset
/// after it.
pub fn parse_attributes(b: &[u8], p: usize, pool: &ConstantPool) -> (r: Result<
    (Vec<Attribute>, usize),
    JvmParseError,
>)
    ensures
        r matches Ok((v, q)) ==> u16_at(b@, p as int) == Ok::<u16, JvmParseError>(v@.len() as u16)
            && v@.len() < 0x10000 && q <= b@.len() && q == attribute_offset(
            b@,
            p + 2,
            v@.len(),
        ) && forall|k: int|
            0 <= k < v@.len() ==> attribute_decoded(
                b@,
                attribute_offset(b@, p + 2, k as nat),
                pool@,
                #[trigger] v@[k],
                attribute_offset(b@, p + 2, (k + 1) as nat),
            ),
        u16_at(b@, p as int) == Ok::<u16, JvmParseError>(0) ==> (r matches Ok((v, q)) && q == p + 2),
        u16_at(b@, p as int) is Err ==> r == Err::<(Vec<Attribute>, usize), JvmParseError>(
            JvmParseError::UnexpectedEof,
        ),
        (exists|v: Seq<Attribute>| attributes_decoded(b@, p as int, pool@, v)) ==> r is Ok,
    decreases b@.len(), 1int,
{
    let ghost good = exists|v: Seq<Attribute>| attributes_decoded(b@, p as int, pool@, v);
    let ghost w = if good {
        choose|v: Seq<Attribute>| attributes_decoded(b@, p as int, pool@, v)
    } else {
        arbitrary()
    };
    assert(good ==> attributes_decoded(b@, p as int, pool@, w));
    let len = b.len();
    let count = take_u16(b, p)?;
    let mut pos = p + 2;
    let mut attributes: Vec<Attribute> = Vec::new();
    let mut k: u16 = 0;
    while k < count
        invariant
            len == b@.len(),
            u16_at(b@, p as int) == Ok::<u16, JvmParseError>(count),
            attributes@.len() == k,
            k <= count,
            pos <= b@.len(),
            count == 0 ==> pos == p + 2,
            pos == attribute_offset(b@, p + 2, k as nat),
            forall|j: int|
                0 <= j < k ==> attribute_decoded(
                    b@,
                    attribute_offset(b@, p + 2, j as nat),
                    pool@,
                    #[trigger] attributes@[j],
                    attribute_offset(b@, p + 2, (j + 1) as nat),
                ),
            good == (exists|v: Seq<Attribute>| attributes_decoded(b@, p as int, pool@, v)),
            good ==> attributes_decoded(b@, p as int, pool@, w) && w.len() == count,
        decreases count - k,
    {
        assert(good ==> attribute_decoded(
            b@,
            pos as int,
            pool@,
            w[k as int],
            attribute_offset(b@, p + 2, (k + 1) as nat),
        ));
        assert(good ==> exists|a: Attribute, q: int| attribute_decoded(b@, pos as int, pool@, a, q));
        let (attribute, next) = parse_attribute(b, pos, pool)?;
        attributes.push(attribute);
        pos = next;
        k += 1;
    }
    Ok((attributes, pos))
}

/// Decodes a method body from the bytes of its attribute.
pub fn parse_code(info: &[u8], pool: &ConstantPool) -> (r: Result<Code, JvmParseError>)
    ensures
        r matches Ok(c) ==> code_decoded(info@, pool@, c),
        info@.len() < 8 ==> r == Err::<Code, JvmParseError>(JvmParseError::UnexpectedEof),
        info@.len() >= 8 && 8 + be32(info@, 4) <= info@.len() ==> (disasm_from(
            info@.subrange(8, 8 + be32(info@, 4)),
            0,
        ) matches Err(e) ==> r == Err::<Code, JvmParseError>(JvmParseError::InvalidCode(e))),
        (exists|c: Code| code_decoded(info@, pool@, c)) ==> r is Ok,
    decreases info@.len(), 2int,
{
    let ghost good = exists|c: Code| code_decoded(info@, pool@, c);
    let ghost w = if good {
        choose|c: Code| code_decoded(info@, pool@, c)
    } else {
        arbitrary()
    };
    assert(good ==> code_decoded(info@, pool@, w));
    let len = info.len();
    let max_stack = take_u16(info, 0)?;
    let max_locals = take_u16(info, 2)?;
    let (bytes, t) = parse_bytes_u32(info, 4)?;
    let code = match disasm(bytes.as_slice()) {
        Ok(code) => code,
        Err(e) => return Err(JvmParseError::InvalidCode(e)),
    };
    let entries = take_u16(info, t)?;
    let mut exception_table: Vec<ExceptionTableEntry> = Vec::new();
    let mut k: u16 = 0;
    let mut at = t + 2;
    while k < entries
        invariant
            k <= entries,
            len == info@.len(),
            t + 2 <= len,
            t == 8 + be32(info@, 4),
            info@.len() >= 8,
            disasm_from(info@.subrange(8, t as int), 0) == Ok::<
                Seq<Opcode>,
                crate::disasm::DisasmError,
            >(code@),
            at == t + 2 + 8 * k,
            at <= len,
            exception_table@.len() == k,
            forall|j: int|
                0 <= j < k ==> #[trigger] exception_table@[j] == exception_entry_at(
                    info@,
                    t + 2 + 8 * j,
                ),
            good == (exists|c: Code| code_decoded(info@, pool@, c)),
            good ==> code_decoded(info@, pool@, w) && w.exception_table@.len() == entries,
        decreases entries - k,
    {
        assert(good ==> t + 2 + 8 * (entries as int) + 2 <= len);
        assert(good ==> at + 8 <= len);
        let start_pc = take_u16(info, at)?;
        let end_pc = take_u16(info, at + 2)?;
        let handler_pc = take_u16(info, at + 4)?;
        let catch_type = take_u16(info, at + 6)?;
        exception_table.push(ExceptionTableEntry { start_pc, end_pc, handler_pc, catch_type });
        k += 1;
        at = at + 8;
    }
    assert(good ==> attributes_decoded(info@, at as int, pool@, w.attributes@));
    assert(good ==> exists|v: Seq<Attribute>| attributes_decoded(info@, at as int, pool@, v));
    let (attributes, _) = parse_attributes(info, at, pool)?;
    Ok(Code { max_stack, max_locals, code, exception_table, attributes })
}

/// The attribute list of a field or method at `p`.
pub open spec fn member_attributes_decoded(
    b: Seq<u8>,
    p: int,
    pool: Seq<ConstantModel>,
    a: Seq<Attribute>,
) -> bool {
    attributes_decoded(b, p + 6, pool, a)
}

/// The common layout of fields and methods: flags, name index, descriptor
/// index and attribute list, at `p`.
fn parse_member(b: &[u8], p: usize, pool: &ConstantPool) -> (r: Result<
    (AccessFlags, ConstantIndex, ConstantIndex, Vec<Attribute>, usize),
    JvmParseError,
>)
    ensures
        r matches Ok((f, n, d, a, q)) ==> member_decoded(b@, p as int, pool@, f, n, d, a@) && q
            == member_end(b@, p as int) && q <= b@.len(),
        p + 8 > b@.len() ==> r is Err,
        (exists|a: Seq<Attribute>| member_attributes_decoded(b@, p as int, pool@, a)) ==> r is Ok,
{
    let len = b.len();
    let flags = AccessFlags::from_bits_truncate(take_u16(b, p)?);
    let name_index = ConstantIndex(take_u16(b, p + 2)?);
    let descriptor_index = ConstantIndex(take_u16(b, p + 4)?);
    let (attributes, q) = parse_attributes(b, p + 6, pool)?;
    Ok((flags, name_index, descriptor_index, attributes, q))
}

/// Decodes a count-prefixed field list at `p`.
fn parse_fields(b: &[u8], p: usize, pool: &ConstantPool) -> (r: Result<
    (Vec<Field>, usize),
    JvmParseError,
>)
    ensures
        r matches Ok((v, q)) ==> u16_at(b@, p as int) == Ok::<u16, JvmParseError>(v@.len() as u16)
            && v@.len() < 0x10000 && q <= b@.len() && q == member_offset(b@, p + 2, v@.len())
            && forall|k: int|
            0 <= k < v@.len() ==> member_decoded(
                b@,
                member_offset(b@, p + 2, k as nat),
                pool@,
                (#[trigger] v@[k]).access_flags,
                v@[k].name_index,
                v@[k].descriptor_index,
                v@[k].attributes@,
            ),
        u16_at(b@, p as int) == Ok::<u16, JvmParseError>(0) ==> (r matches Ok((v, q)) && q == p + 2),
        u16_at(b@, p as int) is Err ==> r == Err::<(Vec<Field>, usize), JvmParseError>(
            JvmParseError::UnexpectedEof,
        ),
        (exists|ms: Seq<(AccessFlags, ConstantIndex, ConstantIndex, Seq<Attribute>)>| members_decoded(b@, p as int, pool@, ms)) ==> r is Ok,
{
    let ghost good = exists|ms: Seq<(AccessFlags, ConstantIndex, ConstantIndex, Seq<Attribute>)>| members_decoded(b@, p as int, pool@, ms);
    let ghost w = if good {
        choose|ms: Seq<(AccessFlags, ConstantIndex, ConstantIndex, Seq<Attribute>)>| members_decoded(b@, p as int, pool@, ms)
    } else {
        arbitrary()
    };
    let len = b.len();
    let count = take_u16(b, p)?;
    let mut pos = p + 2;
    let mut fields: Vec<Field> = Vec::new();
    let mut k: u16 = 0;
    while k < count
        invariant
            len == b@.len(),
            u16_at(b@, p as int) == Ok::<u16, JvmParseError>(count),
            fields@.len() == k,
            k <= count,
            pos <= b@.len(),
            count == 0 ==> pos == p + 2,
            pos == member_offset(b@, p + 2, k as nat),
            good == (exists|ms: Seq<(AccessFlags, ConstantIndex, ConstantIndex, Seq<Attribute>)>| members_decoded(b@, p as int, pool@, ms)),
            good ==> members_decoded(b@, p as int, pool@, w) && w.len() == count,
            forall|j: int|
                0 <= j < k ==> member_decoded(
                    b@,
                    member_offset(b@, p + 2, j as nat),
                    pool@,
                    (#[trigger] fields@[j]).access_flags,
                    fields@[j].name_index,
                    fields@[j].descriptor_index,
                    fields@[j].attributes@,
                ),
        decreases count - k,
    {
        assert(good ==> member_decoded(
            b@,
            pos as int,
            pool@,
            w[k as int].0,
            w[k as int].1,
            w[k as int].2,
            w[k as int].3,
        ));
        assert(good ==> attributes_decoded(b@, pos + 6, pool@, w[k as int].3));
        assert(good ==> member_attributes_decoded(b@, pos as int, pool@, w[k as int].3));
        assert(good ==> exists|a: Seq<Attribute>| member_attributes_decoded(b@, pos as int, pool@, a));
        let (access_flags, name_index, descriptor_index, attributes, next) = parse_member(
            b,
            pos,
            pool,
        )?;
        fields.push(Field { access_flags, name_index, descriptor_index, attributes });
        pos = next;
        k += 1;
    }
    Ok((fields, pos))
}

/// Decodes a count-prefixed method list at `p`.
fn parse_methods(b: &[u8], p: usize, pool: &ConstantPool) -> (r: Result<
    (Vec<Method>, usize),
    JvmParseError,
>)
    ensures
        r matches Ok((v, q)) ==> u16_at(b@, p as int) == Ok::<u16, JvmParseError>(v@.len() as u16)
            && v@.len() < 0x10000 && q <= b@.len() && q == member_offset(b@, p + 2, v@.len())
            && forall|k: int|
            0 <= k < v@.len() ==> member_decoded(
                b@,
                member_offset(b@, p + 2, k as nat),
                pool@,
                (#[trigger] v@[k]).access_flags,
                v@[k].name_index,
                v@[k].descriptor_index,
                v@[k].attributes@,
            ),
        u16_at(b@, p as int) == Ok::<u16, JvmParseError>(0) ==> (r matches Ok((v, q)) && q == p + 2),
        u16_at(b@, p as int) is Err ==> r == Err::<(Vec<Method>, usize), JvmParseError>(
            JvmParseError::UnexpectedEof,
        ),
        (exists|ms: Seq<(AccessFlags, ConstantIndex, ConstantIndex, Seq<Attribute>)>| members_decoded(b@, p as int, pool@, ms)) ==> r is Ok,
{
    let ghost good = exists|ms: Seq<(AccessFlags, ConstantIndex, ConstantIndex, Seq<Attribute>)>| members_decoded(b@, p as int, pool@, ms);
    let ghost w = if good {
        choose|ms: Seq<(AccessFlags, ConstantIndex, ConstantIndex, Seq<Attribute>)>| members_decoded(b@, p as int, pool@, ms)
    } else {
        arbitrary()
    };
    let len = b.len();
    let count = take_u16(b, p)?;
    let mut pos = p + 2;
    let mut methods: Vec<Method> = Vec::new();
    let mut k: u16 = 0;
    while k < count
        invariant
            len == b@.len(),
            u16_at(b@, p as int) == Ok::<u16, JvmParseError>(count),
            methods@.len() == k,
            k <= count,
            pos <= b@.len(),
            count == 0 ==> pos == p + 2,
            pos == member_offset(b@, p + 2, k as nat),
            good == (exists|ms: Seq<(AccessFlags, ConstantIndex, ConstantIndex, Seq<Attribute>)>| members_decoded(b@, p as int, pool@, ms)),
            good ==> members_decoded(b@, p as int, pool@, w) && w.len() == count,
            forall|j: int|
                0 <= j < k ==> member_decoded(
                    b@,
                    member_offset(b@, p + 2, j as nat),
                    pool@,
                    (#[trigger] methods@[j]).access_flags,
                    methods@[j].name_index,
                    methods@[j].descriptor_index,
                    methods@[j].attributes@,
                ),
        decreases count - k,
    {
        assert(good ==> member_decoded(
            b@,
            pos as int,
            pool@,
            w[k as int].0,
            w[k as int].1,
            w[k as int].2,
            w[k as int].3,
        ));
        assert(good ==> attributes_decoded(b@, pos + 6, pool@, w[k as int].3));
        assert(good ==> member_attributes_decoded(b@, pos as int, pool@, w[k as int].3));
        assert(good ==> exists|a: Seq<Attribute>| member_attributes_decoded(b@, pos as int, pool@, a));
        let (access_flags, name_index, descriptor_index, attributes, next) = parse_member(
            b,
            pos,
            pool,
        )?;
        methods.push(Method { access_flags, name_index, descriptor_index, attributes });
        pos = next;
        k += 1;
    }
    Ok((methods, pos))
}

/// The value that the first four bytes of a class file must hold.
pub const CLASS_MAGIC: u32 = 0xCAFEBABE;

/// The oldest major version that is decoded.
pub const MIN_MAJOR_VERSION: u16 = 45;

/// Whether `b` starts with the magic value and a supported version.
pub open spec fn header_ok(b: Seq<u8>) -> bool {
    b.len() >= 8 && be32(b, 0) == CLASS_MAGIC && be16(b, 6) >= MIN_MAJOR_VERSION
}

/// What holds of a class decoded from `b` whose constant pool `s` ends at
/// `q`: the header's values, the pool, the flags, the class indices, the
/// interface indices, and each field, method and attribute with its span.
pub open spec fn class_decoded(b: Seq<u8>, s: Seq<ConstantModel>, q: int, cf: ClassFile) -> bool {
    let n = cf.spec_interfaces().len() as int;
    &&& cf.spec_magic() == CLASS_MAGIC
    &&& cf.spec_minor_version() == be16(b, 4)
    &&& cf.spec_major_version() == be16(b, 6)
    &&& cf.spec_constant_pool()@ == s
    &&& cf.spec_constant_pool().wf()
    &&& q + 8 + 2 * n + 2 <= b.len()
    &&& cf.spec_access_flags().spec_bits() == be16(b, q) & crate::classfile::ACC_ALL
    &&& cf.spec_this_class() == ConstantIndex(be16(b, q + 2))
    &&& cf.spec_super_class() == ConstantIndex(be16(b, q + 4))
    &&& n == be16(b, q + 6)
    &&& forall|k: int|
        0 <= k < n ==> #[trigger] cf.spec_interfaces()[k] == ConstantIndex(be16(b, q + 8 + 2 * k))
    &&& members_decoded(b, q + 8 + 2 * n, s, cf.spec_fields().map_values(|f: Field| (f.access_flags, f.name_index, f.descriptor_index, f.attributes@)))
    &&& members_decoded(b, methods_offset(b, q + 8 + 2 * n), s, cf.spec_methods().map_values(|m: Method| (m.access_flags, m.name_index, m.descriptor_index, m.attributes@)))
    &&& attributes_decoded(b, attributes_offset(b, q + 8 + 2 * n), s, cf.spec_attributes())
}

/// A count-prefixed member list at `p`: the count and each member, with
/// its flags, name index, descriptor index and attributes.
pub open spec fn members_decoded(
    b: Seq<u8>,
    p: int,
    pool: Seq<ConstantModel>,
    members: Seq<(AccessFlags, ConstantIndex, ConstantIndex, Seq<Attribute>)>,
) -> bool {
    &&& p + 2 <= b.len()
    &&& members.len() == be16(b, p)
    &&& forall|k: int|
        0 <= k < members.len() ==> member_decoded(
            b,
            member_offset(b, p + 2, k as nat),
            pool,
            (#[trigger] members[k]).0,
            members[k].1,
            members[k].2,
            members[k].3,
        )
}

/// A count-prefixed attribute list at `p`: the count and each attribute.
pub open spec fn attributes_decoded(
    b: Seq<u8>,
    p: int,
    pool: Seq<ConstantModel>,
    attributes: Seq<Attribute>,
) -> bool
    decreases b.len(), 2int,
{
    &&& p + 2 <= b.len()
    &&& attributes.len() == be16(b, p)
    &&& forall|k: int|
        0 <= k < attributes.len() ==> attribute_decoded(
            b,
            attribute_offset(b, p + 2, k as nat),
            pool,
            #[trigger] attributes[k],
            attribute_offset(b, p + 2, (k + 1) as nat),
        )
}

/// Where the method list starts, given where the field list starts.
pub open spec fn methods_offset(b: Seq<u8>, fields: int) -> int {
    member_offset(b, fields + 2, be16(b, fields) as nat)
}

/// Where the class attribute list starts, given where the field list starts.
pub open spec fn attributes_offset(b: Seq<u8>, fields: int) -> int {
    let m = methods_offset(b, fields);
    member_offset(b, m + 2, be16(b, m) as nat)
}

/// Whether the four lists after the class indices are all empty.
pub open spec fn empty_tail(b: Seq<u8>, q: int) -> bool {
    &&& q + 14 <= b.len()
    &&& be16(b, q + 6) == 0
    &&& be16(b, q + 8) == 0
    &&& be16(b, q + 10) == 0
    &&& be16(b, q + 12) == 0
}

/// Decodes a class file: magic value, version, constant pool, flags, class
/// indices, interfaces, fields, methods and attributes, in this order; the
/// first failure ends the decoding.
#[verifier::loop_isolation(false)]
pub fn parse_class_file(b: &[u8]) -> (r: Result<ClassFile, JvmParseError>)
    ensures
        b@.len() < 4 ==> r == Err::<ClassFile, JvmParseError>(JvmParseError::UnexpectedEof),
        b@.len() >= 4 && be32(b@, 0) != CLASS_MAGIC ==> r == Err::<ClassFile, JvmParseError>(
            JvmParseError::InvalidFormat(FormatError::InvalidMagic(be32(b@, 0))),
        ),
        4 <= b@.len() < 8 && be32(b@, 0) == CLASS_MAGIC ==> r == Err::<ClassFile, JvmParseError>(
            JvmParseError::UnexpectedEof,
        ),
        b@.len() >= 8 && be32(b@, 0) == CLASS_MAGIC && be16(b@, 6) < MIN_MAJOR_VERSION ==> r
            == Err::<ClassFile, JvmParseError>(
            JvmParseError::InvalidFormat(
                FormatError::UnsupportedVersion { major: be16(b@, 6), minor: be16(b@, 4) },
            ),
        ),
        header_ok(b@) ==> match constant_pool_at(b@, 8) {
            Err(e) => r == Err::<ClassFile, JvmParseError>(e),
            Ok((s, q)) => {
                &&& r matches Ok(cf) ==> class_decoded(b@, s, q, cf)
                &&& q + 8 > b@.len() ==> r == Err::<ClassFile, JvmParseError>(
                    JvmParseError::UnexpectedEof,
                )
                &&& (exists|cf: ClassFile| class_decoded(b@, s, q, cf)) ==> r is Ok
                &&& empty_tail(b@, q) ==> (r matches Ok(cf) && cf.spec_interfaces().len() == 0
                    && cf.spec_fields().len() == 0 && cf.spec_methods().len() == 0
                    && cf.spec_attributes().len() == 0)
            },
        },
{
    let len = b.len();
    let magic = take_u32(b, 0)?;
    if magic != CLASS_MAGIC {
        return Err(JvmParseError::InvalidFormat(FormatError::InvalidMagic(magic)));
    }
    let minor_version = take_u16(b, 4)?;
    let major_version = take_u16(b, 6)?;
    if major_version < MIN_MAJOR_VERSION {
        return Err(
            JvmParseError::InvalidFormat(
                FormatError::UnsupportedVersion { major: major_version, minor: minor_version },
            ),
        );
    }
    let (slots, q) = parse_constants(b, 8)?;
    proof {
        if be16(b@, 8) >= 1 {
            lemma_pool_from_wf(b@, 10, 1, be16(b@, 8) as int);
        } else {
            assert(slots@.map_values(|c: Constant| c@) =~= Seq::<ConstantModel>::empty());
        }
    }
    let constants = ConstantPool::new(slots);
    let access_flags = AccessFlags::from_bits_truncate(take_u16(b, q)?);
    let this_class = ConstantIndex(take_u16(b, q + 2)?);
    let super_class = ConstantIndex(take_u16(b, q + 4)?);
    let count = take_u16(b, q + 6)?;
    let mut interfaces: Vec<ConstantIndex> = Vec::new();
    let mut pos = q + 8;
    let mut k: u16 = 0;
    while k < count
        invariant
            len == b@.len(),
            k <= count,
            interfaces@.len() == k,
            pos == q + 8 + 2 * k,
            pos <= len,
            forall|j: int|
                0 <= j < k ==> #[trigger] interfaces@[j] == ConstantIndex(be16(b@, q + 8 + 2 * j)),
        decreases count - k,
    {
        interfaces.push(ConstantIndex(take_u16(b, pos)?));
        pos = pos + 2;
        k += 1;
    }
    let (fields, pos) = parse_fields(b, pos, &constants)?;
    let (methods, pos) = parse_methods(b, pos, &constants)?;
    let (attributes, _) = parse_attributes(b, pos, &constants)?;
    let ghost f0 = q + 8 + 2 * count;
    assert(members_decoded(b@, f0, constants@, fields@.map_values(|f: Field| (f.access_flags, f.name_index, f.descriptor_index, f.attributes@))));
    assert(members_decoded(b@, methods_offset(b@, f0), constants@, methods@.map_values(|m: Method| (m.access_flags, m.name_index, m.descriptor_index, m.attributes@))));
    Ok(
        ClassFile::new(
            magic,
            minor_version,
            major_version,
            constants,
            access_flags,
            this_class,
            super_class,
            interfaces,
            fields,
            methods,
            attributes,
        ),
    )
}

} // verus!
