use rustjvm::{
    parse_bytes_u16, parse_bytes_u32, parse_class_file, Attribute, Constant, ConstantIndex,
    ConstantTag, DisasmError, FormatError, JvmParseError, Opcode, ReferenceKind,
};

fn u16_be(out: &mut Vec<u8>, v: u16) {
    out.extend_from_slice(&v.to_be_bytes());
}

fn u32_be(out: &mut Vec<u8>, v: u32) {
    out.extend_from_slice(&v.to_be_bytes());
}

fn header(major: u16, pool_count: u16) -> Vec<u8> {
    let mut b = vec![0xCA, 0xFE, 0xBA, 0xBE];
    u16_be(&mut b, 3);
    u16_be(&mut b, major);
    u16_be(&mut b, pool_count);
    b
}

fn utf8(out: &mut Vec<u8>, s: &str) {
    out.push(1);
    u16_be(out, s.len() as u16);
    out.extend_from_slice(s.as_bytes());
}

fn minimal_class() -> Vec<u8> {
    let mut b = header(45, 1);
    b.extend_from_slice(&[0; 14]);
    b
}

#[test]
fn minimal_class_decodes_empty() {
    let class = parse_class_file(&minimal_class()).unwrap();
    assert_eq!(class.magic(), 0xCAFEBABE);
    assert_eq!(class.minor_version(), 3);
    assert_eq!(class.major_version(), 45);
    assert_eq!(class.constant_pool().all().len(), 0);
    assert_eq!(class.this_class(), ConstantIndex(0));
    assert_eq!(class.super_class(), ConstantIndex(0));
    assert_eq!(class.access_flags().bits(), 0);
    assert!(class.interfaces().is_empty());
    assert!(class.fields().is_empty());
    assert!(class.methods().is_empty());
    assert!(class.attributes().is_empty());
}

#[test]
fn any_wrong_magic_byte_fails() {
    for i in 0..4 {
        let mut b = minimal_class();
        b[i] ^= 0x01;
        let expected = u32::from_be_bytes([b[0], b[1], b[2], b[3]]);
        match parse_class_file(&b) {
            Err(JvmParseError::InvalidFormat(FormatError::InvalidMagic(m))) => {
                assert_eq!(m, expected)
            }
            _ => panic!("magic byte {} was accepted", i),
        }
    }
}

#[test]
fn old_version_fails() {
    let mut b = header(44, 1);
    b.extend_from_slice(&[0; 14]);
    assert!(matches!(
        parse_class_file(&b),
        Err(JvmParseError::InvalidFormat(FormatError::UnsupportedVersion {
            major: 44,
            minor: 3
        }))
    ));
}

#[test]
fn truncated_input_fails() {
    assert!(matches!(parse_class_file(&[0xCA, 0xFE]), Err(JvmParseError::UnexpectedEof)));
    let b = minimal_class();
    assert!(matches!(
        parse_class_file(&b[..b.len() - 1]),
        Err(JvmParseError::UnexpectedEof)
    ));
}

#[test]
fn flags_and_interfaces() {
    let mut b = header(52, 1);
    u16_be(&mut b, 0x0021 | 0x0100);
    u16_be(&mut b, 7);
    u16_be(&mut b, 9);
    u16_be(&mut b, 2);
    u16_be(&mut b, 11);
    u16_be(&mut b, 12);
    b.extend_from_slice(&[0; 6]);
    let class = parse_class_file(&b).unwrap();
    assert_eq!(class.access_flags().bits(), 0x0021);
    assert!(class.access_flags().contains(rustjvm::classfile::ACC_SUPER));
    assert_eq!(class.this_class(), ConstantIndex(7));
    assert_eq!(class.super_class(), ConstantIndex(9));
    assert_eq!(class.interfaces(), &[ConstantIndex(11), ConstantIndex(12)]);
}

#[test]
fn long_constant_takes_two_slots() {
    let mut b = header(50, 4);
    b.push(5);
    b.extend_from_slice(&(-2i64).to_be_bytes());
    b.push(3);
    b.extend_from_slice(&7i32.to_be_bytes());
    b.extend_from_slice(&[0; 14]);
    let class = parse_class_file(&b).unwrap();
    let pool = class.constant_pool();
    assert_eq!(pool.get(ConstantIndex(1)), Some(&Constant::Long(-2)));
    assert_eq!(pool.get(ConstantIndex(2)), None);
    assert_eq!(pool.get(ConstantIndex(3)), Some(&Constant::Integer(7)));
    assert_eq!(pool.get(ConstantIndex(0)), None);
    assert_eq!(pool.get(ConstantIndex(4)), None);
    let all = pool.all();
    assert_eq!(all.len(), 2);
    assert_eq!(all[0].0, ConstantIndex(1));
    assert_eq!(all[1].0, ConstantIndex(3));
}

#[test]
fn double_constant_as_last_entry_fails() {
    let mut b = header(50, 2);
    b.push(6);
    b.extend_from_slice(&1.5f64.to_bits().to_be_bytes());
    b.extend_from_slice(&[0; 14]);
    assert!(matches!(
        parse_class_file(&b),
        Err(JvmParseError::InvalidFormat(FormatError::MissingSecondSlot { index: 2 }))
    ));
}

#[test]
fn float_constants_keep_their_bits() {
    let mut b = header(50, 4);
    b.push(4);
    b.extend_from_slice(&2.5f32.to_bits().to_be_bytes());
    b.push(6);
    b.extend_from_slice(&(-0.25f64).to_bits().to_be_bytes());
    b.extend_from_slice(&[0; 14]);
    let class = parse_class_file(&b).unwrap();
    let pool = class.constant_pool();
    assert_eq!(pool.get(ConstantIndex(1)), Some(&Constant::Float(2.5f32.to_bits())));
    assert_eq!(pool.get(ConstantIndex(2)), Some(&Constant::Double((-0.25f64).to_bits())));
    assert_eq!(pool.get(ConstantIndex(3)), None);
}

#[test]
fn unknown_constant_tag_fails() {
    let mut b = header(50, 3);
    utf8(&mut b, "x");
    b.push(2);
    b.extend_from_slice(&[0; 14]);
    assert!(matches!(
        parse_class_file(&b),
        Err(JvmParseError::InvalidFormat(FormatError::UnknownConstantTag { index: 2, tag: 2 }))
    ));
}

#[test]
fn modified_utf8_strings() {
    let mut b = header(50, 3);
    b.push(1);
    u16_be(&mut b, 2);
    b.extend_from_slice(&[0xC0, 0x80]);
    utf8(&mut b, "aé");
    b.extend_from_slice(&[0; 14]);
    let class = parse_class_file(&b).unwrap();
    assert_eq!(class.constant_pool().resolve_utf8(ConstantIndex(1)).unwrap(), "\0");
    assert_eq!(class.constant_pool().resolve_utf8(ConstantIndex(2)).unwrap(), "aé");
}

#[test]
fn invalid_string_fails() {
    let mut b = header(50, 2);
    b.push(1);
    u16_be(&mut b, 1);
    b.push(0xFF);
    b.extend_from_slice(&[0; 14]);
    assert!(matches!(
        parse_class_file(&b),
        Err(JvmParseError::InvalidFormat(FormatError::InvalidString { index: 1 }))
    ));
}

#[test]
fn reference_constants_resolve() {
    let mut b = header(50, 5);
    utf8(&mut b, "java/lang/Object");
    b.push(7);
    u16_be(&mut b, 1);
    b.push(15);
    b.push(6);
    u16_be(&mut b, 2);
    b.push(15);
    b.push(10);
    u16_be(&mut b, 2);
    b.extend_from_slice(&[0; 14]);
    assert!(matches!(
        parse_class_file(&b),
        Err(JvmParseError::InvalidFormat(FormatError::UnknownReferenceKind(10)))
    ));

    let mut b = header(50, 4);
    utf8(&mut b, "java/lang/Object");
    b.push(7);
    u16_be(&mut b, 1);
    b.push(15);
    b.push(6);
    u16_be(&mut b, 2);
    b.extend_from_slice(&[0; 14]);
    let class = parse_class_file(&b).unwrap();
    let pool = class.constant_pool();
    assert_eq!(pool.resolve_class(ConstantIndex(2)).unwrap(), ConstantIndex(1));
    assert_eq!(
        pool.get(ConstantIndex(3)),
        Some(&Constant::MethodHandle {
            reference_kind: ReferenceKind::InvokeStatic,
            reference_index: ConstantIndex(2)
        })
    );
    assert!(matches!(
        pool.resolve_class(ConstantIndex(1)),
        Err(JvmParseError::WrongConstantType(ConstantIndex(1), ConstantTag::Class))
    ));
    assert!(matches!(
        pool.resolve_utf8(ConstantIndex(2)),
        Err(JvmParseError::WrongConstantType(ConstantIndex(2), ConstantTag::Utf8))
    ));
    assert!(matches!(
        pool.resolve_utf8(ConstantIndex(9)),
        Err(JvmParseError::MissingConstant(ConstantIndex(9)))
    ));
    assert!(matches!(
        pool.resolve_utf8(ConstantIndex(0)),
        Err(JvmParseError::MissingConstant(ConstantIndex(0)))
    ));
}

fn class_with_method(code: &[u8], extra_attribute: bool) -> Vec<u8> {
    let mut b = header(50, 5);
    utf8(&mut b, "Code");
    utf8(&mut b, "run");
    utf8(&mut b, "()V");
    utf8(&mut b, "Custom");
    b.extend_from_slice(&[0; 8]);
    u16_be(&mut b, 0);
    u16_be(&mut b, 1);
    u16_be(&mut b, 0x0009);
    u16_be(&mut b, 2);
    u16_be(&mut b, 3);
    u16_be(&mut b, 1);
    let mut body = vec![];
    u16_be(&mut body, 2);
    u16_be(&mut body, 1);
    u32_be(&mut body, code.len() as u32);
    body.extend_from_slice(code);
    u16_be(&mut body, 1);
    for v in [0u16, 2, 2, 0] {
        u16_be(&mut body, v);
    }
    u16_be(&mut body, 0);
    u16_be(&mut b, 1);
    u32_be(&mut b, body.len() as u32);
    b.extend_from_slice(&body);
    if extra_attribute {
        u16_be(&mut b, 1);
        u16_be(&mut b, 4);
        u32_be(&mut b, 3);
        b.extend_from_slice(&[9, 8, 7]);
    } else {
        u16_be(&mut b, 0);
    }
    b
}

#[test]
fn method_body_is_disassembled() {
    let class = parse_class_file(&class_with_method(&[0x03, 0x04, 0x60, 0xac], true)).unwrap();
    assert_eq!(class.methods().len(), 1);
    let method = &class.methods()[0];
    assert_eq!(method.name_index, ConstantIndex(2));
    assert_eq!(method.descriptor_index, ConstantIndex(3));
    assert_eq!(method.access_flags.bits(), 0x0001);
    match &method.attributes[0] {
        Attribute::Code(code) => {
            assert_eq!(code.max_stack, 2);
            assert_eq!(code.max_locals, 1);
            assert_eq!(
                code.code,
                vec![Opcode::Iconst0, Opcode::Iconst1, Opcode::Iadd, Opcode::Ireturn]
            );
            assert_eq!(code.exception_table.len(), 1);
            assert_eq!(code.exception_table[0].end_pc, 2);
            assert_eq!(code.exception_table[0].handler_pc, 2);
            assert!(code.attributes.is_empty());
        }
        other => panic!("unexpected attribute {:?}", other),
    }
    match &class.attributes()[0] {
        Attribute::Unknown { name, value } => {
            assert_eq!(*name, ConstantIndex(4));
            assert_eq!(value, &vec![9, 8, 7]);
        }
        other => panic!("unexpected attribute {:?}", other),
    }
}

#[test]
fn bad_method_body_fails() {
    assert!(matches!(
        parse_class_file(&class_with_method(&[0x19], false)),
        Err(JvmParseError::InvalidCode(DisasmError::MissingArgument))
    ));
}

#[test]
fn attribute_name_must_be_utf8() {
    let mut b = header(50, 2);
    b.push(3);
    b.extend_from_slice(&1i32.to_be_bytes());
    b.extend_from_slice(&[0; 12]);
    u16_be(&mut b, 1);
    u16_be(&mut b, 1);
    u32_be(&mut b, 0);
    assert!(matches!(
        parse_class_file(&b),
        Err(JvmParseError::WrongConstantType(ConstantIndex(1), ConstantTag::Utf8))
    ));
}

#[test]
fn length_prefixed_sections() {
    let b = [0x00, 0x02, 0xAA, 0xBB, 0xCC];
    assert_eq!(parse_bytes_u16(&b, 0).unwrap(), (vec![0xAA, 0xBB], 4));
    assert!(matches!(parse_bytes_u16(&b, 2), Err(JvmParseError::UnexpectedEof)));
    let b = [0x00, 0x00, 0x00, 0x01, 0x7F];
    assert_eq!(parse_bytes_u32(&b, 0).unwrap(), (vec![0x7F], 5));
}
