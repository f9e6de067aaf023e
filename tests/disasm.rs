use rustjvm::{disasm, ArrayType, Disasm, DisasmError, Opcode};

#[test]
fn arithmetic_sequence() {
    assert_eq!(
        disasm(&[0x03, 0x04, 0x60, 0xac]).unwrap(),
        vec![Opcode::Iconst0, Opcode::Iconst1, Opcode::Iadd, Opcode::Ireturn]
    );
}

#[test]
fn missing_one_byte_operand() {
    assert_eq!(disasm(&[0x19]).unwrap_err(), DisasmError::MissingArgument);
}

#[test]
fn missing_part_of_two_byte_operand() {
    assert_eq!(disasm(&[0xb6, 0x00]).unwrap_err(), DisasmError::MissingArgument);
}

#[test]
fn unknown_opcode() {
    assert_eq!(disasm(&[0xff]).unwrap_err(), DisasmError::UnknownOpcode(255));
    assert_eq!(disasm(&[0x00, 0xfe]).unwrap_err(), DisasmError::UnknownOpcode(0xfe));
}

#[test]
fn empty_code() {
    assert_eq!(disasm(&[]).unwrap(), vec![]);
}

#[test]
fn operands_are_big_endian() {
    assert_eq!(
        disasm(&[0x19, 0x07, 0xb6, 0x12, 0x34, 0xc8, 0x01, 0x02, 0x03, 0x04]).unwrap(),
        vec![
            Opcode::Aload(7),
            Opcode::Invokevirtual(0x1234),
            Opcode::GotoW(0x01020304)
        ]
    );
}

#[test]
fn signed_immediates() {
    assert_eq!(
        disasm(&[0x10, 0xff, 0x11, 0x80, 0x00]).unwrap(),
        vec![Opcode::Bipush(-1), Opcode::Sipush(-32768)]
    );
}

#[test]
fn local_loads_are_distinct() {
    assert_eq!(
        disasm(&[0x2a, 0x2b, 0x2c, 0x2d]).unwrap(),
        vec![Opcode::Aload0, Opcode::Aload1, Opcode::Aload2, Opcode::Aload3]
    );
}

#[test]
fn invokeinterface_reserved_byte() {
    assert_eq!(
        disasm(&[0xb9, 0x00, 0x05, 0x02, 0x00]).unwrap(),
        vec![Opcode::Invokeinterface(5, 2)]
    );
    assert_eq!(
        disasm(&[0xb9, 0x00, 0x05, 0x02, 0x01]).unwrap_err(),
        DisasmError::InvalidArgument
    );
    assert_eq!(
        disasm(&[0xb9, 0x00, 0x05, 0x02]).unwrap_err(),
        DisasmError::MissingArgument
    );
}

#[test]
fn invokedynamic_reserved_bytes() {
    assert_eq!(
        disasm(&[0xba, 0x00, 0x09, 0x00, 0x00]).unwrap(),
        vec![Opcode::Invokedynamic(9)]
    );
    assert_eq!(
        disasm(&[0xba, 0x00, 0x09, 0x00, 0x01]).unwrap_err(),
        DisasmError::InvalidArgument
    );
}

#[test]
fn newarray_types() {
    assert_eq!(
        disasm(&[0xbc, 0x04, 0xbc, 0x0b]).unwrap(),
        vec![
            Opcode::Newarray(ArrayType::BOOLEAN),
            Opcode::Newarray(ArrayType::LONG)
        ]
    );
    assert_eq!(disasm(&[0xbc, 0x03]).unwrap_err(), DisasmError::InvalidArrayType);
    assert_eq!(disasm(&[0xbc, 0x0c]).unwrap_err(), DisasmError::InvalidArrayType);
    assert_eq!(ArrayType::INT.code(), 10);
}

#[test]
fn variable_length_instructions_are_flagged() {
    assert_eq!(disasm(&[0xaa]).unwrap_err(), DisasmError::UnsupportedOpcode(0xaa));
    assert_eq!(disasm(&[0xab]).unwrap_err(), DisasmError::UnsupportedOpcode(0xab));
    assert_eq!(disasm(&[0xc4]).unwrap_err(), DisasmError::UnsupportedOpcode(0xc4));
}

#[test]
fn first_failure_decides() {
    assert_eq!(disasm(&[0x00, 0xff, 0x19]).unwrap_err(), DisasmError::UnknownOpcode(255));
}

#[test]
fn multi_operand_instructions() {
    assert_eq!(
        disasm(&[0x84, 0x01, 0xff, 0xc5, 0x00, 0x02, 0x03, 0xa9, 0x04, 0xb3, 0x00, 0x01]).unwrap(),
        vec![
            Opcode::Iinc(1, 0xff),
            Opcode::Multianewarray(2, 3),
            Opcode::Ret(4),
            Opcode::Putstatic(1)
        ]
    );
}

#[test]
fn process_appends() {
    let bytes = [0x00, 0x01];
    let mut d = Disasm::new(&bytes);
    assert_eq!(d.process(), Ok(()));
}
