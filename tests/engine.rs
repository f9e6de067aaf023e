use rustjvm::{
    ArrayRef, FloatOp, FnAction, FnCall, FnError, JEngine, JValue, LoadedClass, LoadedMethod,
    ObjectRef, Opcode,
};
use std::sync::Arc;

fn class() -> Arc<LoadedClass> {
    Arc::new(LoadedClass {
        id: "Test".to_string(),
        methods: vec![],
    })
}

fn method(code: Vec<Opcode>, args: u16, max_locals: u16) -> Arc<LoadedMethod> {
    Arc::new(LoadedMethod {
        code,
        max_stack: 4,
        max_locals,
        args,
    })
}

/// Runs a frame, computing floating-point requests as the driver does.
fn run(call: &mut FnCall, engine: &mut JEngine) -> Result<FnAction, FnError> {
    loop {
        match call.invoke(engine)? {
            FnAction::Float(op) => {
                let value = match op {
                    FloatOp::Fadd(a, b) => {
                        JValue::Float((f32::from_bits(a) + f32::from_bits(b)).to_bits())
                    }
                    FloatOp::Fsub(a, b) => {
                        JValue::Float((f32::from_bits(a) - f32::from_bits(b)).to_bits())
                    }
                    FloatOp::F2i(a) => JValue::Int(f32::from_bits(a) as i32),
                    FloatOp::F2l(a) => JValue::Long(f32::from_bits(a) as i64),
                    FloatOp::F2d(a) => JValue::Double((f32::from_bits(a) as f64).to_bits()),
                    FloatOp::D2i(a) => JValue::Int(f64::from_bits(a) as i32),
                    FloatOp::D2l(a) => JValue::Long(f64::from_bits(a) as i64),
                    FloatOp::D2f(a) => JValue::Float((f64::from_bits(a) as f32).to_bits()),
                    FloatOp::I2f(a) => JValue::Float((a as f32).to_bits()),
                    FloatOp::I2d(a) => JValue::Double((a as f64).to_bits()),
                    FloatOp::L2f(a) => JValue::Float((a as f32).to_bits()),
                    FloatOp::L2d(a) => JValue::Double((a as f64).to_bits()),
                };
                call.resume_with(engine, value)?;
            }
            action => return Ok(action),
        }
    }
}

fn run_code(code: Vec<Opcode>) -> Result<FnAction, FnError> {
    let mut engine = JEngine::new();
    let mut call = FnCall::new(class(), method(code, 0, 0), &mut engine);
    run(&mut call, &mut engine)
}

#[test]
fn float_addition_matches_direct_arithmetic() {
    let r = run_code(vec![Opcode::Fconst1, Opcode::Fconst2, Opcode::Fadd, Opcode::Freturn]);
    assert_eq!(r, Ok(FnAction::Return(JValue::Float((1.0f32 + 2.0f32).to_bits()))));
}

#[test]
fn float_subtraction_takes_top_as_right_operand() {
    let r = run_code(vec![Opcode::Fconst1, Opcode::Fconst2, Opcode::Fsub, Opcode::Freturn]);
    assert_eq!(r, Ok(FnAction::Return(JValue::Float((1.0f32 - 2.0f32).to_bits()))));
}

#[test]
fn conversions() {
    let r = run_code(vec![Opcode::Dconst1, Opcode::D2i, Opcode::I2l, Opcode::Lreturn]);
    assert_eq!(r, Ok(FnAction::Return(JValue::Long(1))));
    let r = run_code(vec![Opcode::Iconst5, Opcode::I2d, Opcode::Dreturn]);
    assert_eq!(r, Ok(FnAction::Return(JValue::Double(5.0f64.to_bits()))));
    let r = run_code(vec![Opcode::Lconst1, Opcode::L2i, Opcode::Ireturn]);
    assert_eq!(r, Ok(FnAction::Return(JValue::Int(1))));
    let r = run_code(vec![Opcode::Fconst2, Opcode::F2l, Opcode::L2f, Opcode::Freturn]);
    assert_eq!(r, Ok(FnAction::Return(JValue::Float(2.0f32.to_bits()))));
}

#[test]
fn constants_and_stack_shuffles() {
    let r = run_code(vec![Opcode::IconstM1, Opcode::Dup, Opcode::Pop, Opcode::Ireturn]);
    assert_eq!(r, Ok(FnAction::Return(JValue::Int(-1))));
    let r = run_code(vec![
        Opcode::Iconst3,
        Opcode::Iconst4,
        Opcode::Iconst2,
        Opcode::Pop2,
        Opcode::Nop,
        Opcode::Ireturn,
    ]);
    assert_eq!(r, Ok(FnAction::Return(JValue::Int(3))));
    let r = run_code(vec![Opcode::AconstNull, Opcode::Areturn]);
    assert_eq!(r, Ok(FnAction::Return(JValue::Reference(None))));
    assert_eq!(run_code(vec![Opcode::Return]), Ok(FnAction::ReturnVoid));
    assert_eq!(run_code(vec![Opcode::Breakpoint]), Ok(FnAction::Breakpoint));
}

#[test]
fn unsupported_opcode_fails() {
    let r = run_code(vec![Opcode::Iconst0, Opcode::Iconst1, Opcode::Iadd, Opcode::Ireturn]);
    assert_eq!(r, Err(FnError::UnsupportedOpcode(Opcode::Iadd)));
}

#[test]
fn underflow_and_type_mismatch() {
    assert_eq!(run_code(vec![Opcode::Pop]), Err(FnError::StackUnderflow));
    assert_eq!(run_code(vec![Opcode::Freturn]), Err(FnError::StackUnderflow));
    let r = run_code(vec![Opcode::Iconst0, Opcode::Iconst1, Opcode::Freturn]);
    assert_eq!(r, Err(FnError::WrongType));
    let r = run_code(vec![Opcode::Iconst1, Opcode::Fconst1, Opcode::Fadd]);
    assert_eq!(r, Err(FnError::WrongType));
    assert_eq!(run_code(vec![Opcode::Nop]), Err(FnError::InvalidProgramCounter));
}

#[test]
fn arguments_fill_the_low_locals() {
    let mut engine = JEngine::new();
    let a = engine.new_object(vec![]);
    let b = engine.new_object(vec![JValue::Int(1)]);
    engine.push(JValue::Int(9));
    engine.push(a);
    engine.push(b);
    let code = vec![Opcode::Aload1, Opcode::Areturn];
    let mut call = FnCall::new(class(), method(code, 2, 3), &mut engine);
    assert_eq!(engine.stack_len(), 1);
    assert_eq!(run(&mut call, &mut engine), Ok(FnAction::Return(a)));

    let mut call = FnCall::new(class(), method(vec![Opcode::Aload(2), Opcode::Areturn], 0, 3), &mut engine);
    assert_eq!(run(&mut call, &mut engine), Err(FnError::WrongType));
    let mut call = FnCall::new(class(), method(vec![Opcode::Aload(3)], 0, 3), &mut engine);
    assert_eq!(run(&mut call, &mut engine), Err(FnError::MissingLocal));
}

#[test]
fn object_array_load_and_store() {
    let mut engine = JEngine::new();
    let obj = engine.new_object(vec![]);
    let handle = match obj {
        JValue::Reference(Some(h)) => h,
        _ => panic!("not an object"),
    };
    let array = engine.new_object_array(vec![None, None]);
    let array_ref = match array {
        JValue::ObjectArray(r) => r,
        _ => panic!("not an array"),
    };
    engine.push(array);
    engine.push(array);
    engine.push(JValue::Int(1));
    engine.push(obj);
    let code = vec![Opcode::Aastore, Opcode::Iconst1, Opcode::Aaload, Opcode::Areturn];
    let mut call = FnCall::new(class(), method(code, 0, 0), &mut engine);
    assert_eq!(run(&mut call, &mut engine), Ok(FnAction::Return(obj)));
    assert_eq!(engine.object_array_element(array_ref, 1), Some(Some(handle)));
    assert_eq!(engine.object_array_element(array_ref, 0), Some(None));
    assert_eq!(engine.object_array_element(array_ref, 2), None);
    assert_eq!(engine.object_array_element(ArrayRef(7), 0), None);
    let _ = ObjectRef(0);
}

#[test]
fn object_array_load_out_of_bounds() {
    let mut engine = JEngine::new();
    let array = engine.new_object_array(vec![None, None]);
    engine.push(JValue::Int(42));
    engine.push(array);
    engine.push(JValue::Int(2));
    let mut call = FnCall::new(class(), method(vec![Opcode::Aaload], 0, 0), &mut engine);
    assert_eq!(run(&mut call, &mut engine), Err(FnError::ArrayIndexOutOfBounds));
    assert_eq!(engine.stack_len(), 1);
    assert_eq!(engine.pop(), Ok(JValue::Int(42)));

    engine.push(array);
    engine.push(JValue::Int(-1));
    let mut call = FnCall::new(class(), method(vec![Opcode::Aaload], 0, 0), &mut engine);
    assert_eq!(run(&mut call, &mut engine), Err(FnError::ArrayIndexOutOfBounds));
    assert_eq!(engine.stack_len(), 0);
}

#[test]
fn subroutine_return_jumps() {
    let mut engine = JEngine::new();
    engine.push(JValue::Int(2));
    let code = vec![Opcode::Ret(0), Opcode::Return, Opcode::Breakpoint];
    let mut call = FnCall::new(class(), method(code, 1, 1), &mut engine);
    assert_eq!(run(&mut call, &mut engine), Ok(FnAction::Breakpoint));
}

#[test]
fn resume_rejects_wrong_result_kind() {
    let mut engine = JEngine::new();
    let code = vec![Opcode::Fconst1, Opcode::F2i, Opcode::Ireturn];
    let mut call = FnCall::new(class(), method(code, 0, 0), &mut engine);
    assert_eq!(
        call.invoke(&mut engine),
        Ok(FnAction::Float(FloatOp::F2i(1.0f32.to_bits())))
    );
    assert_eq!(call.resume_with(&mut engine, JValue::Long(1)), Err(FnError::WrongType));
    assert_eq!(call.resume_with(&mut engine, JValue::Int(1)), Ok(()));
    assert_eq!(call.invoke(&mut engine), Ok(FnAction::Return(JValue::Int(1))));
}

#[test]
fn it_works() {
    assert_eq!(2 + 2, 4);
}

#[test]
fn top_reads_without_popping() {
    let mut engine = JEngine::new();
    assert_eq!(engine.top(), Err(FnError::StackUnderflow));
    engine.push(JValue::Int(3));
    engine.push(JValue::Long(4));
    assert_eq!(engine.top(), Ok(&JValue::Long(4)));
    assert_eq!(engine.stack_len(), 2);
}

#[test]
fn nops_fall_through_to_return() {
    let r = run_code(vec![Opcode::Nop, Opcode::Nop, Opcode::Return]);
    assert_eq!(r, Ok(FnAction::ReturnVoid));
    let r = run_code(vec![
        Opcode::Iconst5,
        Opcode::I2d,
        Opcode::D2f,
        Opcode::F2l,
        Opcode::L2i,
        Opcode::Ireturn,
    ]);
    assert_eq!(r, Ok(FnAction::Return(JValue::Int(5))));
}
