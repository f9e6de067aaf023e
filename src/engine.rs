use vstd::prelude::*;

use std::sync::Arc;

use crate::opcode::Opcode;

verus! {

/// Handle of an object on the engine's heap.
#[derive(Debug, Clone, Copy, PartialEq, Eq, Structural)]
pub struct ObjectRef(pub usize);

/// Handle of an array on the engine's heap.
#[derive(Debug, Clone, Copy, PartialEq, Eq, Structural)]
pub struct ArrayRef(pub usize);

/// A runtime value. `Float` and `Double` hold IEEE-754 bit patterns; arrays
/// and objects are handles into the engine's heap, so several values may
/// name the same one.
#[derive(Debug, Clone, Copy, PartialEq, Eq, Structural)]
pub enum JValue {
    /// A reference to an object, or null.
    Reference(Option<ObjectRef>),
    IntArray(ArrayRef),
    LongArray(ArrayRef),
    FloatArray(ArrayRef),
    DoubleArray(ArrayRef),
    BooleanArray(ArrayRef),
    ObjectArray(ArrayRef),
    Byte(i8),
    Short(i16),
    Int(i32),
    Long(i64),
    Float(u32),
    Double(u64),
    Boolean(bool),
    /// A local slot that has not been assigned.
    Invalid,
}

/// Why a frame stopped with a failure.
#[derive(Debug, Clone, Copy, PartialEq, Eq, Structural)]
pub enum FnError {
    /// An instruction needed more operands than the stack holds.
    StackUnderflow,
    /// An operand or local has another type than the instruction needs.
    WrongType,
    /// An array index outside `[0, length)`.
    ArrayIndexOutOfBounds,
    /// An instruction that this engine does not execute.
    UnsupportedOpcode(Opcode),
    /// A local slot outside the frame's locals.
    MissingLocal,
    /// A heap handle that names no value of its kind.
    InvalidReference,
    /// The program counter left the method's instructions.
    InvalidProgramCounter,
    /// The frame ran for the largest number of steps that is counted.
    StepLimit,
}

impl JValue {
    /// The reference held, if this is one.
    pub fn as_reference(&self) -> (r: Result<Option<ObjectRef>, FnError>)
        ensures
            match self {
                JValue::Reference(x) => r == Ok::<Option<ObjectRef>, FnError>(*x),
                _ => r == Err::<Option<ObjectRef>, FnError>(FnError::WrongType),
            },
    {
        match self {
            JValue::Reference(x) => Ok(*x),
            _ => Err(FnError::WrongType),
        }
    }

    /// The int held, if this is one.
    pub fn as_int(&self) -> (r: Result<i32, FnError>)
        ensures
            match self {
                JValue::Int(x) => r == Ok::<i32, FnError>(*x),
                _ => r == Err::<i32, FnError>(FnError::WrongType),
            },
    {
        match self {
            JValue::Int(x) => Ok(*x),
            _ => Err(FnError::WrongType),
        }
    }

    /// The long held, if this is one.
    pub fn as_long(&self) -> (r: Result<i64, FnError>)
        ensures
            match self {
                JValue::Long(x) => r == Ok::<i64, FnError>(*x),
                _ => r == Err::<i64, FnError>(FnError::WrongType),
            },
    {
        match self {
            JValue::Long(x) => Ok(*x),
            _ => Err(FnError::WrongType),
        }
    }

    /// The bit pattern of the float held, if this is one.
    pub fn as_float(&self) -> (r: Result<u32, FnError>)
        ensures
            match self {
                JValue::Float(x) => r == Ok::<u32, FnError>(*x),
                _ => r == Err::<u32, FnError>(FnError::WrongType),
            },
    {
        match self {
            JValue::Float(x) => Ok(*x),
            _ => Err(FnError::WrongType),
        }
    }

    /// The bit pattern of the double held, if this is one.
    pub fn as_double(&self) -> (r: Result<u64, FnError>)
        ensures
            match self {
                JValue::Double(x) => r == Ok::<u64, FnError>(*x),
                _ => r == Err::<u64, FnError>(FnError::WrongType),
            },
    {
        match self {
            JValue::Double(x) => Ok(*x),
            _ => Err(FnError::WrongType),
        }
    }
}

/// An object: its field values.
pub struct JObject {
    pub fields: Vec<JValue>,
}

/// An array on the heap, one kind per element type.
pub enum JArray {
    Int(Vec<i32>),
    Long(Vec<i64>),
    Float(Vec<u32>),
    Double(Vec<u64>),
    Boolean(Vec<bool>),
    Object(Vec<Option<ObjectRef>>),
}

/// An array as a value.
pub enum ArrayModel {
    Int(Seq<i32>),
    Long(Seq<i64>),
    Float(Seq<u32>),
    Double(Seq<u64>),
    Boolean(Seq<bool>),
    Object(Seq<Option<ObjectRef>>),
}

impl View for JArray {
    type V = ArrayModel;

    open spec fn view(&self) -> ArrayModel {
        match self {
            JArray::Int(v) => ArrayModel::Int(v@),
            JArray::Long(v) => ArrayModel::Long(v@),
            JArray::Float(v) => ArrayModel::Float(v@),
            JArray::Double(v) => ArrayModel::Double(v@),
            JArray::Boolean(v) => ArrayModel::Boolean(v@),
            JArray::Object(v) => ArrayModel::Object(v@),
        }
    }
}

/// A method ready to run: its instructions, its frame sizes and the number
/// of values it takes from the caller's stack.
pub struct LoadedMethod {
    pub code: Vec<Opcode>,
    pub max_stack: u16,
    pub max_locals: u16,
    pub args: u16,
}

/// A class ready to run: its name and its methods by name.
pub struct LoadedClass {
    pub id: String,
    pub methods: Vec<(String, Arc<LoadedMethod>)>,
}

/// The state shared by the frames of one top-level invocation: one value
/// stack, one locals array (each frame owns a window of both) and the heap.
pub struct JEngine {
    stack: Vec<JValue>,
    locals: Vec<JValue>,
    objects: Vec<JObject>,
    arrays: Vec<JArray>,
}

/// A floating-point operation that a frame hands to its driver, with its
/// operands; `Float` and `Double` operands are bit patterns.
#[derive(Debug, Clone, Copy, PartialEq, Eq, Structural)]
pub enum FloatOp {
    Fadd(u32, u32),
    Fsub(u32, u32),
    F2i(u32),
    F2l(u32),
    F2d(u32),
    D2i(u64),
    D2l(u64),
    D2f(u64),
    I2f(i32),
    I2d(i32),
    L2f(i64),
    L2d(i64),
}

/// How a frame stopped without failing.
#[derive(Debug, Clone, Copy, PartialEq, Eq, Structural)]
pub enum FnAction {
    /// The method returned this value.
    Return(JValue),
    /// The method returned nothing.
    ReturnVoid,
    /// A breakpoint instruction was reached.
    Breakpoint,
    /// Reserved for the call instructions of a call-dispatch layer.
    Call(u16),
    /// The instruction at the program counter needs this floating-point
    /// result; the driver computes it and hands it to `resume_with`.
    Float(FloatOp),
}

pub type JResult<T> = Result<T, FnError>;

pub type FnResult = Result<FnAction, FnError>;

/// A frame's state as values.
pub struct Frame {
    pub pc: int,
    pub lp: int,
    pub stack: Seq<JValue>,
    pub locals: Seq<JValue>,
    pub arrays: Seq<ArrayModel>,
}

/// What one step does.
pub enum StepResult {
    /// Go on at the new program counter.
    Continue,
    Finish(FnAction),
    Fail(FnError),
}

/// The array index that a value gives: an int, short or byte.
pub open spec fn index_of(v: JValue) -> Option<int> {
    match v {
        JValue::Int(i) => Some(i as int),
        JValue::Short(i) => Some(i as int),
        JValue::Byte(i) => Some(i as int),
        _ => None,
    }
}

pub open spec fn with_stack(s: Frame, stack: Seq<JValue>) -> Frame {
    Frame { stack, ..s }
}

pub open spec fn advance(s: Frame, stack: Seq<JValue>) -> (StepResult, Frame) {
    (StepResult::Continue, Frame { pc: s.pc + 1, stack, ..s })
}

pub open spec fn push_next(s: Frame, v: JValue) -> (StepResult, Frame) {
    advance(s, s.stack.push(v))
}

pub open spec fn fail(s: Frame, e: FnError) -> (StepResult, Frame) {
    (StepResult::Fail(e), s)
}

/// Loads a reference from the frame's local `var`.
pub open spec fn load_reference(s: Frame, var: int) -> (StepResult, Frame) {
    let i = s.lp + var;
    if i < 0 || i >= s.locals.len() {
        fail(s, FnError::MissingLocal)
    } else if s.locals[i] is Reference {
        push_next(s, s.locals[i])
    } else {
        fail(s, FnError::WrongType)
    }
}

/// Pops one operand; `f` gives what follows from it.
pub open spec fn unary(s: Frame, f: spec_fn(Frame, JValue) -> (StepResult, Frame)) -> (
    StepResult,
    Frame,
) {
    if s.stack.len() < 1 {
        fail(s, FnError::StackUnderflow)
    } else {
        f(with_stack(s, s.stack.drop_last()), s.stack.last())
    }
}

/// Pops two operands, the top one second; `f` gives what follows.
pub open spec fn binary(s: Frame, f: spec_fn(Frame, JValue, JValue) -> (StepResult, Frame)) -> (
    StepResult,
    Frame,
) {
    let n = s.stack.len();
    if n < 2 {
        fail(s, FnError::StackUnderflow)
    } else {
        f(with_stack(s, s.stack.subrange(0, n - 2)), s.stack[n - 2], s.stack[n - 1])
    }
}

/// Ends the step with a floating-point request built from an operand of the
/// right kind.
pub open spec fn float_request(s: Frame, op: Option<FloatOp>) -> (StepResult, Frame) {
    match op {
        Some(op) => (StepResult::Finish(FnAction::Float(op)), s),
        None => fail(s, FnError::WrongType),
    }
}

pub open spec fn float_bits(v: JValue) -> Option<u32> {
    match v {
        JValue::Float(x) => Some(x),
        _ => None,
    }
}

/// The floating-point request of a one-operand conversion on `v`.
pub open spec fn conversion(op: Opcode, v: JValue) -> Option<FloatOp> {
    match (op, v) {
        (Opcode::F2i, JValue::Float(x)) => Some(FloatOp::F2i(x)),
        (Opcode::F2l, JValue::Float(x)) => Some(FloatOp::F2l(x)),
        (Opcode::F2d, JValue::Float(x)) => Some(FloatOp::F2d(x)),
        (Opcode::D2i, JValue::Double(x)) => Some(FloatOp::D2i(x)),
        (Opcode::D2l, JValue::Double(x)) => Some(FloatOp::D2l(x)),
        (Opcode::D2f, JValue::Double(x)) => Some(FloatOp::D2f(x)),
        (Opcode::I2f, JValue::Int(x)) => Some(FloatOp::I2f(x)),
        (Opcode::I2d, JValue::Int(x)) => Some(FloatOp::I2d(x)),
        (Opcode::L2f, JValue::Long(x)) => Some(FloatOp::L2f(x)),
        (Opcode::L2d, JValue::Long(x)) => Some(FloatOp::L2d(x)),
        _ => None,
    }
}

/// Whether an opcode is a conversion that involves a floating-point type.
pub open spec fn is_float_conversion(op: Opcode) -> bool {
    op is F2i || op is F2l || op is F2d || op is D2i || op is D2l || op is D2f || op is I2f
        || op is I2d || op is L2f || op is L2d
}

/// Returns a value whose kind `ok` accepts.
pub open spec fn typed_return(s: Frame, ok: spec_fn(JValue) -> bool) -> (StepResult, Frame) {
    unary(
        s,
        |t: Frame, v: JValue|
            if ok(v) {
                (StepResult::Finish(FnAction::Return(v)), t)
            } else {
                fail(t, FnError::WrongType)
            },
    )
}

/// Loads element `index` of the object array `array`.
pub open spec fn array_load(s: Frame, array: JValue, index: JValue) -> (StepResult, Frame) {
    match (array, index_of(index)) {
        (JValue::ObjectArray(r), Some(i)) => if r.0 < s.arrays.len() && s.arrays[r.0 as int] is Object {
            let items = s.arrays[r.0 as int]->Object_0;
            if 0 <= i < items.len() {
                push_next(s, JValue::Reference(items[i]))
            } else {
                fail(s, FnError::ArrayIndexOutOfBounds)
            }
        } else {
            fail(s, FnError::InvalidReference)
        },
        _ => fail(s, FnError::WrongType),
    }
}

/// Stores `value` as element `index` of the object array `array`.
pub open spec fn array_store(s: Frame, array: JValue, index: JValue, value: JValue) -> (
    StepResult,
    Frame,
) {
    match (array, index_of(index), value) {
        (
            JValue::ObjectArray(r),
            Some(i),
            JValue::Reference(x),
        ) => if r.0 < s.arrays.len() && s.arrays[r.0 as int] is Object {
            let items = s.arrays[r.0 as int]->Object_0;
            if 0 <= i < items.len() {
                (
                    StepResult::Continue,
                    Frame {
                        pc: s.pc + 1,
                        arrays: s.arrays.update(r.0 as int, ArrayModel::Object(items.update(i, x))),
                        ..s
                    },
                )
            } else {
                fail(s, FnError::ArrayIndexOutOfBounds)
            }
        } else {
            fail(s, FnError::InvalidReference)
        },
        _ => fail(s, FnError::WrongType),
    }
}

/// One step of a frame over `code`: the instruction at the program counter
/// acts on the stack, the locals and the heap.
pub open spec fn step_spec(code: Seq<Opcode>, s: Frame) -> (StepResult, Frame) {
    if s.pc < 0 || s.pc >= code.len() {
        fail(s, FnError::InvalidProgramCounter)
    } else {
        let op = code[s.pc];
        match op {
            Opcode::Aaload => binary(s, |t: Frame, a: JValue, i: JValue| array_load(t, a, i)),
            Opcode::Aastore => if s.stack.len() < 3 {
                fail(s, FnError::StackUnderflow)
            } else {
                let n = s.stack.len();
                array_store(
                    with_stack(s, s.stack.subrange(0, n - 3)),
                    s.stack[n - 3],
                    s.stack[n - 2],
                    s.stack[n - 1],
                )
            },
            Opcode::Aload(var) => load_reference(s, var as int),
            Opcode::Aload0 => load_reference(s, 0),
            Opcode::Aload1 => load_reference(s, 1),
            Opcode::Aload2 => load_reference(s, 2),
            Opcode::Aload3 => load_reference(s, 3),
            Opcode::Pop => unary(s, |t: Frame, v: JValue| advance(t, t.stack)),
            Opcode::Pop2 => binary(s, |t: Frame, a: JValue, b: JValue| advance(t, t.stack)),
            Opcode::Dup => unary(s, |t: Frame, v: JValue| advance(t, t.stack.push(v).push(v))),
            Opcode::IconstM1 => push_next(s, JValue::Int(-1i32)),
            Opcode::Iconst0 => push_next(s, JValue::Int(0i32)),
            Opcode::Iconst1 => push_next(s, JValue::Int(1i32)),
            Opcode::Iconst2 => push_next(s, JValue::Int(2i32)),
            Opcode::Iconst3 => push_next(s, JValue::Int(3i32)),
            Opcode::Iconst4 => push_next(s, JValue::Int(4i32)),
            Opcode::Iconst5 => push_next(s, JValue::Int(5i32)),
            Opcode::Lconst0 => push_next(s, JValue::Long(0i64)),
            Opcode::Lconst1 => push_next(s, JValue::Long(1i64)),
            Opcode::Fconst0 => push_next(s, JValue::Float(FLOAT_ZERO)),
            Opcode::Fconst1 => push_next(s, JValue::Float(FLOAT_ONE)),
            Opcode::Fconst2 => push_next(s, JValue::Float(FLOAT_TWO)),
            Opcode::Dconst0 => push_next(s, JValue::Double(DOUBLE_ZERO)),
            Opcode::Dconst1 => push_next(s, JValue::Double(DOUBLE_ONE)),
            Opcode::AconstNull => push_next(s, JValue::Reference(None)),
            Opcode::I2l => unary(
                s,
                |t: Frame, v: JValue|
                    match v {
                        JValue::Int(x) => push_next(t, JValue::Long(x as i64)),
                        _ => fail(t, FnError::WrongType),
                    },
            ),
            Opcode::L2i => unary(
                s,
                |t: Frame, v: JValue|
                    match v {
                        JValue::Long(x) => push_next(t, JValue::Int(x as i32)),
                        _ => fail(t, FnError::WrongType),
                    },
            ),
            Opcode::Fadd => binary(
                s,
                |t: Frame, a: JValue, b: JValue|
                    match (float_bits(a), float_bits(b)) {
                        (Some(x), Some(y)) => float_request(t, Some(FloatOp::Fadd(x, y))),
                        _ => fail(t, FnError::WrongType),
                    },
            ),
            Opcode::Fsub => binary(
                s,
                |t: Frame, a: JValue, b: JValue|
                    match (float_bits(a), float_bits(b)) {
                        (Some(x), Some(y)) => float_request(t, Some(FloatOp::Fsub(x, y))),
                        _ => fail(t, FnError::WrongType),
                    },
            ),
            Opcode::Ret(var) => {
                let i = s.lp + var;
                if i >= s.locals.len() {
                    fail(s, FnError::MissingLocal)
                } else {
                    match s.locals[i] {
                        JValue::Int(x) => if x < 0 {
                            fail(s, FnError::InvalidProgramCounter)
                        } else {
                            (StepResult::Continue, Frame { pc: x as int, ..s })
                        },
                        _ => fail(s, FnError::WrongType),
                    }
                }
            },
            Opcode::Areturn => typed_return(s, |v: JValue| v is Reference),
            Opcode::Ireturn => typed_return(s, |v: JValue| v is Int),
            Opcode::Lreturn => typed_return(s, |v: JValue| v is Long),
            Opcode::Freturn => typed_return(s, |v: JValue| v is Float),
            Opcode::Dreturn => typed_return(s, |v: JValue| v is Double),
            Opcode::Return => (StepResult::Finish(FnAction::ReturnVoid), s),
            Opcode::Nop => advance(s, s.stack),
            Opcode::Breakpoint => (StepResult::Finish(FnAction::Breakpoint), s),
            _ => if is_float_conversion(op) {
                unary(s, |t: Frame, v: JValue| float_request(t, conversion(op, v)))
            } else {
                fail(s, FnError::UnsupportedOpcode(op))
            },
        }
    }
}

pub const FLOAT_ZERO: u32 = 0;

pub const FLOAT_ONE: u32 = 0x3f80_0000;

pub const FLOAT_TWO: u32 = 0x4000_0000;

pub const DOUBLE_ZERO: u64 = 0;

pub const DOUBLE_ONE: u64 = 0x3ff0_0000_0000_0000;

/// The values `run` reaches from `s` in at most `fuel` steps: the first step
/// that does not continue, with the frame after it.
pub open spec fn run(code: Seq<Opcode>, s: Frame, fuel: nat) -> Option<(StepResult, Frame)>
    decreases fuel,
{
    if fuel == 0 {
        None
    } else {
        let (res, t) = step_spec(code, s);
        if res is Continue {
            run(code, t, (fuel - 1) as nat)
        } else {
            Some((res, t))
        }
    }
}

/// The step result that an outcome of `step` or `invoke` reports.
pub open spec fn reported(r: Result<FnAction, FnError>) -> StepResult {
    match r {
        Ok(a) => StepResult::Finish(a),
        Err(e) => StepResult::Fail(e),
    }
}

/// The result kind that the floating-point instruction `op` produces.
pub open spec fn float_result_fits(op: Opcode, v: JValue) -> bool {
    match op {
        Opcode::Fadd | Opcode::Fsub | Opcode::D2f | Opcode::I2f | Opcode::L2f => v is Float,
        Opcode::F2i | Opcode::D2i => v is Int,
        Opcode::F2l | Opcode::D2l => v is Long,
        Opcode::F2d | Opcode::I2d | Opcode::L2d => v is Double,
        _ => false,
    }
}

/// The `n` values at the top of `stack`, the top one first.
pub open spec fn top_values(stack: Seq<JValue>, n: int) -> Seq<JValue> {
    Seq::new(n as nat, |k: int| stack[stack.len() - 1 - k])
}

impl JEngine {
    pub closed spec fn stack_view(&self) -> Seq<JValue> {
        self.stack@
    }

    pub closed spec fn locals_view(&self) -> Seq<JValue> {
        self.locals@
    }

    pub closed spec fn arrays_view(&self) -> Seq<ArrayModel> {
        self.arrays@.map_values(|a: JArray| a@)
    }

    pub closed spec fn objects_len(&self) -> nat {
        self.objects@.len()
    }

    /// An engine with an empty stack, no locals and an empty heap.
    pub fn new() -> (r: JEngine)
        ensures
            r.stack_view() == Seq::<JValue>::empty(),
            r.locals_view() == Seq::<JValue>::empty(),
            r.arrays_view() == Seq::<ArrayModel>::empty(),
            r.objects_len() == 0,
    {
        let r = JEngine {
            stack: Vec::new(),
            locals: Vec::new(),
            objects: Vec::new(),
            arrays: Vec::new(),
        };
        assert(r.arrays_view() =~= Seq::<ArrayModel>::empty());
        r
    }

    /// Removes and returns the top of the stack.
    pub fn pop(&mut self) -> (r: JResult<JValue>)
        ensures
            final(self).locals_view() == old(self).locals_view(),
            final(self).arrays_view() == old(self).arrays_view(),
            final(self).objects_len() == old(self).objects_len(),
            old(self).stack_view().len() == 0 ==> r == Err::<JValue, FnError>(
                FnError::StackUnderflow,
            ) && final(self).stack_view() == old(self).stack_view(),
            old(self).stack_view().len() > 0 ==> r == Ok::<JValue, FnError>(
                old(self).stack_view().last(),
            ) && final(self).stack_view() == old(self).stack_view().drop_last(),
    {
        match self.stack.pop() {
            Some(v) => Ok(v),
            None => Err(FnError::StackUnderflow),
        }
    }

    /// Pushes a value on the stack.
    pub fn push(&mut self, value: JValue)
        ensures
            final(self).stack_view() == old(self).stack_view().push(value),
            final(self).locals_view() == old(self).locals_view(),
            final(self).arrays_view() == old(self).arrays_view(),
            final(self).objects_len() == old(self).objects_len(),
    {
        self.stack.push(value);
    }

    /// The value on top of the stack, left in place.
    pub fn top(&self) -> (r: JResult<&JValue>)
        ensures
            self.stack_view().len() == 0 ==> r == Err::<&JValue, FnError>(FnError::StackUnderflow),
            self.stack_view().len() > 0 ==> r == Ok::<&JValue, FnError>(&self.stack_view().last()),
    {
        let n = self.stack.len();
        if n == 0 {
            Err(FnError::StackUnderflow)
        } else {
            Ok(&self.stack[n - 1])
        }
    }

    /// The number of values on the stack.
    pub fn stack_len(&self) -> (r: usize)
        ensures
            r == self.stack_view().len(),
    {
        self.stack.len()
    }

    /// Puts a new object with these fields on the heap and returns a
    /// reference to it.
    pub fn new_object(&mut self, fields: Vec<JValue>) -> (r: JValue)
        ensures
            r == JValue::Reference(Some(ObjectRef(old(self).objects_len() as usize))),
            final(self).objects_len() == old(self).objects_len() + 1,
            final(self).stack_view() == old(self).stack_view(),
            final(self).locals_view() == old(self).locals_view(),
            final(self).arrays_view() == old(self).arrays_view(),
    {
        let r = JValue::Reference(Some(ObjectRef(self.objects.len())));
        self.objects.push(JObject { fields });
        r
    }

    /// Puts a new object array with these elements on the heap and returns
    /// a value naming it.
    pub fn new_object_array(&mut self, items: Vec<Option<ObjectRef>>) -> (r: JValue)
        ensures
            r == JValue::ObjectArray(ArrayRef(old(self).arrays_view().len() as usize)),
            final(self).arrays_view() == old(self).arrays_view().push(ArrayModel::Object(items@)),
            final(self).stack_view() == old(self).stack_view(),
            final(self).locals_view() == old(self).locals_view(),
            final(self).objects_len() == old(self).objects_len(),
    {
        let r = JValue::ObjectArray(ArrayRef(self.arrays.len()));
        let ghost before = self.arrays@;
        self.arrays.push(JArray::Object(items));
        assert(self.arrays@.map_values(|a: JArray| a@) =~= before.map_values(|a: JArray| a@).push(
            ArrayModel::Object(items@),
        ));
        r
    }

    /// Element `i` of the object array `a`, if both exist.
    pub fn object_array_element(&self, a: ArrayRef, i: usize) -> (r: Option<Option<ObjectRef>>)
        ensures
            r == (if a.0 < self.arrays_view().len() && self.arrays_view()[a.0 as int] is Object
                && i < self.arrays_view()[a.0 as int]->Object_0.len() {
                Some(self.arrays_view()[a.0 as int]->Object_0[i as int])
            } else {
                None
            }),
    {
        if a.0 < self.arrays.len() {
            match &self.arrays[a.0] {
                JArray::Object(items) => if i < items.len() {
                    Some(items[i])
                } else {
                    None
                },
                _ => None,
            }
        } else {
            None
        }
    }
}

/// One method invocation in progress: the method, its class, the program
/// counter over its instructions, and the start of its windows on the
/// engine's stack (`sp`) and locals (`lp`).
pub struct FnCall {
    cls: Arc<LoadedClass>,
    f: Arc<LoadedMethod>,
    pc: usize,
    sp: usize,
    lp: usize,
}

impl FnCall {
    pub closed spec fn code(&self) -> Seq<Opcode> {
        self.f.code@
    }

    pub closed spec fn spec_pc(&self) -> int {
        self.pc as int
    }

    pub closed spec fn spec_sp(&self) -> int {
        self.sp as int
    }

    pub closed spec fn spec_lp(&self) -> int {
        self.lp as int
    }

    /// The frame's state over `engine`.
    pub open spec fn frame(&self, engine: &JEngine) -> Frame {
        Frame {
            pc: self.spec_pc(),
            lp: self.spec_lp(),
            stack: engine.stack_view(),
            locals: engine.locals_view(),
            arrays: engine.arrays_view(),
        }
    }

    /// Starts a frame for `f`: its `args` values are popped off the stack
    /// into its first local slots, the top one first, its other local slots
    /// are unassigned, and its stack window starts at the new stack top.
    pub fn new(cls: Arc<LoadedClass>, f: Arc<LoadedMethod>, engine: &mut JEngine) -> (r: Self)
        requires
            old(engine).stack_view().len() >= f.args,
            old(engine).locals_view().len() + f.args + f.max_locals < usize::MAX,
        ensures
            r.code() == f.code@,
            r.spec_pc() == 0,
            r.spec_lp() == old(engine).locals_view().len(),
            r.spec_sp() == final(engine).stack_view().len(),
            final(engine).stack_view() == old(engine).stack_view().subrange(
                0,
                old(engine).stack_view().len() - f.args,
            ),
            final(engine).locals_view() == old(engine).locals_view() + top_values(
                old(engine).stack_view(),
                f.args as int,
            ) + Seq::new(
                (if f.max_locals > f.args {
                    f.max_locals - f.args
                } else {
                    0
                }) as nat,
                |k: int| JValue::Invalid,
            ),
            final(engine).arrays_view() == old(engine).arrays_view(),
            final(engine).objects_len() == old(engine).objects_len(),
    {
        let ghost stack0 = engine.stack@;
        let ghost locals0 = engine.locals@;
        let lp = engine.locals.len();
        engine.locals.reserve(f.max_locals as usize);
        let mut i: u16 = 0;
        while i < f.args
            invariant
                i <= f.args,
                stack0.len() >= f.args,
                engine.stack@ == stack0.subrange(0, stack0.len() - i),
                engine.locals@ == locals0 + top_values(stack0, i as int),
                lp == locals0.len(),
                locals0.len() + f.args + f.max_locals < usize::MAX,
                engine.arrays == old(engine).arrays,
                engine.objects == old(engine).objects,
            decreases f.args - i,
        {
            let v = engine.stack.pop().unwrap();
            engine.locals.push(v);
            i += 1;
            assert(engine.stack@ =~= stack0.subrange(0, stack0.len() - i));
            assert(engine.locals@ =~= locals0 + top_values(stack0, i as int));
        }
        let ghost with_args = engine.locals@;
        let mut k: u16 = f.args;
        while k < f.max_locals
            invariant
                f.args <= k <= f.max_locals || (k == f.args && f.args >= f.max_locals),
                engine.stack@ == stack0.subrange(0, stack0.len() - f.args),
                engine.locals@ == with_args + Seq::new((k - f.args) as nat, |j: int| JValue::Invalid),
                with_args.len() == locals0.len() + f.args,
                locals0.len() + f.args + f.max_locals < usize::MAX,
                engine.arrays == old(engine).arrays,
                engine.objects == old(engine).objects,
            decreases f.max_locals - k,
        {
            engine.locals.push(JValue::Invalid);
            k += 1;
            assert(engine.locals@ =~= with_args + Seq::new(
                (k - f.args) as nat,
                |j: int| JValue::Invalid,
            ));
        }
        assert(engine.locals@ =~= locals0 + top_values(stack0, f.args as int) + Seq::new(
            (if f.max_locals > f.args {
                f.max_locals - f.args
            } else {
                0
            }) as nat,
            |j: int| JValue::Invalid,
        ));
        let sp = engine.stack.len();
        engine.stack.reserve(f.max_stack as usize);
        FnCall { cls, f, pc: 0, sp, lp }
    }
}

/// Whether `r` reports the step result `res`: `None` for going on.
pub open spec fn outcome(res: StepResult, r: JResult<Option<FnAction>>) -> bool {
    match res {
        StepResult::Continue => r == Ok::<Option<FnAction>, FnError>(None),
        StepResult::Finish(a) => r == Ok::<Option<FnAction>, FnError>(Some(a)),
        StepResult::Fail(e) => r == Err::<Option<FnAction>, FnError>(e),
    }
}

impl FnCall {
    /// Whether this call and `engine` are left as `t` says, with `r`
    /// reporting `res`.
    pub open spec fn stepped(
        &self,
        engine: &JEngine,
        old_call: &FnCall,
        old_engine: &JEngine,
        res: StepResult,
        t: Frame,
        r: JResult<Option<FnAction>>,
    ) -> bool {
        &&& self.frame(engine) == t
        &&& outcome(res, r)
        &&& self.code() == old_call.code()
        &&& self.spec_lp() == old_call.spec_lp()
        &&& self.spec_sp() == old_call.spec_sp()
        &&& engine.objects_len() == old_engine.objects_len()
    }

    fn array_load(&mut self, engine: &mut JEngine, array: JValue, index: JValue) -> (r: JResult<
        Option<FnAction>,
    >)
        requires
            old(self).spec_pc() < old(self).code().len(),
            old(self).spec_pc() < usize::MAX,
        ensures
            ({
                let (res, t) = array_load(old(self).frame(old(engine)), array, index);
                final(self).stepped(final(engine), old(self), old(engine), res, t, r)
            }),
    {
        let i: i64 = match index {
            JValue::Int(x) => x as i64,
            JValue::Short(x) => x as i64,
            JValue::Byte(x) => x as i64,
            _ => return Err(FnError::WrongType),
        };
        match array {
            JValue::ObjectArray(a) => {
                if a.0 >= engine.arrays.len() {
                    return Err(FnError::InvalidReference);
                }
                let ghost arrays = engine.arrays@;
                assert(engine.arrays_view()[a.0 as int] == arrays[a.0 as int]@);
                match &engine.arrays[a.0] {
                    JArray::Object(items) => {
                        if i < 0 || i as usize >= items.len() {
                            Err(FnError::ArrayIndexOutOfBounds)
                        } else {
                            let x = items[i as usize];
                            engine.stack.push(JValue::Reference(x));
                            self.pc = self.pc + 1;
                            Ok(None)
                        }
                    },
                    _ => Err(FnError::InvalidReference),
                }
            },
            _ => Err(FnError::WrongType),
        }
    }

    fn array_store(
        &mut self,
        engine: &mut JEngine,
        array: JValue,
        index: JValue,
        value: JValue,
    ) -> (r: JResult<Option<FnAction>>)
        requires
            old(self).spec_pc() < old(self).code().len(),
            old(self).spec_pc() < usize::MAX,
        ensures
            ({
                let (res, t) = array_store(old(self).frame(old(engine)), array, index, value);
                final(self).stepped(final(engine), old(self), old(engine), res, t, r)
            }),
    {
        let i: i64 = match index {
            JValue::Int(x) => x as i64,
            JValue::Short(x) => x as i64,
            JValue::Byte(x) => x as i64,
            _ => return Err(FnError::WrongType),
        };
        let x = match value {
            JValue::Reference(x) => x,
            _ => return Err(FnError::WrongType),
        };
        match array {
            JValue::ObjectArray(a) => {
                if a.0 >= engine.arrays.len() {
                    return Err(FnError::InvalidReference);
                }
                let ghost arrays = engine.arrays@;
                assert(engine.arrays_view()[a.0 as int] == arrays[a.0 as int]@);
                let fits = match &engine.arrays[a.0] {
                    JArray::Object(items) => {
                        if i < 0 || i as usize >= items.len() {
                            return Err(FnError::ArrayIndexOutOfBounds);
                        }
                        true
                    },
                    _ => false,
                };
                if !fits {
                    return Err(FnError::InvalidReference);
                }
                let removed = engine.arrays.remove(a.0);
                match removed {
                    JArray::Object(mut items) => {
                        items.set(i as usize, x);
                        engine.arrays.insert(a.0, JArray::Object(items));
                        assert(engine.arrays@ =~= arrays.update(a.0 as int, JArray::Object(items)));
                        assert(engine.arrays_view() =~= old(engine).arrays_view().update(
                            a.0 as int,
                            ArrayModel::Object(items@),
                        ));
                        self.pc = self.pc + 1;
                        Ok(None)
                    },
                    other => {
                        engine.arrays.insert(a.0, other);
                        Err(FnError::InvalidReference)
                    },
                }
            },
            _ => Err(FnError::WrongType),
        }
    }

    fn load_reference(&mut self, engine: &mut JEngine, var: usize) -> (r: JResult<Option<FnAction>>)
        requires
            old(self).spec_pc() < old(self).code().len(),
            old(self).spec_pc() < usize::MAX,
            var < 0x100,
        ensures
            ({
                let (res, t) = load_reference(old(self).frame(old(engine)), var as int);
                final(self).stepped(final(engine), old(self), old(engine), res, t, r)
            }),
    {
        if self.lp > engine.locals.len() || engine.locals.len() - self.lp <= var {
            return Err(FnError::MissingLocal);
        }
        let v = engine.locals[self.lp + var];
        match v {
            JValue::Reference(_) => {
                engine.stack.push(v);
                self.pc = self.pc + 1;
                Ok(None)
            },
            _ => Err(FnError::WrongType),
        }
    }

    /// Executes the instruction at the program counter: `Ok(None)` where
    /// the frame goes on, `Ok(Some(action))` where it stops, or the failure.
    #[verifier::rlimit(100)]
    pub fn step(&mut self, engine: &mut JEngine) -> (r: JResult<Option<FnAction>>)
        ensures
            ({
                let (res, t) = step_spec(old(self).code(), old(self).frame(old(engine)));
                final(self).stepped(final(engine), old(self), old(engine), res, t, r)
            }),
    {
        let code = &self.f.code;
        if self.pc >= code.len() {
            return Err(FnError::InvalidProgramCounter);
        }
        let op = code[self.pc];
        let n = engine.stack.len();
        let ghost st = engine.stack@;
        match op {
            Opcode::Aaload => {
                if n < 2 {
                    return Err(FnError::StackUnderflow);
                }
                let index = engine.stack.pop().unwrap();
                let array = engine.stack.pop().unwrap();
                assert(engine.stack@ =~= st.subrange(0, n - 2));
                self.array_load(engine, array, index)
            },
            Opcode::Aastore => {
                if n < 3 {
                    return Err(FnError::StackUnderflow);
                }
                let value = engine.stack.pop().unwrap();
                let index = engine.stack.pop().unwrap();
                let array = engine.stack.pop().unwrap();
                assert(engine.stack@ =~= st.subrange(0, n - 3));
                self.array_store(engine, array, index, value)
            },
            Opcode::Aload(var) => self.load_reference(engine, var as usize),
            Opcode::Aload0 => self.load_reference(engine, 0),
            Opcode::Aload1 => self.load_reference(engine, 1),
            Opcode::Aload2 => self.load_reference(engine, 2),
            Opcode::Aload3 => self.load_reference(engine, 3),
            Opcode::Pop => {
                if n < 1 {
                    return Err(FnError::StackUnderflow);
                }
                engine.stack.pop();
                self.pc = self.pc + 1;
                Ok(None)
            },
            Opcode::Pop2 => {
                if n < 2 {
                    return Err(FnError::StackUnderflow);
                }
                engine.stack.pop();
                engine.stack.pop();
                assert(engine.stack@ =~= st.subrange(0, n - 2));
                self.pc = self.pc + 1;
                Ok(None)
            },
            Opcode::Dup => {
                if n < 1 {
                    return Err(FnError::StackUnderflow);
                }
                let v = *engine.top()?;
                engine.stack.push(v);
                assert(engine.stack@ =~= st.drop_last().push(v).push(v));
                self.pc = self.pc + 1;
                Ok(None)
            },
            Opcode::IconstM1 => self.push_next(engine, JValue::Int(-1)),
            Opcode::Iconst0 => self.push_next(engine, JValue::Int(0)),
            Opcode::Iconst1 => self.push_next(engine, JValue::Int(1)),
            Opcode::Iconst2 => self.push_next(engine, JValue::Int(2)),
            Opcode::Iconst3 => self.push_next(engine, JValue::Int(3)),
            Opcode::Iconst4 => self.push_next(engine, JValue::Int(4)),
            Opcode::Iconst5 => self.push_next(engine, JValue::Int(5)),
            Opcode::Lconst0 => self.push_next(engine, JValue::Long(0)),
            Opcode::Lconst1 => self.push_next(engine, JValue::Long(1)),
            Opcode::Fconst0 => self.push_next(engine, JValue::Float(FLOAT_ZERO)),
            Opcode::Fconst1 => self.push_next(engine, JValue::Float(FLOAT_ONE)),
            Opcode::Fconst2 => self.push_next(engine, JValue::Float(FLOAT_TWO)),
            Opcode::Dconst0 => self.push_next(engine, JValue::Double(DOUBLE_ZERO)),
            Opcode::Dconst1 => self.push_next(engine, JValue::Double(DOUBLE_ONE)),
            Opcode::AconstNull => self.push_next(engine, JValue::Reference(None)),
            Opcode::I2l => {
                if n < 1 {
                    return Err(FnError::StackUnderflow);
                }
                match engine.stack.pop().unwrap() {
                    JValue::Int(x) => self.push_next(engine, JValue::Long(x as i64)),
                    _ => Err(FnError::WrongType),
                }
            },
            Opcode::L2i => {
                if n < 1 {
                    return Err(FnError::StackUnderflow);
                }
                match engine.stack.pop().unwrap() {
                    JValue::Long(x) => self.push_next(
                        engine,
                        JValue::Int(#[verifier::truncate] (x as i32)),
                    ),
                    _ => Err(FnError::WrongType),
                }
            },
            Opcode::Fadd | Opcode::Fsub => {
                if n < 2 {
                    return Err(FnError::StackUnderflow);
                }
                let b = engine.stack.pop().unwrap();
                let a = engine.stack.pop().unwrap();
                assert(engine.stack@ =~= st.subrange(0, n - 2));
                match (a, b) {
                    (JValue::Float(x), JValue::Float(y)) => {
                        if matches!(op, Opcode::Fadd) {
                            Ok(Some(FnAction::Float(FloatOp::Fadd(x, y))))
                        } else {
                            Ok(Some(FnAction::Float(FloatOp::Fsub(x, y))))
                        }
                    },
                    _ => Err(FnError::WrongType),
                }
            },
            Opcode::F2i | Opcode::F2l | Opcode::F2d | Opcode::D2i | Opcode::D2l | Opcode::D2f
            | Opcode::I2f | Opcode::I2d | Opcode::L2f | Opcode::L2d => {
                if n < 1 {
                    return Err(FnError::StackUnderflow);
                }
                let v = engine.stack.pop().unwrap();
                let request = match (op, v) {
                    (Opcode::F2i, JValue::Float(x)) => FloatOp::F2i(x),
                    (Opcode::F2l, JValue::Float(x)) => FloatOp::F2l(x),
                    (Opcode::F2d, JValue::Float(x)) => FloatOp::F2d(x),
                    (Opcode::D2i, JValue::Double(x)) => FloatOp::D2i(x),
                    (Opcode::D2l, JValue::Double(x)) => FloatOp::D2l(x),
                    (Opcode::D2f, JValue::Double(x)) => FloatOp::D2f(x),
                    (Opcode::I2f, JValue::Int(x)) => FloatOp::I2f(x),
                    (Opcode::I2d, JValue::Int(x)) => FloatOp::I2d(x),
                    (Opcode::L2f, JValue::Long(x)) => FloatOp::L2f(x),
                    (Opcode::L2d, JValue::Long(x)) => FloatOp::L2d(x),
                    _ => return Err(FnError::WrongType),
                };
                Ok(Some(FnAction::Float(request)))
            },
            Opcode::Ret(var) => {
                if self.lp > engine.locals.len() || engine.locals.len() - self.lp <= var as usize {
                    return Err(FnError::MissingLocal);
                }
                match engine.locals[self.lp + var as usize] {
                    JValue::Int(x) => {
                        if x < 0 {
                            Err(FnError::InvalidProgramCounter)
                        } else {
                            self.pc = x as usize;
                            Ok(None)
                        }
                    },
                    _ => Err(FnError::WrongType),
                }
            },
            Opcode::Areturn | Opcode::Ireturn | Opcode::Lreturn | Opcode::Freturn
            | Opcode::Dreturn => {
                if n < 1 {
                    return Err(FnError::StackUnderflow);
                }
                let v = engine.stack.pop().unwrap();
                let fits = match (op, v) {
                    (Opcode::Areturn, JValue::Reference(_)) => true,
                    (Opcode::Ireturn, JValue::Int(_)) => true,
                    (Opcode::Lreturn, JValue::Long(_)) => true,
                    (Opcode::Freturn, JValue::Float(_)) => true,
                    (Opcode::Dreturn, JValue::Double(_)) => true,
                    _ => false,
                };
                if fits {
                    Ok(Some(FnAction::Return(v)))
                } else {
                    Err(FnError::WrongType)
                }
            },
            Opcode::Return => Ok(Some(FnAction::ReturnVoid)),
            Opcode::Nop => {
                self.pc = self.pc + 1;
                Ok(None)
            },
            Opcode::Breakpoint => Ok(Some(FnAction::Breakpoint)),
            _ => Err(FnError::UnsupportedOpcode(op)),
        }
    }

    fn push_next(&mut self, engine: &mut JEngine, v: JValue) -> (r: JResult<Option<FnAction>>)
        requires
            old(self).spec_pc() < old(self).code().len(),
            old(self).spec_pc() < usize::MAX,
        ensures
            ({
                let (res, t) = push_next(old(self).frame(old(engine)), v);
                final(self).stepped(final(engine), old(self), old(engine), res, t, r)
            }),
    {
        engine.stack.push(v);
        self.pc = self.pc + 1;
        Ok(None)
    }
}

impl FnCall {
    /// Completes the floating-point instruction at the program counter with
    /// its result, computed by the driver from the request that `step` or
    /// `invoke` reported: pushes it and moves to the next instruction. Fails
    /// with `WrongType`, changing nothing, where that instruction is no such
    /// instruction or produces another kind of value.
    pub fn resume_with(&mut self, engine: &mut JEngine, value: JValue) -> (r: JResult<()>)
        ensures
            final(self).code() == old(self).code(),
            final(self).spec_lp() == old(self).spec_lp(),
            final(self).spec_sp() == old(self).spec_sp(),
            final(engine).objects_len() == old(engine).objects_len(),
            ({
                let s = old(self).frame(old(engine));
                let code = old(self).code();
                if 0 <= s.pc < code.len() && float_result_fits(code[s.pc], value) {
                    r is Ok && final(self).frame(final(engine)) == Frame {
                        pc: s.pc + 1,
                        stack: s.stack.push(value),
                        ..s
                    }
                } else {
                    r == Err::<(), FnError>(FnError::WrongType) && final(self).frame(final(engine))
                        == s
                }
            }),
    {
        let code = &self.f.code;
        if self.pc >= code.len() {
            return Err(FnError::WrongType);
        }
        let fits = match (code[self.pc], value) {
            (Opcode::Fadd, JValue::Float(_)) | (Opcode::Fsub, JValue::Float(_)) | (
                Opcode::D2f,
                JValue::Float(_),
            ) | (Opcode::I2f, JValue::Float(_)) | (Opcode::L2f, JValue::Float(_)) => true,
            (Opcode::F2i, JValue::Int(_)) | (Opcode::D2i, JValue::Int(_)) => true,
            (Opcode::F2l, JValue::Long(_)) | (Opcode::D2l, JValue::Long(_)) => true,
            (Opcode::F2d, JValue::Double(_)) | (Opcode::I2d, JValue::Double(_)) | (
                Opcode::L2d,
                JValue::Double(_),
            ) => true,
            _ => false,
        };
        if !fits {
            return Err(FnError::WrongType);
        }
        engine.stack.push(value);
        self.pc = self.pc + 1;
        Ok(())
    }

    /// Runs the frame until an instruction stops it: returns the action of
    /// that instruction, or its failure. What it returns is what iterating
    /// `step_spec` from the frame's state reaches, unless the count of steps
    /// reached its largest value (`StepLimit`).
    pub fn invoke(&mut self, engine: &mut JEngine) -> (r: FnResult)
        ensures
            final(self).code() == old(self).code(),
            final(self).spec_lp() == old(self).spec_lp(),
            final(self).spec_sp() == old(self).spec_sp(),
            final(engine).objects_len() == old(engine).objects_len(),
            r != Err::<FnAction, FnError>(FnError::StepLimit) ==> exists|n: nat|
                run(old(self).code(), old(self).frame(old(engine)), n) == Some(
                    (reported(r), final(self).frame(final(engine))),
                ),
            r == Err::<FnAction, FnError>(FnError::StepLimit) ==> run(
                old(self).code(),
                old(self).frame(old(engine)),
                u64::MAX as nat,
            ) is None,
    {
        let ghost code = self.code();
        let ghost s0 = self.frame(engine);
        let ghost mut taken: nat = 0;
        let mut budget: u64 = u64::MAX;
        loop
            invariant
                self.code() == code,
                code == old(self).code(),
                s0 == old(self).frame(old(engine)),
                self.spec_lp() == old(self).spec_lp(),
                self.spec_sp() == old(self).spec_sp(),
                engine.objects_len() == old(engine).objects_len(),
                forall|k: nat| #[trigger]
                    run(code, self.frame(engine), k) == run(code, s0, k + taken),
                taken + budget == u64::MAX,
                run(code, s0, taken) is None,
            decreases budget,
        {
            if budget == 0 {
                return Err(FnError::StepLimit);
            }
            budget = budget - 1;
            let ghost cur = self.frame(engine);
            let ghost before = taken;
            match self.step(engine) {
                Ok(None) => {
                    proof {
                        taken = taken + 1;
                        assert(run(code, cur, 1) == run(code, self.frame(engine), 0));
                        assert(run(code, cur, 1) == run(code, s0, 1 + before));
                        assert forall|k: nat| #[trigger]
                            run(code, self.frame(engine), k) == run(code, s0, k + taken) by {
                            assert(run(code, cur, k + 1) == run(code, self.frame(engine), k));
                            assert(run(code, cur, k + 1) == run(code, s0, (k + 1) + before));
                        }
                    }
                },
                Ok(Some(a)) => {
                    proof {
                        assert(run(code, cur, 1) == Some(
                            (StepResult::Finish(a), self.frame(engine)),
                        ));
                        assert(run(code, s0, 1 + taken) == run(code, cur, 1));
                    }
                    return Ok(a);
                },
                Err(e) => {
                    proof {
                        assert(run(code, cur, 1) == Some((StepResult::Fail(e), self.frame(engine))));
                        assert(run(code, s0, 1 + taken) == run(code, cur, 1));
                    }
                    return Err(e);
                },
            }
        }
    }
}

/// An object-array load whose index lies outside the array fails with
/// `ArrayIndexOutOfBounds`; the frame is left with its two operands popped
/// and nothing else changed. A run from there (what `invoke` reports) ends
/// with that failure at once.
pub proof fn lemma_aaload_out_of_bounds(code: Seq<Opcode>, s: Frame, a: ArrayRef, i: int)
    requires
        0 <= s.pc < code.len(),
        code[s.pc] == Opcode::Aaload,
        s.stack.len() >= 2,
        s.stack[s.stack.len() - 2] == JValue::ObjectArray(a),
        index_of(s.stack[s.stack.len() - 1]) == Some(i),
        a.0 < s.arrays.len(),
        s.arrays[a.0 as int] is Object,
        i < 0 || i >= s.arrays[a.0 as int]->Object_0.len(),
    ensures
        step_spec(code, s) == (
            StepResult::Fail(FnError::ArrayIndexOutOfBounds),
            Frame { stack: s.stack.subrange(0, s.stack.len() - 2), ..s },
        ),
        forall|n: nat|
            n >= 1 ==> #[trigger] run(code, s, n) == Some(
                (
                    StepResult::Fail(FnError::ArrayIndexOutOfBounds),
                    Frame { stack: s.stack.subrange(0, s.stack.len() - 2), ..s },
                ),
            ),
{
    assert forall|n: nat| n >= 1 implies #[trigger] run(code, s, n) == Some(
        (
            StepResult::Fail(FnError::ArrayIndexOutOfBounds),
            Frame { stack: s.stack.subrange(0, s.stack.len() - 2), ..s },
        ),
    ) by {
        assert(step_spec(code, s).0 is Fail);
    }
}

/// The bits that a float-constant instruction pushes.
pub open spec fn float_constant(op: Opcode) -> Option<u32> {
    match op {
        Opcode::Fconst0 => Some(FLOAT_ZERO),
        Opcode::Fconst1 => Some(FLOAT_ONE),
        Opcode::Fconst2 => Some(FLOAT_TWO),
        _ => None,
    }
}

/// A frame over two float constants, `fadd` or `fsub`, and `freturn` asks
/// its driver for exactly that sum or difference of the two constants (the
/// deeper one first), with its stack emptied; once the result is handed
/// back, it returns that value.
pub proof fn lemma_float_arithmetic_frame(code: Seq<Opcode>, s: Frame, v: JValue)
    requires
        code.len() == 4,
        float_constant(code[0]) is Some,
        float_constant(code[1]) is Some,
        code[2] == Opcode::Fadd || code[2] == Opcode::Fsub,
        code[3] == Opcode::Freturn,
        s.pc == 0,
        s.stack.len() == 0,
        v is Float,
    ensures
        ({
            let a = float_constant(code[0])->Some_0;
            let b = float_constant(code[1])->Some_0;
            let request = if code[2] == Opcode::Fadd {
                FloatOp::Fadd(a, b)
            } else {
                FloatOp::Fsub(a, b)
            };
            forall|n: nat|
                n >= 3 ==> #[trigger] run(code, s, n) == Some(
                    (
                        StepResult::Finish(FnAction::Float(request)),
                        Frame { pc: 2, stack: Seq::empty(), ..s },
                    ),
                )
        }),
        forall|n: nat|
            n >= 1 ==> #[trigger] run(code, Frame { pc: 3, stack: seq![v], ..s }, n) == Some(
                (
                    StepResult::Finish(FnAction::Return(v)),
                    Frame { pc: 3, stack: Seq::empty(), ..s },
                ),
            ),
{
    let a = float_constant(code[0])->Some_0;
    let b = float_constant(code[1])->Some_0;
    let s1 = Frame { pc: 1, stack: seq![JValue::Float(a)], ..s };
    let s2 = Frame { pc: 2, stack: seq![JValue::Float(a), JValue::Float(b)], ..s };
    assert(step_spec(code, s) == (StepResult::Continue, s1)) by {
        assert(s.stack.push(JValue::Float(a)) =~= seq![JValue::Float(a)]);
    }
    assert(step_spec(code, s1) == (StepResult::Continue, s2)) by {
        assert(s1.stack.push(JValue::Float(b)) =~= seq![JValue::Float(a), JValue::Float(b)]);
    }
    assert(s2.stack.subrange(0, 0) =~= Seq::<JValue>::empty());
    let request = if code[2] == Opcode::Fadd {
        FloatOp::Fadd(a, b)
    } else {
        FloatOp::Fsub(a, b)
    };
    let done = Frame { pc: 2, stack: Seq::empty(), ..s };
    assert(step_spec(code, s2) == (StepResult::Finish(FnAction::Float(request)), done));
    assert forall|n: nat| n >= 3 implies #[trigger] run(code, s, n) == Some(
        (StepResult::Finish(FnAction::Float(request)), done),
    ) by {
        assert(run(code, s, n) == run(code, s1, (n - 1) as nat));
        assert(run(code, s1, (n - 1) as nat) == run(code, s2, (n - 2) as nat));
    }
    let s3 = Frame { pc: 3, stack: seq![v], ..s };
    assert(s3.stack.drop_last() =~= Seq::<JValue>::empty());
    assert forall|n: nat| n >= 1 implies #[trigger] run(code, s3, n) == Some(
        (StepResult::Finish(FnAction::Return(v)), Frame { pc: 3, stack: Seq::empty(), ..s }),
    ) by {
        assert(step_spec(code, s3).0 is Finish);
    }
}

} // verus!
