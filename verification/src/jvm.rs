use vstd::prelude::*;

use crate::errors::{InternalError, JavaException};
use crate::opcode::{OpCode, opcode_of};
use crate::frame::{Frame, FrameView, branch_target, with_locals, with_pc, with_stack};
use crate::types::{Type, category, int_value, is_int_kind, long_value};
use crate::class_loader::loader::{ClassLoader, Search, method_code, method_search};
use crate::text::{index_of_from};
use crate::floatbits::{DOUBLE_ONE, FLOAT_ONE, FLOAT_TWO, dload_spec, fload_spec, freturn_spec, fstore_spec};
use crate::utils::{
    class_name_of, default_value_of, get_argument_class_names, get_default_value, param_types_from, parameter_part,
    params_fit, texts_of,
};
use vstd::utf8::is_ascii_chars;

verus! {

/// Why an instruction did not complete: a failure of the machine itself, or a
/// Java exception that the program may catch.
#[derive(Debug)]
pub enum StepError {
    Internal(InternalError),
    Java(JavaException),
    /// A constant-pool entry that the instruction names is missing or of
    /// another kind.
    Format(crate::class_loader::format::FormatError),
    /// A failure of the running program that the machine does not turn into a
    /// Java exception.
    Runtime(crate::errors::RuntimeError),
}

/// The execution state of the interpreter: the stack of frames (the current frame
/// last) and the number of instructions started. The heap, the loaded classes and
/// the native methods belong to the host that drives the interpreter.
#[derive(Debug)]
pub struct JVM {
    pub frames: Vec<Frame>,
    pub counter: u64,
}

impl View for JVM {
    type V = Seq<FrameView>;

    open spec fn view(&self) -> Seq<FrameView> {
        self.frames@.map_values(|f: Frame| f@)
    }
}

/// The outcome of running part of an instruction on a frame stack: the new frame
/// stack with a result, the new frame stack with an error, or a state on which
/// the machine would stop outright (a failed check of its own).
pub enum Exec<T> {
    Done(Seq<FrameView>, T),
    Fail(Seq<FrameView>, StepError),
    Panic,
}

/// Runs `f` on what `e` gives, when `e` completes.
pub open spec fn then<A, B>(e: Exec<A>, f: spec_fn(Seq<FrameView>, A) -> Exec<B>) -> Exec<B> {
    match e {
        Exec::Done(s, a) => f(s, a),
        Exec::Fail(s, err) => Exec::Fail(s, err),
        Exec::Panic => Exec::Panic,
    }
}

/// Whether an outcome is one on which the machine carries on.
pub open spec fn runs<T>(e: Exec<T>) -> bool {
    !(e is Panic)
}

/// Whether the frame stack `s2` and the result `r` are the outcome `e`.
pub open spec fn outcome<T>(e: Exec<T>, s2: Seq<FrameView>, r: Result<T, StepError>) -> bool {
    match e {
        Exec::Done(s, a) => s2 == s && r == Ok::<T, StepError>(a),
        Exec::Fail(s, err) => s2 == s && r == Err::<T, StepError>(err),
        Exec::Panic => false,
    }
}

/// The frame stack with its current frame replaced by `f`.
pub open spec fn set_top(s: Seq<FrameView>, f: FrameView) -> Seq<FrameView> {
    s.update(s.len() - 1, f)
}

/// The error of an instruction that finds no frame.
pub open spec fn no_frame() -> StepError {
    StepError::Internal(InternalError::FrameNotFound)
}

/// Pushes `v` on the operand stack of the current frame; a value of category two
/// takes two slots (it is pushed twice).
pub open spec fn push_value(s: Seq<FrameView>, v: Type) -> Exec<()> {
    if s.len() == 0 {
        Exec::Fail(s, no_frame())
    } else if v is _Unitialized {
        Exec::Panic
    } else {
        let f = s.last();
        let st = if category(v) == 2 { f.stack.push(v).push(v) } else { f.stack.push(v) };
        Exec::Done(set_top(s, with_stack(f, st)), ())
    }
}

/// Pops the value on top of the operand stack of the current frame; a value of
/// category two takes its second slot with it.
pub open spec fn pop_value(s: Seq<FrameView>) -> Exec<Type> {
    if s.len() == 0 {
        Exec::Fail(s, no_frame())
    } else {
        let f = s.last();
        if f.stack.len() == 0 {
            Exec::Fail(s, StepError::Internal(InternalError::EmptyStack))
        } else {
            let v = f.stack.last();
            let st = f.stack.drop_last();
            if v is _Unitialized {
                Exec::Panic
            } else if category(v) == 2 {
                if st.len() == 0 {
                    Exec::Fail(set_top(s, with_stack(f, st)), StepError::Internal(InternalError::EmptyStack))
                } else {
                    Exec::Done(set_top(s, with_stack(f, st.drop_last())), v)
                }
            } else {
                Exec::Done(set_top(s, with_stack(f, st)), v)
            }
        }
    }
}

/// Pops a value of the integer family, as an `int`.
pub open spec fn pop_int(s: Seq<FrameView>) -> Exec<i32> {
    then(
        pop_value(s),
        |s1: Seq<FrameView>, v: Type|
            if is_int_kind(v) {
                Exec::Done(s1, int_value(v))
            } else {
                Exec::Fail(s1, StepError::Internal(InternalError::WrongType("integer", v)))
            },
    )
}

/// Pops two `int` operands: the second, then the first.
pub open spec fn pop_ints(s: Seq<FrameView>) -> Exec<(i32, i32)> {
    then(pop_int(s), |s1: Seq<FrameView>, b: i32| then(pop_int(s1), |s2: Seq<FrameView>, a: i32| Exec::Done(s2, (a, b))))
}

/// Pops a value that converts to a `long`.
pub open spec fn pop_long(s: Seq<FrameView>) -> Exec<i64> {
    then(
        pop_value(s),
        |s1: Seq<FrameView>, v: Type|
            match long_value(v) {
                Some(l) => Exec::Done(s1, l),
                None => Exec::Fail(s1, StepError::Internal(InternalError::WrongType("Long", v))),
            },
    )
}

/// Pops two `long` operands: the second, then the first.
pub open spec fn pop_longs(s: Seq<FrameView>) -> Exec<(i64, i64)> {
    then(pop_long(s), |s1: Seq<FrameView>, b: i64| then(pop_long(s1), |s2: Seq<FrameView>, a: i64| Exec::Done(s2, (a, b))))
}

/// Whether a value is a reference (to an object or an array, or null).
pub open spec fn is_reference(v: Type) -> bool {
    v is ObjectRef || v is ArrayRef || v is Null
}

/// Pops a reference.
pub open spec fn pop_ref_value(s: Seq<FrameView>) -> Exec<Type> {
    then(
        pop_value(s),
        |s1: Seq<FrameView>, v: Type|
            if is_reference(v) {
                Exec::Done(s1, v)
            } else {
                Exec::Fail(s1, StepError::Internal(InternalError::WrongType("reference", v)))
            },
    )
}

/// Pops two references: the second, then the first.
pub open spec fn pop_refs(s: Seq<FrameView>) -> Exec<(Type, Type)> {
    then(
        pop_ref_value(s),
        |s1: Seq<FrameView>, b: Type| then(pop_ref_value(s1), |s2: Seq<FrameView>, a: Type| Exec::Done(s2, (a, b))),
    )
}

/// Moves the program counter of the current frame to `offset` from the start of
/// the current instruction; a target at or past the end of the code stops the
/// machine.
pub open spec fn jump(s: Seq<FrameView>, offset: i16) -> Exec<()> {
    if s.len() == 0 {
        Exec::Fail(s, no_frame())
    } else {
        let f = s.last();
        if branch_target(f.last_opcode_pc, offset) < f.code.len() {
            Exec::Done(set_top(s, with_pc(f, branch_target(f.last_opcode_pc, offset) as usize)), ())
        } else {
            Exec::Panic
        }
    }
}

/// An instruction that completes without a value to return.
pub open spec fn done(s: Seq<FrameView>, u: ()) -> Exec<Option<Type>> {
    Exec::Done(s, None)
}

/// Whether the current frame's code and the start of its instruction are small
/// enough for branch offsets to be computed in 32 bits.
pub open spec fn jumpable(s: Seq<FrameView>) -> bool {
    s.len() > 0 ==> s.last().last_opcode_pc + 32768 <= i32::MAX && s.last().code.len() <= i32::MAX
}

impl JVM {
    /// An interpreter with no frame.
    pub fn new() -> (r: JVM)
        ensures
            r@ == Seq::<FrameView>::empty(),
            r.counter == 0,
    {
        let r = JVM { frames: Vec::new(), counter: 0 };
        assert(r@ =~= Seq::<FrameView>::empty());
        r
    }

    /// The current frame.
    pub fn get_current_frame(&self) -> (r: Result<&Frame, InternalError>)
        ensures
            self@.len() > 0 ==> (r matches Ok(f) && f@ == self@.last()),
            self@.len() == 0 ==> (r matches Err(e) && e == InternalError::FrameNotFound),
    {
        let n = self.frames.len();
        if n == 0 {
            Err(InternalError::FrameNotFound)
        } else {
            Ok(&self.frames[n - 1])
        }
    }

    /// Puts `f` on top of the frame stack.
    pub fn push_frame(&mut self, f: Frame)
        ensures
            final(self)@ == old(self)@.push(f@),
            final(self).counter == old(self).counter,
    {
        let ghost fv = f@;
        self.frames.push(f);
        assert(self@ =~= old(self)@.push(fv));
    }

    /// Removes the current frame, if there is one.
    pub fn pop_frame(&mut self)
        ensures
            old(self)@.len() > 0 ==> final(self)@ == old(self)@.drop_last(),
            old(self)@.len() == 0 ==> final(self)@ == old(self)@,
            final(self).counter == old(self).counter,
    {
        let _ = self.frames.pop();
        assert(old(self)@.len() > 0 ==> self@ =~= old(self)@.drop_last());
    }

    /// Takes the current frame off the stack for a change (there must be one).
    pub(crate) fn take_top(&mut self) -> (f: Frame)
        requires
            old(self)@.len() > 0,
        ensures
            f@ == old(self)@.last(),
            final(self)@ == old(self)@.drop_last(),
            final(self).counter == old(self).counter,
    {
        let f = self.frames.pop().unwrap();
        assert(self@ =~= old(self)@.drop_last());
        f
    }

    /// Puts back a frame taken by `take_top`.
    pub(crate) fn put_top(&mut self, f: Frame)
        ensures
            final(self)@ == old(self)@.push(f@),
            final(self).counter == old(self).counter,
    {
        self.push_frame(f);
    }

    /// Pushes `value` on the operand stack of the current frame (twice for a value
    /// of category two).
    pub fn push_stack(&mut self, value: Type) -> (r: Result<(), StepError>)
        requires
            runs(push_value(old(self)@, value)),
        ensures
            outcome(push_value(old(self)@, value), final(self)@, r),
            final(self).counter == old(self).counter,
    {
        if self.frames.len() == 0 {
            return Err(StepError::Internal(InternalError::FrameNotFound));
        }
        let mut f = self.take_top();
        f.push_stack(value);
        if value.get_category() == 2 {
            f.push_stack(value);
        }
        self.put_top(f);
        assert(self@ =~= set_top(old(self)@, self@.last()));
        Ok(())
    }

    /// Pops the value on top of the operand stack of the current frame (with its
    /// second slot for a value of category two).
    pub fn pop_stack(&mut self) -> (r: Result<Type, StepError>)
        requires
            runs(pop_value(old(self)@)),
        ensures
            outcome(pop_value(old(self)@), final(self)@, r),
            final(self).counter == old(self).counter,
    {
        if self.frames.len() == 0 {
            return Err(StepError::Internal(InternalError::FrameNotFound));
        }
        let mut f = self.take_top();
        let v = match f.pop_stack() {
            Ok(v) => v,
            Err(e) => {
                self.put_top(f);
                assert(self@ =~= old(self)@);
                return Err(StepError::Internal(e));
            },
        };
        if v.get_category() == 2 {
            match f.pop_stack() {
                Ok(_) => {},
                Err(e) => {
                    self.put_top(f);
                    assert(self@ =~= set_top(old(self)@, self@.last()));
                    return Err(StepError::Internal(e));
                },
            }
        }
        self.put_top(f);
        assert(self@ =~= set_top(old(self)@, self@.last()));
        Ok(v)
    }
}

/// Reads the byte at the program counter of the current frame and moves past it.
pub open spec fn read_u8(s: Seq<FrameView>) -> Exec<u8> {
    if s.len() == 0 {
        Exec::Fail(s, no_frame())
    } else {
        let f = s.last();
        if f.pc < f.code.len() {
            Exec::Done(set_top(s, with_pc(f, (f.pc + 1) as usize)), f.code[f.pc as int])
        } else {
            Exec::Fail(s, StepError::Internal(InternalError::EndOfCode))
        }
    }
}

/// Reads the big-endian 16-bit quantity at the program counter of the current
/// frame and moves past it.
pub open spec fn read_u16(s: Seq<FrameView>) -> Exec<u16> {
    if s.len() == 0 {
        Exec::Fail(s, no_frame())
    } else {
        let f = s.last();
        if f.pc + 2 <= f.code.len() {
            Exec::Done(set_top(s, with_pc(f, (f.pc + 2) as usize)), crate::utils::be_u16_at(f.code, f.pc as int))
        } else {
            Exec::Fail(s, StepError::Internal(InternalError::EndOfCode))
        }
    }
}

impl JVM {
    /// Pops a value of the integer family, as an `int`.
    pub fn pop_ioperand(&mut self) -> (r: Result<i32, StepError>)
        requires
            runs(pop_int(old(self)@)),
        ensures
            outcome(pop_int(old(self)@), final(self)@, r),
            final(self).counter == old(self).counter,
    {
        let v = self.pop_stack()?;
        match v {
            Type::Integer(x) => Ok(x),
            Type::Short(x) => Ok(x as i32),
            Type::Byte(x) => Ok(x as i32),
            Type::Character(x) => Ok(x as i32),
            Type::Boolean(b) => Ok(if b { 1 } else { 0 }),
            _ => Err(StepError::Internal(InternalError::WrongType("integer", v))),
        }
    }

    /// Pops two `int` operands and gives them in push order.
    pub fn pop_ioperands(&mut self) -> (r: Result<(i32, i32), StepError>)
        requires
            runs(pop_ints(old(self)@)),
        ensures
            outcome(pop_ints(old(self)@), final(self)@, r),
            final(self).counter == old(self).counter,
    {
        let v2 = self.pop_ioperand()?;
        let v1 = self.pop_ioperand()?;
        Ok((v1, v2))
    }

    /// Pops a value that converts to a `long`.
    pub fn pop_loperand(&mut self) -> (r: Result<i64, StepError>)
        requires
            runs(pop_long(old(self)@)),
        ensures
            outcome(pop_long(old(self)@), final(self)@, r),
            final(self).counter == old(self).counter,
    {
        let v = self.pop_stack()?;
        match v.as_long() {
            Ok(l) => Ok(l),
            Err(e) => Err(StepError::Internal(e)),
        }
    }

    /// Pops two `long` operands and gives them in push order.
    pub fn pop_loperands(&mut self) -> (r: Result<(i64, i64), StepError>)
        requires
            runs(pop_longs(old(self)@)),
        ensures
            outcome(pop_longs(old(self)@), final(self)@, r),
            final(self).counter == old(self).counter,
    {
        let v2 = self.pop_loperand()?;
        let v1 = self.pop_loperand()?;
        Ok((v1, v2))
    }

    /// Pops a reference (object, array or null).
    pub fn pop_reference(&mut self) -> (r: Result<Type, StepError>)
        requires
            runs(pop_ref_value(old(self)@)),
        ensures
            outcome(pop_ref_value(old(self)@), final(self)@, r),
            final(self).counter == old(self).counter,
    {
        let v = self.pop_stack()?;
        match v {
            Type::ObjectRef(_) | Type::ArrayRef(_) | Type::Null => Ok(v),
            _ => Err(StepError::Internal(InternalError::WrongType("reference", v))),
        }
    }

    /// Pops two references and gives them in push order.
    pub fn pop_references(&mut self) -> (r: Result<(Type, Type), StepError>)
        requires
            runs(pop_refs(old(self)@)),
        ensures
            outcome(pop_refs(old(self)@), final(self)@, r),
            final(self).counter == old(self).counter,
    {
        let v2 = self.pop_reference()?;
        let v1 = self.pop_reference()?;
        Ok((v1, v2))
    }

    /// Reads a one-byte operand of the current instruction.
    pub fn read_operand_u8(&mut self) -> (r: Result<u8, StepError>)
        ensures
            outcome(read_u8(old(self)@), final(self)@, r),
            final(self).counter == old(self).counter,
    {
        if self.frames.len() == 0 {
            return Err(StepError::Internal(InternalError::FrameNotFound));
        }
        let mut f = self.take_top();
        let r = f.read_ju1();
        self.put_top(f);
        match r {
            Ok(b) => {
                assert(self@ =~= set_top(old(self)@, self@.last()));
                Ok(b)
            },
            Err(e) => {
                assert(self@ =~= old(self)@);
                Err(StepError::Internal(e))
            },
        }
    }

    /// Reads a two-byte operand of the current instruction.
    pub fn read_operand_u16(&mut self) -> (r: Result<u16, StepError>)
        ensures
            outcome(read_u16(old(self)@), final(self)@, r),
            final(self).counter == old(self).counter,
    {
        if self.frames.len() == 0 {
            return Err(StepError::Internal(InternalError::FrameNotFound));
        }
        let mut f = self.take_top();
        let r = f.read_ju2();
        self.put_top(f);
        match r {
            Ok(b) => {
                assert(self@ =~= set_top(old(self)@, self@.last()));
                Ok(b)
            },
            Err(e) => {
                assert(self@ =~= old(self)@);
                Err(StepError::Internal(e))
            },
        }
    }

    /// Branches by `offset` from the start of the current instruction.
    pub fn jump_by(&mut self, offset: i16) -> (r: Result<(), StepError>)
        requires
            runs(jump(old(self)@, offset)),
            jumpable(old(self)@),
        ensures
            outcome(jump(old(self)@, offset), final(self)@, r),
            final(self).counter == old(self).counter,
    {
        if self.frames.len() == 0 {
            return Err(StepError::Internal(InternalError::FrameNotFound));
        }
        let mut f = self.take_top();
        if f.can_jump_by(offset) {
            f.jump_by(offset);
            self.put_top(f);
            assert(self@ =~= set_top(old(self)@, self@.last()));
            Ok(())
        } else {
            vstd::pervasive::unreached()
        }
    }
}

/// Pushes `v`; the instruction then completes with nothing to return.
pub open spec fn push_done(s: Seq<FrameView>, v: Type) -> Exec<Option<Type>> {
    then(push_value(s, v), |s2: Seq<FrameView>, u: ()| Exec::Done(s2, None::<Type>))
}

/// Stores `v` into local variable `index` of the current frame; an index past the
/// locals stops the machine.
pub open spec fn set_local_value(s: Seq<FrameView>, index: usize, v: Type) -> Exec<()> {
    if s.len() == 0 {
        Exec::Fail(s, no_frame())
    } else if index >= s.last().locals.len() {
        Exec::Panic
    } else {
        Exec::Done(set_top(s, with_locals(s.last(), s.last().locals.update(index as int, v))), ())
    }
}

/// Reads local variable `index` of the current frame.
pub open spec fn get_local_value(s: Seq<FrameView>, index: usize) -> Exec<Type> {
    if s.len() == 0 {
        Exec::Fail(s, no_frame())
    } else if index >= s.last().locals.len() {
        Exec::Fail(s, StepError::Internal(InternalError::LocalOutOfRange(index, s.last().locals.len() as usize)))
    } else {
        Exec::Done(s, s.last().locals[index as int])
    }
}

/// The frame stack once the current frame is gone (unchanged when there is none).
pub open spec fn drop_frame(s: Seq<FrameView>) -> Seq<FrameView> {
    if s.len() > 0 {
        s.drop_last()
    } else {
        s
    }
}

/// The frame stack once a returned value is pushed on the caller's operand stack,
/// if there is a caller.
pub open spec fn push_returned(s: Seq<FrameView>, v: Type) -> Seq<FrameView> {
    match push_value(s, v) {
        Exec::Done(s2, _u) => s2,
        _ => s,
    }
}

/// An operation of the `int` instructions that cannot fail. `Shr` shifts in
/// zeros, as `Ushr` does.
#[derive(Debug, Clone, Copy, PartialEq, Eq, Structural)]
pub enum IntOp {
    Add,
    Sub,
    Mul,
    And,
    Or,
    Xor,
    Shl,
    Shr,
    Ushr,
}

/// The result of an `int` operation: wrapping arithmetic, bitwise operations, and
/// shifts by the low five bits of the second operand.
pub open spec fn int_op(op: IntOp, a: i32, b: i32) -> i32 {
    match op {
        IntOp::Add => vstd::wrapping::i32_specs::wrapping_add(a, b),
        IntOp::Sub => vstd::wrapping::i32_specs::wrapping_sub(a, b),
        IntOp::Mul => vstd::wrapping::i32_specs::wrapping_mul(a, b),
        IntOp::And => a & b,
        IntOp::Or => a | b,
        IntOp::Xor => a ^ b,
        IntOp::Shl => ((a as u32) << ((b & 31) as u32)) as i32,
        IntOp::Shr => ((a as u32) >> ((b & 31) as u32)) as i32,
        IntOp::Ushr => ((a as u32) >> ((b & 31) as u32)) as i32,
    }
}

/// The quotient of `a` by `b`, rounded toward zero.
pub open spec fn quot(a: int, b: int) -> int {
    if a >= 0 {
        if b > 0 {
            a / b
        } else {
            -(a / (-b))
        }
    } else {
        if b > 0 {
            -((-a) / b)
        } else {
            (-a) / (-b)
        }
    }
}

/// The remainder of `a` by `b` that goes with `quot`: it has the sign of `a`.
pub open spec fn rem(a: int, b: int) -> int {
    let m = if b >= 0 { b } else { -b };
    if a >= 0 {
        a % m
    } else {
        -((-a) % m)
    }
}

/// A quotient is no larger in size than the dividend, and smaller when the
/// divisor is larger than one in size.
pub proof fn lemma_quot_bound(a: int, b: int)
    requires
        b != 0,
    ensures
        (if quot(a, b) >= 0 { quot(a, b) } else { -quot(a, b) }) <= (if a >= 0 { a } else { -a }),
        (b > 1 || b < -1) ==> (if quot(a, b) >= 0 { quot(a, b) } else { -quot(a, b) }) < (if a >= 0 { a } else { -a })
            || a == 0,
{
    if a >= 0 {
        if b > 0 {
            assert(0 <= a / b <= a) by (nonlinear_arith)
                requires
                    a >= 0,
                    b > 0,
            ;
            assert(b > 1 && a > 0 ==> a / b < a) by (nonlinear_arith)
                requires
                    a >= 0,
                    b > 0,
            ;
        } else {
            assert(0 <= a / (-b) <= a) by (nonlinear_arith)
                requires
                    a >= 0,
                    -b > 0,
            ;
            assert(-b > 1 && a > 0 ==> a / (-b) < a) by (nonlinear_arith)
                requires
                    a >= 0,
                    -b > 0,
            ;
        }
    } else {
        if b > 0 {
            assert(0 <= (-a) / b <= -a) by (nonlinear_arith)
                requires
                    -a > 0,
                    b > 0,
            ;
            assert(b > 1 ==> (-a) / b < -a) by (nonlinear_arith)
                requires
                    -a > 0,
                    b > 0,
            ;
        } else {
            assert(0 <= (-a) / (-b) <= -a) by (nonlinear_arith)
                requires
                    -a > 0,
                    -b > 0,
            ;
            assert(-b > 1 ==> (-a) / (-b) < -a) by (nonlinear_arith)
                requires
                    -a > 0,
                    -b > 0,
            ;
        }
    }
}

/// The `int` quotient: rounded toward zero, the one overflow (`MIN / -1`)
/// wrapping to `MIN`.
pub open spec fn idiv_value(a: i32, b: i32) -> i32 {
    if a == i32::MIN && b == -1 {
        i32::MIN
    } else {
        quot(a as int, b as int) as i32
    }
}

/// The `int` negation, `MIN` wrapping to itself.
pub open spec fn ineg_value(a: i32) -> i32 {
    if a == i32::MIN {
        i32::MIN
    } else {
        (-a) as i32
    }
}

/// The condition of an `if<cond>` instruction on `v`.
pub open spec fn if_holds(op: crate::opcode::OpCode, v: i32) -> bool {
    match op {
        crate::opcode::OpCode::IFEQ => v == 0,
        crate::opcode::OpCode::IFNE => v != 0,
        crate::opcode::OpCode::IFLT => v < 0,
        crate::opcode::OpCode::IFLE => v <= 0,
        crate::opcode::OpCode::IFGT => v > 0,
        crate::opcode::OpCode::IFGE => v >= 0,
        _ => false,
    }
}

/// The condition of an `if_icmp<cond>` instruction on `a` and `b`.
pub open spec fn int_compare_holds(op: crate::opcode::OpCode, a: i32, b: i32) -> bool {
    match op {
        crate::opcode::OpCode::IFICMPEQ => a == b,
        crate::opcode::OpCode::IFICMPNE => a != b,
        crate::opcode::OpCode::IFICMPLT => a < b,
        crate::opcode::OpCode::IFICMPLE => a <= b,
        crate::opcode::OpCode::IFICMPGT => a > b,
        crate::opcode::OpCode::IFICMPGE => a >= b,
        _ => false,
    }
}

/// The signed branch offset that an instruction's two operand bytes hold.
pub open spec fn branch_offset(o: u16) -> i16 {
    o as i16
}

/// Branches by `offset` when `taken`; the instruction then completes.
pub open spec fn branch(s: Seq<FrameView>, taken: bool, offset: i16) -> Exec<Option<Type>> {
    if taken {
        then(jump(s, offset), |s2: Seq<FrameView>, u: ()| Exec::Done(s2, None::<Type>))
    } else {
        Exec::Done(s, None)
    }
}

/// `iload`: pushes local `index` when it belongs to the integer family.
pub open spec fn iload_spec(s: Seq<FrameView>, index: usize) -> Exec<Option<Type>> {
    then(
        get_local_value(s, index),
        |s1: Seq<FrameView>, v: Type|
            if is_int_kind(v) {
                push_done(s1, v)
            } else {
                Exec::Fail(s1, StepError::Internal(InternalError::WrongType("integer", v)))
            },
    )
}

/// `istore`: pops a value of the integer family into local `index`.
pub open spec fn istore_spec(s: Seq<FrameView>, index: usize) -> Exec<Option<Type>> {
    then(
        pop_value(s),
        |s1: Seq<FrameView>, v: Type|
            if is_int_kind(v) {
                then(set_local_value(s1, index, v), |s2: Seq<FrameView>, u: ()| Exec::Done(s2, None::<Type>))
            } else {
                Exec::Fail(s1, StepError::Internal(InternalError::WrongType("integer", v)))
            },
    )
}

/// An `int` operation that cannot fail, on the two operands on top of the stack.
pub open spec fn int_op_spec(s: Seq<FrameView>, op: IntOp) -> Exec<Option<Type>> {
    then(pop_ints(s), |s1: Seq<FrameView>, p: (i32, i32)| push_done(s1, Type::Integer(int_op(op, p.0, p.1))))
}

/// `idiv` (or `irem` when `remainder`): a zero divisor throws
/// `ArithmeticException`.
pub open spec fn int_div_spec(s: Seq<FrameView>, remainder: bool) -> Exec<Option<Type>> {
    then(
        pop_ints(s),
        |s1: Seq<FrameView>, p: (i32, i32)|
            if p.1 == 0 {
                Exec::Fail(s1, StepError::Java(JavaException::Arithmetic))
            } else if remainder {
                push_done(s1, Type::Integer(rem(p.0 as int, p.1 as int) as i32))
            } else {
                push_done(s1, Type::Integer(idiv_value(p.0, p.1)))
            },
    )
}

/// A conversion from `int`: the popped operand, converted by `conv`, is pushed.
pub open spec fn int_conv_spec(s: Seq<FrameView>, conv: spec_fn(i32) -> Type) -> Exec<Option<Type>> {
    then(pop_int(s), |s1: Seq<FrameView>, v: i32| push_done(s1, conv(v)))
}

/// `if<cond>`: reads the branch offset, pops an `int` and branches when the
/// condition holds.
pub open spec fn if_spec(s: Seq<FrameView>, op: crate::opcode::OpCode) -> Exec<Option<Type>> {
    then(
        read_u16(s),
        |s1: Seq<FrameView>, o: u16| then(pop_int(s1), |s2: Seq<FrameView>, v: i32| branch(s2, if_holds(op, v), branch_offset(o))),
    )
}

/// `if_icmp<cond>`: reads the branch offset, pops two `int`s and branches when
/// the comparison holds.
pub open spec fn int_compare_branch_spec(s: Seq<FrameView>, op: crate::opcode::OpCode) -> Exec<Option<Type>> {
    then(
        read_u16(s),
        |s1: Seq<FrameView>, o: u16|
            then(pop_ints(s1), |s2: Seq<FrameView>, p: (i32, i32)| branch(s2, int_compare_holds(op, p.0, p.1), branch_offset(o))),
    )
}

/// `iinc`: reads a local index and a signed byte, and adds the byte (wrapping) to
/// the local, which must hold an `int`.
pub open spec fn iinc_spec(s: Seq<FrameView>) -> Exec<Option<Type>> {
    then(
        read_u8(s),
        |s1: Seq<FrameView>, index: u8|
            then(
                read_u8(s1),
                |s2: Seq<FrameView>, c: u8|
                    then(
                        get_local_value(s2, index as usize),
                        |s3: Seq<FrameView>, v: Type|
                            match v {
                                Type::Integer(x) => then(
                                    set_local_value(
                                        s3,
                                        index as usize,
                                        Type::Integer(vstd::wrapping::i32_specs::wrapping_add(x, c as i8 as i32)),
                                    ),
                                    |s4: Seq<FrameView>, u: ()| Exec::Done(s4, None::<Type>),
                                ),
                                _ => Exec::Fail(s3, StepError::Internal(InternalError::WrongType("integer", v))),
                            },
                    ),
            ),
    )
}

/// `ireturn`: pops an `int`, drops the current frame, pushes the value on the
/// caller's stack (if any) and returns it.
pub open spec fn ireturn_spec(s: Seq<FrameView>) -> Exec<Option<Type>> {
    then(
        pop_value(s),
        |s1: Seq<FrameView>, v: Type|
            if is_int_kind(v) {
                Exec::Done(push_returned(drop_frame(s1), v), Some(v))
            } else {
                Exec::Fail(s1, StepError::Internal(InternalError::WrongType("Integer", v)))
            },
    )
}

impl JVM {
    /// Pushes `v` and completes the instruction.
    pub(crate) fn push_and_finish(&mut self, v: Type) -> (r: Result<Option<Type>, StepError>)
        requires
            runs(push_value(old(self)@, v)),
        ensures
            outcome(push_done(old(self)@, v), final(self)@, r),
            final(self).counter == old(self).counter,
    {
        self.push_stack(v)?;
        Ok(None)
    }

    /// Stores `v` into local `index` of the current frame.
    pub(crate) fn store_local(&mut self, index: usize, v: Type) -> (r: Result<(), StepError>)
        requires
            runs(set_local_value(old(self)@, index, v)),
        ensures
            outcome(set_local_value(old(self)@, index, v), final(self)@, r),
            final(self).counter == old(self).counter,
    {
        if self.frames.len() == 0 {
            return Err(StepError::Internal(InternalError::FrameNotFound));
        }
        let mut f = self.take_top();
        f.set_local(index, v);
        self.put_top(f);
        assert(self@ =~= set_top(old(self)@, self@.last()));
        Ok(())
    }

    /// Reads local `index` of the current frame.
    pub(crate) fn load_local(&self, index: usize) -> (r: Result<Type, StepError>)
        ensures
            outcome(get_local_value(self@, index), self@, r),
    {
        let f = match self.get_current_frame() {
            Ok(f) => f,
            Err(e) => {
                return Err(StepError::Internal(e));
            },
        };
        match f.get_local(index) {
            Ok(v) => Ok(*v),
            Err(e) => Err(StepError::Internal(e)),
        }
    }

    /// Pops the returned value's frame and hands the value to the caller.
    pub(crate) fn return_value(&mut self, v: Type)
        requires
            !(v is _Unitialized),
        ensures
            final(self)@ == push_returned(drop_frame(old(self)@), v),
            final(self).counter == old(self).counter,
    {
        self.pop_frame();
        let _ = self.push_stack(v);
    }

    pub fn exec_iload(&mut self, index: usize) -> (r: Result<Option<Type>, StepError>)
        ensures
            outcome(iload_spec(old(self)@, index), final(self)@, r),
            final(self).counter == old(self).counter,
    {
        let value = self.load_local(index)?;
        if value.is_integer() {
            self.push_and_finish(value)
        } else {
            Err(StepError::Internal(InternalError::WrongType("integer", value)))
        }
    }

    pub fn exec_istore(&mut self, index: usize) -> (r: Result<Option<Type>, StepError>)
        requires
            runs(istore_spec(old(self)@, index)),
        ensures
            outcome(istore_spec(old(self)@, index), final(self)@, r),
            final(self).counter == old(self).counter,
    {
        let value = self.pop_stack()?;
        if value.is_integer() {
            self.store_local(index, value)?;
            Ok(None)
        } else {
            Err(StepError::Internal(InternalError::WrongType("integer", value)))
        }
    }

    pub fn exec_iconst(&mut self, num: i32) -> (r: Result<Option<Type>, StepError>)
        ensures
            outcome(push_done(old(self)@, Type::Integer(num)), final(self)@, r),
            final(self).counter == old(self).counter,
    {
        self.push_and_finish(Type::Integer(num))
    }

    /// An `int` operation that cannot fail.
    pub fn exec_int_op(&mut self, op: IntOp) -> (r: Result<Option<Type>, StepError>)
        requires
            runs(int_op_spec(old(self)@, op)),
        ensures
            outcome(int_op_spec(old(self)@, op), final(self)@, r),
            final(self).counter == old(self).counter,
    {
        let (v1, v2) = self.pop_ioperands()?;
        let shift: u32 = (v2 & 0x1F) as u32;
        proof {
            assert(shift < 32) by (bit_vector)
                requires
                    shift == (v2 & 0x1F) as u32,
            ;
        }
        let result = match op {
            IntOp::Add => v1.wrapping_add(v2),
            IntOp::Sub => v1.wrapping_sub(v2),
            IntOp::Mul => v1.wrapping_mul(v2),
            IntOp::And => v1 & v2,
            IntOp::Or => v1 | v2,
            IntOp::Xor => v1 ^ v2,
            IntOp::Shl => ((v1 as u32) << shift) as i32,
            IntOp::Shr => ((v1 as u32) >> shift) as i32,
            IntOp::Ushr => ((v1 as u32) >> shift) as i32,
        };
        self.push_and_finish(Type::Integer(result))
    }

    pub fn exec_iadd(&mut self) -> (r: Result<Option<Type>, StepError>)
        requires
            runs(int_op_spec(old(self)@, IntOp::Add)),
        ensures
            outcome(int_op_spec(old(self)@, IntOp::Add), final(self)@, r),
            final(self).counter == old(self).counter,
    {
        self.exec_int_op(IntOp::Add)
    }

    pub fn exec_isub(&mut self) -> (r: Result<Option<Type>, StepError>)
        requires
            runs(int_op_spec(old(self)@, IntOp::Sub)),
        ensures
            outcome(int_op_spec(old(self)@, IntOp::Sub), final(self)@, r),
            final(self).counter == old(self).counter,
    {
        self.exec_int_op(IntOp::Sub)
    }

    pub fn exec_imul(&mut self) -> (r: Result<Option<Type>, StepError>)
        requires
            runs(int_op_spec(old(self)@, IntOp::Mul)),
        ensures
            outcome(int_op_spec(old(self)@, IntOp::Mul), final(self)@, r),
            final(self).counter == old(self).counter,
    {
        self.exec_int_op(IntOp::Mul)
    }

    pub fn exec_iand(&mut self) -> (r: Result<Option<Type>, StepError>)
        requires
            runs(int_op_spec(old(self)@, IntOp::And)),
        ensures
            outcome(int_op_spec(old(self)@, IntOp::And), final(self)@, r),
            final(self).counter == old(self).counter,
    {
        self.exec_int_op(IntOp::And)
    }

    pub fn exec_ior(&mut self) -> (r: Result<Option<Type>, StepError>)
        requires
            runs(int_op_spec(old(self)@, IntOp::Or)),
        ensures
            outcome(int_op_spec(old(self)@, IntOp::Or), final(self)@, r),
            final(self).counter == old(self).counter,
    {
        self.exec_int_op(IntOp::Or)
    }

    pub fn exec_ixor(&mut self) -> (r: Result<Option<Type>, StepError>)
        requires
            runs(int_op_spec(old(self)@, IntOp::Xor)),
        ensures
            outcome(int_op_spec(old(self)@, IntOp::Xor), final(self)@, r),
            final(self).counter == old(self).counter,
    {
        self.exec_int_op(IntOp::Xor)
    }

    pub fn exec_ishl(&mut self) -> (r: Result<Option<Type>, StepError>)
        requires
            runs(int_op_spec(old(self)@, IntOp::Shl)),
        ensures
            outcome(int_op_spec(old(self)@, IntOp::Shl), final(self)@, r),
            final(self).counter == old(self).counter,
    {
        self.exec_int_op(IntOp::Shl)
    }

    pub fn exec_ishr(&mut self) -> (r: Result<Option<Type>, StepError>)
        requires
            runs(int_op_spec(old(self)@, IntOp::Shr)),
        ensures
            outcome(int_op_spec(old(self)@, IntOp::Shr), final(self)@, r),
            final(self).counter == old(self).counter,
    {
        self.exec_int_op(IntOp::Shr)
    }

    pub fn exec_iushr(&mut self) -> (r: Result<Option<Type>, StepError>)
        requires
            runs(int_op_spec(old(self)@, IntOp::Ushr)),
        ensures
            outcome(int_op_spec(old(self)@, IntOp::Ushr), final(self)@, r),
            final(self).counter == old(self).counter,
    {
        self.exec_int_op(IntOp::Ushr)
    }

    /// `idiv`, or `irem` when `remainder`.
    #[verifier::rlimit(30)]
    fn exec_int_div(&mut self, remainder: bool) -> (r: Result<Option<Type>, StepError>)
        requires
            runs(int_div_spec(old(self)@, remainder)),
        ensures
            outcome(int_div_spec(old(self)@, remainder), final(self)@, r),
            final(self).counter == old(self).counter,
    {
        let (v1, v2) = self.pop_ioperands()?;
        if v2 == 0 {
            return Err(StepError::Java(JavaException::Arithmetic));
        }
        let result = if remainder {
            if v2 == -1 {
                proof {
                    let x = v1 as int;
                    assert(x % 1 == 0 && (-x) % 1 == 0) by (nonlinear_arith);
                    assert(rem(x, -1) == 0);
                }
                0
            } else {
                let r = v1.checked_rem(v2).unwrap();
                assert(r == rem(v1 as int, v2 as int) as i32) by {
                    let x = v1 as int;
                    let d = v2 as int;
                    if x == 0 {
                        let m = if d >= 0 { d } else { -d };
                        assert(0int % m == 0) by (nonlinear_arith)
                            requires
                                m > 0,
                        ;
                    }
                }
                r
            }
        } else if v2 == -1 {
            proof {
                let x = v1 as int;
                assert(x / 1 == x && (-x) / 1 == -x) by (nonlinear_arith);
            }
            if v1 == i32::MIN {
                i32::MIN
            } else {
                -v1
            }
        } else {
            proof {
                lemma_quot_bound(v1 as int, v2 as int);
            }
            let q = v1.checked_div(v2).unwrap();
            assert(q == idiv_value(v1, v2)) by {
                let x = v1 as int;
                let d = v2 as int;
                if x == 0 {
                    let m = if d >= 0 { d } else { -d };
                    assert(0int / m == 0) by (nonlinear_arith)
                        requires
                            m > 0,
                    ;
                }
            }
            q
        };
        self.push_and_finish(Type::Integer(result))
    }

    pub fn exec_idiv(&mut self) -> (r: Result<Option<Type>, StepError>)
        requires
            runs(int_div_spec(old(self)@, false)),
        ensures
            outcome(int_div_spec(old(self)@, false), final(self)@, r),
            final(self).counter == old(self).counter,
    {
        self.exec_int_div(false)
    }

    pub fn exec_irem(&mut self) -> (r: Result<Option<Type>, StepError>)
        requires
            runs(int_div_spec(old(self)@, true)),
        ensures
            outcome(int_div_spec(old(self)@, true), final(self)@, r),
            final(self).counter == old(self).counter,
    {
        self.exec_int_div(true)
    }
}

/// Converts an `int` to a `long`.
pub open spec fn to_long(v: i32) -> Type {
    Type::Long(v as i64)
}

/// Narrows an `int` to a `short` (its low 16 bits, signed).
pub open spec fn to_short(v: i32) -> Type {
    Type::Short(v as i16)
}

/// Narrows an `int` to a character (its low 8 bits, signed, as characters are
/// held here).
pub open spec fn to_char(v: i32) -> Type {
    Type::Character(v as i8)
}

/// Narrows an `int` to a `byte` (its low 8 bits, signed).
pub open spec fn to_byte(v: i32) -> Type {
    Type::Byte(v as i8)
}

/// Negates an `int`.
pub open spec fn negated(v: i32) -> Type {
    Type::Integer(ineg_value(v))
}

impl JVM {
    pub fn exec_ineg(&mut self) -> (r: Result<Option<Type>, StepError>)
        requires
            runs(int_conv_spec(old(self)@, |v: i32| negated(v))),
        ensures
            outcome(int_conv_spec(old(self)@, |v: i32| negated(v)), final(self)@, r),
            final(self).counter == old(self).counter,
    {
        let value = self.pop_ioperand()?;
        let result = if value == i32::MIN {
            i32::MIN
        } else {
            -value
        };
        self.push_and_finish(Type::Integer(result))
    }

    pub fn exec_i2l(&mut self) -> (r: Result<Option<Type>, StepError>)
        requires
            runs(int_conv_spec(old(self)@, |v: i32| to_long(v))),
        ensures
            outcome(int_conv_spec(old(self)@, |v: i32| to_long(v)), final(self)@, r),
            final(self).counter == old(self).counter,
    {
        let value = self.pop_ioperand()?;
        self.push_and_finish(Type::Long(value as i64))
    }

    pub fn exec_i2s(&mut self) -> (r: Result<Option<Type>, StepError>)
        requires
            runs(int_conv_spec(old(self)@, |v: i32| to_short(v))),
        ensures
            outcome(int_conv_spec(old(self)@, |v: i32| to_short(v)), final(self)@, r),
            final(self).counter == old(self).counter,
    {
        let value = self.pop_ioperand()?;
        let short = crate::utils::sign_extend16(value as u16) as i16;
        proof {
            assert((value as u16 as i16 as i32) as i16 == value as i16) by (bit_vector);
        }
        self.push_and_finish(Type::Short(short))
    }

    pub fn exec_i2c(&mut self) -> (r: Result<Option<Type>, StepError>)
        requires
            runs(int_conv_spec(old(self)@, |v: i32| to_char(v))),
        ensures
            outcome(int_conv_spec(old(self)@, |v: i32| to_char(v)), final(self)@, r),
            final(self).counter == old(self).counter,
    {
        let value = self.pop_ioperand()?;
        self.push_and_finish(Type::Character(value as i8))
    }

    pub fn exec_i2b(&mut self) -> (r: Result<Option<Type>, StepError>)
        requires
            runs(int_conv_spec(old(self)@, |v: i32| to_byte(v))),
        ensures
            outcome(int_conv_spec(old(self)@, |v: i32| to_byte(v)), final(self)@, r),
            final(self).counter == old(self).counter,
    {
        let value = self.pop_ioperand()?;
        self.push_and_finish(Type::Byte(value as i8))
    }

    /// Branches by `offset` when `taken`, and completes the instruction.
    fn branch_if(&mut self, taken: bool, offset: i16) -> (r: Result<Option<Type>, StepError>)
        requires
            runs(branch(old(self)@, taken, offset)),
            jumpable(old(self)@),
        ensures
            outcome(branch(old(self)@, taken, offset), final(self)@, r),
            final(self).counter == old(self).counter,
    {
        if taken {
            self.jump_by(offset)?;
        }
        Ok(None)
    }

    /// Reads the two operand bytes of a branch as its offset.
    fn read_branch_offset(&mut self) -> (r: Result<i16, StepError>)
        ensures
            match read_u16(old(self)@) {
                Exec::Done(s, o) => final(self)@ == s && r == Ok::<i16, StepError>(branch_offset(o)),
                Exec::Fail(s, e) => final(self)@ == s && r == Err::<i16, StepError>(e),
                Exec::Panic => false,
            },
            final(self).counter == old(self).counter,
    {
        let o = self.read_operand_u16()?;
        Ok(o as i16)
    }

    /// `if<cond>` for the condition of `opcode`.
    pub fn exec_if(&mut self, opcode: crate::opcode::OpCode) -> (r: Result<Option<Type>, StepError>)
        requires
            runs(if_spec(old(self)@, opcode)),
            jumpable(old(self)@),
        ensures
            outcome(if_spec(old(self)@, opcode), final(self)@, r),
            final(self).counter == old(self).counter,
    {
        let offset = self.read_branch_offset()?;
        let value = self.pop_ioperand()?;
        let taken = match opcode {
            crate::opcode::OpCode::IFEQ => value == 0,
            crate::opcode::OpCode::IFNE => value != 0,
            crate::opcode::OpCode::IFLT => value < 0,
            crate::opcode::OpCode::IFLE => value <= 0,
            crate::opcode::OpCode::IFGT => value > 0,
            crate::opcode::OpCode::IFGE => value >= 0,
            _ => false,
        };
        self.branch_if(taken, offset)
    }

    /// `if_icmp<cond>` for the comparison of `opcode`.
    pub fn exec_if_icmp(&mut self, opcode: crate::opcode::OpCode) -> (r: Result<Option<Type>, StepError>)
        requires
            runs(int_compare_branch_spec(old(self)@, opcode)),
            jumpable(old(self)@),
        ensures
            outcome(int_compare_branch_spec(old(self)@, opcode), final(self)@, r),
            final(self).counter == old(self).counter,
    {
        let offset = self.read_branch_offset()?;
        let (v1, v2) = self.pop_ioperands()?;
        let taken = match opcode {
            crate::opcode::OpCode::IFICMPEQ => v1 == v2,
            crate::opcode::OpCode::IFICMPNE => v1 != v2,
            crate::opcode::OpCode::IFICMPLT => v1 < v2,
            crate::opcode::OpCode::IFICMPLE => v1 <= v2,
            crate::opcode::OpCode::IFICMPGT => v1 > v2,
            crate::opcode::OpCode::IFICMPGE => v1 >= v2,
            _ => false,
        };
        self.branch_if(taken, offset)
    }

    pub fn exec_iinc(&mut self) -> (r: Result<Option<Type>, StepError>)
        requires
            runs(iinc_spec(old(self)@)),
        ensures
            outcome(iinc_spec(old(self)@), final(self)@, r),
            final(self).counter == old(self).counter,
    {
        let index = self.read_operand_u8()? as usize;
        let c = crate::utils::sign_extend8(self.read_operand_u8()?);
        let local = self.load_local(index)?;
        match local {
            Type::Integer(v1) => {
                self.store_local(index, Type::Integer(v1.wrapping_add(c)))?;
                Ok(None)
            },
            _ => Err(StepError::Internal(InternalError::WrongType("integer", local))),
        }
    }

    pub fn exec_ireturn(&mut self) -> (r: Result<Option<Type>, StepError>)
        requires
            runs(ireturn_spec(old(self)@)),
        ensures
            outcome(ireturn_spec(old(self)@), final(self)@, r),
            final(self).counter == old(self).counter,
    {
        let value = self.pop_stack()?;
        if value.is_integer() {
            self.return_value(value);
            Ok(Some(value))
        } else {
            Err(StepError::Internal(InternalError::WrongType("Integer", value)))
        }
    }
}

/// An operation of the `long` instructions that cannot fail (shifts take an
/// `int` shift count and are not among them).
#[derive(Debug, Clone, Copy, PartialEq, Eq, Structural)]
pub enum LongOp {
    Add,
    Sub,
    Mul,
    And,
    Or,
    Xor,
}

/// The result of a `long` operation: wrapping arithmetic and bitwise operations.
pub open spec fn long_op(op: LongOp, a: i64, b: i64) -> i64 {
    match op {
        LongOp::Add => vstd::wrapping::i64_specs::wrapping_add(a, b),
        LongOp::Sub => vstd::wrapping::i64_specs::wrapping_sub(a, b),
        LongOp::Mul => vstd::wrapping::i64_specs::wrapping_mul(a, b),
        LongOp::And => a & b,
        LongOp::Or => a | b,
        LongOp::Xor => a ^ b,
    }
}

/// The `long` quotient: rounded toward zero, `MIN / -1` wrapping to `MIN`.
pub open spec fn ldiv_value(a: i64, b: i64) -> i64 {
    if a == i64::MIN && b == -1 {
        i64::MIN
    } else {
        quot(a as int, b as int) as i64
    }
}

/// The `long` negation, `MIN` wrapping to itself.
pub open spec fn lneg_value(a: i64) -> i64 {
    if a == i64::MIN {
        i64::MIN
    } else {
        (-a) as i64
    }
}

/// A shift of a `long` by the low six bits of an `int`.
#[derive(Debug, Clone, Copy, PartialEq, Eq, Structural)]
pub enum LongShift {
    Shl,
    Shr,
    Ushr,
}

/// The result of a `long` shift: `Shr` keeps the sign, `Ushr` shifts in zeros.
pub open spec fn long_shift(op: LongShift, a: i64, count: i32) -> i64 {
    let c = (count & 63) as u32;
    match op {
        LongShift::Shl => a << c,
        LongShift::Shr => a >> c,
        LongShift::Ushr => ((a as u64) >> c) as i64,
    }
}

/// The result of `lcmp`: 1, 0 or -1 as `a` is greater than, equal to or less
/// than `b`.
pub open spec fn long_compare(a: i64, b: i64) -> i32 {
    if a > b {
        1i32
    } else if a == b {
        0i32
    } else {
        -1i32
    }
}

/// `lload`: pushes local `index` when it holds a `long`.
pub open spec fn lload_spec(s: Seq<FrameView>, index: usize) -> Exec<Option<Type>> {
    then(
        get_local_value(s, index),
        |s1: Seq<FrameView>, v: Type|
            match v {
                Type::Long(_) => push_done(s1, v),
                _ => Exec::Fail(s1, StepError::Internal(InternalError::WrongType("long", v))),
            },
    )
}

/// `lstore`: pops a `long` into locals `index` and `index + 1`.
pub open spec fn lstore_spec(s: Seq<FrameView>, index: usize) -> Exec<Option<Type>> {
    then(
        pop_long(s),
        |s1: Seq<FrameView>, l: i64|
            then(
                set_local_value(s1, index, Type::Long(l)),
                |s2: Seq<FrameView>, u: ()|
                    if index == usize::MAX {
                        Exec::Panic
                    } else {
                        then(
                            set_local_value(s2, (index + 1) as usize, Type::Long(l)),
                            |s3: Seq<FrameView>, u2: ()| Exec::Done(s3, None::<Type>),
                        )
                    },
            ),
    )
}

/// A `long` operation that cannot fail, on the two operands on top of the stack.
pub open spec fn long_op_spec(s: Seq<FrameView>, op: LongOp) -> Exec<Option<Type>> {
    then(pop_longs(s), |s1: Seq<FrameView>, p: (i64, i64)| push_done(s1, Type::Long(long_op(op, p.0, p.1))))
}

/// `ldiv` (or `lrem` when `remainder`): a zero divisor throws
/// `ArithmeticException`.
pub open spec fn long_div_spec(s: Seq<FrameView>, remainder: bool) -> Exec<Option<Type>> {
    then(
        pop_longs(s),
        |s1: Seq<FrameView>, p: (i64, i64)|
            if p.1 == 0 {
                Exec::Fail(s1, StepError::Java(JavaException::Arithmetic))
            } else if remainder {
                push_done(s1, Type::Long(rem(p.0 as int, p.1 as int) as i64))
            } else {
                push_done(s1, Type::Long(ldiv_value(p.0, p.1)))
            },
    )
}

/// A `long` shift: pops the `int` count, then the `long`.
pub open spec fn long_shift_spec(s: Seq<FrameView>, op: LongShift) -> Exec<Option<Type>> {
    then(
        pop_int(s),
        |s1: Seq<FrameView>, c: i32|
            then(pop_long(s1), |s2: Seq<FrameView>, v: i64| push_done(s2, Type::Long(long_shift(op, v, c)))),
    )
}

/// `lcmp`.
pub open spec fn long_compare_spec(s: Seq<FrameView>) -> Exec<Option<Type>> {
    then(pop_longs(s), |s1: Seq<FrameView>, p: (i64, i64)| push_done(s1, Type::Integer(long_compare(p.0, p.1))))
}

/// `l2i`: the low 32 bits of a `long`.
pub open spec fn l2i_spec(s: Seq<FrameView>) -> Exec<Option<Type>> {
    then(pop_long(s), |s1: Seq<FrameView>, v: i64| push_done(s1, Type::Integer(v as i32)))
}

/// `lreturn`: pops a `long`, drops the current frame, pushes the value on the
/// caller's stack (if any) and returns it.
pub open spec fn lreturn_spec(s: Seq<FrameView>) -> Exec<Option<Type>> {
    then(
        pop_long(s),
        |s1: Seq<FrameView>, l: i64| Exec::Done(push_returned(drop_frame(s1), Type::Long(l)), Some(Type::Long(l))),
    )
}

impl JVM {
    pub fn exec_lload(&mut self, index: usize) -> (r: Result<Option<Type>, StepError>)
        ensures
            outcome(lload_spec(old(self)@, index), final(self)@, r),
            final(self).counter == old(self).counter,
    {
        let value = self.load_local(index)?;
        match value {
            Type::Long(_) => self.push_and_finish(value),
            _ => Err(StepError::Internal(InternalError::WrongType("long", value))),
        }
    }

    pub fn exec_lstore(&mut self, index: usize) -> (r: Result<Option<Type>, StepError>)
        requires
            runs(lstore_spec(old(self)@, index)),
        ensures
            outcome(lstore_spec(old(self)@, index), final(self)@, r),
            final(self).counter == old(self).counter,
    {
        let value = self.pop_loperand()?;
        self.store_local(index, Type::Long(value))?;
        self.store_local(index + 1, Type::Long(value))?;
        Ok(None)
    }

    /// A `long` operation that cannot fail.
    pub fn exec_long_op(&mut self, op: LongOp) -> (r: Result<Option<Type>, StepError>)
        requires
            runs(long_op_spec(old(self)@, op)),
        ensures
            outcome(long_op_spec(old(self)@, op), final(self)@, r),
            final(self).counter == old(self).counter,
    {
        let (v1, v2) = self.pop_loperands()?;
        let result = match op {
            LongOp::Add => v1.wrapping_add(v2),
            LongOp::Sub => v1.wrapping_sub(v2),
            LongOp::Mul => v1.wrapping_mul(v2),
            LongOp::And => v1 & v2,
            LongOp::Or => v1 | v2,
            LongOp::Xor => v1 ^ v2,
        };
        self.push_and_finish(Type::Long(result))
    }

    pub fn exec_ladd(&mut self) -> (r: Result<Option<Type>, StepError>)
        requires
            runs(long_op_spec(old(self)@, LongOp::Add)),
        ensures
            outcome(long_op_spec(old(self)@, LongOp::Add), final(self)@, r),
            final(self).counter == old(self).counter,
    {
        self.exec_long_op(LongOp::Add)
    }

    pub fn exec_lsub(&mut self) -> (r: Result<Option<Type>, StepError>)
        requires
            runs(long_op_spec(old(self)@, LongOp::Sub)),
        ensures
            outcome(long_op_spec(old(self)@, LongOp::Sub), final(self)@, r),
            final(self).counter == old(self).counter,
    {
        self.exec_long_op(LongOp::Sub)
    }

    pub fn exec_lmul(&mut self) -> (r: Result<Option<Type>, StepError>)
        requires
            runs(long_op_spec(old(self)@, LongOp::Mul)),
        ensures
            outcome(long_op_spec(old(self)@, LongOp::Mul), final(self)@, r),
            final(self).counter == old(self).counter,
    {
        self.exec_long_op(LongOp::Mul)
    }

    pub fn exec_land(&mut self) -> (r: Result<Option<Type>, StepError>)
        requires
            runs(long_op_spec(old(self)@, LongOp::And)),
        ensures
            outcome(long_op_spec(old(self)@, LongOp::And), final(self)@, r),
            final(self).counter == old(self).counter,
    {
        self.exec_long_op(LongOp::And)
    }

    pub fn exec_lor(&mut self) -> (r: Result<Option<Type>, StepError>)
        requires
            runs(long_op_spec(old(self)@, LongOp::Or)),
        ensures
            outcome(long_op_spec(old(self)@, LongOp::Or), final(self)@, r),
            final(self).counter == old(self).counter,
    {
        self.exec_long_op(LongOp::Or)
    }

    pub fn exec_lxor(&mut self) -> (r: Result<Option<Type>, StepError>)
        requires
            runs(long_op_spec(old(self)@, LongOp::Xor)),
        ensures
            outcome(long_op_spec(old(self)@, LongOp::Xor), final(self)@, r),
            final(self).counter == old(self).counter,
    {
        self.exec_long_op(LongOp::Xor)
    }

    /// `ldiv`, or `lrem` when `remainder`.
    #[verifier::rlimit(30)]
    fn exec_long_div(&mut self, remainder: bool) -> (r: Result<Option<Type>, StepError>)
        requires
            runs(long_div_spec(old(self)@, remainder)),
        ensures
            outcome(long_div_spec(old(self)@, remainder), final(self)@, r),
            final(self).counter == old(self).counter,
    {
        let (v1, v2) = self.pop_loperands()?;
        if v2 == 0 {
            return Err(StepError::Java(JavaException::Arithmetic));
        }
        let result = if remainder {
            if v2 == -1 {
                proof {
                    let x = v1 as int;
                    assert(x % 1 == 0 && (-x) % 1 == 0) by (nonlinear_arith);
                    assert(rem(x, -1) == 0);
                }
                0
            } else {
                let r = v1.checked_rem(v2).unwrap();
                assert(r == rem(v1 as int, v2 as int) as i64) by {
                    let x = v1 as int;
                    let d = v2 as int;
                    if x == 0 {
                        let m = if d >= 0 { d } else { -d };
                        assert(0int % m == 0) by (nonlinear_arith)
                            requires
                                m > 0,
                        ;
                    }
                }
                r
            }
        } else if v2 == -1 {
            proof {
                let x = v1 as int;
                assert(x / 1 == x && (-x) / 1 == -x) by (nonlinear_arith);
            }
            if v1 == i64::MIN {
                i64::MIN
            } else {
                -v1
            }
        } else {
            proof {
                lemma_quot_bound(v1 as int, v2 as int);
            }
            let q = v1.checked_div(v2).unwrap();
            assert(q == ldiv_value(v1, v2)) by {
                let x = v1 as int;
                let d = v2 as int;
                if x == 0 {
                    let m = if d >= 0 { d } else { -d };
                    assert(0int / m == 0) by (nonlinear_arith)
                        requires
                            m > 0,
                    ;
                }
            }
            q
        };
        self.push_and_finish(Type::Long(result))
    }

    pub fn exec_ldiv(&mut self) -> (r: Result<Option<Type>, StepError>)
        requires
            runs(long_div_spec(old(self)@, false)),
        ensures
            outcome(long_div_spec(old(self)@, false), final(self)@, r),
            final(self).counter == old(self).counter,
    {
        self.exec_long_div(false)
    }

    pub fn exec_lrem(&mut self) -> (r: Result<Option<Type>, StepError>)
        requires
            runs(long_div_spec(old(self)@, true)),
        ensures
            outcome(long_div_spec(old(self)@, true), final(self)@, r),
            final(self).counter == old(self).counter,
    {
        self.exec_long_div(true)
    }

    pub fn exec_lneg(&mut self) -> (r: Result<Option<Type>, StepError>)
        requires
            runs(then(pop_long(old(self)@), |s1: Seq<FrameView>, v: i64| push_done(s1, Type::Long(lneg_value(v))))),
        ensures
            outcome(
                then(pop_long(old(self)@), |s1: Seq<FrameView>, v: i64| push_done(s1, Type::Long(lneg_value(v)))),
                final(self)@,
                r,
            ),
            final(self).counter == old(self).counter,
    {
        let value = self.pop_loperand()?;
        let result = if value == i64::MIN {
            i64::MIN
        } else {
            -value
        };
        self.push_and_finish(Type::Long(result))
    }

    /// A shift of a `long`.
    pub fn exec_long_shift(&mut self, op: LongShift) -> (r: Result<Option<Type>, StepError>)
        requires
            runs(long_shift_spec(old(self)@, op)),
        ensures
            outcome(long_shift_spec(old(self)@, op), final(self)@, r),
            final(self).counter == old(self).counter,
    {
        let count = self.pop_ioperand()?;
        let value = self.pop_loperand()?;
        let shift: u32 = (count & 0x3F) as u32;
        proof {
            assert(shift < 64) by (bit_vector)
                requires
                    shift == (count & 0x3F) as u32,
            ;
        }
        let result = match op {
            LongShift::Shl => value << shift,
            LongShift::Shr => value >> shift,
            LongShift::Ushr => ((value as u64) >> shift) as i64,
        };
        self.push_and_finish(Type::Long(result))
    }

    pub fn exec_lshl(&mut self) -> (r: Result<Option<Type>, StepError>)
        requires
            runs(long_shift_spec(old(self)@, LongShift::Shl)),
        ensures
            outcome(long_shift_spec(old(self)@, LongShift::Shl), final(self)@, r),
            final(self).counter == old(self).counter,
    {
        self.exec_long_shift(LongShift::Shl)
    }

    pub fn exec_lshr(&mut self) -> (r: Result<Option<Type>, StepError>)
        requires
            runs(long_shift_spec(old(self)@, LongShift::Shr)),
        ensures
            outcome(long_shift_spec(old(self)@, LongShift::Shr), final(self)@, r),
            final(self).counter == old(self).counter,
    {
        self.exec_long_shift(LongShift::Shr)
    }

    pub fn exec_lushr(&mut self) -> (r: Result<Option<Type>, StepError>)
        requires
            runs(long_shift_spec(old(self)@, LongShift::Ushr)),
        ensures
            outcome(long_shift_spec(old(self)@, LongShift::Ushr), final(self)@, r),
            final(self).counter == old(self).counter,
    {
        self.exec_long_shift(LongShift::Ushr)
    }

    pub fn exec_lcmp(&mut self) -> (r: Result<Option<Type>, StepError>)
        requires
            runs(long_compare_spec(old(self)@)),
        ensures
            outcome(long_compare_spec(old(self)@), final(self)@, r),
            final(self).counter == old(self).counter,
    {
        let (v1, v2) = self.pop_loperands()?;
        let value: i32 = if v1 > v2 {
            1
        } else if v1 == v2 {
            0
        } else {
            -1
        };
        self.push_and_finish(Type::Integer(value))
    }

    pub fn exec_lconst(&mut self, value: u16) -> (r: Result<Option<Type>, StepError>)
        ensures
            outcome(push_done(old(self)@, Type::Long(value as i64)), final(self)@, r),
            final(self).counter == old(self).counter,
    {
        self.push_and_finish(Type::Long(value as i64))
    }

    pub fn exec_l2i(&mut self) -> (r: Result<Option<Type>, StepError>)
        requires
            runs(l2i_spec(old(self)@)),
        ensures
            outcome(l2i_spec(old(self)@), final(self)@, r),
            final(self).counter == old(self).counter,
    {
        let value = self.pop_loperand()?;
        self.push_and_finish(Type::Integer(value as i32))
    }

    pub fn exec_lreturn(&mut self) -> (r: Result<Option<Type>, StepError>)
        requires
            runs(lreturn_spec(old(self)@)),
        ensures
            outcome(lreturn_spec(old(self)@), final(self)@, r),
            final(self).counter == old(self).counter,
    {
        let value = Type::Long(self.pop_loperand()?);
        self.return_value(value);
        Ok(Some(value))
    }
}

/// `aload`: pushes local `index` when it holds a reference.
pub open spec fn aload_spec(s: Seq<FrameView>, index: usize) -> Exec<Option<Type>> {
    then(
        get_local_value(s, index),
        |s1: Seq<FrameView>, v: Type|
            if is_reference(v) {
                push_done(s1, v)
            } else {
                Exec::Fail(s1, StepError::Internal(InternalError::WrongType("reference", v)))
            },
    )
}

/// `astore`: pops a reference into local `index`.
pub open spec fn astore_spec(s: Seq<FrameView>, index: usize) -> Exec<Option<Type>> {
    then(
        pop_ref_value(s),
        |s1: Seq<FrameView>, v: Type|
            then(set_local_value(s1, index, v), |s2: Seq<FrameView>, u: ()| Exec::Done(s2, None::<Type>)),
    )
}

/// The condition of an `if_acmp<cond>` instruction on two references.
pub open spec fn ref_compare_holds(op: crate::opcode::OpCode, a: Type, b: Type) -> bool {
    (op == crate::opcode::OpCode::IFACMPEQ && a == b) || (op == crate::opcode::OpCode::IFACMPNE && a != b)
}

/// `if_acmp<cond>`: reads the offset, pops two references, branches on the
/// comparison.
pub open spec fn ref_compare_branch_spec(s: Seq<FrameView>, op: crate::opcode::OpCode) -> Exec<Option<Type>> {
    then(
        read_u16(s),
        |s1: Seq<FrameView>, o: u16|
            then(pop_refs(s1), |s2: Seq<FrameView>, p: (Type, Type)| branch(s2, ref_compare_holds(op, p.0, p.1), branch_offset(o))),
    )
}

/// `areturn`: pops a reference, drops the current frame, pushes the value on the
/// caller's stack (if any) and returns it.
pub open spec fn areturn_spec(s: Seq<FrameView>) -> Exec<Option<Type>> {
    then(pop_ref_value(s), |s1: Seq<FrameView>, v: Type| Exec::Done(push_returned(drop_frame(s1), v), Some(v)))
}

/// `ifnull` (or `ifnonnull` when `on_null` is false): reads the offset, pops a
/// value and branches when it is (or is not) null.
pub open spec fn null_branch_spec(s: Seq<FrameView>, on_null: bool) -> Exec<Option<Type>> {
    then(
        read_u16(s),
        |s1: Seq<FrameView>, o: u16|
            then(pop_value(s1), |s2: Seq<FrameView>, v: Type| branch(s2, (v == Type::Null) == on_null, branch_offset(o))),
    )
}

/// `goto`: reads the offset and branches.
pub open spec fn goto_spec(s: Seq<FrameView>) -> Exec<Option<Type>> {
    then(read_u16(s), |s1: Seq<FrameView>, o: u16| branch(s1, true, branch_offset(o)))
}

/// `bipush`: pushes the signed operand byte as an `int`.
pub open spec fn bipush_spec(s: Seq<FrameView>) -> Exec<Option<Type>> {
    then(read_u8(s), |s1: Seq<FrameView>, b: u8| push_done(s1, Type::Integer(b as i8 as i32)))
}

/// `sipush`: pushes the signed two operand bytes as a `short`.
pub open spec fn sipush_spec(s: Seq<FrameView>) -> Exec<Option<Type>> {
    then(
        read_u8(s),
        |s1: Seq<FrameView>, b1: u8|
            then(read_u8(s1), |s2: Seq<FrameView>, b2: u8| push_done(s2, Type::Short(crate::utils::be_u16(b1, b2) as i16))),
    )
}

/// `pop`: drops the value on top of the stack.
pub open spec fn pop_spec(s: Seq<FrameView>) -> Exec<Option<Type>> {
    then(pop_value(s), |s1: Seq<FrameView>, v: Type| Exec::Done(s1, None::<Type>))
}

/// `pop2`: drops one value of category two, or two of category one (a second of
/// another category stops the machine).
pub open spec fn pop2_spec(s: Seq<FrameView>) -> Exec<Option<Type>> {
    then(
        pop_value(s),
        |s1: Seq<FrameView>, v1: Type|
            if category(v1) == 1 {
                then(
                    pop_value(s1),
                    |s2: Seq<FrameView>, v2: Type|
                        if category(v2) == 1 {
                            Exec::Done(s2, None::<Type>)
                        } else {
                            Exec::Panic
                        },
                )
            } else {
                Exec::Done(s1, None::<Type>)
            },
    )
}

/// Pushes `a`, then `b`.
pub open spec fn push2(s: Seq<FrameView>, a: Type, b: Type) -> Exec<()> {
    then(push_value(s, a), |s1: Seq<FrameView>, u: ()| push_value(s1, b))
}

/// Pushes `a`, `b`, then `c`.
pub open spec fn push3(s: Seq<FrameView>, a: Type, b: Type, c: Type) -> Exec<()> {
    then(push2(s, a, b), |s1: Seq<FrameView>, u: ()| push_value(s1, c))
}

/// Pushes `a`, `b`, `c`, then `d`.
pub open spec fn push4(s: Seq<FrameView>, a: Type, b: Type, c: Type, d: Type) -> Exec<()> {
    then(push3(s, a, b, c), |s1: Seq<FrameView>, u: ()| push_value(s1, d))
}

/// Completes an instruction once `e` has run.
pub open spec fn finish(e: Exec<()>) -> Exec<Option<Type>> {
    then(e, |s: Seq<FrameView>, u: ()| Exec::Done(s, None::<Type>))
}

/// `dup`: pops the top value and pushes it twice.
pub open spec fn dup_spec(s: Seq<FrameView>) -> Exec<Option<Type>> {
    then(pop_value(s), |s1: Seq<FrameView>, v: Type| finish(push2(s1, v, v)))
}

/// `dup_x1`: pops two values of category one and pushes the top one, the other,
/// and the top one again.
pub open spec fn dupx1_spec(s: Seq<FrameView>) -> Exec<Option<Type>> {
    then(
        pop_value(s),
        |s1: Seq<FrameView>, v1: Type|
            then(
                pop_value(s1),
                |s2: Seq<FrameView>, v2: Type|
                    if category(v1) == 1 && category(v2) == 1 {
                        finish(push3(s2, v1, v2, v1))
                    } else {
                        Exec::Panic
                    },
            ),
    )
}

/// `dup_x2`: the top value goes under the next one of category two, or under the
/// next two of category one.
pub open spec fn dupx2_spec(s: Seq<FrameView>) -> Exec<Option<Type>> {
    then(
        pop_value(s),
        |s1: Seq<FrameView>, v1: Type|
            then(
                pop_value(s1),
                |s2: Seq<FrameView>, v2: Type|
                    if category(v1) == 1 && category(v2) == 2 {
                        finish(push3(s2, v1, v2, v1))
                    } else if category(v1) == 1 && category(v2) == 1 {
                        then(
                            pop_value(s2),
                            |s3: Seq<FrameView>, v3: Type|
                                if category(v3) == 1 {
                                    finish(push4(s3, v1, v3, v2, v1))
                                } else {
                                    Exec::Panic
                                },
                        )
                    } else {
                        Exec::Done(s2, None::<Type>)
                    },
            ),
    )
}

/// `dup2`: duplicates one value of category two, or the two top values of
/// category one.
pub open spec fn dup2_spec(s: Seq<FrameView>) -> Exec<Option<Type>> {
    then(
        pop_value(s),
        |s1: Seq<FrameView>, v1: Type|
            if category(v1) == 2 {
                finish(push2(s1, v1, v1))
            } else if category(v1) == 1 {
                then(
                    pop_value(s1),
                    |s2: Seq<FrameView>, v2: Type|
                        if category(v2) == 1 {
                            finish(push4(s2, v2, v1, v2, v1))
                        } else {
                            Exec::Panic
                        },
                )
            } else {
                Exec::Done(s1, None::<Type>)
            },
    )
}

/// `return`: drops the current frame and returns nothing.
pub open spec fn return_spec(s: Seq<FrameView>) -> Exec<Option<Type>> {
    Exec::Done(drop_frame(s), Some(Type::Void))
}

impl JVM {
    pub fn exec_aconstnull(&mut self) -> (r: Result<Option<Type>, StepError>)
        ensures
            outcome(push_done(old(self)@, Type::Null), final(self)@, r),
            final(self).counter == old(self).counter,
    {
        self.push_and_finish(Type::Null)
    }

    pub fn exec_aload(&mut self, index: usize) -> (r: Result<Option<Type>, StepError>)
        ensures
            outcome(aload_spec(old(self)@, index), final(self)@, r),
            final(self).counter == old(self).counter,
    {
        let value = self.load_local(index)?;
        match value {
            Type::ObjectRef(_) | Type::ArrayRef(_) | Type::Null => self.push_and_finish(value),
            _ => Err(StepError::Internal(InternalError::WrongType("reference", value))),
        }
    }

    pub fn exec_astore(&mut self, index: usize) -> (r: Result<Option<Type>, StepError>)
        requires
            runs(astore_spec(old(self)@, index)),
        ensures
            outcome(astore_spec(old(self)@, index), final(self)@, r),
            final(self).counter == old(self).counter,
    {
        let value = self.pop_reference()?;
        self.store_local(index, value)?;
        Ok(None)
    }

    /// `if_acmp<cond>` for the comparison of `opcode`.
    pub fn exec_if_acmp(&mut self, opcode: crate::opcode::OpCode) -> (r: Result<Option<Type>, StepError>)
        requires
            runs(ref_compare_branch_spec(old(self)@, opcode)),
            jumpable(old(self)@),
        ensures
            outcome(ref_compare_branch_spec(old(self)@, opcode), final(self)@, r),
            final(self).counter == old(self).counter,
    {
        let offset = self.read_branch_offset()?;
        let (value1, value2) = self.pop_references()?;
        let eq = value1 == value2;
        let taken = (opcode == crate::opcode::OpCode::IFACMPEQ && eq) || (opcode == crate::opcode::OpCode::IFACMPNE && !eq);
        self.branch_if(taken, offset)
    }

    pub fn exec_areturn(&mut self) -> (r: Result<Option<Type>, StepError>)
        requires
            runs(areturn_spec(old(self)@)),
        ensures
            outcome(areturn_spec(old(self)@), final(self)@, r),
            final(self).counter == old(self).counter,
    {
        let value = self.pop_reference()?;
        self.return_value(value);
        Ok(Some(value))
    }

    /// `ifnull`, or `ifnonnull` when `on_null` is false.
    fn exec_null_branch(&mut self, on_null: bool) -> (r: Result<Option<Type>, StepError>)
        requires
            runs(null_branch_spec(old(self)@, on_null)),
            jumpable(old(self)@),
        ensures
            outcome(null_branch_spec(old(self)@, on_null), final(self)@, r),
            final(self).counter == old(self).counter,
    {
        let offset = self.read_branch_offset()?;
        let value = self.pop_stack()?;
        let is_null = match value {
            Type::Null => true,
            _ => false,
        };
        self.branch_if(is_null == on_null, offset)
    }

    pub fn exec_ifnull(&mut self) -> (r: Result<Option<Type>, StepError>)
        requires
            runs(null_branch_spec(old(self)@, true)),
            jumpable(old(self)@),
        ensures
            outcome(null_branch_spec(old(self)@, true), final(self)@, r),
            final(self).counter == old(self).counter,
    {
        self.exec_null_branch(true)
    }

    pub fn exec_ifnonnull(&mut self) -> (r: Result<Option<Type>, StepError>)
        requires
            runs(null_branch_spec(old(self)@, false)),
            jumpable(old(self)@),
        ensures
            outcome(null_branch_spec(old(self)@, false), final(self)@, r),
            final(self).counter == old(self).counter,
    {
        self.exec_null_branch(false)
    }

    pub fn exec_goto(&mut self) -> (r: Result<Option<Type>, StepError>)
        requires
            runs(goto_spec(old(self)@)),
            jumpable(old(self)@),
        ensures
            outcome(goto_spec(old(self)@), final(self)@, r),
            final(self).counter == old(self).counter,
    {
        let offset = self.read_branch_offset()?;
        self.branch_if(true, offset)
    }

    pub fn exec_bipush(&mut self) -> (r: Result<Option<Type>, StepError>)
        ensures
            outcome(bipush_spec(old(self)@), final(self)@, r),
            final(self).counter == old(self).counter,
    {
        let byte = self.read_operand_u8()?;
        self.push_and_finish(Type::Integer(crate::utils::sign_extend8(byte)))
    }

    pub fn exec_sipush(&mut self) -> (r: Result<Option<Type>, StepError>)
        ensures
            outcome(sipush_spec(old(self)@), final(self)@, r),
            final(self).counter == old(self).counter,
    {
        let byte1 = self.read_operand_u8()?;
        let byte2 = self.read_operand_u8()?;
        let value = crate::utils::sign_extend16(byte1 as u16 * 256 + byte2 as u16);
        proof {
            let w = (byte1 as u16 * 256 + byte2 as u16) as u16;
            assert((w as i16 as i32) as i16 == w as i16) by (bit_vector);
        }
        self.push_and_finish(Type::Short(value as i16))
    }

    pub fn exec_pop(&mut self) -> (r: Result<Option<Type>, StepError>)
        requires
            runs(pop_spec(old(self)@)),
        ensures
            outcome(pop_spec(old(self)@), final(self)@, r),
            final(self).counter == old(self).counter,
    {
        self.pop_stack()?;
        Ok(None)
    }

    pub fn exec_pop2(&mut self) -> (r: Result<Option<Type>, StepError>)
        requires
            runs(pop2_spec(old(self)@)),
        ensures
            outcome(pop2_spec(old(self)@), final(self)@, r),
            final(self).counter == old(self).counter,
    {
        let value1 = self.pop_stack()?;
        if value1.get_category() == 1 {
            let _value2 = self.pop_stack()?;
        }
        Ok(None)
    }

    pub fn exec_dup(&mut self) -> (r: Result<Option<Type>, StepError>)
        requires
            runs(dup_spec(old(self)@)),
        ensures
            outcome(dup_spec(old(self)@), final(self)@, r),
            final(self).counter == old(self).counter,
    {
        let value = self.pop_stack()?;
        self.push_stack(value)?;
        self.push_stack(value)?;
        Ok(None)
    }

    pub fn exec_dupx1(&mut self) -> (r: Result<Option<Type>, StepError>)
        requires
            runs(dupx1_spec(old(self)@)),
        ensures
            outcome(dupx1_spec(old(self)@), final(self)@, r),
            final(self).counter == old(self).counter,
    {
        let value1 = self.pop_stack()?;
        let value2 = self.pop_stack()?;
        self.push_stack(value1)?;
        self.push_stack(value2)?;
        self.push_stack(value1)?;
        Ok(None)
    }

    pub fn exec_dupx2(&mut self) -> (r: Result<Option<Type>, StepError>)
        requires
            runs(dupx2_spec(old(self)@)),
        ensures
            outcome(dupx2_spec(old(self)@), final(self)@, r),
            final(self).counter == old(self).counter,
    {
        let value1 = self.pop_stack()?;
        let value2 = self.pop_stack()?;
        if value1.get_category() == 1 && value2.get_category() == 2 {
            self.push_stack(value1)?;
            self.push_stack(value2)?;
            self.push_stack(value1)?;
        } else if value1.get_category() == 1 && value2.get_category() == 1 {
            let value3 = self.pop_stack()?;
            self.push_stack(value1)?;
            self.push_stack(value3)?;
            self.push_stack(value2)?;
            self.push_stack(value1)?;
        }
        Ok(None)
    }

    pub fn exec_dup2(&mut self) -> (r: Result<Option<Type>, StepError>)
        requires
            runs(dup2_spec(old(self)@)),
        ensures
            outcome(dup2_spec(old(self)@), final(self)@, r),
            final(self).counter == old(self).counter,
    {
        let value1 = self.pop_stack()?;
        if value1.get_category() == 2 {
            self.push_stack(value1)?;
            self.push_stack(value1)?;
        } else if value1.get_category() == 1 {
            let value2 = self.pop_stack()?;
            self.push_stack(value2)?;
            self.push_stack(value1)?;
            self.push_stack(value2)?;
            self.push_stack(value1)?;
        }
        Ok(None)
    }

    pub fn exec_return(&mut self) -> (r: Result<Option<Type>, StepError>)
        ensures
            outcome(return_spec(old(self)@), final(self)@, r),
            final(self).counter == old(self).counter,
    {
        self.pop_frame();
        Ok(Some(Type::Void))
    }
}

/// What a step of the interpreter leaves to do.
#[derive(Debug, Clone, Copy, PartialEq, Eq, Structural)]
pub enum Step {
    /// The instruction ran; a return instruction hands back the returned value.
    Done(Option<Type>),
    /// The instruction works on the heap, the loaded classes, native methods or
    /// floating-point values: its opcode was read, and the host carries it out.
    Host(OpCode),
}

/// The instructions that the host carries out.
pub open spec fn host_op(op: OpCode) -> bool {
    match op {
        OpCode::LDC | OpCode::LDCW | OpCode::LDC2W
        | OpCode::IALOAD | OpCode::LALOAD | OpCode::AALOAD | OpCode::BALOAD | OpCode::CALOAD | OpCode::SALOAD
        | OpCode::DSTORE
        | OpCode::DSTORE0 | OpCode::DSTORE1 | OpCode::DSTORE2 | OpCode::DSTORE3 | OpCode::IASTORE | OpCode::LASTORE
        | OpCode::AASTORE | OpCode::BASTORE | OpCode::CASTORE | OpCode::SASTORE | OpCode::FADD | OpCode::DADD
        | OpCode::FSUB | OpCode::DSUB | OpCode::FMUL | OpCode::DMUL | OpCode::FDIV | OpCode::DDIV | OpCode::FNEG
        | OpCode::DNEG | OpCode::I2F | OpCode::I2D | OpCode::L2F | OpCode::L2D | OpCode::F2I | OpCode::F2L
        | OpCode::F2D | OpCode::D2I | OpCode::D2L | OpCode::FCMPL | OpCode::FCMPG | OpCode::DCMPL | OpCode::DCMPG
        | OpCode::DRETURN | OpCode::GETSTATIC
        | OpCode::PUTSTATIC | OpCode::GETFIELD | OpCode::PUTFIELD | OpCode::INVOKEVIRTUAL | OpCode::INVOKESPECIAL
        | OpCode::INVOKESTATIC | OpCode::INVOKEINTERFACE | OpCode::INVOKEDYNAMIC | OpCode::NEW | OpCode::NEWARRAY
        | OpCode::ANEWARRAY | OpCode::MULTIANEWARRAY | OpCode::ARRAYLENGTH | OpCode::ATHROW | OpCode::CHECKCAST
        | OpCode::INSTANCEOF | OpCode::MONITORENTER | OpCode::MONITOREXIT => true,
        _ => false,
    }
}

/// An instruction's outcome as the outcome of a step.
pub open spec fn as_step(e: Exec<Option<Type>>) -> Exec<Step> {
    then(e, |s: Seq<FrameView>, v: Option<Type>| Exec::Done(s, Step::Done(v)))
}

/// An instruction with a one-byte local index as its operand.
pub open spec fn with_index(s: Seq<FrameView>, f: spec_fn(Seq<FrameView>, usize) -> Exec<Option<Type>>) -> Exec<Step> {
    then(read_u8(s), |s1: Seq<FrameView>, i: u8| as_step(f(s1, i as usize)))
}

/// What the instruction `op` does once its opcode is read.
#[verifier::opaque]
pub open spec fn instruction_spec(s: Seq<FrameView>, op: OpCode) -> Exec<Step> {
    if host_op(op) {
        Exec::Done(s, Step::Host(op))
    } else {
        match op {
            OpCode::ILOAD => with_index(s, |s1: Seq<FrameView>, i: usize| iload_spec(s1, i)),
            OpCode::ILOAD0 => as_step(iload_spec(s, 0)),
            OpCode::ILOAD1 => as_step(iload_spec(s, 1)),
            OpCode::FLOAD => with_index(s, |s1: Seq<FrameView>, i: usize| fload_spec(s1, i)),
            OpCode::FLOAD0 => as_step(fload_spec(s, 0)),
            OpCode::FLOAD1 => as_step(fload_spec(s, 1)),
            OpCode::FLOAD2 => as_step(fload_spec(s, 2)),
            OpCode::FLOAD3 => as_step(fload_spec(s, 3)),
            OpCode::DLOAD => with_index(s, |s1: Seq<FrameView>, i: usize| dload_spec(s1, i)),
            OpCode::DLOAD0 => as_step(dload_spec(s, 0)),
            OpCode::DLOAD1 => as_step(dload_spec(s, 1)),
            OpCode::DLOAD2 => as_step(dload_spec(s, 2)),
            OpCode::DLOAD3 => as_step(dload_spec(s, 3)),
            OpCode::FSTORE => with_index(s, |s1: Seq<FrameView>, i: usize| fstore_spec(s1, i)),
            OpCode::FSTORE0 => as_step(fstore_spec(s, 0)),
            OpCode::FSTORE1 => as_step(fstore_spec(s, 1)),
            OpCode::FSTORE2 => as_step(fstore_spec(s, 2)),
            OpCode::FSTORE3 => as_step(fstore_spec(s, 3)),
            OpCode::FCONST0 => as_step(push_done(s, Type::Float(0))),
            OpCode::FCONST1 => as_step(push_done(s, Type::Float(FLOAT_ONE))),
            OpCode::FCONST2 => as_step(push_done(s, Type::Float(FLOAT_TWO))),
            OpCode::DCONST0 => as_step(push_done(s, Type::Double(0))),
            OpCode::DCONST1 => as_step(push_done(s, Type::Double(DOUBLE_ONE))),
            OpCode::FRETURN => as_step(freturn_spec(s)),
            OpCode::ILOAD2 => as_step(iload_spec(s, 2)),
            OpCode::ILOAD3 => as_step(iload_spec(s, 3)),
            OpCode::ISTORE => with_index(s, |s1: Seq<FrameView>, i: usize| istore_spec(s1, i)),
            OpCode::ISTORE0 => as_step(istore_spec(s, 0)),
            OpCode::ISTORE1 => as_step(istore_spec(s, 1)),
            OpCode::ISTORE2 => as_step(istore_spec(s, 2)),
            OpCode::ISTORE3 => as_step(istore_spec(s, 3)),
            OpCode::IFEQ | OpCode::IFNE | OpCode::IFLT | OpCode::IFLE | OpCode::IFGT | OpCode::IFGE => as_step(
                if_spec(s, op),
            ),
            OpCode::IFICMPEQ | OpCode::IFICMPNE | OpCode::IFICMPLT | OpCode::IFICMPLE | OpCode::IFICMPGT
            | OpCode::IFICMPGE => as_step(int_compare_branch_spec(s, op)),
            OpCode::IADD => as_step(int_op_spec(s, IntOp::Add)),
            OpCode::ISUB => as_step(int_op_spec(s, IntOp::Sub)),
            OpCode::IMUL => as_step(int_op_spec(s, IntOp::Mul)),
            OpCode::IAND => as_step(int_op_spec(s, IntOp::And)),
            OpCode::IOR => as_step(int_op_spec(s, IntOp::Or)),
            OpCode::IXOR => as_step(int_op_spec(s, IntOp::Xor)),
            OpCode::ISHL => as_step(int_op_spec(s, IntOp::Shl)),
            OpCode::ISHR => as_step(int_op_spec(s, IntOp::Shr)),
            OpCode::IUSHR => as_step(int_op_spec(s, IntOp::Ushr)),
            OpCode::IDIV => as_step(int_div_spec(s, false)),
            OpCode::IREM => as_step(int_div_spec(s, true)),
            OpCode::INEG => as_step(int_conv_spec(s, |v: i32| negated(v))),
            OpCode::IINC => as_step(iinc_spec(s)),
            OpCode::IRETURN => as_step(ireturn_spec(s)),
            OpCode::ICONSTM1 => as_step(push_done(s, Type::Integer(-1i32))),
            OpCode::ICONST0 => as_step(push_done(s, Type::Integer(0))),
            OpCode::ICONST1 => as_step(push_done(s, Type::Integer(1))),
            OpCode::ICONST2 => as_step(push_done(s, Type::Integer(2))),
            OpCode::ICONST3 => as_step(push_done(s, Type::Integer(3))),
            OpCode::ICONST4 => as_step(push_done(s, Type::Integer(4))),
            OpCode::ICONST5 => as_step(push_done(s, Type::Integer(5))),
            OpCode::I2L => as_step(int_conv_spec(s, |v: i32| to_long(v))),
            OpCode::I2S => as_step(int_conv_spec(s, |v: i32| to_short(v))),
            OpCode::I2C => as_step(int_conv_spec(s, |v: i32| to_char(v))),
            OpCode::I2B => as_step(int_conv_spec(s, |v: i32| to_byte(v))),
            OpCode::SIPUSH => as_step(sipush_spec(s)),
            OpCode::BIPUSH => as_step(bipush_spec(s)),
            OpCode::LLOAD => with_index(s, |s1: Seq<FrameView>, i: usize| lload_spec(s1, i)),
            OpCode::LLOAD0 => as_step(lload_spec(s, 0)),
            OpCode::LLOAD1 => as_step(lload_spec(s, 1)),
            OpCode::LLOAD2 => as_step(lload_spec(s, 2)),
            OpCode::LLOAD3 => as_step(lload_spec(s, 3)),
            OpCode::LSTORE => with_index(s, |s1: Seq<FrameView>, i: usize| lstore_spec(s1, i)),
            OpCode::LSTORE0 => as_step(lstore_spec(s, 0)),
            OpCode::LSTORE1 => as_step(lstore_spec(s, 1)),
            OpCode::LSTORE2 => as_step(lstore_spec(s, 2)),
            OpCode::LSTORE3 => as_step(lstore_spec(s, 3)),
            OpCode::LADD => as_step(long_op_spec(s, LongOp::Add)),
            OpCode::LSUB => as_step(long_op_spec(s, LongOp::Sub)),
            OpCode::LMUL => as_step(long_op_spec(s, LongOp::Mul)),
            OpCode::LAND => as_step(long_op_spec(s, LongOp::And)),
            OpCode::LOR => as_step(long_op_spec(s, LongOp::Or)),
            OpCode::LXOR => as_step(long_op_spec(s, LongOp::Xor)),
            OpCode::LDIV => as_step(long_div_spec(s, false)),
            OpCode::LREM => as_step(long_div_spec(s, true)),
            OpCode::LNEG => as_step(then(pop_long(s), |s1: Seq<FrameView>, v: i64| push_done(s1, Type::Long(lneg_value(v))))),
            OpCode::LCONST0 => as_step(push_done(s, Type::Long(0))),
            OpCode::LCONST1 => as_step(push_done(s, Type::Long(1))),
            OpCode::L2I => as_step(l2i_spec(s)),
            OpCode::LSHL => as_step(long_shift_spec(s, LongShift::Shl)),
            OpCode::LSHR => as_step(long_shift_spec(s, LongShift::Shr)),
            OpCode::LUSHR => as_step(long_shift_spec(s, LongShift::Ushr)),
            OpCode::LCMP => as_step(long_compare_spec(s)),
            OpCode::LRETURN => as_step(lreturn_spec(s)),
            OpCode::ACONSTNULL => as_step(push_done(s, Type::Null)),
            OpCode::ALOAD => with_index(s, |s1: Seq<FrameView>, i: usize| aload_spec(s1, i)),
            OpCode::ALOAD0 => as_step(aload_spec(s, 0)),
            OpCode::ALOAD1 => as_step(aload_spec(s, 1)),
            OpCode::ALOAD2 => as_step(aload_spec(s, 2)),
            OpCode::ALOAD3 => as_step(aload_spec(s, 3)),
            OpCode::ASTORE => with_index(s, |s1: Seq<FrameView>, i: usize| astore_spec(s1, i)),
            OpCode::ASTORE0 => as_step(astore_spec(s, 0)),
            OpCode::ASTORE1 => as_step(astore_spec(s, 1)),
            OpCode::ASTORE2 => as_step(astore_spec(s, 2)),
            OpCode::ASTORE3 => as_step(astore_spec(s, 3)),
            OpCode::IFACMPEQ | OpCode::IFACMPNE => as_step(ref_compare_branch_spec(s, op)),
            OpCode::ARETURN => as_step(areturn_spec(s)),
            OpCode::NOP => Exec::Done(s, Step::Done(None)),
            OpCode::POP => as_step(pop_spec(s)),
            OpCode::POP2 => as_step(pop2_spec(s)),
            OpCode::DUP => as_step(dup_spec(s)),
            OpCode::DUPX1 => as_step(dupx1_spec(s)),
            OpCode::DUPX2 => as_step(dupx2_spec(s)),
            OpCode::DUP2 => as_step(dup2_spec(s)),
            OpCode::IFNULL => as_step(null_branch_spec(s, true)),
            OpCode::IFNONNULL => as_step(null_branch_spec(s, false)),
            OpCode::GOTO => as_step(goto_spec(s)),
            OpCode::TABLESWITCH => as_step(crate::switch::tableswitch_spec(s)),
            OpCode::LOOKUPSWITCH => as_step(crate::switch::lookupswitch_spec(s)),
            OpCode::RETURN => as_step(return_spec(s)),
            _ => Exec::Fail(s, StepError::Internal(InternalError::NotImplemented)),
        }
    }
}

/// One step of the interpreter: reads the opcode at the program counter of the
/// current frame (remembering where the instruction starts) and runs the
/// instruction.
pub open spec fn step_spec(s: Seq<FrameView>) -> Exec<Step> {
    if s.len() == 0 {
        Exec::Fail(s, no_frame())
    } else {
        let s0 = set_top(s, crate::frame::with_last_pc(s.last(), s.last().pc));
        then(read_u8(s0), |s1: Seq<FrameView>, b: u8| instruction_spec(s1, opcode_of(b)))
    }
}

/// Whether the host carries out the instruction `op`.
pub fn is_host_op(op: OpCode) -> (r: bool)
    ensures
        r == host_op(op),
{
    match op {
        OpCode::LDC | OpCode::LDCW | OpCode::LDC2W
        | OpCode::IALOAD | OpCode::LALOAD | OpCode::AALOAD | OpCode::BALOAD | OpCode::CALOAD | OpCode::SALOAD
        | OpCode::DSTORE
        | OpCode::DSTORE0 | OpCode::DSTORE1 | OpCode::DSTORE2 | OpCode::DSTORE3 | OpCode::IASTORE | OpCode::LASTORE
        | OpCode::AASTORE | OpCode::BASTORE | OpCode::CASTORE | OpCode::SASTORE | OpCode::FADD | OpCode::DADD
        | OpCode::FSUB | OpCode::DSUB | OpCode::FMUL | OpCode::DMUL | OpCode::FDIV | OpCode::DDIV | OpCode::FNEG
        | OpCode::DNEG | OpCode::I2F | OpCode::I2D | OpCode::L2F | OpCode::L2D | OpCode::F2I | OpCode::F2L
        | OpCode::F2D | OpCode::D2I | OpCode::D2L | OpCode::FCMPL | OpCode::FCMPG | OpCode::DCMPL | OpCode::DCMPG
        | OpCode::DRETURN | OpCode::GETSTATIC
        | OpCode::PUTSTATIC | OpCode::GETFIELD | OpCode::PUTFIELD | OpCode::INVOKEVIRTUAL | OpCode::INVOKESPECIAL
        | OpCode::INVOKESTATIC | OpCode::INVOKEINTERFACE | OpCode::INVOKEDYNAMIC | OpCode::NEW | OpCode::NEWARRAY
        | OpCode::ANEWARRAY | OpCode::MULTIANEWARRAY | OpCode::ARRAYLENGTH | OpCode::ATHROW | OpCode::CHECKCAST
        | OpCode::INSTANCEOF | OpCode::MONITORENTER | OpCode::MONITOREXIT => true,
        _ => false,
    }
}

impl JVM {
    /// Reads the one-byte local index that is the operand of the current
    /// instruction.
    fn read_local_index(&mut self) -> (r: Result<usize, StepError>)
        ensures
            match read_u8(old(self)@) {
                Exec::Done(s, i) => final(self)@ == s && r == Ok::<usize, StepError>(i as usize),
                Exec::Fail(s, e) => final(self)@ == s && r == Err::<usize, StepError>(e),
                Exec::Panic => false,
            },
            final(self).counter == old(self).counter,
    {
        let i = self.read_operand_u8()?;
        Ok(i as usize)
    }

    /// Carries out the instruction `op`, whose opcode was just read.
    #[verifier::rlimit(60)]
    fn execute(&mut self, op: OpCode) -> (r: Result<Step, StepError>)
        requires
            runs(instruction_spec(old(self)@, op)),
            jumpable(old(self)@),
        ensures
            outcome(instruction_spec(old(self)@, op), final(self)@, r),
            final(self).counter == old(self).counter,
    {
        reveal(instruction_spec);
        if is_host_op(op) {
            return Ok(Step::Host(op));
        }
        let res = match op {
            OpCode::ILOAD => {
                let i = self.read_local_index()?;
                self.exec_iload(i)
            },
            OpCode::ILOAD0 => self.exec_iload(0),
            OpCode::ILOAD1 => self.exec_iload(1),
            OpCode::FLOAD => {
                let i = self.read_local_index()?;
                self.exec_fload(i)
            },
            OpCode::FLOAD0 => self.exec_fload(0),
            OpCode::FLOAD1 => self.exec_fload(1),
            OpCode::FLOAD2 => self.exec_fload(2),
            OpCode::FLOAD3 => self.exec_fload(3),
            OpCode::DLOAD => {
                let i = self.read_local_index()?;
                self.exec_dload(i)
            },
            OpCode::DLOAD0 => self.exec_dload(0),
            OpCode::DLOAD1 => self.exec_dload(1),
            OpCode::DLOAD2 => self.exec_dload(2),
            OpCode::DLOAD3 => self.exec_dload(3),
            OpCode::FSTORE => {
                let i = self.read_local_index()?;
                self.exec_fstore(i)
            },
            OpCode::FSTORE0 => self.exec_fstore(0),
            OpCode::FSTORE1 => self.exec_fstore(1),
            OpCode::FSTORE2 => self.exec_fstore(2),
            OpCode::FSTORE3 => self.exec_fstore(3),
            OpCode::FCONST0 => self.exec_fconst(0),
            OpCode::FCONST1 => self.exec_fconst(FLOAT_ONE),
            OpCode::FCONST2 => self.exec_fconst(FLOAT_TWO),
            OpCode::DCONST0 => self.exec_dconst(0),
            OpCode::DCONST1 => self.exec_dconst(DOUBLE_ONE),
            OpCode::FRETURN => self.exec_freturn(),
            OpCode::ILOAD2 => self.exec_iload(2),
            OpCode::ILOAD3 => self.exec_iload(3),
            OpCode::ISTORE => {
                let i = self.read_local_index()?;
                self.exec_istore(i)
            },
            OpCode::ISTORE0 => self.exec_istore(0),
            OpCode::ISTORE1 => self.exec_istore(1),
            OpCode::ISTORE2 => self.exec_istore(2),
            OpCode::ISTORE3 => self.exec_istore(3),
            OpCode::IFEQ | OpCode::IFNE | OpCode::IFLT | OpCode::IFLE | OpCode::IFGT | OpCode::IFGE => self.exec_if(op),
            OpCode::IFICMPEQ | OpCode::IFICMPNE | OpCode::IFICMPLT | OpCode::IFICMPLE | OpCode::IFICMPGT
            | OpCode::IFICMPGE => self.exec_if_icmp(op),
            OpCode::IADD => self.exec_iadd(),
            OpCode::ISUB => self.exec_isub(),
            OpCode::IMUL => self.exec_imul(),
            OpCode::IAND => self.exec_iand(),
            OpCode::IOR => self.exec_ior(),
            OpCode::IXOR => self.exec_ixor(),
            OpCode::ISHL => self.exec_ishl(),
            OpCode::ISHR => self.exec_ishr(),
            OpCode::IUSHR => self.exec_iushr(),
            OpCode::IDIV => self.exec_idiv(),
            OpCode::IREM => self.exec_irem(),
            OpCode::INEG => self.exec_ineg(),
            OpCode::IINC => self.exec_iinc(),
            OpCode::IRETURN => self.exec_ireturn(),
            OpCode::ICONSTM1 => self.exec_iconst(-1),
            OpCode::ICONST0 => self.exec_iconst(0),
            OpCode::ICONST1 => self.exec_iconst(1),
            OpCode::ICONST2 => self.exec_iconst(2),
            OpCode::ICONST3 => self.exec_iconst(3),
            OpCode::ICONST4 => self.exec_iconst(4),
            OpCode::ICONST5 => self.exec_iconst(5),
            OpCode::I2L => self.exec_i2l(),
            OpCode::I2S => self.exec_i2s(),
            OpCode::I2C => self.exec_i2c(),
            OpCode::I2B => self.exec_i2b(),
            OpCode::SIPUSH => self.exec_sipush(),
            OpCode::BIPUSH => self.exec_bipush(),
            OpCode::LLOAD => {
                let i = self.read_local_index()?;
                self.exec_lload(i)
            },
            OpCode::LLOAD0 => self.exec_lload(0),
            OpCode::LLOAD1 => self.exec_lload(1),
            OpCode::LLOAD2 => self.exec_lload(2),
            OpCode::LLOAD3 => self.exec_lload(3),
            OpCode::LSTORE => {
                let i = self.read_local_index()?;
                self.exec_lstore(i)
            },
            OpCode::LSTORE0 => self.exec_lstore(0),
            OpCode::LSTORE1 => self.exec_lstore(1),
            OpCode::LSTORE2 => self.exec_lstore(2),
            OpCode::LSTORE3 => self.exec_lstore(3),
            OpCode::LADD => self.exec_ladd(),
            OpCode::LSUB => self.exec_lsub(),
            OpCode::LMUL => self.exec_lmul(),
            OpCode::LAND => self.exec_land(),
            OpCode::LOR => self.exec_lor(),
            OpCode::LXOR => self.exec_lxor(),
            OpCode::LDIV => self.exec_ldiv(),
            OpCode::LREM => self.exec_lrem(),
            OpCode::LNEG => self.exec_lneg(),
            OpCode::LCONST0 => self.exec_lconst(0),
            OpCode::LCONST1 => self.exec_lconst(1),
            OpCode::L2I => self.exec_l2i(),
            OpCode::LSHL => self.exec_lshl(),
            OpCode::LSHR => self.exec_lshr(),
            OpCode::LUSHR => self.exec_lushr(),
            OpCode::LCMP => self.exec_lcmp(),
            OpCode::LRETURN => self.exec_lreturn(),
            OpCode::ACONSTNULL => self.exec_aconstnull(),
            OpCode::ALOAD => {
                let i = self.read_local_index()?;
                self.exec_aload(i)
            },
            OpCode::ALOAD0 => self.exec_aload(0),
            OpCode::ALOAD1 => self.exec_aload(1),
            OpCode::ALOAD2 => self.exec_aload(2),
            OpCode::ALOAD3 => self.exec_aload(3),
            OpCode::ASTORE => {
                let i = self.read_local_index()?;
                self.exec_astore(i)
            },
            OpCode::ASTORE0 => self.exec_astore(0),
            OpCode::ASTORE1 => self.exec_astore(1),
            OpCode::ASTORE2 => self.exec_astore(2),
            OpCode::ASTORE3 => self.exec_astore(3),
            OpCode::IFACMPEQ | OpCode::IFACMPNE => self.exec_if_acmp(op),
            OpCode::ARETURN => self.exec_areturn(),
            OpCode::NOP => Ok(None),
            OpCode::POP => self.exec_pop(),
            OpCode::POP2 => self.exec_pop2(),
            OpCode::DUP => self.exec_dup(),
            OpCode::DUPX1 => self.exec_dupx1(),
            OpCode::DUPX2 => self.exec_dupx2(),
            OpCode::DUP2 => self.exec_dup2(),
            OpCode::IFNULL => self.exec_ifnull(),
            OpCode::IFNONNULL => self.exec_ifnonnull(),
            OpCode::GOTO => self.exec_goto(),
            OpCode::TABLESWITCH => self.exec_tableswitch(),
            OpCode::LOOKUPSWITCH => self.exec_lookupswitch(),
            OpCode::RETURN => self.exec_return(),
            _ => {
                return Err(StepError::Internal(InternalError::NotImplemented));
            },
        };
        match res {
            Ok(v) => Ok(Step::Done(v)),
            Err(e) => Err(e),
        }
    }

    /// Runs one instruction of the current frame: counts it, reads its opcode
    /// (remembering where it starts) and carries it out, or hands it to the host.
    /// The current method's code must be short enough for 32-bit branch targets.
    pub fn step(&mut self) -> (r: Result<Step, StepError>)
        requires
            runs(step_spec(old(self)@)),
            old(self).counter < u64::MAX,
            old(self)@.len() > 0 ==> old(self)@.last().code.len() + 32768 <= i32::MAX,
        ensures
            outcome(step_spec(old(self)@), final(self)@, r),
            final(self).counter == old(self).counter + 1,
    {
        self.counter = self.counter + 1;
        if self.frames.len() == 0 {
            return Err(StepError::Internal(InternalError::FrameNotFound));
        }
        let ghost before = self@;
        let ghost s0 = set_top(before, crate::frame::with_last_pc(before.last(), before.last().pc));
        let mut f = self.take_top();
        let res = f.read_current_opcode();
        self.put_top(f);
        proof {
            if res is Ok {
                assert(self@ =~= set_top(s0, with_pc(s0.last(), (s0.last().pc + 1) as usize)));
            } else {
                assert(self@ =~= s0);
            }
        }
        let b = match res {
            Ok(b) => b,
            Err(e) => {
                return Err(StepError::Internal(e));
            },
        };
        self.execute(OpCode::from_byte(b))
    }
}

/// Popping right after a push gives the pushed value back and leaves the frames
/// as they were before the push (a value of category two included).
pub proof fn lemma_push_then_pop(s: Seq<FrameView>, v: Type)
    requires
        s.len() > 0,
        !(v is _Unitialized),
        category(v) != 0,
    ensures
        push_value(s, v) matches Exec::Done(s1, _u) && pop_value(s1) == Exec::Done(s, v),
{
    let f = s.last();
    let st = if category(v) == 2 { f.stack.push(v).push(v) } else { f.stack.push(v) };
    let s1 = set_top(s, with_stack(f, st));
    assert(s1.last() == with_stack(f, st));
    if category(v) == 2 {
        assert(st.drop_last().drop_last() =~= f.stack);
    } else {
        assert(st.drop_last() =~= f.stack);
    }
    let s2 = match pop_value(s1) {
        Exec::Done(s2, _x) => s2,
        _ => s1,
    };
    assert(s2 =~= s);
}

/// Reading a local right after storing into it gives the stored value.
pub proof fn lemma_store_then_load(s: Seq<FrameView>, index: usize, v: Type)
    requires
        s.len() > 0,
        index < s.last().locals.len(),
    ensures
        set_local_value(s, index, v) matches Exec::Done(s1, _u) && get_local_value(s1, index) == Exec::Done(s1, v),
{
}

/// Quotient and remainder put the dividend back together: `a` is `b` times the
/// quotient plus the remainder, and the remainder is smaller than `b` in size and
/// has the sign of `a` (or is zero).
pub proof fn lemma_quot_rem(a: int, b: int)
    requires
        b != 0,
    ensures
        a == b * quot(a, b) + rem(a, b),
        (if rem(a, b) >= 0 { rem(a, b) } else { -rem(a, b) }) < (if b >= 0 { b } else { -b }),
        a >= 0 ==> rem(a, b) >= 0,
        a <= 0 ==> rem(a, b) <= 0,
{
    let m = if b >= 0 { b } else { -b };
    if a >= 0 {
        vstd::arithmetic::div_mod::lemma_fundamental_div_mod(a, m);
        vstd::arithmetic::div_mod::lemma_mod_bound(a, m);
        if b < 0 {
            assert(b * (-(a / m)) == m * (a / m)) by (nonlinear_arith)
                requires
                    m == -b,
            ;
        }
    } else {
        vstd::arithmetic::div_mod::lemma_fundamental_div_mod(-a, m);
        vstd::arithmetic::div_mod::lemma_mod_bound(-a, m);
        if b > 0 {
            assert(b * (-((-a) / m)) == -(m * ((-a) / m))) by (nonlinear_arith)
                requires
                    m == b,
            ;
        } else {
            assert(b * ((-a) / m) == -(m * ((-a) / m))) by (nonlinear_arith)
                requires
                    m == -b,
            ;
        }
    }
}

/// The class names of the parameters that a method descriptor lists (none when
/// it has no parameter list).
pub open spec fn argument_classes(d: Seq<char>) -> Seq<Seq<char>> {
    match parameter_part(d) {
        Some(p) => param_types_from(p, 0).map_values(|t: Seq<char>| class_name_of(t)),
        None => Seq::empty(),
    }
}

/// Whether a descriptor can be read for its parameters: a `(` before the `)`,
/// and a parameter list of ASCII characters that reads as whole types.
pub open spec fn readable_descriptor(d: Seq<char>) -> bool {
    &&& index_of_from(d, '(', 0) < d.len() && index_of_from(d, ')', 0) < d.len() ==> index_of_from(d, '(', 0)
        < index_of_from(d, ')', 0)
    &&& parameter_part(d) matches Some(p) ==> is_ascii_chars(p) && params_fit(p, 0)
}

/// The local variables of a new frame: the arguments given, the initial value
/// of each parameter class past them, then `max_locals` empty slots.
pub open spec fn frame_locals(args: Seq<Type>, d: Seq<char>, max_locals: u16) -> Seq<Type> {
    let classes = argument_classes(d);
    let missing = if classes.len() > args.len() {
        Seq::new((classes.len() - args.len()) as nat, |i: int| default_value_of(classes[args.len() + i])->0)
    } else {
        Seq::empty()
    };
    args + missing + Seq::new(max_locals as nat, |i: int| Type::Void)
}

impl JVM {
    /// Pushes a frame for the method `method_name` with descriptor
    /// `method_type` found from the class `class_name` (the method must have
    /// code): its locals are `args`, the initial values of the parameters past
    /// them, and the method's local slots.
    pub fn push_frame_from_class(
        &mut self,
        loader: &ClassLoader,
        class_name: &str,
        method_name: &str,
        method_type: &str,
        args: Vec<Type>,
    ) -> (r: Result<(), InternalError>)
        requires
            readable_descriptor(method_type@),
            forall|i: int|
                args@.len() <= i < argument_classes(method_type@).len() ==> default_value_of(
                    #[trigger] argument_classes(method_type@)[i],
                ) is Some,
        ensures
            match method_search(loader.classes_view(), class_name@, method_name@, method_type@, false, loader.classes@.len() as nat) {
                Search::Found((c, m, i)) => if i <= i32::MAX && method_code(m) is Some {
                    r is Ok && final(self)@ == old(self)@.push(
                        FrameView {
                            pc: 0,
                            last_opcode_pc: 0,
                            class: c,
                            func_name: method_name@,
                            func_type: method_type@,
                            code: method_code(m)->0.code,
                            stack: Seq::empty(),
                            locals: frame_locals(args@, method_type@, method_code(m)->0.max_locals),
                        },
                    )
                } else {
                    r is Err && final(self)@ == old(self)@
                },
                _ => r is Err && final(self)@ == old(self)@,
            },
            final(self).counter == old(self).counter,
    {
        let (method_class, code) = loader.get_method_code_by_name(class_name, method_name, method_type)?;
        let max_locals = code.get_max_locals();
        let arg_classes = match get_argument_class_names(method_type) {
            Some(v) => v,
            None => Vec::new(),
        };
        let ghost classes = argument_classes(method_type@);
        assert(texts_of(arg_classes@) =~= classes);
        let mut nargs = args;
        let ghost given = nargs@;
        let mut i = nargs.len();
        assert(nargs@ =~= given + Seq::new(0nat, |k: int| default_value_of(classes[given.len() + k])->0));
        while i < arg_classes.len()
            invariant
                texts_of(arg_classes@) == classes,
                given.len() <= i,
                forall|j: int| given.len() <= j < classes.len() ==> default_value_of(#[trigger] classes[j]) is Some,
                i <= arg_classes@.len() || i == given.len(),
                nargs@ == given + Seq::new(
                    (i - given.len()) as nat,
                    |k: int| default_value_of(classes[given.len() + k])->0,
                ),
            decreases arg_classes@.len() - i,
        {
            assert(classes[i as int] == arg_classes@[i as int]@);
            let value = get_default_value(arg_classes[i].as_str());
            nargs.push(value);
            i = i + 1;
            assert(nargs@ =~= given + Seq::new(
                (i - given.len()) as nat,
                |k: int| default_value_of(classes[given.len() + k])->0,
            ));
        }
        let ghost with_params = nargs@;
        assert(with_params =~= given + (if classes.len() > given.len() {
            Seq::new((classes.len() - given.len()) as nat, |k: int| default_value_of(classes[given.len() + k])->0)
        } else {
            Seq::empty()
        }));
        let mut k: u16 = 0;
        while k < max_locals
            invariant
                k <= max_locals,
                nargs@ == with_params + Seq::new(k as nat, |j: int| Type::Void),
            decreases max_locals - k,
        {
            nargs.push(Type::Void);
            k = k + 1;
            assert(nargs@ =~= with_params + Seq::new(k as nat, |j: int| Type::Void));
        }
        let code_vec = code.get_code_vec().clone();
        assert(code_vec@ =~= code.code@);
        let frame = Frame::new(method_class, method_name.to_string(), method_type.to_string(), code_vec, nargs);
        self.push_frame(frame);
        Ok(())
    }
}

} // verus!
