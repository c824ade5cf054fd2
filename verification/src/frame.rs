use vstd::prelude::*;

use crate::errors::InternalError;
use crate::types::Type;
use crate::utils::{be_u16_at, be_u32_at, ju1, ju2, ju4, read_u16_at, read_u32_at};

verus! {

/// The activation record of one method invocation: its code with the program
/// counter, its operand stack and its local variables.
#[derive(Debug, Clone)]
pub struct Frame {
    pc: usize,
    last_opcode_pc: usize,
    class: String,
    func_name: String,
    func_type: String,
    code: Vec<ju1>,
    stack: Vec<Type>,
    local: Vec<Type>,
}

/// The mathematical content of a frame.
pub struct FrameView {
    pub pc: usize,
    pub last_opcode_pc: usize,
    pub class: Seq<char>,
    pub func_name: Seq<char>,
    pub func_type: Seq<char>,
    pub code: Seq<u8>,
    /// The operand stack, bottom first.
    pub stack: Seq<Type>,
    pub locals: Seq<Type>,
}

impl View for Frame {
    type V = FrameView;

    closed spec fn view(&self) -> FrameView {
        FrameView {
            pc: self.pc,
            last_opcode_pc: self.last_opcode_pc,
            class: self.class@,
            func_name: self.func_name@,
            func_type: self.func_type@,
            code: self.code@,
            stack: self.stack@,
            locals: self.local@,
        }
    }
}

/// The same frame with a different operand stack.
pub open spec fn with_stack(f: FrameView, stack: Seq<Type>) -> FrameView {
    FrameView { stack, ..f }
}

/// The same frame with a different program counter.
pub open spec fn with_pc(f: FrameView, pc: usize) -> FrameView {
    FrameView { pc, ..f }
}

/// The same frame with a different start of the current instruction.
pub open spec fn with_last_pc(f: FrameView, last_opcode_pc: usize) -> FrameView {
    FrameView { last_opcode_pc, ..f }
}

/// The same frame with different local variables.
pub open spec fn with_locals(f: FrameView, locals: Seq<Type>) -> FrameView {
    FrameView { locals, ..f }
}

/// The target of a branch of `offset` from the instruction that starts at `at`.
pub open spec fn branch_target(at: usize, offset: i16) -> int {
    at as int + offset as int
}

impl Frame {
    /// A frame at the start of `code`, with an empty operand stack and the
    /// arguments as its local variables.
    pub fn new(class: String, func_name: String, func_type: String, code: Vec<ju1>, args: Vec<Type>) -> (f: Frame)
        ensures
            f@.pc == 0,
            f@.last_opcode_pc == 0,
            f@.class == class@,
            f@.func_name == func_name@,
            f@.func_type == func_type@,
            f@.code == code@,
            f@.stack == Seq::<Type>::empty(),
            f@.locals == args@,
    {
        Frame { pc: 0, last_opcode_pc: 0, class, func_name, func_type, code, stack: Vec::new(), local: args }
    }

    /// Reads the opcode byte at the program counter and remembers where the
    /// instruction starts.
    pub fn read_current_opcode(&mut self) -> (r: Result<ju1, InternalError>)
        ensures
            old(self)@.pc < old(self)@.code.len() ==> r == Ok::<ju1, InternalError>(old(self)@.code[old(self)@.pc as int])
                && final(self)@ == with_pc(with_last_pc(old(self)@, old(self)@.pc), (old(self)@.pc + 1) as usize),
            old(self)@.pc >= old(self)@.code.len() ==> r == Err::<ju1, InternalError>(InternalError::EndOfCode)
                && final(self)@ == with_last_pc(old(self)@, old(self)@.pc),
    {
        self.last_opcode_pc = self.pc;
        self.read_ju1()
    }

    /// Reads the byte at the program counter and moves past it.
    pub fn read_ju1(&mut self) -> (r: Result<ju1, InternalError>)
        ensures
            old(self)@.pc < old(self)@.code.len() ==> r == Ok::<ju1, InternalError>(old(self)@.code[old(self)@.pc as int])
                && final(self)@ == with_pc(old(self)@, (old(self)@.pc + 1) as usize),
            old(self)@.pc >= old(self)@.code.len() ==> r == Err::<ju1, InternalError>(InternalError::EndOfCode)
                && final(self)@ == old(self)@,
    {
        if self.pc >= self.code.len() {
            return Err(InternalError::EndOfCode);
        }
        let op = self.code[self.pc];
        self.pc = self.pc + 1;
        Ok(op)
    }

    /// Reads the big-endian 16-bit quantity at the program counter and moves past it.
    pub fn read_ju2(&mut self) -> (r: Result<ju2, InternalError>)
        ensures
            old(self)@.pc + 2 <= old(self)@.code.len() ==> r == Ok::<ju2, InternalError>(
                be_u16_at(old(self)@.code, old(self)@.pc as int),
            ) && final(self)@ == with_pc(old(self)@, (old(self)@.pc + 2) as usize),
            old(self)@.pc + 2 > old(self)@.code.len() ==> r == Err::<ju2, InternalError>(InternalError::EndOfCode)
                && final(self)@ == old(self)@,
    {
        if self.pc >= self.code.len() || self.code.len() - self.pc < 2 {
            return Err(InternalError::EndOfCode);
        }
        let index = read_u16_at(self.code.as_slice(), self.pc);
        self.pc = self.pc + 2;
        Ok(index)
    }

    /// Reads the big-endian 32-bit quantity at the program counter and moves past it.
    pub fn read_ju4(&mut self) -> (r: Result<ju4, InternalError>)
        ensures
            old(self)@.pc + 4 <= old(self)@.code.len() ==> r == Ok::<ju4, InternalError>(
                be_u32_at(old(self)@.code, old(self)@.pc as int),
            ) && final(self)@ == with_pc(old(self)@, (old(self)@.pc + 4) as usize),
            old(self)@.pc + 4 > old(self)@.code.len() ==> r == Err::<ju4, InternalError>(InternalError::EndOfCode)
                && final(self)@ == old(self)@,
    {
        if self.pc >= self.code.len() || self.code.len() - self.pc < 4 {
            return Err(InternalError::EndOfCode);
        }
        let index = read_u32_at(self.code.as_slice(), self.pc);
        self.pc = self.pc + 4;
        Ok(index)
    }

    /// Stores `value` into local variable `index`.
    pub fn set_local(&mut self, index: usize, value: Type)
        requires
            index < old(self)@.locals.len(),
        ensures
            final(self)@ == with_locals(old(self)@, old(self)@.locals.update(index as int, value)),
    {
        self.local.set(index, value);
    }

    /// The value of local variable `index`.
    pub fn get_local(&self, index: usize) -> (r: Result<&Type, InternalError>)
        ensures
            index < self@.locals.len() ==> (r matches Ok(v) && *v == self@.locals[index as int]),
            index >= self@.locals.len() ==> (r matches Err(e) && e == InternalError::LocalOutOfRange(
                index,
                self@.locals.len() as usize,
            )),
    {
        if index >= self.local.len() {
            return Err(InternalError::LocalOutOfRange(index, self.local.len()));
        }
        Ok(&self.local[index])
    }

    /// The number of local variables.
    pub fn locals_len(&self) -> (n: usize)
        ensures
            n == self@.locals.len(),
    {
        self.local.len()
    }

    /// The name of the method this frame runs.
    pub fn get_func_name(&self) -> (r: &str)
        ensures
            r@ == self@.func_name,
    {
        self.func_name.as_str()
    }

    /// The descriptor of the method this frame runs.
    pub fn get_func_type(&self) -> (r: &str)
        ensures
            r@ == self@.func_type,
    {
        self.func_type.as_str()
    }

    /// The method's code.
    pub fn get_code(&self) -> (r: &Vec<ju1>)
        ensures
            r@ == self@.code,
    {
        &self.code
    }

    /// The length of the method's code.
    pub fn get_code_length(&self) -> (r: usize)
        ensures
            r == self@.code.len(),
    {
        self.code.len()
    }

    /// The program counter.
    pub fn get_pc(&self) -> (r: usize)
        ensures
            r == self@.pc,
    {
        self.pc
    }

    /// Where the instruction being executed starts.
    pub fn get_last_opcode_pc(&self) -> (r: usize)
        ensures
            r == self@.last_opcode_pc,
    {
        self.last_opcode_pc
    }

    /// Sets where the instruction being executed starts.
    pub fn _set_last_opcode_pc(&mut self, pc: usize)
        ensures
            final(self)@ == with_last_pc(old(self)@, pc),
    {
        self.last_opcode_pc = pc;
    }

    /// Whether a branch of `offset` from the current instruction stays before the
    /// end of the code.
    pub fn can_jump_by(&self, offset: i16) -> (r: bool)
        requires
            self@.last_opcode_pc + 32768 <= i32::MAX,
            self@.code.len() <= i32::MAX,
        ensures
            r == (branch_target(self@.last_opcode_pc, offset) < self@.code.len()),
    {
        (self.last_opcode_pc as i32 + offset as i32) < self.code.len() as i32
    }

    /// Moves the program counter to `offset` from the start of the current
    /// instruction (a negative target wraps around, leaving the counter past the
    /// end of the code).
    pub fn jump_by(&mut self, offset: i16)
        requires
            old(self)@.last_opcode_pc + 32768 <= i32::MAX,
        ensures
            final(self)@ == with_pc(old(self)@, branch_target(old(self)@.last_opcode_pc, offset) as usize),
    {
        let target: i32 = self.last_opcode_pc as i32 + offset as i32;
        self.pc = target as usize;
    }

    /// Moves the program counter to `pc`.
    pub fn jump_to(&mut self, pc: usize)
        ensures
            final(self)@ == with_pc(old(self)@, pc),
    {
        self.pc = pc;
    }

    /// The class whose method this frame runs.
    pub fn get_classname(&self) -> (r: &String)
        ensures
            r@ == self@.class,
    {
        &self.class
    }

    /// Pushes a value on the operand stack.
    pub fn push_stack(&mut self, value: Type)
        ensures
            final(self)@ == with_stack(old(self)@, old(self)@.stack.push(value)),
    {
        self.stack.push(value);
    }

    /// Pops the value on top of the operand stack.
    pub fn pop_stack(&mut self) -> (r: Result<Type, InternalError>)
        ensures
            old(self)@.stack.len() > 0 ==> r == Ok::<Type, InternalError>(old(self)@.stack.last())
                && final(self)@ == with_stack(old(self)@, old(self)@.stack.drop_last()),
            old(self)@.stack.len() == 0 ==> r == Err::<Type, InternalError>(InternalError::EmptyStack)
                && final(self)@ == old(self)@,
    {
        match self.stack.pop() {
            Some(v) => Ok(v),
            None => Err(InternalError::EmptyStack),
        }
    }

    /// The number of values on the operand stack.
    pub fn stack_len(&self) -> (n: usize)
        ensures
            n == self@.stack.len(),
    {
        self.stack.len()
    }
}

/// Popping right after pushing gives the pushed value back and leaves the frame
/// as it was before the push.
pub proof fn lemma_push_pop(f: FrameView, v: Type)
    ensures
        with_stack(f, f.stack.push(v)).stack.last() == v,
        with_stack(with_stack(f, f.stack.push(v)), with_stack(f, f.stack.push(v)).stack.drop_last()) == f,
{
    assert(f.stack.push(v).drop_last() =~= f.stack);
}

} // verus!
