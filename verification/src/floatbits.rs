use vstd::prelude::*;

use crate::errors::InternalError;
use crate::frame::FrameView;
use crate::jvm::{
    Exec,
    JVM,
    StepError,
    drop_frame,
    get_local_value,
    outcome,
    pop_value,
    push_done,
    push_returned,
    runs,
    set_local_value,
    then,
};
use crate::types::Type;

verus! {

/// The bits of the `float` 1.0.
pub const FLOAT_ONE: u32 = 0x3F80_0000u32;

/// The bits of the `float` 2.0.
pub const FLOAT_TWO: u32 = 0x4000_0000u32;

/// The bits of the `double` 1.0.
pub const DOUBLE_ONE: u64 = 0x3FF0_0000_0000_0000u64;

/// `fload`: pushes local `index` when it holds a `float`.
pub open spec fn fload_spec(s: Seq<FrameView>, index: usize) -> Exec<Option<Type>> {
    then(
        get_local_value(s, index),
        |s1: Seq<FrameView>, v: Type|
            if v is Float {
                push_done(s1, v)
            } else {
                Exec::Fail(s1, StepError::Internal(InternalError::WrongType("Float", v)))
            },
    )
}

/// `dload`: pushes local `index` when it holds a `double`.
pub open spec fn dload_spec(s: Seq<FrameView>, index: usize) -> Exec<Option<Type>> {
    then(
        get_local_value(s, index),
        |s1: Seq<FrameView>, v: Type|
            if v is Double {
                push_done(s1, v)
            } else {
                Exec::Fail(s1, StepError::Internal(InternalError::WrongType("Double", v)))
            },
    )
}

/// `fstore`: pops a `float` into local `index`.
pub open spec fn fstore_spec(s: Seq<FrameView>, index: usize) -> Exec<Option<Type>> {
    then(
        pop_value(s),
        |s1: Seq<FrameView>, v: Type|
            if v is Float {
                then(set_local_value(s1, index, v), |s2: Seq<FrameView>, u: ()| Exec::Done(s2, None::<Type>))
            } else {
                Exec::Fail(s1, StepError::Internal(InternalError::WrongType("Number", v)))
            },
    )
}

/// `freturn`: pops a `float`, drops the current frame, pushes the value on the
/// caller's stack (if any) and returns it.
pub open spec fn freturn_spec(s: Seq<FrameView>) -> Exec<Option<Type>> {
    then(
        pop_value(s),
        |s1: Seq<FrameView>, v: Type|
            if v is Float {
                Exec::Done(push_returned(drop_frame(s1), v), Some(v))
            } else {
                Exec::Fail(s1, StepError::Internal(InternalError::WrongType("Float", v)))
            },
    )
}

impl JVM {
    /// `fload`.
    pub fn exec_fload(&mut self, index: usize) -> (r: Result<Option<Type>, StepError>)
        ensures
            outcome(fload_spec(old(self)@, index), final(self)@, r),
            final(self).counter == old(self).counter,
    {
        let value = self.load_local(index)?;
        match value {
            Type::Float(_) => self.push_and_finish(value),
            _ => Err(StepError::Internal(InternalError::WrongType("Float", value))),
        }
    }

    /// `dload`.
    pub fn exec_dload(&mut self, index: usize) -> (r: Result<Option<Type>, StepError>)
        ensures
            outcome(dload_spec(old(self)@, index), final(self)@, r),
            final(self).counter == old(self).counter,
    {
        let value = self.load_local(index)?;
        match value {
            Type::Double(_) => self.push_and_finish(value),
            _ => Err(StepError::Internal(InternalError::WrongType("Double", value))),
        }
    }

    /// `fstore`.
    pub fn exec_fstore(&mut self, index: usize) -> (r: Result<Option<Type>, StepError>)
        requires
            runs(fstore_spec(old(self)@, index)),
        ensures
            outcome(fstore_spec(old(self)@, index), final(self)@, r),
            final(self).counter == old(self).counter,
    {
        let value = self.pop_stack()?;
        let bits = match value.as_float() {
            Ok(b) => b,
            Err(e) => {
                return Err(StepError::Internal(e));
            },
        };
        self.store_local(index, Type::Float(bits))?;
        Ok(None)
    }

    /// `fconst_<n>`: pushes the `float` of the given bits.
    pub fn exec_fconst(&mut self, bits: u32) -> (r: Result<Option<Type>, StepError>)
        ensures
            outcome(push_done(old(self)@, Type::Float(bits)), final(self)@, r),
            final(self).counter == old(self).counter,
    {
        self.push_and_finish(Type::Float(bits))
    }

    /// `dconst_<n>`: pushes the `double` of the given bits.
    pub fn exec_dconst(&mut self, bits: u64) -> (r: Result<Option<Type>, StepError>)
        ensures
            outcome(push_done(old(self)@, Type::Double(bits)), final(self)@, r),
            final(self).counter == old(self).counter,
    {
        self.push_and_finish(Type::Double(bits))
    }

    /// `freturn`.
    pub fn exec_freturn(&mut self) -> (r: Result<Option<Type>, StepError>)
        requires
            runs(freturn_spec(old(self)@)),
        ensures
            outcome(freturn_spec(old(self)@), final(self)@, r),
            final(self).counter == old(self).counter,
    {
        let value = self.pop_stack()?;
        match value {
            Type::Float(_) => {
                self.return_value(value);
                Ok(Some(value))
            },
            _ => Err(StepError::Internal(InternalError::WrongType("Float", value))),
        }
    }
}

} // verus!
