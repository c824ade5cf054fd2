use vstd::prelude::*;

use crate::class_loader::class_file::ClassFileView;
use crate::class_loader::constant_pool::cp_get;
use crate::class_loader::loader::ClassLoader;
use crate::errors::InternalError;
use crate::frame::FrameView;
use crate::heap::{Heap, array_at, multi_count, multi_ok, unchanged_below};
use crate::instance::array_class_of;
use crate::jvm::{Exec, JVM, StepError, outcome, pop_int, push_done, read_u8, read_u16};
use crate::objects::{class_operand, frame_class};
use crate::types::{Type, element_class};
use crate::utils::slashed;

verus! {

/// Pops `n` dimensions (the last one first); a negative one is an error.
pub open spec fn pop_dims(s: Seq<FrameView>, n: nat) -> Exec<Seq<i32>>
    decreases n,
{
    if n == 0 {
        Exec::Done(s, Seq::empty())
    } else {
        match pop_int(s) {
            Exec::Done(s1, d) => if d < 0 {
                Exec::Fail(s1, StepError::Internal(InternalError::NegativeArraySize(d)))
            } else {
                match pop_dims(s1, (n - 1) as nat) {
                    Exec::Done(s2, rest) => Exec::Done(s2, seq![d] + rest),
                    Exec::Fail(s2, e) => Exec::Fail(s2, e),
                    Exec::Panic => Exec::Panic,
                }
            },
            Exec::Fail(s1, e) => Exec::Fail(s1, e),
            Exec::Panic => Exec::Panic,
        }
    }
}

/// The dimensions in the order they were pushed, as lengths.
pub open spec fn dims_of(popped: Seq<i32>) -> Seq<usize> {
    popped.reverse().map_values(|d: i32| d as usize)
}

/// What `multianewarray` sees before it makes the array: the pool index, the
/// class entry, the number of dimensions and the dimensions.
pub enum MultiOperands {
    /// The frames after the operands, the class name and the dimensions.
    Ready(Seq<FrameView>, Seq<char>, Seq<usize>),
    /// The frames at a failure, and the failure.
    Failed(Seq<FrameView>, StepError),
    /// The current class is not loaded (the frames, and the name looked for).
    NoClass(Seq<FrameView>, Seq<char>),
    /// The machine stops.
    Stops,
}

/// The operands of `multianewarray`.
pub open spec fn multi_operands(s: Seq<FrameView>, cs: Seq<(Seq<char>, ClassFileView)>) -> MultiOperands {
    match read_u16(s) {
        Exec::Done(t, index) => match frame_class(t, cs) {
            None => MultiOperands::NoClass(t, slashed(t.last().class)),
            Some(c) => match cp_get(c.constant_pool, index) {
                Err(e) => MultiOperands::Failed(t, StepError::Format(e)),
                Ok(_) => match read_u8(t) {
                    Exec::Done(t2, n) => match class_operand(c, index) {
                        None => MultiOperands::Stops,
                        Some(Err(e)) => MultiOperands::Failed(t2, StepError::Format(e)),
                        Some(Ok(name)) => match pop_dims(t2, n as nat) {
                            Exec::Done(t3, popped) => MultiOperands::Ready(t3, name, dims_of(popped)),
                            Exec::Fail(t3, e) => MultiOperands::Failed(t3, e),
                            Exec::Panic => MultiOperands::Stops,
                        },
                    },
                    Exec::Fail(t2, e) => MultiOperands::Failed(t2, e),
                    Exec::Panic => MultiOperands::Stops,
                },
            },
        },
        Exec::Fail(t, e) => MultiOperands::Failed(t, e),
        Exec::Panic => MultiOperands::Stops,
    }
}

/// Whether `multianewarray` can run without stopping the machine: at least one
/// dimension, a class that has that many levels of arrays, and room in the heap.
pub open spec fn multianewarray_ready(s: Seq<FrameView>, hp: Heap, cs: Seq<(Seq<char>, ClassFileView)>) -> bool {
    match multi_operands(s, cs) {
        MultiOperands::Ready(_, name, dims) => dims.len() >= 1 && multi_ok(name, dims.len() as nat) && 1
            <= hp.next_obj_ref && hp.next_obj_ref + multi_count(dims) <= u32::MAX,
        MultiOperands::Stops => false,
        _ => true,
    }
}

/// `multianewarray`: the array of the first dimension is pushed; its class is
/// the array class of the element class of the named class, and its length
/// the first dimension.
pub open spec fn multianewarray_outcome(
    s: Seq<FrameView>,
    hp: Heap,
    hp2: Heap,
    cs: Seq<(Seq<char>, ClassFileView)>,
    s2: Seq<FrameView>,
    r: Result<Option<Type>, StepError>,
) -> bool {
    match multi_operands(s, cs) {
        MultiOperands::Ready(t, name, dims) => {
            let x = if dims.len() == 1 { (hp.next_obj_ref + 1) as u32 } else { hp.next_obj_ref };
            &&& outcome(push_done(t, Type::ArrayRef(x)), s2, r)
            &&& hp2.next_obj_ref == hp.next_obj_ref + multi_count(dims)
            &&& array_at(hp2.heap@, x) matches Some(a) && a.classname@ == array_class_of(element_class(name)->0)
                && a.elements@.len() == dims[0]
            &&& unchanged_below(hp.heap@, hp2.heap@, hp.next_obj_ref)
        },
        MultiOperands::Failed(t, e) => s2 == t && r == Err::<Option<Type>, StepError>(e) && hp2 == hp,
        MultiOperands::NoClass(t, n) => s2 == t && (r matches Err(StepError::Internal(InternalError::ClassNotFound(a)))
            && a@ == n) && hp2 == hp,
        MultiOperands::Stops => false,
    }
}

impl JVM {
    /// Pops `n` dimensions, the last one first.
    fn pop_dimensions(&mut self, n: u8) -> (r: Result<Vec<i32>, StepError>)
        requires
            !(pop_dims(old(self)@, n as nat) is Panic),
        ensures
            match pop_dims(old(self)@, n as nat) {
                Exec::Done(t, p) => final(self)@ == t && (r matches Ok(v) && v@ == p),
                Exec::Fail(t, e) => final(self)@ == t && r == Err::<Vec<i32>, StepError>(e),
                Exec::Panic => false,
            },
            final(self).counter == old(self).counter,
    {
        let mut popped: Vec<i32> = Vec::new();
        let mut k: u8 = 0;
        while k < n
            invariant
                k <= n,
                self.counter == old(self).counter,
                !(pop_dims(self@, (n - k) as nat) is Panic),
                pop_dims(old(self)@, n as nat) == match pop_dims(self@, (n - k) as nat) {
                    Exec::Done(t, rest) => Exec::Done(t, popped@ + rest),
                    other => other,
                },
            decreases n - k,
        {
            proof {
                assert(popped@ + Seq::<i32>::empty() =~= popped@);
            }
            let d = self.pop_ioperand()?;
            if d < 0 {
                return Err(StepError::Internal(InternalError::NegativeArraySize(d)));
            }
            proof {
                match pop_dims(self@, (n - k - 1) as nat) {
                    Exec::Done(t, rest) => {
                        assert(popped@ + (seq![d] + rest) =~= popped@.push(d) + rest);
                    },
                    _ => {},
                }
            }
            popped.push(d);
            k = k + 1;
        }
        proof {
            assert(popped@ + Seq::<i32>::empty() =~= popped@);
        }
        Ok(popped)
    }

    /// `multianewarray`.
    pub fn exec_multianewarray(&mut self, heap: &mut Heap, loader: &ClassLoader) -> (r: Result<
        Option<Type>,
        StepError,
    >)
        requires
            multianewarray_ready(old(self)@, *old(heap), loader.classes_view()),
        ensures
            multianewarray_outcome(old(self)@, *old(heap), *final(heap), loader.classes_view(), final(self)@, r),
            final(self).counter == old(self).counter,
    {
        let index = self.read_operand_u16()?;
        let class = self.get_current_class(loader)?;
        if let Err(e) = class.resolve_index(index) {
            return Err(StepError::Format(e));
        }
        let n = self.read_operand_u8()?;
        let name = JVM::class_operand_name(class, index)?;
        let popped = self.pop_dimensions(n)?;
        let mut dims: Vec<usize> = Vec::new();
        let mut k: usize = popped.len();
        while k > 0
            invariant
                k <= popped@.len(),
                dims@ == popped@.subrange(k as int, popped@.len() as int).reverse().map_values(|d: i32| d as usize),
            decreases k,
        {
            k = k - 1;
            dims.push(popped[k] as usize);
            assert(dims@ =~= popped@.subrange(k as int, popped@.len() as int).reverse().map_values(
                |d: i32| d as usize,
            ));
        }
        assert(popped@.subrange(0, popped@.len() as int) =~= popped@);
        let array_ref = match heap.alloc_multiarray(name.as_str(), dims.as_slice()) {
            Ok(a) => a,
            Err(_) => vstd::pervasive::unreached(),
        };
        self.push_and_finish(array_ref)
    }
}

} // verus!
