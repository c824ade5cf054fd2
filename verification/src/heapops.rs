use vstd::prelude::*;

use crate::arrays::{
    aaload_spec,
    array_store,
    arraylength_spec,
    baload_spec,
    caload_spec,
    iaload_spec,
    iastore_operands,
    laload_spec,
    lastore_operands,
    saload_spec,
};
use crate::class_loader::class_file::ClassFileView;
use crate::class_loader::loader::ClassLoader;
use crate::frame::FrameView;
use crate::heap::{Heap, loader_defaults_ok, unchanged_below};
use crate::jvm::{Exec, JVM, StepError, outcome, pop_value, read_u16, runs};
use crate::objects::{
    aastore_effect,
    aastore_operands,
    aastore_stops,
    anewarray_outcome,
    anewarray_stops,
    array_added,
    checkcast_outcome,
    checkcast_stops,
    getfield_outcome,
    getfield_stops,
    putfield_outcome,
    putfield_stops,
    instanceof_outcome,
    instanceof_stops,
    monitor_effect,
    new_outcome,
    newarray_class,
    newarray_operands,
    newarray_stops,
};
use crate::exceptions::{athrow_outcome, athrow_stops};
use crate::modulemanager::ModuleManager;
use crate::ldc::{ldc2w_outcome, ldc2w_stops, ldc_outcome, ldc_ready};
use crate::multiarray::{multianewarray_outcome, multianewarray_ready};
use crate::opcode::OpCode;
use crate::types::Type;

verus! {

/// The instructions that work on the heap (and the loaded classes) and that the
/// library carries out once the host hands them the heap.
pub open spec fn heap_op(op: OpCode) -> bool {
    match op {
        OpCode::IALOAD | OpCode::LALOAD | OpCode::BALOAD | OpCode::CALOAD | OpCode::SALOAD | OpCode::AALOAD
        | OpCode::ARRAYLENGTH | OpCode::IASTORE | OpCode::LASTORE | OpCode::BASTORE | OpCode::CASTORE
        | OpCode::SASTORE | OpCode::AASTORE | OpCode::CHECKCAST | OpCode::INSTANCEOF | OpCode::MONITORENTER
        | OpCode::MONITOREXIT | OpCode::NEWARRAY | OpCode::ANEWARRAY | OpCode::NEW | OpCode::GETFIELD
        | OpCode::PUTFIELD | OpCode::ATHROW | OpCode::LDC | OpCode::LDCW | OpCode::LDC2W
        | OpCode::MULTIANEWARRAY => true,
        _ => false,
    }
}

/// Whether the heap instruction `op` can run on the frames `s`, the heap `hp`
/// and the loaded classes `cs` without stopping the machine.
pub open spec fn heap_op_ready(op: OpCode, s: Seq<FrameView>, hp: Heap, cs: Seq<(Seq<char>, ClassFileView)>) -> bool {
    match op {
        OpCode::IALOAD => runs(iaload_spec(s, hp.heap@)),
        OpCode::LALOAD => runs(laload_spec(s, hp.heap@)),
        OpCode::BALOAD => runs(baload_spec(s, hp.heap@)),
        OpCode::CALOAD => runs(caload_spec(s, hp.heap@)),
        OpCode::SALOAD => runs(saload_spec(s, hp.heap@)),
        OpCode::AALOAD => runs(aaload_spec(s, hp.heap@)),
        OpCode::ARRAYLENGTH => runs(arraylength_spec(s, hp.heap@)),
        OpCode::IASTORE | OpCode::BASTORE | OpCode::CASTORE | OpCode::SASTORE => runs(iastore_operands(s)),
        OpCode::LASTORE => runs(lastore_operands(s)),
        OpCode::AASTORE => runs(aastore_operands(s)) && (aastore_operands(s) matches Exec::Done(_, (v, i, av))
            ==> !aastore_stops(hp.heap@, cs, v, i, av)),
        OpCode::CHECKCAST => !checkcast_stops(s, hp.heap@, cs),
        OpCode::INSTANCEOF => !instanceof_stops(s, hp.heap@, cs),
        OpCode::MONITORENTER | OpCode::MONITOREXIT => runs(pop_value(s)),
        OpCode::NEWARRAY => !newarray_stops(s) && 1 <= hp.next_obj_ref < u32::MAX,
        OpCode::ANEWARRAY => !anewarray_stops(s, cs) && 1 <= hp.next_obj_ref < u32::MAX,
        OpCode::NEW => runs(read_u16(s)) && 1 <= hp.next_obj_ref && hp.next_obj_ref + cs.len() + 1 <= u32::MAX
            && loader_defaults_ok(cs),
        OpCode::GETFIELD => runs(read_u16(s)) && !getfield_stops(s, hp.heap@, cs),
        OpCode::PUTFIELD => runs(read_u16(s)) && !putfield_stops(s, hp.heap@, cs),
        OpCode::ATHROW => !athrow_stops(s, hp.heap@),
        OpCode::LDC => ldc_ready(s, false, hp, cs),
        OpCode::MULTIANEWARRAY => multianewarray_ready(s, hp, cs),
        OpCode::LDCW => ldc_ready(s, true, hp, cs),
        OpCode::LDC2W => runs(read_u16(s)) && (read_u16(s) matches Exec::Done(t, index) ==> !ldc2w_stops(
            t,
            index,
            cs,
        )),
        _ => false,
    }
}

/// Whether a store of `value` into an array, with the operands `e`, turned the
/// frames `s` into `s2` and the heap `hp` into `hp2` and gave `r`.
pub open spec fn store_done(
    e: Exec<(Type, i32, u32)>,
    class: Seq<char>,
    hp: Heap,
    hp2: Heap,
    s2: Seq<FrameView>,
    r: Result<Option<Type>, StepError>,
) -> bool {
    match e {
        Exec::Done(t, (value, index, x)) => s2 == t && array_store(hp.heap@, hp2.heap@, x, index as usize, value, class, r),
        Exec::Fail(t, err) => s2 == t && r == Err::<Option<Type>, StepError>(err) && hp2.heap@ == hp.heap@,
        Exec::Panic => false,
    }
}

/// The operands of `iastore` with the value as the `Type` that is stored.
pub open spec fn int_store_operands(s: Seq<FrameView>, conv: spec_fn(i32) -> Type) -> Exec<(Type, i32, u32)> {
    match iastore_operands(s) {
        Exec::Done(t, (v, i, x)) => Exec::Done(t, (conv(v), i, x)),
        Exec::Fail(t, e) => Exec::Fail(t, e),
        Exec::Panic => Exec::Panic,
    }
}

/// The operands of `lastore` with the value as the `Type` that is stored.
pub open spec fn long_store_operands(s: Seq<FrameView>) -> Exec<(Type, i32, u32)> {
    match lastore_operands(s) {
        Exec::Done(t, (v, i, x)) => Exec::Done(t, (Type::Long(v), i, x)),
        Exec::Fail(t, e) => Exec::Fail(t, e),
        Exec::Panic => Exec::Panic,
    }
}

/// What the heap instruction `op` does: the frames `s` become `s2`, the heap
/// `hp` becomes `hp2`, and `r` is returned, as each instruction states.
pub open spec fn heap_op_done(
    op: OpCode,
    s: Seq<FrameView>,
    hp: Heap,
    hp2: Heap,
    cs: Seq<(Seq<char>, ClassFileView)>,
    mm: ModuleManager,
    s2: Seq<FrameView>,
    r: Result<Option<Type>, StepError>,
) -> bool {
    match op {
        OpCode::IALOAD => outcome(iaload_spec(s, hp.heap@), s2, r) && hp2 == hp,
        OpCode::LALOAD => outcome(laload_spec(s, hp.heap@), s2, r) && hp2 == hp,
        OpCode::BALOAD => outcome(baload_spec(s, hp.heap@), s2, r) && hp2 == hp,
        OpCode::CALOAD => outcome(caload_spec(s, hp.heap@), s2, r) && hp2 == hp,
        OpCode::SALOAD => outcome(saload_spec(s, hp.heap@), s2, r) && hp2 == hp,
        OpCode::AALOAD => outcome(aaload_spec(s, hp.heap@), s2, r) && hp2 == hp,
        OpCode::ARRAYLENGTH => outcome(arraylength_spec(s, hp.heap@), s2, r) && hp2 == hp,
        OpCode::IASTORE => store_done(int_store_operands(s, |v: i32| Type::Integer(v)), "[I"@, hp, hp2, s2, r)
            && hp2.next_obj_ref == hp.next_obj_ref,
        OpCode::BASTORE => store_done(int_store_operands(s, |v: i32| Type::Byte(v as i8)), "[B"@, hp, hp2, s2, r)
            && hp2.next_obj_ref == hp.next_obj_ref,
        OpCode::CASTORE => store_done(int_store_operands(s, |v: i32| Type::Character(v as i8)), "[C"@, hp, hp2, s2, r)
            && hp2.next_obj_ref == hp.next_obj_ref,
        OpCode::SASTORE => store_done(int_store_operands(s, |v: i32| Type::Short(v as i16)), "[S"@, hp, hp2, s2, r)
            && hp2.next_obj_ref == hp.next_obj_ref,
        OpCode::LASTORE => store_done(long_store_operands(s), "[J"@, hp, hp2, s2, r) && hp2.next_obj_ref
            == hp.next_obj_ref,
        OpCode::AASTORE => (match aastore_operands(s) {
            Exec::Done(t, (value, index, av)) => s2 == t && aastore_effect(hp.heap@, hp2.heap@, cs, value, index, av, r),
            Exec::Fail(t, e) => s2 == t && r == Err::<Option<Type>, StepError>(e) && hp2.heap@ == hp.heap@,
            Exec::Panic => false,
        }) && hp2.next_obj_ref == hp.next_obj_ref,
        OpCode::CHECKCAST => checkcast_outcome(s, hp.heap@, cs, s2, r) && hp2 == hp,
        OpCode::INSTANCEOF => instanceof_outcome(s, hp.heap@, cs, s2, r) && hp2 == hp,
        OpCode::MONITORENTER | OpCode::MONITOREXIT => (match pop_value(s) {
            Exec::Done(t, v) => s2 == t && monitor_effect(hp.heap@, hp2.heap@, v, op == OpCode::MONITOREXIT, r),
            Exec::Fail(t, e) => s2 == t && r == Err::<Option<Type>, StepError>(e) && hp2.heap@ == hp.heap@,
            Exec::Panic => false,
        }) && hp2.next_obj_ref == hp.next_obj_ref,
        OpCode::NEWARRAY => match newarray_operands(s) {
            Exec::Done(t, (a, size)) => match newarray_class(a) {
                Some(c) => outcome(push_done_ref(t, hp.next_obj_ref), s2, r) && array_added(
                    hp.heap@,
                    hp.next_obj_ref,
                    hp2.heap@,
                    hp2.next_obj_ref,
                    c,
                    size,
                ),
                None => s2 == t && r == Err::<Option<Type>, StepError>(
                    StepError::Internal(crate::errors::InternalError::UnknownArrayType(a)),
                ) && hp2.heap@ == hp.heap@ && hp2.next_obj_ref == hp.next_obj_ref,
            },
            Exec::Fail(t, e) => s2 == t && r == Err::<Option<Type>, StepError>(e) && hp2.heap@ == hp.heap@
                && hp2.next_obj_ref == hp.next_obj_ref,
            Exec::Panic => false,
        },
        OpCode::ANEWARRAY => anewarray_outcome(s, hp.heap@, hp.next_obj_ref, cs, s2, hp2.heap@, hp2.next_obj_ref, r),
        OpCode::NEW => new_outcome(s, hp.heap@, hp.next_obj_ref, cs, s2, hp2.heap@, r) && hp.next_obj_ref
            <= hp2.next_obj_ref <= hp.next_obj_ref + cs.len() + 1 && unchanged_below(
            hp.heap@,
            hp2.heap@,
            hp.next_obj_ref,
        ),
        OpCode::GETFIELD => getfield_outcome(s, hp.heap@, cs, s2, r) && hp2 == hp,
        OpCode::PUTFIELD => putfield_outcome(s, hp.heap@, cs, s2, hp2.heap@, r) && hp2.next_obj_ref == hp.next_obj_ref,
        OpCode::ATHROW => athrow_outcome(s, hp.heap@, s2, r) && hp2 == hp,
        OpCode::LDC => ldc_outcome(s, false, hp, hp2, cs, mm, s2, r),
        OpCode::MULTIANEWARRAY => multianewarray_outcome(s, hp, hp2, cs, s2, r),
        OpCode::LDCW => ldc_outcome(s, true, hp, hp2, cs, mm, s2, r),
        OpCode::LDC2W => (match read_u16(s) {
            Exec::Done(t, index) => ldc2w_outcome(t, index, cs, s2, r),
            Exec::Fail(t, e) => s2 == t && r == Err::<Option<Type>, StepError>(e),
            Exec::Panic => false,
        }) && hp2 == hp,
        _ => false,
    }
}

/// Pushes a reference to the new array `x`.
pub open spec fn push_done_ref(s: Seq<FrameView>, x: u32) -> Exec<Option<Type>> {
    crate::jvm::push_done(s, Type::ArrayRef(x))
}

/// Whether `op` is one of the heap instructions.
pub fn is_heap_op(op: OpCode) -> (r: bool)
    ensures
        r == heap_op(op),
{
    match op {
        OpCode::IALOAD | OpCode::LALOAD | OpCode::BALOAD | OpCode::CALOAD | OpCode::SALOAD | OpCode::AALOAD
        | OpCode::ARRAYLENGTH | OpCode::IASTORE | OpCode::LASTORE | OpCode::BASTORE | OpCode::CASTORE
        | OpCode::SASTORE | OpCode::AASTORE | OpCode::CHECKCAST | OpCode::INSTANCEOF | OpCode::MONITORENTER
        | OpCode::MONITOREXIT | OpCode::NEWARRAY | OpCode::ANEWARRAY | OpCode::NEW | OpCode::GETFIELD
        | OpCode::PUTFIELD | OpCode::ATHROW | OpCode::LDC | OpCode::LDCW | OpCode::LDC2W
        | OpCode::MULTIANEWARRAY => true,
        _ => false,
    }
}

impl JVM {
    /// Carries out the heap instruction `op`, whose opcode a step has read and
    /// handed to the host, on the heap and the loaded classes.
    #[verifier::rlimit(60)]
    pub fn execute_heap_op(&mut self, op: OpCode, heap: &mut Heap, loader: &ClassLoader) -> (r: Result<
        Option<Type>,
        StepError,
    >)
        requires
            heap_op(op),
            heap_op_ready(op, old(self)@, *old(heap), loader.classes_view()),
        ensures
            heap_op_done(
                op,
                old(self)@,
                *old(heap),
                *final(heap),
                loader.classes_view(),
                loader.modulemanager,
                final(self)@,
                r,
            ),
            final(self).counter == old(self).counter,
    {
        match op {
            OpCode::IALOAD => self.exec_iaload(heap),
            OpCode::LALOAD => self.exec_laload(heap),
            OpCode::BALOAD => self.exec_baload(heap),
            OpCode::CALOAD => self.exec_caload(heap),
            OpCode::SALOAD => self.exec_saload(heap),
            OpCode::AALOAD => self.exec_aaload(heap),
            OpCode::ARRAYLENGTH => self.exec_arraylength(heap),
            OpCode::IASTORE => self.exec_iastore(heap),
            OpCode::LASTORE => self.exec_lastore(heap),
            OpCode::BASTORE => self.exec_bastore(heap),
            OpCode::CASTORE => self.exec_castore(heap),
            OpCode::SASTORE => self.exec_sastore(heap),
            OpCode::AASTORE => self.exec_aastore(heap, loader),
            OpCode::CHECKCAST => self.exec_checkcast(heap, loader),
            OpCode::INSTANCEOF => self.exec_instanceof(heap, loader),
            OpCode::MONITORENTER => self.exec_monitorexit(heap),
            OpCode::MONITOREXIT => self.exec_monitorenter(heap),
            OpCode::NEWARRAY => self.exec_newarray(heap),
            OpCode::ANEWARRAY => self.exec_anewarray(heap, loader),
            OpCode::GETFIELD => self.exec_getfield(heap, loader),
            OpCode::PUTFIELD => self.exec_putfield(heap, loader),
            OpCode::ATHROW => self.exec_athrow(heap),
            OpCode::LDC => self.exec_ldc(heap, loader),
            OpCode::MULTIANEWARRAY => self.exec_multianewarray(heap, loader),
            OpCode::LDCW => self.exec_ldcw(heap, loader),
            OpCode::LDC2W => {
                let index = self.read_operand_u16()?;
                self.exec_ldc2w(loader, index)
            },
            _ => self.exec_new(heap, loader),
        }
    }
}

} // verus!
