use vstd::prelude::*;
use vstd::utf8::encode_utf8;

use crate::class_loader::class_file::ClassFileView;
use crate::class_loader::constant_pool::{CpEntry, CpInfoInfoEnum, cp_get, cp_name};
use crate::class_loader::format::FormatError;
use crate::class_loader::loader::{ClassLoader, Search, class_named, search_error};
use crate::errors::InternalError;
use crate::frame::FrameView;
use crate::modulemanager::ModuleManager;
use crate::heap::{
    class_obj_ready,
    Heap,
    alloc_search,
    array_at,
    byte_elements,
    class_obj_budget,
    loader_defaults_ok,
    new_array,
    object_at,
    own_field,
    record,
    ref_of,
    unchanged_below,
};
use crate::jvm::{Exec, JVM, StepError, outcome, push_done, read_u8, read_u16};
use crate::objects::frame_class;
use crate::types::Type;
use crate::utils::ju4;

verus! {

/// The number that two 32-bit halves make, high half first.
pub open spec fn wide_value(high: u32, low: u32) -> u64 {
    (high as int * 0x1_0000_0000 + low as int) as u64
}

/// What `ldc` finds at a pool index.
pub enum LdcConstant {
    /// A number to push.
    Value(Type),
    /// The text of a string to push.
    Text(Seq<char>),
    /// The name of a class whose class object to push.
    ClassName(Seq<char>),
    /// A pool entry that is missing or does not resolve.
    Bad(FormatError),
    /// A `long` or `double` entry, which `ldc` refuses.
    Wide,
    /// An entry of another kind, on which the machine stops.
    Stops,
}

/// The constant at `index` of the pool of the class `c`, as `ldc` takes it.
pub open spec fn ldc_constant(c: ClassFileView, index: u16) -> LdcConstant {
    match cp_get(c.constant_pool, index) {
        Err(e) => LdcConstant::Bad(e),
        Ok(CpEntry::Integer { bytes }) => LdcConstant::Value(Type::Integer(bytes as i32)),
        Ok(CpEntry::Float { bytes }) => LdcConstant::Value(Type::Float(bytes)),
        Ok(CpEntry::String { string_index }) => match cp_name(c.constant_pool, string_index) {
            Ok(t) => LdcConstant::Text(t),
            Err(e) => LdcConstant::Bad(e),
        },
        Ok(CpEntry::Long { .. }) => LdcConstant::Wide,
        Ok(CpEntry::Double { .. }) => LdcConstant::Wide,
        Ok(CpEntry::Class { name_index }) => match cp_name(c.constant_pool, name_index) {
            Ok(n) => LdcConstant::ClassName(n),
            Err(e) => LdcConstant::Bad(e),
        },
        Ok(_) => LdcConstant::Stops,
    }
}

/// What making the string `text` does to the heap `hp` (giving `hp2`) and
/// returns: an interned string comes back as it is; otherwise a byte array of
/// its UTF-8 bytes and a `java/lang/String` object holding it are made, and the
/// string is recorded.
pub open spec fn string_alloc(
    hp: Heap,
    hp2: Heap,
    cs: Seq<(Seq<char>, ClassFileView)>,
    text: Seq<char>,
    r: Result<Type, InternalError>,
) -> bool {
    &&& match ref_of(hp.strings@, text) {
        Some(x) => r == Ok::<Type, InternalError>(Type::ObjectRef(x)) && hp2.heap@ == hp.heap@ && hp2.next_obj_ref
            == hp.next_obj_ref && hp2.strings == hp.strings,
        None => match alloc_search(cs, "java/lang/String"@, cs.len() as nat) {
            Search::Found(_) => {
                let a = hp.next_obj_ref;
                let s = (a + 1) as ju4;
                &&& r == Ok::<Type, InternalError>(Type::ObjectRef(s))
                &&& array_at(hp2.heap@, a) matches Some(arr) && new_array(arr, "B"@, a, byte_elements(encode_utf8(text)))
                &&& object_at(hp2.heap@, s) matches Some(o) && own_field(o, "value"@, Type::ArrayRef(a))
                    && o.classname@ == class_named(cs, "java/lang/String"@)->0.this_class_name
                &&& hp2.strings@ == record(hp.strings@, text, s)
            },
            sr => r matches Err(e) && search_error(sr, e, InternalError::FieldNotFound),
        },
    }
    &&& hp.next_obj_ref <= hp2.next_obj_ref <= hp.next_obj_ref + cs.len() + 2
    &&& unchanged_below(hp.heap@, hp2.heap@, hp.next_obj_ref)
}

/// What making the class object of `name` does to the heap `hp` (giving `hp2`)
/// and returns: a class object already made comes back as it is; a new one is
/// recorded under the name.
pub open spec fn class_obj_alloc(
    hp: Heap,
    hp2: Heap,
    cs: Seq<(Seq<char>, ClassFileView)>,
    mm: ModuleManager,
    name: Seq<char>,
    r: Result<Type, InternalError>,
) -> bool {
    &&& ref_of(hp.classes@, name) is None && class_obj_ready(cs, mm, name) ==> r is Ok
    &&& hp.next_obj_ref <= hp2.next_obj_ref <= hp.next_obj_ref + class_obj_budget(name.len(), cs.len() as nat)
    &&& ref_of(hp.classes@, name) matches Some(x) ==> r == Ok::<Type, InternalError>(Type::ObjectRef(x)) && hp2.heap@
        == hp.heap@ && hp2.next_obj_ref == hp.next_obj_ref
    &&& r is Ok ==> (r matches Ok(Type::ObjectRef(x)) && ref_of(hp2.classes@, name) == Some(x) && (ref_of(
        hp.classes@,
        name,
    ) is None ==> object_at(hp2.heap@, x) is Some && hp.next_obj_ref <= x))
    &&& unchanged_below(hp.heap@, hp2.heap@, hp.next_obj_ref)
}

/// Whether pushing the constant at `index` can go on without stopping the
/// machine: the entry is of a kind that `ldc` takes, and the heap has room.
pub open spec fn constant_ready(t: Seq<FrameView>, index: u16, hp: Heap, cs: Seq<(Seq<char>, ClassFileView)>) -> bool {
    match frame_class(t, cs) {
        Some(c) => match ldc_constant(c, index) {
            LdcConstant::Stops => false,
            LdcConstant::Text(_) => 1 <= hp.next_obj_ref && hp.next_obj_ref + cs.len() + 2 <= u32::MAX
                && loader_defaults_ok(cs),
            LdcConstant::ClassName(n) => 1 <= hp.next_obj_ref && hp.next_obj_ref + class_obj_budget(
                n.len(),
                cs.len() as nat,
            ) <= u32::MAX && loader_defaults_ok(cs),
            _ => true,
        },
        None => true,
    }
}

/// What pushing the constant at `index` of the current class's pool does.
pub open spec fn constant_pushed(
    t: Seq<FrameView>,
    index: u16,
    hp: Heap,
    hp2: Heap,
    cs: Seq<(Seq<char>, ClassFileView)>,
    mm: ModuleManager,
    s2: Seq<FrameView>,
    r: Result<Option<Type>, StepError>,
) -> bool {
    match frame_class(t, cs) {
        None => s2 == t && (r matches Err(StepError::Internal(InternalError::ClassNotFound(a))) && a@
            == crate::utils::slashed(t.last().class)) && hp2 == hp,
        Some(c) => match ldc_constant(c, index) {
            LdcConstant::Value(v) => outcome(push_done(t, v), s2, r) && hp2 == hp,
            LdcConstant::Bad(e) => s2 == t && r == Err::<Option<Type>, StepError>(StepError::Format(e)) && hp2 == hp,
            LdcConstant::Wide => s2 == t && r == Err::<Option<Type>, StepError>(
                StepError::Internal(InternalError::WideConstant(index)),
            ) && hp2 == hp,
            LdcConstant::Text(text) => match r {
                Ok(_) => string_alloc(hp, hp2, cs, text, Ok(s2.last().stack.last())) && outcome(
                    push_done(t, s2.last().stack.last()),
                    s2,
                    r,
                ),
                Err(StepError::Internal(e)) => s2 == t && string_alloc(hp, hp2, cs, text, Err(e)),
                Err(_) => false,
            },
            LdcConstant::ClassName(n) => match r {
                Ok(_) => class_obj_alloc(hp, hp2, cs, mm, n, Ok(s2.last().stack.last())) && outcome(
                    push_done(t, s2.last().stack.last()),
                    s2,
                    r,
                ),
                Err(StepError::Internal(e)) => s2 == t && class_obj_alloc(hp, hp2, cs, mm, n, Err(e)),
                Err(_) => false,
            },
            LdcConstant::Stops => false,
        },
    }
}

/// The operand of `ldc` as a pool index.
pub open spec fn ldc_index(s: Seq<FrameView>) -> Exec<u16> {
    match read_u8(s) {
        Exec::Done(t, b) => Exec::Done(t, b as u16),
        Exec::Fail(t, e) => Exec::Fail(t, e),
        Exec::Panic => Exec::Panic,
    }
}

/// `ldc` (`wide` false: a one-byte index) or `ldc_w` (a two-byte index).
pub open spec fn ldc_outcome(
    s: Seq<FrameView>,
    wide: bool,
    hp: Heap,
    hp2: Heap,
    cs: Seq<(Seq<char>, ClassFileView)>,
    mm: ModuleManager,
    s2: Seq<FrameView>,
    r: Result<Option<Type>, StepError>,
) -> bool {
    match if wide { read_u16(s) } else { ldc_index(s) } {
        Exec::Done(t, index) => constant_pushed(t, index, hp, hp2, cs, mm, s2, r),
        Exec::Fail(t, e) => s2 == t && r == Err::<Option<Type>, StepError>(e) && hp2 == hp,
        Exec::Panic => false,
    }
}

/// Whether `ldc` or `ldc_w` can run without stopping the machine.
pub open spec fn ldc_ready(s: Seq<FrameView>, wide: bool, hp: Heap, cs: Seq<(Seq<char>, ClassFileView)>) -> bool {
    match if wide { read_u16(s) } else { ldc_index(s) } {
        Exec::Done(t, index) => constant_ready(t, index, hp, cs),
        Exec::Fail(_, _) => true,
        Exec::Panic => false,
    }
}

/// What `ldc2_w` finds at `index` of the current class's pool: a `long` or a
/// `double` (by its bits), or the error.
pub open spec fn ldc2w_outcome(
    t: Seq<FrameView>,
    index: u16,
    cs: Seq<(Seq<char>, ClassFileView)>,
    s2: Seq<FrameView>,
    r: Result<Option<Type>, StepError>,
) -> bool {
    match frame_class(t, cs) {
        None => s2 == t && (r matches Err(StepError::Internal(InternalError::ClassNotFound(a))) && a@
            == crate::utils::slashed(t.last().class)),
        Some(c) => match cp_get(c.constant_pool, index) {
            Err(e) => s2 == t && r == Err::<Option<Type>, StepError>(StepError::Format(e)),
            Ok(CpEntry::Long { high_bytes, low_bytes }) => outcome(
                push_done(t, Type::Long(wide_value(high_bytes, low_bytes) as i64)),
                s2,
                r,
            ),
            Ok(CpEntry::Double { high_bytes, low_bytes }) => outcome(
                push_done(t, Type::Double(wide_value(high_bytes, low_bytes))),
                s2,
                r,
            ),
            Ok(_) => false,
        },
    }
}

/// Whether `ldc2_w` of `index` stops the machine: an entry of another kind.
pub open spec fn ldc2w_stops(t: Seq<FrameView>, index: u16, cs: Seq<(Seq<char>, ClassFileView)>) -> bool {
    match frame_class(t, cs) {
        Some(c) => match cp_get(c.constant_pool, index) {
            Ok(CpEntry::Long { .. }) => false,
            Ok(CpEntry::Double { .. }) => false,
            Ok(_) => true,
            Err(_) => false,
        },
        None => false,
    }
}

impl JVM {
    /// Pushes the constant at `index` of the current class's pool.
    fn push_constant(&mut self, heap: &mut Heap, loader: &ClassLoader, index: u16) -> (r: Result<
        Option<Type>,
        StepError,
    >)
        requires
            old(self)@.len() > 0,
            constant_ready(old(self)@, index, *old(heap), loader.classes_view()),
        ensures
            constant_pushed(
                old(self)@,
                index,
                *old(heap),
                *final(heap),
                loader.classes_view(),
                loader.modulemanager,
                final(self)@,
                r,
            ),
            final(self).counter == old(self).counter,
    {
        let class = self.get_current_class(loader)?;
        let item = match class.resolve_index(index) {
            Ok(i) => i,
            Err(e) => {
                return Err(StepError::Format(e));
            },
        };
        let value = match item.get_info() {
            CpInfoInfoEnum::Integer(n) => Type::Integer(n.as_int()),
            CpInfoInfoEnum::Float(n) => Type::Float(n.float_bits()),
            CpInfoInfoEnum::String(st) => {
                let text = match class.resolve_name(st.get_string_index()) {
                    Ok(t) => t,
                    Err(e) => {
                        return Err(StepError::Format(e));
                    },
                };
                let res = heap.alloc_string(loader, text.as_str());
                assert(string_alloc(*old(heap), *heap, loader.classes_view(), text@, res));
                match res {
                    Ok(v) => v,
                    Err(e) => {
                        return Err(StepError::Internal(e));
                    },
                }
            },
            CpInfoInfoEnum::Long(_) | CpInfoInfoEnum::Double(_) => {
                return Err(StepError::Internal(InternalError::WideConstant(index)));
            },
            CpInfoInfoEnum::Class(cl) => {
                let name = match class.resolve_name(cl.get_name_index()) {
                    Ok(n) => n,
                    Err(e) => {
                        return Err(StepError::Format(e));
                    },
                };
                let res = heap.alloc_class_obj(loader, name.as_str());
                assert(class_obj_alloc(*old(heap), *heap, loader.classes_view(), loader.modulemanager, name@, res));
                match res {
                    Ok(v) => v,
                    Err(e) => {
                        return Err(StepError::Internal(e));
                    },
                }
            },
            _ => vstd::pervasive::unreached(),
        };
        self.push_and_finish(value)
    }

    /// `ldc`.
    pub fn exec_ldc(&mut self, heap: &mut Heap, loader: &ClassLoader) -> (r: Result<Option<Type>, StepError>)
        requires
            ldc_ready(old(self)@, false, *old(heap), loader.classes_view()),
        ensures
            ldc_outcome(
                old(self)@,
                false,
                *old(heap),
                *final(heap),
                loader.classes_view(),
                loader.modulemanager,
                final(self)@,
                r,
            ),
            final(self).counter == old(self).counter,
    {
        let index = self.read_operand_u8()? as u16;
        self.push_constant(heap, loader, index)
    }

    /// `ldc_w`.
    pub fn exec_ldcw(&mut self, heap: &mut Heap, loader: &ClassLoader) -> (r: Result<Option<Type>, StepError>)
        requires
            ldc_ready(old(self)@, true, *old(heap), loader.classes_view()),
        ensures
            ldc_outcome(
                old(self)@,
                true,
                *old(heap),
                *final(heap),
                loader.classes_view(),
                loader.modulemanager,
                final(self)@,
                r,
            ),
            final(self).counter == old(self).counter,
    {
        let index = self.read_operand_u16()?;
        self.push_constant(heap, loader, index)
    }

    /// `ldc2_w` of the entry at `index`: pushes the `long` or `double`.
    pub fn exec_ldc2w(&mut self, loader: &ClassLoader, index: u16) -> (r: Result<Option<Type>, StepError>)
        requires
            old(self)@.len() > 0,
            !ldc2w_stops(old(self)@, index, loader.classes_view()),
        ensures
            ldc2w_outcome(old(self)@, index, loader.classes_view(), final(self)@, r),
            final(self).counter == old(self).counter,
    {
        let class = self.get_current_class(loader)?;
        let item = match class.resolve_index(index) {
            Ok(i) => i,
            Err(e) => {
                return Err(StepError::Format(e));
            },
        };
        let value = match item.get_info() {
            CpInfoInfoEnum::Long(n) => Type::Long(n.value() as i64),
            CpInfoInfoEnum::Double(n) => Type::Double(n.value()),
            _ => vstd::pervasive::unreached(),
        };
        self.push_and_finish(value)
    }
}

} // verus!
