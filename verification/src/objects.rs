use vstd::prelude::*;

use crate::arrays::{array_store, array_target};
use crate::assign::{assign_stops, assignable};
use crate::class_loader::class_file::{ClassFile, ClassFileView};
use crate::class_loader::constant_pool::{CpEntry, CpInfoInfoEnum, cp_get, cp_name};
use crate::class_loader::format::FormatError;
use crate::class_loader::constant_pool::cp_field_ref;
use crate::class_loader::loader::{ClassLoader, ConstKind, Search, class_named, resolver, search_error};
use crate::errors::{InternalError, JavaException};
use crate::frame::FrameView;
use crate::heap::{
    Heap,
    alloc_search,
    array_at,
    initial_elements,
    instance_at,
    lemma_find_instance,
    lemma_put_instance,
    loader_defaults_ok,
    new_array,
    new_object,
    object_at,
    same_but,
    unchanged_below,
};
use crate::class_loader::interfaces::cp_class_entry_name;
use crate::instance::{Instance, ObjectInstance, field_of, holds_field, put_into, storable};
use crate::jvm::{Exec, JVM, StepError, no_frame, outcome, pop_int, pop_value, push_done, read_u8, read_u16, runs, then};
use crate::utils::default_value_of;
use crate::types::Type;
use crate::utils::{ju4, slashed};

verus! {

/// The class of an instance as assignments see it (`java/lang/String`, `[I`).
pub open spec fn instance_class(i: Instance) -> Seq<char> {
    match i {
        Instance::ObjectInstance(o) => o.classname@,
        Instance::ArrayInstance(a) => a.classname@,
    }
}

/// The class that the `Class` entry at `index` of a class's pool names, or the
/// format error; `None` for an interface method reference, on which the machine
/// stops.
pub open spec fn class_operand(c: ClassFileView, index: u16) -> Option<Result<Seq<char>, FormatError>> {
    match cp_get(c.constant_pool, index) {
        Err(e) => Some(Err(e)),
        Ok(CpEntry::Class { name_index }) => Some(cp_name(c.constant_pool, name_index)),
        Ok(CpEntry::Interfaceref { .. }) => None,
        Ok(_) => Some(Err(FormatError::NotClass(index))),
    }
}

/// The class whose method the current frame runs, among the loaded classes.
pub open spec fn frame_class(s: Seq<FrameView>, cs: Seq<(Seq<char>, ClassFileView)>) -> Option<ClassFileView> {
    if s.len() == 0 {
        None
    } else {
        class_named(cs, s.last().class)
    }
}

/// How a check of the object `o` against the class named at `index` of the
/// current class's pool goes.
pub enum CastCheck {
    /// No instance has the reference.
    NoInstance(u32),
    /// The current class is not loaded.
    NoClass(Seq<char>),
    /// The pool entry is missing or of another kind.
    BadEntry(FormatError),
    /// The check stops the machine.
    Stops,
    /// The outcome of the assignment check.
    Decided(Search<bool>),
}

/// The check of the object `o` against the class named at `index` of the pool
/// of the current class.
pub open spec fn cast_check(
    s: Seq<FrameView>,
    h: Seq<(ju4, Instance)>,
    cs: Seq<(Seq<char>, ClassFileView)>,
    o: u32,
    index: u16,
) -> CastCheck {
    match instance_at(h, o) {
        None => CastCheck::NoInstance(o),
        Some(inst) => match frame_class(s, cs) {
            None => CastCheck::NoClass(slashed(s.last().class)),
            Some(c) => match class_operand(c, index) {
                None => CastCheck::Stops,
                Some(Err(e)) => CastCheck::BadEntry(e),
                Some(Ok(n)) => if assign_stops(cs, n, instance_class(inst)) {
                    CastCheck::Stops
                } else {
                    CastCheck::Decided(assignable(cs, n, instance_class(inst)))
                },
            },
        },
    }
}

/// Whether `e` reports the check `k`, which decided nothing.
pub open spec fn check_error(k: CastCheck, e: StepError) -> bool {
    match k {
        CastCheck::NoInstance(o) => e == StepError::Internal(InternalError::InstanceNotFound(o)),
        CastCheck::NoClass(n) => e matches StepError::Internal(InternalError::ClassNotFound(a)) && a@ == n,
        CastCheck::BadEntry(f) => e == StepError::Format(f),
        CastCheck::Stops => false,
        CastCheck::Decided(Search::Found(_)) => false,
        CastCheck::Decided(sr) => e matches StepError::Internal(ie) && search_error(sr, ie, InternalError::FieldNotFound),
    }
}

/// The operands of `checkcast` and `instanceof`: the reference, then the pool
/// index.
pub open spec fn cast_operands(s: Seq<FrameView>) -> Exec<(Type, u16)> {
    then(pop_value(s), |s1: Seq<FrameView>, v: Type| then(read_u16(s1), |s2: Seq<FrameView>, i: u16| Exec::Done(s2, (v, i))))
}

/// The heap reference of an object or array reference.
pub open spec fn ref_of(v: Type) -> Option<u32> {
    match v {
        Type::ObjectRef(o) => Some(o),
        Type::ArrayRef(o) => Some(o),
        _ => None,
    }
}

/// Whether `checkcast` stops the machine: on the operands, on the check, or on
/// a reference that is not of the class (the cast exception is not raised).
pub open spec fn checkcast_stops(s: Seq<FrameView>, h: Seq<(ju4, Instance)>, cs: Seq<(Seq<char>, ClassFileView)>) -> bool {
    match cast_operands(s) {
        Exec::Panic => true,
        Exec::Done(t, (v, index)) => match ref_of(v) {
            Some(o) => cast_check(t, h, cs, o, index) is Stops || cast_check(t, h, cs, o, index) == CastCheck::Decided(
                Search::Found(false),
            ),
            None => false,
        },
        Exec::Fail(_, _) => false,
    }
}

/// `checkcast`: a null reference, or one to an instance of the class, is pushed
/// back.
pub open spec fn checkcast_outcome(
    s: Seq<FrameView>,
    h: Seq<(ju4, Instance)>,
    cs: Seq<(Seq<char>, ClassFileView)>,
    s2: Seq<FrameView>,
    r: Result<Option<Type>, StepError>,
) -> bool {
    match cast_operands(s) {
        Exec::Done(t, (v, index)) => if v is Null {
            outcome(push_done(t, v), s2, r)
        } else {
            match ref_of(v) {
                Some(o) => match cast_check(t, h, cs, o, index) {
                    CastCheck::Decided(Search::Found(true)) => outcome(push_done(t, v), s2, r),
                    k => s2 == t && (r matches Err(e) && check_error(k, e)),
                },
                None => s2 == t && r == Err::<Option<Type>, StepError>(
                    StepError::Internal(InternalError::WrongType("reference", v)),
                ),
            }
        },
        Exec::Fail(t, e) => s2 == t && r == Err::<Option<Type>, StepError>(e),
        Exec::Panic => false,
    }
}

/// Whether `instanceof` stops the machine.
pub open spec fn instanceof_stops(s: Seq<FrameView>, h: Seq<(ju4, Instance)>, cs: Seq<(Seq<char>, ClassFileView)>) -> bool {
    match cast_operands(s) {
        Exec::Panic => true,
        Exec::Done(t, (v, index)) => match ref_of(v) {
            Some(o) => cast_check(t, h, cs, o, index) is Stops,
            None => false,
        },
        Exec::Fail(_, _) => false,
    }
}

/// `instanceof`: pushes 1 for a reference to an instance of the class, and 0
/// for another reference or null.
pub open spec fn instanceof_outcome(
    s: Seq<FrameView>,
    h: Seq<(ju4, Instance)>,
    cs: Seq<(Seq<char>, ClassFileView)>,
    s2: Seq<FrameView>,
    r: Result<Option<Type>, StepError>,
) -> bool {
    match cast_operands(s) {
        Exec::Done(t, (v, index)) => if v is Null {
            outcome(push_done(t, Type::Integer(0)), s2, r)
        } else {
            match ref_of(v) {
                Some(o) => match cast_check(t, h, cs, o, index) {
                    CastCheck::Decided(Search::Found(b)) => outcome(
                        push_done(t, Type::Integer(if b { 1i32 } else { 0i32 })),
                        s2,
                        r,
                    ),
                    k => s2 == t && (r matches Err(e) && check_error(k, e)),
                },
                None => s2 == t && r == Err::<Option<Type>, StepError>(
                    StepError::Internal(InternalError::WrongType("reference", v)),
                ),
            }
        },
        Exec::Fail(t, e) => s2 == t && r == Err::<Option<Type>, StepError>(e),
        Exec::Panic => false,
    }
}

/// The operands of `aastore`: the value, the index and the array reference.
pub open spec fn aastore_operands(s: Seq<FrameView>) -> Exec<(Type, i32, Type)> {
    then(
        pop_value(s),
        |s1: Seq<FrameView>, value: Type|
            then(
                pop_int(s1),
                |s2: Seq<FrameView>, index: i32|
                    then(pop_value(s2), |s3: Seq<FrameView>, av: Type| Exec::Done(s3, (value, index, av))),
            ),
    )
}

/// Whether storing `value` at `index` of the array `av` stops the machine: the
/// check of the value's class stops, or the value does not suit the array.
pub open spec fn aastore_stops(
    h: Seq<(ju4, Instance)>,
    cs: Seq<(Seq<char>, ClassFileView)>,
    value: Type,
    index: i32,
    av: Type,
) -> bool {
    match av {
        Type::ArrayRef(x) => match array_target(h, x) {
            Ok(a) => {
                let stores = (index as usize) < a.elements@.len() && !storable(a.classname@, value);
                if value is Null {
                    stores
                } else {
                    match ref_of(value) {
                        Some(o) => match instance_at(h, o) {
                            Some(inst) => assign_stops(cs, a.element_classname@, instance_class(inst)) || (assignable(
                                cs,
                                a.element_classname@,
                                instance_class(inst),
                            ) == Search::Found(true) && stores),
                            None => false,
                        },
                        None => false,
                    }
                }
            },
            Err(_) => false,
        },
        _ => false,
    }
}

/// What `aastore` of `value` at `index` of the array `av` does to the heap `h`
/// (giving `h2`) and returns: a reference must designate an instance whose class
/// may be stored in the array's elements; null may always be stored.
pub open spec fn aastore_effect(
    h: Seq<(ju4, Instance)>,
    h2: Seq<(ju4, Instance)>,
    cs: Seq<(Seq<char>, ClassFileView)>,
    value: Type,
    index: i32,
    av: Type,
    r: Result<Option<Type>, StepError>,
) -> bool {
    match av {
        Type::ArrayRef(x) => match array_target(h, x) {
            Err(e) => r == Err::<Option<Type>, StepError>(e) && h2 == h,
            Ok(a) => if value is Null {
                array_store(h, h2, x, index as usize, value, a.classname@, r)
            } else {
                match ref_of(value) {
                    Some(o) => match instance_at(h, o) {
                        None => r == Err::<Option<Type>, StepError>(StepError::Internal(InternalError::InstanceNotFound(o)))
                            && h2 == h,
                        Some(inst) => match assignable(cs, a.element_classname@, instance_class(inst)) {
                            Search::Found(true) => array_store(h, h2, x, index as usize, value, a.classname@, r),
                            Search::Found(false) => (r matches Err(StepError::Internal(InternalError::WrongClass(p, q)))
                                && p@ == a.element_classname@ && q@ == instance_class(inst)) && h2 == h,
                            sr => (r matches Err(StepError::Internal(e)) && search_error(sr, e, InternalError::FieldNotFound))
                                && h2 == h,
                        },
                    },
                    None => r == Err::<Option<Type>, StepError>(
                        StepError::Internal(InternalError::WrongType("ArrayRef/Null", value)),
                    ) && h2 == h,
                }
            },
        },
        _ => r == Err::<Option<Type>, StepError>(StepError::Java(JavaException::NullPointer)) && h2 == h,
    }
}

/// An object after `monitorenter`: its monitor is taken (a count of one).
pub open spec fn entered(o: ObjectInstance) -> ObjectInstance {
    ObjectInstance { monitor_count: if o.monitor_count == 0 { 1 } else { o.monitor_count }, ..o }
}

/// What `monitorenter` (`enter`) or `monitorexit` does to the heap `h` (giving
/// `h2`) and returns for the popped value `v`.
pub open spec fn monitor_effect(
    h: Seq<(ju4, Instance)>,
    h2: Seq<(ju4, Instance)>,
    v: Type,
    enter: bool,
    r: Result<Option<Type>, StepError>,
) -> bool {
    match v {
        Type::ObjectRef(o) => match instance_at(h, o) {
            Some(Instance::ObjectInstance(ob)) => r == Ok::<Option<Type>, StepError>(None) && if enter {
                instance_at(h2, o) == Some(Instance::ObjectInstance(entered(ob))) && same_but(h, h2, o)
            } else {
                h2 == h
            },
            Some(Instance::ArrayInstance(_)) => r == Err::<Option<Type>, StepError>(
                StepError::Internal(InternalError::NotAnObject(o)),
            ) && h2 == h,
            None => r == Err::<Option<Type>, StepError>(StepError::Internal(InternalError::InstanceNotFound(o)))
                && h2 == h,
        },
        Type::Null => r == Err::<Option<Type>, StepError>(StepError::Java(JavaException::NullPointer)) && h2 == h,
        _ => r == Err::<Option<Type>, StepError>(StepError::Internal(InternalError::WrongType("ObjectRef", v))) && h2
            == h,
    }
}

/// The element class that the operand of `newarray` names.
pub open spec fn newarray_class(atype: u8) -> Option<Seq<char>> {
    if atype == 4 {
        Some("Z"@)
    } else if atype == 5 {
        Some("C"@)
    } else if atype == 6 {
        Some("F"@)
    } else if atype == 7 {
        Some("D"@)
    } else if atype == 8 {
        Some("B"@)
    } else if atype == 9 {
        Some("S"@)
    } else if atype == 10 {
        Some("I"@)
    } else if atype == 11 {
        Some("J"@)
    } else {
        None
    }
}

/// The operands of `newarray`: the element type, then the length.
pub open spec fn newarray_operands(s: Seq<FrameView>) -> Exec<(u8, i32)> {
    then(read_u8(s), |s1: Seq<FrameView>, a: u8| then(pop_int(s1), |s2: Seq<FrameView>, n: i32| Exec::Done(s2, (a, n))))
}

/// Whether the heap `h2` with next reference `next2` is the heap `h` with a new
/// array of `size` default values of class `class` at reference `next`.
pub open spec fn array_added(
    h: Seq<(ju4, Instance)>,
    next: ju4,
    h2: Seq<(ju4, Instance)>,
    next2: ju4,
    class: Seq<char>,
    size: i32,
) -> bool {
    &&& next2 == next + 1
    &&& array_at(h2, next) matches Some(a) && new_array(
        a,
        class,
        next,
        initial_elements(class, Seq::<Type>::empty(), size as nat),
    )
    &&& same_but(h, h2, next)
}

/// Whether `newarray` stops the machine: a negative length cannot be allocated.
pub open spec fn newarray_stops(s: Seq<FrameView>) -> bool {
    match newarray_operands(s) {
        Exec::Panic => true,
        Exec::Done(_, (a, n)) => newarray_class(a) is Some && n < 0,
        Exec::Fail(_, _) => false,
    }
}

/// The operands of `anewarray`: the pool index of the element class.
pub open spec fn anewarray_stops(s: Seq<FrameView>, cs: Seq<(Seq<char>, ClassFileView)>) -> bool {
    match read_u16(s) {
        Exec::Done(t, index) => match frame_class(t, cs) {
            Some(c) => match cp_get(c.constant_pool, index) {
                Ok(_) => match pop_int(t) {
                    Exec::Panic => true,
                    Exec::Done(_, size) => match class_operand(c, index) {
                        None => true,
                        Some(Ok(n)) => size < 0 || default_value_of(n) is None,
                        Some(Err(_)) => false,
                    },
                    Exec::Fail(_, _) => false,
                },
                Err(_) => false,
            },
            None => false,
        },
        _ => false,
    }
}

/// `anewarray`: the element class is named by a `Class` entry of the current
/// class's pool; the array of `null`s of the popped length is pushed.
pub open spec fn anewarray_outcome(
    s: Seq<FrameView>,
    h: Seq<(ju4, Instance)>,
    next: ju4,
    cs: Seq<(Seq<char>, ClassFileView)>,
    s2: Seq<FrameView>,
    h2: Seq<(ju4, Instance)>,
    next2: ju4,
    r: Result<Option<Type>, StepError>,
) -> bool {
    let unchanged = h2 == h && next2 == next;
    match read_u16(s) {
        Exec::Done(t, index) => match frame_class(t, cs) {
            None => s2 == t && (r matches Err(StepError::Internal(InternalError::ClassNotFound(a))) && a@ == slashed(
                t.last().class,
            )) && unchanged,
            Some(c) => match cp_get(c.constant_pool, index) {
                Err(e) => s2 == t && r == Err::<Option<Type>, StepError>(StepError::Format(e)) && unchanged,
                Ok(_) => match pop_int(t) {
                    Exec::Done(t2, size) => match class_operand(c, index) {
                        Some(Ok(n)) => outcome(push_done(t2, Type::ArrayRef(next)), s2, r) && array_added(
                            h,
                            next,
                            h2,
                            next2,
                            n,
                            size,
                        ),
                        Some(Err(e)) => s2 == t2 && r == Err::<Option<Type>, StepError>(StepError::Format(e))
                            && unchanged,
                        None => false,
                    },
                    Exec::Fail(t2, e) => s2 == t2 && r == Err::<Option<Type>, StepError>(e) && unchanged,
                    Exec::Panic => false,
                },
            },
        },
        Exec::Fail(t, e) => s2 == t && r == Err::<Option<Type>, StepError>(e) && unchanged,
        Exec::Panic => false,
    }
}

/// `new`: the class is named by a `Class` entry of the current class's pool; a
/// new object of it is pushed.
pub open spec fn new_outcome(
    s: Seq<FrameView>,
    h: Seq<(ju4, Instance)>,
    next: ju4,
    cs: Seq<(Seq<char>, ClassFileView)>,
    s2: Seq<FrameView>,
    h2: Seq<(ju4, Instance)>,
    r: Result<Option<Type>, StepError>,
) -> bool {
    match read_u16(s) {
        Exec::Done(t, index) => match frame_class(t, cs) {
            None => s2 == t && (r matches Err(StepError::Internal(InternalError::ClassNotFound(a))) && a@ == slashed(
                t.last().class,
            )) && h2 == h,
            Some(c) => match cp_class_entry_name(c.constant_pool, index) {
                Err(e) => s2 == t && r == Err::<Option<Type>, StepError>(StepError::Format(e)) && h2 == h,
                Ok(n) => match alloc_search(cs, n, cs.len() as nat) {
                    Search::Found(_) => outcome(push_done(t, Type::ObjectRef(next)), s2, r) && (object_at(h2, next) matches Some(
                        o,
                    ) && new_object(o, class_named(cs, n)->0, n, next)),
                    sr => s2 == t && (r matches Err(StepError::Internal(e)) && search_error(
                        sr,
                        e,
                        InternalError::FieldNotFound,
                    )),
                },
            },
        },
        Exec::Fail(t, e) => s2 == t && r == Err::<Option<Type>, StepError>(e) && h2 == h,
        Exec::Panic => false,
    }
}

/// Each primitive element class has a default value.
proof fn lemma_newarray_defaults(atype: u8)
    ensures
        newarray_class(atype) matches Some(c) ==> default_value_of(c) is Some,
{
}

/// The field reference at `index` as the current class resolves it.
pub enum FieldRefCheck {
    /// The current class is not loaded.
    NoClass(Seq<char>),
    /// No class from the current class up resolves the reference.
    Unresolved(Search<ClassFileView>),
    /// The field's name and descriptor.
    Resolved(Seq<char>, Seq<char>),
}

/// The field reference at `index`, resolved from the current class up.
pub open spec fn field_ref_of(t: Seq<FrameView>, cs: Seq<(Seq<char>, ClassFileView)>, index: u16) -> FieldRefCheck {
    match frame_class(t, cs) {
        None => FieldRefCheck::NoClass(slashed(t.last().class)),
        Some(c) => match resolver(cs, c.this_class_name, ConstKind::FieldRef, index, cs.len() as nat) {
            Search::Found(rc) => match cp_field_ref(rc.constant_pool, index) {
                Ok((_, n, d)) => FieldRefCheck::Resolved(n, d),
                Err(_) => FieldRefCheck::Unresolved(Search::NotFound(c.this_class_name)),
            },
            sr => FieldRefCheck::Unresolved(sr),
        },
    }
}

/// Whether `e` reports the failed resolution `k` of the field reference at `index`.
pub open spec fn field_ref_error(k: FieldRefCheck, index: u16, e: StepError) -> bool {
    match k {
        FieldRefCheck::NoClass(n) => e matches StepError::Internal(InternalError::ClassNotFound(a)) && a@ == n,
        FieldRefCheck::Unresolved(Search::NotFound(n)) => e matches StepError::Internal(
            InternalError::ConstantNotFound(a, i),
        ) && a@ == n && i == index,
        FieldRefCheck::Unresolved(sr) => e matches StepError::Internal(ie) && search_error(
            sr,
            ie,
            InternalError::FieldNotFound,
        ),
        FieldRefCheck::Resolved(_, _) => false,
    }
}

/// The type of a value as `putfield` checks it against the field's descriptor
/// (`I`, `Null`, `[I`, `Ljava/lang/String;`); none for a value whose type
/// cannot be told, on which the machine stops.
pub open spec fn value_type_name(h: Seq<(ju4, Instance)>, v: Type) -> Option<Seq<char>> {
    match v {
        Type::Byte(_) => Some("B"@),
        Type::Boolean(_) => Some("Z"@),
        Type::Character(_) => Some("C"@),
        Type::Short(_) => Some("S"@),
        Type::Integer(_) => Some("I"@),
        Type::Float(_) => Some("F"@),
        Type::Long(_) => Some("J"@),
        Type::Double(_) => Some("D"@),
        Type::Null => Some("Null"@),
        Type::ArrayRef(x) => match array_at(h, x) {
            Some(a) => Some(a.classname@),
            None => None,
        },
        Type::ObjectRef(o) => match object_at(h, o) {
            Some(ob) => Some("L"@ + ob.classname@ + ";"@),
            None => None,
        },
        _ => None,
    }
}

/// Whether `getfield` stops the machine.
pub open spec fn getfield_stops(s: Seq<FrameView>, h: Seq<(ju4, Instance)>, cs: Seq<(Seq<char>, ClassFileView)>) -> bool {
    match read_u16(s) {
        Exec::Done(t, index) => match field_ref_of(t, cs, index) {
            FieldRefCheck::Resolved(fname, _) => match pop_value(t) {
                Exec::Panic => true,
                Exec::Done(_, Type::ObjectRef(o)) => match object_at(h, o) {
                    Some(ob) => field_of(ob, fname) matches Some(v) && v is _Unitialized,
                    None => false,
                },
                _ => false,
            },
            _ => false,
        },
        _ => false,
    }
}

/// `getfield`: resolves the field reference, pops an object reference and pushes
/// the object's value of the field.
pub open spec fn getfield_outcome(
    s: Seq<FrameView>,
    h: Seq<(ju4, Instance)>,
    cs: Seq<(Seq<char>, ClassFileView)>,
    s2: Seq<FrameView>,
    r: Result<Option<Type>, StepError>,
) -> bool {
    match read_u16(s) {
        Exec::Done(t, index) => match field_ref_of(t, cs, index) {
            FieldRefCheck::Resolved(fname, _) => match pop_value(t) {
                Exec::Done(t2, obj) => match obj {
                    Type::ObjectRef(o) => match instance_at(h, o) {
                        Some(Instance::ObjectInstance(ob)) => match field_of(ob, fname) {
                            Some(v) => outcome(push_done(t2, v), s2, r),
                            None => s2 == t2 && r == Err::<Option<Type>, StepError>(
                                StepError::Internal(InternalError::FieldNotFound),
                            ),
                        },
                        Some(Instance::ArrayInstance(_)) => s2 == t2 && r == Err::<Option<Type>, StepError>(
                            StepError::Internal(InternalError::NotAnObject(o)),
                        ),
                        None => s2 == t2 && r == Err::<Option<Type>, StepError>(
                            StepError::Internal(InternalError::InstanceNotFound(o)),
                        ),
                    },
                    Type::Null => s2 == t2 && r == Err::<Option<Type>, StepError>(
                        StepError::Java(JavaException::NullPointer),
                    ),
                    _ => s2 == t2 && r == Err::<Option<Type>, StepError>(
                        StepError::Internal(InternalError::WrongType("ObjectRef", obj)),
                    ),
                },
                Exec::Fail(t2, e) => s2 == t2 && r == Err::<Option<Type>, StepError>(e),
                Exec::Panic => false,
            },
            k => s2 == t && (r matches Err(e) && field_ref_error(k, index, e)),
        },
        Exec::Fail(t, e) => s2 == t && r == Err::<Option<Type>, StepError>(e),
        Exec::Panic => false,
    }
}

/// Whether storing `value` in the field `fname` (of descriptor `ftype`) of the
/// object `objref` stops the machine: the value's type cannot be told, or the
/// check of the assignment stops.
pub open spec fn put_stops(
    h: Seq<(ju4, Instance)>,
    cs: Seq<(Seq<char>, ClassFileView)>,
    ftype: Seq<char>,
    value: Type,
    objref: Type,
) -> bool {
    match objref {
        Type::ObjectRef(o) => match value_type_name(h, value) {
            None => true,
            Some(vt) => object_at(h, o) is Some && assign_stops(cs, ftype, vt),
        },
        _ => false,
    }
}

/// What storing `value` in the field `fname` (of descriptor `ftype`) of the
/// object `objref` does to the heap `h` (giving `h2`) and returns.
pub open spec fn put_effect(
    h: Seq<(ju4, Instance)>,
    h2: Seq<(ju4, Instance)>,
    cs: Seq<(Seq<char>, ClassFileView)>,
    fname: Seq<char>,
    ftype: Seq<char>,
    value: Type,
    objref: Type,
    r: Result<Option<Type>, StepError>,
) -> bool {
    match objref {
        Type::ObjectRef(o) => match value_type_name(h, value) {
            None => false,
            Some(vt) => match instance_at(h, o) {
                None => r == Err::<Option<Type>, StepError>(StepError::Internal(InternalError::InstanceNotFound(o)))
                    && h2 == h,
                Some(Instance::ArrayInstance(_)) => r == Err::<Option<Type>, StepError>(
                    StepError::Internal(InternalError::NotAnObject(o)),
                ) && h2 == h,
                Some(Instance::ObjectInstance(ob)) => match assignable(cs, ftype, vt) {
                    Search::Found(true) => if holds_field(ob, fname) {
                        r == Ok::<Option<Type>, StepError>(None) && (object_at(h2, o) matches Some(nb) && put_into(
                            ob,
                            nb,
                            fname,
                            value,
                        )) && same_but(h, h2, o)
                    } else {
                        r == Err::<Option<Type>, StepError>(StepError::Internal(InternalError::FieldNotFound)) && h2
                            == h
                    },
                    Search::Found(false) => (r matches Err(StepError::Internal(InternalError::WrongClass(a, b))) && a@
                        == ftype && b@ == vt) && h2 == h,
                    sr => (r matches Err(StepError::Internal(e)) && search_error(sr, e, InternalError::FieldNotFound))
                        && h2 == h,
                },
            },
        },
        _ => r == Err::<Option<Type>, StepError>(StepError::Internal(InternalError::WrongType("ObjectRef", objref)))
            && h2 == h,
    }
}

/// Whether `putfield` stops the machine.
pub open spec fn putfield_stops(s: Seq<FrameView>, h: Seq<(ju4, Instance)>, cs: Seq<(Seq<char>, ClassFileView)>) -> bool {
    match read_u16(s) {
        Exec::Done(t, index) => match field_ref_of(t, cs, index) {
            FieldRefCheck::Resolved(_, ftype) => match pop_value(t) {
                Exec::Panic => true,
                Exec::Done(t2, value) => match pop_value(t2) {
                    Exec::Panic => true,
                    Exec::Done(_, objref) => put_stops(h, cs, ftype, value, objref),
                    Exec::Fail(_, _) => false,
                },
                Exec::Fail(_, _) => false,
            },
            _ => false,
        },
        _ => false,
    }
}

/// `putfield`: resolves the field reference, pops the value and the object
/// reference, and stores the value in the object's field.
pub open spec fn putfield_outcome(
    s: Seq<FrameView>,
    h: Seq<(ju4, Instance)>,
    cs: Seq<(Seq<char>, ClassFileView)>,
    s2: Seq<FrameView>,
    h2: Seq<(ju4, Instance)>,
    r: Result<Option<Type>, StepError>,
) -> bool {
    match read_u16(s) {
        Exec::Done(t, index) => match field_ref_of(t, cs, index) {
            FieldRefCheck::Resolved(fname, ftype) => match pop_value(t) {
                Exec::Done(t2, value) => match pop_value(t2) {
                    Exec::Done(t3, objref) => s2 == t3 && put_effect(h, h2, cs, fname, ftype, value, objref, r),
                    Exec::Fail(t3, e) => s2 == t3 && r == Err::<Option<Type>, StepError>(e) && h2 == h,
                    Exec::Panic => false,
                },
                Exec::Fail(t2, e) => s2 == t2 && r == Err::<Option<Type>, StepError>(e) && h2 == h,
                Exec::Panic => false,
            },
            k => s2 == t && (r matches Err(e) && field_ref_error(k, index, e)) && h2 == h,
        },
        Exec::Fail(t, e) => s2 == t && r == Err::<Option<Type>, StepError>(e) && h2 == h,
        Exec::Panic => false,
    }
}

impl Type {
    /// The type of the value as `putfield` checks it (see `value_type_name`).
    pub fn get_type(&self, heap: &Heap) -> (r: String)
        requires
            value_type_name(heap.heap@, *self) is Some,
        ensures
            Some(r@) == value_type_name(heap.heap@, *self),
    {
        match self {
            Type::Byte(_) => "B".to_string(),
            Type::Boolean(_) => "Z".to_string(),
            Type::Character(_) => "C".to_string(),
            Type::Short(_) => "S".to_string(),
            Type::Integer(_) => "I".to_string(),
            Type::Float(_) => "F".to_string(),
            Type::Long(_) => "J".to_string(),
            Type::Double(_) => "D".to_string(),
            Type::Null => "Null".to_string(),
            Type::ArrayRef(x) => match heap.get_instance(*x) {
                Ok(Instance::ArrayInstance(a)) => a.get_classname().to_string(),
                _ => vstd::pervasive::unreached(),
            },
            Type::ObjectRef(o) => match heap.get_instance(*o) {
                Ok(Instance::ObjectInstance(ob)) => {
                    let mut name = String::new();
                    name.append("L");
                    name.append(ob.get_classname());
                    name.append(";");
                    assert(name@ =~= "L"@ + ob.classname@ + ";"@);
                    name
                },
                _ => vstd::pervasive::unreached(),
            },
            _ => vstd::pervasive::unreached(),
        }
    }
}

impl JVM {
    /// The class whose method the current frame runs.
    pub fn get_current_class<'a>(&self, loader: &'a ClassLoader) -> (r: Result<&'a ClassFile, StepError>)
        ensures
            match frame_class(self@, loader.classes_view()) {
                Some(c) => (r matches Ok(k) && k@ == c),
                None => if self@.len() == 0 {
                    r == Err::<&ClassFile, StepError>(no_frame())
                } else {
                    r matches Err(StepError::Internal(InternalError::ClassNotFound(a))) && a@ == slashed(
                        self@.last().class,
                    )
                },
            },
    {
        if self.frames.len() == 0 {
            return Err(StepError::Internal(InternalError::FrameNotFound));
        }
        let name = self.frames[self.frames.len() - 1].get_classname();
        proof {
            loader.lemma_get(name@);
        }
        match loader.get(name.as_str()) {
            Ok(c) => Ok(c),
            Err(e) => Err(StepError::Internal(e)),
        }
    }

    /// The class that the `Class` entry at `index` of the pool names.
    pub(crate) fn class_operand_name(class: &ClassFile, index: u16) -> (r: Result<String, StepError>)
        requires
            class_operand(class@, index) is Some,
        ensures
            match class_operand(class@, index) {
                Some(Ok(n)) => (r matches Ok(t) && t@ == n),
                Some(Err(e)) => r == Err::<String, StepError>(StepError::Format(e)),
                None => false,
            },
    {
        let item = match class.resolve_index(index) {
            Ok(i) => i,
            Err(e) => {
                return Err(StepError::Format(e));
            },
        };
        match item.get_info() {
            CpInfoInfoEnum::Class(ci) => match class.resolve_name(ci.get_name_index()) {
                Ok(n) => Ok(n),
                Err(e) => Err(StepError::Format(e)),
            },
            CpInfoInfoEnum::Interfaceref(_) => vstd::pervasive::unreached(),
            _ => Err(StepError::Format(FormatError::NotClass(index))),
        }
    }

    /// Whether the instance `o` is of the class named at `index` of the pool of
    /// the current class.
    fn check_cast(&self, heap: &Heap, loader: &ClassLoader, o: u32, index: u16) -> (r: Result<bool, StepError>)
        requires
            self@.len() > 0,
            !(cast_check(self@, heap.heap@, loader.classes_view(), o, index) is Stops),
        ensures
            match cast_check(self@, heap.heap@, loader.classes_view(), o, index) {
                CastCheck::Decided(Search::Found(b)) => r == Ok::<bool, StepError>(b),
                k => r matches Err(e) && check_error(k, e),
            },
    {
        let inst = match heap.get_instance(o) {
            Ok(i) => i,
            Err(_) => {
                return Err(StepError::Internal(InternalError::InstanceNotFound(o)));
            },
        };
        let class = self.get_current_class(loader)?;
        let name = JVM::class_operand_name(class, index)?;
        match Type::check_type(loader, name.as_str(), inst.get_classname()) {
            Ok(b) => Ok(b),
            Err(e) => Err(StepError::Internal(e)),
        }
    }

    /// `checkcast`.
    pub fn exec_checkcast(&mut self, heap: &Heap, loader: &ClassLoader) -> (r: Result<Option<Type>, StepError>)
        requires
            !checkcast_stops(old(self)@, heap.heap@, loader.classes_view()),
        ensures
            checkcast_outcome(old(self)@, heap.heap@, loader.classes_view(), final(self)@, r),
            final(self).counter == old(self).counter,
    {
        let v = self.pop_stack()?;
        let index = self.read_operand_u16()?;
        match v {
            Type::Null => self.push_and_finish(v),
            Type::ObjectRef(o) | Type::ArrayRef(o) => {
                let fits = self.check_cast(heap, loader, o, index)?;
                if fits {
                    self.push_and_finish(v)
                } else {
                    vstd::pervasive::unreached()
                }
            },
            _ => Err(StepError::Internal(InternalError::WrongType("reference", v))),
        }
    }

    /// `instanceof`.
    pub fn exec_instanceof(&mut self, heap: &Heap, loader: &ClassLoader) -> (r: Result<Option<Type>, StepError>)
        requires
            !instanceof_stops(old(self)@, heap.heap@, loader.classes_view()),
        ensures
            instanceof_outcome(old(self)@, heap.heap@, loader.classes_view(), final(self)@, r),
            final(self).counter == old(self).counter,
    {
        let v = self.pop_stack()?;
        let index = self.read_operand_u16()?;
        match v {
            Type::Null => self.push_and_finish(Type::Integer(0)),
            Type::ObjectRef(o) | Type::ArrayRef(o) => {
                let fits = self.check_cast(heap, loader, o, index)?;
                self.push_and_finish(Type::Integer(if fits { 1 } else { 0 }))
            },
            _ => Err(StepError::Internal(InternalError::WrongType("reference", v))),
        }
    }

    /// `aastore`.
    pub fn exec_aastore(&mut self, heap: &mut Heap, loader: &ClassLoader) -> (r: Result<Option<Type>, StepError>)
        requires
            runs(aastore_operands(old(self)@)),
            aastore_operands(old(self)@) matches Exec::Done(_, (value, index, av)) ==> !aastore_stops(
                old(heap).heap@,
                loader.classes_view(),
                value,
                index,
                av,
            ),
        ensures
            match aastore_operands(old(self)@) {
                Exec::Done(s, (value, index, av)) => final(self)@ == s && aastore_effect(
                    old(heap).heap@,
                    final(heap).heap@,
                    loader.classes_view(),
                    value,
                    index,
                    av,
                    r,
                ),
                Exec::Fail(s, e) => final(self)@ == s && r == Err::<Option<Type>, StepError>(e) && final(heap).heap@
                    == old(heap).heap@,
                Exec::Panic => false,
            },
            final(self).counter == old(self).counter,
            final(heap).next_obj_ref == old(heap).next_obj_ref,
    {
        let value = self.pop_stack()?;
        let index = self.pop_ioperand()?;
        let array_ref = self.pop_stack()?;
        let x = match array_ref {
            Type::ArrayRef(x) => x,
            _ => {
                return Err(StepError::Java(JavaException::NullPointer));
            },
        };
        let class = {
            let array = JVM::target(heap, x)?;
            match value {
                Type::Null => {},
                Type::ObjectRef(o) | Type::ArrayRef(o) => {
                    let inst = match heap.get_instance(o) {
                        Ok(i) => i,
                        Err(_) => {
                            return Err(StepError::Internal(InternalError::InstanceNotFound(o)));
                        },
                    };
                    match Type::check_type(loader, array.get_element_classname(), inst.get_classname()) {
                        Ok(true) => {},
                        Ok(false) => {
                            return Err(
                                StepError::Internal(
                                    InternalError::WrongClass(
                                        array.get_element_classname().to_string(),
                                        inst.get_classname().to_string(),
                                    ),
                                ),
                            );
                        },
                        Err(e) => {
                            return Err(StepError::Internal(e));
                        },
                    }
                },
                _ => {
                    return Err(StepError::Internal(InternalError::WrongType("ArrayRef/Null", value)));
                },
            }
            if index as usize >= array.len() {
                return Err(StepError::Java(JavaException::ArrayIndexOutOfBounds(index as usize, array.len())));
            }
            array.get_classname().to_string()
        };
        JVM::store_element(heap, x, index as usize, value, class.as_str())
    }

    /// `monitorenter` (`enter`) or `monitorexit`.
    fn exec_monitor(&mut self, heap: &mut Heap, enter: bool) -> (r: Result<Option<Type>, StepError>)
        requires
            runs(pop_value(old(self)@)),
        ensures
            match pop_value(old(self)@) {
                Exec::Done(s, v) => final(self)@ == s && monitor_effect(old(heap).heap@, final(heap).heap@, v, enter, r),
                Exec::Fail(s, e) => final(self)@ == s && r == Err::<Option<Type>, StepError>(e) && final(heap).heap@
                    == old(heap).heap@,
                Exec::Panic => false,
            },
            final(self).counter == old(self).counter,
            final(heap).next_obj_ref == old(heap).next_obj_ref,
    {
        let v = self.pop_stack()?;
        let o = match v {
            Type::ObjectRef(o) => o,
            Type::Null => {
                return Err(StepError::Java(JavaException::NullPointer));
            },
            _ => {
                return Err(StepError::Internal(InternalError::WrongType("ObjectRef", v)));
            },
        };
        match heap.get_instance(o) {
            Ok(Instance::ObjectInstance(_)) => {},
            Ok(Instance::ArrayInstance(_)) => {
                return Err(StepError::Internal(InternalError::NotAnObject(o)));
            },
            Err(_) => {
                return Err(StepError::Internal(InternalError::InstanceNotFound(o)));
            },
        }
        let ghost h = heap.heap@;
        proof {
            lemma_find_instance(h, o, 0);
        }
        match heap.get_obj_instance_mut(o) {
            Ok(obj) => {
                if enter {
                    obj.monitorenter();
                } else {
                    obj.monitorexit();
                }
            },
            Err(_) => {
                vstd::pervasive::unreached::<()>();
            },
        }
        proof {
            let k = crate::heap::find_instance(h, o, 0)->0;
            lemma_put_instance(h, heap.heap@, o, heap.heap@[k].1);
            if !enter {
                assert(heap.heap@ =~= h);
            }
        }
        Ok(None)
    }

    /// `monitorenter`.
    pub fn exec_monitorenter(&mut self, heap: &mut Heap) -> (r: Result<Option<Type>, StepError>)
        requires
            runs(pop_value(old(self)@)),
        ensures
            match pop_value(old(self)@) {
                Exec::Done(s, v) => final(self)@ == s && monitor_effect(old(heap).heap@, final(heap).heap@, v, true, r),
                Exec::Fail(s, e) => final(self)@ == s && r == Err::<Option<Type>, StepError>(e) && final(heap).heap@
                    == old(heap).heap@,
                Exec::Panic => false,
            },
            final(self).counter == old(self).counter,
            final(heap).next_obj_ref == old(heap).next_obj_ref,
    {
        self.exec_monitor(heap, true)
    }

    /// `monitorexit`.
    pub fn exec_monitorexit(&mut self, heap: &mut Heap) -> (r: Result<Option<Type>, StepError>)
        requires
            runs(pop_value(old(self)@)),
        ensures
            match pop_value(old(self)@) {
                Exec::Done(s, v) => final(self)@ == s && monitor_effect(old(heap).heap@, final(heap).heap@, v, false, r),
                Exec::Fail(s, e) => final(self)@ == s && r == Err::<Option<Type>, StepError>(e) && final(heap).heap@
                    == old(heap).heap@,
                Exec::Panic => false,
            },
            final(self).counter == old(self).counter,
            final(heap).next_obj_ref == old(heap).next_obj_ref,
    {
        self.exec_monitor(heap, false)
    }

    /// `newarray`.
    pub fn exec_newarray(&mut self, heap: &mut Heap) -> (r: Result<Option<Type>, StepError>)
        requires
            !newarray_stops(old(self)@),
            1 <= old(heap).next_obj_ref < u32::MAX,
        ensures
            match newarray_operands(old(self)@) {
                Exec::Done(t, (a, size)) => match newarray_class(a) {
                    Some(c) => outcome(push_done(t, Type::ArrayRef(old(heap).next_obj_ref)), final(self)@, r)
                        && array_added(
                        old(heap).heap@,
                        old(heap).next_obj_ref,
                        final(heap).heap@,
                        final(heap).next_obj_ref,
                        c,
                        size,
                    ),
                    None => final(self)@ == t && r == Err::<Option<Type>, StepError>(
                        StepError::Internal(InternalError::UnknownArrayType(a)),
                    ) && final(heap).heap@ == old(heap).heap@ && final(heap).next_obj_ref == old(heap).next_obj_ref,
                },
                Exec::Fail(t, e) => final(self)@ == t && r == Err::<Option<Type>, StepError>(e) && final(heap).heap@
                    == old(heap).heap@ && final(heap).next_obj_ref == old(heap).next_obj_ref,
                Exec::Panic => false,
            },
            final(self).counter == old(self).counter,
    {
        let atype = self.read_operand_u8()?;
        let size = self.pop_ioperand()?;
        let class_name = if atype == 4 {
            "Z"
        } else if atype == 5 {
            "C"
        } else if atype == 6 {
            "F"
        } else if atype == 7 {
            "D"
        } else if atype == 8 {
            "B"
        } else if atype == 9 {
            "S"
        } else if atype == 10 {
            "I"
        } else if atype == 11 {
            "J"
        } else {
            return Err(StepError::Internal(InternalError::UnknownArrayType(atype)));
        };
        proof {
            lemma_newarray_defaults(atype);
        }
        let array_ref = match heap.alloc_array_primitive(class_name, Vec::new(), size as usize) {
            Ok(a) => a,
            Err(_) => vstd::pervasive::unreached(),
        };
        self.push_and_finish(array_ref)
    }

    /// `anewarray`.
    pub fn exec_anewarray(&mut self, heap: &mut Heap, loader: &ClassLoader) -> (r: Result<Option<Type>, StepError>)
        requires
            !anewarray_stops(old(self)@, loader.classes_view()),
            1 <= old(heap).next_obj_ref < u32::MAX,
        ensures
            anewarray_outcome(
                old(self)@,
                old(heap).heap@,
                old(heap).next_obj_ref,
                loader.classes_view(),
                final(self)@,
                final(heap).heap@,
                final(heap).next_obj_ref,
                r,
            ),
            final(self).counter == old(self).counter,
    {
        let index = self.read_operand_u16()?;
        let class = self.get_current_class(loader)?;
        if let Err(e) = class.resolve_index(index) {
            return Err(StepError::Format(e));
        }
        let size = self.pop_ioperand()?;
        let name = JVM::class_operand_name(class, index)?;
        let array_ref = match heap.alloc_array(name.as_str(), Vec::new(), size as usize) {
            Ok(a) => a,
            Err(_) => vstd::pervasive::unreached(),
        };
        self.push_and_finish(array_ref)
    }

    /// `new`.
    pub fn exec_new(&mut self, heap: &mut Heap, loader: &ClassLoader) -> (r: Result<Option<Type>, StepError>)
        requires
            runs(read_u16(old(self)@)),
            1 <= old(heap).next_obj_ref,
            old(heap).next_obj_ref + loader.classes@.len() + 1 <= u32::MAX,
            loader_defaults_ok(loader.classes_view()),
        ensures
            new_outcome(
                old(self)@,
                old(heap).heap@,
                old(heap).next_obj_ref,
                loader.classes_view(),
                final(self)@,
                final(heap).heap@,
                r,
            ),
            old(heap).next_obj_ref <= final(heap).next_obj_ref <= old(heap).next_obj_ref + loader.classes@.len() + 1,
            unchanged_below(old(heap).heap@, final(heap).heap@, old(heap).next_obj_ref),
            final(self).counter == old(self).counter,
    {
        let index = self.read_operand_u16()?;
        let class = self.get_current_class(loader)?;
        let class_name = match class.resolve_class_name(index) {
            Ok(n) => n,
            Err(e) => {
                return Err(StepError::Format(e));
            },
        };
        let obj = match heap.alloc_obj(loader, class_name.as_str()) {
            Ok(o) => o,
            Err(e) => {
                return Err(StepError::Internal(e));
            },
        };
        self.push_and_finish(obj)
    }

    /// The name and descriptor of the field reference at `index`, resolved from
    /// the current class up.
    fn resolve_field(&self, loader: &ClassLoader, index: u16) -> (r: Result<(String, String), StepError>)
        requires
            self@.len() > 0,
        ensures
            match field_ref_of(self@, loader.classes_view(), index) {
                FieldRefCheck::Resolved(n, d) => (r matches Ok((a, b)) && a@ == n && b@ == d),
                k => r matches Err(e) && field_ref_error(k, index, e),
            },
    {
        let class = self.get_current_class(loader)?;
        match loader.resolve_field_ref(class.get_name(), index) {
            Ok((_, name, descriptor)) => Ok((name, descriptor)),
            Err(e) => Err(StepError::Internal(e)),
        }
    }

    /// `getfield`.
    pub fn exec_getfield(&mut self, heap: &Heap, loader: &ClassLoader) -> (r: Result<Option<Type>, StepError>)
        requires
            runs(read_u16(old(self)@)),
            !getfield_stops(old(self)@, heap.heap@, loader.classes_view()),
        ensures
            getfield_outcome(old(self)@, heap.heap@, loader.classes_view(), final(self)@, r),
            final(self).counter == old(self).counter,
    {
        let index = self.read_operand_u16()?;
        let (field_name, _) = self.resolve_field(loader, index)?;
        let obj = self.pop_stack()?;
        let value = match obj {
            Type::ObjectRef(o) => match heap.get_instance(o) {
                Ok(Instance::ObjectInstance(ob)) => match ob.get_field(field_name.as_str()) {
                    Ok(v) => v,
                    Err(e) => {
                        return Err(StepError::Internal(e));
                    },
                },
                Ok(Instance::ArrayInstance(_)) => {
                    return Err(StepError::Internal(InternalError::NotAnObject(o)));
                },
                Err(_) => {
                    return Err(StepError::Internal(InternalError::InstanceNotFound(o)));
                },
            },
            Type::Null => {
                return Err(StepError::Java(JavaException::NullPointer));
            },
            _ => {
                return Err(StepError::Internal(InternalError::WrongType("ObjectRef", obj)));
            },
        };
        self.push_and_finish(value)
    }

    /// `putfield`.
    pub fn exec_putfield(&mut self, heap: &mut Heap, loader: &ClassLoader) -> (r: Result<Option<Type>, StepError>)
        requires
            runs(read_u16(old(self)@)),
            !putfield_stops(old(self)@, old(heap).heap@, loader.classes_view()),
        ensures
            putfield_outcome(old(self)@, old(heap).heap@, loader.classes_view(), final(self)@, final(heap).heap@, r),
            final(heap).next_obj_ref == old(heap).next_obj_ref,
            final(self).counter == old(self).counter,
    {
        let index = self.read_operand_u16()?;
        let (field_name, field_type) = self.resolve_field(loader, index)?;
        let value = self.pop_stack()?;
        let objref = self.pop_stack()?;
        let o = match objref {
            Type::ObjectRef(o) => o,
            _ => {
                return Err(StepError::Internal(InternalError::WrongType("ObjectRef", objref)));
            },
        };
        let value_type = value.get_type(heap);
        match heap.get_instance(o) {
            Ok(Instance::ObjectInstance(_)) => {},
            Ok(Instance::ArrayInstance(_)) => {
                return Err(StepError::Internal(InternalError::NotAnObject(o)));
            },
            Err(_) => {
                return Err(StepError::Internal(InternalError::InstanceNotFound(o)));
            },
        }
        match Type::check_type(loader, field_type.as_str(), value_type.as_str()) {
            Ok(true) => {},
            Ok(false) => {
                return Err(StepError::Internal(InternalError::WrongClass(field_type, value_type)));
            },
            Err(e) => {
                return Err(StepError::Internal(e));
            },
        }
        let ghost h = heap.heap@;
        proof {
            lemma_find_instance(h, o, 0);
        }
        let res = match heap.get_obj_instance_mut(o) {
            Ok(obj) => obj.put_field(field_name.as_str(), value),
            Err(_) => vstd::pervasive::unreached(),
        };
        proof {
            let k = crate::heap::find_instance(h, o, 0)->0;
            lemma_put_instance(h, heap.heap@, o, heap.heap@[k].1);
            if res is Err {
                assert(heap.heap@ =~= h);
            }
        }
        match res {
            Ok(()) => Ok(None),
            Err(e) => Err(StepError::Internal(e)),
        }
    }
}

} // verus!
