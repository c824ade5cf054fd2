use vstd::prelude::*;

use crate::errors::{InternalError, JavaException, RuntimeError};
use crate::frame::FrameView;
use crate::class_loader::class_file::ClassFileView;
use crate::class_loader::loader::ClassLoader;
use crate::heap::{
    Heap,
    array_at,
    class_obj_budget,
    class_obj_ready,
    class_object,
    find_instance,
    instance_at,
    lemma_find_instance,
    lemma_put_instance,
    loader_defaults_ok,
    object_at,
    ref_of,
    readable_string,
    ref_value,
    string_text,
    same_but,
    unchanged_below,
};
use crate::modulemanager::ModuleManager;
use crate::objects::instance_class;
use crate::member_info::{member_vm_info_outcome, member_vm_info_stops};
use crate::native_classes::{
    base_offset_outcome,
    base_offset_stops,
    field_offset_outcome,
    field_offset_stops,
    platform_properties_outcome,
    platform_properties_stops,
    superclass_outcome,
    superclass_stops,
    assignable_from_outcome,
    assignable_from_stops,
    init_class_name_outcome,
    init_class_name_stops,
    class_access_flags_outcome,
    clone_outcome,
    clone_stops,
    get_modifiers_outcome,
    get_modifiers_stops,
    is_interface_outcome,
    is_interface_stops,
    primitive_class_outcome,
    primitive_class_stops,
};
use crate::instance::{ArrayInstance, Instance, field_of, storable};
use crate::text::{starts_with_char, str_eq};
use crate::jvm::{Exec, JVM, StepError, pop_ref_value, pop_value, push_value, runs};
use crate::natives::{NativeRoutine, native_routine, native_routine_of};
use crate::types::Type;
use crate::utils::{get_index_scale, index_scale};

verus! {

/// What a call of a native method comes to.
#[derive(Debug)]
pub enum Native {
    /// The routine ran here (what it returns is on the operand stack).
    Done,
    /// `MethodHandleNatives.getMemberVMInfo` of a method or a constructor: the
    /// host runs `MethodType.descriptorString` on `method_type` and calls
    /// `finish_member_vm_info` with the string it returns.
    DescribeMember { member_name: u32, method_type: u32, member_class: String, member: String, flags: i32 },
    /// The routine is the host's work (it reads or writes the console, files,
    /// the clock, threads or the machine it runs on, or is not carried out
    /// here); its arguments are left on the operand stack.
    Host(NativeRoutine),
}

/// The operands of `System.arraycopy`, popped last first: the source array,
/// the source position, the destination array, the destination position and
/// the length.
pub open spec fn arraycopy_operands(s: Seq<FrameView>) -> Exec<(Type, Type, Type, Type, Type)> {
    match pop_value(s) {
        Exec::Done(s1, length) => match pop_value(s1) {
            Exec::Done(s2, destpos) => match pop_value(s2) {
                Exec::Done(s3, dest) => match pop_value(s3) {
                    Exec::Done(s4, srcpos) => match pop_value(s4) {
                        Exec::Done(s5, src) => Exec::Done(s5, (src, srcpos, dest, destpos, length)),
                        Exec::Fail(t, e) => Exec::Fail(t, e),
                        Exec::Panic => Exec::Panic,
                    },
                    Exec::Fail(t, e) => Exec::Fail(t, e),
                    Exec::Panic => Exec::Panic,
                },
                Exec::Fail(t, e) => Exec::Fail(t, e),
                Exec::Panic => Exec::Panic,
            },
            Exec::Fail(t, e) => Exec::Fail(t, e),
            Exec::Panic => Exec::Panic,
        },
        Exec::Fail(t, e) => Exec::Fail(t, e),
        Exec::Panic => Exec::Panic,
    }
}

/// The elements of the destination `d` once `len` elements of `src` from
/// `sp` are copied in from `dp`.
pub open spec fn copied(d: Seq<Type>, src: Seq<Type>, sp: int, dp: int, len: int) -> Seq<Type> {
    Seq::new(d.len(), |j: int| if dp <= j < dp + len { src[sp + (j - dp)] } else { d[j] })
}

/// Whether the checks of `arraycopy` pass: both arrays exist and each range
/// lies within its array.
pub open spec fn copy_in_bounds(a: ArrayInstance, b: ArrayInstance, sp: i32, dp: i32, len: i32) -> bool {
    &&& 0 <= sp + len <= a.elements@.len()
    &&& 0 <= dp + len <= b.elements@.len()
}

/// Whether `arraycopy` stops the machine: a position plus the length leaves
/// the range of `int`, or a copied value cannot be stored in the destination.
pub open spec fn arraycopy_stops(s: Seq<FrameView>, h: Seq<(u32, Instance)>) -> bool {
    match arraycopy_operands(s) {
        Exec::Done(_, (Type::ArrayRef(x), Type::Integer(sp), Type::ArrayRef(y), Type::Integer(dp), Type::Integer(len))) => {
            ||| sp + len < i32::MIN || sp + len > i32::MAX || dp + len < i32::MIN || dp + len > i32::MAX
            ||| (array_at(h, x) matches Some(a) && array_at(h, y) matches Some(b) && copy_in_bounds(a, b, sp, dp, len)
                && len > 0 && sp >= 0 && dp >= 0 && !(forall|i: int|
                0 <= i < len ==> #[trigger] storable(b.classname@, a.elements@[sp + i])))
        },
        Exec::Panic => true,
        _ => false,
    }
}

/// The check of an array operand of `arraycopy`.
pub open spec fn array_error(h: Seq<(u32, Instance)>, x: u32, r: Result<Native, StepError>) -> bool {
    match instance_at(h, x) {
        Some(Instance::ObjectInstance(o)) => (r matches Err(StepError::Internal(InternalError::WrongInstance(_, n))) && n@
            == o.classname@),
        Some(Instance::ArrayInstance(_)) => false,
        None => r matches Err(StepError::Internal(InternalError::General(_))),
    }
}

/// `System.arraycopy(src, srcPos, dest, destPos, length)`: after the operand
/// checks, the elements of the source range (as they were before the copy)
/// replace those of the destination range; nothing else changes.
pub open spec fn arraycopy_outcome(
    s: Seq<FrameView>,
    h: Seq<(u32, Instance)>,
    h2: Seq<(u32, Instance)>,
    s2: Seq<FrameView>,
    r: Result<Native, StepError>,
) -> bool {
    match arraycopy_operands(s) {
        Exec::Done(t, (src, srcpos, dest, destpos, length)) => s2 == t && match (src, srcpos, dest, destpos, length) {
            (Type::ArrayRef(x), Type::Integer(sp), Type::ArrayRef(y), Type::Integer(dp), Type::Integer(len)) => match (
                array_at(h, x),
                array_at(h, y),
            ) {
                (None, _) => h2 == h && array_error(h, x, r),
                (Some(_), None) => h2 == h && array_error(h, y, r),
                (Some(a), Some(b)) => if !copy_in_bounds(a, b, sp, dp, len) {
                    h2 == h && r matches Err(StepError::Internal(InternalError::General(_)))
                } else if len <= 0 {
                    h2 == h && r matches Ok(Native::Done)
                } else if sp < 0 || dp < 0 {
                    h2 == h && r matches Err(StepError::Java(JavaException::ArrayIndexOutOfBounds(_, _)))
                } else {
                    &&& r matches Ok(Native::Done)
                    &&& same_but(h, h2, y)
                    &&& array_at(h2, y) matches Some(b2) && b2.elements@ == copied(
                        b.elements@,
                        a.elements@,
                        sp as int,
                        dp as int,
                        len as int,
                    ) && b2.classname == b.classname && b2.array_ref == b.array_ref && b2.hash_code == b.hash_code
                },
            },
            (Type::ArrayRef(_), Type::Integer(_), Type::ArrayRef(_), Type::Integer(_), v) => h2 == h && r
                == Err::<Native, StepError>(StepError::Internal(InternalError::WrongType("Integer", v))),
            (Type::ArrayRef(_), Type::Integer(_), Type::ArrayRef(_), v, _) => h2 == h && r == Err::<Native, StepError>(
                StepError::Internal(InternalError::WrongType("Integer", v)),
            ),
            (Type::ArrayRef(_), Type::Integer(_), v, _, _) => h2 == h && r == Err::<Native, StepError>(
                StepError::Internal(InternalError::WrongType("ArrayRef", v)),
            ),
            (Type::ArrayRef(_), v, _, _, _) => h2 == h && r == Err::<Native, StepError>(
                StepError::Internal(InternalError::WrongType("Integer", v)),
            ),
            (v, _, _, _, _) => h2 == h && r == Err::<Native, StepError>(
                StepError::Internal(InternalError::WrongType("ArrayRef", v)),
            ),
        },
        Exec::Fail(t, e) => s2 == t && h2 == h && r == Err::<Native, StepError>(e),
        Exec::Panic => false,
    }
}

/// Whether `Object.hashCode` stops the machine: the hash cannot be pushed.
pub open spec fn hash_code_stops(s: Seq<FrameView>, h: Seq<(u32, Instance)>) -> bool {
    match pop_value(s) {
        Exec::Done(t, Type::ObjectRef(o)) => instance_at(h, o) matches Some(i) && !runs(
            push_value(t, Type::Integer(hash_of(i) as i32)),
        ),
        Exec::Done(t, Type::ArrayRef(o)) => instance_at(h, o) matches Some(i) && !runs(
            push_value(t, Type::Integer(hash_of(i) as i32)),
        ),
        Exec::Panic => true,
        _ => false,
    }
}

/// The identity hash of an instance.
pub open spec fn hash_of(i: Instance) -> u32 {
    match i {
        Instance::ObjectInstance(o) => o.hash_code,
        Instance::ArrayInstance(a) => a.hash_code,
    }
}

/// `Object.hashCode`: the object's identity hash, as an `int`, replaces it.
pub open spec fn hash_code_outcome(s: Seq<FrameView>, h: Seq<(u32, Instance)>, s2: Seq<FrameView>, r: Result<Native, StepError>) -> bool {
    match pop_value(s) {
        Exec::Done(t, v) => match v {
            Type::ObjectRef(o) => hash_pushed(t, h, o, s2, r),
            Type::ArrayRef(o) => hash_pushed(t, h, o, s2, r),
            _ => s2 == t && r == Err::<Native, StepError>(StepError::Internal(InternalError::WrongType("Ref", v))),
        },
        Exec::Fail(t, e) => s2 == t && r == Err::<Native, StepError>(e),
        Exec::Panic => false,
    }
}

/// Pushing the identity hash of the instance `o`.
pub open spec fn hash_pushed(t: Seq<FrameView>, h: Seq<(u32, Instance)>, o: u32, s2: Seq<FrameView>, r: Result<Native, StepError>) -> bool {
    match instance_at(h, o) {
        None => s2 == t && r matches Err(StepError::Internal(InternalError::General(_))),
        Some(i) => match push_value(t, Type::Integer(hash_of(i) as i32)) {
            Exec::Done(t2, _) => s2 == t2 && r matches Ok(Native::Done),
            Exec::Fail(t2, e) => s2 == t2 && r == Err::<Native, StepError>(e),
            Exec::Panic => false,
        },
    }
}

/// Whether `System.identityHashCode` stops the machine.
pub open spec fn identity_hash_stops(s: Seq<FrameView>) -> bool {
    pop_value(s) is Panic
}

/// `System.identityHashCode`: the identity hash of the object (a `null` stands
/// for the reference 0, which designates nothing), as an `int`, replaces it.
pub open spec fn identity_hash_outcome(s: Seq<FrameView>, h: Seq<(u32, Instance)>, s2: Seq<FrameView>, r: Result<Native, StepError>) -> bool {
    match pop_value(s) {
        Exec::Done(t, v) => match ref_value(v) {
            Some(o) => hash_pushed(t, h, o, s2, r),
            None => s2 == t && r matches Err(StepError::Internal(InternalError::General(_))),
        },
        Exec::Fail(t, e) => s2 == t && r == Err::<Native, StepError>(e),
        Exec::Panic => false,
    }
}

/// Whether `Object.getClass` stops the machine: no room for the `Class`
/// object of the object's class.
pub open spec fn get_class_stops(s: Seq<FrameView>, hp: Heap, cs: Seq<(Seq<char>, ClassFileView)>) -> bool {
    match pop_value(s) {
        Exec::Done(_, v) => match ref_value(v) {
            Some(o) => match instance_at(hp.heap@, o) {
                Some(i) => !(1 <= hp.next_obj_ref && hp.next_obj_ref + class_obj_budget(
                    instance_class(i).len(),
                    cs.len() as nat,
                ) <= u32::MAX && loader_defaults_ok(cs)),
                None => false,
            },
            None => false,
        },
        Exec::Panic => true,
        _ => false,
    }
}

/// `Object.getClass`: the `Class` object of the object's class (made if
/// needed) replaces the object.
pub open spec fn get_class_outcome(
    s: Seq<FrameView>,
    hp: Heap,
    hp2: Heap,
    cs: Seq<(Seq<char>, ClassFileView)>,
    mm: ModuleManager,
    s2: Seq<FrameView>,
    r: Result<Native, StepError>,
) -> bool {
    match pop_value(s) {
        Exec::Done(t, v) => match ref_value(v) {
            None => s2 == t && hp2 == hp && r matches Err(StepError::Internal(InternalError::General(_))),
            Some(o) => match instance_at(hp.heap@, o) {
                None => s2 == t && hp2 == hp && r matches Err(StepError::Internal(InternalError::General(_))),
                Some(i) => {
                    let n = instance_class(i);
                    &&& hp.next_obj_ref <= hp2.next_obj_ref
                    &&& unchanged_below(hp.heap@, hp2.heap@, hp.next_obj_ref)
                    &&& ref_of(hp.classes@, n) is Some ==> hp2.heap@ == hp.heap@
                    &&& ref_of(hp.classes@, n) is None && class_obj_ready(cs, mm, n) ==> r is Ok
                    &&& match r {
                        Ok(_) => ref_of(hp2.classes@, n) matches Some(x) && object_at(hp2.heap@, x) matches Some(co)
                            && (ref_of(hp.classes@, n) is None ==> class_object(co, hp2, cs, mm, n)) && r == Ok::<
                            Native,
                            StepError,
                        >(Native::Done) && push_value(t, Type::ObjectRef(co.obj_ref)) == Exec::Done(s2, ()),
                        Err(e) => s2 == t && e is Internal,
                    }
                },
            },
        },
        Exec::Fail(t, e) => s2 == t && hp2 == hp && r == Err::<Native, StepError>(e),
        Exec::Panic => false,
    }
}

/// The text of the `name` of the `Class` object `c` as `Class.isArray` and
/// `Class.isPrimitive` read it, or the error; `check_class` asks that the
/// object be of class `java/lang/Class`.
pub enum NameRead {
    Text(Seq<char>),
    Fails(StepError),
    FailsSomehow,
    Stops,
}

/// Reading the name of the `Class` object that the value `v` designates.
pub open spec fn class_name_text(h: Seq<(u32, Instance)>, v: Type, check_class: bool) -> NameRead {
    match v {
        Type::ObjectRef(c) => match instance_at(h, c) {
            None => NameRead::FailsSomehow,
            Some(Instance::ArrayInstance(_)) => NameRead::FailsSomehow,
            Some(Instance::ObjectInstance(o)) => if check_class && o.classname@ != "java/lang/Class"@ {
                NameRead::FailsSomehow
            } else {
                match field_of(o, "name"@) {
                    None => NameRead::Fails(StepError::Internal(InternalError::FieldNotFound)),
                    Some(t) => match ref_value(t) {
                        None => NameRead::Fails(StepError::Internal(InternalError::WrongType("Reference", t))),
                        Some(n) => if !readable_string(h, n) {
                            NameRead::Stops
                        } else {
                            match string_text(h, n) {
                                Some(x) => NameRead::Text(x),
                                None => NameRead::FailsSomehow,
                            }
                        },
                    },
                }
            },
        },
        _ => NameRead::FailsSomehow,
    }
}

/// Whether `Class.isArray` (`check_class` false) or `Class.isPrimitive`
/// (`check_class` true) stops the machine.
pub open spec fn class_test_stops(s: Seq<FrameView>, h: Seq<(u32, Instance)>, check_class: bool) -> bool {
    match pop_value(s) {
        Exec::Done(_, v) => class_name_text(h, v, check_class) is Stops,
        Exec::Panic => true,
        _ => false,
    }
}

/// `Class.isArray` (`check_class` false: whether the name starts with `[`) or
/// `Class.isPrimitive` (`check_class` true: whether the name is a primitive
/// type's): the answer replaces the `Class` object.
pub open spec fn class_test_outcome(
    s: Seq<FrameView>,
    h: Seq<(u32, Instance)>,
    check_class: bool,
    s2: Seq<FrameView>,
    r: Result<Native, StepError>,
) -> bool {
    match pop_value(s) {
        Exec::Done(t, v) => match class_name_text(h, v, check_class) {
            NameRead::Text(x) => {
                let b = if check_class {
                    crate::types::is_primitive_descriptor(x)
                } else {
                    x.len() > 0 && x[0] == '['
                };
                push_value(t, Type::Boolean(b)) == Exec::Done(s2, ()) && r == Ok::<Native, StepError>(
                    Native::Done,
                )
            },
            NameRead::Fails(e) => s2 == t && r == Err::<Native, StepError>(e),
            NameRead::FailsSomehow => s2 == t && r matches Err(StepError::Internal(_)),
            NameRead::Stops => false,
        },
        Exec::Fail(t, e) => s2 == t && r == Err::<Native, StepError>(e),
        Exec::Panic => false,
    }
}

/// Whether `Unsafe.arrayIndexScale0` stops the machine: the argument is no
/// object reference, or the class's name is not that of an array class.
pub open spec fn index_scale_stops(s: Seq<FrameView>, h: Seq<(u32, Instance)>) -> bool {
    match pop_value(s) {
        Exec::Done(_, v) => !(v is ObjectRef) || match class_name_text(h, v, false) {
            NameRead::Text(x) => index_scale(x) is None,
            NameRead::Stops => true,
            _ => false,
        },
        Exec::Panic => true,
        _ => false,
    }
}

/// `Unsafe.arrayIndexScale0`: the width in bytes of an element of the array
/// class (by the name of its `Class` object) replaces the `Class` object.
pub open spec fn index_scale_outcome(s: Seq<FrameView>, h: Seq<(u32, Instance)>, s2: Seq<FrameView>, r: Result<Native, StepError>) -> bool {
    match pop_value(s) {
        Exec::Done(t, v) => match class_name_text(h, v, false) {
            NameRead::Text(x) => {
                let w = Type::Integer(index_scale(x)->0 as i32);
                push_value(t, w) == Exec::Done(s2, ()) && r == Ok::<Native, StepError>(Native::Done)
            },
            NameRead::Fails(e) => s2 == t && r == Err::<Native, StepError>(e),
            NameRead::FailsSomehow => s2 == t && r matches Err(StepError::Internal(_)),
            NameRead::Stops => false,
        },
        Exec::Fail(t, e) => s2 == t && r == Err::<Native, StepError>(e),
        Exec::Panic => false,
    }
}

/// Whether `s2` and `r` are what pushing a value gave (`e`): the routine is
/// done with the value on the operand stack, or the push failed.
pub open spec fn pushed_outcome(e: Exec<()>, s2: Seq<FrameView>, r: Result<Native, StepError>) -> bool {
    match e {
        Exec::Done(t2, _) => s2 == t2 && r == Ok::<Native, StepError>(Native::Done),
        Exec::Fail(t2, x) => s2 == t2 && r == Err::<Native, StepError>(x),
        Exec::Panic => false,
    }
}

/// Whether the native method (class, name, descriptor) stops the machine.
pub open spec fn native_stops(s: Seq<FrameView>, hp: Heap, cs: Seq<(Seq<char>, ClassFileView)>, c: Seq<char>, n: Seq<char>, t: Seq<char>) -> bool {
    let h = hp.heap@;
    match native_routine_of(c, n, t) {
        Some(NativeRoutine::IdentityHashCode) => identity_hash_stops(s),
        Some(NativeRoutine::GetClass) => get_class_stops(s, hp, cs),
        Some(NativeRoutine::IsArray) => class_test_stops(s, h, false),
        Some(NativeRoutine::ClassIsInterface) => is_interface_stops(s, h),
        Some(NativeRoutine::GetModifiers) => get_modifiers_stops(s, h),
        Some(NativeRoutine::GetClassAccessFlags) => pop_value(s) is Panic,
        Some(NativeRoutine::GetPrimitiveClass) => primitive_class_stops(s, hp, cs),
        Some(NativeRoutine::Clone) => clone_stops(s, hp),
        Some(NativeRoutine::GetMemberVmInfo) => member_vm_info_stops(s, hp, cs),
        Some(NativeRoutine::ArrayIndexScale0) => index_scale_stops(s, h),
        Some(NativeRoutine::IsPrimitive) => class_test_stops(s, h, true),
        Some(NativeRoutine::DesiredAssertionStatus0) => !runs(push_value(s, Type::Integer(1))),
        Some(NativeRoutine::ArrayBaseOffset0) => base_offset_stops(s, h),
        Some(NativeRoutine::GetSuperclass) => superclass_stops(s, hp, cs),
        Some(NativeRoutine::IsAssignableFrom) => assignable_from_stops(s, h, cs),
        Some(NativeRoutine::InitClassName) => init_class_name_stops(s, hp, cs),
        Some(NativeRoutine::PlatformProperties) => platform_properties_stops(hp),
        Some(NativeRoutine::ObjectFieldOffset1) => field_offset_stops(s, h, cs),
        Some(NativeRoutine::MaxMemory) => !runs(push_value(s, Type::Long(2000000))),
        Some(NativeRoutine::ObjectNotifyAll) => !runs(pop_ref_value(s)),
        Some(NativeRoutine::GetCdsConfigStatus) => !runs(push_value(s, Type::Integer(0))),
        Some(NativeRoutine::FillInStackTrace) => match pop_value(s) {
            Exec::Done(t, v) => !runs(push_value(t, v)),
            Exec::Panic => true,
            _ => false,
        },
        Some(NativeRoutine::HashCode) => hash_code_stops(s, h),
        Some(NativeRoutine::Arraycopy) => arraycopy_stops(s, h),
        _ => false,
    }
}

/// A call of the native method (class `c`, name `n`, descriptor `t`), its
/// arguments on the operand stack: the routines that only work on the
/// machine's own state run here; the others go to the host; a method with no
/// routine is an error.
pub open spec fn native_outcome(
    s: Seq<FrameView>,
    hp: Heap,
    hp2: Heap,
    cs: Seq<(Seq<char>, ClassFileView)>,
    mm: ModuleManager,
    c: Seq<char>,
    n: Seq<char>,
    t: Seq<char>,
    s2: Seq<FrameView>,
    r: Result<Native, StepError>,
) -> bool {
    let h = hp.heap@;
    let h2 = hp2.heap@;
    match native_routine_of(c, n, t) {
        Some(NativeRoutine::IdentityHashCode) => hp2 == hp && identity_hash_outcome(s, h, s2, r),
        Some(NativeRoutine::GetClass) => get_class_outcome(s, hp, hp2, cs, mm, s2, r),
        Some(NativeRoutine::IsArray) => hp2 == hp && class_test_outcome(s, h, false, s2, r),
        Some(NativeRoutine::ClassIsInterface) => hp2 == hp && is_interface_outcome(s, h, cs, s2, r),
        Some(NativeRoutine::GetModifiers) => hp2 == hp && get_modifiers_outcome(s, h, cs, s2, r),
        Some(NativeRoutine::GetClassAccessFlags) => hp2 == hp && class_access_flags_outcome(s, h, cs, s2, r),
        Some(NativeRoutine::GetPrimitiveClass) => primitive_class_outcome(s, hp, hp2, cs, mm, s2, r),
        Some(NativeRoutine::Clone) => clone_outcome(s, hp, hp2, cs, s2, r),
        Some(NativeRoutine::GetMemberVmInfo) => member_vm_info_outcome(s, hp, hp2, cs, s2, r),
        Some(NativeRoutine::ArrayIndexScale0) => hp2 == hp && index_scale_outcome(s, h, s2, r),
        Some(NativeRoutine::IsPrimitive) => hp2 == hp && class_test_outcome(s, h, true, s2, r),
        None => s2 == s && hp2 == hp && r == Err::<Native, StepError>(
            StepError::Runtime(RuntimeError::NotImplementedException),
        ),
        Some(NativeRoutine::RegisterNatives) => s2 == s && hp2 == hp && r matches Ok(Native::Done),
        Some(NativeRoutine::FullFence) => s2 == s && hp2 == hp && r matches Ok(Native::Done),
        Some(NativeRoutine::DesiredAssertionStatus0) => hp2 == hp && pushed_outcome(push_value(s, Type::Integer(1)), s2, r),
        Some(NativeRoutine::ArrayBaseOffset0) => hp2 == hp && base_offset_outcome(s, h, s2, r),
        Some(NativeRoutine::GetSuperclass) => superclass_outcome(s, hp, hp2, cs, mm, s2, r),
        Some(NativeRoutine::IsAssignableFrom) => hp2 == hp && assignable_from_outcome(s, h, cs, s2, r),
        Some(NativeRoutine::InitClassName) => init_class_name_outcome(s, hp, hp2, cs, s2, r),
        Some(NativeRoutine::PlatformProperties) => platform_properties_outcome(s, hp, hp2, s2, r),
        Some(NativeRoutine::ObjectFieldOffset1) => hp2 == hp && field_offset_outcome(s, h, cs, s2, r),
        Some(NativeRoutine::MaxMemory) => hp2 == hp && pushed_outcome(push_value(s, Type::Long(2000000)), s2, r),
        Some(NativeRoutine::IsFinalizationEnabled) => hp2 == hp && pushed_outcome(push_value(s, Type::Boolean(false)), s2, r),
        Some(NativeRoutine::IovMax) => hp2 == hp && pushed_outcome(push_value(s, Type::Integer(1024)), s2, r),
        Some(NativeRoutine::WritevMax) => hp2 == hp && pushed_outcome(push_value(s, Type::Long(2147483647)), s2, r),
        Some(NativeRoutine::IsIpv6Supported) => hp2 == hp && pushed_outcome(push_value(s, Type::Boolean(true)), s2, r),
        Some(NativeRoutine::IsIpv4Available) => hp2 == hp && pushed_outcome(push_value(s, Type::Boolean(true)), s2, r),
        Some(NativeRoutine::ObjectNotifyAll) => hp2 == hp && match pop_ref_value(s) {
            Exec::Done(t, _) => s2 == t && r == Ok::<Native, StepError>(Native::Done),
            Exec::Fail(t, e) => s2 == t && r == Err::<Native, StepError>(e),
            Exec::Panic => false,
        },
        Some(NativeRoutine::EnsureMaterializedForStackWalk) => s2 == s && hp2 == hp && r matches Ok(Native::Done),
        Some(NativeRoutine::FiledescriptorInitIds) => s2 == s && hp2 == hp && r matches Ok(Native::Done),
        Some(NativeRoutine::InetaddressInit) => s2 == s && hp2 == hp && r matches Ok(Native::Done),
        Some(NativeRoutine::Inet4addressInit) => s2 == s && hp2 == hp && r matches Ok(Native::Done),
        Some(NativeRoutine::GetCdsConfigStatus) => hp2 == hp && pushed_outcome(push_value(s, Type::Integer(0)), s2, r),
        Some(NativeRoutine::FillInStackTrace) => hp2 == hp && match pop_value(s) {
            Exec::Done(t, v) => pushed_outcome(push_value(t, v), s2, r),
            Exec::Fail(t, e) => s2 == t && r == Err::<Native, StepError>(e),
            Exec::Panic => false,
        },
        Some(NativeRoutine::Initialize) => s2 == s && hp2 == hp && r matches Ok(Native::Done),
        Some(NativeRoutine::InitializeFromArchive) => s2 == s && hp2 == hp && r matches Ok(Native::Done),
        Some(NativeRoutine::HashCode) => hp2 == hp && hash_code_outcome(s, h, s2, r),
        Some(NativeRoutine::Arraycopy) => arraycopy_outcome(s, h, h2, s2, r) && hp2.next_obj_ref == hp.next_obj_ref
            && hp2.classes == hp.classes && hp2.static_classes == hp.static_classes && hp2.strings == hp.strings,
        Some(k) => s2 == s && hp2 == hp && r == Ok::<Native, StepError>(Native::Host(k)),
    }
}

impl JVM {
    /// `System.arraycopy`.
    fn native_arraycopy(&mut self, heap: &mut Heap) -> (r: Result<Native, StepError>)
        requires
            !arraycopy_stops(old(self)@, old(heap).heap@),
        ensures
            arraycopy_outcome(old(self)@, old(heap).heap@, final(heap).heap@, final(self)@, r),
            final(heap).next_obj_ref == old(heap).next_obj_ref,
            final(heap).classes == old(heap).classes,
            final(heap).static_classes == old(heap).static_classes,
            final(heap).strings == old(heap).strings,
            final(self).counter == old(self).counter,
    {
        let length = self.pop_stack()?;
        let destpos = self.pop_stack()?;
        let dest = self.pop_stack()?;
        let srcpos = self.pop_stack()?;
        let src = self.pop_stack()?;
        let src_ref = match src {
            Type::ArrayRef(x) => x,
            _ => {
                return Err(StepError::Internal(InternalError::WrongType("ArrayRef", src)));
            },
        };
        let sp = match srcpos {
            Type::Integer(v) => v,
            _ => {
                return Err(StepError::Internal(InternalError::WrongType("Integer", srcpos)));
            },
        };
        let dest_ref = match dest {
            Type::ArrayRef(x) => x,
            _ => {
                return Err(StepError::Internal(InternalError::WrongType("ArrayRef", dest)));
            },
        };
        let dp = match destpos {
            Type::Integer(v) => v,
            _ => {
                return Err(StepError::Internal(InternalError::WrongType("Integer", destpos)));
            },
        };
        let len = match length {
            Type::Integer(v) => v,
            _ => {
                return Err(StepError::Internal(InternalError::WrongType("Integer", length)));
            },
        };
        let src_array = match heap.get_array_instance(src_ref) {
            Ok(a) => a,
            Err(e) => {
                return Err(StepError::Internal(e));
            },
        };
        let src_len = src_array.len();
        let dest_len = match heap.get_array_instance(dest_ref) {
            Ok(b) => b.len(),
            Err(e) => {
                return Err(StepError::Internal(e));
            },
        };
        let s_end: i32 = sp + len;
        let d_end: i32 = dp + len;
        if s_end < 0 || d_end < 0 || (src_len as u64) < (s_end as u64) || (dest_len as u64) < (d_end as u64) {
            return Err(StepError::Internal(InternalError::General("Index out of bounds in arraycopy".to_string())));
        }
        if len <= 0 {
            return Ok(Native::Done);
        }
        if sp < 0 {
            return Err(StepError::Java(JavaException::ArrayIndexOutOfBounds(sp as usize, src_len)));
        }
        if dp < 0 {
            return Err(StepError::Java(JavaException::ArrayIndexOutOfBounds(dp as usize, dest_len)));
        }
        let ghost h = heap.heap@;
        let ghost a = array_at(h, src_ref)->0;
        let mut values: Vec<Type> = Vec::new();
        let mut i: i32 = 0;
        while i < len
            invariant
                0 <= i <= len,
                0 <= sp,
                sp + len <= i32::MAX,
                sp + len <= src_array.elements@.len(),
                a == *src_array,
                values@.len() == i,
                forall|j: int| 0 <= j < i ==> #[trigger] values@[j] == src_array.elements@[sp + j],
            decreases len - i,
        {
            let v = src_array.elements[(sp + i) as usize];
            values.push(v);
            i = i + 1;
        }
        let ghost b0 = array_at(h, dest_ref)->0;
        proof {
            lemma_find_instance(h, dest_ref, 0);
        }
        let dest_array = match heap.get_array_instance_mut(dest_ref) {
            Ok(b) => b,
            Err(_) => vstd::pervasive::unreached(),
        };
        let mut k: i32 = 0;
        while k < len
            invariant
                0 <= k <= len,
                0 <= dp,
                dp + len <= i32::MAX,
                dp + len <= b0.elements@.len(),
                values@.len() == len,
                dest_array.classname == b0.classname,
                dest_array.array_ref == b0.array_ref,
                dest_array.hash_code == b0.hash_code,
                dest_array.element_classname == b0.element_classname,
                dest_array.elements@.len() == b0.elements@.len(),
                forall|j: int| 0 <= j < len ==> #[trigger] storable(b0.classname@, values@[j]),
                forall|j: int|
                    0 <= j < b0.elements@.len() ==> #[trigger] dest_array.elements@[j] == if dp <= j < dp + k {
                        values@[j - dp]
                    } else {
                        b0.elements@[j]
                    },
            decreases len - k,
        {
            let _ = dest_array.set((dp + k) as usize, values[k as usize]);
            k = k + 1;
        }
        proof {
            let idx = find_instance(h, dest_ref, 0)->0;
            let b2 = heap.heap@[idx].1;
            lemma_put_instance(h, heap.heap@, dest_ref, b2);
            assert(b2->ArrayInstance_0.elements@ =~= copied(b0.elements@, a.elements@, sp as int, dp as int, len as int));
        }
        Ok(Native::Done)
    }

    /// `Object.hashCode`.
    fn native_hash_code(&mut self, heap: &Heap) -> (r: Result<Native, StepError>)
        requires
            !hash_code_stops(old(self)@, heap.heap@),
        ensures
            hash_code_outcome(old(self)@, heap.heap@, final(self)@, r),
            final(self).counter == old(self).counter,
    {
        let v = self.pop_stack()?;
        match v {
            Type::ObjectRef(o) | Type::ArrayRef(o) => {
                let hash = match heap.get_instance(o) {
                    Ok(i) => i.get_hash_code(),
                    Err(e) => {
                        return Err(StepError::Internal(e));
                    },
                };
                self.push_stack(Type::Integer(hash as i32))?;
                Ok(Native::Done)
            },
            _ => Err(StepError::Internal(InternalError::WrongType("Ref", v))),
        }
    }

    /// `System.identityHashCode`.
    fn native_identity_hash(&mut self, heap: &Heap) -> (r: Result<Native, StepError>)
        requires
            !identity_hash_stops(old(self)@),
        ensures
            identity_hash_outcome(old(self)@, heap.heap@, final(self)@, r),
            final(self).counter == old(self).counter,
    {
        let v = self.pop_stack()?;
        let o = match v {
            Type::ObjectRef(x) | Type::ArrayRef(x) => x,
            Type::Null => 0,
            _ => {
                return Err(StepError::Internal(InternalError::General("failed pop object ref from stack".to_string())));
            },
        };
        let hash = match heap.get_instance(o) {
            Ok(i) => i.get_hash_code(),
            Err(e) => {
                return Err(StepError::Internal(e));
            },
        };
        self.push_stack(Type::Integer(hash as i32))?;
        Ok(Native::Done)
    }

    /// `Object.getClass`.
    fn native_get_class(&mut self, heap: &mut Heap, loader: &ClassLoader) -> (r: Result<Native, StepError>)
        requires
            !get_class_stops(old(self)@, *old(heap), loader.classes_view()),
        ensures
            get_class_outcome(old(self)@, *old(heap), *final(heap), loader.classes_view(), loader.modulemanager, final(self)@, r),
            final(self).counter == old(self).counter,
    {
        let v = self.pop_stack()?;
        let o = match v {
            Type::ObjectRef(x) | Type::ArrayRef(x) => x,
            Type::Null => 0,
            _ => {
                return Err(StepError::Internal(InternalError::General("failed pop object ref from stack".to_string())));
            },
        };
        let class_name = match heap.get_instance(o) {
            Ok(i) => i.get_class_field_type().to_string(),
            Err(e) => {
                return Err(StepError::Internal(e));
            },
        };
        let class_ref = match heap.get_class_instance(loader, class_name.as_str()) {
            Ok(c) => c.get_ref(),
            Err(e) => {
                return Err(StepError::Internal(e));
            },
        };
        self.push_stack(Type::ObjectRef(class_ref))?;
        Ok(Native::Done)
    }

    /// `Class.isArray` (`check_class` false) or `Class.isPrimitive`
    /// (`check_class` true).
    fn native_class_test(&mut self, heap: &Heap, check_class: bool) -> (r: Result<Native, StepError>)
        requires
            !class_test_stops(old(self)@, heap.heap@, check_class),
        ensures
            class_test_outcome(old(self)@, heap.heap@, check_class, final(self)@, r),
            final(self).counter == old(self).counter,
    {
        let v = self.pop_stack()?;
        let class_ref = match v {
            Type::ObjectRef(x) => x,
            _ => {
                return Err(StepError::Internal(InternalError::General("failed pop object ref from stack".to_string())));
            },
        };
        let class_obj = match heap.get_obj_instance(class_ref) {
            Ok(o) => o,
            Err(e) => {
                return Err(StepError::Internal(e));
            },
        };
        if check_class && !str_eq(class_obj.get_classname(), "java/lang/Class") {
            return Err(StepError::Internal(InternalError::General("is primitive not handled".to_string())));
        }
        let name_field = match class_obj.get_field("name") {
            Ok(f) => f,
            Err(e) => {
                return Err(StepError::Internal(e));
            },
        };
        let name_ref = match name_field.as_ref() {
            Ok(n) => n,
            Err(e) => {
                return Err(StepError::Internal(e));
            },
        };
        let name = match heap.get_string(name_ref) {
            Ok(t) => t,
            Err(e) => {
                return Err(StepError::Internal(e));
            },
        };
        if check_class {
            let b = Type::is_primitive(name.as_str());
            self.push_stack(Type::Boolean(b))?;
            Ok(Native::Done)
        } else {
            let b = starts_with_char(name.as_str(), '[');
            self.push_stack(Type::Boolean(b))?;
            Ok(Native::Done)
        }
    }

    /// `Unsafe.arrayIndexScale0`.
    fn native_index_scale(&mut self, heap: &Heap) -> (r: Result<Native, StepError>)
        requires
            !index_scale_stops(old(self)@, heap.heap@),
        ensures
            index_scale_outcome(old(self)@, heap.heap@, final(self)@, r),
            final(self).counter == old(self).counter,
    {
        let v = self.pop_stack()?;
        let class_ref = match v {
            Type::ObjectRef(x) => x,
            _ => vstd::pervasive::unreached(),
        };
        let class_obj = match heap.get_obj_instance(class_ref) {
            Ok(o) => o,
            Err(e) => {
                return Err(StepError::Internal(e));
            },
        };
        let name_field = match class_obj.get_field("name") {
            Ok(f) => f,
            Err(e) => {
                return Err(StepError::Internal(e));
            },
        };
        let name_ref = match name_field.as_ref() {
            Ok(n) => n,
            Err(e) => {
                return Err(StepError::Internal(e));
            },
        };
        let name = match heap.get_string(name_ref) {
            Ok(t) => t,
            Err(e) => {
                return Err(StepError::Internal(e));
            },
        };
        let w = Type::Integer(get_index_scale(name.as_str()) as i32);
        self.push_stack(w)?;
        Ok(Native::Done)
    }

    /// Calls the native method `name` with descriptor `type_str` of
    /// `class_name`, its arguments on the operand stack: the routines that only
    /// work on the machine's own state run here; the others are handed back to
    /// the host as `Native::Host`.
    pub fn call_native(&mut self, heap: &mut Heap, loader: &ClassLoader, class_name: &str, name: &str, type_str: &str) -> (r: Result<
        Native,
        StepError,
    >)
        requires
            !native_stops(old(self)@, *old(heap), loader.classes_view(), class_name@, name@, type_str@),
        ensures
            native_outcome(
                old(self)@,
                *old(heap),
                *final(heap),
                loader.classes_view(),
                loader.modulemanager,
                class_name@,
                name@,
                type_str@,
                final(self)@,
                r,
            ),
            final(self).counter == old(self).counter,
    {
        let routine = match native_routine(class_name, name, type_str) {
            Some(k) => k,
            None => {
                return Err(StepError::Runtime(RuntimeError::NotImplementedException));
            },
        };
        match routine {
            NativeRoutine::RegisterNatives | NativeRoutine::FullFence | NativeRoutine::Initialize
            | NativeRoutine::InitializeFromArchive | NativeRoutine::EnsureMaterializedForStackWalk
            | NativeRoutine::FiledescriptorInitIds | NativeRoutine::InetaddressInit | NativeRoutine::Inet4addressInit => Ok(
                Native::Done,
            ),
            NativeRoutine::IsFinalizationEnabled => {
                self.push_stack(Type::Boolean(false))?;
                Ok(Native::Done)
            },
            NativeRoutine::IovMax => {
                self.push_stack(Type::Integer(1024))?;
                Ok(Native::Done)
            },
            NativeRoutine::WritevMax => {
                self.push_stack(Type::Long(2147483647))?;
                Ok(Native::Done)
            },
            NativeRoutine::IsIpv6Supported | NativeRoutine::IsIpv4Available => {
                self.push_stack(Type::Boolean(true))?;
                Ok(Native::Done)
            },
            NativeRoutine::ObjectNotifyAll => {
                self.pop_reference()?;
                Ok(Native::Done)
            },
            NativeRoutine::ArrayBaseOffset0 => self.native_array_base_offset(heap),
            NativeRoutine::GetSuperclass => self.native_superclass(heap, loader),
            NativeRoutine::IsAssignableFrom => self.native_assignable_from(heap, loader),
            NativeRoutine::InitClassName => self.native_init_class_name(heap, loader),
            NativeRoutine::PlatformProperties => self.native_platform_properties(heap),
            NativeRoutine::ObjectFieldOffset1 => self.native_object_field_offset(heap, loader),
            NativeRoutine::MaxMemory => {
                self.push_stack(Type::Long(2000000))?;
                Ok(Native::Done)
            },
            NativeRoutine::GetCdsConfigStatus => {
                self.push_stack(Type::Integer(0))?;
                Ok(Native::Done)
            },
            NativeRoutine::FillInStackTrace => {
                let v = self.pop_stack()?;
                self.push_stack(v)?;
                Ok(Native::Done)
            },
            NativeRoutine::DesiredAssertionStatus0 => {
                self.push_stack(Type::Integer(1))?;
                Ok(Native::Done)
            },
            NativeRoutine::HashCode => self.native_hash_code(heap),
            NativeRoutine::Arraycopy => self.native_arraycopy(heap),
            NativeRoutine::IdentityHashCode => self.native_identity_hash(heap),
            NativeRoutine::GetClass => self.native_get_class(heap, loader),
            NativeRoutine::IsArray => self.native_class_test(heap, false),
            NativeRoutine::ClassIsInterface => self.native_is_interface(heap, loader),
            NativeRoutine::GetModifiers => self.native_get_modifiers(heap, loader),
            NativeRoutine::GetClassAccessFlags => self.native_class_access_flags(heap, loader),
            NativeRoutine::GetPrimitiveClass => self.native_primitive_class(heap, loader),
            NativeRoutine::Clone => self.native_clone(heap, loader),
            NativeRoutine::GetMemberVmInfo => self.native_get_member_vm_info(heap, loader),
            NativeRoutine::ArrayIndexScale0 => self.native_index_scale(heap),
            NativeRoutine::IsPrimitive => self.native_class_test(heap, true),
            k => Ok(Native::Host(k)),
        }
    }
}

} // verus!
