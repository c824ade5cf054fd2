use vstd::prelude::*;

use crate::class_loader::class_file::{ClassFileView, instance_fields_after};
use crate::class_loader::static_fields::lookup;
use crate::class_loader::loader::{ClassLoader, Search, class_named, field_search, method_search, search_error};
use crate::constants::{MN_IS_CONSTRUCTOR, MN_IS_FIELD, MN_IS_METHOD};
use crate::errors::InternalError;
use crate::exceptions::method_error;
use crate::frame::FrameView;
use crate::heap::{
    Heap,
    alloc_search,
    array_at,
    class_name_ref,
    class_obj_budget,
    instance_at,
    loader_defaults_ok,
    object_at,
    readable_string,
    ref_of,
    ref_value,
    string_text,
    unchanged_below,
};
use crate::instance::{Instance, array_class_of, field_of, holds_field, put_into};
use crate::jvm::{Exec, JVM, StepError, pop_value, push_value};
use crate::native_calls::{NameRead, Native, class_name_text};
use crate::native_classes::{class_obj_class, pushed_done};
use crate::types::{Type, int_value, is_int_kind};
use crate::utils::slashed;

verus! {

/// What reading a `MemberName` gives: its `clazz`, `name` and `type`
/// references, its `flags`, the name of its class and its own name.
pub enum MemberRead {
    Fields(u32, u32, u32, i32, Seq<char>, Seq<char>),
    Fails(StepError),
    /// The class that `clazz` names is not loaded.
    NoClass(Seq<char>),
    FailsSomehow,
    Stops,
}

/// A field of the object `o` read as a reference.
pub enum RefField {
    Ref(u32),
    Fails(StepError),
}

/// The field `name` of `o` as a reference (`null` is 0).
pub open spec fn ref_field(o: crate::instance::ObjectInstance, name: Seq<char>) -> RefField {
    match field_of(o, name) {
        None => RefField::Fails(StepError::Internal(InternalError::FieldNotFound)),
        Some(t) => match ref_value(t) {
            Some(x) => RefField::Ref(x),
            None => RefField::Fails(StepError::Internal(InternalError::WrongType("Reference", t))),
        },
    }
}

/// A value read as an `int`, as `as_integer` reads it.
pub open spec fn integer_of(t: Type) -> Option<i32> {
    match t {
        Type::Long(l) => Some(l as i32),
        _ => if is_int_kind(t) {
            Some(int_value(t))
        } else {
            None
        },
    }
}

/// Reading the `MemberName` `m`: its fields, in order, then the class its
/// `clazz` stands for (which must be loaded) and the text of its `name`.
pub open spec fn member_read(h: Seq<(u32, Instance)>, cs: Seq<(Seq<char>, ClassFileView)>, m: u32) -> MemberRead {
    match instance_at(h, m) {
        Some(Instance::ObjectInstance(o)) => match ref_field(o, "clazz"@) {
            RefField::Fails(e) => MemberRead::Fails(e),
            RefField::Ref(clazz) => match ref_field(o, "name"@) {
                RefField::Fails(e) => MemberRead::Fails(e),
                RefField::Ref(name) => match ref_field(o, "type"@) {
                    RefField::Fails(e) => MemberRead::Fails(e),
                    RefField::Ref(ty) => match field_of(o, "flags"@) {
                        None => MemberRead::Fails(StepError::Internal(InternalError::FieldNotFound)),
                        Some(f) => match integer_of(f) {
                            None => MemberRead::Fails(StepError::Internal(InternalError::WrongType("Integer", f))),
                            Some(flags) => if name == 0 || ty == 0 {
                                MemberRead::FailsSomehow
                            } else {
                                match class_name_text(h, Type::ObjectRef(clazz), false) {
                                    NameRead::Text(c) => match class_named(cs, c) {
                                        None => MemberRead::NoClass(slashed(c)),
                                        Some(cf) => if !readable_string(h, name) {
                                            MemberRead::Stops
                                        } else {
                                            match string_text(h, name) {
                                                Some(n) => MemberRead::Fields(clazz, name, ty, flags, cf.this_class_name, n),
                                                None => MemberRead::FailsSomehow,
                                            }
                                        },
                                    },
                                    NameRead::Fails(e) => MemberRead::Fails(e),
                                    NameRead::FailsSomehow => MemberRead::FailsSomehow,
                                    NameRead::Stops => MemberRead::Stops,
                                }
                            },
                        },
                    },
                },
            },
        },
        _ => MemberRead::FailsSomehow,
    }
}

/// Whether `r` and `s2` report the failed read `k` of the `MemberName`.
pub open spec fn read_failed(k: MemberRead, t: Seq<FrameView>, s2: Seq<FrameView>, r: Result<Native, StepError>) -> bool {
    match k {
        MemberRead::Fails(e) => s2 == t && r == Err::<Native, StepError>(e),
        MemberRead::NoClass(n) => s2 == t && (r matches Err(StepError::Internal(InternalError::ClassNotFound(a))) && a@
            == n),
        MemberRead::FailsSomehow => s2 == t && r matches Err(StepError::Internal(_)),
        _ => false,
    }
}

/// The descriptor of a field of the class named `c`: a primitive type's
/// letter or an array class stays as it is; another class becomes `Lc;`.
pub open spec fn field_descriptor(c: Seq<char>) -> Seq<char> {
    if crate::types::is_primitive_descriptor(c) || (c.len() > 0 && c[0] == '[') {
        c
    } else {
        seq!['L'] + c + seq![';']
    }
}

/// Whether a field member's information can be made without stopping the
/// machine: the name of its type can be read and the heap has room.
pub open spec fn field_info_stops(
    hp: Heap,
    cs: Seq<(Seq<char>, ClassFileView)>,
    ty: u32,
    member_class: Seq<char>,
    member: Seq<char>,
) -> bool {
    ||| class_name_ref(hp.heap@, ty) matches Some(n) && !readable_string(hp.heap@, n)
    ||| match class_obj_class(hp.heap@, ty) {
        Some(mt) => match field_search(cs, member_class, member, field_descriptor(mt), cs.len() as nat) {
            Search::Found((rc, _, _)) => !(1 <= hp.next_obj_ref && hp.next_obj_ref + cs.len() + 2 + class_obj_budget(
                rc.len(),
                cs.len() as nat,
            ) <= u32::MAX && loader_defaults_ok(cs)),
            _ => false,
        },
        None => false,
    }
}

/// Whether the first part of `getMemberVMInfo` stops the machine.
pub open spec fn member_vm_info_stops(s: Seq<FrameView>, hp: Heap, cs: Seq<(Seq<char>, ClassFileView)>) -> bool {
    match pop_value(s) {
        Exec::Done(_, Type::ObjectRef(m)) => match member_read(hp.heap@, cs, m) {
            MemberRead::Stops => true,
            MemberRead::Fields(_, _, ty, flags, c, n) => if flags & MN_IS_METHOD != 0 {
                false
            } else if flags & MN_IS_FIELD != 0 {
                field_info_stops(hp, cs, ty, c, n)
            } else {
                flags & MN_IS_CONSTRUCTOR != 0 && n != "<init>"@
            },
            _ => false,
        },
        Exec::Panic => true,
        _ => false,
    }
}

/// The information of a field member: the index of the field, boxed, and the
/// `Class` object of the class that declares it, in a new `Object[2]` that is
/// pushed.
pub open spec fn field_info(
    t: Seq<FrameView>,
    hp: Heap,
    hp2: Heap,
    cs: Seq<(Seq<char>, ClassFileView)>,
    ty: u32,
    member_class: Seq<char>,
    member: Seq<char>,
    s2: Seq<FrameView>,
    r: Result<Native, StepError>,
) -> bool {
    match class_obj_class(hp.heap@, ty) {
        None => s2 == t && hp2 == hp && r matches Err(StepError::Internal(_)),
        Some(mt) => match field_search(cs, member_class, member, field_descriptor(mt), cs.len() as nat) {
            Search::Found((rc, _, i)) => {
                &&& hp.next_obj_ref <= hp2.next_obj_ref
                &&& unchanged_below(hp.heap@, hp2.heap@, hp.next_obj_ref)
                &&& match r {
                    Ok(Native::Done) => {
                        let a = (hp2.next_obj_ref - 1) as u32;
                        &&& array_at(hp2.heap@, a) matches Some(arr) && arr.elements@.len() == 2 && arr.classname@
                            == array_class_of("java/lang/Object"@)
                        &&& array_at(hp2.heap@, a)->0.elements@[0] matches Type::ObjectRef(sl) && object_at(
                            hp2.heap@,
                            sl,
                        ) matches Some(so) && field_of(so, "value"@) == Some(Type::Integer(i as i32))
                        &&& ref_of(hp2.classes@, rc) matches Some(x) && (x != a ==> (object_at(hp2.heap@, x) matches Some(
                            co,
                        ) && array_at(hp2.heap@, a)->0.elements@[1] == Type::ObjectRef(co.obj_ref)))
                        &&& push_value(t, Type::ArrayRef(a)) == Exec::Done(s2, ())
                    },
                    Ok(_) => false,
                    Err(e) => s2 == t && e is Internal,
                }
            },
            sr => s2 == t && hp2 == hp && (r matches Err(StepError::Internal(e)) && search_error(
                sr,
                e,
                InternalError::FieldNotFound,
            )),
        },
    }
}

/// The first part of `MethodHandleNatives.getMemberVMInfo`: the `MemberName`
/// is popped and read; a method or a constructor goes to the host to have its
/// method type described; a field's information is made and pushed.
pub open spec fn member_vm_info_outcome(
    s: Seq<FrameView>,
    hp: Heap,
    hp2: Heap,
    cs: Seq<(Seq<char>, ClassFileView)>,
    s2: Seq<FrameView>,
    r: Result<Native, StepError>,
) -> bool {
    match pop_value(s) {
        Exec::Done(t, v) => match v {
            Type::ObjectRef(m) => match member_read(hp.heap@, cs, m) {
                MemberRead::Fields(_, _, ty, flags, c, n) => if flags & MN_IS_METHOD != 0 || (flags & MN_IS_FIELD == 0
                    && flags & MN_IS_CONSTRUCTOR != 0) {
                    s2 == t && hp2 == hp && (r matches Ok(Native::DescribeMember { member_name, method_type, member_class, member, flags: f })
                        && member_name == m && method_type == ty && member_class@ == c && member@ == n && f == flags)
                } else if flags & MN_IS_FIELD != 0 {
                    field_info(t, hp, hp2, cs, ty, c, n, s2, r)
                } else {
                    s2 == t && hp2 == hp && r matches Err(StepError::Internal(InternalError::General(_)))
                },
                k => hp2 == hp && read_failed(k, t, s2, r),
            },
            _ => s2 == t && hp2 == hp && r matches Err(StepError::Internal(InternalError::General(_))),
        },
        Exec::Fail(t, e) => s2 == t && hp2 == hp && r == Err::<Native, StepError>(e),
        Exec::Panic => false,
    }
}

/// The field `name` of `o` as a reference.
pub(crate) fn read_ref_field(o: &crate::instance::ObjectInstance, name: &str) -> (r: Result<u32, StepError>)
    ensures
        match ref_field(*o, name@) {
            RefField::Ref(x) => r == Ok::<u32, StepError>(x),
            RefField::Fails(e) => r == Err::<u32, StepError>(e),
        },
{
    let f = match o.get_field(name) {
        Ok(f) => f,
        Err(e) => {
            return Err(StepError::Internal(e));
        },
    };
    match f.as_ref() {
        Ok(x) => Ok(x),
        Err(e) => Err(StepError::Internal(e)),
    }
}

/// The text of the `name` of the `Class` object `x`.
pub(crate) fn read_class_name(heap: &Heap, x: u32) -> (r: Result<String, StepError>)
    requires
        !(class_name_text(heap.heap@, Type::ObjectRef(x), false) is Stops),
    ensures
        match class_name_text(heap.heap@, Type::ObjectRef(x), false) {
            NameRead::Text(c) => (r matches Ok(a) && a@ == c),
            NameRead::Fails(e) => r == Err::<String, StepError>(e),
            NameRead::FailsSomehow => r matches Err(StepError::Internal(_)),
            NameRead::Stops => false,
        },
{
    let class_obj = match heap.get_obj_instance(x) {
        Ok(o) => o,
        Err(e) => {
            return Err(StepError::Internal(e));
        },
    };
    let name_field = match class_obj.get_field("name") {
        Ok(f) => f,
        Err(e) => {
            return Err(StepError::Internal(e));
        },
    };
    let name_ref = match name_field.as_ref() {
        Ok(n) => n,
        Err(e) => {
            return Err(StepError::Internal(e));
        },
    };
    match heap.get_string(name_ref) {
        Ok(t) => Ok(t),
        Err(e) => Err(StepError::Internal(e)),
    }
}

/// The descriptor of a field of the class named `c`.
fn make_field_descriptor(c: &str) -> (r: String)
    ensures
        r@ == field_descriptor(c@),
{
    if crate::types::Type::is_primitive(c) || crate::text::starts_with_char(c, '[') {
        return c.to_string();
    }
    let mut d = String::from_str("L");
    d.append(c);
    d.append(";");
    proof {
        reveal_strlit("L");
        reveal_strlit(";");
        assert(d@ =~= seq!['L'] + c@ + seq![';']);
    }
    d
}

impl JVM {
    /// Reads the `MemberName` `m` and the class and name it holds.
    fn read_member(heap: &Heap, loader: &ClassLoader, m: u32) -> (r: Result<(u32, i32, String, String), StepError>)
        requires
            !(member_read(heap.heap@, loader.classes_view(), m) is Stops),
        ensures
            match member_read(heap.heap@, loader.classes_view(), m) {
                MemberRead::Fields(_, _, ty, flags, c, n) => (r matches Ok((a, b, x, y)) && a == ty && b == flags && x@
                    == c && y@ == n),
                MemberRead::Fails(e) => r == Err::<(u32, i32, String, String), StepError>(e),
                MemberRead::NoClass(n) => (r matches Err(StepError::Internal(InternalError::ClassNotFound(a))) && a@
                    == n),
                MemberRead::FailsSomehow => r matches Err(StepError::Internal(_)),
                MemberRead::Stops => false,
            },
    {
        let o = match heap.get_obj_instance(m) {
            Ok(o) => o,
            Err(e) => {
                return Err(StepError::Internal(e));
            },
        };
        let clazz = read_ref_field(o, "clazz")?;
        let name = read_ref_field(o, "name")?;
        let ty = read_ref_field(o, "type")?;
        let f = match o.get_field("flags") {
            Ok(f) => f,
            Err(e) => {
                return Err(StepError::Internal(e));
            },
        };
        let flags = match f.as_integer() {
            Ok(i) => i,
            Err(e) => {
                return Err(StepError::Internal(e));
            },
        };
        if name == 0 {
            return Err(StepError::Internal(InternalError::General("MemberName name is Null (probably not materialized)".to_string())));
        }
        if ty == 0 {
            return Err(StepError::Internal(InternalError::General("MemberName type is Null (probably not materialized)".to_string())));
        }
        let class_text = read_class_name(heap, clazz)?;
        proof {
            loader.lemma_get(class_text@);
        }
        let member_class = match loader.get(class_text.as_str()) {
            Ok(c) => c.get_name().to_string(),
            Err(e) => {
                return Err(StepError::Internal(e));
            },
        };
        let member = match heap.get_string(name) {
            Ok(t) => t,
            Err(e) => {
                return Err(StepError::Internal(e));
            },
        };
        Ok((ty, flags, member_class, member))
    }

    /// The information of a field member, pushed as a new `Object[2]`.
    fn field_member_info(
        &mut self,
        heap: &mut Heap,
        loader: &ClassLoader,
        ty: u32,
        member_class: &str,
        member: &str,
    ) -> (r: Result<Native, StepError>)
        requires
            old(self)@.len() > 0,
            !field_info_stops(*old(heap), loader.classes_view(), ty, member_class@, member@),
        ensures
            field_info(old(self)@, *old(heap), *final(heap), loader.classes_view(), ty, member_class@, member@, final(self)@, r),
            final(self).counter == old(self).counter,
    {
        let member_type = match heap.get_classname_from_class_obj(ty) {
            Ok(n) => n,
            Err(e) => {
                return Err(StepError::Internal(e));
            },
        };
        let descriptor = make_field_descriptor(member_type.as_str());
        let (real_class, _, index) = match loader.get_field_by_name_with_index(member_class, member, descriptor.as_str()) {
            Ok(t) => t,
            Err(e) => {
                return Err(StepError::Internal(e));
            },
        };
        let ghost h0 = *heap;
        let slot = match heap.alloc_integer(loader, index) {
            Ok(v) => v,
            Err(e) => {
                return Err(StepError::Internal(e));
            },
        };
        let ghost h1 = *heap;
        let target = match heap.get_class_instance(loader, real_class.as_str()) {
            Ok(o) => o.get_ref(),
            Err(e) => {
                return Err(StepError::Internal(e));
            },
        };
        let ghost h2 = *heap;
        let mut elements: Vec<Type> = Vec::new();
        elements.push(slot);
        elements.push(Type::ObjectRef(target));
        let array = match heap.alloc_array("java/lang/Object", elements, 2) {
            Ok(a) => a,
            Err(e) => {
                return Err(StepError::Internal(e));
            },
        };
        proof {
            reveal_strlit("java/lang/Object");
            assert(instance_at(h2.heap@, h0.next_obj_ref) == instance_at(h1.heap@, h0.next_obj_ref));
            assert(instance_at(heap.heap@, h0.next_obj_ref) == instance_at(h2.heap@, h0.next_obj_ref));
        }
        self.push_stack(array)?;
        Ok(Native::Done)
    }

    /// The first part of `MethodHandleNatives.getMemberVMInfo`: a field's
    /// information is made and pushed; a method or a constructor is handed to
    /// the host to have its method type described (see `finish_member_vm_info`).
    pub fn native_get_member_vm_info(&mut self, heap: &mut Heap, loader: &ClassLoader) -> (r: Result<Native, StepError>)
        requires
            !member_vm_info_stops(old(self)@, *old(heap), loader.classes_view()),
        ensures
            member_vm_info_outcome(old(self)@, *old(heap), *final(heap), loader.classes_view(), final(self)@, r),
            final(self).counter == old(self).counter,
    {
        let v = self.pop_stack()?;
        let m = match v {
            Type::ObjectRef(x) => x,
            _ => {
                return Err(StepError::Internal(InternalError::General("failed pop object ref from stack".to_string())));
            },
        };
        let (ty, flags, member_class, member) = JVM::read_member(heap, loader, m)?;
        if crate::constants::Constants::is_method(flags) {
            return Ok(Native::DescribeMember { member_name: m, method_type: ty, member_class, member, flags });
        }
        if crate::constants::Constants::is_field(flags) {
            return self.field_member_info(heap, loader, ty, member_class.as_str(), member.as_str());
        }
        if crate::constants::Constants::is_constructor(flags) {
            if !crate::text::str_eq(member.as_str(), "<init>") {
                vstd::pervasive::unreached::<()>();
            }
            return Ok(Native::DescribeMember { member_name: m, method_type: ty, member_class, member, flags });
        }
        Err(StepError::Internal(InternalError::General("MemberName flag not handled".to_string())))
    }
}

/// Whether a boxed `int` can be made: `java/lang/Integer` can be instantiated
/// and declares `value` itself.
pub open spec fn integer_ready(cs: Seq<(Seq<char>, ClassFileView)>) -> bool {
    &&& alloc_search(cs, "java/lang/Integer"@, cs.len() as nat) is Found
    &&& lookup(
        instance_fields_after(
            Seq::empty(),
            class_named(cs, "java/lang/Integer"@)->0.fields,
            class_named(cs, "java/lang/Integer"@)->0.fields.len() as int,
        ),
        "value"@,
    ) is Some
}

/// Whether the second part of `getMemberVMInfo` stops the machine: the
/// descriptor cannot be read, or the heap has no room.
pub open spec fn finish_member_stops(
    hp: Heap,
    cs: Seq<(Seq<char>, ClassFileView)>,
    member_class: Seq<char>,
    member: Seq<char>,
    descriptor: Type,
) -> bool {
    match ref_value(descriptor) {
        Some(d) => !readable_string(hp.heap@, d) || (string_text(hp.heap@, d) matches Some(desc) && method_search(
            cs,
            member_class,
            member,
            desc,
            true,
            cs.len() as nat,
        ) is Found && !(1 <= hp.next_obj_ref && hp.next_obj_ref + cs.len() + 2 <= u32::MAX && loader_defaults_ok(cs))),
        None => false,
    }
}

/// The second part of `getMemberVMInfo` for a method or a constructor whose
/// method type reads `descriptor`: the method (abstract ones too) is looked up;
/// its number, boxed, and the `MemberName` `m` (whose `flags` gain the method's
/// access flags) are pushed in a new `Object[2]`.
pub open spec fn finish_member_outcome(
    s: Seq<FrameView>,
    hp: Heap,
    hp2: Heap,
    cs: Seq<(Seq<char>, ClassFileView)>,
    m: u32,
    member_class: Seq<char>,
    member: Seq<char>,
    flags: i32,
    descriptor: Type,
    s2: Seq<FrameView>,
    r: Result<Native, StepError>,
) -> bool {
    match ref_value(descriptor) {
        None => s2 == s && hp2 == hp && r == Err::<Native, StepError>(
            StepError::Internal(InternalError::WrongType("Reference", descriptor)),
        ),
        Some(d) => match string_text(hp.heap@, d) {
            None => s2 == s && hp2 == hp && r matches Err(StepError::Internal(_)),
            Some(desc) => {
                let ms = method_search(cs, member_class, member, desc, true, cs.len() as nat);
                match ms {
                    Search::Found((_, mi, i)) => if i > i32::MAX {
                        s2 == s && hp2 == hp && r matches Err(StepError::Internal(InternalError::General(_)))
                    } else {
                        &&& hp.next_obj_ref <= hp2.next_obj_ref
                        &&& forall|x: u32|
                            x < hp.next_obj_ref && x != m ==> #[trigger] instance_at(hp2.heap@, x) == instance_at(
                                hp.heap@,
                                x,
                            )
                        &&& (s.len() > 0 && integer_ready(cs) && m < hp.next_obj_ref && (object_at(hp.heap@, m) matches Some(mo)
                            && holds_field(mo, "flags"@))) ==> r is Ok
                        &&& match r {
                            Ok(_) => {
                                let a = (hp2.next_obj_ref - 1) as u32;
                                &&& array_at(hp2.heap@, a) matches Some(arr) && arr.elements@.len() == 2
                                    && arr.classname@ == array_class_of("java/lang/Object"@) && arr.elements@[1]
                                    == Type::ObjectRef(m)
                                &&& m < hp.next_obj_ref ==> (array_at(hp2.heap@, a)->0.elements@[0] matches Type::ObjectRef(
                                    sl,
                                ) && object_at(hp2.heap@, sl) matches Some(so) && field_of(so, "value"@) == Some(
                                    Type::Integer(i as i32),
                                ))
                                &&& m < hp.next_obj_ref ==> (object_at(hp2.heap@, m) matches Some(mo2) && put_into(
                                    object_at(hp.heap@, m)->0,
                                    mo2,
                                    "flags"@,
                                    Type::Integer(flags | mi.access_flags as i32),
                                ))
                                &&& push_value(s, Type::ArrayRef(a)) == Exec::Done(s2, ())
                            },
                            Err(e) => s2 == s && e is Internal,
                        }
                    },
                    _ => s2 == s && hp2 == hp && (r matches Err(StepError::Internal(e)) && method_error(
                        ms,
                        e,
                        member,
                        desc,
                    )),
                }
            },
        },
    }
}

impl JVM {
    /// The second part of `MethodHandleNatives.getMemberVMInfo` for a method or
    /// a constructor, once the host has described its method type as the
    /// string `descriptor`.
    pub fn finish_member_vm_info(
        &mut self,
        heap: &mut Heap,
        loader: &ClassLoader,
        member_name: u32,
        member_class: &str,
        member: &str,
        flags: i32,
        descriptor: Type,
    ) -> (r: Result<Native, StepError>)
        requires
            !finish_member_stops(*old(heap), loader.classes_view(), member_class@, member@, descriptor),
        ensures
            finish_member_outcome(
                old(self)@,
                *old(heap),
                *final(heap),
                loader.classes_view(),
                member_name,
                member_class@,
                member@,
                flags,
                descriptor,
                final(self)@,
                r,
            ),
            final(self).counter == old(self).counter,
    {
        let d = match descriptor.as_ref() {
            Ok(d) => d,
            Err(e) => {
                return Err(StepError::Internal(e));
            },
        };
        let desc = match heap.get_string(d) {
            Ok(t) => t,
            Err(e) => {
                return Err(StepError::Internal(e));
            },
        };
        let (_, method, index) = match loader.get_any_method_by_name_with_index(member_class, member, desc.as_str()) {
            Ok(t) => t,
            Err(e) => {
                return Err(StepError::Internal(e));
            },
        };
        let access = method.get_access_flags();
        let ghost h0 = *heap;
        let slot = match heap.alloc_integer(loader, index) {
            Ok(v) => v,
            Err(e) => {
                return Err(StepError::Internal(e));
            },
        };
        let ghost h1 = *heap;
        proof {
            reveal_strlit("flags");
            reveal_strlit("value");
            assert("flags"@[0] != "value"@[0]);
        }
        match heap.put_field_in(member_name, "flags", Type::Integer(flags | access as i32)) {
            Ok(()) => {},
            Err(e) => {
                return Err(StepError::Internal(e));
            },
        }
        let ghost h2 = *heap;
        let mut elements: Vec<Type> = Vec::new();
        elements.push(slot);
        elements.push(Type::ObjectRef(member_name));
        let array = match heap.alloc_array("java/lang/Object", elements, 2) {
            Ok(a) => a,
            Err(e) => {
                return Err(StepError::Internal(e));
            },
        };
        proof {
            if member_name < h0.next_obj_ref {
                assert(instance_at(h2.heap@, h0.next_obj_ref) == instance_at(h1.heap@, h0.next_obj_ref));
                assert(instance_at(heap.heap@, h0.next_obj_ref) == instance_at(h2.heap@, h0.next_obj_ref));
                assert(instance_at(h1.heap@, member_name) == instance_at(h0.heap@, member_name));
                assert(instance_at(heap.heap@, member_name) == instance_at(h2.heap@, member_name));
            }
        }
        self.push_stack(array)?;
        Ok(Native::Done)
    }
}

} // verus!
