use vstd::prelude::*;

use crate::class_loader::class_file::{ACC_INTERFACE, ClassFileView};
use crate::class_loader::loader::{ClassLoader, Search, class_named, found_or, implements, offset_search, search_error};
use crate::errors::{InternalError, JavaException};
use crate::frame::FrameView;
use crate::heap::{
    array_at,
    initial_elements,
    new_array,
    same_but,
    Heap,
    class_name_ref,
    class_obj_budget,
    class_obj_ready,
    class_object,
    instance_at,
    loader_defaults_ok,
    object_at,
    readable_string,
    ref_of,
    ref_value,
    string_text,
    unchanged_below,
};
use crate::instance::{Instance, parts};
use crate::jvm::{Exec, JVM, StepError, pop_value, push_value};
use crate::modulemanager::ModuleManager;
use crate::native_calls::{Native, NameRead, class_name_text};
use crate::objects::instance_class;
use crate::types::Type;
use crate::utils::slashed;

verus! {

/// The internal name of the class that the `Class` object `x` stands for, as
/// `get_classname_from_class_obj` reads it.
pub open spec fn class_obj_class(h: Seq<(u32, Instance)>, x: u32) -> Option<Seq<char>> {
    match class_name_ref(h, x) {
        Some(n) => match string_text(h, n) {
            Some(t) => Some(slashed(t)),
            None => None,
        },
        None => None,
    }
}

/// Whether `r` and `s2` are the outcome of pushing `v` after a routine.
pub open spec fn pushed_done(t: Seq<FrameView>, v: Type, s2: Seq<FrameView>, r: Result<Native, StepError>) -> bool {
    push_value(t, v) == Exec::Done(s2, ()) && r == Ok::<Native, StepError>(Native::Done)
}

/// Whether `Class.isInterface` stops the machine: the class's name cannot be read.
pub open spec fn is_interface_stops(s: Seq<FrameView>, h: Seq<(u32, Instance)>) -> bool {
    match pop_value(s) {
        Exec::Done(_, v) => match ref_value(v) {
            Some(x) => class_name_ref(h, x) matches Some(n) && !readable_string(h, n),
            None => false,
        },
        Exec::Panic => true,
        _ => false,
    }
}

/// `Class.isInterface`: whether the class that the `Class` object stands for is
/// an interface replaces the object.
pub open spec fn is_interface_outcome(
    s: Seq<FrameView>,
    h: Seq<(u32, Instance)>,
    cs: Seq<(Seq<char>, ClassFileView)>,
    s2: Seq<FrameView>,
    r: Result<Native, StepError>,
) -> bool {
    match pop_value(s) {
        Exec::Done(t, v) => match ref_value(v) {
            None => s2 == t && r == Err::<Native, StepError>(
                StepError::Internal(InternalError::WrongType("Reference", v)),
            ),
            Some(x) => match class_obj_class(h, x) {
                None => s2 == t && r matches Err(StepError::Internal(_)),
                Some(c) => match class_named(cs, c) {
                    None => s2 == t && (r matches Err(StepError::Internal(InternalError::ClassNotFound(a))) && a@
                        == slashed(c)),
                    Some(cf) => pushed_done(t, Type::Boolean(cf.access_flags & ACC_INTERFACE != 0), s2, r),
                },
            },
        },
        Exec::Fail(t, e) => s2 == t && r == Err::<Native, StepError>(e),
        Exec::Panic => false,
    }
}

/// Whether `Class.getModifiers` stops the machine: the class's name cannot be
/// read as a string.
pub open spec fn get_modifiers_stops(s: Seq<FrameView>, h: Seq<(u32, Instance)>) -> bool {
    match pop_value(s) {
        Exec::Done(_, v) => match ref_value(v) {
            Some(x) => class_name_text(h, Type::ObjectRef(x), false) is Stops,
            None => false,
        },
        Exec::Panic => true,
        _ => false,
    }
}

/// `Class.getModifiers`: the access flags of the class named by the `Class`
/// object's `name` replace the object.
pub open spec fn get_modifiers_outcome(
    s: Seq<FrameView>,
    h: Seq<(u32, Instance)>,
    cs: Seq<(Seq<char>, ClassFileView)>,
    s2: Seq<FrameView>,
    r: Result<Native, StepError>,
) -> bool {
    match pop_value(s) {
        Exec::Done(t, v) => match ref_value(v) {
            None => s2 == t && r == Err::<Native, StepError>(
                StepError::Internal(InternalError::WrongType("Reference", v)),
            ),
            Some(x) => match class_name_text(h, Type::ObjectRef(x), false) {
                NameRead::Text(c) => match class_named(cs, c) {
                    None => s2 == t && (r matches Err(StepError::Internal(InternalError::ClassNotFound(a))) && a@
                        == slashed(c)),
                    Some(cf) => pushed_done(t, Type::Integer(cf.access_flags as i32), s2, r),
                },
                NameRead::Fails(e) => s2 == t && r == Err::<Native, StepError>(e),
                NameRead::FailsSomehow => s2 == t && r matches Err(StepError::Internal(_)),
                NameRead::Stops => false,
            },
        },
        Exec::Fail(t, e) => s2 == t && r == Err::<Native, StepError>(e),
        Exec::Panic => false,
    }
}

/// `Reflection.getClassAccessFlags`: the access flags of the class of the
/// object (an object reference) replace it.
pub open spec fn class_access_flags_outcome(
    s: Seq<FrameView>,
    h: Seq<(u32, Instance)>,
    cs: Seq<(Seq<char>, ClassFileView)>,
    s2: Seq<FrameView>,
    r: Result<Native, StepError>,
) -> bool {
    match pop_value(s) {
        Exec::Done(t, v) => match v {
            Type::ObjectRef(x) => match instance_at(h, x) {
                None => s2 == t && r matches Err(StepError::Internal(InternalError::General(_))),
                Some(i) => match class_named(cs, instance_class(i)) {
                    None => s2 == t && (r matches Err(StepError::Internal(InternalError::ClassNotFound(a))) && a@
                        == slashed(instance_class(i))),
                    Some(cf) => pushed_done(t, Type::Integer(cf.access_flags as i32), s2, r),
                },
            },
            _ => s2 == t && r matches Err(StepError::Internal(InternalError::General(_))),
        },
        Exec::Fail(t, e) => s2 == t && r == Err::<Native, StepError>(e),
        Exec::Panic => false,
    }
}

/// The descriptor letter of a primitive type's name (`int` is `I`), as
/// `Class.getPrimitiveClass` maps it.
pub open spec fn primitive_letter(name: Seq<char>) -> Option<Seq<char>> {
    if name == "float"@ {
        Some("F"@)
    } else if name == "int"@ {
        Some("I"@)
    } else if name == "double"@ {
        Some("D"@)
    } else if name == "short"@ {
        Some("S"@)
    } else if name == "char"@ {
        Some("C"@)
    } else if name == "byte"@ {
        Some("B"@)
    } else if name == "boolean"@ {
        Some("Z"@)
    } else if name == "long"@ {
        Some("J"@)
    } else if name == "void"@ {
        Some("V"@)
    } else {
        None
    }
}

/// Whether `Class.getPrimitiveClass` stops the machine: the argument is no
/// object reference, the string cannot be read, it names no primitive type, or
/// the heap has no room for the `Class` object.
pub open spec fn primitive_class_stops(s: Seq<FrameView>, hp: Heap, cs: Seq<(Seq<char>, ClassFileView)>) -> bool {
    match pop_value(s) {
        Exec::Done(_, v) => match v {
            Type::ObjectRef(x) => !readable_string(hp.heap@, x) || match string_text(hp.heap@, x) {
                Some(n) => primitive_letter(n) is None || !(1 <= hp.next_obj_ref && hp.next_obj_ref + class_obj_budget(
                    1,
                    cs.len() as nat,
                ) <= u32::MAX && loader_defaults_ok(cs)),
                None => false,
            },
            _ => true,
        },
        Exec::Panic => true,
        _ => false,
    }
}

/// `Class.getPrimitiveClass`: the `Class` object of the primitive type that the
/// string names (made if needed) replaces the string.
pub open spec fn primitive_class_outcome(
    s: Seq<FrameView>,
    hp: Heap,
    hp2: Heap,
    cs: Seq<(Seq<char>, ClassFileView)>,
    mm: ModuleManager,
    s2: Seq<FrameView>,
    r: Result<Native, StepError>,
) -> bool {
    match pop_value(s) {
        Exec::Done(t, Type::ObjectRef(x)) => match string_text(hp.heap@, x) {
            None => s2 == t && hp2 == hp && r matches Err(StepError::Internal(_)),
            Some(n) => {
                let p = primitive_letter(n)->0;
                &&& hp.next_obj_ref <= hp2.next_obj_ref
                &&& unchanged_below(hp.heap@, hp2.heap@, hp.next_obj_ref)
                &&& ref_of(hp.classes@, p) is Some ==> hp2.heap@ == hp.heap@
                &&& ref_of(hp.classes@, p) is None && class_obj_ready(cs, mm, p) ==> r is Ok
                &&& match r {
                    Ok(_) => ref_of(hp2.classes@, p) matches Some(y) && object_at(hp2.heap@, y) matches Some(co)
                        && (ref_of(hp.classes@, p) is None ==> class_object(co, hp2, cs, mm, p)) && pushed_done(
                        t,
                        Type::ObjectRef(co.obj_ref),
                        s2,
                        r,
                    ),
                    Err(e) => s2 == t && e is Internal,
                }
            },
        },
        Exec::Done(_, _) => false,
        Exec::Fail(t, e) => s2 == t && hp2 == hp && r == Err::<Native, StepError>(e),
        Exec::Panic => false,
    }
}

/// Whether `Object.clone` stops the machine: the heap has no room for the copy.
pub open spec fn clone_stops(s: Seq<FrameView>, hp: Heap) -> bool {
    match pop_value(s) {
        Exec::Done(_, v) => match ref_value(v) {
            Some(x) => !(1 <= hp.next_obj_ref) || match instance_at(hp.heap@, x) {
                Some(Instance::ObjectInstance(o)) => hp.next_obj_ref + parts(o) > u32::MAX,
                Some(Instance::ArrayInstance(_)) => hp.next_obj_ref >= u32::MAX,
                None => false,
            },
            None => false,
        },
        Exec::Panic => true,
        _ => false,
    }
}

/// `Object.clone`: an object of a class that implements `java/lang/Cloneable`
/// is copied (fields or elements), and the copy replaces it; another is a
/// `CloneNotSupportedException`.
pub open spec fn clone_outcome(
    s: Seq<FrameView>,
    hp: Heap,
    hp2: Heap,
    cs: Seq<(Seq<char>, ClassFileView)>,
    s2: Seq<FrameView>,
    r: Result<Native, StepError>,
) -> bool {
    match pop_value(s) {
        Exec::Done(t, v) => match ref_value(v) {
            None => s2 == t && hp2 == hp && r matches Err(StepError::Internal(InternalError::General(_))),
            Some(x) => match instance_at(hp.heap@, x) {
                None => s2 == t && hp2 == hp && r matches Err(StepError::Internal(InternalError::General(_))),
                Some(i) => match implements(cs, "java/lang/Cloneable"@, instance_class(i), cs.len() as nat) {
                    crate::class_loader::loader::Search::Found(false) => s2 == t && hp2 == hp && (r matches Err(
                        StepError::Java(JavaException::CloneNotSupported(a)),
                    ) && a@ == instance_class(i)),
                    crate::class_loader::loader::Search::Found(true) => {
                        let c = hp.next_obj_ref;
                        &&& unchanged_below(hp.heap@, hp2.heap@, hp.next_obj_ref)
                        &&& match i {
                            Instance::ObjectInstance(o) => object_at(hp2.heap@, c) matches Some(k) && k.classname@
                                == o.classname@ && k.fields@ == o.fields@ && pushed_done(t, Type::ObjectRef(c), s2, r),
                            Instance::ArrayInstance(a) => crate::heap::array_at(hp2.heap@, c) matches Some(k)
                                && k.classname@ == a.classname@ && k.elements@ == a.elements@ && pushed_done(
                                t,
                                Type::ArrayRef(c),
                                s2,
                                r,
                            ),
                        }
                    },
                    sr => s2 == t && hp2 == hp && (r matches Err(StepError::Internal(e)) && found_or(
                        sr,
                        Err(e),
                        InternalError::FieldNotFound,
                    )),
                },
            },
        },
        Exec::Fail(t, e) => s2 == t && hp2 == hp && r == Err::<Native, StepError>(e),
        Exec::Panic => false,
    }
}

impl JVM {
    /// `Class.isInterface`.
    pub(crate) fn native_is_interface(&mut self, heap: &Heap, loader: &ClassLoader) -> (r: Result<Native, StepError>)
        requires
            !is_interface_stops(old(self)@, heap.heap@),
        ensures
            is_interface_outcome(old(self)@, heap.heap@, loader.classes_view(), final(self)@, r),
            final(self).counter == old(self).counter,
    {
        let v = self.pop_stack()?;
        let x = match v.as_ref() {
            Ok(x) => x,
            Err(e) => {
                return Err(StepError::Internal(e));
            },
        };
        let name = match heap.get_classname_from_class_obj(x) {
            Ok(n) => n,
            Err(e) => {
                return Err(StepError::Internal(e));
            },
        };
        proof {
            loader.lemma_get(name@);
        }
        let flag = match loader.get(name.as_str()) {
            Ok(c) => c.is_interface(),
            Err(e) => {
                return Err(StepError::Internal(e));
            },
        };
        self.push_stack(Type::Boolean(flag))?;
        Ok(Native::Done)
    }

    /// `Class.getModifiers`.
    pub(crate) fn native_get_modifiers(&mut self, heap: &Heap, loader: &ClassLoader) -> (r: Result<Native, StepError>)
        requires
            !get_modifiers_stops(old(self)@, heap.heap@),
        ensures
            get_modifiers_outcome(old(self)@, heap.heap@, loader.classes_view(), final(self)@, r),
            final(self).counter == old(self).counter,
    {
        let v = self.pop_stack()?;
        let x = match v.as_ref() {
            Ok(x) => x,
            Err(e) => {
                return Err(StepError::Internal(e));
            },
        };
        let class_obj = match heap.get_obj_instance(x) {
            Ok(o) => o,
            Err(e) => {
                return Err(StepError::Internal(e));
            },
        };
        let name_field = match class_obj.get_field("name") {
            Ok(f) => f,
            Err(e) => {
                return Err(StepError::Internal(e));
            },
        };
        let name_ref = match name_field.as_ref() {
            Ok(n) => n,
            Err(e) => {
                return Err(StepError::Internal(e));
            },
        };
        let name = match heap.get_string(name_ref) {
            Ok(t) => t,
            Err(e) => {
                return Err(StepError::Internal(e));
            },
        };
        proof {
            loader.lemma_get(name@);
        }
        let flags = match loader.get(name.as_str()) {
            Ok(c) => c.get_access_flags(),
            Err(e) => {
                return Err(StepError::Internal(e));
            },
        };
        self.push_stack(Type::Integer(flags as i32))?;
        Ok(Native::Done)
    }

    /// `Reflection.getClassAccessFlags`.
    pub(crate) fn native_class_access_flags(&mut self, heap: &Heap, loader: &ClassLoader) -> (r: Result<Native, StepError>)
        requires
            !(pop_value(old(self)@) is Panic),
        ensures
            class_access_flags_outcome(old(self)@, heap.heap@, loader.classes_view(), final(self)@, r),
            final(self).counter == old(self).counter,
    {
        let v = self.pop_stack()?;
        let x = match v {
            Type::ObjectRef(x) => x,
            _ => {
                return Err(StepError::Internal(InternalError::General("failed pop object ref from stack".to_string())));
            },
        };
        let class_name = match heap.get_instance(x) {
            Ok(i) => i.get_class_field_type(),
            Err(e) => {
                return Err(StepError::Internal(e));
            },
        };
        proof {
            loader.lemma_get(class_name@);
        }
        let flags = match loader.get(class_name) {
            Ok(c) => c.get_access_flags(),
            Err(e) => {
                return Err(StepError::Internal(e));
            },
        };
        self.push_stack(Type::Integer(flags as i32))?;
        Ok(Native::Done)
    }

    /// `Class.getPrimitiveClass`.
    pub(crate) fn native_primitive_class(&mut self, heap: &mut Heap, loader: &ClassLoader) -> (r: Result<Native, StepError>)
        requires
            !primitive_class_stops(old(self)@, *old(heap), loader.classes_view()),
        ensures
            primitive_class_outcome(
                old(self)@,
                *old(heap),
                *final(heap),
                loader.classes_view(),
                loader.modulemanager,
                final(self)@,
                r,
            ),
            final(self).counter == old(self).counter,
    {
        let v = self.pop_stack()?;
        let x = match v {
            Type::ObjectRef(x) => x,
            _ => vstd::pervasive::unreached(),
        };
        let name = match heap.get_string(x) {
            Ok(t) => t,
            Err(e) => {
                return Err(StepError::Internal(e));
            },
        };
        let n = name.as_str();
        let letter = if crate::text::str_eq(n, "float") {
            "F"
        } else if crate::text::str_eq(n, "int") {
            "I"
        } else if crate::text::str_eq(n, "double") {
            "D"
        } else if crate::text::str_eq(n, "short") {
            "S"
        } else if crate::text::str_eq(n, "char") {
            "C"
        } else if crate::text::str_eq(n, "byte") {
            "B"
        } else if crate::text::str_eq(n, "boolean") {
            "Z"
        } else if crate::text::str_eq(n, "long") {
            "J"
        } else if crate::text::str_eq(n, "void") {
            "V"
        } else {
            vstd::pervasive::unreached()
        };
        proof {
            reveal_strlit("F");
            reveal_strlit("I");
            reveal_strlit("D");
            reveal_strlit("S");
            reveal_strlit("C");
            reveal_strlit("B");
            reveal_strlit("Z");
            reveal_strlit("J");
            reveal_strlit("V");
        }
        let class_ref = match heap.get_class_instance(loader, letter) {
            Ok(c) => c.get_ref(),
            Err(e) => {
                return Err(StepError::Internal(e));
            },
        };
        self.push_stack(Type::ObjectRef(class_ref))?;
        Ok(Native::Done)
    }

    /// `Object.clone`.
    pub(crate) fn native_clone(&mut self, heap: &mut Heap, loader: &ClassLoader) -> (r: Result<Native, StepError>)
        requires
            !clone_stops(old(self)@, *old(heap)),
        ensures
            clone_outcome(old(self)@, *old(heap), *final(heap), loader.classes_view(), final(self)@, r),
            final(self).counter == old(self).counter,
    {
        let v = self.pop_stack()?;
        let x = match v {
            Type::ObjectRef(x) | Type::ArrayRef(x) => x,
            Type::Null => 0,
            _ => {
                return Err(StepError::Internal(InternalError::General("failed pop object ref from stack".to_string())));
            },
        };
        let class_name = match heap.get_instance(x) {
            Ok(i) => i.get_class_field_type().to_string(),
            Err(e) => {
                return Err(StepError::Internal(e));
            },
        };
        match loader.has_interface("java/lang/Cloneable", class_name.as_str()) {
            Ok(true) => {},
            Ok(false) => {
                return Err(StepError::Java(JavaException::CloneNotSupported(class_name)));
            },
            Err(e) => {
                return Err(StepError::Internal(e));
            },
        }
        let cloned = match heap.clone_instance(x) {
            Ok(c) => c,
            Err(e) => {
                return Err(StepError::Internal(e));
            },
        };
        self.push_stack(cloned)?;
        Ok(Native::Done)
    }
}

/// What `Unsafe.arrayBaseOffset0` reads of its `Class` argument `v`: its
/// `name`, a string object, whose `value` is an array.
pub enum BaseOffsetRead {
    Zero,
    Fails(StepError),
    FailsSomehow,
    Stops,
}

/// Reading the `Class` argument `v` of `arrayBaseOffset0`.
pub open spec fn base_offset_read(h: Seq<(u32, Instance)>, v: Type) -> BaseOffsetRead {
    match v {
        Type::ObjectRef(o) => match instance_at(h, o) {
            Some(Instance::ObjectInstance(ob)) => match crate::instance::field_of(ob, "name"@) {
                None => BaseOffsetRead::Fails(StepError::Internal(InternalError::FieldNotFound)),
                Some(Type::ObjectRef(x)) => match instance_at(h, x) {
                    Some(Instance::ObjectInstance(xo)) => match crate::instance::field_of(xo, "value"@) {
                        None => BaseOffsetRead::Fails(StepError::Internal(InternalError::FieldNotFound)),
                        Some(Type::ArrayRef(a)) => match instance_at(h, a) {
                            Some(Instance::ArrayInstance(_)) => BaseOffsetRead::Zero,
                            _ => BaseOffsetRead::FailsSomehow,
                        },
                        Some(_) => BaseOffsetRead::Stops,
                    },
                    _ => BaseOffsetRead::FailsSomehow,
                },
                Some(_) => BaseOffsetRead::Stops,
            },
            _ => BaseOffsetRead::FailsSomehow,
        },
        _ => BaseOffsetRead::Stops,
    }
}

/// Whether `Unsafe.arrayBaseOffset0` stops the machine: its argument is no
/// `Class` object with a name.
pub open spec fn base_offset_stops(s: Seq<FrameView>, h: Seq<(u32, Instance)>) -> bool {
    match pop_value(s) {
        Exec::Done(t, v) => match base_offset_read(h, v) {
            BaseOffsetRead::Stops => true,
            BaseOffsetRead::Zero => push_value(t, Type::Integer(0)) is Panic,
            _ => false,
        },
        Exec::Panic => true,
        _ => false,
    }
}

/// `Unsafe.arrayBaseOffset0`: the elements of an array start at offset 0; it
/// replaces the `Class` object.
pub open spec fn base_offset_outcome(s: Seq<FrameView>, h: Seq<(u32, Instance)>, s2: Seq<FrameView>, r: Result<Native, StepError>) -> bool {
    match pop_value(s) {
        Exec::Done(t, v) => match base_offset_read(h, v) {
            BaseOffsetRead::Zero => crate::native_calls::pushed_outcome(push_value(t, Type::Integer(0)), s2, r),
            BaseOffsetRead::Fails(e) => s2 == t && r == Err::<Native, StepError>(e),
            BaseOffsetRead::FailsSomehow => s2 == t && r matches Err(StepError::Internal(_)),
            BaseOffsetRead::Stops => false,
        },
        Exec::Fail(t, e) => s2 == t && r == Err::<Native, StepError>(e),
        Exec::Panic => false,
    }
}

impl JVM {
    /// `Unsafe.arrayBaseOffset0`.
    pub(crate) fn native_array_base_offset(&mut self, heap: &Heap) -> (r: Result<Native, StepError>)
        requires
            !base_offset_stops(old(self)@, heap.heap@),
        ensures
            base_offset_outcome(old(self)@, heap.heap@, final(self)@, r),
            final(self).counter == old(self).counter,
    {
        let v = self.pop_stack()?;
        let o = match v {
            Type::ObjectRef(o) => o,
            _ => {
                return vstd::pervasive::unreached();
            },
        };
        let ob = match heap.get_obj_instance(o) {
            Ok(ob) => ob,
            Err(e) => {
                return Err(StepError::Internal(e));
            },
        };
        let x = match ob.get_field("name") {
            Ok(Type::ObjectRef(x)) => x,
            Ok(_) => {
                return vstd::pervasive::unreached();
            },
            Err(e) => {
                return Err(StepError::Internal(e));
            },
        };
        let xo = match heap.get_obj_instance(x) {
            Ok(xo) => xo,
            Err(e) => {
                return Err(StepError::Internal(e));
            },
        };
        let a = match xo.get_field("value") {
            Ok(Type::ArrayRef(a)) => a,
            Ok(_) => {
                return vstd::pervasive::unreached();
            },
            Err(e) => {
                return Err(StepError::Internal(e));
            },
        };
        match heap.get_array_instance(a) {
            Ok(_) => {},
            Err(e) => {
                return Err(StepError::Internal(e));
            },
        }
        self.push_stack(Type::Integer(0))?;
        Ok(Native::Done)
    }
}

/// Whether `Unsafe.objectFieldOffset1` stops the machine: the field's name or
/// the class's name cannot be read, or no class from it up declares the field.
pub open spec fn field_offset_stops(s: Seq<FrameView>, h: Seq<(u32, Instance)>, cs: Seq<(Seq<char>, ClassFileView)>) -> bool {
    match pop_value(s) {
        Exec::Done(t1, Type::ObjectRef(n)) => !readable_string(h, n) || match string_text(h, n) {
            Some(f) => match pop_value(t1) {
                Exec::Done(t2, Type::ObjectRef(c)) => (class_name_ref(h, c) matches Some(x) && !readable_string(h, x))
                    || match class_obj_class(h, c) {
                    Some(cn) => match offset_search(cs, cn, f, cs.len() as nat) {
                        Search::NotFound(_) => true,
                        Search::Found(i) => push_value(t2, Type::Long(i as i64)) is Panic,
                        _ => false,
                    },
                    None => false,
                },
                Exec::Panic => true,
                _ => false,
            },
            None => false,
        },
        Exec::Panic => true,
        _ => false,
    }
}

/// `Unsafe.objectFieldOffset1`: the field's name and its class are popped;
/// the field's offset (see `ClassLoader::get_field_offset`) is pushed as a
/// `long`.
pub open spec fn field_offset_outcome(
    s: Seq<FrameView>,
    h: Seq<(u32, Instance)>,
    cs: Seq<(Seq<char>, ClassFileView)>,
    s2: Seq<FrameView>,
    r: Result<Native, StepError>,
) -> bool {
    match pop_value(s) {
        Exec::Done(t1, v1) => match v1 {
            Type::ObjectRef(n) => match string_text(h, n) {
                None => s2 == t1 && r matches Err(StepError::Internal(_)),
                Some(f) => match pop_value(t1) {
                    Exec::Done(t2, v2) => match v2 {
                        Type::ObjectRef(c) => match class_obj_class(h, c) {
                            None => s2 == t2 && r matches Err(StepError::Internal(_)),
                            Some(cn) => match offset_search(cs, cn, f, cs.len() as nat) {
                                Search::Found(i) => crate::native_calls::pushed_outcome(
                                    push_value(t2, Type::Long(i as i64)),
                                    s2,
                                    r,
                                ),
                                sr => s2 == t2 && (r matches Err(StepError::Internal(e)) && search_error(
                                    sr,
                                    e,
                                    InternalError::FieldNotFound,
                                )),
                            },
                        },
                        _ => s2 == t2 && r matches Err(StepError::Internal(InternalError::General(_))),
                    },
                    Exec::Fail(t, e) => s2 == t && r == Err::<Native, StepError>(e),
                    Exec::Panic => false,
                },
            },
            _ => s2 == t1 && r matches Err(StepError::Internal(InternalError::General(_))),
        },
        Exec::Fail(t, e) => s2 == t && r == Err::<Native, StepError>(e),
        Exec::Panic => false,
    }
}

impl JVM {
    /// `Unsafe.objectFieldOffset1`.
    pub(crate) fn native_object_field_offset(&mut self, heap: &Heap, loader: &ClassLoader) -> (r: Result<Native, StepError>)
        requires
            !field_offset_stops(old(self)@, heap.heap@, loader.classes_view()),
        ensures
            field_offset_outcome(old(self)@, heap.heap@, loader.classes_view(), final(self)@, r),
            final(self).counter == old(self).counter,
    {
        let v = self.pop_stack()?;
        let n = match v {
            Type::ObjectRef(n) => n,
            _ => {
                return Err(StepError::Internal(InternalError::General("failed pop object ref from stack".to_string())));
            },
        };
        let field_name = match heap.get_string(n) {
            Ok(t) => t,
            Err(e) => {
                return Err(StepError::Internal(e));
            },
        };
        let w = self.pop_stack()?;
        let c = match w {
            Type::ObjectRef(c) => c,
            _ => {
                return Err(StepError::Internal(InternalError::General("failed pop object ref from stack".to_string())));
            },
        };
        let class_name = match heap.get_classname_from_class_obj(c) {
            Ok(t) => t,
            Err(e) => {
                return Err(StepError::Internal(e));
            },
        };
        let offset = match loader.get_field_offset(class_name.as_str(), field_name.as_str()) {
            Ok(o) => o,
            Err(e) => {
                return Err(StepError::Internal(e));
            },
        };
        self.push_stack(Type::Long(offset))?;
        Ok(Native::Done)
    }
}

/// How many system properties of the platform `SystemProps$Raw.platformProperties`
/// leaves a place for.
pub const PLATFORM_PROPERTY_COUNT: usize = 39;

/// Whether `platformProperties` stops the machine: the heap has no room.
pub open spec fn platform_properties_stops(hp: Heap) -> bool {
    !(1 <= hp.next_obj_ref && hp.next_obj_ref < u32::MAX)
}

/// `SystemProps$Raw.platformProperties`: a new `String` array with a place for
/// each platform property, none of them set, is pushed.
pub open spec fn platform_properties_outcome(s: Seq<FrameView>, hp: Heap, hp2: Heap, s2: Seq<FrameView>, r: Result<Native, StepError>) -> bool {
    let a = hp.next_obj_ref;
    &&& hp2.next_obj_ref == a + 1
    &&& array_at(hp2.heap@, a) matches Some(arr) && new_array(
        arr,
        "java/lang/String"@,
        a,
        initial_elements("java/lang/String"@, Seq::empty(), PLATFORM_PROPERTY_COUNT as nat),
    )
    &&& same_but(hp.heap@, hp2.heap@, a)
    &&& hp2.classes == hp.classes && hp2.static_classes == hp.static_classes && hp2.strings == hp.strings
    &&& crate::native_calls::pushed_outcome(push_value(s, Type::ArrayRef(a)), s2, r)
}

impl JVM {
    /// `SystemProps$Raw.platformProperties`.
    pub(crate) fn native_platform_properties(&mut self, heap: &mut Heap) -> (r: Result<Native, StepError>)
        requires
            !platform_properties_stops(*old(heap)),
        ensures
            platform_properties_outcome(old(self)@, *old(heap), *final(heap), final(self)@, r),
            final(self).counter == old(self).counter,
    {
        proof {
            reveal_strlit("java/lang/String");
            assert("java/lang/String"@[4] == '/');
            assert("java/lang/String"@.contains('/'));
        }
        let array = match heap.alloc_array("java/lang/String", Vec::new(), PLATFORM_PROPERTY_COUNT) {
            Ok(a) => a,
            Err(e) => {
                return Err(StepError::Internal(e));
            },
        };
        self.push_stack(array)?;
        Ok(Native::Done)
    }
}

/// The class that the `Class` object `c` stands for, when its name can be read
/// and names a loaded class.
pub open spec fn class_of_class_obj(h: Seq<(u32, Instance)>, cs: Seq<(Seq<char>, ClassFileView)>, c: u32) -> Option<ClassFileView> {
    match class_name_ref(h, c) {
        Some(n) => match string_text(h, n) {
            Some(t) => class_named(cs, t),
            None => None,
        },
        None => None,
    }
}

/// Whether `Class.getSuperclass` stops the machine: the class's name cannot be
/// read, or the `Class` object of its superclass is needed and the heap has no
/// room.
pub open spec fn superclass_stops(s: Seq<FrameView>, hp: Heap, cs: Seq<(Seq<char>, ClassFileView)>) -> bool {
    let h = hp.heap@;
    match pop_value(s) {
        Exec::Done(_, v) => match ref_value(v) {
            Some(c) => (class_name_ref(h, c) matches Some(x) && !readable_string(h, x)) || match class_of_class_obj(h, cs, c) {
                Some(k) => k.this_class_name != "java/lang/Object"@ && !(1 <= hp.next_obj_ref && hp.next_obj_ref
                    + class_obj_budget(k.super_class_name.len(), cs.len() as nat) <= u32::MAX && loader_defaults_ok(cs)),
                None => false,
            },
            None => false,
        },
        Exec::Panic => true,
        _ => false,
    }
}

/// `Class.getSuperclass`: `null` for `java/lang/Object`, else the `Class`
/// object of the superclass (made if needed) replaces the `Class` object.
pub open spec fn superclass_outcome(
    s: Seq<FrameView>,
    hp: Heap,
    hp2: Heap,
    cs: Seq<(Seq<char>, ClassFileView)>,
    mm: ModuleManager,
    s2: Seq<FrameView>,
    r: Result<Native, StepError>,
) -> bool {
    match pop_value(s) {
        Exec::Done(t, v) => match ref_value(v) {
            None => s2 == t && hp2 == hp && r == Err::<Native, StepError>(
                StepError::Internal(InternalError::WrongType("Reference", v)),
            ),
            Some(c) => match class_of_class_obj(hp.heap@, cs, c) {
                None => s2 == t && hp2 == hp && r matches Err(StepError::Internal(_)),
                Some(k) => if k.this_class_name == "java/lang/Object"@ {
                    hp2 == hp && crate::native_calls::pushed_outcome(push_value(t, Type::Null), s2, r)
                } else {
                    let n = k.super_class_name;
                    &&& hp.next_obj_ref <= hp2.next_obj_ref
                    &&& unchanged_below(hp.heap@, hp2.heap@, hp.next_obj_ref)
                    &&& ref_of(hp.classes@, n) is Some ==> hp2.heap@ == hp.heap@
                    &&& ref_of(hp.classes@, n) is None && class_obj_ready(cs, mm, n) ==> r is Ok
                    &&& match r {
                        Ok(_) => ref_of(hp2.classes@, n) matches Some(x) && object_at(hp2.heap@, x) matches Some(co)
                            && (ref_of(hp.classes@, n) is None ==> class_object(co, hp2, cs, mm, n)) && r == Ok::<
                            Native,
                            StepError,
                        >(Native::Done) && push_value(t, Type::ObjectRef(co.obj_ref)) == Exec::Done(s2, ()),
                        Err(e) => s2 == t && e is Internal,
                    }
                },
            },
        },
        Exec::Fail(t, e) => s2 == t && hp2 == hp && r == Err::<Native, StepError>(e),
        Exec::Panic => false,
    }
}

impl JVM {
    /// `Class.getSuperclass`.
    pub(crate) fn native_superclass(&mut self, heap: &mut Heap, loader: &ClassLoader) -> (r: Result<Native, StepError>)
        requires
            !superclass_stops(old(self)@, *old(heap), loader.classes_view()),
        ensures
            superclass_outcome(old(self)@, *old(heap), *final(heap), loader.classes_view(), loader.modulemanager, final(self)@, r),
            final(self).counter == old(self).counter,
    {
        let v = self.pop_stack()?;
        let c = match v.as_ref() {
            Ok(c) => c,
            Err(e) => {
                return Err(StepError::Internal(e));
            },
        };
        let k = match heap.get_class_from_class_obj(loader, c) {
            Ok(k) => k,
            Err(e) => {
                return Err(StepError::Internal(e));
            },
        };
        if crate::text::str_eq(k.get_name(), "java/lang/Object") {
            self.push_stack(Type::Null)?;
            return Ok(Native::Done);
        }
        let parent = k.get_parent_name().to_string();
        let class_ref = match heap.get_class_instance(loader, parent.as_str()) {
            Ok(co) => co.get_ref(),
            Err(e) => {
                return Err(StepError::Internal(e));
            },
        };
        self.push_stack(Type::ObjectRef(class_ref))?;
        Ok(Native::Done)
    }
}

/// Whether `Class.isAssignableFrom` stops the machine: comparing the classes
/// of the two objects stops it.
pub open spec fn assignable_from_stops(s: Seq<FrameView>, h: Seq<(u32, Instance)>, cs: Seq<(Seq<char>, ClassFileView)>) -> bool {
    match pop_value(s) {
        Exec::Done(t1, Type::ObjectRef(b)) => match pop_value(t1) {
            Exec::Done(_, Type::ObjectRef(a)) => match (object_at(h, a), object_at(h, b)) {
                (Some(x), Some(y)) => crate::assign::assign_stops(cs, x.classname@, y.classname@),
                _ => false,
            },
            Exec::Panic => true,
            _ => false,
        },
        Exec::Panic => true,
        _ => false,
    }
}

/// `Class.isAssignableFrom`: the two objects are popped (the argument
/// first), and whether the class of the second may stand where the class of
/// the first is expected (see `assignable`) is pushed. The classes compared
/// are those of the two objects themselves.
pub open spec fn assignable_from_outcome(
    s: Seq<FrameView>,
    h: Seq<(u32, Instance)>,
    cs: Seq<(Seq<char>, ClassFileView)>,
    s2: Seq<FrameView>,
    r: Result<Native, StepError>,
) -> bool {
    match pop_value(s) {
        Exec::Done(t1, v1) => match v1 {
            Type::ObjectRef(b) => match pop_value(t1) {
                Exec::Done(t2, v2) => match v2 {
                    Type::ObjectRef(a) => match (object_at(h, a), object_at(h, b)) {
                        (Some(x), Some(y)) => match crate::assign::assignable(cs, x.classname@, y.classname@) {
                            Search::Found(k) => crate::native_calls::pushed_outcome(push_value(t2, Type::Boolean(k)), s2, r),
                            sr => s2 == t2 && (r matches Err(StepError::Internal(e)) && search_error(
                                sr,
                                e,
                                InternalError::FieldNotFound,
                            )),
                        },
                        _ => s2 == t2 && r matches Err(StepError::Internal(_)),
                    },
                    _ => s2 == t2 && r matches Err(StepError::Internal(InternalError::General(_))),
                },
                Exec::Fail(t, e) => s2 == t && r == Err::<Native, StepError>(e),
                Exec::Panic => false,
            },
            _ => s2 == t1 && r matches Err(StepError::Internal(InternalError::General(_))),
        },
        Exec::Fail(t, e) => s2 == t && r == Err::<Native, StepError>(e),
        Exec::Panic => false,
    }
}

impl JVM {
    /// `Class.isAssignableFrom`.
    pub(crate) fn native_assignable_from(&mut self, heap: &Heap, loader: &ClassLoader) -> (r: Result<Native, StepError>)
        requires
            !assignable_from_stops(old(self)@, heap.heap@, loader.classes_view()),
        ensures
            assignable_from_outcome(old(self)@, heap.heap@, loader.classes_view(), final(self)@, r),
            final(self).counter == old(self).counter,
    {
        let v = self.pop_stack()?;
        let b = match v {
            Type::ObjectRef(b) => b,
            _ => {
                return Err(StepError::Internal(InternalError::General("failed pop object ref from stack".to_string())));
            },
        };
        let w = self.pop_stack()?;
        let a = match w {
            Type::ObjectRef(a) => a,
            _ => {
                return Err(StepError::Internal(InternalError::General("failed pop object ref from stack".to_string())));
            },
        };
        let x = match heap.get_obj_instance(a) {
            Ok(x) => x,
            Err(e) => {
                return Err(StepError::Internal(e));
            },
        };
        let y = match heap.get_obj_instance(b) {
            Ok(y) => y,
            Err(e) => {
                return Err(StepError::Internal(e));
            },
        };
        let k = match Type::check_type(loader, x.get_classname(), y.get_classname()) {
            Ok(k) => k,
            Err(e) => {
                return Err(StepError::Internal(e));
            },
        };
        self.push_stack(Type::Boolean(k))?;
        Ok(Native::Done)
    }
}

/// Whether `Class.initClassName` stops the machine: the heap has no room for
/// the name's string.
pub open spec fn init_class_name_stops(s: Seq<FrameView>, hp: Heap, cs: Seq<(Seq<char>, ClassFileView)>) -> bool {
    match pop_value(s) {
        Exec::Done(_, Type::ObjectRef(o)) => object_at(hp.heap@, o) is Some && !(1 <= hp.next_obj_ref
            && hp.next_obj_ref + cs.len() + 2 <= u32::MAX && loader_defaults_ok(cs)),
        Exec::Panic => true,
        _ => false,
    }
}

/// `Class.initClassName`: the name of the class of the object, with `.` for
/// `/`, becomes a string (the one recorded for that text), which is pushed
/// and stored in the object's own `name` field.
pub open spec fn init_class_name_outcome(
    s: Seq<FrameView>,
    hp: Heap,
    hp2: Heap,
    cs: Seq<(Seq<char>, ClassFileView)>,
    s2: Seq<FrameView>,
    r: Result<Native, StepError>,
) -> bool {
    match pop_value(s) {
        Exec::Done(t, v) => match v {
            Type::ObjectRef(o) => match object_at(hp.heap@, o) {
                None => s2 == t && hp2 == hp && r matches Err(StepError::Internal(_)),
                Some(ob) => {
                    let name = crate::utils::replace_char(ob.classname@, '/', '.');
                    &&& (ref_of(hp.strings@, name) is Some || crate::heap::alloc_search(cs, "java/lang/String"@, cs.len() as nat) is Found)
                        && o < hp.next_obj_ref ==> r is Ok
                    &&& match r {
                        Ok(_) => ref_of(hp2.strings@, name) matches Some(x) && (push_value(t, Type::ObjectRef(x)) == Exec::Done(
                            s2,
                            (),
                        ) && (object_at(hp2.heap@, o) matches Some(o2) && crate::heap::own_field(o2, "name"@, Type::ObjectRef(x))
                            && (o < hp.next_obj_ref ==> o2.classname@ == ob.classname@)) && r == Ok::<Native, StepError>(Native::Done)),
                        Err(e) => e is Internal,
                    }
                },
            },
            _ => s2 == t && hp2 == hp && r matches Err(StepError::Internal(InternalError::General(_))),
        },
        Exec::Fail(t, e) => s2 == t && hp2 == hp && r == Err::<Native, StepError>(e),
        Exec::Panic => false,
    }
}

impl JVM {
    /// `Class.initClassName`.
    pub(crate) fn native_init_class_name(&mut self, heap: &mut Heap, loader: &ClassLoader) -> (r: Result<Native, StepError>)
        requires
            !init_class_name_stops(old(self)@, *old(heap), loader.classes_view()),
        ensures
            init_class_name_outcome(old(self)@, *old(heap), *final(heap), loader.classes_view(), final(self)@, r),
            final(self).counter == old(self).counter,
    {
        let v = self.pop_stack()?;
        let o = match v {
            Type::ObjectRef(o) => o,
            _ => {
                return Err(StepError::Internal(InternalError::General("failed pop object ref from stack".to_string())));
            },
        };
        let name = match heap.get_obj_instance(o) {
            Ok(ob) => crate::utils::class_to_dotclass(ob.get_classname()),
            Err(e) => {
                return Err(StepError::Internal(e));
            },
        };
        let ghost h0 = *heap;
        let string = match heap.alloc_string(loader, name.as_str()) {
            Ok(x) => x,
            Err(e) => {
                return Err(StepError::Internal(e));
            },
        };
        proof {
            if ref_of(h0.strings@, name@) is None {
                crate::heap::lemma_ref_of_record(h0.strings@, name@, string->ObjectRef_0);
            }
        }
        self.push_stack(string)?;
        match heap.get_obj_instance(o) {
            Ok(_) => {},
            Err(e) => {
                return Err(StepError::Internal(e));
            },
        }
        let ghost h1 = *heap;
        heap.set_own_field(o, "name", string);
        proof {
            if o < h0.next_obj_ref {
                assert(instance_at(h1.heap@, o) == instance_at(h0.heap@, o));
            }
        }
        Ok(Native::Done)
    }
}

} // verus!
