use vstd::prelude::*;

use crate::errors::{InternalError, JavaException};
use crate::heap::{Heap, array_at, instance_at, lemma_find_instance, lemma_put_instance, same_but};
use crate::instance::{ArrayInstance, Instance};
use crate::jvm::{Exec, JVM, StepError, outcome, pop_int, pop_long, pop_value, push_done, runs, then};
use crate::text::str_eq;
use crate::types::{Type, int_value, is_int_kind, long_value};
use crate::frame::FrameView;
use crate::utils::ju4;

verus! {

/// Pops an array reference.
pub open spec fn pop_array(s: Seq<FrameView>) -> Exec<ju4> {
    then(
        pop_value(s),
        |s1: Seq<FrameView>, v: Type|
            match v {
                Type::ArrayRef(x) => Exec::Done(s1, x),
                _ => Exec::Fail(s1, StepError::Internal(InternalError::WrongType("ArrayRef", v))),
            },
    )
}

/// The array that the reference `x` designates in the heap `h`.
pub open spec fn array_target(h: Seq<(ju4, Instance)>, x: ju4) -> Result<ArrayInstance, StepError> {
    match instance_at(h, x) {
        None => Err(StepError::Internal(InternalError::InstanceNotFound(x))),
        Some(Instance::ObjectInstance(_)) => Err(StepError::Internal(InternalError::NotAnArray(x))),
        Some(Instance::ArrayInstance(a)) => Ok(a),
    }
}

/// An element read as an `int` (a `long` keeps its low 32 bits).
pub open spec fn int_of(v: Type) -> Option<i32> {
    match v {
        Type::Long(l) => Some(l as i32),
        _ => if is_int_kind(v) {
            Some(int_value(v))
        } else {
            None
        },
    }
}

/// Reads element `index` of the array `x` of class `class`, converted by
/// `conv`, and pushes it made by `make`.
pub open spec fn array_load(
    s: Seq<FrameView>,
    h: Seq<(ju4, Instance)>,
    x: ju4,
    index: usize,
    class: Seq<char>,
    conv: spec_fn(Type) -> Option<Type>,
    what: &'static str,
) -> Exec<Option<Type>> {
    match array_target(h, x) {
        Err(e) => Exec::Fail(s, e),
        Ok(a) => if a.classname@ != class {
            Exec::Fail(s, StepError::Internal(InternalError::WrongArrayClass(x)))
        } else if index < a.elements@.len() {
            match conv(a.elements@[index as int]) {
                Some(v) => push_done(s, v),
                None => Exec::Fail(s, StepError::Internal(InternalError::WrongType(what, a.elements@[index as int]))),
            }
        } else {
            Exec::Fail(s, StepError::Java(JavaException::ArrayIndexOutOfBounds(index, a.elements@.len() as usize)))
        },
    }
}

/// `iaload`: pops an index and an `int[]`, and pushes the element.
pub open spec fn iaload_spec(s: Seq<FrameView>, h: Seq<(ju4, Instance)>) -> Exec<Option<Type>> {
    then(
        pop_int(s),
        |s1: Seq<FrameView>, index: i32|
            then(
                pop_array(s1),
                |s2: Seq<FrameView>, x: ju4|
                    array_load(
                        s2,
                        h,
                        x,
                        index as usize,
                        "[I"@,
                        |v: Type|
                            match int_of(v) {
                                Some(i) => Some(Type::Integer(i)),
                                None => None,
                            },
                        "Integer",
                    ),
            ),
    )
}

/// `laload`: pops an index (read as a `long`) and a `long[]`, and pushes the
/// element.
pub open spec fn laload_spec(s: Seq<FrameView>, h: Seq<(ju4, Instance)>) -> Exec<Option<Type>> {
    then(
        pop_long(s),
        |s1: Seq<FrameView>, index: i64|
            then(
                pop_array(s1),
                |s2: Seq<FrameView>, x: ju4|
                    array_load(
                        s2,
                        h,
                        x,
                        index as usize,
                        "[J"@,
                        |v: Type|
                            match long_value(v) {
                                Some(l) => Some(Type::Long(l)),
                                None => None,
                            },
                        "Long",
                    ),
            ),
    )
}

/// `arraylength`: pops an array reference and pushes the array's length.
pub open spec fn arraylength_spec(s: Seq<FrameView>, h: Seq<(ju4, Instance)>) -> Exec<Option<Type>> {
    then(
        pop_array(s),
        |s1: Seq<FrameView>, x: ju4|
            match array_target(h, x) {
                Err(e) => Exec::Fail(s1, e),
                Ok(a) => push_done(s1, Type::Integer(a.elements@.len() as i32)),
            },
    )
}

/// The operands of `iastore`: the value, the index and the array reference.
pub open spec fn iastore_operands(s: Seq<FrameView>) -> Exec<(i32, i32, ju4)> {
    then(
        pop_int(s),
        |s1: Seq<FrameView>, value: i32|
            then(
                pop_int(s1),
                |s2: Seq<FrameView>, index: i32|
                    then(pop_array(s2), |s3: Seq<FrameView>, x: ju4| Exec::Done(s3, (value, index, x))),
            ),
    )
}

/// The operands of `lastore`: the value, the index and the array reference.
pub open spec fn lastore_operands(s: Seq<FrameView>) -> Exec<(i64, i32, ju4)> {
    then(
        pop_long(s),
        |s1: Seq<FrameView>, value: i64|
            then(
                pop_int(s1),
                |s2: Seq<FrameView>, index: i32|
                    then(pop_array(s2), |s3: Seq<FrameView>, x: ju4| Exec::Done(s3, (value, index, x))),
            ),
    )
}

/// Whether storing `value` at `index` of the array `x` of class `class` gives
/// the result `r` and turns the heap `h` into `h2`: the element is replaced and
/// nothing else changes, or an error leaves the heap as it was.
pub open spec fn array_store(
    h: Seq<(ju4, Instance)>,
    h2: Seq<(ju4, Instance)>,
    x: ju4,
    index: usize,
    value: Type,
    class: Seq<char>,
    r: Result<Option<Type>, StepError>,
) -> bool {
    match array_target(h, x) {
        Err(e) => r == Err::<Option<Type>, StepError>(e) && h2 == h,
        Ok(a) => if a.classname@ != class {
            r == Err::<Option<Type>, StepError>(StepError::Internal(InternalError::WrongArrayClass(x))) && h2 == h
        } else if index < a.elements@.len() {
            &&& r == Ok::<Option<Type>, StepError>(None)
            &&& array_at(h2, x) matches Some(b) && b.elements@ == a.elements@.update(index as int, value)
                && b.classname == a.classname && b.element_classname == a.element_classname && b.array_ref
                == a.array_ref && b.hash_code == a.hash_code
            &&& same_but(h, h2, x)
        } else {
            r == Err::<Option<Type>, StepError>(
                StepError::Java(JavaException::ArrayIndexOutOfBounds(index, a.elements@.len() as usize)),
            ) && h2 == h
        },
    }
}

/// The default value of an array class is `null`, so any value may be stored
/// in an array of arrays.
proof fn lemma_array_class_storable(c: Seq<char>, value: Type)
    requires
        c.len() > 0 && c[0] == '[',
    ensures
        crate::instance::storable(c, value),
{
    reveal_strlit("Z");
    reveal_strlit("C");
    reveal_strlit("F");
    reveal_strlit("D");
    reveal_strlit("B");
    reveal_strlit("S");
    reveal_strlit("I");
    reveal_strlit("J");
}

/// The default value of an array class is `null`, so any value may be stored
/// in an `int[]` or a `long[]`.
proof fn lemma_array_storable(value: Type)
    ensures
        crate::instance::storable("[I"@, value),
        crate::instance::storable("[J"@, value),
{
    reveal_strlit("[I");
    reveal_strlit("[J");
    reveal_strlit("Z");
    reveal_strlit("C");
    reveal_strlit("F");
    reveal_strlit("D");
    reveal_strlit("B");
    reveal_strlit("S");
    reveal_strlit("I");
    reveal_strlit("J");
    assert(!"[I"@.contains('/')) by {
        if "[I"@.contains('/') {
            let k = choose|k: int| 0 <= k < "[I"@.len() && "[I"@[k] == '/';
        }
    }
    assert(!"[J"@.contains('/')) by {
        if "[J"@.contains('/') {
            let k = choose|k: int| 0 <= k < "[J"@.len() && "[J"@[k] == '/';
        }
    }
}

impl JVM {
    /// Pops an array reference.
    fn pop_array_ref(&mut self) -> (r: Result<ju4, StepError>)
        requires
            runs(pop_array(old(self)@)),
        ensures
            outcome(pop_array(old(self)@), final(self)@, r),
            final(self).counter == old(self).counter,
    {
        let v = self.pop_stack()?;
        match v {
            Type::ArrayRef(x) => Ok(x),
            _ => Err(StepError::Internal(InternalError::WrongType("ArrayRef", v))),
        }
    }

    /// The array that `x` designates, with the error for what it is not.
    pub(crate) fn target(heap: &Heap, x: ju4) -> (r: Result<&ArrayInstance, StepError>)
        ensures
            match array_target(heap.heap@, x) {
                Ok(a) => r matches Ok(b) && *b == a,
                Err(e) => r == Err::<&ArrayInstance, StepError>(e),
            },
    {
        match heap.get_instance(x) {
            Ok(Instance::ArrayInstance(a)) => Ok(a),
            Ok(Instance::ObjectInstance(_)) => Err(StepError::Internal(InternalError::NotAnArray(x))),
            Err(_) => Err(StepError::Internal(InternalError::InstanceNotFound(x))),
        }
    }

    /// `iaload`.
    pub fn exec_iaload(&mut self, heap: &Heap) -> (r: Result<Option<Type>, StepError>)
        requires
            runs(iaload_spec(old(self)@, heap.heap@)),
        ensures
            outcome(iaload_spec(old(self)@, heap.heap@), final(self)@, r),
            final(self).counter == old(self).counter,
    {
        let index = self.pop_ioperand()?;
        let array_ref = self.pop_array_ref()?;
        let array = JVM::target(heap, array_ref)?;
        if !str_eq(array.get_classname(), "[I") {
            return Err(StepError::Internal(InternalError::WrongArrayClass(array_ref)));
        }
        let element = match array.get(index as usize) {
            Ok(e) => *e,
            Err(e) => {
                return Err(StepError::Java(e));
            },
        };
        let ret = match element.as_integer() {
            Ok(v) => v,
            Err(e) => {
                return Err(StepError::Internal(e));
            },
        };
        self.push_and_finish(Type::Integer(ret))
    }

    /// `laload`.
    pub fn exec_laload(&mut self, heap: &Heap) -> (r: Result<Option<Type>, StepError>)
        requires
            runs(laload_spec(old(self)@, heap.heap@)),
        ensures
            outcome(laload_spec(old(self)@, heap.heap@), final(self)@, r),
            final(self).counter == old(self).counter,
    {
        let index = self.pop_loperand()?;
        let array_ref = self.pop_array_ref()?;
        let array = JVM::target(heap, array_ref)?;
        if !str_eq(array.get_classname(), "[J") {
            return Err(StepError::Internal(InternalError::WrongArrayClass(array_ref)));
        }
        let element = match array.get(index as usize) {
            Ok(e) => *e,
            Err(e) => {
                return Err(StepError::Java(e));
            },
        };
        let ret = match element.as_long() {
            Ok(v) => v,
            Err(e) => {
                return Err(StepError::Internal(e));
            },
        };
        self.push_and_finish(Type::Long(ret))
    }

    /// `arraylength`.
    pub fn exec_arraylength(&mut self, heap: &Heap) -> (r: Result<Option<Type>, StepError>)
        requires
            runs(arraylength_spec(old(self)@, heap.heap@)),
        ensures
            outcome(arraylength_spec(old(self)@, heap.heap@), final(self)@, r),
            final(self).counter == old(self).counter,
    {
        let array_ref = self.pop_array_ref()?;
        let array = JVM::target(heap, array_ref)?;
        self.push_and_finish(Type::Integer(array.len() as i32))
    }

    /// Replaces element `index` of the array `x` of class `class` by `value`.
    pub(crate) fn store_element(heap: &mut Heap, x: ju4, index: usize, value: Type, class: &str) -> (r: Result<
        Option<Type>,
        StepError,
    >)
        requires
            crate::instance::storable(class@, value),
        ensures
            array_store(old(heap).heap@, final(heap).heap@, x, index, value, class@, r),
            final(heap).next_obj_ref == old(heap).next_obj_ref,
            final(heap).classes == old(heap).classes,
            final(heap).static_classes == old(heap).static_classes,
            final(heap).strings == old(heap).strings,
    {
        let ghost h = heap.heap@;
        {
            let array = JVM::target(heap, x)?;
            if !str_eq(array.get_classname(), class) {
                return Err(StepError::Internal(InternalError::WrongArrayClass(x)));
            }
            if index >= array.len() {
                return Err(StepError::Java(JavaException::ArrayIndexOutOfBounds(index, array.len())));
            }
        }
        proof {
            lemma_find_instance(h, x, 0);
        }
        match heap.get_array_instance_mut(x) {
            Ok(a) => {
                let _ = a.set(index, value);
            },
            Err(_) => {
                vstd::pervasive::unreached::<()>();
            },
        }
        proof {
            let k = crate::heap::find_instance(h, x, 0)->0;
            lemma_put_instance(h, heap.heap@, x, heap.heap@[k].1);
        }
        Ok(None)
    }

    /// `iastore`.
    pub fn exec_iastore(&mut self, heap: &mut Heap) -> (r: Result<Option<Type>, StepError>)
        requires
            runs(iastore_operands(old(self)@)),
        ensures
            match iastore_operands(old(self)@) {
                Exec::Done(s, (value, index, x)) => final(self)@ == s && array_store(
                    old(heap).heap@,
                    final(heap).heap@,
                    x,
                    index as usize,
                    Type::Integer(value),
                    "[I"@,
                    r,
                ),
                Exec::Fail(s, e) => final(self)@ == s && r == Err::<Option<Type>, StepError>(e) && final(heap).heap@
                    == old(heap).heap@,
                Exec::Panic => false,
            },
            final(self).counter == old(self).counter,
            final(heap).next_obj_ref == old(heap).next_obj_ref,
    {
        let value = self.pop_ioperand()?;
        let index = self.pop_ioperand()?;
        let array_ref = self.pop_array_ref()?;
        proof {
            lemma_array_storable(Type::Integer(value));
        }
        JVM::store_element(heap, array_ref, index as usize, Type::Integer(value), "[I")
    }

    /// `lastore`.
    pub fn exec_lastore(&mut self, heap: &mut Heap) -> (r: Result<Option<Type>, StepError>)
        requires
            runs(lastore_operands(old(self)@)),
        ensures
            match lastore_operands(old(self)@) {
                Exec::Done(s, (value, index, x)) => final(self)@ == s && array_store(
                    old(heap).heap@,
                    final(heap).heap@,
                    x,
                    index as usize,
                    Type::Long(value),
                    "[J"@,
                    r,
                ),
                Exec::Fail(s, e) => final(self)@ == s && r == Err::<Option<Type>, StepError>(e) && final(heap).heap@
                    == old(heap).heap@,
                Exec::Panic => false,
            },
            final(self).counter == old(self).counter,
            final(heap).next_obj_ref == old(heap).next_obj_ref,
    {
        let value = self.pop_loperand()?;
        let index = self.pop_ioperand()?;
        let array_ref = self.pop_array_ref()?;
        proof {
            lemma_array_storable(Type::Long(value));
        }
        JVM::store_element(heap, array_ref, index as usize, Type::Long(value), "[J")
    }

    /// `bastore`.
    pub fn exec_bastore(&mut self, heap: &mut Heap) -> (r: Result<Option<Type>, StepError>)
        requires
            runs(iastore_operands(old(self)@)),
        ensures
            match iastore_operands(old(self)@) {
                Exec::Done(s, (value, index, x)) => final(self)@ == s && array_store(
                    old(heap).heap@,
                    final(heap).heap@,
                    x,
                    index as usize,
                    Type::Byte(value as i8),
                    "[B"@,
                    r,
                ),
                Exec::Fail(s, e) => final(self)@ == s && r == Err::<Option<Type>, StepError>(e) && final(heap).heap@
                    == old(heap).heap@,
                Exec::Panic => false,
            },
            final(self).counter == old(self).counter,
            final(heap).next_obj_ref == old(heap).next_obj_ref,
    {
        let value = self.pop_ioperand()?;
        let index = self.pop_ioperand()?;
        let array_ref = self.pop_array_ref()?;
        proof {
            reveal_strlit("[B");
            lemma_array_class_storable("[B"@, Type::Byte(value as i8));
        }
        JVM::store_element(heap, array_ref, index as usize, Type::Byte(value as i8), "[B")
    }

    /// `castore`.
    pub fn exec_castore(&mut self, heap: &mut Heap) -> (r: Result<Option<Type>, StepError>)
        requires
            runs(iastore_operands(old(self)@)),
        ensures
            match iastore_operands(old(self)@) {
                Exec::Done(s, (value, index, x)) => final(self)@ == s && array_store(
                    old(heap).heap@,
                    final(heap).heap@,
                    x,
                    index as usize,
                    Type::Character(value as i8),
                    "[C"@,
                    r,
                ),
                Exec::Fail(s, e) => final(self)@ == s && r == Err::<Option<Type>, StepError>(e) && final(heap).heap@
                    == old(heap).heap@,
                Exec::Panic => false,
            },
            final(self).counter == old(self).counter,
            final(heap).next_obj_ref == old(heap).next_obj_ref,
    {
        let value = self.pop_ioperand()?;
        let index = self.pop_ioperand()?;
        let array_ref = self.pop_array_ref()?;
        proof {
            reveal_strlit("[C");
            lemma_array_class_storable("[C"@, Type::Character(value as i8));
        }
        JVM::store_element(heap, array_ref, index as usize, Type::Character(value as i8), "[C")
    }

    /// `sastore`.
    pub fn exec_sastore(&mut self, heap: &mut Heap) -> (r: Result<Option<Type>, StepError>)
        requires
            runs(iastore_operands(old(self)@)),
        ensures
            match iastore_operands(old(self)@) {
                Exec::Done(s, (value, index, x)) => final(self)@ == s && array_store(
                    old(heap).heap@,
                    final(heap).heap@,
                    x,
                    index as usize,
                    Type::Short(value as i16),
                    "[S"@,
                    r,
                ),
                Exec::Fail(s, e) => final(self)@ == s && r == Err::<Option<Type>, StepError>(e) && final(heap).heap@
                    == old(heap).heap@,
                Exec::Panic => false,
            },
            final(self).counter == old(self).counter,
            final(heap).next_obj_ref == old(heap).next_obj_ref,
    {
        let value = self.pop_ioperand()?;
        let index = self.pop_ioperand()?;
        let array_ref = self.pop_array_ref()?;
        proof {
            reveal_strlit("[S");
            lemma_array_class_storable("[S"@, Type::Short(value as i16));
        }
        JVM::store_element(heap, array_ref, index as usize, Type::Short(value as i16), "[S")
    }

    /// Element `index` of the array `x`, or the error for why there is none.
    fn element(heap: &Heap, x: ju4, index: usize) -> (r: Result<Type, StepError>)
        ensures
            match array_target(heap.heap@, x) {
                Err(e) => r == Err::<Type, StepError>(e),
                Ok(a) => if index < a.elements@.len() {
                    r == Ok::<Type, StepError>(a.elements@[index as int])
                } else {
                    r == Err::<Type, StepError>(
                        StepError::Java(JavaException::ArrayIndexOutOfBounds(index, a.elements@.len() as usize)),
                    )
                },
            },
    {
        let array = JVM::target(heap, x)?;
        match array.get(index) {
            Ok(e) => Ok(*e),
            Err(e) => Err(StepError::Java(e)),
        }
    }

    /// `baload`.
    pub fn exec_baload(&mut self, heap: &Heap) -> (r: Result<Option<Type>, StepError>)
        requires
            runs(baload_spec(old(self)@, heap.heap@)),
        ensures
            outcome(baload_spec(old(self)@, heap.heap@), final(self)@, r),
            final(self).counter == old(self).counter,
    {
        let index = self.pop_ioperand()?;
        let array_ref = self.pop_array_ref()?;
        let element = JVM::element(heap, array_ref, index as usize)?;
        let value = match element.as_byte() {
            Ok(v) => v,
            Err(e) => {
                return Err(StepError::Internal(e));
            },
        };
        self.push_and_finish(Type::Byte(value))
    }

    /// `caload`.
    pub fn exec_caload(&mut self, heap: &Heap) -> (r: Result<Option<Type>, StepError>)
        requires
            runs(caload_spec(old(self)@, heap.heap@)),
        ensures
            outcome(caload_spec(old(self)@, heap.heap@), final(self)@, r),
            final(self).counter == old(self).counter,
    {
        let index = self.pop_ioperand()?;
        let array_ref = self.pop_array_ref()?;
        let element = JVM::element(heap, array_ref, index as usize)?;
        let value: i8 = match element {
            Type::Integer(v) => v as i8,
            Type::Short(v) => v as i8,
            Type::Byte(v) => v,
            Type::Character(v) => v,
            Type::Boolean(b) => if b {
                1
            } else {
                0
            },
            _ => {
                return Err(StepError::Internal(InternalError::WrongType("Character", element)));
            },
        };
        self.push_and_finish(Type::Character(value))
    }

    /// `saload`.
    pub fn exec_saload(&mut self, heap: &Heap) -> (r: Result<Option<Type>, StepError>)
        requires
            runs(saload_spec(old(self)@, heap.heap@)),
        ensures
            outcome(saload_spec(old(self)@, heap.heap@), final(self)@, r),
            final(self).counter == old(self).counter,
    {
        let index = self.pop_stack()?;
        let array_ref = self.pop_stack()?;
        let (x, i) = match (array_ref, index) {
            (Type::ArrayRef(x), Type::Integer(i)) => (x, i),
            (Type::ArrayRef(_), _) => {
                return Err(StepError::Internal(InternalError::WrongType("Integer", index)));
            },
            _ => {
                return Err(StepError::Internal(InternalError::WrongType("ArrayRef", array_ref)));
            },
        };
        let element = JVM::element(heap, x, i as usize)?;
        let value: i16 = match element {
            Type::Integer(v) => v as i16,
            Type::Short(v) => v,
            Type::Byte(v) => v as i16,
            Type::Character(v) => v as i16,
            Type::Boolean(b) => if b {
                1
            } else {
                0
            },
            _ => {
                return Err(StepError::Internal(InternalError::WrongType("Short", element)));
            },
        };
        self.push_and_finish(Type::Short(value))
    }

    /// `aaload`: an element that refers to an object must find it in the heap.
    pub fn exec_aaload(&mut self, heap: &Heap) -> (r: Result<Option<Type>, StepError>)
        requires
            runs(aaload_spec(old(self)@, heap.heap@)),
        ensures
            outcome(aaload_spec(old(self)@, heap.heap@), final(self)@, r),
            final(self).counter == old(self).counter,
    {
        let index = self.pop_ioperand()?;
        let array_ref = self.pop_array_ref()?;
        let value = JVM::element(heap, array_ref, index as usize)?;
        if let Type::ObjectRef(o) = value {
            match heap.get_instance(o) {
                Ok(Instance::ObjectInstance(_)) => {},
                Ok(Instance::ArrayInstance(_)) => {
                    return Err(StepError::Internal(InternalError::NotAnObject(o)));
                },
                Err(_) => {
                    return Err(StepError::Internal(InternalError::InstanceNotFound(o)));
                },
            }
        }
        self.push_and_finish(value)
    }
}

/// Reads element `index` of the array `x` (of whatever class), converted by
/// `conv`, and pushes it.
pub open spec fn element_load(
    s: Seq<FrameView>,
    h: Seq<(ju4, Instance)>,
    x: ju4,
    index: usize,
    conv: spec_fn(Type) -> Option<Type>,
    what: &'static str,
) -> Exec<Option<Type>> {
    match array_target(h, x) {
        Err(e) => Exec::Fail(s, e),
        Ok(a) => if index < a.elements@.len() {
            match conv(a.elements@[index as int]) {
                Some(v) => push_done(s, v),
                None => Exec::Fail(s, StepError::Internal(InternalError::WrongType(what, a.elements@[index as int]))),
            }
        } else {
            Exec::Fail(s, StepError::Java(JavaException::ArrayIndexOutOfBounds(index, a.elements@.len() as usize)))
        },
    }
}

/// An element read as a `byte` (a wider integer keeps its low eight bits).
pub open spec fn byte_value(v: Type) -> Option<i8> {
    match v {
        Type::Byte(b) => Some(b),
        Type::Boolean(b) => Some(if b { 1i8 } else { 0i8 }),
        Type::Character(c) => Some(c),
        Type::Short(x) => Some(x as i8),
        Type::Integer(x) => Some(x as i8),
        Type::Long(x) => Some(x as i8),
        _ => None,
    }
}

/// An element read as a `char` (a wider integer keeps its low eight bits).
pub open spec fn char_value(v: Type) -> Option<i8> {
    match v {
        Type::Integer(x) => Some(x as i8),
        Type::Short(x) => Some(x as i8),
        Type::Byte(b) => Some(b),
        Type::Character(c) => Some(c),
        Type::Boolean(b) => Some(if b { 1i8 } else { 0i8 }),
        _ => None,
    }
}

/// An element read as a `short` (an `int` keeps its low sixteen bits).
pub open spec fn short_value(v: Type) -> Option<i16> {
    match v {
        Type::Integer(x) => Some(x as i16),
        Type::Short(x) => Some(x),
        Type::Byte(b) => Some(b as i16),
        Type::Character(c) => Some(c as i16),
        Type::Boolean(b) => Some(if b { 1i16 } else { 0i16 }),
        _ => None,
    }
}

/// `baload`: pops an index and an array, and pushes the element as a `byte`.
pub open spec fn baload_spec(s: Seq<FrameView>, h: Seq<(ju4, Instance)>) -> Exec<Option<Type>> {
    then(
        pop_int(s),
        |s1: Seq<FrameView>, index: i32|
            then(
                pop_array(s1),
                |s2: Seq<FrameView>, x: ju4|
                    element_load(
                        s2,
                        h,
                        x,
                        index as usize,
                        |v: Type|
                            match byte_value(v) {
                                Some(b) => Some(Type::Byte(b)),
                                None => None,
                            },
                        "Byte",
                    ),
            ),
    )
}

/// `caload`: pops an index and an array, and pushes the element as a `char`.
pub open spec fn caload_spec(s: Seq<FrameView>, h: Seq<(ju4, Instance)>) -> Exec<Option<Type>> {
    then(
        pop_int(s),
        |s1: Seq<FrameView>, index: i32|
            then(
                pop_array(s1),
                |s2: Seq<FrameView>, x: ju4|
                    element_load(
                        s2,
                        h,
                        x,
                        index as usize,
                        |v: Type|
                            match char_value(v) {
                                Some(c) => Some(Type::Character(c)),
                                None => None,
                            },
                        "Character",
                    ),
            ),
    )
}

/// `saload`: pops an `int` index and an array reference (both as they are on
/// the stack), and pushes the element as a `short`.
pub open spec fn saload_spec(s: Seq<FrameView>, h: Seq<(ju4, Instance)>) -> Exec<Option<Type>> {
    then(
        pop_value(s),
        |s1: Seq<FrameView>, iv: Type|
            then(
                pop_value(s1),
                |s2: Seq<FrameView>, av: Type|
                    match av {
                        Type::ArrayRef(x) => match iv {
                            Type::Integer(i) => element_load(
                                s2,
                                h,
                                x,
                                i as usize,
                                |v: Type|
                                    match short_value(v) {
                                        Some(c) => Some(Type::Short(c)),
                                        None => None,
                                    },
                                "Short",
                            ),
                            _ => Exec::Fail(s2, StepError::Internal(InternalError::WrongType("Integer", iv))),
                        },
                        _ => Exec::Fail(s2, StepError::Internal(InternalError::WrongType("ArrayRef", av))),
                    },
            ),
    )
}

/// `aaload`: pops an index and an array, and pushes the element; an element
/// that refers to an object must designate an object of the heap.
pub open spec fn aaload_spec(s: Seq<FrameView>, h: Seq<(ju4, Instance)>) -> Exec<Option<Type>> {
    then(
        pop_int(s),
        |s1: Seq<FrameView>, index: i32|
            then(
                pop_array(s1),
                |s2: Seq<FrameView>, x: ju4|
                    match array_target(h, x) {
                        Err(e) => Exec::Fail(s2, e),
                        Ok(a) => if (index as usize) < a.elements@.len() {
                            let v = a.elements@[(index as usize) as int];
                            match v {
                                Type::ObjectRef(o) => match instance_at(h, o) {
                                    Some(Instance::ObjectInstance(_)) => push_done(s2, v),
                                    Some(Instance::ArrayInstance(_)) => Exec::Fail(
                                        s2,
                                        StepError::Internal(InternalError::NotAnObject(o)),
                                    ),
                                    None => Exec::Fail(s2, StepError::Internal(InternalError::InstanceNotFound(o))),
                                },
                                _ => push_done(s2, v),
                            }
                        } else {
                            Exec::Fail(
                                s2,
                                StepError::Java(
                                    JavaException::ArrayIndexOutOfBounds(index as usize, a.elements@.len() as usize),
                                ),
                            )
                        },
                    },
            ),
    )
}

} // verus!
