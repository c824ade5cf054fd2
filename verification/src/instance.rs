use vstd::prelude::*;

use crate::class_loader::class_file::{ClassFile, JFR_TRACING};
use crate::class_loader::static_fields::{StaticFields, lemma_lookup_store_other, lemma_lookup_store_same, lookup, store};
use crate::class_loader::format::string_from_utf8;
use crate::errors::{InternalError, JavaException};
use crate::text::{starts_with_char, str_eq};
use crate::types::{Type, element_class, is_primitive_descriptor};
use crate::utils::{default_value_of, get_index_scale, index_scale, ju4};
use vstd::utf8::{decode_utf8, valid_utf8};

verus! {

/// An object on the heap: its class, reference and identity hash, the values
/// of its fields, the interfaces of its class, the part of it that its
/// superclass declares (an object of its own), and its monitor count.
#[derive(Debug)]
pub struct ObjectInstance {
    pub classname: String,
    pub obj_ref: ju4,
    pub hash_code: ju4,
    pub fields: StaticFields,
    pub interfaces: Vec<String>,
    pub parent_obj: Option<Box<ObjectInstance>>,
    pub monitor_count: ju4,
}

/// The value of the field `name` of an object: from the object's own fields,
/// else from the part its superclass declares; `jfrTracing` is `false` for every
/// object.
pub open spec fn field_of(o: ObjectInstance, name: Seq<char>) -> Option<Type>
    decreases o,
{
    if name == JFR_TRACING@ {
        Some(Type::Boolean(false))
    } else {
        match lookup(o.fields@, name) {
            Some(t) => Some(t),
            None => match o.parent_obj {
                Some(p) => field_of(*p, name),
                None => None,
            },
        }
    }
}

/// Whether the object or a part of it that a superclass declares has the field
/// `name`.
pub open spec fn holds_field(o: ObjectInstance, name: Seq<char>) -> bool
    decreases o,
{
    if lookup(o.fields@, name) is Some {
        true
    } else {
        match o.parent_obj {
            Some(p) => holds_field(*p, name),
            None => false,
        }
    }
}

/// Whether two objects agree on everything but their field values and parts.
pub open spec fn same_header(a: ObjectInstance, b: ObjectInstance) -> bool {
    &&& a.classname@ == b.classname@
    &&& a.obj_ref == b.obj_ref
    &&& a.hash_code == b.hash_code
    &&& a.interfaces@ == b.interfaces@
    &&& a.monitor_count == b.monitor_count
}

/// Whether `new` is `old` with `value` stored in the field `name`, in the
/// nearest part (the object itself first) that has it.
pub open spec fn put_into(old: ObjectInstance, new: ObjectInstance, name: Seq<char>, value: Type) -> bool
    decreases old,
{
    &&& same_header(old, new)
    &&& if lookup(old.fields@, name) is Some {
        new.fields@ == store(old.fields@, name, value) && new.parent_obj == old.parent_obj
    } else {
        new.fields@ == old.fields@ && match (old.parent_obj, new.parent_obj) {
            (Some(p), Some(q)) => put_into(*p, *q, name, value),
            _ => false,
        }
    }
}

/// Whether `b` is a copy of `a`: the same class, reference, hash, field
/// values, interface names and monitor count, with copies of the same parts.
pub open spec fn same_object(a: ObjectInstance, b: ObjectInstance) -> bool
    decreases a,
{
    &&& a.classname@ == b.classname@
    &&& a.obj_ref == b.obj_ref
    &&& a.hash_code == b.hash_code
    &&& string_texts(a.interfaces@) == string_texts(b.interfaces@)
    &&& a.monitor_count == b.monitor_count
    &&& a.fields@ == b.fields@
    &&& match (a.parent_obj, b.parent_obj) {
        (None, None) => true,
        (Some(p), Some(q)) => same_object(*p, *q),
        _ => false,
    }
}

/// The number of parts of an object: itself and those of its superclasses.
pub open spec fn parts(o: ObjectInstance) -> nat
    decreases o,
{
    match o.parent_obj {
        Some(p) => 1 + parts(*p),
        None => 1,
    }
}

/// The texts of a vector of strings.
pub open spec fn string_texts(v: Seq<String>) -> Seq<Seq<char>> {
    v.map_values(|s: String| s@)
}

impl ObjectInstance {
    /// A new object of the class `class` with reference `obj_ref`, with no
    /// field and no part of a superclass yet; its identity hash is its
    /// reference.
    pub fn new(class: &ClassFile, obj_ref: ju4) -> (r: ObjectInstance)
        ensures
            r.classname@ == class.this_class_name@,
            r.obj_ref == obj_ref,
            r.hash_code == obj_ref,
            r.fields@.len() == 0,
            r.interfaces@.len() == 0,
            r.parent_obj is None,
            r.monitor_count == 0,
    {
        ObjectInstance {
            classname: class.get_name().to_string(),
            obj_ref,
            hash_code: obj_ref,
            fields: StaticFields::new(),
            interfaces: Vec::new(),
            parent_obj: None,
            monitor_count: 0,
        }
    }

    /// A copy of the object, with copies of the parts of its superclasses.
    pub fn duplicate(&self) -> (r: ObjectInstance)
        ensures
            same_object(*self, r),
        decreases *self,
    {
        let mut interfaces: Vec<String> = Vec::new();
        let mut k: usize = 0;
        while k < self.interfaces.len()
            invariant
                k <= self.interfaces@.len(),
                interfaces@.len() == k,
                forall|i: int| 0 <= i < k ==> #[trigger] interfaces@[i]@ == self.interfaces@[i]@,
            decreases self.interfaces@.len() - k,
        {
            interfaces.push(self.interfaces[k].clone());
            k = k + 1;
        }
        assert(string_texts(interfaces@) =~= string_texts(self.interfaces@));
        let parent_obj = match &self.parent_obj {
            Some(p) => Some(Box::new(p.duplicate())),
            None => None,
        };
        ObjectInstance {
            classname: self.classname.clone(),
            obj_ref: self.obj_ref,
            hash_code: self.hash_code,
            fields: self.fields.duplicate(),
            interfaces,
            parent_obj,
            monitor_count: self.monitor_count,
        }
    }

    /// Whether the object is a `java/lang/String`.
    pub fn is_string(&self) -> (r: bool)
        ensures
            r == (self.classname@ == "java/lang/String"@),
    {
        str_eq(self.get_classname(), "java/lang/String")
    }

    /// Whether the object's class name is a primitive descriptor.
    pub fn is_primitive(&self) -> (r: bool)
        ensures
            r == is_primitive_descriptor(self.classname@),
    {
        Type::is_primitive(self.get_classname())
    }

    pub fn get_hash_code(&self) -> (r: ju4)
        ensures
            r == self.hash_code,
    {
        self.hash_code
    }

    /// Sets the part of the object that its superclass declares; that part must
    /// have a reference other than the null one.
    pub fn set_parent(&mut self, parent: ObjectInstance)
        requires
            parent.obj_ref != 0,
        ensures
            final(self).parent_obj == Some(Box::new(parent)),
            same_header(*old(self), *final(self)),
            final(self).fields == old(self).fields,
    {
        self.parent_obj = Some(Box::new(parent));
    }

    /// The part of the object that its superclass declares.
    pub fn get_parent(&self) -> (r: Option<&ObjectInstance>)
        ensures
            match self.parent_obj {
                Some(p) => r == Some(&*p),
                None => r is None,
            },
    {
        match &self.parent_obj {
            Some(p) => Some(&**p),
            None => None,
        }
    }

    /// The part of the object that its superclass declares, to change.
    pub fn get_parent_mut(&mut self) -> (r: Option<&mut ObjectInstance>)
        ensures
            old(self).parent_obj is Some <==> r is Some,
            r matches Some(m) ==> *m == *old(self).parent_obj->0 && *final(self) == (ObjectInstance {
                parent_obj: Some(Box::new(*final(m))),
                ..*old(self)
            }),
            r is None ==> *final(self) == *old(self),
    {
        match &mut self.parent_obj {
            Some(b) => Some(&mut **b),
            None => None,
        }
    }

    /// Records that the object's class implements `interfacename`.
    pub fn add_interface(&mut self, interfacename: &str)
        ensures
            final(self).interfaces@.len() == old(self).interfaces@.len() + 1,
            string_texts(final(self).interfaces@) == string_texts(old(self).interfaces@).push(interfacename@),
            final(self).classname == old(self).classname,
            final(self).obj_ref == old(self).obj_ref,
            final(self).hash_code == old(self).hash_code,
            final(self).fields == old(self).fields,
            final(self).parent_obj == old(self).parent_obj,
            final(self).monitor_count == old(self).monitor_count,
    {
        self.interfaces.push(interfacename.to_string());
        assert(string_texts(self.interfaces@) =~= string_texts(old(self).interfaces@).push(interfacename@));
    }

    /// Whether the object's class implements `interfacename`.
    pub fn _has_interface(&self, interfacename: &str) -> (r: bool)
        ensures
            r == string_texts(self.interfaces@).contains(interfacename@),
    {
        let mut k: usize = 0;
        while k < self.interfaces.len()
            invariant
                k <= self.interfaces@.len(),
                forall|j: int| 0 <= j < k ==> #[trigger] self.interfaces@[j]@ != interfacename@,
            decreases self.interfaces@.len() - k,
        {
            if str_eq(self.interfaces[k].as_str(), interfacename) {
                assert(string_texts(self.interfaces@)[k as int] == interfacename@);
                return true;
            }
            k = k + 1;
        }
        assert(!string_texts(self.interfaces@).contains(interfacename@)) by {
            if string_texts(self.interfaces@).contains(interfacename@) {
                let j = choose|j: int| 0 <= j < string_texts(self.interfaces@).len() && string_texts(self.interfaces@)[j] == interfacename@;
                assert(self.interfaces@[j]@ == interfacename@);
            }
        }
        false
    }

    /// The value of the field `fieldname` (looked up in the parts of the
    /// superclasses when the object's own fields lack it).
    pub fn get_field(&self, fieldname: &str) -> (r: Result<Type, InternalError>)
        ensures
            match field_of(*self, fieldname@) {
                Some(t) => r == Ok::<Type, InternalError>(t),
                None => (r matches Err(e) && e == InternalError::FieldNotFound),
            },
        decreases *self,
    {
        if str_eq(fieldname, JFR_TRACING) {
            return Ok(Type::Boolean(false));
        }
        match self.fields.get(fieldname) {
            Some(v) => Ok(*v),
            None => match &self.parent_obj {
                Some(p) => p.get_field(fieldname),
                None => Err(InternalError::FieldNotFound),
            },
        }
    }

    /// Stores `fieldvalue` in the field `fieldname` of the nearest part that has
    /// it; no part has it is an error, and nothing changes.
    pub fn put_field(&mut self, fieldname: &str, fieldvalue: Type) -> (r: Result<(), InternalError>)
        ensures
            holds_field(*old(self), fieldname@) ==> r is Ok && put_into(*old(self), *final(self), fieldname@, fieldvalue),
            !holds_field(*old(self), fieldname@) ==> (r matches Err(e) && e == InternalError::FieldNotFound),
            !holds_field(*old(self), fieldname@) ==> *final(self) == *old(self),
        decreases *old(self),
    {
        if self.fields.get(fieldname).is_some() {
            self.fields.insert(fieldname.to_string(), fieldvalue);
            return Ok(());
        }
        match self.parent_obj.take() {
            Some(mut p) => {
                let r = p.put_field(fieldname, fieldvalue);
                self.parent_obj = Some(p);
                r
            },
            None => Err(InternalError::FieldNotFound),
        }
    }

    /// Creates (or overwrites) the field `fieldname` of the object itself.
    pub fn new_field(&mut self, fieldname: &str, fieldvalue: Type) -> (r: Result<(), InternalError>)
        ensures
            r is Ok,
            final(self).fields@ == store(old(self).fields@, fieldname@, fieldvalue),
            same_header(*old(self), *final(self)),
            final(self).parent_obj == old(self).parent_obj,
    {
        self.fields.insert(fieldname.to_string(), fieldvalue);
        Ok(())
    }

    pub fn get_classname(&self) -> (r: &str)
        ensures
            r@ == self.classname@,
    {
        self.classname.as_str()
    }

    pub fn get_ref(&self) -> (r: ju4)
        ensures
            r == self.obj_ref,
    {
        self.obj_ref
    }

    pub fn set_ref(&mut self, obj_ref: ju4)
        ensures
            *final(self) == (ObjectInstance { obj_ref, ..*old(self) }),
    {
        self.obj_ref = obj_ref;
    }

    /// Enters the object's monitor: an unowned monitor becomes owned once.
    pub fn monitorenter(&mut self)
        ensures
            *final(self) == (ObjectInstance {
                monitor_count: if old(self).monitor_count == 0 {
                    1
                } else {
                    old(self).monitor_count
                },
                ..*old(self)
            }),
    {
        if self.monitor_count == 0 {
            self.monitor_count = 1;
        }
    }

    /// Leaves the object's monitor (which changes nothing).
    pub fn monitorexit(&mut self)
        ensures
            *final(self) == *old(self),
    {
    }
}

/// An array on the heap: its class (`[I`, `[Ljava/lang/String;`), identity
/// hash, element class, reference and elements.
#[derive(Debug, Clone)]
pub struct ArrayInstance {
    pub classname: String,
    pub hash_code: ju4,
    pub element_classname: String,
    pub array_ref: ju4,
    pub elements: Vec<Type>,
}

/// The class of an array whose elements have the class or descriptor `c`:
/// `[` before a primitive or array descriptor, `[L..;` round a class name.
pub open spec fn array_class_of(c: Seq<char>) -> Seq<char> {
    if is_primitive_descriptor(c) || (c.len() > 0 && c[0] == '[') {
        seq!['['] + c
    } else {
        seq!['[', 'L'] + c + seq![';']
    }
}

/// The byte that an element of a byte string stands for.
pub open spec fn byte_of(t: Type) -> u8 {
    match t {
        Type::Integer(i) => i as u8,
        Type::Short(i) => i as u8,
        Type::Byte(i) => i as u8,
        _ => 0,
    }
}

/// Whether an element can stand for a byte of a string.
pub open spec fn is_byte_like(t: Type) -> bool {
    t is Integer || t is Short || t is Byte
}

/// The position of a value's variant among the variants of `Type`.
pub open spec fn variant_index(t: Type) -> int {
    match t {
        Type::Void => 0,
        Type::_Unitialized => 1,
        Type::Null => 2,
        Type::Byte(_) => 3,
        Type::Boolean(_) => 4,
        Type::Character(_) => 5,
        Type::Short(_) => 6,
        Type::Integer(_) => 7,
        Type::Float(_) => 8,
        Type::Long(_) => 9,
        Type::Double(_) => 10,
        Type::ArrayRef(_) => 11,
        Type::ObjectRef(_) => 12,
    }
}

/// Whether `value` may be stored in an array of class `c`: the default value
/// of `c` is `null` or of the same variant as `value`.
pub open spec fn storable(c: Seq<char>, value: Type) -> bool {
    default_value_of(c) matches Some(d) && (d == Type::Null || variant_index(d) == variant_index(value))
}

impl ArrayInstance {
    /// A new array of the elements of class `classname`, with reference
    /// `array_ref` (also its identity hash).
    pub fn new(classname: &str, array_ref: ju4, elements: Vec<Type>) -> (r: ArrayInstance)
        ensures
            r.classname@ == array_class_of(classname@),
            Some(r.element_classname@) == element_class(array_class_of(classname@)),
            r.hash_code == array_ref,
            r.array_ref == array_ref,
            r.elements@ == elements@,
    {
        let mut class_type = String::new();
        proof {
            reveal_strlit("[");
            reveal_strlit("[L");
            reveal_strlit(";");
        }
        if Type::is_primitive(classname) || starts_with_char(classname, '[') {
            class_type.append("[");
            class_type.append(classname);
        } else {
            class_type.append("[L");
            class_type.append(classname);
            class_type.append(";");
        }
        assert(class_type@ =~= array_class_of(classname@));
        let element_classname = Type::convert_array_descriptor_to_class_type(class_type.as_str());
        ArrayInstance { classname: class_type, hash_code: array_ref, element_classname, array_ref, elements }
    }

    /// A copy of the array.
    pub fn duplicate(&self) -> (r: ArrayInstance)
        ensures
            r.classname@ == self.classname@,
            r.hash_code == self.hash_code,
            r.element_classname@ == self.element_classname@,
            r.array_ref == self.array_ref,
            r.elements@ == self.elements@,
    {
        let mut elements: Vec<Type> = Vec::new();
        let mut k: usize = 0;
        while k < self.elements.len()
            invariant
                k <= self.elements@.len(),
                elements@ == self.elements@.subrange(0, k as int),
            decreases self.elements@.len() - k,
        {
            elements.push(self.elements[k]);
            k = k + 1;
            assert(elements@ =~= self.elements@.subrange(0, k as int));
        }
        assert(self.elements@.subrange(0, k as int) =~= self.elements@);
        ArrayInstance {
            classname: self.classname.clone(),
            hash_code: self.hash_code,
            element_classname: self.element_classname.clone(),
            array_ref: self.array_ref,
            elements,
        }
    }

    /// The string whose UTF-8 bytes the elements hold (each an `int`, `short`
    /// or `byte`, of which the low byte counts).
    pub fn get_string(&self) -> (r: Result<String, InternalError>)
        requires
            forall|i: int| 0 <= i < self.elements@.len() ==> #[trigger] is_byte_like(self.elements@[i]),
        ensures
            valid_utf8(self.elements@.map_values(|t: Type| byte_of(t))) ==> (r matches Ok(s) && s@ == decode_utf8(
                self.elements@.map_values(|t: Type| byte_of(t)),
            )),
            !valid_utf8(self.elements@.map_values(|t: Type| byte_of(t))) ==> r is Err,
    {
        let mut bytes: Vec<u8> = Vec::new();
        let mut k: usize = 0;
        while k < self.elements.len()
            invariant
                k <= self.elements@.len(),
                forall|i: int| 0 <= i < self.elements@.len() ==> #[trigger] is_byte_like(self.elements@[i]),
                bytes@ == self.elements@.subrange(0, k as int).map_values(|t: Type| byte_of(t)),
            decreases self.elements@.len() - k,
        {
            let b: u8 = match self.elements[k] {
                Type::Integer(i) => i as u8,
                Type::Short(i) => i as u8,
                Type::Byte(i) => i as u8,
                _ => {
                    assert(is_byte_like(self.elements@[k as int]));
                    vstd::pervasive::unreached()
                },
            };
            bytes.push(b);
            k = k + 1;
            assert(bytes@ =~= self.elements@.subrange(0, k as int).map_values(|t: Type| byte_of(t)));
        }
        assert(self.elements@.subrange(0, k as int) =~= self.elements@);
        match string_from_utf8(bytes) {
            Some(s) => Ok(s),
            None => Err(InternalError::General("invalid UTF-8 in a byte string".to_string())),
        }
    }

    /// The element at `index`.
    pub fn get(&self, index: usize) -> (r: Result<&Type, JavaException>)
        ensures
            index < self.elements@.len() ==> r == Ok::<&Type, JavaException>(&self.elements@[index as int]),
            index >= self.elements@.len() ==> (r matches Err(JavaException::ArrayIndexOutOfBounds(i, n)) && i == index
                && n == self.elements@.len()),
    {
        if index < self.elements.len() {
            Ok(&self.elements[index])
        } else {
            Err(JavaException::ArrayIndexOutOfBounds(index, self.elements.len()))
        }
    }

    pub fn get_hash_code(&self) -> (r: ju4)
        ensures
            r == self.hash_code,
    {
        self.hash_code
    }

    /// The element at byte offset `index`: the offset divided by the width of
    /// the array's elements.
    pub fn get_with_index_scale(&self, index: usize) -> (r: Result<&Type, JavaException>)
        requires
            index_scale(self.classname@) is Some,
        ensures
            ({
                let k = (index as nat) / (index_scale(self.classname@)->0 as nat);
                &&& k < self.elements@.len() ==> r == Ok::<&Type, JavaException>(&self.elements@[k as int])
                &&& k >= self.elements@.len() ==> (r matches Err(JavaException::ArrayIndexOutOfBounds(i, n)) && i == k
                    && n == self.elements@.len())
            }),
    {
        let scale = get_index_scale(self.get_classname());
        self.get(index / (scale as usize))
    }

    pub fn get_elements(&self) -> (r: &Vec<Type>)
        ensures
            r@ == self.elements@,
    {
        &self.elements
    }

    /// Stores `value` at `index`; the value must suit the array's class.
    pub fn set(&mut self, index: usize, value: Type) -> (r: Result<(), JavaException>)
        requires
            storable(old(self).classname@, value),
        ensures
            index < old(self).elements@.len() ==> r is Ok && final(self).elements@ == old(self).elements@.update(
                index as int,
                value,
            ),
            index >= old(self).elements@.len() ==> (r matches Err(JavaException::ArrayIndexOutOfBounds(i, n)) && i == index
                && n == old(self).elements@.len()) && final(self).elements@ == old(self).elements@,
            final(self).classname == old(self).classname,
            final(self).element_classname == old(self).element_classname,
            final(self).array_ref == old(self).array_ref,
            final(self).hash_code == old(self).hash_code,
    {
        if index >= self.elements.len() {
            return Err(JavaException::ArrayIndexOutOfBounds(index, self.elements.len()));
        }
        self.elements.set(index, value);
        Ok(())
    }

    /// Stores `value` at byte offset `index` (divided by the width of the
    /// array's elements).
    pub fn set_with_index_scale(&mut self, index: usize, value: Type) -> (r: Result<(), JavaException>)
        requires
            index_scale(old(self).classname@) is Some,
            storable(old(self).classname@, value),
        ensures
            ({
                let k = (index as nat) / (index_scale(old(self).classname@)->0 as nat);
                &&& k < old(self).elements@.len() ==> r is Ok && final(self).elements@ == old(self).elements@.update(
                    k as int,
                    value,
                )
                &&& k >= old(self).elements@.len() ==> (r matches Err(JavaException::ArrayIndexOutOfBounds(i, n)) && i
                    == k && n == old(self).elements@.len()) && final(self).elements@ == old(self).elements@
            }),
            final(self).classname == old(self).classname,
            final(self).array_ref == old(self).array_ref,
    {
        let scale = get_index_scale(self.get_classname());
        self.set(index / (scale as usize), value)
    }

    pub fn get_ref(&self) -> (r: ju4)
        ensures
            r == self.array_ref,
    {
        self.array_ref
    }

    pub fn set_ref(&mut self, array_ref: ju4)
        ensures
            final(self).array_ref == array_ref,
            final(self).classname == old(self).classname,
            final(self).element_classname == old(self).element_classname,
            final(self).hash_code == old(self).hash_code,
            final(self).elements == old(self).elements,
    {
        self.array_ref = array_ref;
    }

    pub fn get_classname(&self) -> (r: &str)
        ensures
            r@ == self.classname@,
    {
        self.classname.as_str()
    }

    pub fn get_element_classname(&self) -> (r: &str)
        ensures
            r@ == self.element_classname@,
    {
        self.element_classname.as_str()
    }

    pub fn len(&self) -> (r: usize)
        ensures
            r == self.elements@.len(),
    {
        self.elements.len()
    }
}

/// What a heap reference designates: an object or an array.
#[derive(Debug)]
pub enum Instance {
    ObjectInstance(ObjectInstance),
    ArrayInstance(ArrayInstance),
}

impl Instance {
    /// The class of the instance as a field type (`[B`, `java/lang/String`).
    pub fn get_class_field_type(&self) -> (r: &str)
        ensures
            r@ == match self {
                Instance::ObjectInstance(o) => o.classname@,
                Instance::ArrayInstance(a) => a.classname@,
            },
    {
        self.get_classname()
    }

    pub fn get_classname(&self) -> (r: &str)
        ensures
            r@ == match self {
                Instance::ObjectInstance(o) => o.classname@,
                Instance::ArrayInstance(a) => a.classname@,
            },
    {
        match self {
            Instance::ObjectInstance(obj) => obj.get_classname(),
            Instance::ArrayInstance(obj) => obj.get_classname(),
        }
    }

    pub fn get_ref(&self) -> (r: ju4)
        ensures
            r == match self {
                Instance::ObjectInstance(o) => o.obj_ref,
                Instance::ArrayInstance(a) => a.array_ref,
            },
    {
        match self {
            Instance::ObjectInstance(obj) => obj.get_ref(),
            Instance::ArrayInstance(obj) => obj.get_ref(),
        }
    }

    pub fn get_hash_code(&self) -> (r: ju4)
        ensures
            r == match self {
                Instance::ObjectInstance(o) => o.hash_code,
                Instance::ArrayInstance(a) => a.hash_code,
            },
    {
        match self {
            Instance::ObjectInstance(obj) => obj.get_hash_code(),
            Instance::ArrayInstance(obj) => obj.get_hash_code(),
        }
    }

    pub fn _is_array(&self) -> (r: bool)
        ensures
            r == (self is ArrayInstance),
    {
        match self {
            Instance::ArrayInstance(_) => true,
            _ => false,
        }
    }
}

/// After a write to a field, reading it gives the value written.
pub proof fn lemma_put_field_reads(old_obj: ObjectInstance, new_obj: ObjectInstance, name: Seq<char>, value: Type)
    requires
        put_into(old_obj, new_obj, name, value),
        name != JFR_TRACING@,
    ensures
        field_of(new_obj, name) == Some(value),
    decreases old_obj,
{
    if lookup(old_obj.fields@, name) is Some {
        lemma_lookup_store_same(old_obj.fields@, name, value);
    } else {
        match (old_obj.parent_obj, new_obj.parent_obj) {
            (Some(p), Some(q)) => {
                lemma_put_field_reads(*p, *q, name, value);
            },
            _ => {},
        }
    }
}

/// A write to one field leaves what every other field reads unchanged.
pub proof fn lemma_put_field_other(
    old_obj: ObjectInstance,
    new_obj: ObjectInstance,
    name: Seq<char>,
    other: Seq<char>,
    value: Type,
)
    requires
        put_into(old_obj, new_obj, name, value),
        other != name,
    ensures
        field_of(new_obj, other) == field_of(old_obj, other),
    decreases old_obj,
{
    if lookup(old_obj.fields@, name) is Some {
        lemma_lookup_store_other(old_obj.fields@, name, other, value);
    } else {
        match (old_obj.parent_obj, new_obj.parent_obj) {
            (Some(p), Some(q)) => {
                lemma_put_field_other(*p, *q, name, other, value);
            },
            _ => {},
        }
    }
}

} // verus!
