use vstd::prelude::*;
use vstd::string::*;

use crate::class_loader::class_file::{instance_defaults_ok, instance_fields_after};
use crate::class_loader::loader::{ClassLoader, Search, class_named, search_error};
use crate::class_loader::fields::FieldInfoView;
use crate::class_loader::static_fields::{lookup, lemma_lookup_store_other, lemma_lookup_store_same, store};
use crate::errors::InternalError;
use crate::instance::{
    ArrayInstance, Instance, ObjectInstance, array_class_of, byte_of, field_of, is_byte_like, parts, same_header,
    same_object, string_texts, holds_field, put_into, lemma_put_field_reads, lemma_put_field_other,
};
use crate::utils::{class_to_dotclass, dotclass_to_class, slashed};
use vstd::utf8::{decode_utf8, valid_utf8};
use crate::text::{starts_with_char, str_eq};
use crate::types::Type;
use crate::utils::{default_value_of, get_default_value, ju4, replace_char};
use crate::modulemanager::{ModuleManager, find_mapping, find_module};

verus! {

/// Heap references by name (of a class, or the text of a string).
#[derive(Debug)]
pub struct RefTable {
    pub entries: Vec<(String, ju4)>,
}

impl View for RefTable {
    type V = Seq<(Seq<char>, ju4)>;

    open spec fn view(&self) -> Seq<(Seq<char>, ju4)> {
        self.entries@.map_values(|e: (String, ju4)| (e.0@, e.1))
    }
}

/// The position of the first entry at or after `i` named `name`.
pub open spec fn find_name(v: Seq<(Seq<char>, ju4)>, name: Seq<char>, i: int) -> Option<int>
    decreases v.len() - i,
{
    if i < 0 || i >= v.len() {
        None
    } else if v[i].0 == name {
        Some(i)
    } else {
        find_name(v, name, i + 1)
    }
}

/// The reference recorded under `name`.
pub open spec fn ref_of(v: Seq<(Seq<char>, ju4)>, name: Seq<char>) -> Option<ju4> {
    match find_name(v, name, 0) {
        Some(i) => Some(v[i].1),
        None => None,
    }
}

/// The entries once `r` is recorded under `name` (in place of an earlier one).
pub open spec fn record(v: Seq<(Seq<char>, ju4)>, name: Seq<char>, r: ju4) -> Seq<(Seq<char>, ju4)> {
    match find_name(v, name, 0) {
        Some(i) => v.update(i, (name, r)),
        None => v.push((name, r)),
    }
}

/// What `find_name` finds: an entry with the name, none before it from `i`.
proof fn lemma_find_name(v: Seq<(Seq<char>, ju4)>, name: Seq<char>, i: int)
    requires
        0 <= i,
    ensures
        match find_name(v, name, i) {
            Some(j) => i <= j < v.len() && v[j].0 == name && forall|m: int| i <= m < j ==> #[trigger] v[m].0 != name,
            None => forall|m: int| i <= m < v.len() ==> #[trigger] v[m].0 != name,
        },
    decreases v.len() - i,
{
    if i < v.len() && v[i].0 != name {
        lemma_find_name(v, name, i + 1);
    }
}

/// `find_name` reads the names only.
proof fn lemma_find_name_names(v: Seq<(Seq<char>, ju4)>, w: Seq<(Seq<char>, ju4)>, name: Seq<char>, i: int)
    requires
        v.len() == w.len(),
        forall|m: int| 0 <= m < v.len() ==> #[trigger] v[m].0 == w[m].0,
    ensures
        find_name(v, name, i) == find_name(w, name, i),
    decreases v.len() - i,
{
    if 0 <= i < v.len() && v[i].0 != name {
        lemma_find_name_names(v, w, name, i + 1);
    }
}

/// After recording a reference under a name, the name gives that reference.
pub proof fn lemma_ref_of_record(v: Seq<(Seq<char>, ju4)>, name: Seq<char>, r: ju4)
    ensures
        ref_of(record(v, name, r), name) == Some(r),
{
    lemma_find_name(v, name, 0);
    let w = record(v, name, r);
    lemma_find_name(w, name, 0);
    match find_name(v, name, 0) {
        Some(i) => {
            assert forall|m: int| 0 <= m < v.len() implies #[trigger] v[m].0 == w[m].0 by {
                if m == i {
                    assert(w[m] == (name, r));
                }
            }
            lemma_find_name_names(v, w, name, 0);
            assert(w[i] == (name, r));
        },
        None => {
            assert(w == v.push((name, r)));
            assert(w[v.len() as int] == (name, r));
            assert(w[v.len() as int].0 == name);
            if find_name(w, name, 0) is Some {
                let j = find_name(w, name, 0)->0;
                if j < v.len() {
                    assert(w[j] == v[j]);
                    assert(v[j].0 != name);
                }
            }
            assert(find_name(w, name, 0) == Some(v.len() as int));
        },
    }
}

/// Recording a reference under a name leaves what the other names give.
pub proof fn lemma_ref_of_record_other(v: Seq<(Seq<char>, ju4)>, name: Seq<char>, other: Seq<char>, r: ju4)
    requires
        other != name,
    ensures
        ref_of(record(v, name, r), other) == ref_of(v, other),
{
    lemma_find_name(v, name, 0);
    lemma_find_name(v, other, 0);
    let w = record(v, name, r);
    lemma_find_name(w, other, 0);
    match find_name(v, name, 0) {
        Some(i) => {
            assert forall|m: int| 0 <= m < v.len() implies #[trigger] w[m].0 == v[m].0 || m == i by {}
            match find_name(v, other, 0) {
                Some(j) => {
                    assert(j != i);
                    assert(w[j] == v[j]);
                    if find_name(w, other, 0) != Some(j) {
                        let q = find_name(w, other, 0)->0;
                        if q < j {
                            if q != i {
                                assert(w[q] == v[q]);
                            }
                        }
                    }
                },
                None => {
                    if find_name(w, other, 0) is Some {
                        let q = find_name(w, other, 0)->0;
                        if q != i {
                            assert(w[q] == v[q]);
                        }
                    }
                },
            }
        },
        None => {
            assert(w == v.push((name, r)));
            match find_name(v, other, 0) {
                Some(j) => {
                    assert(w[j] == v[j]);
                    if find_name(w, other, 0) != Some(j) {
                        let q = find_name(w, other, 0)->0;
                        if q < j {
                            assert(w[q] == v[q]);
                        }
                    }
                },
                None => {
                    if find_name(w, other, 0) is Some {
                        let q = find_name(w, other, 0)->0;
                        if q < v.len() {
                            assert(w[q] == v[q]);
                        }
                    }
                },
            }
        },
    }
}

impl RefTable {
    pub fn new() -> (t: RefTable)
        ensures
            t@ == Seq::<(Seq<char>, ju4)>::empty(),
    {
        let t = RefTable { entries: Vec::new() };
        assert(t@ =~= Seq::<(Seq<char>, ju4)>::empty());
        t
    }

    fn position(&self, name: &str) -> (r: Option<usize>)
        ensures
            match r {
                Some(k) => find_name(self@, name@, 0) == Some(k as int) && k < self.entries@.len(),
                None => find_name(self@, name@, 0) is None,
            },
    {
        let mut k: usize = 0;
        while k < self.entries.len()
            invariant
                k <= self.entries@.len(),
                find_name(self@, name@, 0) == find_name(self@, name@, k as int),
            decreases self.entries@.len() - k,
        {
            if str_eq(self.entries[k].0.as_str(), name) {
                return Some(k);
            }
            k = k + 1;
        }
        None
    }

    /// The reference recorded under `name`.
    pub fn get(&self, name: &str) -> (r: Option<ju4>)
        ensures
            r == ref_of(self@, name@),
    {
        match self.position(name) {
            Some(k) => Some(self.entries[k].1),
            None => None,
        }
    }

    /// Whether a reference is recorded under `name`.
    pub fn contains_key(&self, name: &str) -> (r: bool)
        ensures
            r == (ref_of(self@, name@) is Some),
    {
        self.position(name).is_some()
    }

    /// Records `r` under `name`.
    pub fn insert(&mut self, name: &str, r: ju4)
        ensures
            final(self)@ == record(old(self)@, name@, r),
    {
        match self.position(name) {
            Some(k) => {
                self.entries.set(k, (name.to_string(), r));
                assert(self@ =~= old(self)@.update(k as int, (name@, r)));
            },
            None => {
                self.entries.push((name.to_string(), r));
                assert(self@ =~= old(self)@.push((name@, r)));
            },
        }
    }
}

/// The objects and arrays of the running program by reference (0 is `null` and
/// designates none), the next reference to hand out, the `Class` objects and
/// the objects that hold the static state of classes by class name, and the
/// interned strings by their text.
#[derive(Debug)]
pub struct Heap {
    pub next_obj_ref: ju4,
    pub heap: Vec<(ju4, Instance)>,
    pub classes: RefTable,
    pub static_classes: RefTable,
    pub strings: RefTable,
}

/// The position of the first instance at or after `i` with reference `r`.
pub open spec fn find_instance(v: Seq<(ju4, Instance)>, r: ju4, i: int) -> Option<int>
    decreases v.len() - i,
{
    if i < 0 || i >= v.len() {
        None
    } else if v[i].0 == r {
        Some(i)
    } else {
        find_instance(v, r, i + 1)
    }
}

/// The instance that the reference `r` designates.
pub open spec fn instance_at(v: Seq<(ju4, Instance)>, r: ju4) -> Option<Instance> {
    match find_instance(v, r, 0) {
        Some(i) => Some(v[i].1),
        None => None,
    }
}

/// The object that the reference `r` designates.
pub open spec fn object_at(v: Seq<(ju4, Instance)>, r: ju4) -> Option<ObjectInstance> {
    match instance_at(v, r) {
        Some(Instance::ObjectInstance(o)) => Some(o),
        _ => None,
    }
}

/// The array that the reference `r` designates.
pub open spec fn array_at(v: Seq<(ju4, Instance)>, r: ju4) -> Option<ArrayInstance> {
    match instance_at(v, r) {
        Some(Instance::ArrayInstance(a)) => Some(a),
        _ => None,
    }
}

/// Every reference of the heap was handed out already: each is below the next one.
pub open spec fn refs_below(v: Seq<(ju4, Instance)>, next: ju4) -> bool {
    forall|i: int| 0 <= i < v.len() ==> #[trigger] v[i].0 < next
}

/// Whether the heap `b` is the heap `a` where each reference other than `r`
/// designates what it designated.
pub open spec fn same_but(a: Seq<(ju4, Instance)>, b: Seq<(ju4, Instance)>, r: ju4) -> bool {
    forall|x: ju4| x != r ==> #[trigger] instance_at(b, x) == instance_at(a, x)
}

/// The elements of a new array: the given ones, or `size` copies of the
/// default value of the element class when none is given.
pub open spec fn initial_elements(classname: Seq<char>, array: Seq<Type>, size: nat) -> Seq<Type> {
    if array.len() == 0 {
        Seq::new(size, |i: int| default_value_of(classname)->0)
    } else {
        array
    }
}

/// Whether the array `a` is a new array of elements of class `classname` with
/// reference `r` and the given elements.
pub open spec fn new_array(a: ArrayInstance, classname: Seq<char>, r: ju4, elements: Seq<Type>) -> bool {
    &&& a.classname@ == array_class_of(classname)
    &&& a.array_ref == r
    &&& a.hash_code == r
    &&& a.elements@ == elements
}

/// What `find_instance` finds: an entry with the reference, none before it
/// from `i`.
pub proof fn lemma_find_instance(v: Seq<(ju4, Instance)>, r: ju4, i: int)
    requires
        0 <= i,
    ensures
        match find_instance(v, r, i) {
            Some(j) => i <= j < v.len() && v[j].0 == r && forall|m: int| i <= m < j ==> #[trigger] v[m].0 != r,
            None => forall|m: int| i <= m < v.len() ==> #[trigger] v[m].0 != r,
        },
    decreases v.len() - i,
{
    if i < v.len() && v[i].0 != r {
        lemma_find_instance(v, r, i + 1);
    }
}

/// `find_instance` reads the references only.
proof fn lemma_find_same_refs(v: Seq<(ju4, Instance)>, w: Seq<(ju4, Instance)>, y: ju4, i: int)
    requires
        v.len() == w.len(),
        forall|m: int| 0 <= m < v.len() ==> #[trigger] w[m].0 == v[m].0,
    ensures
        find_instance(v, y, i) == find_instance(w, y, i),
    decreases v.len() - i,
{
    if 0 <= i < v.len() && v[i].0 != y {
        lemma_find_same_refs(v, w, y, i + 1);
    }
}

/// Appending an entry for another reference leaves a search for `y` as it was.
proof fn lemma_find_push_other(v: Seq<(ju4, Instance)>, p: (ju4, Instance), y: ju4, i: int)
    requires
        0 <= i,
        p.0 != y,
    ensures
        find_instance(v.push(p), y, i) == find_instance(v, y, i),
    decreases v.len() - i,
{
    if i < v.len() {
        assert(v.push(p)[i] == v[i]);
        if v[i].0 != y {
            lemma_find_push_other(v, p, y, i + 1);
        }
    } else if i == v.len() {
        assert(v.push(p)[i] == p);
        assert(find_instance(v.push(p), y, i + 1) is None);
    }
}

/// Appending an entry for a reference that the heap lacks makes it found there.
proof fn lemma_find_push_absent(v: Seq<(ju4, Instance)>, p: (ju4, Instance), i: int)
    requires
        0 <= i <= v.len(),
        find_instance(v, p.0, i) is None,
    ensures
        find_instance(v.push(p), p.0, i) == Some(v.len() as int),
    decreases v.len() - i,
{
    if i < v.len() {
        assert(v.push(p)[i] == v[i]);
        lemma_find_push_absent(v, p, i + 1);
    } else {
        assert(v.push(p)[i] == p);
    }
}

/// Putting `(r, x)` where `r` stood, or at the end when `r` was absent: `r`
/// designates `x`, every other reference what it designated.
pub proof fn lemma_put_instance(v: Seq<(ju4, Instance)>, w: Seq<(ju4, Instance)>, r: ju4, x: Instance)
    requires
        match find_instance(v, r, 0) {
            Some(k) => w == v.update(k, (r, x)),
            None => w == v.push((r, x)),
        },
    ensures
        instance_at(w, r) == Some(x),
        same_but(v, w, r),
{
    lemma_find_instance(v, r, 0);
    match find_instance(v, r, 0) {
        Some(k) => {
            assert forall|m: int| 0 <= m < v.len() implies #[trigger] w[m].0 == v[m].0 by {
                if m != k {
                    assert(w[m] == v[m]);
                }
            }
            assert forall|y: ju4| y != r implies #[trigger] instance_at(w, y) == instance_at(v, y) by {
                lemma_find_same_refs(v, w, y, 0);
                lemma_find_instance(v, y, 0);
                if find_instance(v, y, 0) is Some {
                    let j = find_instance(v, y, 0)->0;
                    assert(j != k);
                    assert(w[j] == v[j]);
                }
            }
            lemma_find_same_refs(v, w, r, 0);
        },
        None => {
            assert forall|y: ju4| y != r implies #[trigger] instance_at(w, y) == instance_at(v, y) by {
                lemma_find_push_other(v, (r, x), y, 0);
                lemma_find_instance(v, y, 0);
                if find_instance(v, y, 0) is Some {
                    let j = find_instance(v, y, 0)->0;
                    assert(w[j] == v[j]);
                }
            }
            lemma_find_push_absent(v, (r, x), 0);
        },
    }
}

impl Heap {
    /// An empty heap; references start at 1.
    pub fn new() -> (h: Heap)
        ensures
            h.next_obj_ref == 1,
            h.heap@.len() == 0,
            h.classes@.len() == 0,
            h.static_classes@.len() == 0,
            h.strings@.len() == 0,
    {
        Heap {
            next_obj_ref: 1,
            heap: Vec::new(),
            classes: RefTable::new(),
            static_classes: RefTable::new(),
            strings: RefTable::new(),
        }
    }

    /// The reference that the next allocation gets.
    pub fn get_curr_obj_ref(&self) -> (r: ju4)
        ensures
            r == self.next_obj_ref,
    {
        self.next_obj_ref
    }

    /// Hands out the next reference.
    pub fn get_next_obj_ref(&mut self) -> (r: ju4)
        requires
            1 <= old(self).next_obj_ref < u32::MAX,
        ensures
            r == old(self).next_obj_ref,
            final(self).next_obj_ref == old(self).next_obj_ref + 1,
            final(self).heap == old(self).heap,
            final(self).classes == old(self).classes,
            final(self).static_classes == old(self).static_classes,
            final(self).strings == old(self).strings,
    {
        let curr_ref = self.next_obj_ref;
        self.next_obj_ref = self.next_obj_ref + 1;
        curr_ref
    }

    /// The position of the instance with reference `r`.
    fn position(&self, r: ju4) -> (k: Option<usize>)
        ensures
            match k {
                Some(k) => find_instance(self.heap@, r, 0) == Some(k as int) && k < self.heap@.len(),
                None => find_instance(self.heap@, r, 0) is None,
            },
    {
        let mut k: usize = 0;
        while k < self.heap.len()
            invariant
                k <= self.heap@.len(),
                find_instance(self.heap@, r, 0) == find_instance(self.heap@, r, k as int),
            decreases self.heap@.len() - k,
        {
            if self.heap[k].0 == r {
                return Some(k);
            }
            k = k + 1;
        }
        None
    }

    /// Makes `r` designate `x`.
    fn put(&mut self, r: ju4, x: Instance)
        ensures
            instance_at(final(self).heap@, r) == Some(x),
            same_but(old(self).heap@, final(self).heap@, r),
            final(self).heap@.len() >= old(self).heap@.len(),
            forall|i: int| 0 <= i < final(self).heap@.len() ==> #[trigger] final(self).heap@[i].0 == r || exists|
                j: int,
            | 0 <= j < old(self).heap@.len() && old(self).heap@[j].0 == final(self).heap@[i].0,
            final(self).next_obj_ref == old(self).next_obj_ref,
            final(self).classes == old(self).classes,
            final(self).static_classes == old(self).static_classes,
            final(self).strings == old(self).strings,
    {
        let ghost before = self.heap@;
        let ghost xv = x;
        match self.position(r) {
            Some(k) => {
                self.heap.set(k, (r, x));
                proof {
                    assert(self.heap@ == before.update(k as int, (r, xv)));
                    lemma_put_instance(before, self.heap@, r, xv);
                    assert forall|i: int| 0 <= i < self.heap@.len() implies #[trigger] self.heap@[i].0 == r || exists|
                        j: int,
                    | 0 <= j < before.len() && before[j].0 == self.heap@[i].0 by {
                        if i != k {
                            assert(before[i].0 == self.heap@[i].0);
                        }
                    }
                }
            },
            None => {
                self.heap.push((r, x));
                proof {
                    assert(self.heap@ == before.push((r, xv)));
                    lemma_put_instance(before, self.heap@, r, xv);
                    assert forall|i: int| 0 <= i < self.heap@.len() implies #[trigger] self.heap@[i].0 == r || exists|
                        j: int,
                    | 0 <= j < before.len() && before[j].0 == self.heap@[i].0 by {
                        if i < before.len() {
                            assert(before[i].0 == self.heap@[i].0);
                        }
                    }
                }
            },
        }
    }

    /// Allocates an array of elements of class `classname` holding `array`, or
    /// `size` default values when `array` is empty.
    pub fn alloc_array_primitive(&mut self, classname: &str, array: Vec<Type>, size: usize) -> (r: Result<
        Type,
        InternalError,
    >)
        requires
            1 <= old(self).next_obj_ref,
            old(self).next_obj_ref < u32::MAX,
            array@.len() == 0 ==> default_value_of(classname@) is Some,
        ensures
            r == Ok::<Type, InternalError>(Type::ArrayRef(old(self).next_obj_ref)),
            final(self).next_obj_ref == old(self).next_obj_ref + 1,
            array_at(final(self).heap@, old(self).next_obj_ref) matches Some(a) && new_array(
                a,
                classname@,
                old(self).next_obj_ref,
                initial_elements(classname@, array@, size as nat),
            ),
            same_but(old(self).heap@, final(self).heap@, old(self).next_obj_ref),
            refs_below(old(self).heap@, old(self).next_obj_ref) ==> refs_below(final(self).heap@, final(self).next_obj_ref),
            final(self).classes == old(self).classes,
            final(self).static_classes == old(self).static_classes,
            final(self).strings == old(self).strings,
    {
        let curr_array_ref = self.get_next_obj_ref();
        let mut elements = array;
        if elements.len() == 0 {
            let def_value = get_default_value(classname);
            let mut k: usize = 0;
            while k < size
                invariant
                    k <= size,
                    def_value == default_value_of(classname@)->0,
                    elements@ == Seq::new(k as nat, |i: int| default_value_of(classname@)->0),
                decreases size - k,
            {
                elements.push(def_value);
                k = k + 1;
                assert(elements@ =~= Seq::new(k as nat, |i: int| default_value_of(classname@)->0));
            }
        }
        let a = ArrayInstance::new(classname, curr_array_ref, elements);
        self.put(curr_array_ref, Instance::ArrayInstance(a));
        Ok(Type::ArrayRef(curr_array_ref))
    }

    /// Allocates an array of elements of class `classname` (a primitive
    /// descriptor or a class name): as `alloc_array_primitive`.
    pub fn alloc_array(&mut self, classname: &str, array: Vec<Type>, size: usize) -> (r: Result<Type, InternalError>)
        requires
            1 <= old(self).next_obj_ref,
            old(self).next_obj_ref < u32::MAX,
            array@.len() == 0 ==> default_value_of(classname@) is Some,
        ensures
            r == Ok::<Type, InternalError>(Type::ArrayRef(old(self).next_obj_ref)),
            final(self).next_obj_ref == old(self).next_obj_ref + 1,
            array_at(final(self).heap@, old(self).next_obj_ref) matches Some(a) && new_array(
                a,
                classname@,
                old(self).next_obj_ref,
                initial_elements(classname@, array@, size as nat),
            ),
            same_but(old(self).heap@, final(self).heap@, old(self).next_obj_ref),
            refs_below(old(self).heap@, old(self).next_obj_ref) ==> refs_below(final(self).heap@, final(self).next_obj_ref),
            final(self).classes == old(self).classes,
            final(self).static_classes == old(self).static_classes,
            final(self).strings == old(self).strings,
    {
        self.alloc_array_primitive(classname, array, size)
    }

    /// The instance that `obj_ref` designates.
    pub fn get_instance(&self, obj_ref: ju4) -> (r: Result<&Instance, InternalError>)
        ensures
            match instance_at(self.heap@, obj_ref) {
                Some(x) => r == Ok::<&Instance, InternalError>(&x),
                None => (r matches Err(InternalError::General(_))),
            },
    {
        proof {
            lemma_find_instance(self.heap@, obj_ref, 0);
        }
        match self.position(obj_ref) {
            Some(k) => Ok(&self.heap[k].1),
            None => Err(InternalError::General("reference not found in the heap".to_string())),
        }
    }

    /// The object that `obj_ref` designates.
    pub fn get_obj_instance(&self, obj_ref: ju4) -> (r: Result<&ObjectInstance, InternalError>)
        ensures
            match instance_at(self.heap@, obj_ref) {
                Some(Instance::ObjectInstance(o)) => r == Ok::<&ObjectInstance, InternalError>(&o),
                Some(Instance::ArrayInstance(a)) => (r matches Err(InternalError::WrongInstance(_, n)) && n@ == a.classname@),
                None => (r matches Err(InternalError::General(_))),
            },
    {
        match self.get_instance(obj_ref)? {
            Instance::ObjectInstance(o) => Ok(o),
            Instance::ArrayInstance(a) => Err(InternalError::WrongInstance("ObjectInstance", a.classname.clone())),
        }
    }

    /// The array that `obj_ref` designates.
    pub fn get_array_instance(&self, obj_ref: ju4) -> (r: Result<&ArrayInstance, InternalError>)
        ensures
            match instance_at(self.heap@, obj_ref) {
                Some(Instance::ArrayInstance(a)) => r == Ok::<&ArrayInstance, InternalError>(&a),
                Some(Instance::ObjectInstance(o)) => (r matches Err(InternalError::WrongInstance(_, n)) && n@ == o.classname@),
                None => (r matches Err(InternalError::General(_))),
            },
    {
        match self.get_instance(obj_ref)? {
            Instance::ArrayInstance(a) => Ok(a),
            Instance::ObjectInstance(o) => Err(InternalError::WrongInstance("ArrayInstance", o.classname.clone())),
        }
    }

    /// Whether a `Class` object was made for `classname`.
    pub fn has_class_instance(&self, classname: &str) -> (r: bool)
        ensures
            r == (ref_of(self.classes@, classname@) is Some),
    {
        self.classes.contains_key(classname)
    }

    /// The object that holds the static state of the class `classname`.
    pub fn get_static_class_instance(&self, classname: &str) -> (r: Result<&ObjectInstance, InternalError>)
        ensures
            match ref_of(self.static_classes@, classname@) {
                Some(x) => match instance_at(self.heap@, x) {
                    Some(Instance::ObjectInstance(o)) => r == Ok::<&ObjectInstance, InternalError>(&o),
                    _ => r is Err,
                },
                None => (r matches Err(InternalError::ClassNotFound(n)) && n@ == classname@),
            },
    {
        match self.static_classes.get(classname) {
            Some(class_ref) => self.get_obj_instance(class_ref),
            None => Err(InternalError::ClassNotFound(classname.to_string())),
        }
    }
}

impl Heap {
    /// The instance that `obj_ref` designates, to change.
    pub fn get_instance_mut(&mut self, obj_ref: ju4) -> (r: Result<&mut Instance, InternalError>)
        ensures
            match find_instance(old(self).heap@, obj_ref, 0) {
                Some(k) => (r matches Ok(m) && *m == old(self).heap@[k].1 && final(self).heap@ == old(self).heap@.update(
                    k,
                    (obj_ref, *final(m)),
                )),
                None => (r matches Err(InternalError::General(_))) && final(self).heap@ == old(self).heap@,
            },
            final(self).next_obj_ref == old(self).next_obj_ref,
            final(self).classes == old(self).classes,
            final(self).static_classes == old(self).static_classes,
            final(self).strings == old(self).strings,
    {
        proof {
            lemma_find_instance(old(self).heap@, obj_ref, 0);
        }
        match self.position(obj_ref) {
            Some(k) => Ok(&mut self.heap[k].1),
            None => Err(InternalError::General("reference not found in the heap".to_string())),
        }
    }
}

impl Heap {
    /// The object that `obj_ref` designates, to change.
    pub fn get_obj_instance_mut(&mut self, obj_ref: ju4) -> (r: Result<&mut ObjectInstance, InternalError>)
        ensures
            match find_instance(old(self).heap@, obj_ref, 0) {
                Some(k) => match old(self).heap@[k].1 {
                    Instance::ObjectInstance(o) => (r matches Ok(m) && *m == o && final(self).heap@ == old(
                        self,
                    ).heap@.update(k, (obj_ref, Instance::ObjectInstance(*final(m))))),
                    Instance::ArrayInstance(a) => (r matches Err(InternalError::WrongInstance(_, n)) && n@ == a.classname@)
                        && final(self).heap@ == old(self).heap@,
                },
                None => (r matches Err(InternalError::General(_))) && final(self).heap@ == old(self).heap@,
            },
            final(self).next_obj_ref == old(self).next_obj_ref,
            final(self).classes == old(self).classes,
            final(self).static_classes == old(self).static_classes,
            final(self).strings == old(self).strings,
    {
        match self.get_instance(obj_ref) {
            Err(e) => {
                return Err(e);
            },
            Ok(Instance::ArrayInstance(a)) => {
                return Err(InternalError::WrongInstance("ObjectInstance", a.classname.clone()));
            },
            Ok(Instance::ObjectInstance(_)) => {},
        }
        proof {
            lemma_find_instance(self.heap@, obj_ref, 0);
        }
        match self.get_instance_mut(obj_ref) {
            Ok(Instance::ObjectInstance(o)) => Ok(o),
            _ => vstd::pervasive::unreached(),
        }
    }

    /// The array that `obj_ref` designates, to change.
    pub fn get_array_instance_mut(&mut self, obj_ref: ju4) -> (r: Result<&mut ArrayInstance, InternalError>)
        ensures
            match find_instance(old(self).heap@, obj_ref, 0) {
                Some(k) => match old(self).heap@[k].1 {
                    Instance::ArrayInstance(a) => (r matches Ok(m) && *m == a && final(self).heap@ == old(
                        self,
                    ).heap@.update(k, (obj_ref, Instance::ArrayInstance(*final(m))))),
                    Instance::ObjectInstance(o) => (r matches Err(InternalError::WrongInstance(_, n)) && n@
                        == o.classname@) && final(self).heap@ == old(self).heap@,
                },
                None => (r matches Err(InternalError::General(_))) && final(self).heap@ == old(self).heap@,
            },
            final(self).next_obj_ref == old(self).next_obj_ref,
            final(self).classes == old(self).classes,
            final(self).static_classes == old(self).static_classes,
            final(self).strings == old(self).strings,
    {
        match self.get_instance(obj_ref) {
            Err(e) => {
                return Err(e);
            },
            Ok(Instance::ObjectInstance(o)) => {
                return Err(InternalError::WrongInstance("ArrayInstance", o.classname.clone()));
            },
            Ok(Instance::ArrayInstance(_)) => {},
        }
        proof {
            lemma_find_instance(self.heap@, obj_ref, 0);
        }
        match self.get_instance_mut(obj_ref) {
            Ok(Instance::ArrayInstance(a)) => Ok(a),
            _ => vstd::pervasive::unreached(),
        }
    }
}

/// Whether every reference below `n` designates in `b` what it designates in `a`.
pub open spec fn unchanged_below(a: Seq<(ju4, Instance)>, b: Seq<(ju4, Instance)>, n: ju4) -> bool {
    forall|x: ju4| x < n ==> #[trigger] instance_at(b, x) == instance_at(a, x)
}

/// The reference that a value holds: that of an object or an array, 0 for
/// `null`; none for other values.
pub open spec fn ref_value(t: Type) -> Option<ju4> {
    match t {
        Type::ObjectRef(b) => Some(b),
        Type::ArrayRef(b) => Some(b),
        Type::Null => Some(0),
        _ => None,
    }
}

/// Whether `r` can be read as a string: when it designates an object, that is
/// a `java/lang/String`, and when its `value` field designates an array, each
/// element of it stands for a byte.
pub open spec fn readable_string(v: Seq<(ju4, Instance)>, r: ju4) -> bool {
    match object_at(v, r) {
        Some(o) => o.classname@ == "java/lang/String"@ && match field_of(o, "value"@) {
            Some(Type::ArrayRef(x)) => match array_at(v, x) {
                Some(a) => forall|i: int| 0 <= i < a.elements@.len() ==> #[trigger] is_byte_like(a.elements@[i]),
                None => true,
            },
            _ => true,
        },
        None => true,
    }
}

/// Whether `r` reports reading the string `s` from the heap `v`: the bytes of
/// the array that its `value` field designates, decoded as UTF-8.
pub open spec fn string_read(v: Seq<(ju4, Instance)>, s: ju4, r: Result<String, InternalError>) -> bool {
    match instance_at(v, s) {
        None => r matches Err(InternalError::General(_)),
        Some(Instance::ArrayInstance(_)) => r matches Err(InternalError::WrongInstance(_, _)),
        Some(Instance::ObjectInstance(o)) => match field_of(o, "value"@) {
            None => r matches Err(InternalError::FieldNotFound),
            Some(Type::ArrayRef(x)) => match instance_at(v, x) {
                None => r matches Err(InternalError::General(_)),
                Some(Instance::ObjectInstance(_)) => r matches Err(InternalError::WrongInstance(_, _)),
                Some(Instance::ArrayInstance(a)) => {
                    let bytes = a.elements@.map_values(|t: Type| byte_of(t));
                    if valid_utf8(bytes) {
                        r matches Ok(t) && t@ == decode_utf8(bytes)
                    } else {
                        r is Err
                    }
                },
            },
            Some(t) => r matches Err(InternalError::WrongType(_, u)) && u == t,
        },
    }
}

/// The reference that the `name` field of the object `r` holds.
pub open spec fn class_name_ref(v: Seq<(ju4, Instance)>, r: ju4) -> Option<ju4> {
    match object_at(v, r) {
        Some(o) => match field_of(o, "name"@) {
            Some(t) => ref_value(t),
            None => None,
        },
        None => None,
    }
}

/// The text of the string object `s`, when its bytes are valid UTF-8.
pub open spec fn string_text(v: Seq<(ju4, Instance)>, s: ju4) -> Option<Seq<char>> {
    match object_at(v, s) {
        Some(o) => match field_of(o, "value"@) {
            Some(Type::ArrayRef(x)) => match array_at(v, x) {
                Some(a) => {
                    let bytes = a.elements@.map_values(|t: Type| byte_of(t));
                    if valid_utf8(bytes) {
                        Some(decode_utf8(bytes))
                    } else {
                        None
                    }
                },
                None => None,
            },
            _ => None,
        },
        None => None,
    }
}

/// Copies have as many parts as what they copy.
proof fn lemma_same_parts(a: ObjectInstance, b: ObjectInstance)
    requires
        same_object(a, b),
    ensures
        parts(a) == parts(b),
    decreases a,
{
    match (a.parent_obj, b.parent_obj) {
        (Some(p), Some(q)) => {
            lemma_same_parts(*p, *q);
        },
        _ => {},
    }
}

impl Heap {
    /// The `Class` object made for `classname`, to change.
    pub fn get_class_instance_mut(&mut self, classname: &str) -> (r: Result<&mut ObjectInstance, InternalError>)
        ensures
            ref_of(old(self).classes@, classname@) is None ==> (r matches Err(InternalError::ClassNotFound(n)) && n@
                == classname@) && final(self).heap@ == old(self).heap@,
            ref_of(old(self).classes@, classname@) matches Some(x) ==> (object_at(old(self).heap@, x) matches Some(o) ==> (r matches Ok(
                m,
            ) && *m == o && final(self).heap@ == old(self).heap@.update(
                find_instance(old(self).heap@, x, 0)->0,
                (x, Instance::ObjectInstance(*final(m))),
            ))),
            ref_of(old(self).classes@, classname@) matches Some(x) ==> (object_at(old(self).heap@, x) is None ==> r is Err
                && final(self).heap@ == old(self).heap@),
            final(self).next_obj_ref == old(self).next_obj_ref,
            final(self).classes == old(self).classes,
            final(self).static_classes == old(self).static_classes,
            final(self).strings == old(self).strings,
    {
        match self.classes.get(classname) {
            Some(class_ref) => self.get_obj_instance_mut(class_ref),
            None => Err(InternalError::ClassNotFound(classname.to_string())),
        }
    }

    /// Copies the array `array` under the next reference.
    pub fn clone_array_instance(&mut self, array: &ArrayInstance) -> (r: ju4)
        requires
            1 <= old(self).next_obj_ref,
            old(self).next_obj_ref < u32::MAX,
        ensures
            r == old(self).next_obj_ref,
            final(self).next_obj_ref == old(self).next_obj_ref + 1,
            array_at(final(self).heap@, r) matches Some(a) && a.array_ref == r && a.classname@ == array.classname@
                && a.element_classname@ == array.element_classname@ && a.hash_code == array.hash_code && a.elements@
                == array.elements@,
            same_but(old(self).heap@, final(self).heap@, r),
            refs_below(old(self).heap@, old(self).next_obj_ref) ==> refs_below(final(self).heap@, final(self).next_obj_ref),
            final(self).classes == old(self).classes,
            final(self).static_classes == old(self).static_classes,
            final(self).strings == old(self).strings,
    {
        let curr_ref = self.get_next_obj_ref();
        let mut copy = array.duplicate();
        copy.set_ref(curr_ref);
        self.put(curr_ref, Instance::ArrayInstance(copy));
        curr_ref
    }

    /// Copies the object `obj` under the next reference, and each part of its
    /// superclasses under the references after it.
    pub fn clone_obj_instance(&mut self, obj: &ObjectInstance) -> (r: Result<ju4, InternalError>)
        requires
            1 <= old(self).next_obj_ref,
            old(self).next_obj_ref + parts(*obj) <= u32::MAX,
        ensures
            r == Ok::<ju4, InternalError>(old(self).next_obj_ref),
            final(self).next_obj_ref == old(self).next_obj_ref + parts(*obj),
            object_at(final(self).heap@, old(self).next_obj_ref) matches Some(o) && o.obj_ref == old(self).next_obj_ref
                && o.classname@ == obj.classname@ && o.hash_code == obj.hash_code && o.fields@ == obj.fields@
                && string_texts(o.interfaces@) == string_texts(obj.interfaces@) && (o.parent_obj is Some
                <==> obj.parent_obj is Some),
            unchanged_below(old(self).heap@, final(self).heap@, old(self).next_obj_ref),
            refs_below(old(self).heap@, old(self).next_obj_ref) ==> refs_below(final(self).heap@, final(self).next_obj_ref),
            final(self).classes == old(self).classes,
            final(self).static_classes == old(self).static_classes,
            final(self).strings == old(self).strings,
        decreases *obj,
    {
        let curr_ref = self.get_next_obj_ref();
        let mut new_obj = obj.duplicate();
        new_obj.set_ref(curr_ref);
        match obj.get_parent() {
            Some(p) => {
                let parent_ref = self.clone_obj_instance(p)?;
                let parent_obj = self.get_obj_instance(parent_ref)?.duplicate();
                new_obj.set_parent(parent_obj);
            },
            None => {},
        }
        let ghost mid = self.heap@;
        self.put(curr_ref, Instance::ObjectInstance(new_obj));
        Ok(curr_ref)
    }

    /// Copies the instance that `obj_ref` designates under the next reference.
    pub fn clone_instance(&mut self, obj_ref: ju4) -> (r: Result<Type, InternalError>)
        requires
            1 <= old(self).next_obj_ref,
            match instance_at(old(self).heap@, obj_ref) {
                Some(Instance::ObjectInstance(o)) => old(self).next_obj_ref + parts(o) <= u32::MAX,
                Some(Instance::ArrayInstance(_)) => old(self).next_obj_ref < u32::MAX,
                None => true,
            },
        ensures
            match instance_at(old(self).heap@, obj_ref) {
                Some(Instance::ObjectInstance(o)) => r == Ok::<Type, InternalError>(Type::ObjectRef(old(self).next_obj_ref))
                    && (object_at(final(self).heap@, old(self).next_obj_ref) matches Some(c) && c.classname@ == o.classname@
                    && c.fields@ == o.fields@),
                Some(Instance::ArrayInstance(a)) => r == Ok::<Type, InternalError>(Type::ArrayRef(old(self).next_obj_ref))
                    && (array_at(final(self).heap@, old(self).next_obj_ref) matches Some(c) && c.classname@ == a.classname@
                    && c.elements@ == a.elements@),
                None => (r matches Err(InternalError::General(_))) && final(self).heap@ == old(self).heap@,
            },
            unchanged_below(old(self).heap@, final(self).heap@, old(self).next_obj_ref),
            refs_below(old(self).heap@, old(self).next_obj_ref) ==> refs_below(final(self).heap@, final(self).next_obj_ref),
    {
        match self.get_instance(obj_ref)? {
            Instance::ObjectInstance(o) => {
                let copy = o.duplicate();
                proof {
                    lemma_same_parts(*o, copy);
                }
                let cp_ref = self.clone_obj_instance(&copy)?;
                Ok(Type::ObjectRef(cp_ref))
            },
            Instance::ArrayInstance(a) => {
                let copy = a.duplicate();
                let cp_ref = self.clone_array_instance(&copy);
                Ok(Type::ArrayRef(cp_ref))
            },
        }
    }

    /// The text of the string object `obj_ref`: the UTF-8 decoding of the bytes
    /// that the array of its `value` field holds.
    pub fn get_string(&self, obj_ref: ju4) -> (r: Result<String, InternalError>)
        requires
            readable_string(self.heap@, obj_ref),
        ensures
            string_read(self.heap@, obj_ref, r),
    {
        let obj = self.get_obj_instance(obj_ref)?;
        let array_field = obj.get_field("value")?;
        match array_field {
            Type::ArrayRef(array_ref) => {
                let array = self.get_array_instance(array_ref)?;
                assert(object_at(self.heap@, obj_ref) == Some(*obj));
                assert(field_of(*obj, "value"@) == Some(Type::ArrayRef(array_ref)));
                assert(array_at(self.heap@, array_ref) == Some(*array));
                assert(readable_string(self.heap@, obj_ref));
                assert(obj.classname@ == "java/lang/String"@);
                assert(match field_of(*obj, "value"@) {
                    Some(Type::ArrayRef(x)) => match array_at(self.heap@, x) {
                        Some(a) => forall|i: int| 0 <= i < a.elements@.len() ==> #[trigger] is_byte_like(a.elements@[i]),
                        None => true,
                    },
                    _ => true,
                });
                array.get_string()
            },
            _ => Err(InternalError::WrongType("Array", array_field)),
        }
    }

    /// The internal name of the class of the `Class` object `class_ref`: its
    /// `name` field holds the binary name.
    pub fn get_classname_from_class_obj(&self, class_ref: ju4) -> (r: Result<String, InternalError>)
        requires
            class_name_ref(self.heap@, class_ref) matches Some(n) ==> readable_string(self.heap@, n),
        ensures
            match class_name_ref(self.heap@, class_ref) {
                Some(n) => match string_text(self.heap@, n) {
                    Some(t) => (r matches Ok(x) && x@ == slashed(t)),
                    None => r is Err,
                },
                None => r is Err,
            },
    {
        let class_obj = self.get_obj_instance(class_ref)?;
        let name_ref = class_obj.get_field("name")?.as_ref()?;
        let name = self.get_string(name_ref)?;
        Ok(dotclass_to_class(name.as_str()))
    }
}

impl Heap {
    /// The class file of the class that the `Class` object `class_ref` stands
    /// for: the loaded class named by its `name` (not for primitive types).
    pub fn get_class_from_class_obj<'a>(&self, loader: &'a ClassLoader, class_ref: ju4) -> (r: Result<
        &'a crate::class_loader::class_file::ClassFile,
        InternalError,
    >)
        requires
            class_name_ref(self.heap@, class_ref) matches Some(n) ==> readable_string(self.heap@, n),
        ensures
            match class_name_ref(self.heap@, class_ref) {
                Some(n) => match string_text(self.heap@, n) {
                    Some(t) => match class_named(loader.classes_view(), t) {
                        Some(c) => (r matches Ok(x) && x@ == c),
                        None => (r matches Err(InternalError::ClassNotFound(a)) && a@ == slashed(t)),
                    },
                    None => r is Err,
                },
                None => r is Err,
            },
    {
        let class_obj = self.get_obj_instance(class_ref)?;
        let name_ref = class_obj.get_field("name")?.as_ref()?;
        let name = self.get_string(name_ref)?;
        proof {
            loader.lemma_get(name@);
        }
        loader.get(name.as_str())
    }
}

/// Whether every loaded class gives each of its fields that is not static an
/// initial value (as `new_obj` needs).
pub open spec fn loader_defaults_ok(cs: Seq<(Seq<char>, crate::class_loader::class_file::ClassFileView)>) -> bool {
    forall|k: int| 0 <= k < cs.len() ==> #[trigger] instance_defaults_ok(cs[k].1.fields)
}

/// Whether an object of class `classname` can be made: the class and each of its
/// superclasses up to `java/lang/Object` is loaded, with `fuel` steps up allowed.
pub open spec fn alloc_search(
    cs: Seq<(Seq<char>, crate::class_loader::class_file::ClassFileView)>,
    classname: Seq<char>,
    fuel: nat,
) -> Search<()>
    decreases fuel,
{
    match class_named(cs, classname) {
        None => Search::NoClass(slashed(classname)),
        Some(c) => if classname == "java/lang/Object"@ {
            Search::Found(())
        } else if fuel == 0 {
            Search::Circular(classname)
        } else {
            alloc_search(cs, c.super_class_name, (fuel - 1) as nat)
        },
    }
}

/// Whether `o` is a new object of the class `c` with reference `r`: its fields
/// at their initial values, the interfaces of its class, and a part for its
/// superclass unless it is a `java/lang/Object`.
pub open spec fn new_object(
    o: ObjectInstance,
    c: crate::class_loader::class_file::ClassFileView,
    classname: Seq<char>,
    r: ju4,
) -> bool {
    &&& o.classname@ == c.this_class_name
    &&& o.obj_ref == r
    &&& o.hash_code == r
    &&& o.fields@ == instance_fields_after(Seq::empty(), c.fields, c.fields.len() as int)
    &&& string_texts(o.interfaces@) == c.interfaces
    &&& o.monitor_count == 0
    &&& (o.parent_obj is Some <==> classname != "java/lang/Object"@)
}

impl Heap {
    /// Makes an object of class `classname` with `fuel` steps up allowed.
    fn alloc_obj_from(&mut self, loader: &ClassLoader, classname: &str, fuel: usize) -> (r: Result<Type, InternalError>)
        requires
            1 <= old(self).next_obj_ref,
            old(self).next_obj_ref + fuel + 1 <= u32::MAX,
            loader_defaults_ok(loader.classes_view()),
        ensures
            old(self).next_obj_ref < final(self).next_obj_ref <= old(self).next_obj_ref + fuel + 1,
            match alloc_search(loader.classes_view(), classname@, fuel as nat) {
                Search::Found(_) => r == Ok::<Type, InternalError>(Type::ObjectRef(old(self).next_obj_ref)) && (object_at(
                    final(self).heap@,
                    old(self).next_obj_ref,
                ) matches Some(o) && new_object(o, class_named(loader.classes_view(), classname@)->0, classname@, old(self).next_obj_ref)),
                s => (r matches Err(e) && search_error(s, e, InternalError::FieldNotFound)),
            },
            unchanged_below(old(self).heap@, final(self).heap@, old(self).next_obj_ref),
            refs_below(old(self).heap@, old(self).next_obj_ref) ==> refs_below(final(self).heap@, final(self).next_obj_ref),
            final(self).classes == old(self).classes,
            final(self).static_classes == old(self).static_classes,
            final(self).strings == old(self).strings,
        decreases fuel,
    {
        let curr_ref = self.get_next_obj_ref();
        proof {
            loader.lemma_get(classname@);
        }
        let class = loader.get(classname)?;
        proof {
            let k = crate::class_loader::loader::find_class(loader.classes_view(), slashed(classname@), 0)->0;
            assert(loader.classes_view()[k].1 == class@);
            assert(instance_defaults_ok(loader.classes_view()[k].1.fields));
        }
        let mut new_obj = ObjectInstance::new(class, curr_ref);
        assert(new_obj.fields@ =~= Seq::<(Seq<char>, Type)>::empty());
        let _ = class.new_obj(&mut new_obj);
        if !str_eq(classname, "java/lang/Object") {
            if fuel == 0 {
                return Err(InternalError::ClassCircularity(classname.to_string()));
            }
            let parent_ref = self.alloc_obj_from(loader, class.get_parent_name(), fuel - 1)?.as_ref()?;
            let parent_obj = self.get_obj_instance(parent_ref)?.duplicate();
            new_obj.set_parent(parent_obj);
        }
        self.put(curr_ref, Instance::ObjectInstance(new_obj));
        Ok(Type::ObjectRef(curr_ref))
    }

    /// Makes an object of class `classname` under the next reference: its fields
    /// at their initial values, and (unless it is a `java/lang/Object`) the part
    /// that its superclass declares, itself made as an object first. Each
    /// class on the way up must be loaded.
    pub fn alloc_obj(&mut self, loader: &ClassLoader, classname: &str) -> (r: Result<Type, InternalError>)
        requires
            1 <= old(self).next_obj_ref,
            old(self).next_obj_ref + loader.classes@.len() + 1 <= u32::MAX,
            loader_defaults_ok(loader.classes_view()),
        ensures
            old(self).next_obj_ref < final(self).next_obj_ref <= old(self).next_obj_ref + loader.classes@.len() + 1,
            match alloc_search(loader.classes_view(), classname@, loader.classes@.len() as nat) {
                Search::Found(_) => r == Ok::<Type, InternalError>(Type::ObjectRef(old(self).next_obj_ref)) && (object_at(
                    final(self).heap@,
                    old(self).next_obj_ref,
                ) matches Some(o) && new_object(o, class_named(loader.classes_view(), classname@)->0, classname@, old(self).next_obj_ref)),
                s => (r matches Err(e) && search_error(s, e, InternalError::FieldNotFound)),
            },
            unchanged_below(old(self).heap@, final(self).heap@, old(self).next_obj_ref),
            refs_below(old(self).heap@, old(self).next_obj_ref) ==> refs_below(final(self).heap@, final(self).next_obj_ref),
            final(self).classes == old(self).classes,
            final(self).static_classes == old(self).static_classes,
            final(self).strings == old(self).strings,
    {
        self.alloc_obj_from(loader, classname, loader.classes.len())
    }
}

/// The elements of the byte array of a string: each byte as a `byte`.
pub open spec fn byte_elements(bs: Seq<u8>) -> Seq<Type> {
    bs.map_values(|c: u8| Type::Byte(c as i8))
}

/// Whether the object `o` has its own field `name` holding `t`.
pub open spec fn own_field(o: ObjectInstance, name: Seq<char>, t: Type) -> bool {
    lookup(o.fields@, name) == Some(t)
}

impl Heap {
    /// Stores `value` in the field `fieldname` that the object `obj_ref` itself
    /// declares (creating it if needed).
    pub(crate) fn set_own_field(&mut self, obj_ref: ju4, fieldname: &str, value: Type)
        requires
            object_at(old(self).heap@, obj_ref) is Some,
        ensures
            object_at(final(self).heap@, obj_ref) matches Some(o) && own_field(o, fieldname@, value)
                && o.classname@ == object_at(old(self).heap@, obj_ref)->0.classname@
                && o.obj_ref == object_at(old(self).heap@, obj_ref)->0.obj_ref
                && o.fields@ == store(object_at(old(self).heap@, obj_ref)->0.fields@, fieldname@, value),
            same_but(old(self).heap@, final(self).heap@, obj_ref),
            final(self).heap@.len() == old(self).heap@.len(),
            forall|i: int| 0 <= i < final(self).heap@.len() ==> #[trigger] final(self).heap@[i].0 == old(self).heap@[i].0,
            final(self).next_obj_ref == old(self).next_obj_ref,
            final(self).classes == old(self).classes,
            final(self).static_classes == old(self).static_classes,
            final(self).strings == old(self).strings,
    {
        let ghost before = self.heap@;
        proof {
            lemma_find_instance(before, obj_ref, 0);
        }
        let ghost k = find_instance(before, obj_ref, 0)->0;
        match self.get_obj_instance_mut(obj_ref) {
            Ok(obj) => {
                let ghost fs = obj.fields@;
                let _ = obj.new_field(fieldname, value);
                proof {
                    lemma_lookup_store_same(fs, fieldname@, value);
                }
            },
            Err(_) => {
                vstd::pervasive::unreached::<()>();
            },
        }
        proof {
            let x = self.heap@[k].1;
            assert(self.heap@ == before.update(k, (obj_ref, x)));
            lemma_put_instance(before, self.heap@, obj_ref, x);
            assert forall|i: int| 0 <= i < self.heap@.len() implies #[trigger] self.heap@[i].0 == before[i].0 by {
                if i != k {
                    assert(self.heap@[i] == before[i]);
                }
            }
        }
    }
}

impl Heap {
    /// The string object for the text `value`: the one made for it before
    /// (strings are interned), or a new `java/lang/String` whose `value` field
    /// designates a new array of the text's UTF-8 bytes.
    pub fn alloc_string(&mut self, loader: &ClassLoader, value: &str) -> (r: Result<Type, InternalError>)
        requires
            1 <= old(self).next_obj_ref,
            old(self).next_obj_ref + loader.classes@.len() + 2 <= u32::MAX,
            loader_defaults_ok(loader.classes_view()),
        ensures
            match ref_of(old(self).strings@, value@) {
                Some(x) => r == Ok::<Type, InternalError>(Type::ObjectRef(x)) && final(self).heap@ == old(self).heap@
                    && final(self).next_obj_ref == old(self).next_obj_ref && final(self).strings == old(self).strings,
                None => match alloc_search(loader.classes_view(), "java/lang/String"@, loader.classes@.len() as nat) {
                    Search::Found(_) => {
                        let a = old(self).next_obj_ref;
                        let s = (a + 1) as ju4;
                        &&& r == Ok::<Type, InternalError>(Type::ObjectRef(s))
                        &&& array_at(final(self).heap@, a) matches Some(arr) && new_array(
                            arr,
                            "B"@,
                            a,
                            byte_elements(value.spec_bytes()),
                        )
                        &&& object_at(final(self).heap@, s) matches Some(o) && own_field(o, "value"@, Type::ArrayRef(a))
                            && o.classname@ == class_named(loader.classes_view(), "java/lang/String"@)->0.this_class_name
                        &&& final(self).strings@ == record(old(self).strings@, value@, s)
                    },
                    s => (r matches Err(e) && search_error(s, e, InternalError::FieldNotFound)),
                },
            },
            old(self).next_obj_ref <= final(self).next_obj_ref <= old(self).next_obj_ref + loader.classes@.len() + 2,
            unchanged_below(old(self).heap@, final(self).heap@, old(self).next_obj_ref),
            refs_below(old(self).heap@, old(self).next_obj_ref) ==> refs_below(final(self).heap@, final(self).next_obj_ref),
            final(self).classes == old(self).classes,
            final(self).static_classes == old(self).static_classes,
    {
        match self.strings.get(value) {
            Some(x) => {
                return Ok(Type::ObjectRef(x));
            },
            None => {},
        }
        let bytes = value.as_bytes();
        let mut arr: Vec<Type> = Vec::new();
        let mut k: usize = 0;
        while k < bytes.len()
            invariant
                k <= bytes@.len(),
                arr@ == byte_elements(bytes@.subrange(0, k as int)),
            decreases bytes@.len() - k,
        {
            arr.push(Type::Byte(bytes[k] as i8));
            k = k + 1;
            assert(arr@ =~= byte_elements(bytes@.subrange(0, k as int)));
        }
        assert(bytes@.subrange(0, k as int) =~= bytes@);
        let arr_len = arr.len();
        assert(initial_elements("B"@, arr@, arr_len as nat) =~= byte_elements(value.spec_bytes()));
        let ghost h0 = self.heap@;
        let str_ref = self.alloc_array_primitive("B", arr, arr_len)?;
        let ghost h1 = self.heap@;
        let ghost a = (self.next_obj_ref - 1) as ju4;
        let string_ref = self.alloc_obj(loader, "java/lang/String")?;
        let ghost h2 = self.heap@;
        let curr_ref = match string_ref {
            Type::ObjectRef(x) => x,
            _ => {
                return vstd::pervasive::unreached();
            },
        };
        self.set_own_field(curr_ref, "value", str_ref);
        proof {
            assert(instance_at(self.heap@, a) == instance_at(h2, a));
            assert(instance_at(h2, a) == instance_at(h1, a));
            assert forall|x: ju4| x < old(self).next_obj_ref implies #[trigger] instance_at(self.heap@, x) == instance_at(
                h0,
                x,
            ) by {
                assert(instance_at(self.heap@, x) == instance_at(h2, x));
                assert(instance_at(h2, x) == instance_at(h1, x));
            }
            if refs_below(h0, old(self).next_obj_ref) {
                assert(refs_below(h2, self.next_obj_ref));
                assert forall|i: int| 0 <= i < self.heap@.len() implies #[trigger] self.heap@[i].0 < self.next_obj_ref by {
                    assert(self.heap@[i].0 == h2[i].0);
                }
            }
        }
        self.strings.insert(value, curr_ref);
        Ok(Type::ObjectRef(curr_ref))
    }

    /// A new `java/lang/Integer` object whose `value` field holds `num`.
    pub fn alloc_integer(&mut self, loader: &ClassLoader, num: i32) -> (r: Result<Type, InternalError>)
        requires
            1 <= old(self).next_obj_ref,
            old(self).next_obj_ref + loader.classes@.len() + 1 <= u32::MAX,
            loader_defaults_ok(loader.classes_view()),
        ensures
            r is Ok ==> r == Ok::<Type, InternalError>(Type::ObjectRef(old(self).next_obj_ref)) && (object_at(
                final(self).heap@,
                old(self).next_obj_ref,
            ) matches Some(o) && field_of(o, "value"@) == Some(Type::Integer(num))),
            match alloc_search(loader.classes_view(), "java/lang/Integer"@, loader.classes@.len() as nat) {
                Search::Found(_) => lookup(
                    instance_fields_after(
                        Seq::empty(),
                        class_named(loader.classes_view(), "java/lang/Integer"@)->0.fields,
                        class_named(loader.classes_view(), "java/lang/Integer"@)->0.fields.len() as int,
                    ),
                    "value"@,
                ) is Some ==> r is Ok,
                s => (r matches Err(e) && search_error(s, e, InternalError::FieldNotFound)),
            },
            old(self).next_obj_ref <= final(self).next_obj_ref <= old(self).next_obj_ref + loader.classes@.len() + 1,
            r is Ok ==> old(self).next_obj_ref < final(self).next_obj_ref,
            unchanged_below(old(self).heap@, final(self).heap@, old(self).next_obj_ref),
            final(self).classes == old(self).classes,
            final(self).static_classes == old(self).static_classes,
            final(self).strings == old(self).strings,
    {
        let obj_ref = self.alloc_obj(loader, "java/lang/Integer")?.as_ref()?;
        let ghost h = self.heap@;
        proof {
            lemma_find_instance(h, obj_ref, 0);
        }
        let obj = self.get_obj_instance_mut(obj_ref)?;
        let ghost before = *obj;
        let res = obj.put_field("value", Type::Integer(num));
        proof {
            reveal_strlit("value");
            reveal_strlit("jfrTracing");
            assert(crate::class_loader::class_file::JFR_TRACING@ == "jfrTracing"@);
            assert("value"@.len() != "jfrTracing"@.len());
            if res is Ok {
                crate::instance::lemma_put_field_reads(before, *obj, "value"@, Type::Integer(num));
            }
        }
        match res {
            Ok(()) => {},
            Err(e) => {
                proof {
                    let k = find_instance(h, obj_ref, 0)->0;
                    assert(self.heap@ =~= h);
                }
                return Err(e);
            },
        }
        proof {
            let k = find_instance(h, obj_ref, 0)->0;
            lemma_put_instance(h, self.heap@, obj_ref, self.heap@[k].1);
        }
        Ok(Type::ObjectRef(obj_ref))
    }
}

impl Heap {
    /// Writes `value` to the field `fieldname` of the object `obj_ref` (in the
    /// nearest part that has it).
    pub(crate) fn put_field_in(&mut self, obj_ref: ju4, fieldname: &str, value: Type) -> (r: Result<(), InternalError>)
        ensures
            same_but(old(self).heap@, final(self).heap@, obj_ref),
            final(self).heap@.len() == old(self).heap@.len(),
            forall|i: int| 0 <= i < final(self).heap@.len() ==> #[trigger] final(self).heap@[i].0 == old(self).heap@[i].0,
            r is Ok ==> object_at(old(self).heap@, obj_ref) is Some && object_at(final(self).heap@, obj_ref) is Some,
            match object_at(old(self).heap@, obj_ref) {
                Some(o) => if holds_field(o, fieldname@) {
                    r is Ok && (object_at(final(self).heap@, obj_ref) matches Some(o2) && put_into(
                        o,
                        o2,
                        fieldname@,
                        value,
                    ))
                } else {
                    r == Err::<(), InternalError>(InternalError::FieldNotFound) && final(self).heap@ == old(self).heap@
                },
                None => r is Err && final(self).heap@ == old(self).heap@,
            },
            final(self).next_obj_ref == old(self).next_obj_ref,
            final(self).classes == old(self).classes,
            final(self).static_classes == old(self).static_classes,
            final(self).strings == old(self).strings,
    {
        let ghost h = self.heap@;
        proof {
            lemma_find_instance(h, obj_ref, 0);
        }
        let obj = match self.get_obj_instance_mut(obj_ref) {
            Ok(o) => o,
            Err(e) => {
                proof {
                    assert forall|x: ju4| x != obj_ref implies #[trigger] instance_at(self.heap@, x) == instance_at(h, x) by {}
                }
                return Err(e);
            },
        };
        let res = obj.put_field(fieldname, value);
        proof {
            let k = find_instance(h, obj_ref, 0)->0;
            lemma_put_instance(h, self.heap@, obj_ref, self.heap@[k].1);
            assert forall|i: int| 0 <= i < self.heap@.len() implies #[trigger] self.heap@[i].0 == h[i].0 by {
                if i != k {
                    assert(self.heap@[i] == h[i]);
                }
            }
        }
        res
    }
}

/// A bound on the references that making the `Class` object of a class whose
/// name has `n` characters takes, with `c` classes loaded: per level of
/// component classes, a string (its bytes, the object and the parts of its
/// superclasses), the `Class` object and the static-state object.
pub open spec fn class_obj_budget(n: nat, c: nat) -> nat {
    (n + 1) * (3 * c + 4)
}

/// The budget of a shorter name leaves room for one level.
proof fn lemma_budget(n: nat, m: nat, c: nat)
    requires
        m < n,
    ensures
        class_obj_budget(m, c) + 3 * c + 4 <= class_obj_budget(n, c),
{
    assert((m + 1) * (3 * c + 4) + (3 * c + 4) == (m + 2) * (3 * c + 4)) by (nonlinear_arith);
    assert((m + 2) * (3 * c + 4) <= (n + 1) * (3 * c + 4)) by (nonlinear_arith)
        requires
            m + 2 <= n + 1,
    ;
}

/// The budget covers at least one level.
proof fn lemma_budget_one(n: nat, c: nat)
    ensures
        3 * c + 4 <= class_obj_budget(n, c),
{
    assert((n + 1) * (3 * c + 4) >= 3 * c + 4) by (nonlinear_arith);
}

/// The reference of the module that holds the package named `name`.
pub open spec fn module_of(mm: ModuleManager, name: Seq<char>) -> Option<ju4> {
    match find_mapping(mm.rev_mapping@, name, 0) {
        Some(k) => match find_module(mm.modules@, mm.rev_mapping@[k].1, 0) {
            Some(j) => Some(mm.modules@[j].obj_ref),
            None => None,
        },
        None => None,
    }
}

/// Whether `name` names an array class.
pub open spec fn is_array_name(name: Seq<char>) -> bool {
    name.len() > 0 && name[0] == '['
}

/// Whether the loaded `java/lang/Class` declares the field `field` itself.
pub open spec fn class_class_declares(cs: Seq<(Seq<char>, crate::class_loader::class_file::ClassFileView)>, field: Seq<char>) -> bool {
    let c = class_named(cs, "java/lang/Class"@)->0;
    lookup(instance_fields_after(Seq::empty(), c.fields, c.fields.len() as int), field) is Some
}

/// Whether the `Class` object of `name` can be made with the classes `cs` and
/// the modules `mm`: strings and `Class` objects can be made, `java/lang/Class`
/// declares `classLoader` (and `module`, for a class that is neither primitive
/// nor an array), an array's component class is primitive or loaded and its
/// `Class` object can be made, and any other class that is not primitive has a
/// module and can be instantiated for its static state.
pub open spec fn class_obj_ready(cs: Seq<(Seq<char>, crate::class_loader::class_file::ClassFileView)>, mm: ModuleManager, name: Seq<char>) -> bool
    decreases name.len(),
{
    &&& alloc_search(cs, "java/lang/String"@, cs.len() as nat) is Found
    &&& alloc_search(cs, "java/lang/Class"@, cs.len() as nat) is Found
    &&& class_class_declares(cs, "classLoader"@)
    &&& if is_array_name(name) {
        let e = crate::types::element_class(name)->0;
        if e.len() < name.len() {
            (crate::types::is_primitive_descriptor(e) || class_named(cs, e) is Some) && class_obj_ready(cs, mm, e)
        } else {
            false
        }
    } else if crate::types::is_primitive_descriptor(name) {
        true
    } else {
        &&& class_class_declares(cs, "module"@)
        &&& module_of(mm, name) is Some
        &&& alloc_search(cs, name, cs.len() as nat) is Found
    }
}

/// Whether `o` is the `Class` object of `name` in the heap `hp` (with the
/// classes `cs` and the modules `mm`): an object of `java/lang/Class` whose own
/// `name` is the interned string of the binary name, whose `classLoader` reads
/// `null`, with the `Class` object of the component class as `componentType`
/// for an array class, and whose `module` reads the class's module for a class
/// that is neither primitive nor an array.
pub open spec fn class_object(
    o: ObjectInstance,
    hp: Heap,
    cs: Seq<(Seq<char>, crate::class_loader::class_file::ClassFileView)>,
    mm: ModuleManager,
    name: Seq<char>,
) -> bool {
    &&& o.classname@ == class_named(cs, "java/lang/Class"@)->0.this_class_name
    &&& ref_of(hp.strings@, replace_char(name, '/', '.')) matches Some(sr) && own_field(o, "name"@, Type::ObjectRef(sr))
    &&& field_of(o, "classLoader"@) == Some(Type::Null)
    &&& is_array_name(name) ==> (ref_of(hp.classes@, crate::types::element_class(name)->0) matches Some(c) && own_field(
        o,
        "componentType"@,
        Type::ObjectRef(c),
    ))
    &&& !is_array_name(name) && !crate::types::is_primitive_descriptor(name) ==> (module_of(mm, name) matches Some(m)
        && field_of(o, "module"@) == Some(Type::ObjectRef(m)))
}

/// Whether the `Class` object of a primitive type can be made with the classes
/// `cs` and the modules `mm`: strings and `Class` objects can be made,
/// `java/lang/Class` declares `classLoader` and `module`, and
/// `java/lang/Integer` has a module.
pub open spec fn primitive_class_obj_ready(cs: Seq<(Seq<char>, crate::class_loader::class_file::ClassFileView)>, mm: ModuleManager) -> bool {
    &&& alloc_search(cs, "java/lang/String"@, cs.len() as nat) is Found
    &&& alloc_search(cs, "java/lang/Class"@, cs.len() as nat) is Found
    &&& class_class_declares(cs, "classLoader"@)
    &&& class_class_declares(cs, "module"@)
    &&& module_of(mm, "java/lang/Integer"@) is Some
}

/// Whether `o` is the `Class` object of the primitive type `name` in the heap
/// `hp`: an object of `java/lang/Class` whose own `name` is the interned string
/// of the name, whose `classLoader` reads `null` and whose `module` reads the
/// module of `java/lang/Integer`.
pub open spec fn primitive_class_object(
    o: ObjectInstance,
    hp: Heap,
    cs: Seq<(Seq<char>, crate::class_loader::class_file::ClassFileView)>,
    mm: ModuleManager,
    name: Seq<char>,
) -> bool {
    &&& o.classname@ == class_named(cs, "java/lang/Class"@)->0.this_class_name
    &&& ref_of(hp.strings@, replace_char(name, '/', '.')) matches Some(sr) && own_field(o, "name"@, Type::ObjectRef(sr))
    &&& field_of(o, "classLoader"@) == Some(Type::Null)
    &&& module_of(mm, "java/lang/Integer"@) matches Some(m) && field_of(o, "module"@) == Some(Type::ObjectRef(m))
}

/// A write to one field leaves the object's own other fields as they were.
proof fn lemma_put_own_other(a: ObjectInstance, b: ObjectInstance, name: Seq<char>, other: Seq<char>, value: Type)
    requires
        put_into(a, b, name, value),
        other != name,
    ensures
        lookup(b.fields@, other) == lookup(a.fields@, other),
{
    if lookup(a.fields@, name) is Some {
        lemma_lookup_store_other(a.fields@, name, other, value);
    }
}

/// The names of the fields of a `Class` object that are set differ.
proof fn lemma_class_field_names()
    ensures
        "name"@ != "classLoader"@,
        "name"@ != "componentType"@,
        "name"@ != "module"@,
        "classLoader"@ != "componentType"@,
        "classLoader"@ != "module"@,
        "componentType"@ != "module"@,
{
    reveal_strlit("name");
    reveal_strlit("classLoader");
    reveal_strlit("componentType");
    reveal_strlit("module");
    assert("name"@.len() == 4);
    assert("classLoader"@.len() == 11);
    assert("componentType"@.len() == 13);
    assert("module"@.len() == 6);
}

/// No field of a `Class` object that is set is the field every object reads as `false`.
proof fn lemma_class_fields_not_tracing()
    ensures
        "classLoader"@ != crate::class_loader::class_file::JFR_TRACING@,
        "module"@ != crate::class_loader::class_file::JFR_TRACING@,
        "name"@ != crate::class_loader::class_file::JFR_TRACING@,
        "componentType"@ != crate::class_loader::class_file::JFR_TRACING@,
{
    reveal_strlit("jfrTracing");
    reveal_strlit("name");
    reveal_strlit("classLoader");
    reveal_strlit("componentType");
    reveal_strlit("module");
    assert(crate::class_loader::class_file::JFR_TRACING@ == "jfrTracing"@);
    assert("jfrTracing"@.len() == 10);
}

impl Heap {
    /// The `Class` object of `classname`: the one made before, or a new one
    /// (after that of its component class, for an array class) with its
    /// `componentType`, its `name` (the binary name, as a string), a `null`
    /// `classLoader` and, for a class that is neither primitive nor an array,
    /// its `module`, together with the object that holds the class's static
    /// state.
    pub fn alloc_class_obj(&mut self, loader: &ClassLoader, classname: &str) -> (r: Result<Type, InternalError>)
        requires
            1 <= old(self).next_obj_ref,
            old(self).next_obj_ref + class_obj_budget(classname@.len(), loader.classes@.len() as nat) <= u32::MAX,
            loader_defaults_ok(loader.classes_view()),
        ensures
            old(self).next_obj_ref <= final(self).next_obj_ref <= old(self).next_obj_ref + class_obj_budget(
                classname@.len(),
                loader.classes@.len() as nat,
            ),
            ref_of(old(self).classes@, classname@) matches Some(x) ==> r == Ok::<Type, InternalError>(Type::ObjectRef(x))
                && final(self).heap@ == old(self).heap@ && final(self).next_obj_ref == old(self).next_obj_ref,
            r is Ok ==> (r matches Ok(Type::ObjectRef(x)) && ref_of(final(self).classes@, classname@) == Some(x) && (ref_of(
                old(self).classes@,
                classname@,
            ) is None ==> object_at(final(self).heap@, x) is Some && old(self).next_obj_ref <= x)),
            ref_of(old(self).classes@, classname@) is None && class_obj_ready(
                loader.classes_view(),
                loader.modulemanager,
                classname@,
            ) ==> r is Ok,
            ref_of(old(self).classes@, classname@) is None ==> (r matches Ok(Type::ObjectRef(x)) ==> (object_at(
                final(self).heap@,
                x,
            ) matches Some(o) && class_object(o, *final(self), loader.classes_view(), loader.modulemanager, classname@))),
            ref_of(old(self).classes@, classname@) is None && !is_array_name(classname@)
                && !crate::types::is_primitive_descriptor(classname@) ==> (r is Ok ==> (ref_of(
                final(self).static_classes@,
                classname@,
            ) matches Some(y) && object_at(final(self).heap@, y) matches Some(so) && new_object(
                so,
                class_named(loader.classes_view(), classname@)->0,
                classname@,
                y,
            ))),
            unchanged_below(old(self).heap@, final(self).heap@, old(self).next_obj_ref),
            refs_below(old(self).heap@, old(self).next_obj_ref) ==> refs_below(final(self).heap@, final(self).next_obj_ref),
        decreases classname@.len(), 1int,
    {
        match self.classes.get(classname) {
            Some(x) => {
                return Ok(Type::ObjectRef(x));
            },
            None => {},
        }
        let ghost c = loader.classes@.len() as nat;
        let ghost n = classname@.len();
        let ghost start = self.next_obj_ref;
        let ghost h0 = self.heap@;
        let is_array = starts_with_char(classname, '[');
        let mut component: Option<Type> = None;
        proof {
            lemma_budget_one(n, c);
        }
        if is_array {
            proof {
                assert(crate::types::element_class(classname@) is Some);
                let m = crate::types::element_class(classname@)->0.len();
                assert(m < n);
                lemma_budget(n, m, c);
            }
            let comp = self.get_component_type(loader, classname)?;
            component = Some(comp);
        }
        let ghost h1 = self.heap@;
        let ghost next1 = self.next_obj_ref;
        let ghost cs = loader.classes_view();
        let ghost mm = loader.modulemanager;
        let ghost e = crate::types::element_class(classname@)->0;
        proof {
            lemma_class_field_names();
            lemma_class_fields_not_tracing();
            if is_array {
                assert(e.len() < classname@.len());
            }
        }
        let ghost cls0 = self.classes@;
        let ghost st0 = self.strings@;
        let dotted = class_to_dotclass(classname);
        let string = self.alloc_string(loader, dotted.as_str())?;
        let ghost sr = match string {
            Type::ObjectRef(y) => y,
            _ => 0,
        };
        assert(string == Type::ObjectRef(sr) && ref_of(self.strings@, dotted@) == Some(sr)) by {
            if ref_of(st0, dotted@) is None {
                lemma_ref_of_record(st0, dotted@, sr);
            }
        }
        let ghost next2 = self.next_obj_ref;
        let obj_ref = self.alloc_obj(loader, "java/lang/Class")?.as_ref()?;
        let ghost h2 = self.heap@;
        let ghost f0 = object_at(h2, obj_ref)->0.fields@;
        proof {
            if class_obj_ready(cs, mm, classname@) {
                assert(lookup(f0, "classLoader"@) is Some);
                assert(!is_array && !crate::types::is_primitive_descriptor(classname@) ==> lookup(f0, "module"@) is Some);
            }
        }
        let ghost f1 = f0;
        match component {
            Some(comp) => {
                self.set_own_field(obj_ref, "componentType", comp);
                proof {
                    f1 = store(f0, "componentType"@, comp);
                    lemma_lookup_store_other(f0, "componentType"@, "classLoader"@, comp);
                    lemma_lookup_store_other(f0, "componentType"@, "module"@, comp);
                }
            },
            None => {},
        }
        assert(object_at(self.heap@, obj_ref)->0.fields@ == f1);
        self.set_own_field(obj_ref, "name", string);
        let ghost f2 = store(f1, "name"@, string);
        proof {
            lemma_lookup_store_other(f1, "name"@, "classLoader"@, string);
            lemma_lookup_store_other(f1, "name"@, "module"@, string);
            lemma_lookup_store_other(f1, "name"@, "componentType"@, string);
            lemma_lookup_store_same(f1, "name"@, string);
        }
        let ghost o2 = object_at(self.heap@, obj_ref)->0;
        assert(o2.fields@ == f2);
        proof {
            if class_obj_ready(cs, mm, classname@) {
                assert(lookup(f2, "classLoader"@) is Some);
                assert(holds_field(o2, "classLoader"@));
            }
        }
        self.put_field_in(obj_ref, "classLoader", Type::Null)?;
        let ghost o3 = object_at(self.heap@, obj_ref)->0;
        proof {
            assert(put_into(o2, o3, "classLoader"@, Type::Null));
            lemma_put_field_reads(o2, o3, "classLoader"@, Type::Null);
            lemma_put_own_other(o2, o3, "classLoader"@, "name"@, Type::Null);
            lemma_put_own_other(o2, o3, "classLoader"@, "componentType"@, Type::Null);
            lemma_put_own_other(o2, o3, "classLoader"@, "module"@, Type::Null);
        }
        if !Type::is_primitive(classname) && !is_array {
            let module = loader.modulemanager.get_module_by_class(classname)?;
            let module_ref = module.get_obj_ref();
            assert(module_of(mm, classname@) == Some(module_ref));
            proof {
                if class_obj_ready(cs, mm, classname@) {
                    assert(lookup(o3.fields@, "module"@) is Some);
                    assert(holds_field(o3, "module"@));
                }
            }
            self.put_field_in(obj_ref, "module", Type::ObjectRef(module_ref))?;
            let ghost o4 = object_at(self.heap@, obj_ref)->0;
            proof {
                assert(put_into(o3, o4, "module"@, Type::ObjectRef(module_ref)));
                lemma_put_field_reads(o3, o4, "module"@, Type::ObjectRef(module_ref));
                lemma_put_field_other(o3, o4, "module"@, "classLoader"@, Type::ObjectRef(module_ref));
                lemma_put_own_other(o3, o4, "module"@, "name"@, Type::ObjectRef(module_ref));
                lemma_put_own_other(o3, o4, "module"@, "componentType"@, Type::ObjectRef(module_ref));
            }
        }
        let ghost o5 = object_at(self.heap@, obj_ref)->0;
        assert(o5.classname@ == class_named(cs, "java/lang/Class"@)->0.this_class_name);
        assert(ref_of(self.strings@, replace_char(classname@, '/', '.')) == Some(sr));
        assert(own_field(o5, "name"@, Type::ObjectRef(sr)));
        assert(field_of(o5, "classLoader"@) == Some(Type::Null));
        assert(is_array ==> (ref_of(self.classes@, e) matches Some(c) && own_field(o5, "componentType"@, Type::ObjectRef(c))));
        assert(class_object(o5, *self, cs, mm, classname@));
        let ghost cls = self.classes@;
        self.classes.insert(classname, obj_ref);
        proof {
            lemma_ref_of_record(cls, classname@, obj_ref);
            if is_array {
                lemma_ref_of_record_other(cls, classname@, e, obj_ref);
            }
        }
        assert(class_object(o5, *self, cs, mm, classname@));
        if !Type::is_primitive(classname) && !is_array {
            let ghost h4 = self.heap@;
            let static_class_obj_ref = self.alloc_obj(loader, classname)?.as_ref()?;
            let ghost st = self.static_classes@;
            self.static_classes.insert(classname, static_class_obj_ref);
            proof {
                lemma_ref_of_record(st, classname@, static_class_obj_ref);
                assert(instance_at(self.heap@, obj_ref) == instance_at(h4, obj_ref));
            }
        }
        Ok(Type::ObjectRef(obj_ref))
    }

    /// The `Class` object of the component class of the array class
    /// `classname` (made if needed; the component class must be loaded unless
    /// it is primitive).
    pub fn get_component_type(&mut self, loader: &ClassLoader, classname: &str) -> (r: Result<Type, InternalError>)
        requires
            crate::types::element_class(classname@) is Some,
            1 <= old(self).next_obj_ref,
            old(self).next_obj_ref + class_obj_budget(
                crate::types::element_class(classname@)->0.len(),
                loader.classes@.len() as nat,
            ) <= u32::MAX,
            loader_defaults_ok(loader.classes_view()),
        ensures
            old(self).next_obj_ref <= final(self).next_obj_ref <= old(self).next_obj_ref + class_obj_budget(
                crate::types::element_class(classname@)->0.len(),
                loader.classes@.len() as nat,
            ),
            r is Ok ==> (r matches Ok(Type::ObjectRef(x)) && ref_of(
                final(self).classes@,
                crate::types::element_class(classname@)->0,
            ) == Some(x)),
            ({
                let comp = crate::types::element_class(classname@)->0;
                let known = crate::types::is_primitive_descriptor(comp) || class_named(loader.classes_view(), comp) is Some;
                &&& r is Ok ==> known
                &&& known && class_obj_ready(loader.classes_view(), loader.modulemanager, comp) ==> r is Ok
                &&& ref_of(old(self).classes@, comp) matches Some(x) ==> final(self).heap@ == old(self).heap@
                    && final(self).next_obj_ref == old(self).next_obj_ref && if known {
                    r == Ok::<Type, InternalError>(Type::ObjectRef(x))
                } else {
                    r matches Err(InternalError::ClassNotFound(a)) && a@ == slashed(comp)
                }
            }),
            unchanged_below(old(self).heap@, final(self).heap@, old(self).next_obj_ref),
            refs_below(old(self).heap@, old(self).next_obj_ref) ==> refs_below(final(self).heap@, final(self).next_obj_ref),
        decreases crate::types::element_class(classname@)->0.len(), 2int,
    {
        let comp_type = Type::convert_array_descriptor_to_class_type(classname);
        let class_ref = self.alloc_class_obj(loader, comp_type.as_str())?.as_ref()?;
        if !Type::is_primitive(comp_type.as_str()) {
            let _ = loader.get(comp_type.as_str())?;
        }
        Ok(Type::ObjectRef(class_ref))
    }
}

impl Heap {
    /// The `Class` object of `classname` (made if needed).
    pub fn get_class_instance(&mut self, loader: &ClassLoader, classname: &str) -> (r: Result<&ObjectInstance, InternalError>)
        requires
            1 <= old(self).next_obj_ref,
            old(self).next_obj_ref + class_obj_budget(classname@.len(), loader.classes@.len() as nat) <= u32::MAX,
            loader_defaults_ok(loader.classes_view()),
        ensures
            r matches Ok(o) ==> (ref_of(final(self).classes@, classname@) matches Some(x) && object_at(final(self).heap@, x)
                == Some(*o)),
            ref_of(old(self).classes@, classname@) matches Some(x) ==> final(self).heap@ == old(self).heap@ && match object_at(
                old(self).heap@,
                x,
            ) {
                Some(o) => r == Ok::<&ObjectInstance, InternalError>(&o),
                None => r is Err,
            },
            ref_of(old(self).classes@, classname@) is None && class_obj_ready(
                loader.classes_view(),
                loader.modulemanager,
                classname@,
            ) ==> r is Ok,
            ref_of(old(self).classes@, classname@) is None ==> (r matches Ok(o) ==> class_object(
                *o,
                *final(self),
                loader.classes_view(),
                loader.modulemanager,
                classname@,
            )),
            final(self).next_obj_ref <= old(self).next_obj_ref + class_obj_budget(classname@.len(), loader.classes@.len() as nat),
            old(self).next_obj_ref <= final(self).next_obj_ref,
            unchanged_below(old(self).heap@, final(self).heap@, old(self).next_obj_ref),
            refs_below(old(self).heap@, old(self).next_obj_ref) ==> refs_below(final(self).heap@, final(self).next_obj_ref),
    {
        if !self.has_class_instance(classname) {
            self.alloc_class_obj(loader, classname)?;
        }
        let class_ref = match self.classes.get(classname) {
            Some(x) => x,
            None => {
                return Err(InternalError::ClassNotFound(classname.to_string()));
            },
        };
        let o = self.get_obj_instance(class_ref)?;
        Ok(o)
    }

    /// The `Class` object of the primitive type `classname` (made if needed):
    /// its `name` (the type's name, as a string), a `null` `classLoader`, and
    /// the module of `java/lang/Integer`.
    pub fn alloc_primitive_class_obj(&mut self, loader: &ClassLoader, classname: &str) -> (r: Result<Type, InternalError>)
        requires
            1 <= old(self).next_obj_ref,
            old(self).next_obj_ref + 2 * loader.classes@.len() + 3 <= u32::MAX,
            loader_defaults_ok(loader.classes_view()),
        ensures
            ref_of(old(self).classes@, classname@) matches Some(x) ==> r == Ok::<Type, InternalError>(Type::ObjectRef(x))
                && final(self).heap@ == old(self).heap@ && final(self).next_obj_ref == old(self).next_obj_ref,
            r is Ok ==> (r matches Ok(Type::ObjectRef(x)) && ref_of(final(self).classes@, classname@) == Some(x) && (ref_of(
                old(self).classes@,
                classname@,
            ) is None ==> object_at(final(self).heap@, x) is Some && old(self).next_obj_ref <= x)),
            ref_of(old(self).classes@, classname@) is None && primitive_class_obj_ready(
                loader.classes_view(),
                loader.modulemanager,
            ) ==> r is Ok,
            ref_of(old(self).classes@, classname@) is None ==> (r matches Ok(Type::ObjectRef(x)) ==> (object_at(
                final(self).heap@,
                x,
            ) matches Some(o) && primitive_class_object(o, *final(self), loader.classes_view(), loader.modulemanager, classname@))),
            final(self).static_classes == old(self).static_classes,
            old(self).next_obj_ref <= final(self).next_obj_ref,
            unchanged_below(old(self).heap@, final(self).heap@, old(self).next_obj_ref),
            refs_below(old(self).heap@, old(self).next_obj_ref) ==> refs_below(final(self).heap@, final(self).next_obj_ref),
    {
        match self.classes.get(classname) {
            Some(x) => {
                return Ok(Type::ObjectRef(x));
            },
            None => {},
        }
        let ghost cs = loader.classes_view();
        let ghost mm = loader.modulemanager;
        proof {
            lemma_class_field_names();
            lemma_class_fields_not_tracing();
        }
        let ghost st0 = self.strings@;
        let dotted = class_to_dotclass(classname);
        let name_ref = self.alloc_string(loader, dotted.as_str())?;
        let ghost sr = match name_ref {
            Type::ObjectRef(y) => y,
            _ => 0,
        };
        assert(name_ref == Type::ObjectRef(sr) && ref_of(self.strings@, dotted@) == Some(sr)) by {
            if ref_of(st0, dotted@) is None {
                lemma_ref_of_record(st0, dotted@, sr);
            }
        }
        let obj_ref = self.alloc_obj(loader, "java/lang/Class")?.as_ref()?;
        let ghost f0 = object_at(self.heap@, obj_ref)->0.fields@;
        self.set_own_field(obj_ref, "name", name_ref);
        let ghost o2 = object_at(self.heap@, obj_ref)->0;
        proof {
            lemma_lookup_store_other(f0, "name"@, "classLoader"@, name_ref);
            lemma_lookup_store_other(f0, "name"@, "module"@, name_ref);
            if primitive_class_obj_ready(cs, mm) {
                assert(holds_field(o2, "classLoader"@));
            }
        }
        self.put_field_in(obj_ref, "classLoader", Type::Null)?;
        let ghost o3 = object_at(self.heap@, obj_ref)->0;
        proof {
            lemma_put_field_reads(o2, o3, "classLoader"@, Type::Null);
            lemma_put_own_other(o2, o3, "classLoader"@, "name"@, Type::Null);
            lemma_put_own_other(o2, o3, "classLoader"@, "module"@, Type::Null);
            if primitive_class_obj_ready(cs, mm) {
                assert(holds_field(o3, "module"@));
            }
        }
        let module = loader.modulemanager.get_module_by_class("java/lang/Integer")?;
        let module_ref = module.get_obj_ref();
        assert(module_of(mm, "java/lang/Integer"@) == Some(module_ref));
        self.put_field_in(obj_ref, "module", Type::ObjectRef(module_ref))?;
        let ghost o4 = object_at(self.heap@, obj_ref)->0;
        proof {
            lemma_put_field_reads(o3, o4, "module"@, Type::ObjectRef(module_ref));
            lemma_put_field_other(o3, o4, "module"@, "classLoader"@, Type::ObjectRef(module_ref));
            lemma_put_own_other(o3, o4, "module"@, "name"@, Type::ObjectRef(module_ref));
        }
        assert(primitive_class_object(o4, *self, cs, mm, classname@));
        let ghost cls = self.classes@;
        self.classes.insert(classname, obj_ref);
        proof {
            lemma_ref_of_record(cls, classname@, obj_ref);
        }
        Ok(Type::ObjectRef(obj_ref))
    }
}

/// Whether arrays of class `c` with `depth` dimensions can be made: each level
/// has an element class, and the innermost has a default value.
pub open spec fn multi_ok(c: Seq<char>, depth: nat) -> bool
    decreases depth,
{
    match crate::types::element_class(c) {
        Some(e) => if depth <= 1 {
            default_value_of(e) is Some
        } else {
            multi_ok(e, (depth - 1) as nat)
        },
        None => false,
    }
}

/// The references that making a multi-dimensional array with dimensions `dims`
/// takes (a reference is taken at each level before the arrays inside).
pub open spec fn multi_count(dims: Seq<usize>) -> nat
    decreases dims.len(),
{
    if dims.len() <= 1 {
        2
    } else {
        1 + (dims[0] as nat) * multi_count(dims.subrange(1, dims.len() as int))
    }
}

impl Heap {
    /// Makes a multi-dimensional array of class `classname` (such as `[[I`)
    /// with dimensions `dims` (at least one): the array of the first dimension,
    /// whose elements are arrays made the same way for the other dimensions;
    /// the innermost arrays hold default values.
    pub fn alloc_multiarray(&mut self, classname: &str, dims: &[usize]) -> (r: Result<Type, InternalError>)
        requires
            1 <= old(self).next_obj_ref,
            dims@.len() >= 1,
            multi_ok(classname@, dims@.len() as nat),
            old(self).next_obj_ref + multi_count(dims@) <= u32::MAX,
        ensures
            final(self).next_obj_ref == old(self).next_obj_ref + multi_count(dims@),
            dims@.len() == 1 ==> r == Ok::<Type, InternalError>(Type::ArrayRef((old(self).next_obj_ref + 1) as ju4)),
            dims@.len() > 1 ==> r == Ok::<Type, InternalError>(Type::ArrayRef(old(self).next_obj_ref)),
            r matches Ok(Type::ArrayRef(x)) && array_at(final(self).heap@, x) matches Some(a) && a.classname@
                == array_class_of(crate::types::element_class(classname@)->0) && a.elements@.len() == dims@[0],
            unchanged_below(old(self).heap@, final(self).heap@, old(self).next_obj_ref),
            refs_below(old(self).heap@, old(self).next_obj_ref) ==> refs_below(final(self).heap@, final(self).next_obj_ref),
            final(self).classes == old(self).classes,
            final(self).static_classes == old(self).static_classes,
            final(self).strings == old(self).strings,
        decreases dims@.len(),
    {
        let curr_array_ref = self.get_next_obj_ref();
        let classname = Type::convert_array_descriptor_to_class_type(classname);
        if dims.len() == 1 {
            let ghost h = self.heap@;
            let r = self.alloc_array(classname.as_str(), Vec::new(), dims[0]);
            proof {
                assert forall|x: ju4| x < old(self).next_obj_ref implies #[trigger] instance_at(self.heap@, x) == instance_at(
                    h,
                    x,
                ) by {}
            }
            return r;
        }
        let first_dim = dims[0];
        let rest_dims = vstd::slice::slice_subrange(dims, 1, dims.len());
        let ghost rest = dims@.subrange(1, dims@.len() as int);
        let ghost per = multi_count(rest);
        let ghost start = old(self).next_obj_ref;
        assert(rest_dims@ == rest);
        let mut elements: Vec<Type> = Vec::new();
        let mut i: usize = 0;
        while i < first_dim
            invariant
                i <= first_dim,
                first_dim == dims@[0],
                rest_dims@ == rest,
                rest.len() >= 1,
                rest.len() < dims@.len(),
                multi_ok(classname@, rest.len() as nat),
                per == multi_count(rest),
                start + multi_count(dims@) <= u32::MAX,
                multi_count(dims@) == 1 + first_dim * per,
                self.next_obj_ref == start + 1 + i * per,
                elements@.len() == i,
                unchanged_below(old(self).heap@, self.heap@, start),
                refs_below(old(self).heap@, start) ==> refs_below(self.heap@, self.next_obj_ref),
                self.classes == old(self).classes,
                self.static_classes == old(self).static_classes,
                self.strings == old(self).strings,
            decreases first_dim - i,
        {
            proof {
                assert((i + 1) * per <= first_dim * per) by (nonlinear_arith)
                    requires
                        i + 1 <= first_dim,
                ;
                assert((i + 1) * per == i * per + per) by (nonlinear_arith);
            }
            let ghost h = self.heap@;
            let element = self.alloc_multiarray(classname.as_str(), rest_dims)?;
            proof {
                assert forall|x: ju4| x < start implies #[trigger] instance_at(self.heap@, x) == instance_at(
                    old(self).heap@,
                    x,
                ) by {
                    assert(instance_at(self.heap@, x) == instance_at(h, x));
                }
            }
            elements.push(element);
            i = i + 1;
        }
        proof {
            assert(i * per == first_dim * per);
        }
        let ghost h = self.heap@;
        let array = ArrayInstance::new(classname.as_str(), curr_array_ref, elements);
        self.put(curr_array_ref, Instance::ArrayInstance(array));
        proof {
            assert forall|x: ju4| x < start implies #[trigger] instance_at(self.heap@, x) == instance_at(
                old(self).heap@,
                x,
            ) by {
                assert(instance_at(self.heap@, x) == instance_at(h, x));
            }
        }
        Ok(Type::ArrayRef(curr_array_ref))
    }
}

} // verus!
