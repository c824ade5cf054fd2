use vstd::prelude::*;

use crate::class_loader::attribute_info::Code;
use crate::class_loader::attribute_info::{AttributeInfoInfoEnum, AttributeKind, CodeView};
use crate::class_loader::class_file::{ClassFile, ClassFileView, JFR_TRACING};
use crate::class_loader::constant_pool::{cp_field_ref, cp_method_handle, cp_method_ref, cp_method_type, cp_name};
use crate::class_loader::fields::{FieldInfo, FieldInfoView, field_views};
use crate::class_loader::static_fields::{lookup, store};
use crate::types::Type;
use crate::class_loader::fields::ACC_STATIC;
use crate::class_loader::methods::ACC_NATIVE;
use crate::class_loader::interfaces::texts;
use crate::class_loader::methods::{MethodInfo, MethodInfoView, method_views};
use crate::errors::InternalError;
use crate::modulemanager::ModuleManager;
use crate::text::{starts_with_char, str_eq};
use crate::utils::{dotclass_to_class, slashed};

verus! {

/// The classes that the machine has loaded, each under the name it was loaded
/// by, and the modules they belong to.
#[derive(Debug)]
pub struct ClassLoader {
    pub modulemanager: ModuleManager,
    pub classes: Vec<(String, ClassFile)>,
}

/// The loaded classes as names and class contents.
pub open spec fn loaded(v: Seq<(String, ClassFile)>) -> Seq<(Seq<char>, ClassFileView)> {
    v.map_values(|e: (String, ClassFile)| (e.0@, e.1@))
}

/// The position of the first class at or after `i` loaded under `name`.
pub open spec fn find_class(cs: Seq<(Seq<char>, ClassFileView)>, name: Seq<char>, i: int) -> Option<int>
    decreases cs.len() - i,
{
    if i < 0 || i >= cs.len() {
        None
    } else if cs[i].0 == name {
        Some(i)
    } else {
        find_class(cs, name, i + 1)
    }
}

/// The class that `name` (in binary or internal form) designates among `cs`.
pub open spec fn class_named(cs: Seq<(Seq<char>, ClassFileView)>, name: Seq<char>) -> Option<ClassFileView> {
    match find_class(cs, slashed(name), 0) {
        Some(k) => Some(cs[k].1),
        None => None,
    }
}

/// Whether a class has a superclass.
pub open spec fn has_super(c: ClassFileView) -> bool {
    c.super_class_name.len() != 0
}

/// The outcome of a search that walks up from a class through its superclasses:
/// what was found, the name of a class that is not loaded, nothing, or a chain
/// of superclasses that comes back on itself.
pub enum Search<T> {
    Found(T),
    NoClass(Seq<char>),
    NotFound(Seq<char>),
    Circular(Seq<char>),
}

/// Whether a method is the one searched for: it has code unless abstract
/// methods are accepted, it has the name, and it has the descriptor (or, where
/// `poly` holds, a polymorphic signature).
pub open spec fn method_fits(m: MethodInfoView, name: Seq<char>, ty: Seq<char>, any: bool, poly: bool) -> bool {
    &&& any || m.has_code
    &&& m.name == name
    &&& (poly && m.has_polymorphic_signature) || m.descriptor == ty
}

/// The position of the first method at or after `i` that fits.
pub open spec fn first_fit(ms: Seq<MethodInfoView>, name: Seq<char>, ty: Seq<char>, any: bool, poly: bool, i: int) -> Option<int>
    decreases ms.len() - i,
{
    if i < 0 || i >= ms.len() {
        None
    } else if method_fits(ms[i], name, ty, any, poly) {
        Some(i)
    } else {
        first_fit(ms, name, ty, any, poly, i + 1)
    }
}

/// The search of the direct interfaces `ifaces` from the `j`-th on, whose
/// methods are numbered from `base` on: the interface and method found with its
/// number, or the first interface that is not loaded; `None` when no interface
/// has the method.
pub open spec fn interface_search(
    cs: Seq<(Seq<char>, ClassFileView)>,
    ifaces: Seq<Seq<char>>,
    j: int,
    base: int,
    name: Seq<char>,
    ty: Seq<char>,
    any: bool,
) -> Option<Search<(Seq<char>, MethodInfoView, int)>>
    decreases ifaces.len() - j,
{
    if j < 0 || j >= ifaces.len() {
        None
    } else {
        match class_named(cs, ifaces[j]) {
            None => Some(Search::NoClass(slashed(ifaces[j]))),
            Some(c) => match first_fit(c.methods, name, ty, any, false, 0) {
                Some(p) => Some(Search::Found((ifaces[j], c.methods[p], base + p))),
                None => interface_search(cs, ifaces, j + 1, base + c.methods.len(), name, ty, any),
            },
        }
    }
}

/// The search for a method from the class `classname` up: in the class itself
/// (numbered from 0; a static method or a constructor gets -1), then in its
/// direct interfaces (numbered on after the class's methods), then from its
/// superclass on, with `fuel` steps up allowed.
pub open spec fn method_search(
    cs: Seq<(Seq<char>, ClassFileView)>,
    classname: Seq<char>,
    name: Seq<char>,
    ty: Seq<char>,
    any: bool,
    fuel: nat,
) -> Search<(Seq<char>, MethodInfoView, int)>
    decreases fuel,
{
    match class_named(cs, classname) {
        None => Search::NoClass(slashed(classname)),
        Some(c) => match first_fit(c.methods, name, ty, any, true, 0) {
            Some(p) => Search::Found(
                (
                    classname,
                    c.methods[p],
                    if c.methods[p].access_flags & ACC_STATIC != 0 || name == "<init>"@ {
                        -1
                    } else {
                        p
                    },
                ),
            ),
            None => match interface_search(cs, c.interfaces, 0, c.methods.len() as int, name, ty, any) {
                Some(r) => r,
                None => if !has_super(c) {
                    Search::NotFound(classname)
                } else if fuel == 0 {
                    Search::Circular(classname)
                } else {
                    method_search(cs, c.super_class_name, name, ty, any, (fuel - 1) as nat)
                },
            },
        },
    }
}

/// Whether `r` is the result of a method search with outcome `s`, for the
/// method `name` with descriptor `ty`. A method number
/// past the range of `i32` is reported as an error.
pub open spec fn method_result(
    s: Search<(Seq<char>, MethodInfoView, int)>,
    r: Result<(String, &MethodInfo, i32), InternalError>,
    name: Seq<char>,
    ty: Seq<char>,
) -> bool {
    match s {
        Search::Found((c, m, i)) => if i <= i32::MAX {
            r matches Ok((a, b, k)) && a@ == c && b@ == m && k == i
        } else {
            r matches Err(InternalError::General(_))
        },
        Search::NoClass(n) => r matches Err(InternalError::ClassNotFound(a)) && a@ == n,
        Search::NotFound(c) => r matches Err(InternalError::MethodNotFound(a, b, d)) && a@ == c && b@ == name && d@ == ty,
        Search::Circular(n) => r matches Err(InternalError::ClassCircularity(a)) && a@ == n,
    }
}

impl ClassLoader {
    /// The loaded classes as names and class contents.
    pub open spec fn classes_view(&self) -> Seq<(Seq<char>, ClassFileView)> {
        loaded(self.classes@)
    }

    /// A loader with no class and no module.
    pub fn new() -> (r: ClassLoader)
        ensures
            r.classes@.len() == 0,
            r.modulemanager.modules@.len() == 0,
            r.modulemanager.rev_mapping@.len() == 0,
    {
        ClassLoader { modulemanager: ModuleManager::new(), classes: Vec::new() }
    }

    /// The position of the class loaded under `name`.
    fn position(&self, name: &str) -> (r: Option<usize>)
        ensures
            match r {
                Some(k) => find_class(self.classes_view(), name@, 0) == Some(k as int) && k < self.classes@.len(),
                None => find_class(self.classes_view(), name@, 0) is None,
            },
    {
        let ghost cs = self.classes_view();
        let mut k: usize = 0;
        while k < self.classes.len()
            invariant
                cs == self.classes_view(),
                k <= self.classes@.len(),
                find_class(cs, name@, 0) == find_class(cs, name@, k as int),
            decreases self.classes@.len() - k,
        {
            assert(cs[k as int].0 == self.classes@[k as int].0@);
            if str_eq(self.classes[k].0.as_str(), name) {
                return Some(k);
            }
            k = k + 1;
        }
        None
    }

    /// Records `class_file` as the class loaded under `classname`, in place of a
    /// class loaded under that name before.
    pub fn add_class_file(&mut self, classname: &str, class_file: ClassFile)
        ensures
            match find_class(old(self).classes_view(), classname@, 0) {
                Some(k) => final(self).classes_view() == old(self).classes_view().update(k, (classname@, class_file@)),
                None => final(self).classes_view() == old(self).classes_view().push((classname@, class_file@)),
            },
            final(self).modulemanager == old(self).modulemanager,
    {
        let ghost entry = (classname@, class_file@);
        match self.position(classname) {
            Some(k) => {
                self.classes.set(k, (classname.to_string(), class_file));
                assert(self.classes_view() =~= old(self).classes_view().update(k as int, entry));
            },
            None => {
                self.classes.push((classname.to_string(), class_file));
                assert(self.classes_view() =~= old(self).classes_view().push(entry));
            },
        }
    }

    /// Loads the class `name` when it is not loaded yet: an array class is made
    /// here; any other class must be read from its class file, which is not this
    /// library's work, so that case is reported as a class not found.
    pub fn load_class(&mut self, name: &str) -> (r: Result<(), InternalError>)
        ensures
            ({
                let n = slashed(name@);
                &&& find_class(old(self).classes_view(), n, 0) is Some ==> r is Ok && final(self).classes_view()
                    == old(self).classes_view()
                &&& find_class(old(self).classes_view(), n, 0) is None && n.len() > 0 && n[0] == '[' ==> r is Ok
                    && final(self).classes_view().drop_last() == old(self).classes_view()
                    && final(self).classes_view().last().0 == n
                    && final(self).classes_view().last().1.this_class_name == n
                    && final(self).classes_view().last().1.super_class_name == "java/lang/Object"@
                &&& find_class(old(self).classes_view(), n, 0) is None && !(n.len() > 0 && n[0] == '[') ==> (r matches Err(
                    InternalError::ClassNotFound(a),
                ) && a@ == n) && final(self).classes_view() == old(self).classes_view()
            }),
            final(self).modulemanager == old(self).modulemanager,
    {
        let name = dotclass_to_class(name);
        if self.position(name.as_str()).is_some() {
            return Ok(());
        }
        if starts_with_char(name.as_str(), '[') {
            let class = ClassFile::create_array(name.clone());
            let ghost entry = (name@, class@);
            self.classes.push((name, class));
            assert(self.classes_view() =~= old(self).classes_view().push(entry));
            Ok(())
        } else {
            Err(InternalError::ClassNotFound(name))
        }
    }

    /// The class that `name` designates (dots are read as slashes), if it is loaded.
    pub fn get(&self, name: &str) -> (r: Result<&ClassFile, InternalError>)
        ensures
            match find_class(self.classes_view(), slashed(name@), 0) {
                Some(k) => r == Ok::<&ClassFile, InternalError>(&self.classes@[k].1),
                None => (r matches Err(InternalError::ClassNotFound(a)) && a@ == slashed(name@)),
            },
    {
        let name = dotclass_to_class(name);
        match self.position(name.as_str()) {
            Some(k) => Ok(&self.classes[k].1),
            None => Err(InternalError::ClassNotFound(name)),
        }
    }
}

/// The loaded classes once the class at position `k` has `value` in its static
/// field `name`.
pub open spec fn with_static(cs: Seq<(Seq<char>, ClassFileView)>, k: int, name: Seq<char>, value: Type) -> Seq<(Seq<char>, ClassFileView)> {
    cs.update(k, (cs[k].0, ClassFileView { static_fields: store(cs[k].1.static_fields, name, value), ..cs[k].1 }))
}

/// The loaded classes once the class at position `k` is marked initialized.
pub open spec fn with_init(cs: Seq<(Seq<char>, ClassFileView)>, k: int) -> Seq<(Seq<char>, ClassFileView)> {
    cs.update(k, (cs[k].0, ClassFileView { is_init: true, ..cs[k].1 }))
}

/// The class to initialize next so that `name` ends up initialized: none when
/// it is initialized; otherwise the highest class of the chain of
/// uninitialized classes that starts at `name` and goes up through
/// superclasses (a superclass is initialized before its subclasses), with
/// `fuel` steps up allowed.
pub open spec fn init_next(cs: Seq<(Seq<char>, ClassFileView)>, name: Seq<char>, fuel: nat) -> Search<Option<Seq<char>>>
    decreases fuel,
{
    match class_named(cs, name) {
        None => Search::NoClass(slashed(name)),
        Some(c) => if c.is_init {
            Search::Found(None)
        } else if !has_super(c) {
            Search::Found(Some(name))
        } else if fuel == 0 {
            Search::Circular(name)
        } else {
            match init_next(cs, c.super_class_name, (fuel - 1) as nat) {
                Search::Found(None) => Search::Found(Some(name)),
                other => other,
            }
        },
    }
}

impl ClassLoader {
    /// Stores `value` in the static field `field_name` of the class
    /// `classname` itself.
    pub fn put_static_field(&mut self, classname: &str, field_name: &str, value: Type) -> (r: Result<(), InternalError>)
        ensures
            match find_class(old(self).classes_view(), slashed(classname@), 0) {
                Some(k) => r is Ok && final(self).classes_view() == with_static(
                    old(self).classes_view(),
                    k,
                    field_name@,
                    value,
                ),
                None => (r matches Err(InternalError::ClassNotFound(a)) && a@ == slashed(classname@))
                    && final(self).classes_view() == old(self).classes_view(),
            },
            final(self).modulemanager == old(self).modulemanager,
    {
        let name = dotclass_to_class(classname);
        match self.position(name.as_str()) {
            Some(k) => {
                let ghost before = self.classes_view();
                let _ = self.classes[k].1.put_static_field(field_name, value);
                assert(self.classes_view() =~= with_static(before, k as int, field_name@, value));
                Ok(())
            },
            None => Err(InternalError::ClassNotFound(name)),
        }
    }

    /// Marks the class `classname` as initialized.
    pub fn mark_init(&mut self, classname: &str) -> (r: Result<(), InternalError>)
        ensures
            match find_class(old(self).classes_view(), slashed(classname@), 0) {
                Some(k) => r is Ok && final(self).classes_view() == with_init(old(self).classes_view(), k),
                None => (r matches Err(InternalError::ClassNotFound(a)) && a@ == slashed(classname@))
                    && final(self).classes_view() == old(self).classes_view(),
            },
            final(self).modulemanager == old(self).modulemanager,
    {
        let name = dotclass_to_class(classname);
        match self.position(name.as_str()) {
            Some(k) => {
                let ghost before = self.classes_view();
                self.classes[k].1.init();
                assert(self.classes_view() =~= with_init(before, k as int));
                Ok(())
            },
            None => Err(InternalError::ClassNotFound(name)),
        }
    }

    /// The class to initialize next so that `classname` ends up initialized
    /// (none when it is), with `fuel` steps up allowed.
    fn init_next_from(&self, classname: &str, fuel: usize) -> (r: Result<Option<String>, InternalError>)
        ensures
            match init_next(self.classes_view(), classname@, fuel as nat) {
                Search::Found(None) => r matches Ok(None),
                Search::Found(Some(n)) => (r matches Ok(Some(a)) && a@ == n),
                s => (r matches Err(e) && search_error(s, e, InternalError::FieldNotFound)),
            },
        decreases fuel,
    {
        proof {
            self.lemma_get(classname@);
        }
        let class = self.get(classname)?;
        if class.get_init() {
            return Ok(None);
        }
        if !class.has_parent() {
            return Ok(Some(classname.to_string()));
        }
        if fuel == 0 {
            return Err(InternalError::ClassCircularity(classname.to_string()));
        }
        match self.init_next_from(class.get_parent_name(), fuel - 1)? {
            None => Ok(Some(classname.to_string())),
            Some(n) => Ok(Some(n)),
        }
    }

    /// The class to initialize next so that `classname` ends up initialized:
    /// none when it is initialized, otherwise the highest of the chain of
    /// uninitialized classes from it up through its superclasses. Initializing
    /// the classes it gives, one after the other, initializes each superclass
    /// before its subclasses.
    pub fn next_class_to_init(&self, classname: &str) -> (r: Result<Option<String>, InternalError>)
        ensures
            match init_next(self.classes_view(), classname@, self.classes@.len() as nat) {
                Search::Found(None) => r matches Ok(None),
                Search::Found(Some(n)) => (r matches Ok(Some(a)) && a@ == n),
                s => (r matches Err(e) && search_error(s, e, InternalError::FieldNotFound)),
            },
    {
        self.init_next_from(classname, self.classes.len())
    }
}

/// What `find_class` finds is a class loaded under the name.
proof fn lemma_find_class(cs: Seq<(Seq<char>, ClassFileView)>, name: Seq<char>, i: int)
    ensures
        find_class(cs, name, i) matches Some(k) ==> 0 <= k < cs.len() && cs[k].0 == name,
    decreases cs.len() - i,
{
    if 0 <= i < cs.len() && cs[i].0 != name {
        lemma_find_class(cs, name, i + 1);
    }
}

/// What `first_fit` finds is a method of the sequence that fits.
proof fn lemma_first_fit(ms: Seq<MethodInfoView>, name: Seq<char>, ty: Seq<char>, any: bool, poly: bool, i: int)
    ensures
        first_fit(ms, name, ty, any, poly, i) matches Some(p) ==> 0 <= p < ms.len() && method_fits(
            ms[p],
            name,
            ty,
            any,
            poly,
        ),
    decreases ms.len() - i,
{
    if 0 <= i < ms.len() && !method_fits(ms[i], name, ty, any, poly) {
        lemma_first_fit(ms, name, ty, any, poly, i + 1);
    }
}

impl ClassLoader {
    /// The class that `get` gives is the one that `class_named` designates.
    pub proof fn lemma_get(&self, name: Seq<char>)
        ensures
            match find_class(self.classes_view(), slashed(name), 0) {
                Some(k) => 0 <= k < self.classes@.len() && class_named(self.classes_view(), name) == Some(
                    self.classes@[k].1@,
                ),
                None => class_named(self.classes_view(), name) is None,
            },
    {
        lemma_find_class(self.classes_view(), slashed(name), 0);
    }
}

/// The `Code` attribute of a method: the attribute at its recorded position, when
/// it has code and that attribute is there and is a `Code` attribute.
pub open spec fn method_code(m: MethodInfoView) -> Option<CodeView> {
    if m.has_code && 0 <= m.code_index < m.attributes.len() {
        match m.attributes[m.code_index].info {
            AttributeKind::Code(c) => Some(c),
            _ => None,
        }
    } else {
        None
    }
}

/// The largest value that a search keeps of a method number: one past `i32::MAX`
/// (every number from there on is reported alike).
pub open spec fn number_cap() -> int {
    i32::MAX + 1
}

/// The position of the first method of `ms` that fits.
fn first_fit_in(ms: &Vec<MethodInfo>, name: &str, ty: &str, any: bool, poly: bool) -> (r: Option<usize>)
    ensures
        match r {
            Some(p) => first_fit(method_views(ms@), name@, ty@, any, poly, 0) == Some(p as int),
            None => first_fit(method_views(ms@), name@, ty@, any, poly, 0) is None,
        },
{
    let ghost v = method_views(ms@);
    let mut i: usize = 0;
    while i < ms.len()
        invariant
            v == method_views(ms@),
            i <= ms@.len(),
            first_fit(v, name@, ty@, any, poly, 0) == first_fit(v, name@, ty@, any, poly, i as int),
        decreases ms@.len() - i,
    {
        let m = &ms[i];
        assert(v[i as int] == m@);
        if (any || m.has_code()) && str_eq(name, m.get_name()) && ((poly && m.has_polymorphic_signature()) || str_eq(
            ty,
            m.get_descriptor(),
        )) {
            return Some(i);
        }
        i = i + 1;
    }
    None
}

impl ClassLoader {
    /// The search through the direct interfaces `ifaces` of a class, whose
    /// methods are numbered on from `base` (kept at most at `number_cap()`).
    fn search_interfaces(
        &self,
        ifaces: &Vec<String>,
        name: &str,
        ty: &str,
        any: bool,
        base: usize,
        Ghost(b): Ghost<int>,
    ) -> (r: Option<Result<(String, &MethodInfo, i32), InternalError>>)
        requires
            0 <= b,
            if b < number_cap() {
                base == b
            } else {
                base == number_cap()
            },
        ensures
            match interface_search(self.classes_view(), texts(ifaces@), 0, b, name@, ty@, any) {
                Some(s) => (r matches Some(x) && method_result(s, x, name@, ty@)),
                None => r is None,
            },
    {
        let ghost cs = self.classes_view();
        let ghost names = texts(ifaces@);
        let mut j: usize = 0;
        let mut cur: usize = base;
        let ghost mut offset: int = 0;
        while j < ifaces.len()
            invariant
                cs == self.classes_view(),
                names == texts(ifaces@),
                j <= ifaces@.len(),
                0 <= offset,
                cur <= number_cap(),
                if b + offset < number_cap() {
                    cur == b + offset
                } else {
                    cur == number_cap()
                },
                interface_search(cs, names, 0, b, name@, ty@, any) == interface_search(
                    cs,
                    names,
                    j as int,
                    b + offset,
                    name@,
                    ty@,
                    any,
                ),
            decreases ifaces@.len() - j,
        {
            let iname = ifaces[j].as_str();
            assert(names[j as int] == iname@);
            proof {
                self.lemma_get(iname@);
            }
            let class = match self.get(iname) {
                Ok(c) => c,
                Err(e) => {
                    return Some(Err(e));
                },
            };
            let methods = class.get_methods();
            proof {
                lemma_first_fit(method_views(methods@), name@, ty@, any, false, 0);
            }
            match first_fit_in(methods, name, ty, any, false) {
                Some(p) => {
                    assert(method_views(methods@)[p as int] == methods@[p as int]@);
                    if cur > i32::MAX as usize || p > i32::MAX as usize - cur {
                        return Some(Err(InternalError::General("method number out of range".to_string())));
                    }
                    let k = (cur + p) as i32;
                    return Some(Ok((iname.to_string(), &methods[p], k)));
                },
                None => {},
            }
            let n = methods.len();
            proof {
                offset = offset + n;
            }
            if cur <= i32::MAX as usize && n <= i32::MAX as usize - cur {
                cur = cur + n;
            } else {
                cur = i32::MAX as usize + 1;
            }
            j = j + 1;
        }
        None
    }

    /// The search for a method from the class `classname` up, with `fuel` steps
    /// up allowed.
    fn method_search_from(&self, classname: &str, name: &str, ty: &str, any: bool, fuel: usize) -> (r: Result<
        (String, &MethodInfo, i32),
        InternalError,
    >)
        ensures
            method_result(method_search(self.classes_view(), classname@, name@, ty@, any, fuel as nat), r, name@, ty@),
        decreases fuel,
    {
        proof {
            self.lemma_get(classname@);
        }
        let class = self.get(classname)?;
        let methods = class.get_methods();
        proof {
            lemma_first_fit(method_views(methods@), name@, ty@, any, true, 0);
        }
        match first_fit_in(methods, name, ty, any, true) {
            Some(p) => {
                assert(method_views(methods@)[p as int] == methods@[p as int]@);
                let m = &methods[p];
                if m.is_static() || str_eq(name, "<init>") {
                    return Ok((classname.to_string(), m, -1));
                }
                if p > i32::MAX as usize {
                    return Err(InternalError::General("method number out of range".to_string()));
                }
                return Ok((classname.to_string(), m, p as i32));
            },
            None => {},
        }
        let n = methods.len();
        let base = if n <= i32::MAX as usize {
            n
        } else {
            i32::MAX as usize + 1
        };
        match self.search_interfaces(class.get_interfaces(), name, ty, any, base, Ghost(n as int)) {
            Some(r) => {
                return r;
            },
            None => {},
        }
        if !class.has_parent() {
            return Err(InternalError::MethodNotFound(classname.to_string(), name.to_string(), ty.to_string()));
        }
        if fuel == 0 {
            return Err(InternalError::ClassCircularity(classname.to_string()));
        }
        self.method_search_from(class.get_parent_name(), name, ty, any, fuel - 1)
    }
}

/// Whether `r` is the method part of a method search with outcome `s`.
pub open spec fn method_pair_result(
    s: Search<(Seq<char>, MethodInfoView, int)>,
    r: Result<(String, &MethodInfo), InternalError>,
    name: Seq<char>,
    ty: Seq<char>,
) -> bool {
    match s {
        Search::Found((c, m, i)) => if i <= i32::MAX {
            r matches Ok((a, b)) && a@ == c && b@ == m
        } else {
            r matches Err(InternalError::General(_))
        },
        Search::NoClass(n) => r matches Err(InternalError::ClassNotFound(a)) && a@ == n,
        Search::NotFound(c) => r matches Err(InternalError::MethodNotFound(a, b, d)) && a@ == c && b@ == name && d@ == ty,
        Search::Circular(n) => r matches Err(InternalError::ClassCircularity(a)) && a@ == n,
    }
}

/// Whether `e` reports the failed method search `s`.
pub open spec fn method_search_error<T>(s: Search<T>, e: InternalError, name: Seq<char>, ty: Seq<char>) -> bool {
    match s {
        Search::Found(_) => false,
        Search::NoClass(n) => e matches InternalError::ClassNotFound(a) && a@ == n,
        Search::NotFound(c) => e matches InternalError::MethodNotFound(a, b, d) && a@ == c && b@ == name && d@ == ty,
        Search::Circular(n) => e matches InternalError::ClassCircularity(a) && a@ == n,
    }
}

/// Whether `r` reports the failed search `s` (of no kind of result).
pub open spec fn search_error<T>(s: Search<T>, e: InternalError, missing: InternalError) -> bool {
    match s {
        Search::Found(_) => false,
        Search::NoClass(n) => e matches InternalError::ClassNotFound(a) && a@ == n,
        Search::NotFound(_) => e == missing,
        Search::Circular(n) => e matches InternalError::ClassCircularity(a) && a@ == n,
    }
}

/// The position of the first field at or after `i` with the name and the
/// descriptor.
pub open spec fn first_field(fs: Seq<FieldInfoView>, name: Seq<char>, ty: Seq<char>, i: int) -> Option<int>
    decreases fs.len() - i,
{
    if i < 0 || i >= fs.len() {
        None
    } else if fs[i].name == name && fs[i].descriptor == ty {
        Some(i)
    } else {
        first_field(fs, name, ty, i + 1)
    }
}

/// The search for a field from the class `classname` up: the class where it is
/// declared, the field and its position there.
pub open spec fn field_search(
    cs: Seq<(Seq<char>, ClassFileView)>,
    classname: Seq<char>,
    name: Seq<char>,
    ty: Seq<char>,
    fuel: nat,
) -> Search<(Seq<char>, FieldInfoView, int)>
    decreases fuel,
{
    match class_named(cs, classname) {
        None => Search::NoClass(slashed(classname)),
        Some(c) => match first_field(c.fields, name, ty, 0) {
            Some(i) => Search::Found((classname, c.fields[i], i)),
            None => if !has_super(c) {
                Search::NotFound(classname)
            } else if fuel == 0 {
                Search::Circular(classname)
            } else {
                field_search(cs, c.super_class_name, name, ty, (fuel - 1) as nat)
            },
        },
    }
}

/// The kinds of constant-pool entries that are resolved from a class up through
/// its superclasses.
#[derive(Debug, Clone, Copy)]
pub enum ConstKind {
    FieldRef,
    MethodRef,
    MethodHandle,
    MethodType,
    Name,
}

/// Whether the entry at `index` of a class's pool resolves as an entry of kind `k`.
pub open spec fn resolves(k: ConstKind, c: ClassFileView, index: u16) -> bool {
    match k {
        ConstKind::FieldRef => cp_field_ref(c.constant_pool, index) is Ok,
        ConstKind::MethodRef => cp_method_ref(c.constant_pool, index) is Ok,
        ConstKind::MethodHandle => cp_method_handle(c.constant_pool, index) is Ok,
        ConstKind::MethodType => cp_method_type(c.constant_pool, index) is Ok,
        ConstKind::Name => cp_name(c.constant_pool, index) is Ok,
    }
}

/// The first class from `classname` up whose pool resolves the entry at
/// `index` as an entry of kind `k`.
pub open spec fn resolver(cs: Seq<(Seq<char>, ClassFileView)>, classname: Seq<char>, k: ConstKind, index: u16, fuel: nat) -> Search<
    ClassFileView,
>
    decreases fuel,
{
    match class_named(cs, classname) {
        None => Search::NoClass(slashed(classname)),
        Some(c) => if resolves(k, c, index) {
            Search::Found(c)
        } else if !has_super(c) {
            Search::NotFound(classname)
        } else if fuel == 0 {
            Search::Circular(classname)
        } else {
            resolver(cs, c.super_class_name, k, index, (fuel - 1) as nat)
        },
    }
}

/// The class from `classname` up that declares the field `ref`: the class that
/// answers a read of the static field named `name` (every class answers
/// `jfrTracing`).
pub open spec fn static_search(cs: Seq<(Seq<char>, ClassFileView)>, classname: Seq<char>, name: Seq<char>, fuel: nat) -> Search<
    Type,
>
    decreases fuel,
{
    match class_named(cs, classname) {
        None => Search::NoClass(slashed(classname)),
        Some(c) => if name == JFR_TRACING@ {
            Search::Found(Type::Boolean(false))
        } else {
            match lookup(c.static_fields, name) {
                Some(t) => Search::Found(t),
                None => if !has_super(c) {
                    Search::NotFound(classname)
                } else if fuel == 0 {
                    Search::Circular(classname)
                } else {
                    static_search(cs, c.super_class_name, name, (fuel - 1) as nat)
                },
            }
        },
    }
}

/// Whether the class `right` is `left`, or implements it: through one of its
/// direct interfaces (taken in order) or through its superclass.
pub open spec fn implements(cs: Seq<(Seq<char>, ClassFileView)>, left: Seq<char>, right: Seq<char>, fuel: nat) -> Search<
    bool,
>
    decreases fuel, 1int, 0int,
{
    if left == right {
        Search::Found(true)
    } else {
        match class_named(cs, right) {
            None => Search::NoClass(slashed(right)),
            Some(c) => match implements_any(cs, left, c.interfaces, 0, fuel) {
                Search::Found(true) => Search::Found(true),
                Search::Found(false) => if !has_super(c) {
                    Search::Found(false)
                } else if fuel == 0 {
                    Search::Circular(right)
                } else {
                    implements(cs, left, c.super_class_name, (fuel - 1) as nat)
                },
                other => other,
            },
        }
    }
}

/// Whether one of `ifaces`, from the `j`-th on, is or implements `left`.
pub open spec fn implements_any(
    cs: Seq<(Seq<char>, ClassFileView)>,
    left: Seq<char>,
    ifaces: Seq<Seq<char>>,
    j: int,
    fuel: nat,
) -> Search<bool>
    decreases fuel, 0int, ifaces.len() - j,
{
    if j < 0 || j >= ifaces.len() {
        Search::Found(false)
    } else if fuel == 0 {
        Search::Circular(ifaces[j])
    } else {
        match implements(cs, left, ifaces[j], (fuel - 1) as nat) {
            Search::Found(false) => implements_any(cs, left, ifaces, j + 1, fuel),
            other => other,
        }
    }
}

/// Whether `r` is the outcome `s` of a search that reports no result as `missing`.
pub open spec fn found_or<T>(s: Search<T>, r: Result<T, InternalError>, missing: InternalError) -> bool {
    match s {
        Search::Found(t) => r == Ok::<T, InternalError>(t),
        _ => r matches Err(e) && search_error(s, e, missing),
    }
}

/// Whether a class's pool resolves the entry at `index` as an entry of kind `k`.
fn resolves_in(class: &ClassFile, k: ConstKind, index: u16) -> (r: bool)
    ensures
        r == resolves(k, class@, index),
{
    match k {
        ConstKind::FieldRef => class.resolve_field_ref(index).is_ok(),
        ConstKind::MethodRef => class.resolve_method_ref(index).is_ok(),
        ConstKind::MethodHandle => class.resolve_method_handle(index).is_ok(),
        ConstKind::MethodType => class.resolve_method_type(index).is_ok(),
        ConstKind::Name => class.resolve_name(index).is_ok(),
    }
}

/// The position of the first field of `fs` with the name and the descriptor.
fn first_field_in(fs: &Vec<FieldInfo>, name: &str, ty: &str) -> (r: Option<usize>)
    ensures
        match r {
            Some(i) => first_field(field_views(fs@), name@, ty@, 0) == Some(i as int),
            None => first_field(field_views(fs@), name@, ty@, 0) is None,
        },
{
    let ghost v = field_views(fs@);
    let mut i: usize = 0;
    while i < fs.len()
        invariant
            v == field_views(fs@),
            i <= fs@.len(),
            first_field(v, name@, ty@, 0) == first_field(v, name@, ty@, i as int),
        decreases fs@.len() - i,
    {
        let f = &fs[i];
        assert(v[i as int] == f@);
        if str_eq(name, f.get_name()) && str_eq(ty, f.get_descriptor()) {
            return Some(i);
        }
        i = i + 1;
    }
    None
}


/// The position of the first field at or after `i` named `name`.
pub open spec fn first_named(fs: Seq<FieldInfoView>, name: Seq<char>, i: int) -> Option<int>
    decreases fs.len() - i,
{
    if i < 0 || i >= fs.len() {
        None
    } else if fs[i].name == name {
        Some(i)
    } else {
        first_named(fs, name, i + 1)
    }
}

/// The offset of the field `name` looked up from the class `classname`: its
/// position among the fields of the first class on the way up that has one so
/// named.
pub open spec fn offset_search(cs: Seq<(Seq<char>, ClassFileView)>, classname: Seq<char>, name: Seq<char>, fuel: nat) -> Search<int>
    decreases fuel,
{
    match class_named(cs, classname) {
        None => Search::NoClass(slashed(classname)),
        Some(c) => match first_named(c.fields, name, 0) {
            Some(i) => Search::Found(i),
            None => if !has_super(c) {
                Search::NotFound(classname)
            } else if fuel == 0 {
                Search::Circular(classname)
            } else {
                offset_search(cs, c.super_class_name, name, (fuel - 1) as nat)
            },
        },
    }
}

/// The field at position `offset` looked up from the class `classname`: in
/// the first class on the way up that has that many fields.
pub open spec fn by_offset_search(cs: Seq<(Seq<char>, ClassFileView)>, classname: Seq<char>, offset: i64, fuel: nat) -> Search<FieldInfoView>
    decreases fuel,
{
    match class_named(cs, classname) {
        None => Search::NoClass(slashed(classname)),
        Some(c) => if (offset as usize) < c.fields.len() {
            Search::Found(c.fields[(offset as usize) as int])
        } else if !has_super(c) {
            Search::NotFound(classname)
        } else if fuel == 0 {
            Search::Circular(classname)
        } else {
            by_offset_search(cs, c.super_class_name, offset, (fuel - 1) as nat)
        },
    }
}

/// The position of the first field named `name`.
fn first_named_in(fs: &Vec<FieldInfo>, name: &str) -> (r: Option<usize>)
    ensures
        match r {
            Some(i) => first_named(field_views(fs@), name@, 0) == Some(i as int),
            None => first_named(field_views(fs@), name@, 0) is None,
        },
{
    let ghost v = field_views(fs@);
    let mut i: usize = 0;
    while i < fs.len()
        invariant
            v == field_views(fs@),
            i <= fs@.len(),
            first_named(v, name@, 0) == first_named(v, name@, i as int),
        decreases fs@.len() - i,
    {
        let f = &fs[i];
        assert(v[i as int] == f@);
        if str_eq(name, f.get_name()) {
            return Some(i);
        }
        i = i + 1;
    }
    None
}

/// What `first_field` finds is a field of the sequence with the name and type.
proof fn lemma_first_field(fs: Seq<FieldInfoView>, name: Seq<char>, ty: Seq<char>, i: int)
    ensures
        first_field(fs, name, ty, i) matches Some(p) ==> 0 <= p < fs.len() && fs[p].name == name && fs[p].descriptor
            == ty,
    decreases fs.len() - i,
{
    if 0 <= i < fs.len() && !(fs[i].name == name && fs[i].descriptor == ty) {
        lemma_first_field(fs, name, ty, i + 1);
    }
}

impl ClassLoader {
    /// The method `method_name` with descriptor `type_str` that has code, looked
    /// up from `classname`: the class (or interface) where it was found, the
    /// method, and its number for the virtual table (-1 for a static method or a
    /// constructor).
    pub fn get_method_by_name_with_index(&self, classname: &str, method_name: &str, type_str: &str) -> (r: Result<
        (String, &MethodInfo, i32),
        InternalError,
    >)
        ensures
            method_result(
                method_search(self.classes_view(), classname@, method_name@, type_str@, false, self.classes@.len() as nat),
                r,
                method_name@,
                type_str@,
            ),
    {
        self.method_search_from(classname, method_name, type_str, false, self.classes.len())
    }

    /// As `get_method_by_name_with_index`, abstract methods included.
    pub fn get_any_method_by_name_with_index(&self, classname: &str, method_name: &str, type_str: &str) -> (r: Result<
        (String, &MethodInfo, i32),
        InternalError,
    >)
        ensures
            method_result(
                method_search(self.classes_view(), classname@, method_name@, type_str@, true, self.classes@.len() as nat),
                r,
                method_name@,
                type_str@,
            ),
    {
        self.method_search_from(classname, method_name, type_str, true, self.classes.len())
    }

    /// The class where the method that has code is found, and the method.
    pub fn get_method_by_name(&self, classname: &str, method_name: &str, type_str: &str) -> (r: Result<
        (String, &MethodInfo),
        InternalError,
    >)
        ensures
            method_pair_result(
                method_search(self.classes_view(), classname@, method_name@, type_str@, false, self.classes@.len() as nat),
                r,
                method_name@,
                type_str@,
            ),
    {
        let (c, m, _) = self.get_method_by_name_with_index(classname, method_name, type_str)?;
        Ok((c, m))
    }

    /// The class where the method is found, and the method's code.
    pub fn get_method_code_by_name(&self, classname: &str, method_name: &str, type_str: &str) -> (r: Result<
        (String, &Code),
        InternalError,
    >)
        ensures
            match method_search(self.classes_view(), classname@, method_name@, type_str@, false, self.classes@.len() as nat) {
                Search::Found((c, m, i)) => if i > i32::MAX {
                    r matches Err(InternalError::General(_))
                } else {
                    match method_code(m) {
                        Some(code) => (r matches Ok((a, b)) && a@ == c && b@ == code),
                        None => (r matches Err(InternalError::CodeNotFound(a, b, d)) && a@ == classname@ && b@
                            == method_name@ && d@ == type_str@),
                    }
                },
                s => (r matches Err(e) && method_search_error(s, e, method_name@, type_str@)),
            },
    {
        let (c, m, _) = self.get_method_by_name_with_index(classname, method_name, type_str)?;
        if m.has_code() && m.code_index < m.attributes.len() {
            match m.get_code() {
                Some(code) => {
                    return Ok((c, code));
                },
                None => {},
            }
        }
        Err(InternalError::CodeNotFound(classname.to_string(), method_name.to_string(), type_str.to_string()))
    }

    /// The number of local variables of the method's code.
    pub fn get_method_max_locals_by_name(&self, classname: &str, method_name: &str, type_str: &str) -> (r: Result<
        u16,
        InternalError,
    >)
        ensures
            match method_search(self.classes_view(), classname@, method_name@, type_str@, false, self.classes@.len() as nat) {
                Search::Found((c, m, i)) => if i > i32::MAX {
                    r matches Err(InternalError::General(_))
                } else {
                    match method_code(m) {
                        Some(code) => r == Ok::<u16, InternalError>(code.max_locals),
                        None => (r matches Err(InternalError::CodeNotFound(a, b, d)) && a@ == classname@ && b@
                            == method_name@ && d@ == type_str@),
                    }
                },
                s => (r matches Err(e) && method_search_error(s, e, method_name@, type_str@)),
            },
    {
        let (_, code) = self.get_method_code_by_name(classname, method_name, type_str)?;
        Ok(code.get_max_locals())
    }

    /// Whether the method that has code, found from `classname`, is native.
    pub fn is_method_native(&self, classname: &str, method_name: &str, method_type: &str) -> (r: Result<
        bool,
        InternalError,
    >)
        ensures
            match method_search(self.classes_view(), classname@, method_name@, method_type@, false, self.classes@.len() as nat) {
                Search::Found((c, m, i)) => if i <= i32::MAX {
                    r == Ok::<bool, InternalError>(m.access_flags & ACC_NATIVE != 0)
                } else {
                    r matches Err(InternalError::General(_))
                },
                s => (r matches Err(e) && method_search_error(s, e, method_name@, method_type@)),
            },
    {
        let (_, m) = self.get_method_by_name(classname, method_name, method_type)?;
        Ok(m.is_native())
    }

    /// The search for a field with `fuel` steps up allowed.
    fn field_search_from(&self, classname: &str, field_name: &str, type_str: &str, fuel: usize) -> (r: Result<
        (String, &FieldInfo, i32),
        InternalError,
    >)
        ensures
            match field_search(self.classes_view(), classname@, field_name@, type_str@, fuel as nat) {
                Search::Found((c, f, i)) => (r matches Ok((a, b, k)) && a@ == c && b@ == f && k == i as i32),
                s => (r matches Err(e) && search_error(s, e, InternalError::FieldNotFound)),
            },
        decreases fuel,
    {
        proof {
            self.lemma_get(classname@);
        }
        let class = self.get(classname)?;
        let fields = class.get_fields();
        proof {
            lemma_first_field(field_views(fields@), field_name@, type_str@, 0);
        }
        match first_field_in(fields, field_name, type_str) {
            Some(i) => {
                assert(field_views(fields@)[i as int] == fields@[i as int]@);
                return Ok((classname.to_string(), &fields[i], i as i32));
            },
            None => {},
        }
        if !class.has_parent() {
            return Err(InternalError::FieldNotFound);
        }
        if fuel == 0 {
            return Err(InternalError::ClassCircularity(classname.to_string()));
        }
        self.field_search_from(class.get_parent_name(), field_name, type_str, fuel - 1)
    }

    fn offset_from(&self, classname: &str, field_name: &str, fuel: usize) -> (r: Result<i64, InternalError>)
        requires
            !(offset_search(self.classes_view(), classname@, field_name@, fuel as nat) is NotFound),
        ensures
            match offset_search(self.classes_view(), classname@, field_name@, fuel as nat) {
                Search::Found(i) => r == Ok::<i64, InternalError>(i as i64),
                s => (r matches Err(e) && search_error(s, e, InternalError::FieldNotFound)),
            },
        decreases fuel,
    {
        proof {
            self.lemma_get(classname@);
        }
        let class = self.get(classname)?;
        match first_named_in(class.get_fields(), field_name) {
            Some(i) => {
                return Ok(i as i64);
            },
            None => {},
        }
        if !class.has_parent() {
            return vstd::pervasive::unreached();
        }
        if fuel == 0 {
            return Err(InternalError::ClassCircularity(classname.to_string()));
        }
        self.offset_from(class.get_parent_name(), field_name, fuel - 1)
    }

    /// The offset of the field `field_name` seen from `classname`: its
    /// position among the fields of the first class from `classname` up that
    /// declares a field so named (one must).
    pub fn get_field_offset(&self, classname: &str, field_name: &str) -> (r: Result<i64, InternalError>)
        requires
            !(offset_search(self.classes_view(), classname@, field_name@, self.classes@.len() as nat) is NotFound),
        ensures
            match offset_search(self.classes_view(), classname@, field_name@, self.classes@.len() as nat) {
                Search::Found(i) => r == Ok::<i64, InternalError>(i as i64),
                s => (r matches Err(e) && search_error(s, e, InternalError::FieldNotFound)),
            },
    {
        self.offset_from(classname, field_name, self.classes.len())
    }

    fn by_offset_from(&self, classname: &str, offset: i64, fuel: usize) -> (r: Result<&FieldInfo, InternalError>)
        requires
            !(by_offset_search(self.classes_view(), classname@, offset, fuel as nat) is NotFound),
        ensures
            match by_offset_search(self.classes_view(), classname@, offset, fuel as nat) {
                Search::Found(f) => (r matches Ok(x) && x@ == f),
                s => (r matches Err(e) && search_error(s, e, InternalError::FieldNotFound)),
            },
        decreases fuel,
    {
        proof {
            self.lemma_get(classname@);
        }
        let class = self.get(classname)?;
        match class.get_field_by_offset(offset) {
            Ok(f) => {
                return Ok(f);
            },
            Err(_) => {},
        }
        if !class.has_parent() {
            return vstd::pervasive::unreached();
        }
        if fuel == 0 {
            return Err(InternalError::ClassCircularity(classname.to_string()));
        }
        self.by_offset_from(class.get_parent_name(), offset, fuel - 1)
    }

    /// The field at position `offset` seen from `classname`: in the first
    /// class from `classname` up that has more than `offset` fields (one
    /// must).
    pub fn get_field_by_offset(&self, classname: &str, offset: i64) -> (r: Result<&FieldInfo, InternalError>)
        requires
            !(by_offset_search(self.classes_view(), classname@, offset, self.classes@.len() as nat) is NotFound),
        ensures
            match by_offset_search(self.classes_view(), classname@, offset, self.classes@.len() as nat) {
                Search::Found(f) => (r matches Ok(x) && x@ == f),
                s => (r matches Err(e) && search_error(s, e, InternalError::FieldNotFound)),
            },
    {
        self.by_offset_from(classname, offset, self.classes.len())
    }

    /// The field `field_name` with descriptor `type_str`, looked up from
    /// `classname`: the class that declares it, the field, and its position among
    /// that class's fields.
    pub fn get_field_by_name_with_index(&self, classname: &str, field_name: &str, type_str: &str) -> (r: Result<
        (String, &FieldInfo, i32),
        InternalError,
    >)
        ensures
            match field_search(self.classes_view(), classname@, field_name@, type_str@, self.classes@.len() as nat) {
                Search::Found((c, f, i)) => (r matches Ok((a, b, k)) && a@ == c && b@ == f && k == i as i32),
                s => (r matches Err(e) && search_error(s, e, InternalError::FieldNotFound)),
            },
    {
        self.field_search_from(classname, field_name, type_str, self.classes.len())
    }

    /// The first class from `classname` up whose pool resolves the entry at
    /// `index` as an entry of kind `k`.
    fn resolving_class(&self, classname: &str, k: ConstKind, index: u16, fuel: usize) -> (r: Result<
        &ClassFile,
        InternalError,
    >)
        ensures
            match resolver(self.classes_view(), classname@, k, index, fuel as nat) {
                Search::Found(c) => (r matches Ok(x) && x@ == c && resolves(k, x@, index)),
                Search::NotFound(n) => (r matches Err(InternalError::ConstantNotFound(a, i)) && a@ == n && i == index),
                s => (r matches Err(e) && search_error(s, e, InternalError::FieldNotFound)),
            },
        decreases fuel,
    {
        proof {
            self.lemma_get(classname@);
        }
        let class = self.get(classname)?;
        if resolves_in(class, k, index) {
            return Ok(class);
        }
        if !class.has_parent() {
            return Err(InternalError::ConstantNotFound(classname.to_string(), index));
        }
        if fuel == 0 {
            return Err(InternalError::ClassCircularity(classname.to_string()));
        }
        self.resolving_class(class.get_parent_name(), k, index, fuel - 1)
    }

    /// The field reference at `index` (class, name, descriptor), resolved in the
    /// first class from `classname` up whose pool resolves it.
    pub fn resolve_field_ref(&self, classname: &str, index: u16) -> (r: Result<(String, String, String), InternalError>)
        ensures
            match resolver(self.classes_view(), classname@, ConstKind::FieldRef, index, self.classes@.len() as nat) {
                Search::Found(c) => (r matches Ok((a, b, d)) && cp_field_ref(c.constant_pool, index) == Ok::<
                    (Seq<char>, Seq<char>, Seq<char>),
                    crate::class_loader::format::FormatError,
                >((a@, b@, d@))),
                Search::NotFound(n) => (r matches Err(InternalError::ConstantNotFound(a, i)) && a@ == n && i == index),
                s => (r matches Err(e) && search_error(s, e, InternalError::FieldNotFound)),
            },
    {
        let class = self.resolving_class(classname, ConstKind::FieldRef, index, self.classes.len())?;
        match class.resolve_field_ref(index) {
            Ok(t) => Ok(t),
            Err(_) => vstd::pervasive::unreached(),
        }
    }

    /// The method reference at `index` (class, name, descriptor), resolved in the
    /// first class from `classname` up whose pool resolves it.
    pub fn resolve_method_ref(&self, classname: &str, index: u16) -> (r: Result<(String, String, String), InternalError>)
        ensures
            match resolver(self.classes_view(), classname@, ConstKind::MethodRef, index, self.classes@.len() as nat) {
                Search::Found(c) => (r matches Ok((a, b, d)) && cp_method_ref(c.constant_pool, index) == Ok::<
                    (Seq<char>, Seq<char>, Seq<char>),
                    crate::class_loader::format::FormatError,
                >((a@, b@, d@))),
                Search::NotFound(n) => (r matches Err(InternalError::ConstantNotFound(a, i)) && a@ == n && i == index),
                s => (r matches Err(e) && search_error(s, e, InternalError::FieldNotFound)),
            },
    {
        let class = self.resolving_class(classname, ConstKind::MethodRef, index, self.classes.len())?;
        match class.resolve_method_ref(index) {
            Ok(t) => Ok(t),
            Err(_) => vstd::pervasive::unreached(),
        }
    }

    /// The method handle at `index`, resolved in the first class from
    /// `classname` up whose pool resolves it.
    pub fn resolve_method_handle(&self, classname: &str, index: u16) -> (r: Result<
        crate::class_loader::class_file::MethodHandleResolved,
        InternalError,
    >)
        ensures
            match resolver(self.classes_view(), classname@, ConstKind::MethodHandle, index, self.classes@.len() as nat) {
                Search::Found(c) => (r matches Ok(h) && cp_method_handle(c.constant_pool, index) == Ok::<
                    (u8, Seq<char>, Seq<char>, Seq<char>),
                    crate::class_loader::format::FormatError,
                >((h.ref_kind, h.class_name@, h.method_name@, h.method_type@))),
                Search::NotFound(n) => (r matches Err(InternalError::ConstantNotFound(a, i)) && a@ == n && i == index),
                s => (r matches Err(e) && search_error(s, e, InternalError::FieldNotFound)),
            },
    {
        let class = self.resolving_class(classname, ConstKind::MethodHandle, index, self.classes.len())?;
        match class.resolve_method_handle(index) {
            Ok(t) => Ok(t),
            Err(_) => vstd::pervasive::unreached(),
        }
    }

    /// The method type at `index`, resolved in the first class from `classname`
    /// up whose pool resolves it.
    pub fn resolve_method_type(&self, classname: &str, index: u16) -> (r: Result<String, InternalError>)
        ensures
            match resolver(self.classes_view(), classname@, ConstKind::MethodType, index, self.classes@.len() as nat) {
                Search::Found(c) => (r matches Ok(t) && cp_method_type(c.constant_pool, index) == Ok::<
                    Seq<char>,
                    crate::class_loader::format::FormatError,
                >(t@)),
                Search::NotFound(n) => (r matches Err(InternalError::ConstantNotFound(a, i)) && a@ == n && i == index),
                s => (r matches Err(e) && search_error(s, e, InternalError::FieldNotFound)),
            },
    {
        let class = self.resolving_class(classname, ConstKind::MethodType, index, self.classes.len())?;
        match class.resolve_method_type(index) {
            Ok(t) => Ok(t),
            Err(_) => vstd::pervasive::unreached(),
        }
    }

    /// The text of the `Utf8` entry at `index`, resolved in the first class from
    /// `classname` up whose pool resolves it.
    pub fn resolve_string(&self, classname: &str, index: u16) -> (r: Result<String, InternalError>)
        ensures
            match resolver(self.classes_view(), classname@, ConstKind::Name, index, self.classes@.len() as nat) {
                Search::Found(c) => (r matches Ok(t) && cp_name(c.constant_pool, index) == Ok::<
                    Seq<char>,
                    crate::class_loader::format::FormatError,
                >(t@)),
                Search::NotFound(n) => (r matches Err(InternalError::ConstantNotFound(a, i)) && a@ == n && i == index),
                s => (r matches Err(e) && search_error(s, e, InternalError::FieldNotFound)),
            },
    {
        let class = self.resolving_class(classname, ConstKind::Name, index, self.classes.len())?;
        match class.resolve_name(index) {
            Ok(t) => Ok(t),
            Err(_) => vstd::pervasive::unreached(),
        }
    }

    /// The search for a static field with `fuel` steps up allowed.
    fn static_search_from(&self, classname: &str, field_name: &str, fuel: usize) -> (r: Result<Type, InternalError>)
        ensures
            match static_search(self.classes_view(), classname@, field_name@, fuel as nat) {
                Search::Found(t) => r == Ok::<Type, InternalError>(t),
                Search::NotFound(_) => (r matches Err(InternalError::StaticFieldNotFound(a)) && a@ == field_name@),
                s => (r matches Err(e) && search_error(s, e, InternalError::FieldNotFound)),
            },
        decreases fuel,
    {
        proof {
            self.lemma_get(classname@);
        }
        let class = self.get(classname)?;
        match class.get_static_field(field_name) {
            Ok(v) => {
                return Ok(v);
            },
            Err(_) => {},
        }
        if !class.has_parent() {
            return Err(InternalError::StaticFieldNotFound(field_name.to_string()));
        }
        if fuel == 0 {
            return Err(InternalError::ClassCircularity(classname.to_string()));
        }
        self.static_search_from(class.get_parent_name(), field_name, fuel - 1)
    }

    /// The value of the static field `field_name`, read in the first class from
    /// `classname` up that has it.
    pub fn get_static_field(&self, classname: &str, field_name: &str) -> (r: Result<Type, InternalError>)
        ensures
            match static_search(self.classes_view(), classname@, field_name@, self.classes@.len() as nat) {
                Search::Found(t) => r == Ok::<Type, InternalError>(t),
                Search::NotFound(_) => (r matches Err(InternalError::StaticFieldNotFound(a)) && a@ == field_name@),
                s => (r matches Err(e) && search_error(s, e, InternalError::FieldNotFound)),
            },
    {
        self.static_search_from(classname, field_name, self.classes.len())
    }

    /// Whether `right` is or implements `left`, with `fuel` steps allowed.
    fn implements_from(&self, left: &str, right: &str, fuel: usize) -> (r: Result<bool, InternalError>)
        ensures
            found_or(implements(self.classes_view(), left@, right@, fuel as nat), r, InternalError::FieldNotFound),
        decreases fuel, 1int, 0int,
    {
        if str_eq(left, right) {
            return Ok(true);
        }
        proof {
            self.lemma_get(right@);
        }
        let class = self.get(right)?;
        let found = self.implements_any_from(left, class.get_interfaces(), fuel)?;
        if found {
            return Ok(true);
        }
        if !class.has_parent() {
            return Ok(false);
        }
        if fuel == 0 {
            return Err(InternalError::ClassCircularity(right.to_string()));
        }
        self.implements_from(left, class.get_parent_name(), fuel - 1)
    }

    /// Whether one of `ifaces` is or implements `left`, with `fuel` steps allowed.
    fn implements_any_from(&self, left: &str, ifaces: &Vec<String>, fuel: usize) -> (r: Result<bool, InternalError>)
        ensures
            found_or(implements_any(self.classes_view(), left@, texts(ifaces@), 0, fuel as nat), r, InternalError::FieldNotFound),
        decreases fuel, 0int, ifaces@.len(),
    {
        let ghost names = texts(ifaces@);
        let mut j: usize = 0;
        while j < ifaces.len()
            invariant
                names == texts(ifaces@),
                j <= ifaces@.len(),
                implements_any(self.classes_view(), left@, names, 0, fuel as nat) == implements_any(
                    self.classes_view(),
                    left@,
                    names,
                    j as int,
                    fuel as nat,
                ),
            decreases ifaces@.len() - j,
        {
            assert(names[j as int] == ifaces@[j as int]@);
            if fuel == 0 {
                return Err(InternalError::ClassCircularity(ifaces[j].clone()));
            }
            let found = self.implements_from(left, ifaces[j].as_str(), fuel - 1)?;
            if found {
                return Ok(true);
            }
            j = j + 1;
        }
        Ok(false)
    }

    /// Whether the class `right` is `left` or implements it, through its
    /// interfaces or its superclasses.
    pub fn has_interface(&self, left: &str, right: &str) -> (r: Result<bool, InternalError>)
        ensures
            found_or(implements(self.classes_view(), left@, right@, self.classes@.len() as nat), r, InternalError::FieldNotFound),
    {
        self.implements_from(left, right, self.classes.len())
    }
}

/// `find_class` reads the names only.
proof fn lemma_find_class_names(
    v: Seq<(Seq<char>, ClassFileView)>,
    w: Seq<(Seq<char>, ClassFileView)>,
    name: Seq<char>,
    i: int,
)
    requires
        v.len() == w.len(),
        forall|m: int| 0 <= m < v.len() ==> #[trigger] w[m].0 == v[m].0,
    ensures
        find_class(v, name, i) == find_class(w, name, i),
    decreases v.len() - i,
{
    if 0 <= i < v.len() && v[i].0 != name {
        lemma_find_class_names(v, w, name, i + 1);
    }
}

/// Appending a class under another name leaves a search for `name` as it was.
proof fn lemma_find_class_push_other(
    v: Seq<(Seq<char>, ClassFileView)>,
    e: (Seq<char>, ClassFileView),
    name: Seq<char>,
    i: int,
)
    requires
        0 <= i,
        e.0 != name,
    ensures
        find_class(v.push(e), name, i) == find_class(v, name, i),
    decreases v.len() - i,
{
    if i < v.len() {
        assert(v.push(e)[i] == v[i]);
        if v[i].0 != name {
            lemma_find_class_push_other(v, e, name, i + 1);
        }
    } else if i == v.len() {
        assert(v.push(e)[i] == e);
        assert(find_class(v.push(e), name, i + 1) is None);
    }
}

/// Appending a class under a name that none has makes it found there.
proof fn lemma_find_class_push_new(v: Seq<(Seq<char>, ClassFileView)>, e: (Seq<char>, ClassFileView), i: int)
    requires
        0 <= i <= v.len(),
        find_class(v, e.0, i) is None,
    ensures
        find_class(v.push(e), e.0, i) == Some(v.len() as int),
    decreases v.len() - i,
{
    if i < v.len() {
        assert(v.push(e)[i] == v[i]);
        lemma_find_class_push_new(v, e, i + 1);
    } else {
        assert(v.push(e)[i] == e);
    }
}

/// A class added under an internal name (one without dots) is what that name
/// then designates, and every name that designates another class still
/// designates what it did.
pub proof fn lemma_get_after_add(
    before: Seq<(Seq<char>, ClassFileView)>,
    name: Seq<char>,
    class: ClassFileView,
    after: Seq<(Seq<char>, ClassFileView)>,
    other: Seq<char>,
)
    requires
        match find_class(before, name, 0) {
            Some(k) => after == before.update(k, (name, class)),
            None => after == before.push((name, class)),
        },
        slashed(name) == name,
    ensures
        class_named(after, name) == Some(class),
        slashed(other) != name ==> class_named(after, other) == class_named(before, other),
{
    lemma_find_class(before, name, 0);
    lemma_find_class(before, slashed(other), 0);
    match find_class(before, name, 0) {
        Some(k) => {
            assert forall|m: int| 0 <= m < before.len() implies #[trigger] after[m].0 == before[m].0 by {
                if m != k {
                    assert(after[m] == before[m]);
                }
            }
            lemma_find_class_names(before, after, name, 0);
            lemma_find_class_names(before, after, slashed(other), 0);
            if slashed(other) != name {
                if find_class(before, slashed(other), 0) is Some {
                    let j = find_class(before, slashed(other), 0)->0;
                    assert(j != k);
                    assert(after[j] == before[j]);
                }
            }
        },
        None => {
            lemma_find_class_push_new(before, (name, class), 0);
            assert(after[before.len() as int] == (name, class));
            if slashed(other) != name {
                lemma_find_class_push_other(before, (name, class), slashed(other), 0);
                if find_class(before, slashed(other), 0) is Some {
                    let j = find_class(before, slashed(other), 0)->0;
                    assert(after[j] == before[j]);
                }
            }
        },
    }
}

} // verus!
