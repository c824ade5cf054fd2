use vstd::prelude::*;

use crate::errors::InternalError;
use crate::text::str_eq;
use crate::utils::ju4;

verus! {

/// A module of the running program: its heap object, openness, version, name
/// and packages, the modules it reads and the packages it exports (to all, or to
/// given modules).
#[derive(Debug)]
pub struct Module {
    pub obj_ref: ju4,
    pub is_open: bool,
    pub version: Option<String>,
    pub name: String,
    pub packages: Vec<String>,
    pub read: Vec<ju4>,
    pub exports_all: Vec<String>,
    pub exports: Vec<(ju4, Vec<String>)>,
}

/// The texts of a sequence of strings.
pub open spec fn names_of(v: Seq<String>) -> Seq<Seq<char>> {
    v.map_values(|s: String| s@)
}

/// Whether `name` is one of `v`.
fn holds_name(v: &Vec<String>, name: &str) -> (r: bool)
    ensures
        r == names_of(v@).contains(name@),
{
    let mut k: usize = 0;
    while k < v.len()
        invariant
            k <= v@.len(),
            forall|j: int| 0 <= j < k ==> #[trigger] v@[j]@ != name@,
        decreases v@.len() - k,
    {
        if str_eq(v[k].as_str(), name) {
            assert(names_of(v@)[k as int] == name@);
            return true;
        }
        k = k + 1;
    }
    assert(!names_of(v@).contains(name@)) by {
        if names_of(v@).contains(name@) {
            let j = choose|j: int| 0 <= j < names_of(v@).len() && names_of(v@)[j] == name@;
            assert(v@[j]@ == name@);
        }
    }
    false
}

/// The position of the entry of `v` for module `m`, from `i` on.
pub open spec fn find_export(v: Seq<(ju4, Vec<String>)>, m: ju4, i: int) -> Option<int>
    decreases v.len() - i,
{
    if i < 0 || i >= v.len() {
        None
    } else if v[i].0 == m {
        Some(i)
    } else {
        find_export(v, m, i + 1)
    }
}

impl Module {
    /// Records that the module reads the module `mod_ref` (once).
    pub fn add_read(&mut self, mod_ref: ju4)
        ensures
            old(self).read@.contains(mod_ref) ==> final(self).read@ == old(self).read@,
            !old(self).read@.contains(mod_ref) ==> final(self).read@ == old(self).read@.push(mod_ref),
            final(self).exports_all@ == old(self).exports_all@,
            final(self).exports@ == old(self).exports@,
            final(self).name@ == old(self).name@,
            final(self).obj_ref == old(self).obj_ref,
    {
        if !self.has_read(&mod_ref) {
            self.read.push(mod_ref);
        }
    }

    /// Whether the module reads the module `mod_ref`.
    pub fn has_read(&mut self, mod_ref: &ju4) -> (r: bool)
        ensures
            r == old(self).read@.contains(*mod_ref),
            *final(self) == *old(self),
    {
        let mut k: usize = 0;
        while k < self.read.len()
            invariant
                k <= self.read@.len(),
                forall|j: int| 0 <= j < k ==> self.read@[j] != *mod_ref,
            decreases self.read@.len() - k,
        {
            if self.read[k] == *mod_ref {
                return true;
            }
            k = k + 1;
        }
        false
    }

    /// Whether the module exports package `exp` to all modules.
    pub fn has_export_all(&mut self, exp: &String) -> (r: bool)
        ensures
            r == names_of(old(self).exports_all@).contains(exp@),
            *final(self) == *old(self),
    {
        holds_name(&self.exports_all, exp.as_str())
    }

    /// Records that the module exports package `exp` to all modules (once).
    pub fn add_export_all(&mut self, exp: String)
        ensures
            names_of(old(self).exports_all@).contains(exp@) ==> final(self).exports_all@ == old(self).exports_all@,
            !names_of(old(self).exports_all@).contains(exp@) ==> final(self).exports_all@ == old(self).exports_all@.push(
                exp,
            ),
            final(self).read@ == old(self).read@,
            final(self).exports@ == old(self).exports@,
            final(self).name@ == old(self).name@,
            final(self).obj_ref == old(self).obj_ref,
    {
        if !self.has_export_all(&exp) {
            self.exports_all.push(exp);
        }
    }

    /// Records that the module exports package `exp` to the module `mod_ref`
    /// (once; the module gets an entry, empty at first, if it has none).
    pub fn add_export_to_module(&mut self, mod_ref: ju4, exp: String)
        ensures
            ({
                let before = old(self).exports@;
                let after = final(self).exports@;
                match find_export(before, mod_ref, 0) {
                    Some(k) => after.len() == before.len() && (forall|j: int| 0 <= j < before.len() && j != k ==> after[j] == before[j])
                        && after[k].0 == mod_ref && (if names_of(before[k].1@).contains(exp@) {
                        after[k].1@ == before[k].1@
                    } else {
                        after[k].1@ == before[k].1@.push(exp)
                    }),
                    None => after.len() == before.len() + 1 && after.drop_last() == before && after.last().0 == mod_ref
                        && after.last().1@ == seq![exp],
                }
            }),
            final(self).read@ == old(self).read@,
            final(self).exports_all@ == old(self).exports_all@,
            final(self).name@ == old(self).name@,
            final(self).obj_ref == old(self).obj_ref,
    {
        match self.export_position(mod_ref) {
            Some(k) => {
                let (m, mut packages) = self.exports.remove(k);
                let ghost before_packages = packages@;
                if !holds_name(&packages, exp.as_str()) {
                    packages.push(exp);
                }
                let ghost entry = (m, packages);
                self.exports.insert(k, (m, packages));
                assert(self.exports@ =~= old(self).exports@.update(k as int, entry));
            },
            None => {
                let mut packages: Vec<String> = Vec::new();
                packages.push(exp);
                self.exports.push((mod_ref, packages));
                assert(self.exports@.drop_last() =~= old(self).exports@);
            },
        }
    }

    /// The position of the export entry for the module `mod_ref`.
    fn export_position(&self, mod_ref: ju4) -> (r: Option<usize>)
        ensures
            match r {
                Some(k) => find_export(self.exports@, mod_ref, 0) == Some(k as int) && k < self.exports@.len()
                    && self.exports@[k as int].0 == mod_ref,
                None => find_export(self.exports@, mod_ref, 0) is None,
            },
    {
        let mut k: usize = 0;
        while k < self.exports.len()
            invariant
                k <= self.exports@.len(),
                find_export(self.exports@, mod_ref, 0) == find_export(self.exports@, mod_ref, k as int),
            decreases self.exports@.len() - k,
        {
            if self.exports[k].0 == mod_ref {
                return Some(k);
            }
            k = k + 1;
        }
        None
    }

    pub fn get_name(&self) -> (r: &str)
        ensures
            r@ == self.name@,
    {
        self.name.as_str()
    }

    pub fn get_obj_ref(&self) -> (r: ju4)
        ensures
            r == self.obj_ref,
    {
        self.obj_ref
    }
}

/// The modules of the running program by heap reference, and the module of each
/// package name.
#[derive(Debug)]
pub struct ModuleManager {
    pub modules: Vec<Module>,
    pub rev_mapping: Vec<(String, ju4)>,
}

/// The position of the first module at or after `i` whose reference is `r`.
pub open spec fn find_module(v: Seq<Module>, r: ju4, i: int) -> Option<int>
    decreases v.len() - i,
{
    if i < 0 || i >= v.len() {
        None
    } else if v[i].obj_ref == r {
        Some(i)
    } else {
        find_module(v, r, i + 1)
    }
}

/// The position of the first mapping at or after `i` for the name `name`.
pub open spec fn find_mapping(v: Seq<(String, ju4)>, name: Seq<char>, i: int) -> Option<int>
    decreases v.len() - i,
{
    if i < 0 || i >= v.len() {
        None
    } else if v[i].0@ == name {
        Some(i)
    } else {
        find_mapping(v, name, i + 1)
    }
}

/// Whether the first mapping for `name` gives the module `r`.
pub open spec fn maps_to(v: Seq<(String, ju4)>, name: Seq<char>, r: ju4) -> bool {
    find_mapping(v, name, 0) matches Some(k) && v[k].1 == r
}

impl ModuleManager {
    pub fn new() -> (r: ModuleManager)
        ensures
            r.modules@.len() == 0,
            r.rev_mapping@.len() == 0,
    {
        ModuleManager { modules: Vec::new(), rev_mapping: Vec::new() }
    }

    /// The position of the module `mod_ref`.
    fn module_position(&self, mod_ref: ju4) -> (r: Option<usize>)
        ensures
            match r {
                Some(k) => find_module(self.modules@, mod_ref, 0) == Some(k as int) && k < self.modules@.len(),
                None => find_module(self.modules@, mod_ref, 0) is None,
            },
    {
        let mut k: usize = 0;
        while k < self.modules.len()
            invariant
                k <= self.modules@.len(),
                find_module(self.modules@, mod_ref, 0) == find_module(self.modules@, mod_ref, k as int),
            decreases self.modules@.len() - k,
        {
            if self.modules[k].obj_ref == mod_ref {
                return Some(k);
            }
            k = k + 1;
        }
        None
    }

    /// Maps `name` to the module `obj_ref`, replacing an earlier mapping.
    fn map_package(&mut self, name: String, obj_ref: ju4)
        ensures
            match find_mapping(old(self).rev_mapping@, name@, 0) {
                Some(k) => final(self).rev_mapping@ == old(self).rev_mapping@.update(k, (name, obj_ref)),
                None => final(self).rev_mapping@ == old(self).rev_mapping@.push((name, obj_ref)),
            },
            final(self).modules@ == old(self).modules@,
    {
        let mut k: usize = 0;
        while k < self.rev_mapping.len()
            invariant
                k <= self.rev_mapping@.len(),
                self.rev_mapping@ == old(self).rev_mapping@,
                self.modules@ == old(self).modules@,
                find_mapping(self.rev_mapping@, name@, 0) == find_mapping(self.rev_mapping@, name@, k as int),
            decreases self.rev_mapping@.len() - k,
        {
            if str_eq(self.rev_mapping[k].0.as_str(), name.as_str()) {
                self.rev_mapping.set(k, (name, obj_ref));
                return;
            }
            k = k + 1;
        }
        self.rev_mapping.push((name, obj_ref));
    }

    /// Adds the module `obj_ref` with its packages (replacing a module with the
    /// same reference), and maps each package to it.
    pub fn add(&mut self, obj_ref: ju4, is_open: bool, version: Option<String>, location: String, packages: Vec<String>)
        ensures
            forall|j: int| 0 <= j < packages@.len() ==> #[trigger] maps_to(final(self).rev_mapping@, packages@[j]@, obj_ref),
            find_module(final(self).modules@, obj_ref, 0) matches Some(k) && final(self).modules@[k].name@ == location@
                && final(self).modules@[k].is_open == is_open && final(self).modules@[k].version == version
                && final(self).modules@[k].packages@ == packages@ && final(self).modules@[k].read@.len() == 0
                && final(self).modules@[k].exports_all@.len() == 0 && final(self).modules@[k].exports@.len() == 0,
    {
        let mut i: usize = 0;
        while i < packages.len()
            invariant
                i <= packages@.len(),
                forall|j: int| 0 <= j < i ==> #[trigger] maps_to(self.rev_mapping@, packages@[j]@, obj_ref),
                self.modules@ == old(self).modules@,
            decreases packages@.len() - i,
        {
            let ghost before = self.rev_mapping@;
            let name = packages[i].clone();
            let ghost nm = name;
            self.map_package(name, obj_ref);
            proof {
                assert forall|j: int| 0 <= j <= i implies #[trigger] maps_to(self.rev_mapping@, packages@[j]@, obj_ref) by {
                    lemma_mapping_after_store(before, nm, packages@[j]@, obj_ref, self.rev_mapping@);
                    if j < i {
                        assert(maps_to(before, packages@[j]@, obj_ref));
                    } else {
                        assert(nm@ == packages@[j]@);
                    }
                }
            }
            i = i + 1;
        }
        let module = Module {
            obj_ref,
            is_open,
            version,
            name: location,
            packages,
            read: Vec::new(),
            exports_all: Vec::new(),
            exports: Vec::new(),
        };
        match self.module_position(obj_ref) {
            Some(k) => {
                self.modules.set(k, module);
                proof {
                    assert forall|m: int| 0 <= m < old(self).modules@.len() implies #[trigger] self.modules@[m].obj_ref
                        == old(self).modules@[m].obj_ref by {
                        if m == k {
                            lemma_find_module_found(old(self).modules@, obj_ref, 0);
                        }
                    }
                    lemma_find_module_names(old(self).modules@, self.modules@, obj_ref, 0);
                }
            },
            None => {
                let ghost before = self.modules@;
                self.modules.push(module);
                proof {
                    lemma_find_module_push(before, self.modules@, obj_ref, 0);
                }
            },
        }
    }

    /// The module `mod_ref`.
    pub fn get(&self, mod_ref: ju4) -> (r: Result<&Module, InternalError>)
        ensures
            match find_module(self.modules@, mod_ref, 0) {
                Some(k) => r == Ok::<&Module, InternalError>(&self.modules@[k]),
                None => (r matches Err(e) && e == InternalError::ModuleNotFound),
            },
    {
        match self.module_position(mod_ref) {
            Some(k) => Ok(&self.modules[k]),
            None => Err(InternalError::ModuleNotFound),
        }
    }

    /// The module that holds the package named `class_name`.
    pub fn get_module_by_class(&self, class_name: &str) -> (r: Result<&Module, InternalError>)
        ensures
            match find_mapping(self.rev_mapping@, class_name@, 0) {
                Some(k) => match find_module(self.modules@, self.rev_mapping@[k].1, 0) {
                    Some(j) => r == Ok::<&Module, InternalError>(&self.modules@[j]),
                    None => (r matches Err(e) && e == InternalError::ModuleNotFound),
                },
                None => (r matches Err(e) && e == InternalError::ModuleNotFound),
            },
    {
        let mut k: usize = 0;
        while k < self.rev_mapping.len()
            invariant
                k <= self.rev_mapping@.len(),
                find_mapping(self.rev_mapping@, class_name@, 0) == find_mapping(self.rev_mapping@, class_name@, k as int),
            decreases self.rev_mapping@.len() - k,
        {
            if str_eq(self.rev_mapping[k].0.as_str(), class_name) {
                return self.get(self.rev_mapping[k].1);
            }
            k = k + 1;
        }
        Err(InternalError::ModuleNotFound)
    }

    /// The module `mod_ref`, to change.
    pub fn get_mut(&mut self, mod_ref: ju4) -> (r: Result<&mut Module, InternalError>)
        ensures
            match find_module(old(self).modules@, mod_ref, 0) {
                Some(k) => (r matches Ok(m) && *m == old(self).modules@[k]),
                None => (r matches Err(e) && e == InternalError::ModuleNotFound) && *final(self) == *old(self),
            },
    {
        match self.module_position(mod_ref) {
            Some(k) => Ok(&mut self.modules[k]),
            None => Err(InternalError::ModuleNotFound),
        }
    }
}

/// After storing `stored` at `key`, a search for `name` finds the stored
/// reference when `name` is `key`, and otherwise what it found before.
proof fn lemma_mapping_after_store(
    before: Seq<(String, ju4)>,
    nm: String,
    name: Seq<char>,
    stored: ju4,
    after: Seq<(String, ju4)>,
)
    requires
        match find_mapping(before, nm@, 0) {
            Some(k) => after == before.update(k, (nm, stored)),
            None => after == before.push((nm, stored)),
        },
    ensures
        name == nm@ ==> (find_mapping(after, name, 0) matches Some(k) && after[k].1 == stored),
        name != nm@ ==> match find_mapping(before, name, 0) {
            Some(k) => find_mapping(after, name, 0) == Some(k) && after[k].1 == before[k].1,
            None => find_mapping(after, name, 0) is None,
        },
{
    let key = nm@;
    lemma_find_mapping_props(before, key, 0);
    lemma_find_mapping_props(before, name, 0);
    lemma_find_mapping_props(after, name, 0);
    match find_mapping(before, key, 0) {
        Some(k) => {
            assert(after.len() == before.len());
            assert forall|m: int| 0 <= m < before.len() implies #[trigger] after[m].0@ == before[m].0@ by {
                if m == k {
                    assert(after[m].0@ == key);
                }
            }
            lemma_find_mapping_same_names(before, after, name, 0);
            if name != key {
                match find_mapping(before, name, 0) {
                    Some(j) => {
                        assert(before[j].0@ == name);
                        assert(j != k);
                        assert(after[j] == before[j]);
                    },
                    None => {},
                }
            }
        },
        None => {
            assert forall|m: int| 0 <= m < before.len() implies #[trigger] after[m] == before[m] by {
                assert(after.drop_last()[m] == before[m]);
            }
            if name == key {
                assert(after[before.len() as int].0@ == name);
            } else {
                lemma_find_mapping_push_other(before, (nm, stored), name, 0);
            }
        },
    }
}

/// What `find_mapping` finds: a mapping for the name with none before it from `i`.
proof fn lemma_find_mapping_props(v: Seq<(String, ju4)>, name: Seq<char>, i: int)
    requires
        0 <= i,
    ensures
        match find_mapping(v, name, i) {
            Some(j) => i <= j < v.len() && v[j].0@ == name && forall|m: int| i <= m < j ==> #[trigger] v[m].0@ != name,
            None => forall|m: int| i <= m < v.len() ==> #[trigger] v[m].0@ != name,
        },
    decreases v.len() - i,
{
    if i < v.len() && v[i].0@ != name {
        lemma_find_mapping_props(v, name, i + 1);
    }
}

/// Appending a mapping for another name leaves a search for `name` as it was.
proof fn lemma_find_mapping_push_other(v: Seq<(String, ju4)>, pushed: (String, ju4), name: Seq<char>, i: int)
    requires
        0 <= i,
        pushed.0@ != name,
    ensures
        find_mapping(v.push(pushed), name, i) == find_mapping(v, name, i),
    decreases v.len() - i,
{
    if i < v.len() {
        assert(v.push(pushed)[i] == v[i]);
        if v[i].0@ != name {
            lemma_find_mapping_push_other(v, pushed, name, i + 1);
        }
    } else if i == v.len() {
        assert(v.push(pushed)[i] == pushed);
        assert(find_mapping(v.push(pushed), name, i + 1) is None);
    }
}

/// `find_mapping` reads the names only.
proof fn lemma_find_mapping_same_names(v: Seq<(String, ju4)>, w: Seq<(String, ju4)>, name: Seq<char>, i: int)
    requires
        v.len() == w.len(),
        forall|m: int| 0 <= m < v.len() ==> #[trigger] w[m].0@ == v[m].0@,
    ensures
        find_mapping(v, name, i) == find_mapping(w, name, i),
    decreases v.len() - i,
{
    if 0 <= i < v.len() && v[i].0@ != name {
        lemma_find_mapping_same_names(v, w, name, i + 1);
    }
}

/// What `find_module` finds has the reference searched for.
proof fn lemma_find_module_found(v: Seq<Module>, r: ju4, i: int)
    ensures
        find_module(v, r, i) matches Some(k) ==> 0 <= k < v.len() && v[k].obj_ref == r,
    decreases v.len() - i,
{
    if 0 <= i < v.len() && v[i].obj_ref != r {
        lemma_find_module_found(v, r, i + 1);
    }
}

/// `find_module` reads the references only: setting a module with the same
/// reference keeps what is found.
proof fn lemma_find_module_names(v: Seq<Module>, w: Seq<Module>, r: ju4, i: int)
    requires
        v.len() == w.len(),
        forall|m: int| 0 <= m < v.len() ==> #[trigger] w[m].obj_ref == v[m].obj_ref,
    ensures
        find_module(v, r, i) == find_module(w, r, i),
    decreases v.len() - i,
{
    if 0 <= i < v.len() && v[i].obj_ref != r {
        lemma_find_module_names(v, w, r, i + 1);
    }
}

/// A module appended after none with its reference is found where it stands.
proof fn lemma_find_module_push(v: Seq<Module>, w: Seq<Module>, r: ju4, i: int)
    requires
        0 <= i <= v.len(),
        find_module(v, r, i) is None,
        w.len() == v.len() + 1,
        forall|m: int| 0 <= m < v.len() ==> #[trigger] w[m] == v[m],
        w[v.len() as int].obj_ref == r,
    ensures
        find_module(w, r, i) == Some(v.len() as int),
    decreases v.len() - i,
{
    if i < v.len() {
        assert(w[i] == v[i]);
        lemma_find_module_push(v, w, r, i + 1);
    }
}

} // verus!
