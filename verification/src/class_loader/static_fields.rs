use vstd::prelude::*;

use crate::text::str_eq;
use crate::types::Type;

verus! {

/// The values of the static fields of a class, by name, in the order in which the
/// names were first stored.
#[derive(Debug)]
pub struct StaticFields {
    pub entries: Vec<(String, Type)>,
}

impl View for StaticFields {
    type V = Seq<(Seq<char>, Type)>;

    open spec fn view(&self) -> Seq<(Seq<char>, Type)> {
        self.entries@.map_values(|e: (String, Type)| (e.0@, e.1))
    }
}

/// The position of the first entry at or after `i` whose name is `name`.
pub open spec fn find_entry(v: Seq<(Seq<char>, Type)>, name: Seq<char>, i: int) -> Option<int>
    decreases v.len() - i,
{
    if i < 0 || i >= v.len() {
        None
    } else if v[i].0 == name {
        Some(i)
    } else {
        find_entry(v, name, i + 1)
    }
}

/// The value stored under `name`.
pub open spec fn lookup(v: Seq<(Seq<char>, Type)>, name: Seq<char>) -> Option<Type> {
    match find_entry(v, name, 0) {
        Some(i) => Some(v[i].1),
        None => None,
    }
}

/// The entries once `value` is stored under `name`: it replaces the value of the
/// entry with that name, or comes last.
pub open spec fn store(v: Seq<(Seq<char>, Type)>, name: Seq<char>, value: Type) -> Seq<(Seq<char>, Type)> {
    match find_entry(v, name, 0) {
        Some(i) => v.update(i, (name, value)),
        None => v.push((name, value)),
    }
}

/// What `find_entry` finds: an entry with the name, none before it from `i`.
pub proof fn lemma_find_entry(v: Seq<(Seq<char>, Type)>, name: Seq<char>, i: int)
    requires
        0 <= i,
    ensures
        match find_entry(v, name, i) {
            Some(j) => i <= j < v.len() && v[j].0 == name && forall|m: int| i <= m < j ==> #[trigger] v[m].0 != name,
            None => forall|m: int| i <= m < v.len() ==> #[trigger] v[m].0 != name,
        },
    decreases v.len() - i,
{
    if i < v.len() && v[i].0 != name {
        lemma_find_entry(v, name, i + 1);
    }
}

/// `find_entry` reads the names only.
proof fn lemma_find_entry_names(v: Seq<(Seq<char>, Type)>, w: Seq<(Seq<char>, Type)>, name: Seq<char>, i: int)
    requires
        v.len() == w.len(),
        forall|m: int| 0 <= m < v.len() ==> #[trigger] v[m].0 == w[m].0,
    ensures
        find_entry(v, name, i) == find_entry(w, name, i),
    decreases v.len() - i,
{
    if 0 <= i < v.len() && v[i].0 != name {
        lemma_find_entry_names(v, w, name, i + 1);
    }
}

/// Appending an entry with another name leaves what is found unchanged.
proof fn lemma_find_entry_push(v: Seq<(Seq<char>, Type)>, e: (Seq<char>, Type), name: Seq<char>, i: int)
    requires
        0 <= i,
        e.0 != name,
    ensures
        find_entry(v.push(e), name, i) == find_entry(v, name, i),
    decreases v.len() - i,
{
    if i < v.len() {
        assert(v.push(e)[i] == v[i]);
        if v[i].0 != name {
            lemma_find_entry_push(v, e, name, i + 1);
        }
    } else if i == v.len() {
        assert(v.push(e)[i] == e);
        assert(find_entry(v.push(e), name, i + 1) is None);
    }
}

/// A read after a store under the same name gives the stored value.
pub proof fn lemma_lookup_store_same(v: Seq<(Seq<char>, Type)>, name: Seq<char>, value: Type)
    ensures
        lookup(store(v, name, value), name) == Some(value),
{
    lemma_find_entry(v, name, 0);
    let w = store(v, name, value);
    lemma_find_entry(w, name, 0);
    match find_entry(v, name, 0) {
        Some(i) => {
            assert forall|m: int| 0 <= m < v.len() implies #[trigger] v[m].0 == w[m].0 by {
                if m == i {
                    assert(w[m] == (name, value));
                }
            }
            lemma_find_entry_names(v, w, name, 0);
            assert(find_entry(w, name, 0) == Some(i));
            assert(w[i] == (name, value));
        },
        None => {
            assert(w == v.push((name, value)));
            assert(w[v.len() as int] == (name, value));
            assert(w[v.len() as int].0 == name);
            if find_entry(w, name, 0) is Some {
                let j = find_entry(w, name, 0)->0;
                if j < v.len() {
                    assert(w[j] == v[j]);
                    assert(v[j].0 != name);
                }
            }
            assert(find_entry(w, name, 0) == Some(v.len() as int));
        },
    }
}

/// A store under one name leaves the value under every other name unchanged.
pub proof fn lemma_lookup_store_other(v: Seq<(Seq<char>, Type)>, name: Seq<char>, other: Seq<char>, value: Type)
    requires
        other != name,
    ensures
        lookup(store(v, name, value), other) == lookup(v, other),
{
    lemma_find_entry(v, name, 0);
    let w = store(v, name, value);
    match find_entry(v, name, 0) {
        Some(i) => {
            assert forall|m: int| 0 <= m < v.len() implies #[trigger] v[m].0 == w[m].0 by {
                if m == i {
                    assert(w[m] == (name, value));
                }
            }
            lemma_find_entry_names(v, w, other, 0);
            lemma_find_entry(v, other, 0);
            if find_entry(v, other, 0) is Some {
                let j = find_entry(v, other, 0)->0;
                assert(j != i);
            }
        },
        None => {
            lemma_find_entry_push(v, (name, value), other, 0);
            lemma_find_entry(v, other, 0);
        },
    }
}

impl StaticFields {
    pub fn new() -> (r: StaticFields)
        ensures
            r@ == Seq::<(Seq<char>, Type)>::empty(),
    {
        let r = StaticFields { entries: Vec::new() };
        assert(r@ =~= Seq::<(Seq<char>, Type)>::empty());
        r
    }

    /// The position of the entry named `name`.
    fn position(&self, name: &str) -> (r: Option<usize>)
        ensures
            match r {
                Some(k) => find_entry(self@, name@, 0) == Some(k as int) && k < self.entries@.len(),
                None => find_entry(self@, name@, 0) is None,
            },
    {
        let mut k: usize = 0;
        while k < self.entries.len()
            invariant
                k <= self.entries@.len(),
                find_entry(self@, name@, 0) == find_entry(self@, name@, k as int),
            decreases self.entries@.len() - k,
        {
            if str_eq(self.entries[k].0.as_str(), name) {
                return Some(k);
            }
            k = k + 1;
        }
        None
    }

    /// Stores `value` under `name`.
    pub fn insert(&mut self, name: String, value: Type)
        ensures
            final(self)@ == store(old(self)@, name@, value),
    {
        match self.position(name.as_str()) {
            Some(k) => {
                let ghost n = name@;
                self.entries.set(k, (name, value));
                assert(self@ =~= old(self)@.update(k as int, (n, value)));
            },
            None => {
                let ghost n = name@;
                self.entries.push((name, value));
                assert(self@ =~= old(self)@.push((n, value)));
            },
        }
    }

    /// A copy of the table.
    pub fn duplicate(&self) -> (r: StaticFields)
        ensures
            r@ == self@,
    {
        let mut entries: Vec<(String, Type)> = Vec::new();
        let mut k: usize = 0;
        while k < self.entries.len()
            invariant
                k <= self.entries@.len(),
                entries@.len() == k,
                forall|i: int| 0 <= i < k ==> #[trigger] entries@[i].0@ == self.entries@[i].0@ && entries@[i].1
                    == self.entries@[i].1,
            decreases self.entries@.len() - k,
        {
            let name = self.entries[k].0.clone();
            entries.push((name, self.entries[k].1));
            k = k + 1;
        }
        let r = StaticFields { entries };
        assert(r@ =~= self@);
        r
    }

    /// The value stored under `name`.
    pub fn get(&self, name: &str) -> (r: Option<&Type>)
        ensures
            match lookup(self@, name@) {
                Some(t) => (r matches Some(x) && *x == t),
                None => r is None,
            },
    {
        match self.position(name) {
            Some(k) => Some(&self.entries[k].1),
            None => None,
        }
    }
}

} // verus!
