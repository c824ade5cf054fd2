use vstd::prelude::*;
use vstd::string::*;

use crate::text::str_eq;
use crate::utils::ju4;

verus! {

/// The call sites of `invokedynamic` instructions that were already linked, by
/// key (class, method and bytecode offset), each with the heap reference of its
/// call-site object.
#[derive(Debug)]
pub struct LambdaManager {
    pub callsites: Vec<(String, ju4)>,
}

/// The decimal digit of `d` (which is below ten).
pub open spec fn digit_char(d: nat) -> char {
    if d == 0 {
        '0'
    } else if d == 1 {
        '1'
    } else if d == 2 {
        '2'
    } else if d == 3 {
        '3'
    } else if d == 4 {
        '4'
    } else if d == 5 {
        '5'
    } else if d == 6 {
        '6'
    } else if d == 7 {
        '7'
    } else if d == 8 {
        '8'
    } else {
        '9'
    }
}

/// The decimal writing of `n`, without leading zeros.
pub open spec fn decimal(n: nat) -> Seq<char>
    decreases n,
{
    if n < 10 {
        seq![digit_char(n)]
    } else {
        decimal(n / 10).push(digit_char(n % 10))
    }
}

/// The key of a call site: class name, method name and offset, joined by `_`.
pub open spec fn call_site_key(classname: Seq<char>, method_name: Seq<char>, offset: nat) -> Seq<char> {
    classname + seq!['_'] + method_name + seq!['_'] + decimal(offset)
}

/// The position of the first entry keyed `key`, from `i` on.
pub open spec fn find_key(v: Seq<(String, ju4)>, key: Seq<char>, i: int) -> Option<int>
    decreases v.len() - i,
{
    if i < 0 || i >= v.len() {
        None
    } else if v[i].0@ == key {
        Some(i)
    } else {
        find_key(v, key, i + 1)
    }
}

/// The call site recorded under `key`.
pub open spec fn site_of(v: Seq<(String, ju4)>, key: Seq<char>) -> Option<ju4> {
    match find_key(v, key, 0) {
        Some(i) => Some(v[i].1),
        None => None,
    }
}

/// The one-character text of the digit `d`.
fn digit_str(d: u8) -> (r: &'static str)
    requires
        d < 10,
    ensures
        r@ == seq![digit_char(d as nat)],
{
    if d == 0 {
        proof {
            reveal_strlit("0");
        }
        "0"
    } else if d == 1 {
        proof {
            reveal_strlit("1");
        }
        "1"
    } else if d == 2 {
        proof {
            reveal_strlit("2");
        }
        "2"
    } else if d == 3 {
        proof {
            reveal_strlit("3");
        }
        "3"
    } else if d == 4 {
        proof {
            reveal_strlit("4");
        }
        "4"
    } else if d == 5 {
        proof {
            reveal_strlit("5");
        }
        "5"
    } else if d == 6 {
        proof {
            reveal_strlit("6");
        }
        "6"
    } else if d == 7 {
        proof {
            reveal_strlit("7");
        }
        "7"
    } else if d == 8 {
        proof {
            reveal_strlit("8");
        }
        "8"
    } else {
        proof {
            reveal_strlit("9");
        }
        "9"
    }
}

/// Appends the decimal writing of `n` to `s`.
fn append_decimal(s: &mut String, n: usize)
    ensures
        final(s)@ == old(s)@ + decimal(n as nat),
    decreases n,
{
    if n >= 10 {
        append_decimal(s, n / 10);
        s.append(digit_str((n % 10) as u8));
        assert(decimal(n as nat) == decimal((n / 10) as nat).push(digit_char((n % 10) as nat)));
        assert(old(s)@ + decimal(n as nat) =~= old(s)@ + decimal((n / 10) as nat) + seq![digit_char((n % 10) as nat)]);
    } else {
        s.append(digit_str(n as u8));
    }
}

impl LambdaManager {
    pub fn new() -> (r: LambdaManager)
        ensures
            r.callsites@.len() == 0,
    {
        LambdaManager { callsites: Vec::new() }
    }

    /// Records the call site of the `invokedynamic` at `offset` in the method; a
    /// call site already recorded under that key stays.
    pub fn add_call_site(&mut self, classname: &str, method_name: &str, offset: usize, callsite_ref: ju4)
        ensures
            ({
                let key = call_site_key(classname@, method_name@, offset as nat);
                let before = old(self).callsites@;
                let after = final(self).callsites@;
                &&& site_of(before, key) is Some ==> after == before
                &&& site_of(before, key) is None ==> after.len() == before.len() + 1 && after.drop_last() == before
                    && after.last().0@ == key && after.last().1 == callsite_ref
            }),
    {
        if self.get_call_site(classname, method_name, offset).is_some() {
            return;
        }
        let key = LambdaManager::gen_key(classname, method_name, offset);
        self.callsites.push((key, callsite_ref));
        assert(self.callsites@.drop_last() =~= old(self).callsites@);
    }

    /// The call site recorded for the `invokedynamic` at `offset` in the method.
    pub fn get_call_site(&self, classname: &str, method_name: &str, offset: usize) -> (r: Option<ju4>)
        ensures
            r == site_of(self.callsites@, call_site_key(classname@, method_name@, offset as nat)),
    {
        let key = LambdaManager::gen_key(classname, method_name, offset);
        let mut k: usize = 0;
        while k < self.callsites.len()
            invariant
                k <= self.callsites@.len(),
                key@ == call_site_key(classname@, method_name@, offset as nat),
                find_key(self.callsites@, key@, 0) == find_key(self.callsites@, key@, k as int),
            decreases self.callsites@.len() - k,
        {
            if str_eq(self.callsites[k].0.as_str(), key.as_str()) {
                return Some(self.callsites[k].1);
            }
            k = k + 1;
        }
        None
    }

    /// The key of a call site.
    pub fn gen_key(classname: &str, method_name: &str, offset: usize) -> (r: String)
        ensures
            r@ == call_site_key(classname@, method_name@, offset as nat),
    {
        let mut key = classname.to_string();
        proof {
            reveal_strlit("_");
        }
        key.append("_");
        key.append(method_name);
        key.append("_");
        append_decimal(&mut key, offset);
        key
    }
}

/// When `find_key` finds nothing from `i` on, no entry from `i` on has the key.
proof fn lemma_find_key_none(v: Seq<(String, ju4)>, key: Seq<char>, i: int)
    requires
        0 <= i,
        find_key(v, key, i) is None,
    ensures
        forall|m: int| i <= m < v.len() ==> #[trigger] v[m].0@ != key,
    decreases v.len() - i,
{
    if i < v.len() {
        lemma_find_key_none(v, key, i + 1);
    }
}

/// Once a call site is recorded under a key that had none, reading the key gives
/// it back.
pub proof fn lemma_site_after_add(before: Seq<(String, ju4)>, key: Seq<char>, entry: (String, ju4))
    requires
        site_of(before, key) is None,
        entry.0@ == key,
    ensures
        site_of(before.push(entry), key) == Some(entry.1),
{
    lemma_find_key_none(before, key, 0);
    let after = before.push(entry);
    assert forall|m: int| 0 <= m <= before.len() implies find_key(after, key, m) == Some(before.len() as int) by {
        lemma_find_key_from(after, key, m, before.len() as int);
    }
}

/// Searching from `m` finds the entry at `j` when it is the first with the key.
proof fn lemma_find_key_from(v: Seq<(String, ju4)>, key: Seq<char>, m: int, j: int)
    requires
        0 <= m <= j < v.len(),
        v[j].0@ == key,
        forall|k: int| m <= k < j ==> #[trigger] v[k].0@ != key,
    ensures
        find_key(v, key, m) == Some(j),
    decreases j - m,
{
    if m < j {
        lemma_find_key_from(v, key, m + 1, j);
    }
}

} // verus!
