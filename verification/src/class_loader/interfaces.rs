use vstd::prelude::*;

use crate::class_loader::attributes::{fits, lemma_prepend_empty, lemma_prepend_prepend, prepend, seq_from};
use crate::class_loader::constant_pool::{ConstantPool, CpEntry, PoolView, cp_get, cp_name};
use crate::class_loader::format::{FormatError, Parsed, reads};
use crate::utils::{be_u16_at, read_u16_at};

verus! {

/// The names of the interfaces that a class implements.
#[derive(Debug)]
pub struct Interfaces {
    pub interfaces: Vec<String>,
}

/// The texts of a sequence of strings.
pub open spec fn texts(v: Seq<String>) -> Seq<Seq<char>> {
    v.map_values(|s: String| s@)
}

/// The name of the class that the `Class` entry at `index` designates.
pub open spec fn cp_class_entry_name(cp: PoolView, index: u16) -> Result<Seq<char>, FormatError> {
    match cp_get(cp, index) {
        Ok(CpEntry::Class { name_index }) => cp_name(cp, name_index),
        Ok(_) => Err(FormatError::NotClass(index)),
        Err(e) => Err(e),
    }
}

/// The reader of interface entries over `s`: a class index of two bytes,
/// resolved to the class's name.
pub open spec fn interface_fn(s: Seq<u8>, cp: PoolView) -> spec_fn(int) -> Parsed<(Seq<char>, int)> {
    |q: int|
        if !fits(s, q, 2) {
            Parsed::Panic
        } else {
            match cp_class_entry_name(cp, be_u16_at(s, q)) {
                Ok(n) => Parsed::Done((n, 2)),
                Err(e) => Parsed::Fail(e),
            }
        }
}

/// The interfaces at `i` (a count, then that many class indices), with their size.
pub open spec fn interfaces_at(s: Seq<u8>, i: int, cp: PoolView) -> Parsed<(Seq<Seq<char>>, int)> {
    if !fits(s, i, 2) {
        Parsed::Panic
    } else {
        match seq_from(i + 2, be_u16_at(s, i) as int, interface_fn(s, cp)) {
            Parsed::Done((v, end)) => Parsed::Done((v, end - i)),
            Parsed::Fail(e) => Parsed::Fail(e),
            Parsed::Panic => Parsed::Panic,
        }
    }
}

impl Interfaces {
    pub fn parse_at(bytes: &[u8], i: usize, cp: &ConstantPool) -> (r: Result<(Interfaces, usize), FormatError>)
        requires
            reads(interfaces_at(bytes@, i as int, cp@)),
        ensures
            match interfaces_at(bytes@, i as int, cp@) {
                Parsed::Done((v, n)) => (r matches Ok((x, m)) && texts(x.interfaces@) == v && m == n),
                Parsed::Fail(e) => r == Err::<(Interfaces, usize), FormatError>(e),
                Parsed::Panic => false,
            },
            r matches Ok((_x, m)) ==> i + m <= bytes@.len(),
    {
        let _len = bytes.len();
        let n = read_u16_at(bytes, i);
        let mut interfaces: Vec<String> = Vec::new();
        let mut index: usize = i + 2;
        let mut k: u16 = 0;
        let ghost f = interface_fn(bytes@, cp@);
        let ghost whole = seq_from(i + 2, n as int, f);
        proof {
            lemma_prepend_empty(whole);
            assert(texts(interfaces@) =~= Seq::<Seq<char>>::empty());
        }
        while k < n
            invariant
                bytes@.len() <= usize::MAX,
                fits(bytes@, i as int, 2),
                n == be_u16_at(bytes@, i as int),
                k <= n,
                i + 2 <= index <= bytes@.len(),
                f == interface_fn(bytes@, cp@),
                whole == seq_from(i + 2, n as int, f),
                reads(whole),
                whole == prepend(texts(interfaces@), seq_from(index as int, n - k, f)),
            decreases n - k,
        {
            assert(f(index as int) == interface_fn(bytes@, cp@)(index as int));
            let ghost old_texts = texts(interfaces@);
            let class_index = read_u16_at(bytes, index);
            let name_index = match cp.resolve_class(class_index) {
                Ok(ni) => ni,
                Err(e) => {
                    return Err(e);
                },
            };
            let name = match cp.resolve_name(name_index) {
                Ok(nm) => nm,
                Err(e) => {
                    return Err(e);
                },
            };
            proof {
                lemma_prepend_prepend(old_texts, seq![name@], seq_from(index + 2, n - k - 1, f));
            }
            let ghost t = name@;
            interfaces.push(name);
            assert(texts(interfaces@) =~= old_texts + seq![t]);
            index = index + 2;
            k = k + 1;
        }
        assert(texts(interfaces@) + Seq::<Seq<char>>::empty() =~= texts(interfaces@));
        Ok((Interfaces { interfaces }, index - i))
    }

    /// Reads the interfaces at the start of `bytes`.
    pub fn parse(bytes: &[u8], cp: &ConstantPool) -> (r: Result<(Interfaces, usize), FormatError>)
        requires
            reads(interfaces_at(bytes@, 0, cp@)),
        ensures
            match interfaces_at(bytes@, 0, cp@) {
                Parsed::Done((v, n)) => (r matches Ok((x, m)) && texts(x.interfaces@) == v && m == n),
                Parsed::Fail(e) => r == Err::<(Interfaces, usize), FormatError>(e),
                Parsed::Panic => false,
            },
    {
        Interfaces::parse_at(bytes, 0, cp)
    }

    pub fn empty() -> (r: Interfaces)
        ensures
            r.interfaces@.len() == 0,
    {
        Interfaces { interfaces: Vec::new() }
    }

    /// Adds an interface name at the end.
    pub fn add_interface(&mut self, interface: String)
        ensures
            final(self).interfaces@ == old(self).interfaces@.push(interface),
    {
        self.interfaces.push(interface)
    }

    pub fn get_interfaces(&self) -> (r: &Vec<String>)
        ensures
            r@ == self.interfaces@,
    {
        &self.interfaces
    }
}

} // verus!
