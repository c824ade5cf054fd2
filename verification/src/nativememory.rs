use vstd::prelude::*;

use std::collections::HashMap;

use vstd::std_specs::iter::IteratorSpec;

use crate::errors::InternalError;

verus! {

broadcast use vstd::std_specs::hash::group_hash_axioms;

/// The blocks of memory outside the heap that the machine knows of: the size
/// of the block that starts at each address.
#[derive(Debug)]
pub struct NativeMemory {
    pub allocations: HashMap<u64, u64>,
}

/// Whether some block holds the address `addr`.
pub open spec fn covers(m: Map<u64, u64>, addr: u64) -> bool {
    exists|k: u64| #[trigger] m.contains_key(k) && k <= addr && addr < k + m[k]
}

/// Whether no block runs past the end of the address space.
pub open spec fn blocks_fit(m: Map<u64, u64>) -> bool {
    forall|k: u64| #[trigger] m.contains_key(k) ==> k + m[k] <= u64::MAX
}

impl NativeMemory {
    pub fn new() -> (r: NativeMemory)
        ensures
            r.allocations@ == Map::<u64, u64>::empty(),
    {
        NativeMemory { allocations: HashMap::new() }
    }

    /// Records the block of `size` bytes at `addr` (in place of the one that
    /// started there, if any).
    pub fn register(&mut self, addr: u64, size: u64)
        ensures
            final(self).allocations@ == old(self).allocations@.insert(addr, size),
    {
        self.allocations.insert(addr, size);
    }

    /// Checks that `addr` lies in a known block (one must hold it, and no
    /// block may run past the end of the address space).
    pub fn is_valid(&self, addr: u64) -> (r: bool)
        requires
            covers(self.allocations@, addr),
            blocks_fit(self.allocations@),
        ensures
            r,
    {
        let ghost m = self.allocations@;
        let ghost s = vstd::std_specs::hash::spec_hash_map_iter(&self.allocations).remaining();
        let ghost mut n: int = 0;
        for item in it: self.allocations.iter()
            invariant
                m == self.allocations@,
                covers(m, addr),
                blocks_fit(m),
                it.seq() == s,
                n == it.index(),
                forall|j: int| 0 <= j < n ==> !(*(#[trigger] s[j]).0 <= addr && addr < *s[j].0 + *s[j].1),
        {
            let (k, v) = item;
            proof {
                assert(item == s[n]);
                assert(self.allocations@.contains_key(*s[n].0) && self.allocations@[*s[n].0] == *s[n].1);
            }
            if addr >= *k && addr < *k + *v {
                return true;
            }
            proof {
                n = n + 1;
            }
        }
        proof {
            assert(n == s.len());
            let k0 = choose|k: u64| #[trigger] m.contains_key(k) && k <= addr && addr < k + m[k];
            assert(s.contains((&k0, &m[k0])));
            let j = choose|j: int| 0 <= j < s.len() && s[j] == (&k0, &m[k0]);
            assert(!(*s[j].0 <= addr && addr < *s[j].0 + *s[j].1));
        }
        vstd::pervasive::unreached()
    }

    /// The size of the block that starts at `addr`.
    pub fn _get(&self, addr: u64) -> (r: Result<u64, InternalError>)
        ensures
            if self.allocations@.contains_key(addr) {
                r == Ok::<u64, InternalError>(self.allocations@[addr])
            } else {
                r == Err::<u64, InternalError>(InternalError::SegmentationFault(addr))
            },
    {
        match self.allocations.get(&addr) {
            Some(v) => Ok(*v),
            None => Err(InternalError::SegmentationFault(addr)),
        }
    }
}

} // verus!
