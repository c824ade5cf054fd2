use vstd::prelude::*;

use crate::errors::InternalError;
use crate::frame::{FrameView, with_pc};
use crate::jvm::{Exec, JVM, StepError, done, jump, jumpable, no_frame, outcome, pop_int, runs, set_top, then};
use crate::types::Type;
use crate::utils::be_u32_at;

verus! {

/// The number of padding bytes that follow a switch opcode when the program
/// counter is `pc`: the operands start at a multiple of four from the start of
/// the code.
pub open spec fn padding(pc: usize) -> nat {
    ((4 - pc % 4) % 4) as nat
}

/// Reads past the padding bytes of a switch instruction, one byte at a time; a
/// byte past the end of the code stops the reading there.
pub open spec fn skip_padding(s: Seq<FrameView>) -> Exec<()> {
    if s.len() == 0 {
        Exec::Fail(s, no_frame())
    } else {
        let f = s.last();
        if padding(f.pc) == 0 {
            Exec::Done(s, ())
        } else if f.pc + padding(f.pc) <= f.code.len() {
            Exec::Done(set_top(s, with_pc(f, (f.pc + padding(f.pc)) as usize)), ())
        } else if f.pc < f.code.len() {
            Exec::Fail(set_top(s, with_pc(f, f.code.len() as usize)), StepError::Internal(InternalError::EndOfCode))
        } else {
            Exec::Fail(s, StepError::Internal(InternalError::EndOfCode))
        }
    }
}

/// Reads `n` big-endian 32-bit words one after the other; a word that would run
/// past the end of the code stops the reading before it.
pub open spec fn read_words(s: Seq<FrameView>, n: nat) -> Exec<Seq<u32>> {
    if s.len() == 0 {
        Exec::Fail(s, no_frame())
    } else {
        let f = s.last();
        if n == 0 {
            Exec::Done(s, Seq::empty())
        } else if f.pc + 4 * n <= f.code.len() {
            Exec::Done(
                set_top(s, with_pc(f, (f.pc + 4 * n) as usize)),
                Seq::new(n, |k: int| be_u32_at(f.code, f.pc + 4 * k)),
            )
        } else if f.pc <= f.code.len() {
            Exec::Fail(
                set_top(s, with_pc(f, (f.pc + 4 * ((f.code.len() - f.pc) / 4)) as usize)),
                StepError::Internal(InternalError::EndOfCode),
            )
        } else {
            Exec::Fail(s, StepError::Internal(InternalError::EndOfCode))
        }
    }
}

/// The branch offset that a `tableswitch` with header `h` (default, low, high)
/// and jump table `table` takes for `index`.
pub open spec fn table_offset(h: Seq<u32>, table: Seq<u32>, index: i32) -> i16 {
    let low = h[1] as i32;
    let high = h[2] as i32;
    if index < low || index > high {
        h[0] as i16
    } else {
        table[index - low] as i16
    }
}

/// `tableswitch`: after the padding, the default offset and the bounds `low` and
/// `high` are read, the index is popped, and the `high - low + 1` offsets of the
/// jump table are read; the branch goes by the entry of the index, or by the
/// default offset for an index out of the bounds.
pub open spec fn tableswitch_spec(s: Seq<FrameView>) -> Exec<Option<Type>> {
    then(
        skip_padding(s),
        |s1: Seq<FrameView>, u: ()|
            then(
                read_words(s1, 3),
                |s2: Seq<FrameView>, h: Seq<u32>|
                    then(
                        pop_int(s2),
                        |s3: Seq<FrameView>, index: i32|
                            if h[1] as i32 >= h[2] as i32 {
                                Exec::Fail(
                                    s3,
                                    StepError::Internal(InternalError::SwitchBounds(h[1] as i32, h[2] as i32)),
                                )
                            } else if h[2] as i32 - h[1] as i32 + 1 > i32::MAX {
                                Exec::Panic
                            } else {
                                then(
                                    read_words(s3, (h[2] as i32 - h[1] as i32 + 1) as nat),
                                    |s4: Seq<FrameView>, table: Seq<u32>|
                                        then(jump(s4, table_offset(h, table, index)), |s5: Seq<FrameView>, v: ()| done(s5, v)),
                                )
                            },
                    ),
            ),
    )
}

/// The offset paired with the first match equal to `key` among the
/// (match, offset) pairs laid out one after the other in `pairs`, or `default`
/// when no match is equal to it.
pub open spec fn match_offset(pairs: Seq<u32>, key: i32, default: u32) -> u32
    decreases pairs.len(),
{
    if pairs.len() < 2 {
        default
    } else if pairs[0] as i32 == key {
        pairs[1]
    } else {
        match_offset(pairs.subrange(2, pairs.len() as int), key, default)
    }
}

/// `lookupswitch`: after the padding, the default offset and the number of pairs
/// are read, the key is popped, and the (match, offset) pairs are read; the
/// branch goes by the offset of the first match equal to the key, or by the
/// default offset.
pub open spec fn lookupswitch_spec(s: Seq<FrameView>) -> Exec<Option<Type>> {
    then(
        skip_padding(s),
        |s1: Seq<FrameView>, u: ()|
            then(
                read_words(s1, 2),
                |s2: Seq<FrameView>, h: Seq<u32>|
                    then(
                        pop_int(s2),
                        |s3: Seq<FrameView>, key: i32|
                            if (h[1] as i32) < 0 {
                                Exec::Fail(s3, StepError::Internal(InternalError::NegativePairCount(h[1] as i32)))
                            } else {
                                then(
                                    read_words(s3, 2 * ((h[1] as i32) as nat)),
                                    |s4: Seq<FrameView>, pairs: Seq<u32>|
                                        then(
                                            jump(s4, match_offset(pairs, key, h[0]) as i16),
                                            |s5: Seq<FrameView>, v: ()| done(s5, v),
                                        ),
                                )
                            },
                    ),
            ),
    )
}

/// The offset paired with the first match equal to `key` in `pairs`.
fn lookup_offset(pairs: &Vec<u32>, key: i32, default: u32) -> (r: u32)
    ensures
        r == match_offset(pairs@, key, default),
{
    let mut k: usize = 0;
    assert(pairs@.subrange(0, pairs@.len() as int) =~= pairs@);
    while pairs.len() - k >= 2
        invariant
            k <= pairs@.len(),
            match_offset(pairs@, key, default) == match_offset(
                pairs@.subrange(k as int, pairs@.len() as int),
                key,
                default,
            ),
        decreases pairs@.len() - k,
    {
        let ghost rest = pairs@.subrange(k as int, pairs@.len() as int);
        if pairs[k] as i32 == key {
            assert(rest[0] == pairs@[k as int] && rest[1] == pairs@[k + 1]);
            return pairs[k + 1];
        }
        assert(rest.subrange(2, rest.len() as int) =~= pairs@.subrange(k + 2, pairs@.len() as int));
        k = k + 2;
    }
    default
}

impl JVM {
    /// Reads past the padding bytes of a switch instruction.
    fn skip_switch_padding(&mut self) -> (r: Result<(), StepError>)
        ensures
            outcome(skip_padding(old(self)@), final(self)@, r),
            final(self).counter == old(self).counter,
    {
        if self.frames.len() == 0 {
            return Err(StepError::Internal(InternalError::FrameNotFound));
        }
        let ghost s0 = self@;
        let mut f = self.take_top();
        let ghost f0 = f@;
        let code_len = f.get_code_length();
        let pad: usize = (4 - f.get_pc() % 4) % 4;
        let mut k: usize = 0;
        while k < pad
            invariant
                k <= pad,
                pad == padding(f0.pc),
                f0.pc + k <= f0.code.len() || k == 0,
                f0.pc + k <= usize::MAX,
                code_len == f0.code.len(),
                f@ == with_pc(f0, (f0.pc + k) as usize),
                self@ == s0.drop_last(),
                self.counter == old(self).counter,
                s0.len() > 0,
                s0 == old(self)@,
                f0 == s0.last(),
            decreases pad - k,
        {
            match f.read_ju1() {
                Ok(_) => {
                    k = k + 1;
                },
                Err(e) => {
                    self.put_top(f);
                    proof {
                        assert(f@.pc == f0.pc + k);
                        assert(f0.pc + k >= f0.code.len());
                        assert(e == InternalError::EndOfCode);
                        assert(!(f0.pc + padding(f0.pc) <= f0.code.len()));
                        if k == 0 {
                            assert(f@ == f0);
                            assert(self@ =~= s0);
                        } else {
                            assert(self@ =~= set_top(s0, with_pc(f0, f0.code.len() as usize)));
                        }
                    }
                    return Err(StepError::Internal(e));
                },
            }
        }
        self.put_top(f);
        if pad == 0 {
            assert(self@ =~= s0);
        } else {
            assert(self@ =~= set_top(s0, with_pc(f0, (f0.pc + padding(f0.pc)) as usize)));
        }
        Ok(())
    }

    /// Reads `n` big-endian 32-bit words of operands.
    fn read_operand_words(&mut self, n: u64) -> (r: Result<Vec<u32>, StepError>)
        ensures
            match read_words(old(self)@, n as nat) {
                Exec::Done(s, w) => final(self)@ == s && (r matches Ok(v) && v@ == w),
                Exec::Fail(s, e) => final(self)@ == s && r == Err::<Vec<u32>, StepError>(e),
                Exec::Panic => false,
            },
            final(self).counter == old(self).counter,
    {
        if self.frames.len() == 0 {
            return Err(StepError::Internal(InternalError::FrameNotFound));
        }
        let ghost s0 = self@;
        let mut f = self.take_top();
        let ghost f0 = f@;
        let code_len = f.get_code_length();
        let mut words: Vec<u32> = Vec::new();
        let mut k: u64 = 0;
        while k < n
            invariant
                k <= n,
                words@.len() == k,
                f0.pc + 4 * k <= f0.code.len() || k == 0,
                f0.pc + 4 * k <= usize::MAX,
                code_len == f0.code.len(),
                f@ == with_pc(f0, (f0.pc + 4 * k) as usize),
                forall|j: int| 0 <= j < k ==> words@[j] == be_u32_at(f0.code, f0.pc + 4 * j),
                self@ == s0.drop_last(),
                self.counter == old(self).counter,
                s0.len() > 0,
                s0 == old(self)@,
                f0 == s0.last(),
            decreases n - k,
        {
            match f.read_ju4() {
                Ok(w) => {
                    words.push(w);
                    k = k + 1;
                },
                Err(e) => {
                    self.put_top(f);
                    proof {
                        assert(f@.pc == f0.pc + 4 * k);
                        assert(f0.pc + 4 * k + 4 > f0.code.len());
                        assert(e == InternalError::EndOfCode);
                        assert(!(f0.pc + 4 * n <= f0.code.len()));
                        if f0.pc <= f0.code.len() {
                            assert((f0.code.len() - f0.pc) / 4 == k);
                            assert(self@ =~= set_top(s0, with_pc(f0, (f0.pc + 4 * ((f0.code.len() - f0.pc) / 4)) as usize)));
                        } else {
                            assert(f@ == f0);
                            assert(self@ =~= s0);
                        }
                    }
                    return Err(StepError::Internal(e));
                },
            }
        }
        self.put_top(f);
        if n == 0 {
            assert(self@ =~= s0);
            assert(words@ =~= Seq::<u32>::empty());
        } else {
            assert(self@ =~= set_top(s0, with_pc(f0, (f0.pc + 4 * n) as usize)));
            assert(words@ =~= Seq::new(n as nat, |j: int| be_u32_at(f0.code, f0.pc + 4 * j)));
        }
        Ok(words)
    }

    /// `tableswitch`.
    pub fn exec_tableswitch(&mut self) -> (r: Result<Option<Type>, StepError>)
        requires
            runs(tableswitch_spec(old(self)@)),
            jumpable(old(self)@),
        ensures
            outcome(tableswitch_spec(old(self)@), final(self)@, r),
            final(self).counter == old(self).counter,
    {
        self.skip_switch_padding()?;
        let header = self.read_operand_words(3)?;
        let low = header[1] as i32;
        let high = header[2] as i32;
        let index = self.pop_ioperand()?;
        if low >= high {
            return Err(StepError::Internal(InternalError::SwitchBounds(low, high)));
        }
        let count: i32 = high - low + 1;
        let table = self.read_operand_words(count as u64)?;
        let offset: i16 = if index < low || index > high {
            header[0] as i16
        } else {
            table[(index - low) as usize] as i16
        };
        self.jump_by(offset)?;
        Ok(None)
    }

    /// `lookupswitch`.
    pub fn exec_lookupswitch(&mut self) -> (r: Result<Option<Type>, StepError>)
        requires
            runs(lookupswitch_spec(old(self)@)),
            jumpable(old(self)@),
        ensures
            outcome(lookupswitch_spec(old(self)@), final(self)@, r),
            final(self).counter == old(self).counter,
    {
        self.skip_switch_padding()?;
        let header = self.read_operand_words(2)?;
        let npairs = header[1] as i32;
        let key = self.pop_ioperand()?;
        if npairs < 0 {
            return Err(StepError::Internal(InternalError::NegativePairCount(npairs)));
        }
        let pairs = self.read_operand_words(2 * (npairs as u64))?;
        let offset = lookup_offset(&pairs, key, header[0]);
        self.jump_by(offset as i16)?;
        Ok(None)
    }
}

} // verus!
