use vstd::prelude::*;

use vstd::arithmetic::power2::pow2;

use crate::frame::FrameView;
use crate::invoke::{arg_count, count_from};
use crate::text::{index_of_from, lemma_index_of_from};
use crate::types::is_primitive_letter;
use crate::jvm::{Exec, LongShift, Step, dup2_spec, instruction_spec, long_shift_spec, null_branch_spec};
use crate::opcode::OpCode;
use crate::errors::JavaException;
use crate::jvm::StepError;
use crate::types::{Type, category};
use crate::utils::be_u16_at;
use crate::switch::{match_offset, table_offset};
use crate::invoke::{Popped, arguments};
use crate::instance::Instance;
use crate::class_loader::class_file::ClassFileView;

verus! {

/// `lushr` shifts in zeros: with a `long` under an `int` count on the operand
/// stack, the two are replaced by the `long` whose unsigned value is the
/// unsigned value of the first divided by 2 to the power of the low six bits
/// of the count; a shift by a count whose low six bits are not all zero gives
/// a value that is not negative, whatever the sign of the shifted value.
pub proof fn law_lushr_shifts_in_zeros(s: Seq<FrameView>, rest: Seq<Type>, v: i64, c: i32)
    requires
        s.len() > 0,
        s.last().stack == rest.push(Type::Long(v)).push(Type::Long(v)).push(Type::Integer(c)),
    ensures
        long_shift_spec(s, LongShift::Ushr) matches Exec::Done(s2, x) && x is None && s2.len() == s.len()
            && s2.last().stack.len() == rest.len() + 2 && (s2.last().stack.last() matches Type::Long(r)
            && s2.last().stack == rest.push(Type::Long(r)).push(Type::Long(r)) && (r as u64) as nat == (v as u64) as nat
            / pow2((c & 63) as nat) && ((c & 63) != 0 ==> r >= 0)),
{
    let k: u32 = (c & 63) as u32;
    let x: u64 = v as u64;
    assert(k < 64) by (bit_vector)
        requires
            k == (c & 63) as u32,
    ;
    let r: u64 = x >> k;
    assert(r == x >> (k as u64)) by (bit_vector)
        requires
            r == x >> k,
            k < 64,
    ;
    vstd::bits::lemma_u64_shr_is_div(x, k as u64);
    assert(((r as i64) as u64) == r) by (bit_vector);
    assert(k != 0 ==> (r as i64) >= 0) by (bit_vector)
        requires
            r == x >> k,
            k < 64,
    ;
    assert((c & 63) as int == k as int) by (bit_vector)
        requires
            k == (c & 63) as u32,
    ;
    let f = s.last();
    let st1 = rest.push(Type::Long(v)).push(Type::Long(v));
    assert(f.stack.drop_last() =~= st1);
    assert(st1.drop_last() =~= rest.push(Type::Long(v)));
    assert(rest.push(Type::Long(v)).drop_last() =~= rest);
    assert(rest.push(Type::Long(r as i64)).push(Type::Long(r as i64)).len() == rest.len() + 2);
}

/// `dup2` on two values of category one copies the pair above itself in the
/// same order: `v2` (below) and `v1` (top) become `v2`, `v1`, `v2`, `v1`.
pub proof fn law_dup2_copies_the_pair_in_order(s: Seq<FrameView>, rest: Seq<Type>, v2: Type, v1: Type)
    requires
        s.len() > 0,
        s.last().stack == rest.push(v2).push(v1),
        category(v1) == 1,
        category(v2) == 1,
        !(v1 is _Unitialized),
        !(v2 is _Unitialized),
    ensures
        dup2_spec(s) matches Exec::Done(s2, x) && x is None && s2.len() == s.len() && s2.last().stack == rest.push(
            v2,
        ).push(v1).push(v2).push(v1),
{
    assert(s.last().stack.drop_last() =~= rest.push(v2));
    assert(rest.push(v2).drop_last() =~= rest);
}

/// `ifnull` branches exactly when the value on top of the operand stack is
/// `null`, and `ifnonnull` exactly when it is not: the branch goes to the
/// start of the instruction plus the 16-bit offset that follows the opcode;
/// otherwise the instruction after the offset comes next.
pub proof fn law_null_branches_follow_nullness(s: Seq<FrameView>, v: Type)
    requires
        s.len() > 0,
        s.last().pc + 2 <= s.last().code.len() <= usize::MAX,
        s.last().stack.len() > 0,
        s.last().stack.last() == v,
        v is Null || v is ObjectRef || v is ArrayRef,
        0 <= s.last().last_opcode_pc + (be_u16_at(s.last().code, s.last().pc as int) as i16) < s.last().code.len(),
    ensures
        ({
            let f = s.last();
            let target = f.last_opcode_pc + (be_u16_at(f.code, f.pc as int) as i16);
            let next = f.pc + 2;
            &&& null_branch_spec(s, true) matches Exec::Done(s2, _) && s2.len() == s.len() && s2.last().pc == (
            if v is Null {
                target
            } else {
                next
            })
            &&& null_branch_spec(s, false) matches Exec::Done(s2, _) && s2.len() == s.len() && s2.last().pc == (
            if v is Null {
                next
            } else {
                target
            })
        }),
{
    let f = s.last();
    let o = be_u16_at(f.code, f.pc as int);
    let f1 = crate::frame::with_pc(f, (f.pc + 2) as usize);
    let s1 = crate::jvm::set_top(s, f1);
    assert(crate::jvm::read_u16(s) == Exec::Done(s1, o));
    let f2 = crate::frame::with_stack(f1, f1.stack.drop_last());
    let s2 = crate::jvm::set_top(s1, f2);
    assert(crate::jvm::pop_value(s1) == Exec::Done(s2, v));
    let t = crate::frame::branch_target(f2.last_opcode_pc, crate::jvm::branch_offset(o));
    assert(t == f.last_opcode_pc + (o as i16));
    assert(s2.last() == f2);
    let s3 = crate::jvm::set_top(s2, crate::frame::with_pc(f2, t as usize));
    assert(crate::jvm::jump(s2, crate::jvm::branch_offset(o)) == Exec::Done(s3, ()));
    assert(s3.last().pc == t);
}

/// Searching a text behind a prefix finds what searching the text alone
/// finds, moved by the prefix's length.
proof fn lemma_index_of_behind(p: Seq<char>, t: Seq<char>, c: char, j: int)
    requires
        0 <= j,
    ensures
        index_of_from(p + t, c, p.len() + j) == p.len() + index_of_from(t, c, j),
    decreases t.len() - j,
{
    if j < t.len() {
        assert((p + t)[p.len() + j] == t[j]);
        if t[j] != c {
            lemma_index_of_behind(p, t, c, j + 1);
        }
    }
}

/// Counting the parameters of a text behind a prefix counts those of the
/// text alone.
proof fn lemma_count_behind(p: Seq<char>, t: Seq<char>, j: int)
    requires
        0 <= j,
    ensures
        count_from(p + t, p.len() + j) == count_from(t, j),
    decreases t.len() - j,
{
    if j < t.len() {
        let d = p + t;
        assert(d[p.len() + j] == t[j]);
        if t[j] == 'L' {
            lemma_index_of_behind(p, t, ';', j + 1);
            lemma_index_of_from(t, ';', j + 1);
            let k = index_of_from(t, ';', j + 1);
            if k < t.len() {
                lemma_count_behind(p, t, k + 1);
                assert(p.len() + k + 1 == p.len() + (k + 1));
            }
        } else if t[j] == '[' || is_primitive_letter(t[j]) {
            lemma_count_behind(p, t, j + 1);
        }
    }
}

/// An array parameter counts once, as its element type alone does: a `[` in
/// front of the parameter list changes nothing in the count of a method
/// descriptor.
pub proof fn law_array_parameter_counts_once(rest: Seq<char>)
    ensures
        arg_count(seq!['(', '['] + rest) == arg_count(seq!['('] + rest),
{
    let a = seq!['(', '['] + rest;
    let b = seq!['('] + rest;
    assert(a[0] == '(' && a[1] == '[' && b[0] == '(');
    lemma_count_behind(seq!['(', '['], rest, 0);
    lemma_count_behind(seq!['('], rest, 0);
}

/// A primitive parameter counts one: a primitive letter in front of the
/// parameter list adds one to the count of a method descriptor.
pub proof fn law_primitive_parameter_counts_one(c: char, rest: Seq<char>)
    requires
        is_primitive_letter(c),
    ensures
        arg_count(seq!['(', c] + rest) == match arg_count(seq!['('] + rest) {
            Some(n) => Some(n + 1),
            None => None::<nat>,
        },
{
    let a = seq!['(', c] + rest;
    let b = seq!['('] + rest;
    assert(a[0] == '(' && a[1] == c && b[0] == '(');
    lemma_count_behind(seq!['(', c], rest, 0);
    lemma_count_behind(seq!['('], rest, 0);
}

/// The operand stack of the current frame after an instruction that ran to its
/// end with nothing to return, if it did.
pub open spec fn stack_after(e: Exec<Step>) -> Option<Seq<Type>> {
    match e {
        Exec::Done(s2, Step::Done(None)) => if s2.len() > 0 {
            Some(s2.last().stack)
        } else {
            None
        },
        _ => None,
    }
}

/// Where the current frame goes on after an instruction that ran to its end,
/// if it did.
pub open spec fn pc_after(e: Exec<Step>) -> Option<int> {
    match e {
        Exec::Done(s2, Step::Done(None)) => if s2.len() > 0 {
            Some(s2.last().pc as int)
        } else {
            None
        },
        _ => None,
    }
}

/// `isub` subtracts the top `int` from the one below it, wrapping around:
/// the two are replaced by a value congruent to their difference modulo
/// 2^32; `iadd` does the same with their sum.
pub proof fn law_isub_and_iadd_wrap(s: Seq<FrameView>, rest: Seq<Type>, a: i32, b: i32)
    requires
        s.len() > 0,
        s.last().stack == rest.push(Type::Integer(a)).push(Type::Integer(b)),
    ensures
        stack_after(instruction_spec(s, OpCode::ISUB)) matches Some(st) && st.len() == rest.len() + 1 && st.drop_last()
            == rest && (st.last() matches Type::Integer(r) && (r - (a - b)) % 4294967296 == 0),
        stack_after(instruction_spec(s, OpCode::IADD)) matches Some(st) && st.len() == rest.len() + 1 && st.drop_last()
            == rest && (st.last() matches Type::Integer(r) && (r - (a + b)) % 4294967296 == 0),
{
    reveal(instruction_spec);
    assert(s.last().stack.drop_last() =~= rest.push(Type::Integer(a)));
    assert(rest.push(Type::Integer(a)).drop_last() =~= rest);
    let r1 = vstd::wrapping::i32_specs::wrapping_sub(a, b);
    let r2 = vstd::wrapping::i32_specs::wrapping_add(a, b);
    assert(rest.push(Type::Integer(r1)).drop_last() =~= rest);
    assert(rest.push(Type::Integer(r2)).drop_last() =~= rest);
}

/// `idiv` and `irem` put the dividend back together: with `a` under a nonzero
/// `b`, the quotient `q` and the remainder `m` satisfy `a == b * q + m`, the
/// remainder is smaller than `b` in size and has the sign of `a` (the one
/// overflow, `MIN / -1`, set aside); a zero divisor throws
/// `ArithmeticException`.
pub proof fn law_idiv_irem_divide(s: Seq<FrameView>, rest: Seq<Type>, a: i32, b: i32)
    requires
        s.len() > 0,
        s.last().stack == rest.push(Type::Integer(a)).push(Type::Integer(b)),
    ensures
        b == 0 ==> (instruction_spec(s, OpCode::IDIV) matches Exec::Fail(_, e) && e == StepError::Java(JavaException::Arithmetic)),
        b == 0 ==> (instruction_spec(s, OpCode::IREM) matches Exec::Fail(_, e) && e == StepError::Java(JavaException::Arithmetic)),
        b != 0 && !(a == i32::MIN && b == -1) ==> (stack_after(instruction_spec(s, OpCode::IDIV)) matches Some(sq)
            && stack_after(instruction_spec(s, OpCode::IREM)) matches Some(sm) && sq.drop_last() == rest && sm.drop_last()
            == rest && (sq.last() matches Type::Integer(q) && sm.last() matches Type::Integer(m) && a == b * q + m && (
        if m >= 0 {
            m as int
        } else {
            -m
        }) < (if b >= 0 {
            b as int
        } else {
            -b
        }) && (a > 0 ==> m >= 0) && (a < 0 ==> m <= 0))),
{
    reveal(instruction_spec);
    assert(s.last().stack.drop_last() =~= rest.push(Type::Integer(a)));
    assert(rest.push(Type::Integer(a)).drop_last() =~= rest);
    if b != 0 {
        crate::jvm::lemma_quot_rem(a as int, b as int);
        crate::jvm::lemma_quot_bound(a as int, b as int);
        let q = crate::jvm::quot(a as int, b as int);
        let m = crate::jvm::rem(a as int, b as int);
        if !(a == i32::MIN && b == -1) {
            if b == 1 || b == -1 {
                let x = a as int;
                assert(x / 1 == x) by (nonlinear_arith);
                assert((-x) / 1 == -x) by (nonlinear_arith);
                assert(q == x || q == -x);
            }
            assert(i32::MIN <= q <= i32::MAX);
            assert(rest.push(Type::Integer(q as i32)).drop_last() =~= rest);
            assert(rest.push(Type::Integer(m as i32)).drop_last() =~= rest);
        }
    }
}

/// `if_icmplt` branches exactly when the lower `int` is less than the upper
/// one, `if_icmpgt` exactly when it is greater: the two are popped and the
/// branch goes to the start of the instruction plus the offset.
pub proof fn law_int_compare_branches_by_order(s: Seq<FrameView>, rest: Seq<Type>, a: i32, b: i32)
    requires
        s.len() > 0,
        s.last().stack == rest.push(Type::Integer(a)).push(Type::Integer(b)),
        s.last().pc + 2 <= s.last().code.len() <= usize::MAX,
        0 <= s.last().last_opcode_pc + (be_u16_at(s.last().code, s.last().pc as int) as i16) < s.last().code.len(),
    ensures
        ({
            let target = s.last().last_opcode_pc + (be_u16_at(s.last().code, s.last().pc as int) as i16);
            let next = s.last().pc + 2;
            &&& pc_after(instruction_spec(s, OpCode::IFICMPLT)) == Some(if a < b { target } else { next })
            &&& pc_after(instruction_spec(s, OpCode::IFICMPGT)) == Some(if a > b { target } else { next })
            &&& stack_after(instruction_spec(s, OpCode::IFICMPLT)) == Some(rest)
        }),
{
    reveal(instruction_spec);
    let f = s.last();
    let f1 = crate::frame::with_pc(f, (f.pc + 2) as usize);
    assert(f1.stack.drop_last() =~= rest.push(Type::Integer(a)));
    assert(rest.push(Type::Integer(a)).drop_last() =~= rest);
}

/// `if<cond>` compares the popped `int` with zero: `ifeq` branches exactly
/// when it is zero, `iflt` when it is negative, `ifge` when it is not
/// negative, `ifgt` when it is positive.
pub proof fn law_if_compares_with_zero(s: Seq<FrameView>, rest: Seq<Type>, v: i32)
    requires
        s.len() > 0,
        s.last().stack == rest.push(Type::Integer(v)),
        s.last().pc + 2 <= s.last().code.len() <= usize::MAX,
        0 <= s.last().last_opcode_pc + (be_u16_at(s.last().code, s.last().pc as int) as i16) < s.last().code.len(),
    ensures
        ({
            let target = s.last().last_opcode_pc + (be_u16_at(s.last().code, s.last().pc as int) as i16);
            let next = s.last().pc + 2;
            &&& pc_after(instruction_spec(s, OpCode::IFEQ)) == Some(if v == 0 { target } else { next })
            &&& pc_after(instruction_spec(s, OpCode::IFNE)) == Some(if v != 0 { target } else { next })
            &&& pc_after(instruction_spec(s, OpCode::IFLT)) == Some(if v < 0 { target } else { next })
            &&& pc_after(instruction_spec(s, OpCode::IFGE)) == Some(if v >= 0 { target } else { next })
            &&& pc_after(instruction_spec(s, OpCode::IFGT)) == Some(if v > 0 { target } else { next })
            &&& pc_after(instruction_spec(s, OpCode::IFLE)) == Some(if v <= 0 { target } else { next })
        }),
{
    reveal(instruction_spec);
    let f = s.last();
    let f1 = crate::frame::with_pc(f, (f.pc + 2) as usize);
    assert(f1.stack.drop_last() =~= rest);
}

/// `iushr` shifts an `int` right filling with zeros by the low five bits of
/// the count: the result's unsigned value is the unsigned value of the
/// shifted `int` divided by 2 to that power, and not negative when those bits
/// are not all zero.
pub proof fn law_iushr_shifts_in_zeros(s: Seq<FrameView>, rest: Seq<Type>, v: i32, c: i32)
    requires
        s.len() > 0,
        s.last().stack == rest.push(Type::Integer(v)).push(Type::Integer(c)),
    ensures
        stack_after(instruction_spec(s, OpCode::IUSHR)) matches Some(st) && st.drop_last() == rest && (st.last() matches Type::Integer(r)
            && (r as u32) as nat == (v as u32) as nat / pow2((c & 31) as nat) && ((c & 31) != 0 ==> r >= 0)),
{
    reveal(instruction_spec);
    assert(s.last().stack.drop_last() =~= rest.push(Type::Integer(v)));
    assert(rest.push(Type::Integer(v)).drop_last() =~= rest);
    let k: u32 = (c & 31) as u32;
    let x: u32 = v as u32;
    assert(k < 32) by (bit_vector)
        requires
            k == (c & 31) as u32,
    ;
    vstd::bits::lemma_u32_shr_is_div(x, k);
    let r: u32 = x >> k;
    assert(((r as i32) as u32) == r) by (bit_vector);
    assert(k != 0 ==> (r as i32) >= 0) by (bit_vector)
        requires
            r == x >> k,
            k < 32,
    ;
    assert((c & 31) as int == k as int) by (bit_vector)
        requires
            k == (c & 31) as u32,
    ;
    assert(rest.push(Type::Integer(r as i32)).drop_last() =~= rest);
}

/// `lsub` subtracts the upper `long` from the lower one, wrapping around: the
/// result is congruent to the difference modulo 2^64.
pub proof fn law_lsub_wraps(s: Seq<FrameView>, rest: Seq<Type>, a: i64, b: i64)
    requires
        s.len() > 0,
        s.last().stack == rest.push(Type::Long(a)).push(Type::Long(a)).push(Type::Long(b)).push(Type::Long(b)),
    ensures
        stack_after(instruction_spec(s, OpCode::LSUB)) matches Some(st) && st.len() == rest.len() + 2 && st.subrange(
            0,
            rest.len() as int,
        ) == rest && (st.last() matches Type::Long(r) && st[rest.len() as int] == Type::Long(r) && (r - (a - b))
            % 18446744073709551616 == 0),
{
    reveal(instruction_spec);
    let st = s.last().stack;
    assert(st.drop_last().drop_last() =~= rest.push(Type::Long(a)).push(Type::Long(a)));
    assert(rest.push(Type::Long(a)).push(Type::Long(a)).drop_last().drop_last() =~= rest);
    let r = vstd::wrapping::i64_specs::wrapping_sub(a, b);
    assert(rest.push(Type::Long(r)).push(Type::Long(r)).subrange(0, rest.len() as int) =~= rest);
}

/// `lcmp` pushes 1, 0 or -1 as the lower `long` is greater than, equal to or
/// less than the upper one.
pub proof fn law_lcmp_orders(s: Seq<FrameView>, rest: Seq<Type>, a: i64, b: i64)
    requires
        s.len() > 0,
        s.last().stack == rest.push(Type::Long(a)).push(Type::Long(a)).push(Type::Long(b)).push(Type::Long(b)),
    ensures
        stack_after(instruction_spec(s, OpCode::LCMP)) == Some(rest.push(Type::Integer(
            if a > b {
                1i32
            } else if a < b {
                -1i32
            } else {
                0i32
            },
        ))),
{
    reveal(instruction_spec);
    let st = s.last().stack;
    assert(st.drop_last().drop_last() =~= rest.push(Type::Long(a)).push(Type::Long(a)));
    assert(rest.push(Type::Long(a)).push(Type::Long(a)).drop_last().drop_last() =~= rest);
}

/// The conversions from `int` keep the value modulo the width of the target:
/// `i2l` keeps it exactly, `i2s` keeps it modulo 2^16, `i2b` and `i2c` modulo
/// 2^8; `l2i` keeps a `long` modulo 2^32.
pub proof fn law_conversions_keep_the_low_bits(s: Seq<FrameView>, rest: Seq<Type>, v: i32, l: i64)
    requires
        s.len() > 0,
    ensures
        s.last().stack == rest.push(Type::Integer(v)) ==> {
            &&& stack_after(instruction_spec(s, OpCode::I2L)) == Some(rest.push(Type::Long(v as i64)).push(Type::Long(v as i64)))
                && (v as i64) == v as int
            &&& stack_after(instruction_spec(s, OpCode::I2S)) matches Some(st) && st.drop_last() == rest && (st.last() matches Type::Short(r)
                && (r - v) % 65536 == 0)
            &&& stack_after(instruction_spec(s, OpCode::I2B)) matches Some(st) && st.drop_last() == rest && (st.last() matches Type::Byte(r)
                && (r - v) % 256 == 0)
            &&& stack_after(instruction_spec(s, OpCode::I2C)) matches Some(st) && st.drop_last() == rest && (st.last() matches Type::Character(r)
                && (r - v) % 256 == 0)
        },
        s.last().stack == rest.push(Type::Long(l)).push(Type::Long(l)) ==> (stack_after(instruction_spec(s, OpCode::L2I)) matches Some(st)
            && st.drop_last() == rest && (st.last() matches Type::Integer(r) && (r - l) % 4294967296 == 0)),
{
    reveal(instruction_spec);
    if s.last().stack == rest.push(Type::Integer(v)) {
        assert(s.last().stack.drop_last() =~= rest);
        assert((((v as i16) as int) - v) % 65536 == 0) by (bit_vector);
        assert((((v as i8) as int) - v) % 256 == 0) by (bit_vector);
        assert(rest.push(Type::Short(v as i16)).drop_last() =~= rest);
        assert(rest.push(Type::Byte(v as i8)).drop_last() =~= rest);
        assert(rest.push(Type::Character(v as i8)).drop_last() =~= rest);
    }
    if s.last().stack == rest.push(Type::Long(l)).push(Type::Long(l)) {
        assert(s.last().stack.drop_last().drop_last() =~= rest);
        assert((((l as i32) as int) - l) % 4294967296 == 0) by (bit_vector);
        assert(rest.push(Type::Integer(l as i32)).drop_last() =~= rest);
    }
}

/// The stack instructions on values of category one: `dup` repeats the top
/// value, `dup_x1` puts a copy of it under the value below it, `dup_x2` under
/// the two values below it, `pop` drops it, `pop2` drops it and the one below.
pub proof fn law_stack_shuffles(s: Seq<FrameView>, rest: Seq<Type>, v3: Type, v2: Type, v1: Type)
    requires
        s.len() > 0,
        s.last().stack == rest.push(v3).push(v2).push(v1),
        category(v1) == 1 && category(v2) == 1 && category(v3) == 1,
        !(v1 is _Unitialized) && !(v2 is _Unitialized) && !(v3 is _Unitialized),
    ensures
        stack_after(instruction_spec(s, OpCode::DUP)) == Some(rest.push(v3).push(v2).push(v1).push(v1)),
        stack_after(instruction_spec(s, OpCode::DUPX1)) == Some(rest.push(v3).push(v1).push(v2).push(v1)),
        stack_after(instruction_spec(s, OpCode::DUPX2)) == Some(rest.push(v1).push(v3).push(v2).push(v1)),
        stack_after(instruction_spec(s, OpCode::POP)) == Some(rest.push(v3).push(v2)),
        stack_after(instruction_spec(s, OpCode::POP2)) == Some(rest.push(v3)),
        stack_after(instruction_spec(s, OpCode::DUP2)) == Some(rest.push(v3).push(v2).push(v1).push(v2).push(v1)),
{
    reveal(instruction_spec);
    let st = s.last().stack;
    assert(st.drop_last() =~= rest.push(v3).push(v2));
    assert(rest.push(v3).push(v2).drop_last() =~= rest.push(v3));
    assert(rest.push(v3).drop_last() =~= rest);
}

/// `lookupswitch` takes the offset paired with the first match equal to the
/// key: if the match at pair `k` equals the key and none before it does, the
/// offset of pair `k` is taken.
pub proof fn law_lookupswitch_takes_the_first_match(pairs: Seq<u32>, key: i32, default: u32, k: int)
    requires
        0 <= k,
        2 * k + 1 < pairs.len(),
        pairs[2 * k] as i32 == key,
        forall|j: int| 0 <= j < k ==> #[trigger] pairs[2 * j] as i32 != key,
    ensures
        match_offset(pairs, key, default) == pairs[2 * k + 1],
    decreases k,
{
    if k > 0 {
        let tail = pairs.subrange(2, pairs.len() as int);
        assert(pairs[2 * 0int] as i32 != key);
        assert forall|j: int| 0 <= j < k - 1 implies #[trigger] tail[2 * j] as i32 != key by {
            assert(tail[2 * j] == pairs[2 * (j + 1)]);
        }
        assert(tail[2 * (k - 1)] == pairs[2 * k]);
        law_lookupswitch_takes_the_first_match(tail, key, default, k - 1);
        assert(tail[2 * (k - 1) + 1] == pairs[2 * k + 1]);
    }
}

/// `lookupswitch` takes the default offset when no match equals the key.
pub proof fn law_lookupswitch_default(pairs: Seq<u32>, key: i32, default: u32)
    requires
        forall|j: int| 0 <= j && 2 * j + 1 < pairs.len() ==> #[trigger] pairs[2 * j] as i32 != key,
    ensures
        match_offset(pairs, key, default) == default,
    decreases pairs.len(),
{
    if pairs.len() >= 2 {
        let tail = pairs.subrange(2, pairs.len() as int);
        assert(pairs[2 * 0int] as i32 != key);
        assert forall|j: int| 0 <= j && 2 * j + 1 < tail.len() implies #[trigger] tail[2 * j] as i32 != key by {
            assert(tail[2 * j] == pairs[2 * (j + 1)]);
        }
        law_lookupswitch_default(tail, key, default);
    }
}

/// `tableswitch` takes the jump-table entry of the index counted from `low`
/// for an index from `low` to `high`, and the default offset for any other.
pub proof fn law_tableswitch_indexes_from_low(h: Seq<u32>, table: Seq<u32>, index: i32)
    requires
        h.len() == 3,
        h[1] as i32 <= h[2] as i32,
        table.len() == (h[2] as i32) - (h[1] as i32) + 1,
    ensures
        (h[1] as i32) <= index <= (h[2] as i32) ==> table_offset(h, table, index) == table[index - (h[1] as i32)] as i16,
        index < (h[1] as i32) || index > (h[2] as i32) ==> table_offset(h, table, index) == h[0] as i16,
{
}

/// The arguments of a call come off the operand stack in the order the
/// parameters are listed: the deepest value is the first argument, and a
/// `long` takes two local slots; the object a method is called on is not
/// popped for a static method.
pub proof fn law_arguments_keep_their_order(
    s: Seq<FrameView>,
    h: Seq<(u32, Instance)>,
    cs: Seq<(Seq<char>, ClassFileView)>,
    class: Seq<char>,
    rest: Seq<Type>,
    a: i32,
    b: i32,
    l: i64,
)
    requires
        s.len() > 0,
    ensures
        s.last().stack == rest.push(Type::Integer(a)).push(Type::Integer(b)) ==> (arguments(s, h, cs, 2, class, false) matches Popped::Args(
            t,
            args,
        ) && args == seq![Type::Integer(a), Type::Integer(b)] && t.last().stack == rest),
        s.last().stack == rest.push(Type::Integer(a)).push(Type::Long(l)).push(Type::Long(l)) ==> (arguments(
            s,
            h,
            cs,
            2,
            class,
            false,
        ) matches Popped::Args(t, args) && args == seq![Type::Integer(a), Type::Long(l), Type::Long(l)] && t.last().stack
            == rest),
{
    reveal_with_fuel(crate::invoke::pop_args, 3);
    if s.last().stack == rest.push(Type::Integer(a)).push(Type::Integer(b)) {
        assert(s.last().stack.drop_last() =~= rest.push(Type::Integer(a)));
        assert(rest.push(Type::Integer(a)).drop_last() =~= rest);
        assert((seq![Type::Integer(b)] + (seq![Type::Integer(a)] + Seq::<Type>::empty())).reverse() =~= seq![
            Type::Integer(a),
            Type::Integer(b),
        ]);
    }
    if s.last().stack == rest.push(Type::Integer(a)).push(Type::Long(l)).push(Type::Long(l)) {
        assert(s.last().stack.drop_last().drop_last() =~= rest.push(Type::Integer(a)));
        assert(rest.push(Type::Integer(a)).drop_last() =~= rest);
        assert((seq![Type::Long(l), Type::Long(l)] + (seq![Type::Integer(a)] + Seq::<Type>::empty())).reverse() =~= seq![
            Type::Integer(a),
            Type::Long(l),
            Type::Long(l),
        ]);
    }
}

/// In a text that holds no `;` before position `n`, where a `;` stands, the
/// first `;` from any earlier position is the one at `n`.
proof fn lemma_first_semicolon(x: Seq<char>, n: int, k: int)
    requires
        0 <= k <= n < x.len(),
        x[n] == ';',
        forall|j: int| 0 <= j < n ==> x[j] != ';',
    ensures
        index_of_from(x, ';', k) == n,
    decreases n - k,
{
    if k < n {
        lemma_first_semicolon(x, n, k + 1);
    }
}

/// A class-type parameter counts one, whatever its name: `L`, a name without
/// `;`, and `;` in front of the parameter list add one to the count of a
/// method descriptor.
pub proof fn law_class_parameter_counts_one(name: Seq<char>, rest: Seq<char>)
    requires
        forall|j: int| 0 <= j < name.len() ==> name[j] != ';',
    ensures
        arg_count(seq!['(', 'L'] + name + seq![';'] + rest) == match arg_count(seq!['('] + rest) {
            Some(n) => Some(n + 1),
            None => None::<nat>,
        },
{
    let p = seq!['(', 'L'] + name + seq![';'];
    let a = p + rest;
    let b = seq!['('] + rest;
    assert(seq!['(', 'L'] + name + seq![';'] + rest =~= a);
    assert(a[0] == '(' && a[1] == 'L' && b[0] == '(');
    let n: int = name.len() as int + 2;
    assert(a[n] == ';');
    assert forall|j: int| 2 <= j < n implies a[j] != ';' by {
        assert(a[j] == name[j - 2]);
    }
    lemma_first_semicolon(a, n, 2);
    assert(n + 1 == p.len());
    lemma_count_behind(p, rest, 0);
    lemma_count_behind(seq!['('], rest, 0);
}

/// `lshr` keeps the sign: the result is negative exactly when the shifted
/// `long` is, and a `long` that is not negative is divided by 2 to the power
/// of the low six bits of the count.
pub proof fn law_lshr_keeps_the_sign(s: Seq<FrameView>, rest: Seq<Type>, v: i64, c: i32)
    requires
        s.len() > 0,
        s.last().stack == rest.push(Type::Long(v)).push(Type::Long(v)).push(Type::Integer(c)),
    ensures
        stack_after(instruction_spec(s, OpCode::LSHR)) matches Some(st) && (st.last() matches Type::Long(r) && st == rest.push(
            Type::Long(r),
        ).push(Type::Long(r)) && (r < 0 <==> v < 0) && (v >= 0 ==> r as nat == v as nat / pow2((c & 63) as nat))),
{
    reveal(instruction_spec);
    let k: u32 = (c & 63) as u32;
    assert(k < 64) by (bit_vector)
        requires
            k == (c & 63) as u32,
    ;
    let r: i64 = v >> k;
    assert(r < 0 <==> v < 0) by (bit_vector)
        requires
            r == v >> k,
            k < 64,
    ;
    if v >= 0 {
        let x: u64 = v as u64;
        assert(r as u64 == x >> (k as u64) && r >= 0) by (bit_vector)
            requires
                r == v >> k,
                x == v as u64,
                v >= 0,
                k < 64,
        ;
        vstd::bits::lemma_u64_shr_is_div(x, k as u64);
    }
    assert((c & 63) as int == k as int) by (bit_vector)
        requires
            k == (c & 63) as u32,
    ;
    let f = s.last();
    assert(f.stack.drop_last() =~= rest.push(Type::Long(v)).push(Type::Long(v)));
    assert(rest.push(Type::Long(v)).push(Type::Long(v)).drop_last() =~= rest.push(Type::Long(v)));
    assert(rest.push(Type::Long(v)).drop_last() =~= rest);
}

/// `goto` always branches to the start of the instruction plus its offset,
/// leaving the operand stack alone.
pub proof fn law_goto_always_branches(s: Seq<FrameView>)
    requires
        s.len() > 0,
        s.last().pc + 2 <= s.last().code.len() <= usize::MAX,
        0 <= s.last().last_opcode_pc + (be_u16_at(s.last().code, s.last().pc as int) as i16) < s.last().code.len(),
    ensures
        pc_after(instruction_spec(s, OpCode::GOTO)) == Some(
            s.last().last_opcode_pc + (be_u16_at(s.last().code, s.last().pc as int) as i16),
        ),
        stack_after(instruction_spec(s, OpCode::GOTO)) == Some(s.last().stack),
{
    reveal(instruction_spec);
}

} // verus!
