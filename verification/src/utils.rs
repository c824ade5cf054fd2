use vstd::prelude::*;
use vstd::string::*;
use vstd::utf8::is_ascii_chars;

use crate::text::{ends_with_char, find_char_from, index_of_from, lemma_index_of_from, starts_with_char, str_eq};
use crate::types::Type;

verus! {

/// An unsigned byte of the class-file format.
#[allow(non_camel_case_types)]
pub type ju1 = u8;

/// An unsigned big-endian 16-bit quantity of the class-file format.
#[allow(non_camel_case_types)]
pub type ju2 = u16;

/// An unsigned big-endian 32-bit quantity of the class-file format.
#[allow(non_camel_case_types)]
pub type ju4 = u32;

/// An unsigned 64-bit quantity.
#[allow(non_camel_case_types)]
pub type ju8 = u64;

/// The error of `ju2_from_bytes` and `ju4_from_bytes`: the slice does not have
/// exactly the width of the quantity.
#[derive(Debug, Clone, Copy, PartialEq, Eq, Structural)]
pub struct SliceLengthError {
    pub expected: usize,
    pub found: usize,
}

/// The big-endian value of two bytes.
pub open spec fn be_u16(b0: u8, b1: u8) -> u16 {
    (b0 as int * 256 + b1 as int) as u16
}

/// The big-endian value of four bytes.
pub open spec fn be_u32(b0: u8, b1: u8, b2: u8, b3: u8) -> u32 {
    (b0 as int * 16777216 + b1 as int * 65536 + b2 as int * 256 + b3 as int) as u32
}

/// The big-endian 16-bit value that starts at `i` in `s`.
pub open spec fn be_u16_at(s: Seq<u8>, i: int) -> u16 {
    be_u16(s[i], s[i + 1])
}

/// The big-endian 32-bit value that starts at `i` in `s`.
pub open spec fn be_u32_at(s: Seq<u8>, i: int) -> u32 {
    be_u32(s[i], s[i + 1], s[i + 2], s[i + 3])
}

/// A source of unique identifiers: every call gives the next number.
#[derive(Debug)]
pub struct NonceGenerator {
    next: u64,
}

impl NonceGenerator {
    /// The number that the next call of `generate_nonce` gives.
    pub closed spec fn next_value(&self) -> u64 {
        self.next
    }

    /// A generator whose first number is 0.
    pub fn new() -> (g: NonceGenerator)
        ensures
            g.next_value() == 0,
    {
        NonceGenerator { next: 0 }
    }

    /// Gives the current number and advances the counter by one (wrapping).
    pub fn generate_nonce(&mut self) -> (n: u64)
        ensures
            n == old(self).next_value(),
            final(self).next_value() == vstd::wrapping::u64_specs::wrapping_add(n, 1),
    {
        let n = self.next;
        self.next = self.next.wrapping_add(1);
        n
    }
}

/// The `size` bytes of `v` that start at `start`.
pub fn get_slice(v: &[u8], start: usize, size: usize) -> (r: &[u8])
    requires
        start + size <= v@.len(),
    ensures
        r@ == v@.subrange(start as int, start + size),
{
    let _n = v.len();
    &v[start..start + size]
}

/// The `size` bytes of `v` that start at `start`.
pub fn get_slice_arr(v: &[u8], start: usize, size: usize) -> (r: &[u8])
    requires
        start + size <= v@.len(),
    ensures
        r@ == v@.subrange(start as int, start + size),
{
    let _n = v.len();
    &v[start..start + size]
}

/// Reads a big-endian 16-bit quantity from a slice of exactly two bytes.
pub fn ju2_from_bytes(bytes: &[u8]) -> (r: Result<ju2, SliceLengthError>)
    ensures
        bytes@.len() == 2 ==> r == Ok::<ju2, SliceLengthError>(be_u16(bytes@[0], bytes@[1])),
        bytes@.len() != 2 ==> r == Err::<ju2, SliceLengthError>(
            SliceLengthError { expected: 2, found: bytes@.len() as usize },
        ),
{
    if bytes.len() != 2 {
        return Err(SliceLengthError { expected: 2, found: bytes.len() });
    }
    let hi = bytes[0] as u16;
    let lo = bytes[1] as u16;
    Ok(hi * 256 + lo)
}

/// Reads a big-endian 32-bit quantity from a slice of exactly four bytes.
pub fn ju4_from_bytes(bytes: &[u8]) -> (r: Result<ju4, SliceLengthError>)
    ensures
        bytes@.len() == 4 ==> r == Ok::<ju4, SliceLengthError>(
            be_u32(bytes@[0], bytes@[1], bytes@[2], bytes@[3]),
        ),
        bytes@.len() != 4 ==> r == Err::<ju4, SliceLengthError>(
            SliceLengthError { expected: 4, found: bytes@.len() as usize },
        ),
{
    if bytes.len() != 4 {
        return Err(SliceLengthError { expected: 4, found: bytes.len() });
    }
    let b0 = bytes[0] as u32;
    let b1 = bytes[1] as u32;
    let b2 = bytes[2] as u32;
    let b3 = bytes[3] as u32;
    Ok(b0 * 16777216 + b1 * 65536 + b2 * 256 + b3)
}

/// Reads the big-endian 16-bit quantity at `i`.
pub fn read_u16_at(bytes: &[u8], i: usize) -> (r: u16)
    requires
        i + 2 <= bytes@.len(),
    ensures
        r == be_u16_at(bytes@, i as int),
{
    let hi = bytes[i] as u16;
    let lo = bytes[i + 1] as u16;
    hi * 256 + lo
}

/// Reads the big-endian 32-bit quantity at `i`.
pub fn read_u32_at(bytes: &[u8], i: usize) -> (r: u32)
    requires
        i + 4 <= bytes@.len(),
    ensures
        r == be_u32_at(bytes@, i as int),
{
    let b0 = bytes[i] as u32;
    let b1 = bytes[i + 1] as u32;
    let b2 = bytes[i + 2] as u32;
    let b3 = bytes[i + 3] as u32;
    b0 * 16777216 + b1 * 65536 + b2 * 256 + b3
}

/// Sign-extends the low byte of `data`.
pub fn sign_extend8(data: u8) -> (r: i32)
    ensures
        r as int == (if data >= 128 { data as int - 256 } else { data as int }),
        r == data as i8 as i32,
{
    let d = data as u32;
    let r = sign_extend(d, 8);
    proof {
        assert(d < 256 ==> ((d << 24u32) as i32) >> 24u32 == d as u8 as i8 as i32) by (bit_vector);
        assert(d >= 128 && d < 256 ==> (d as u8 as i8 as i32) as int == d as int - 256) by (bit_vector);
        assert(d < 128 ==> (d as u8 as i8 as i32) as int == d as int) by (bit_vector);
    }
    r
}

/// Sign-extends a 16-bit quantity.
pub fn sign_extend16(data: u16) -> (r: i32)
    ensures
        r as int == (if data >= 32768 { data as int - 65536 } else { data as int }),
        r == data as i16 as i32,
{
    let d = data as u32;
    let r = sign_extend(d, 16);
    proof {
        assert(d < 65536 ==> ((d << 16u32) as i32) >> 16u32 == d as u16 as i16 as i32) by (bit_vector);
        assert(d >= 32768 && d < 65536 ==> (d as u16 as i16 as i32) as int == d as int - 65536) by (bit_vector);
        assert(d < 32768 ==> (d as u16 as i16 as i32) as int == d as int) by (bit_vector);
    }
    r
}

/// Sign-extends the low `size` bits of `data`: shifted to the top of 32 bits, then
/// arithmetically back.
fn sign_extend(data: u32, size: u32) -> (r: i32)
    requires
        0 < size <= 32,
    ensures
        r == ((data << (32 - size) as u32) as i32) >> (32 - size) as u32,
{
    let shift: u32 = 32 - size;
    ((data << shift) as i32) >> shift
}

/// A class name of a descriptor: `Lname;` gives `name`, an array descriptor the
/// class name of its element descriptor, anything else itself.
pub open spec fn class_name_of(d: Seq<char>) -> Seq<char>
    decreases d.len(),
{
    if d.len() > 0 && d[0] == 'L' && d[d.len() - 1] == ';' {
        d.subrange(1, d.len() - 1)
    } else if d.len() > 0 && d[0] == '[' {
        class_name_of(d.subrange(1, d.len() as int))
    } else {
        d
    }
}

/// The class name of a descriptor (see `class_name_of`).
pub fn descriptor_to_class_name(desc: &str) -> (r: String)
    ensures
        r@ == class_name_of(desc@),
    decreases desc@.len(),
{
    let n = desc.unicode_len();
    if starts_with_char(desc, 'L') && ends_with_char(desc, ';') {
        desc.substring_char(1, n - 1).to_string()
    } else if starts_with_char(desc, '[') {
        descriptor_to_class_name(desc.substring_char(1, n))
    } else {
        desc.to_string()
    }
}

/// The part of a method descriptor between its first `)` and the next `)` (or
/// the end).
pub open spec fn return_part(desc: Seq<char>) -> Seq<char> {
    let i = index_of_from(desc, ')', 0);
    desc.subrange(i + 1, index_of_from(desc, ')', i + 1))
}

/// The class name of the return type of a method descriptor, which must hold a `)`.
pub fn get_return_type_descriptor(desc: &str) -> (r: String)
    requires
        desc@.contains(')'),
    ensures
        r@ == class_name_of(return_part(desc@)),
{
    let _n = desc.unicode_len();
    let i = find_char_from(desc, ')', 0);
    proof {
        lemma_index_of_from(desc@, ')', 0);
        let k = choose|k: int| 0 <= k < desc@.len() && desc@[k] == ')';
        if i >= desc@.len() {
            assert(desc@[k] != ')');
        }
        lemma_index_of_from(desc@, ')', i + 1);
    }
    let j = find_char_from(desc, ')', i + 1);
    descriptor_to_class_name(desc.substring_char(i + 1, j))
}

/// The parameter part of a method descriptor: what stands between the first `(`
/// and the first `)`, when it has both.
pub open spec fn parameter_part(desc: Seq<char>) -> Option<Seq<char>> {
    let open = index_of_from(desc, '(', 0);
    let close = index_of_from(desc, ')', 0);
    if open < desc.len() && close < desc.len() {
        Some(desc.subrange(open + 1, close))
    } else {
        None
    }
}

/// The parameter part of a method descriptor. Where both brackets occur, the first
/// `(` must come before the first `)`.
pub fn extract_parameters(desc: &str) -> (r: Option<&str>)
    requires
        index_of_from(desc@, '(', 0) < desc@.len() && index_of_from(desc@, ')', 0) < desc@.len() ==> index_of_from(
            desc@,
            '(',
            0,
        ) < index_of_from(desc@, ')', 0),
    ensures
        match parameter_part(desc@) {
            Some(p) => (r matches Some(s) && s@ == p),
            None => r is None,
        },
{
    proof {
        lemma_index_of_from(desc@, '(', 0);
        lemma_index_of_from(desc@, ')', 0);
    }
    let n = desc.unicode_len();
    let open = find_char_from(desc, '(', 0);
    if open >= n {
        return None;
    }
    let close = find_char_from(desc, ')', 0);
    if close >= n {
        return None;
    }
    Some(desc.substring_char(open + 1, close))
}

/// Whether `c` names a primitive type in a parameter list.
pub open spec fn is_base_letter(c: char) -> bool {
    c == 'B' || c == 'C' || c == 'D' || c == 'F' || c == 'I' || c == 'J' || c == 'S' || c == 'Z'
}

/// The first position at or after `i` that is not a `[`.
pub open spec fn skip_brackets(c: Seq<char>, i: int) -> int
    decreases c.len() - i,
{
    if 0 <= i < c.len() && c[i] == '[' {
        skip_brackets(c, i + 1)
    } else {
        i
    }
}

/// Whether a parameter type starts at `i` (a primitive letter, `L` or `[`).
pub open spec fn starts_type(c: Seq<char>, i: int) -> bool {
    0 <= i < c.len() && (is_base_letter(c[i]) || c[i] == 'L' || c[i] == '[')
}

/// Where the parameter type that starts at `i` ends: after its letter, after the
/// `;` of a class name (or one past the end when there is none), for an array
/// after its element type.
pub open spec fn type_end(c: Seq<char>, i: int) -> int {
    if is_base_letter(c[i]) {
        i + 1
    } else if c[i] == 'L' {
        index_of_from(c, ';', i + 1) + 1
    } else {
        let j = skip_brackets(c, i);
        if j < c.len() && c[j] == 'L' {
            index_of_from(c, ';', j + 1) + 1
        } else {
            j + 1
        }
    }
}

/// The parameter types read from `i` on, up to the end or to the first character
/// that starts no type.
pub open spec fn param_types_from(c: Seq<char>, i: int) -> Seq<Seq<char>>
    decreases c.len() - i,
{
    if !starts_type(c, i) {
        Seq::empty()
    } else {
        let e = type_end(c, i);
        if e <= i || e > c.len() {
            Seq::empty()
        } else {
            seq![c.subrange(i, e)] + param_types_from(c, e)
        }
    }
}

/// Whether every parameter type read from `i` on ends within `c`.
pub open spec fn params_fit(c: Seq<char>, i: int) -> bool
    decreases c.len() - i,
{
    if !starts_type(c, i) {
        true
    } else {
        let e = type_end(c, i);
        if e <= i {
            true
        } else {
            e <= c.len() && params_fit(c, e)
        }
    }
}

/// `skip_brackets` moves forward, and stops at the end or at a non-bracket.
proof fn lemma_skip_brackets(c: Seq<char>, i: int)
    requires
        0 <= i,
    ensures
        i <= skip_brackets(c, i),
        skip_brackets(c, i) <= c.len() || skip_brackets(c, i) == i,
        skip_brackets(c, i) < c.len() ==> c[skip_brackets(c, i)] != '[',
    decreases c.len() - i,
{
    if 0 <= i < c.len() && c[i] == '[' {
        lemma_skip_brackets(c, i + 1);
    }
}

/// The texts of a sequence of string slices.
pub open spec fn str_texts(v: Seq<&str>) -> Seq<Seq<char>> {
    v.map_values(|s: &str| s@)
}

/// Splits an ASCII parameter list into its parameter types. Every type must end
/// within the list.
pub fn parse_parameter_types(params: &str) -> (r: Vec<&str>)
    requires
        is_ascii(params),
        params_fit(params@, 0),
    ensures
        str_texts(r@) == param_types_from(params@, 0),
{
    let ghost c = params@;
    let n = params.unicode_len();
    let mut types: Vec<&str> = Vec::new();
    let mut i: usize = 0;
    let mut done = false;
    proof {
        assert(str_texts(types@) + param_types_from(c, 0) =~= param_types_from(c, 0));
    }
    while i < n && !done
        invariant
            c == params@,
            n == c.len(),
            i <= n,
            params_fit(c, i as int),
            done ==> !starts_type(c, i as int),
            str_texts(types@) + param_types_from(c, i as int) == param_types_from(c, 0),
        decreases n - i + (if done { 0int } else { 1int }),
    {
        let start = i;
        let ch = params.get_char(i);
        if ch == 'B' || ch == 'C' || ch == 'D' || ch == 'F' || ch == 'I' || ch == 'J' || ch == 'S' || ch == 'Z' {
            i = i + 1;
        } else if ch == 'L' {
            proof {
                lemma_index_of_from(c, ';', start + 1);
            }
            i = find_char_from(params, ';', i + 1) + 1;
        } else if ch == '[' {
            proof {
                lemma_skip_brackets(c, start as int);
            }
            while i < n && params.get_char(i) == '['
                invariant
                    c == params@,
                    n == c.len(),
                    start <= i <= n,
                    c[start as int] == '[',
                    skip_brackets(c, start as int) == skip_brackets(c, i as int),
                decreases n - i,
            {
                i = i + 1;
            }
            if i < n && params.get_char(i) == 'L' {
                proof {
                    lemma_index_of_from(c, ';', i + 1);
                }
                i = find_char_from(params, ';', i + 1) + 1;
            } else {
                i = i + 1;
            }
        } else {
            done = true;
        }
        if !done {
            let ghost old_texts = str_texts(types@);
            let t = params.substring_char(start, i);
            types.push(t);
            proof {
                assert(str_texts(types@) =~= old_texts + seq![c.subrange(start as int, i as int)]);
                assert(str_texts(types@) + param_types_from(c, i as int) =~= old_texts + param_types_from(c, start as int));
            }
        }
    }
    proof {
        assert(param_types_from(c, i as int) =~= Seq::<Seq<char>>::empty());
        assert(str_texts(types@) + Seq::<Seq<char>>::empty() =~= str_texts(types@));
    }
    types
}

/// The class names of the parameter types of a method descriptor, when it has a
/// parameter part (which must be ASCII, with every type ending within it).
pub fn get_argument_class_names(descriptor: &str) -> (r: Option<Vec<String>>)
    requires
        index_of_from(descriptor@, '(', 0) < descriptor@.len() && index_of_from(descriptor@, ')', 0) < descriptor@.len()
            ==> index_of_from(descriptor@, '(', 0) < index_of_from(descriptor@, ')', 0),
        parameter_part(descriptor@) matches Some(p) ==> is_ascii_chars(p) && params_fit(p, 0),
    ensures
        match parameter_part(descriptor@) {
            Some(p) => (r matches Some(v) && texts_of(v@) == param_types_from(p, 0).map_values(
                |t: Seq<char>| class_name_of(t),
            )),
            None => r is None,
        },
{
    let params = match extract_parameters(descriptor) {
        Some(p) => p,
        None => {
            return None;
        },
    };
    let types = parse_parameter_types(params);
    let ghost pt = param_types_from(params@, 0);
    let mut names: Vec<String> = Vec::new();
    let mut k: usize = 0;
    while k < types.len()
        invariant
            k <= types@.len(),
            str_texts(types@) == pt,
            texts_of(names@) == pt.subrange(0, k as int).map_values(|t: Seq<char>| class_name_of(t)),
        decreases types@.len() - k,
    {
        let ghost old_names = texts_of(names@);
        assert(pt[k as int] == types@[k as int]@);
        let name = descriptor_to_class_name(types[k]);
        let ghost nt = name@;
        names.push(name);
        assert(texts_of(names@) =~= old_names.push(nt));
        assert(pt.subrange(0, k + 1).map_values(|t: Seq<char>| class_name_of(t)) =~= pt.subrange(0, k as int).map_values(
            |t: Seq<char>| class_name_of(t),
        ).push(class_name_of(pt[k as int])));
        k = k + 1;
    }
    assert(pt.subrange(0, k as int) =~= pt);
    Some(names)
}

/// The texts of a sequence of strings.
pub open spec fn texts_of(v: Seq<String>) -> Seq<Seq<char>> {
    v.map_values(|s: String| s@)
}

/// The width in bytes of an element of an array class, when the name is that of
/// an array class.
pub open spec fn index_scale(c: Seq<char>) -> Option<u32> {
    if c == "[B"@ || c == "[Z"@ {
        Some(1)
    } else if c == "[S"@ || c == "[C"@ {
        Some(2)
    } else if c == "[I"@ || c == "[F"@ {
        Some(4)
    } else if c == "[J"@ || c == "[D"@ {
        Some(8)
    } else if c.len() >= 2 && c[0] == '[' && (c[1] == 'L' || c[1] == '[') {
        Some(4)
    } else {
        None
    }
}

/// The width in bytes of an element of the array class `class_name`, which must
/// be the name of an array class.
pub fn get_index_scale(class_name: &str) -> (r: u32)
    requires
        index_scale(class_name@) is Some,
    ensures
        index_scale(class_name@) == Some(r),
{
    if str_eq(class_name, "[B") || str_eq(class_name, "[Z") {
        1
    } else if str_eq(class_name, "[S") || str_eq(class_name, "[C") {
        2
    } else if str_eq(class_name, "[I") || str_eq(class_name, "[F") {
        4
    } else if str_eq(class_name, "[J") || str_eq(class_name, "[D") {
        8
    } else {
        4
    }
}

/// The initial value of a field with descriptor `d`: zero of a primitive type,
/// null for a class or an array; none for another descriptor.
pub open spec fn default_value_of(d: Seq<char>) -> Option<Type> {
    if d == "Z"@ {
        Some(Type::Boolean(false))
    } else if d == "C"@ {
        Some(Type::Character(0))
    } else if d == "F"@ {
        Some(Type::Float(0))
    } else if d == "D"@ {
        Some(Type::Double(0))
    } else if d == "B"@ {
        Some(Type::Byte(0))
    } else if d == "S"@ {
        Some(Type::Short(0))
    } else if d == "I"@ {
        Some(Type::Integer(0))
    } else if d == "J"@ {
        Some(Type::Long(0))
    } else if d.contains('/') {
        Some(Type::Null)
    } else if d.len() > 0 && d[0] == '[' {
        Some(Type::Null)
    } else {
        None
    }
}

/// The initial value of a field whose descriptor is `class_name`, which must be
/// a primitive letter, a class or an array descriptor.
pub fn get_default_value(class_name: &str) -> (r: Type)
    requires
        default_value_of(class_name@) is Some,
    ensures
        default_value_of(class_name@) == Some(r),
{
    if str_eq(class_name, "Z") {
        Type::Boolean(false)
    } else if str_eq(class_name, "C") {
        Type::Character(0)
    } else if str_eq(class_name, "F") {
        Type::Float(0)
    } else if str_eq(class_name, "D") {
        Type::Double(0)
    } else if str_eq(class_name, "B") {
        Type::Byte(0)
    } else if str_eq(class_name, "S") {
        Type::Short(0)
    } else if str_eq(class_name, "I") {
        Type::Integer(0)
    } else if str_eq(class_name, "J") {
        Type::Long(0)
    } else {
        Type::Null
    }
}

/// A name with each `from` replaced by `to`.
pub open spec fn replace_char(name: Seq<char>, from: char, to: char) -> Seq<char> {
    name.map_values(|c: char| if c == from { to } else { c })
}

/// The internal form of a binary class name (`java.lang.String` becomes
/// `java/lang/String`).
pub open spec fn slashed(name: Seq<char>) -> Seq<char> {
    replace_char(name, '.', '/')
}

/// `name` with each `from` replaced by the one-character text `to`.
fn replace_in(name: &str, from: char, to: &str) -> (r: String)
    requires
        to@.len() == 1,
    ensures
        r@ == replace_char(name@, from, to@[0]),
{
    let n = name.unicode_len();
    let mut out = String::new();
    let mut i: usize = 0;
    while i < n
        invariant
            n == name@.len(),
            i <= n,
            to@.len() == 1,
            out@ == replace_char(name@.subrange(0, i as int), from, to@[0]),
        decreases n - i,
    {
        let c = name.get_char(i);
        if c == from {
            out.append(to);
        } else {
            out.append(name.substring_char(i, i + 1));
        }
        proof {
            assert(name@.subrange(0, i + 1) =~= name@.subrange(0, i as int).push(c));
            assert(replace_char(name@.subrange(0, i + 1), from, to@[0]) =~= replace_char(
                name@.subrange(0, i as int),
                from,
                to@[0],
            ).push(if c == from { to@[0] } else { c }));
        }
        i = i + 1;
    }
    assert(name@.subrange(0, n as int) =~= name@);
    out
}

/// The internal form of a binary class name: dots become slashes.
pub fn dotclass_to_class(name: &str) -> (r: String)
    ensures
        r@ == slashed(name@),
{
    proof {
        reveal_strlit("/");
    }
    replace_in(name, '.', "/")
}

/// The binary form of an internal class name: slashes become dots.
pub fn class_to_dotclass(name: &str) -> (r: String)
    ensures
        r@ == replace_char(name@, '/', '.'),
{
    proof {
        reveal_strlit(".");
    }
    replace_in(name, '/', ".")
}

} // verus!
