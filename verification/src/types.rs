use vstd::prelude::*;
use vstd::string::*;

use crate::errors::InternalError;
use crate::text::{ends_with_char, starts_with_char};
use crate::utils::ju4;

verus! {

/// A value of the virtual machine: what a local variable, an operand-stack slot,
/// a field or an array element holds.
///
/// `Float` and `Double` carry the IEEE 754 bit pattern of the number, so two such
/// values are equal exactly when their bits are.
#[allow(non_camel_case_types)]
#[derive(Debug, Clone, Copy, PartialEq, Eq, Structural)]
pub enum Type {
    /// No value at all (what a `void` method returns, and an unset local).
    Void,
    _Unitialized,
    Null,
    Byte(i8),
    Boolean(bool),
    Character(i8),
    Short(i16),
    Integer(i32),
    Float(u32),
    Long(i64),
    Double(u64),
    ArrayRef(ju4),
    ObjectRef(ju4),
}

/// Whether a value belongs to the integer family (`int`, `short`, `byte`, `char`,
/// `boolean`), the values that the `i` instructions accept.
pub open spec fn is_int_kind(t: Type) -> bool {
    match t {
        Type::Integer(_) | Type::Short(_) | Type::Byte(_) | Type::Character(_) | Type::Boolean(_) => true,
        _ => false,
    }
}

/// The `int` that a value of the integer family stands for.
pub open spec fn int_value(t: Type) -> i32 {
    match t {
        Type::Integer(v) => v,
        Type::Short(v) => v as i32,
        Type::Byte(v) => v as i32,
        Type::Character(v) => v as i32,
        Type::Boolean(b) => if b { 1i32 } else { 0i32 },
        _ => 0i32,
    }
}

/// The number of operand-stack words a value takes; `Void` takes none.
pub open spec fn category(t: Type) -> u8 {
    match t {
        Type::Long(_) | Type::Double(_) => 2,
        Type::Void => 0,
        _ => 1,
    }
}

/// The `long` that a value converts to with `as_long`, when it converts.
pub open spec fn long_value(t: Type) -> Option<i64> {
    match t {
        Type::Byte(b) => Some(b as i64),
        Type::Boolean(b) => Some(if b { 1i64 } else { 0i64 }),
        Type::Character(c) => Some(c as i64),
        Type::Short(s) => Some(s as i64),
        Type::Integer(i) => Some(i as i64),
        Type::Long(l) => Some(l),
        _ => None,
    }
}

impl Type {
    /// How many operand-stack words the value takes.
    pub fn get_category(&self) -> (r: u8)
        requires
            !(*self is _Unitialized),
        ensures
            r == category(*self),
    {
        match self {
            Type::Long(_) => 2,
            Type::Double(_) => 2,
            Type::Void => 0,
            _ => 1,
        }
    }

    /// The bits of a `float` value.
    pub fn as_float(&self) -> (r: Result<u32, InternalError>)
        ensures
            match *self {
                Type::Float(bits) => r == Ok::<u32, InternalError>(bits),
                _ => r == Err::<u32, InternalError>(InternalError::WrongType("Number", *self)),
            },
    {
        match self {
            Type::Float(bits) => Ok(*bits),
            _ => Err(InternalError::WrongType("Number", *self)),
        }
    }

    /// The truth value of a primitive: nonzero means `true`; a `float` or `double`
    /// is `true` unless it is a zero of either sign.
    pub fn as_bool(&self) -> (r: Result<bool, InternalError>)
        ensures
            match *self {
                Type::Byte(b) => r == Ok::<bool, InternalError>(b != 0),
                Type::Boolean(b) => r == Ok::<bool, InternalError>(b),
                Type::Character(c) => r == Ok::<bool, InternalError>(c != 0),
                Type::Short(s) => r == Ok::<bool, InternalError>(s != 0),
                Type::Integer(i) => r == Ok::<bool, InternalError>(i != 0),
                Type::Long(l) => r == Ok::<bool, InternalError>(l != 0),
                Type::Float(bits) => r == Ok::<bool, InternalError>(
                    bits != 0 && bits != 0x8000_0000u32,
                ),
                Type::Double(bits) => r == Ok::<bool, InternalError>(
                    bits != 0 && bits != 0x8000_0000_0000_0000u64,
                ),
                _ => r == Err::<bool, InternalError>(InternalError::WrongType("Boolean", *self)),
            },
    {
        match self {
            Type::Byte(b) => Ok(*b != 0),
            Type::Boolean(b) => Ok(*b),
            Type::Character(c) => Ok(*c != 0),
            Type::Short(s) => Ok(*s != 0),
            Type::Integer(i) => Ok(*i != 0),
            Type::Long(l) => Ok(*l != 0),
            Type::Float(bits) => Ok(*bits != 0 && *bits != 0x8000_0000u32),
            Type::Double(bits) => Ok(*bits != 0 && *bits != 0x8000_0000_0000_0000u64),
            _ => Err(InternalError::WrongType("Boolean", *self)),
        }
    }

    /// The value as a `short` (integers are truncated to their low 16 bits).
    pub fn as_short(&self) -> (r: Result<i16, InternalError>)
        ensures
            match *self {
                Type::Byte(b) => r == Ok::<i16, InternalError>(b as i16),
                Type::Boolean(b) => r == Ok::<i16, InternalError>(if b { 1i16 } else { 0i16 }),
                Type::Character(c) => r == Ok::<i16, InternalError>(c as i16),
                Type::Short(s) => r == Ok::<i16, InternalError>(s),
                Type::Integer(i) => r == Ok::<i16, InternalError>(i as i16),
                Type::Long(l) => r == Ok::<i16, InternalError>(l as i16),
                _ => r == Err::<i16, InternalError>(InternalError::WrongType("Short", *self)),
            },
    {
        match self {
            Type::Byte(b) => Ok(*b as i16),
            Type::Boolean(b) => Ok(if *b { 1 } else { 0 }),
            Type::Character(c) => Ok(*c as i16),
            Type::Short(s) => Ok(*s),
            Type::Integer(i) => Ok(*i as i16),
            Type::Long(l) => Ok(*l as i16),
            _ => Err(InternalError::WrongType("Short", *self)),
        }
    }

    /// The value as a `byte` (integers are truncated to their low 8 bits).
    pub fn as_byte(&self) -> (r: Result<i8, InternalError>)
        ensures
            match *self {
                Type::Byte(b) => r == Ok::<i8, InternalError>(b),
                Type::Boolean(b) => r == Ok::<i8, InternalError>(if b { 1i8 } else { 0i8 }),
                Type::Character(c) => r == Ok::<i8, InternalError>(c),
                Type::Short(s) => r == Ok::<i8, InternalError>(s as i8),
                Type::Integer(i) => r == Ok::<i8, InternalError>(i as i8),
                Type::Long(l) => r == Ok::<i8, InternalError>(l as i8),
                _ => r == Err::<i8, InternalError>(InternalError::WrongType("Byte", *self)),
            },
    {
        match self {
            Type::Byte(b) => Ok(*b),
            Type::Boolean(b) => Ok(if *b { 1 } else { 0 }),
            Type::Character(c) => Ok(*c),
            Type::Short(s) => Ok(*s as i8),
            Type::Integer(i) => Ok(*i as i8),
            Type::Long(l) => Ok(*l as i8),
            _ => Err(InternalError::WrongType("Byte", *self)),
        }
    }

    /// The value as an `int` (a `long` is truncated to its low 32 bits).
    pub fn as_integer(&self) -> (r: Result<i32, InternalError>)
        ensures
            match *self {
                Type::Long(l) => r == Ok::<i32, InternalError>(l as i32),
                _ => if is_int_kind(*self) {
                    r == Ok::<i32, InternalError>(int_value(*self))
                } else {
                    r == Err::<i32, InternalError>(InternalError::WrongType("Integer", *self))
                },
            },
    {
        match self {
            Type::Byte(b) => Ok(*b as i32),
            Type::Boolean(b) => Ok(if *b { 1 } else { 0 }),
            Type::Character(c) => Ok(*c as i32),
            Type::Short(s) => Ok(*s as i32),
            Type::Integer(i) => Ok(*i),
            Type::Long(l) => Ok(*l as i32),
            _ => Err(InternalError::WrongType("Integer", *self)),
        }
    }

    /// The value as a `long`.
    pub fn as_long(&self) -> (r: Result<i64, InternalError>)
        ensures
            match long_value(*self) {
                Some(v) => r == Ok::<i64, InternalError>(v),
                None => r == Err::<i64, InternalError>(InternalError::WrongType("Long", *self)),
            },
    {
        match self {
            Type::Byte(b) => Ok(*b as i64),
            Type::Boolean(b) => Ok(if *b { 1 } else { 0 }),
            Type::Character(c) => Ok(*c as i64),
            Type::Short(s) => Ok(*s as i64),
            Type::Integer(i) => Ok(*i as i64),
            Type::Long(l) => Ok(*l),
            _ => Err(InternalError::WrongType("Long", *self)),
        }
    }

    /// The heap reference a value holds; `null` is reference 0.
    pub fn as_ref(&self) -> (r: Result<ju4, InternalError>)
        ensures
            match *self {
                Type::ObjectRef(a) => r == Ok::<ju4, InternalError>(a),
                Type::ArrayRef(a) => r == Ok::<ju4, InternalError>(a),
                Type::Null => r == Ok::<ju4, InternalError>(0),
                _ => r == Err::<ju4, InternalError>(InternalError::WrongType("Reference", *self)),
            },
    {
        match self {
            Type::ObjectRef(a) => Ok(*a),
            Type::ArrayRef(a) => Ok(*a),
            Type::Null => Ok(0),
            _ => Err(InternalError::WrongType("Reference", *self)),
        }
    }

    /// Whether the value belongs to the integer family.
    pub fn is_integer(&self) -> (r: bool)
        ensures
            r == is_int_kind(*self),
    {
        match self {
            Type::Integer(_) | Type::Short(_) | Type::Byte(_) | Type::Character(_) | Type::Boolean(_) => true,
            _ => false,
        }
    }

    /// The element class of an array descriptor (`[Ljava/lang/String;` gives
    /// `java/lang/String`, `[B` gives `B`), or the class of a class descriptor
    /// (`Ljava/lang/String;`); a primitive descriptor stays as it is. Other
    /// descriptors are refused.
    pub fn convert_array_descriptor_to_class_type(descriptor: &str) -> (r: String)
        requires
            element_class(descriptor@) is Some,
        ensures
            element_class(descriptor@) == Some(r@),
    {
        let n = descriptor.unicode_len();
        if Type::is_primitive(descriptor) {
            descriptor.to_string()
        } else if n >= 2 && descriptor.get_char(0) == '[' && descriptor.get_char(1) == 'L' && ends_with_char(
            descriptor,
            ';',
        ) {
            descriptor.substring_char(2, n - 1).to_string()
        } else if starts_with_char(descriptor, '[') {
            descriptor.substring_char(1, n).to_string()
        } else {
            descriptor.substring_char(1, n - 1).to_string()
        }
    }

    /// Whether `type_str` is the descriptor of a primitive type
    /// (one of `F D Z C I B S J`).
    pub fn is_primitive(type_str: &str) -> (r: bool)
        ensures
            r == is_primitive_descriptor(type_str@),
    {
        type_str.unicode_len() == 1 && is_primitive_char(type_str.get_char(0))
    }
}

/// The class that a descriptor designates for `convert_array_descriptor_to_class_type`.
pub open spec fn element_class(d: Seq<char>) -> Option<Seq<char>> {
    if is_primitive_descriptor(d) {
        Some(d)
    } else if d.len() >= 2 && d[0] == '[' && d[1] == 'L' && d[d.len() - 1] == ';' {
        Some(d.subrange(2, d.len() - 1))
    } else if d.len() >= 1 && d[0] == '[' {
        Some(d.subrange(1, d.len() as int))
    } else if d.len() >= 2 && d[0] == 'L' && d[d.len() - 1] == ';' {
        Some(d.subrange(1, d.len() - 1))
    } else {
        None
    }
}

/// The letters that name the primitive types in descriptors.
pub open spec fn is_primitive_letter(c: char) -> bool {
    c == 'F' || c == 'D' || c == 'Z' || c == 'C' || c == 'I' || c == 'B' || c == 'S' || c == 'J'
}

/// Whether a descriptor is one primitive letter.
pub open spec fn is_primitive_descriptor(s: Seq<char>) -> bool {
    s.len() == 1 && is_primitive_letter(s[0])
}

/// Whether `c` is one of the primitive letters.
pub fn is_primitive_char(c: char) -> (r: bool)
    ensures
        r == is_primitive_letter(c),
{
    c == 'F' || c == 'D' || c == 'Z' || c == 'C' || c == 'I' || c == 'B' || c == 'S' || c == 'J'
}

} // verus!
