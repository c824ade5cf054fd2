use vstd::prelude::*;
use vstd::utf8::{decode_utf8, valid_utf8};

verus! {

/// Why a class file, or a part of one, was rejected.
#[derive(Debug, Clone, Copy, PartialEq, Eq, Structural)]
pub enum FormatError {
    /// A constant-pool entry with a tag that the format does not define.
    UnknownConstantTag(u8),
    /// A constant-pool index with no entry (the index, the pool's count).
    IndexNotFound(u16, u16),
    /// The entry at this index is not a `Utf8` entry.
    NotUtf8(u16),
    /// The entry at this index is not a `Class` entry.
    NotClass(u16),
    /// The entry at this index is not a `NameAndType` entry.
    NotNameAndType(u16),
    /// The entry at this index is not a `Fieldref` entry.
    NotFieldRef(u16),
    /// The entry at this index is neither a `Methodref` nor an `InterfaceMethodref` entry.
    NotMethodRef(u16),
    /// The entry at this index is not a `MethodHandle` entry.
    NotMethodHandle(u16),
    /// The entry at this index is not a `MethodType` entry.
    NotMethodType(u16),
    /// The entry at this index is not an `InvokeDynamic` entry.
    NotInvokeDynamic(u16),
    /// The entry at this index has no name-and-type part.
    NotRef(u16),
    /// The entry at this index is not a `Float` entry.
    NotFloat(u16),
    /// An annotation element value with a tag the format does not define.
    UnknownElementTag(u8),
    /// A verification type with a tag the format does not define.
    UnknownVerificationType(u8),
    /// A stack map frame type the format does not define.
    UnknownStackMapFrame(u8),
}

/// The outcome of reading a structure from bytes: the structure, a rejection, or
/// an input on which the reader would fail outright (it runs past the end of the
/// bytes, or meets a structure it does not handle). The readers of this crate are
/// only called on inputs of the first two kinds.
pub enum Parsed<T> {
    Done(T),
    Fail(FormatError),
    Panic,
}

/// Whether a reading outcome is one on which the reader returns.
pub open spec fn reads<T>(p: Parsed<T>) -> bool {
    !(p is Panic)
}

/// The text that the bytes of a `Utf8` entry stand for: their UTF-8 decoding,
/// or the empty text when they are not valid UTF-8.
pub open spec fn utf8_text(bytes: Seq<u8>) -> Seq<char> {
    if valid_utf8(bytes) {
        decode_utf8(bytes)
    } else {
        Seq::<char>::empty()
    }
}

/// `String::from_utf8`: the string is the decoding of `bytes` when they are valid
/// UTF-8 (per vstd's `valid_utf8` and `decode_utf8`); otherwise there is none.
#[verifier::external_body]
pub(crate) fn string_from_utf8(bytes: Vec<u8>) -> (r: Option<String>)
    ensures
        r is Some <==> valid_utf8(bytes@),
        r matches Some(s) ==> s@ == decode_utf8(bytes@),
{
    String::from_utf8(bytes).ok()
}

/// The text of the bytes of a `Utf8` entry, empty when they are not valid UTF-8.
pub fn utf8_to_string(bytes: &Vec<u8>) -> (r: String)
    ensures
        r@ == utf8_text(bytes@),
{
    match string_from_utf8(bytes.clone()) {
        Some(s) => s,
        None => String::new(),
    }
}

} // verus!
