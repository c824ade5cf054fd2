use vstd::prelude::*;

verus! {

/// No reference kind (a null handle).
pub const REF_NONE: i32 = 0;

/// Reference kind of a handle that reads an instance field.
pub const REF_GET_FIELD: i32 = 1;

/// Reference kind of a handle that reads a static field.
pub const REF_GET_STATIC: i32 = 2;

/// Reference kind of a handle that writes an instance field.
pub const REF_PUT_FIELD: i32 = 3;

/// Reference kind of a handle that writes a static field.
pub const REF_PUT_STATIC: i32 = 4;

/// Reference kind of a handle that invokes a virtual method.
pub const REF_INVOKE_VIRTUAL: i32 = 5;

/// Reference kind of a handle that invokes a static method.
pub const REF_INVOKE_STATIC: i32 = 6;

/// Reference kind of a handle that invokes a method directly.
pub const REF_INVOKE_SPECIAL: i32 = 7;

/// Reference kind of a handle that creates an object and runs its constructor.
pub const REF_NEW_INVOKE_SPECIAL: i32 = 8;

/// Reference kind of a handle that invokes an interface method.
pub const REF_INVOKE_INTERFACE: i32 = 9;

/// One past the last reference kind.
pub const REF_LIMIT: i32 = 10;

/// Member-name flag: a method (not a constructor).
pub const MN_IS_METHOD: i32 = 0x00010000;

/// Member-name flag: a constructor.
pub const MN_IS_CONSTRUCTOR: i32 = 0x00020000;

/// Member-name flag: a field.
pub const MN_IS_FIELD: i32 = 0x00040000;

/// Member-name flag: a nested type.
pub const MN_IS_TYPE: i32 = 0x00080000;

/// Member-name flag: a caller-sensitive method.
pub const MN_CALLER_SENSITIVE: i32 = 0x00100000;

/// Member-name flag: a trusted final field.
pub const MN_TRUSTED_FINAL: i32 = 0x00200000;

/// Member-name flag: a member of a hidden class.
pub const MN_HIDDEN_MEMBER: i32 = 0x00400000;

/// Where the reference kind stands in member-name flags.
pub const MN_REFERENCE_KIND_SHIFT: i32 = 24;

/// The mask of the reference kind once shifted down.
pub const MN_REFERENCE_KIND_MASK: i32 = 0x0F;

/// A constant that a method-handle constant or a call site resolves to.
#[derive(Debug)]
pub enum ConstantInfo {
    Type {},
    MethodHandle { method_name: String, descriptor: String },
    MemberName {},
    String {},
    VarHandle { field_name: String, descriptor: String },
    CallSite { bootstrap_args: Vec<String> },
}

/// Tests of member-name flags.
#[derive(Debug)]
pub struct Constants {}

impl Constants {
    /// Whether the flags mark a method.
    pub fn is_method(flags: i32) -> (r: bool)
        ensures
            r == (flags & MN_IS_METHOD != 0),
    {
        flags & MN_IS_METHOD != 0
    }

    /// Whether the flags mark a field.
    pub fn is_field(flags: i32) -> (r: bool)
        ensures
            r == (flags & MN_IS_FIELD != 0),
    {
        flags & MN_IS_FIELD != 0
    }

    /// Whether the flags mark a constructor.
    pub fn is_constructor(flags: i32) -> (r: bool)
        ensures
            r == (flags & MN_IS_CONSTRUCTOR != 0),
    {
        flags & MN_IS_CONSTRUCTOR != 0
    }
}

} // verus!
