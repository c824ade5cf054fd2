use vstd::prelude::*;
use vstd::string::*;

use crate::text::str_eq;
use crate::types::Type;


verus! {

/// A failure inside the virtual machine itself (not a Java exception).
#[derive(Debug)]
pub enum InternalError {
    FrameNotFound,
    WrongType(&'static str, Type),
    WrongInstance(&'static str, String),
    General(String),
    Exception(String),
    NotImplemented,
    NativeNotImplemented(String, String, String),
    WrongClass(String, String),
    ClassNotFound(String),
    CodeNotFound(String, String, String),
    MethodNotFound(String, String, String),
    SegmentationFault(u64),
    /// A value was popped from an empty operand stack.
    EmptyStack,
    /// An instruction read past the end of the method's code.
    EndOfCode,
    /// A local variable index at or past the number of locals.
    LocalOutOfRange(usize, usize),
    /// No field of the class has this name or this position.
    FieldNotFound,
    /// The class has no static field of this name.
    StaticFieldNotFound(String),
    /// No module has this reference, or holds this package.
    ModuleNotFound,
    /// The superclasses of this class lead back to a class already visited.
    ClassCircularity(String),
    /// No class on the way up from this class resolves this constant-pool index.
    ConstantNotFound(String, u16),
    /// No instance has this heap reference.
    InstanceNotFound(u32),
    /// This heap reference designates an object where an array was expected.
    NotAnArray(u32),
    /// This heap reference designates an array where an object was expected.
    NotAnObject(u32),
    /// A `newarray` operand that names no primitive type.
    UnknownArrayType(u8),
    /// `ldc` or `ldc_w` of a `long` or `double` entry (at this index).
    WideConstant(u16),
    /// A negative dimension of a multi-dimensional array.
    NegativeArraySize(i32),
    /// A method descriptor whose parameters cannot be counted.
    BadDescriptor,
    /// The array has another element type than the instruction works on.
    WrongArrayClass(u32),
    /// A `tableswitch` whose low bound is not below its high bound.
    SwitchBounds(i32, i32),
    /// A `lookupswitch` with a negative number of pairs.
    NegativePairCount(i32),
}

/// A failure of the running program that the machine reports as it is.
#[derive(Debug)]
pub enum RuntimeError {
    /// A native method that no routine carries out.
    NotImplementedException,
}

/// A Java exception that the machine raises.
#[derive(Debug)]
pub enum JavaException {
    NullPointer,
    CloneNotSupported(String),
    ArrayIndexOutOfBounds(usize, usize),
    Arithmetic,
    IO(String),
    FileNotFound(String),
    LinkageError,
    AssertionError,
    IllegalArgumentException(String),
}

/// The binary name of the Java class of an exception.
pub open spec fn exception_classname(e: JavaException) -> Seq<char> {
    match e {
        JavaException::NullPointer => "java/lang/NullPointerException"@,
        JavaException::CloneNotSupported(_) => "java/lang/CloneNotSupportedException"@,
        JavaException::ArrayIndexOutOfBounds(_, _) => "java/lang/ArrayIndexOutOfBoundsException"@,
        JavaException::Arithmetic => "java/lang/ArithmeticException"@,
        JavaException::IO(_) => "java/lang/IOException"@,
        JavaException::FileNotFound(_) => "java/lang/FileNotFoundException"@,
        JavaException::LinkageError => "java/lang/LinkageError"@,
        JavaException::AssertionError => "java/lang/AssertionError"@,
        JavaException::IllegalArgumentException(_) => "java/lang/IllegalArgumentException"@,
    }
}

/// Whether `name` is the class name of one of the exceptions the machine raises.
pub open spec fn is_known_exception_class(name: Seq<char>) -> bool {
    name == "java/lang/NullPointerException"@
    || name == "java/lang/CloneNotSupportedException"@
    || name == "java/lang/ArrayIndexOutOfBoundsException"@
    || name == "java/lang/ArithmeticException"@
    || name == "java/lang/IOException"@
    || name == "java/lang/FileNotFoundException"@
    || name == "java/lang/LinkageError"@
    || name == "java/lang/AssertionError"@
    || name == "java/lang/IllegalArgumentException"@
}

/// The exception that a class name stands for, carrying `msg` where the exception
/// has a message (an index exception gets `usize::MAX` for both numbers).
pub open spec fn exception_of_classname(name: Seq<char>, msg: String) -> JavaException {
    if name == "java/lang/NullPointerException"@ {
        JavaException::NullPointer
    } else if name == "java/lang/CloneNotSupportedException"@ {
        JavaException::CloneNotSupported(msg)
    } else if name == "java/lang/ArrayIndexOutOfBoundsException"@ {
        JavaException::ArrayIndexOutOfBounds(usize::MAX, usize::MAX)
    } else if name == "java/lang/ArithmeticException"@ {
        JavaException::Arithmetic
    } else if name == "java/lang/IOException"@ {
        JavaException::IO(msg)
    } else if name == "java/lang/FileNotFoundException"@ {
        JavaException::FileNotFound(msg)
    } else if name == "java/lang/LinkageError"@ {
        JavaException::LinkageError
    } else if name == "java/lang/AssertionError"@ {
        JavaException::AssertionError
    } else if name == "java/lang/IllegalArgumentException"@ {
        JavaException::IllegalArgumentException(msg)
    } else {
        JavaException::NullPointer
    }
}

/// Whether two exceptions are of the same kind, whatever they carry.
pub open spec fn same_kind(a: JavaException, b: JavaException) -> bool {
    match (a, b) {
        (JavaException::NullPointer, JavaException::NullPointer) => true,
        (JavaException::CloneNotSupported(_), JavaException::CloneNotSupported(_)) => true,
        (JavaException::ArrayIndexOutOfBounds(_, _), JavaException::ArrayIndexOutOfBounds(_, _)) => true,
        (JavaException::Arithmetic, JavaException::Arithmetic) => true,
        (JavaException::IO(_), JavaException::IO(_)) => true,
        (JavaException::FileNotFound(_), JavaException::FileNotFound(_)) => true,
        (JavaException::LinkageError, JavaException::LinkageError) => true,
        (JavaException::AssertionError, JavaException::AssertionError) => true,
        (JavaException::IllegalArgumentException(_), JavaException::IllegalArgumentException(_)) => true,
        _ => false,
    }
}

impl JavaException {
    /// The binary name of the Java class of an exception.
    pub fn convert_java_exception_to_classname(exception: &JavaException) -> (r: &'static str)
        ensures
            r@ == exception_classname(*exception),
    {
        match exception {
            JavaException::NullPointer => "java/lang/NullPointerException",
            JavaException::CloneNotSupported(_) => "java/lang/CloneNotSupportedException",
            JavaException::ArrayIndexOutOfBounds(_, _) => "java/lang/ArrayIndexOutOfBoundsException",
            JavaException::Arithmetic => "java/lang/ArithmeticException",
            JavaException::IO(_) => "java/lang/IOException",
            JavaException::FileNotFound(_) => "java/lang/FileNotFoundException",
            JavaException::LinkageError => "java/lang/LinkageError",
            JavaException::AssertionError => "java/lang/AssertionError",
            JavaException::IllegalArgumentException(_) => "java/lang/IllegalArgumentException",
        }
    }

    /// The exception that a Java class name stands for.
    pub fn convert_classname_to_java_exception(classname: &str, msg: String) -> (r: JavaException)
        requires
            is_known_exception_class(classname@),
        ensures
            r == exception_of_classname(classname@, msg),
    {
        if str_eq(classname, "java/lang/NullPointerException") {
            JavaException::NullPointer
        } else if str_eq(classname, "java/lang/CloneNotSupportedException") {
            JavaException::CloneNotSupported(msg)
        } else if str_eq(classname, "java/lang/ArrayIndexOutOfBoundsException") {
            JavaException::ArrayIndexOutOfBounds(usize::MAX, usize::MAX)
        } else if str_eq(classname, "java/lang/ArithmeticException") {
            JavaException::Arithmetic
        } else if str_eq(classname, "java/lang/IOException") {
            JavaException::IO(msg)
        } else if str_eq(classname, "java/lang/FileNotFoundException") {
            JavaException::FileNotFound(msg)
        } else if str_eq(classname, "java/lang/LinkageError") {
            JavaException::LinkageError
        } else if str_eq(classname, "java/lang/AssertionError") {
            JavaException::AssertionError
        } else if str_eq(classname, "java/lang/IllegalArgumentException") {
            JavaException::IllegalArgumentException(msg)
        } else {
            JavaException::NullPointer
        }
    }
}

/// Naming an exception's class and turning the name back into an exception gives
/// an exception of the same kind.
pub proof fn lemma_exception_classname_roundtrip(e: JavaException, msg: String)
    ensures
        is_known_exception_class(exception_classname(e)),
        same_kind(exception_of_classname(exception_classname(e), msg), e),
{
    reveal_strlit("java/lang/NullPointerException");
    reveal_strlit("java/lang/CloneNotSupportedException");
    reveal_strlit("java/lang/ArrayIndexOutOfBoundsException");
    reveal_strlit("java/lang/ArithmeticException");
    reveal_strlit("java/lang/IOException");
    reveal_strlit("java/lang/FileNotFoundException");
    reveal_strlit("java/lang/LinkageError");
    reveal_strlit("java/lang/AssertionError");
    reveal_strlit("java/lang/IllegalArgumentException");
    assert("java/lang/NullPointerException"@.len() == 30);
    assert("java/lang/CloneNotSupportedException"@.len() == 36);
    assert("java/lang/ArrayIndexOutOfBoundsException"@.len() == 40);
    assert("java/lang/ArithmeticException"@.len() == 29);
    assert("java/lang/IOException"@.len() == 21);
    assert("java/lang/FileNotFoundException"@.len() == 31);
    assert("java/lang/LinkageError"@.len() == 22);
    assert("java/lang/AssertionError"@.len() == 24);
    assert("java/lang/IllegalArgumentException"@.len() == 34);
}

/// Turning a known class name into an exception and naming its class gives the
/// name back.
pub proof fn lemma_classname_exception_roundtrip(name: Seq<char>, msg: String)
    requires
        is_known_exception_class(name),
    ensures
        exception_classname(exception_of_classname(name, msg)) == name,
{
    reveal_strlit("java/lang/NullPointerException");
    reveal_strlit("java/lang/CloneNotSupportedException");
    reveal_strlit("java/lang/ArrayIndexOutOfBoundsException");
    reveal_strlit("java/lang/ArithmeticException");
    reveal_strlit("java/lang/IOException");
    reveal_strlit("java/lang/FileNotFoundException");
    reveal_strlit("java/lang/LinkageError");
    reveal_strlit("java/lang/AssertionError");
    reveal_strlit("java/lang/IllegalArgumentException");
    assert("java/lang/NullPointerException"@.len() == 30);
    assert("java/lang/CloneNotSupportedException"@.len() == 36);
    assert("java/lang/ArrayIndexOutOfBoundsException"@.len() == 40);
    assert("java/lang/ArithmeticException"@.len() == 29);
    assert("java/lang/IOException"@.len() == 21);
    assert("java/lang/FileNotFoundException"@.len() == 31);
    assert("java/lang/LinkageError"@.len() == 22);
    assert("java/lang/AssertionError"@.len() == 24);
    assert("java/lang/IllegalArgumentException"@.len() == 34);
}

} // verus!
