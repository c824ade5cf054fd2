use vstd::prelude::*;

use crate::text::str_eq;

verus! {

/// The native methods that the machine carries out itself, each named after
/// the Java method it stands for. The host runs the routine; which one a call
/// of a native method reaches is decided here.
#[derive(Debug, Clone, Copy, PartialEq, Eq, Structural)]
pub enum NativeRoutine {
    RegisterNatives,
    DesiredAssertionStatus0,
    PlatformProperties,
    VmProperties,
    GetPrimitiveClass,
    HashCode,
    GetClass,
    ArrayBaseOffset0,
    ArrayIndexScale0,
    InitClassName,
    Arraycopy,
    FloatToRawIntBits,
    FloatToIntBits,
    DoubleToRawLongBits,
    DoubleToLongBits,
    IsPrimitive,
    FillInStackTrace,
    Initialize,
    MaxMemory,
    GetCdsConfigStatus,
    InitializeFromArchive,
    GetRandomSeedForDumping,
    FullFence,
    AvailableProcessors,
    GetNextThreadIdOffset,
    ObjectFieldOffset1,
    CompareAndSetInt,
    CompareAndSetReference,
    CompareAndSetLong,
    GetReferenceVolatile,
    PutReferenceVolatile,
    FiledescriptorInitIds,
    GetHandle,
    GetAppend,
    SetIn0,
    SetOut0,
    SetErr0,
    Clone,
    FindSignal0,
    Handle0,
    CurrentThread,
    UnsafeGetLongVolatile,
    UnsafeGetIntVolatile,
    ReflectionGetCallerClass,
    GetStackAccessControlContext,
    GetCurrentCarrierThread,
    SetPriority0,
    Start0,
    IsFinalizationEnabled,
    ObjectNotifyAll,
    IsArray,
    EnsureClassInitialized0,
    SetBootLoaderUnnamedModule0,
    MapLibraryName,
    FindBuiltinLib,
    GetBooleanAttributes0,
    EnsureMaterializedForStackWalk,
    UnixNativeDispatcherInit,
    Getcwd,
    IdentityHashCode,
    UnsafeGetReference,
    AllocateMemory0,
    CopyMemory0,
    PutByte,
    Stat0,
    RefersTo0,
    LibraryLoad,
    GetNativeMap,
    Open0,
    ForName0,
    GetDeclaredMethods0,
    GetConstantPool,
    GetClassAccessFlags,
    Invoke0,
    SetMemory0,
    InitIds,
    IovMax,
    WritevMax,
    ThreadInit,
    ThreadCurrent0,
    Pread0,
    UnsafeGetInt,
    UnsafeGetLong,
    UnsafeGetByte,
    Size0,
    AllocationGranularity0,
    Map0,
    ClassIsInterface,
    GetDeclaredConstructors0,
    GetModifiers,
    NewInstance0,
    Canonicalize0,
    IsAssignableFrom,
    GetSuperclass,
    DefineModule0,
    LongBitsToDouble,
    AddReads0,
    AddExportsToAll0,
    AddExports0,
    FileoutputstreamInitids,
    FileoutputstreamWriteBytes,
    InetaddressInit,
    IsIpv6Supported,
    IsIpv4Available,
    Inet4addressInit,
    GetNamedCon,
    ResolveMemberName,
    GetMemberVmInfo,
}

/// Entries 0 to 11 of the table of native methods, in order.
pub open spec fn native_table_0(c: Seq<char>, n: Seq<char>, t: Seq<char>) -> Option<NativeRoutine> {
    if n == "registerNatives"@ {
        Some(NativeRoutine::RegisterNatives)
    } else if n == "desiredAssertionStatus0"@ {
        Some(NativeRoutine::DesiredAssertionStatus0)
    } else if n == "platformProperties"@ {
        Some(NativeRoutine::PlatformProperties)
    } else if c == "jdk/internal/util/SystemProps$Raw"@ && n == "vmProperties"@ && t == "()[Ljava/lang/String;"@ {
        Some(NativeRoutine::VmProperties)
    } else if c == "java/lang/Class"@ && n == "getPrimitiveClass"@ && t == "(Ljava/lang/String;)Ljava/lang/Class;"@ {
        Some(NativeRoutine::GetPrimitiveClass)
    } else if c == "java/lang/Object"@ && n == "hashCode"@ && t == "()I"@ {
        Some(NativeRoutine::HashCode)
    } else if n == "getClass"@ {
        Some(NativeRoutine::GetClass)
    } else if n == "arrayBaseOffset0"@ {
        Some(NativeRoutine::ArrayBaseOffset0)
    } else if n == "arrayIndexScale0"@ {
        Some(NativeRoutine::ArrayIndexScale0)
    } else if c == "java/lang/Class"@ && n == "initClassName"@ && t == "()Ljava/lang/String;"@ {
        Some(NativeRoutine::InitClassName)
    } else if c == "java/lang/System"@ && n == "arraycopy"@ && t == "(Ljava/lang/Object;ILjava/lang/Object;II)V"@ {
        Some(NativeRoutine::Arraycopy)
    } else if n == "floatToRawIntBits"@ {
        Some(NativeRoutine::FloatToRawIntBits)
    } else {
        None
    }
}

/// Entries 12 to 23 of the table of native methods, in order.
pub open spec fn native_table_1(c: Seq<char>, n: Seq<char>, t: Seq<char>) -> Option<NativeRoutine> {
    if n == "floatToIntBits"@ {
        Some(NativeRoutine::FloatToIntBits)
    } else if n == "doubleToRawLongBits"@ {
        Some(NativeRoutine::DoubleToRawLongBits)
    } else if n == "doubleToLongBits"@ {
        Some(NativeRoutine::DoubleToLongBits)
    } else if c == "java/lang/Class"@ && n == "isPrimitive"@ && t == "()Z"@ {
        Some(NativeRoutine::IsPrimitive)
    } else if n == "fillInStackTrace"@ {
        Some(NativeRoutine::FillInStackTrace)
    } else if n == "initialize"@ {
        Some(NativeRoutine::Initialize)
    } else if c == "java/lang/Runtime"@ && n == "maxMemory"@ && t == "()J"@ {
        Some(NativeRoutine::MaxMemory)
    } else if c == "jdk/internal/misc/CDS"@ && n == "getCDSConfigStatus"@ && t == "()I"@ {
        Some(NativeRoutine::GetCdsConfigStatus)
    } else if c == "jdk/internal/misc/CDS"@ && n == "initializeFromArchive"@ && t == "(Ljava/lang/Class;)V"@ {
        Some(NativeRoutine::InitializeFromArchive)
    } else if c == "jdk/internal/misc/CDS"@ && n == "getRandomSeedForDumping"@ && t == "()J"@ {
        Some(NativeRoutine::GetRandomSeedForDumping)
    } else if c == "jdk/internal/misc/Unsafe"@ && n == "fullFence"@ && t == "()V"@ {
        Some(NativeRoutine::FullFence)
    } else if c == "java/lang/Runtime"@ && n == "availableProcessors"@ && t == "()I"@ {
        Some(NativeRoutine::AvailableProcessors)
    } else {
        None
    }
}

/// Entries 24 to 35 of the table of native methods, in order.
pub open spec fn native_table_2(c: Seq<char>, n: Seq<char>, t: Seq<char>) -> Option<NativeRoutine> {
    if c == "java/lang/Thread"@ && n == "getNextThreadIdOffset"@ && t == "()J"@ {
        Some(NativeRoutine::GetNextThreadIdOffset)
    } else if c == "jdk/internal/misc/Unsafe"@ && n == "objectFieldOffset1"@ && t == "(Ljava/lang/Class;Ljava/lang/String;)J"@ {
        Some(NativeRoutine::ObjectFieldOffset1)
    } else if c == "jdk/internal/misc/Unsafe"@ && n == "compareAndSetInt"@ && t == "(Ljava/lang/Object;JII)Z"@ {
        Some(NativeRoutine::CompareAndSetInt)
    } else if c == "jdk/internal/misc/Unsafe"@ && n == "compareAndSetReference"@ && t == "(Ljava/lang/Object;JLjava/lang/Object;Ljava/lang/Object;)Z"@ {
        Some(NativeRoutine::CompareAndSetReference)
    } else if c == "jdk/internal/misc/Unsafe"@ && n == "compareAndSetLong"@ && t == "(Ljava/lang/Object;JJJ)Z"@ {
        Some(NativeRoutine::CompareAndSetLong)
    } else if c == "jdk/internal/misc/Unsafe"@ && n == "getReferenceVolatile"@ && t == "(Ljava/lang/Object;J)Ljava/lang/Object;"@ {
        Some(NativeRoutine::GetReferenceVolatile)
    } else if c == "jdk/internal/misc/Unsafe"@ && n == "putReferenceVolatile"@ && t == "(Ljava/lang/Object;JLjava/lang/Object;)V"@ {
        Some(NativeRoutine::PutReferenceVolatile)
    } else if c == "java/io/FileDescriptor"@ && n == "initIDs"@ && t == "()V"@ {
        Some(NativeRoutine::FiledescriptorInitIds)
    } else if c == "java/io/FileDescriptor"@ && n == "getHandle"@ && t == "(I)J"@ {
        Some(NativeRoutine::GetHandle)
    } else if c == "java/io/FileDescriptor"@ && n == "getAppend"@ && t == "(I)Z"@ {
        Some(NativeRoutine::GetAppend)
    } else if c == "java/lang/System"@ && n == "setIn0"@ && t == "(Ljava/io/InputStream;)V"@ {
        Some(NativeRoutine::SetIn0)
    } else if c == "java/lang/System"@ && n == "setOut0"@ && t == "(Ljava/io/PrintStream;)V"@ {
        Some(NativeRoutine::SetOut0)
    } else {
        None
    }
}

/// Entries 36 to 47 of the table of native methods, in order.
pub open spec fn native_table_3(c: Seq<char>, n: Seq<char>, t: Seq<char>) -> Option<NativeRoutine> {
    if c == "java/lang/System"@ && n == "setErr0"@ && t == "(Ljava/io/PrintStream;)V"@ {
        Some(NativeRoutine::SetErr0)
    } else if c == "java/lang/Object"@ && n == "clone"@ && t == "()Ljava/lang/Object;"@ {
        Some(NativeRoutine::Clone)
    } else if c == "jdk/internal/misc/Signal"@ && n == "findSignal0"@ && t == "(Ljava/lang/String;)I"@ {
        Some(NativeRoutine::FindSignal0)
    } else if c == "jdk/internal/misc/Signal"@ && n == "handle0"@ && t == "(IJ)J"@ {
        Some(NativeRoutine::Handle0)
    } else if c == "java/lang/Thread"@ && n == "currentThread"@ && t == "()Ljava/lang/Thread;"@ {
        Some(NativeRoutine::CurrentThread)
    } else if c == "jdk/internal/misc/Unsafe"@ && n == "getLongVolatile"@ && t == "(Ljava/lang/Object;J)J"@ {
        Some(NativeRoutine::UnsafeGetLongVolatile)
    } else if c == "jdk/internal/misc/Unsafe"@ && n == "getIntVolatile"@ && t == "(Ljava/lang/Object;J)I"@ {
        Some(NativeRoutine::UnsafeGetIntVolatile)
    } else if c == "jdk/internal/reflect/Reflection"@ && n == "getCallerClass"@ && t == "()Ljava/lang/Class;"@ {
        Some(NativeRoutine::ReflectionGetCallerClass)
    } else if c == "java/security/AccessController"@ && n == "getStackAccessControlContext"@ && t == "()Ljava/security/AccessControlContext;"@ {
        Some(NativeRoutine::GetStackAccessControlContext)
    } else if c == "java/lang/Thread"@ && n == "currentCarrierThread"@ && t == "()Ljava/lang/Thread;"@ {
        Some(NativeRoutine::GetCurrentCarrierThread)
    } else if c == "java/lang/Thread"@ && n == "setPriority0"@ && t == "(I)V"@ {
        Some(NativeRoutine::SetPriority0)
    } else if c == "java/lang/Thread"@ && n == "start0"@ && t == "()V"@ {
        Some(NativeRoutine::Start0)
    } else {
        None
    }
}

/// Entries 48 to 59 of the table of native methods, in order.
pub open spec fn native_table_4(c: Seq<char>, n: Seq<char>, t: Seq<char>) -> Option<NativeRoutine> {
    if c == "java/lang/ref/Finalizer"@ && n == "isFinalizationEnabled"@ && t == "()Z"@ {
        Some(NativeRoutine::IsFinalizationEnabled)
    } else if c == "java/lang/Object"@ && n == "notifyAll"@ && t == "()V"@ {
        Some(NativeRoutine::ObjectNotifyAll)
    } else if c == "java/lang/Class"@ && n == "isArray"@ && t == "()Z"@ {
        Some(NativeRoutine::IsArray)
    } else if c == "jdk/internal/misc/Unsafe"@ && n == "ensureClassInitialized0"@ && t == "(Ljava/lang/Class;)V"@ {
        Some(NativeRoutine::EnsureClassInitialized0)
    } else if c == "jdk/internal/loader/BootLoader"@ && n == "setBootLoaderUnnamedModule0"@ && t == "(Ljava/lang/Module;)V"@ {
        Some(NativeRoutine::SetBootLoaderUnnamedModule0)
    } else if c == "java/lang/System"@ && n == "mapLibraryName"@ && t == "(Ljava/lang/String;)Ljava/lang/String;"@ {
        Some(NativeRoutine::MapLibraryName)
    } else if c == "jdk/internal/loader/NativeLibraries"@ && n == "findBuiltinLib"@ && t == "(Ljava/lang/String;)Ljava/lang/String;"@ {
        Some(NativeRoutine::FindBuiltinLib)
    } else if c == "java/io/UnixFileSystem"@ && n == "getBooleanAttributes0"@ && t == "(Ljava/io/File;)I"@ {
        Some(NativeRoutine::GetBooleanAttributes0)
    } else if c == "java/security/AccessController"@ && n == "ensureMaterializedForStackWalk"@ && t == "(Ljava/lang/Object;)V"@ {
        Some(NativeRoutine::EnsureMaterializedForStackWalk)
    } else if c == "sun/nio/fs/UnixNativeDispatcher"@ && n == "init"@ && t == "()I"@ {
        Some(NativeRoutine::UnixNativeDispatcherInit)
    } else if c == "sun/nio/fs/UnixNativeDispatcher"@ && n == "getcwd"@ && t == "()[B"@ {
        Some(NativeRoutine::Getcwd)
    } else if c == "java/lang/System"@ && n == "identityHashCode"@ && t == "(Ljava/lang/Object;)I"@ {
        Some(NativeRoutine::IdentityHashCode)
    } else {
        None
    }
}

/// Entries 60 to 71 of the table of native methods, in order.
pub open spec fn native_table_5(c: Seq<char>, n: Seq<char>, t: Seq<char>) -> Option<NativeRoutine> {
    if c == "jdk/internal/misc/Unsafe"@ && n == "getReference"@ && t == "(Ljava/lang/Object;J)Ljava/lang/Object;"@ {
        Some(NativeRoutine::UnsafeGetReference)
    } else if c == "jdk/internal/misc/Unsafe"@ && n == "allocateMemory0"@ && t == "(J)J"@ {
        Some(NativeRoutine::AllocateMemory0)
    } else if c == "jdk/internal/misc/Unsafe"@ && n == "copyMemory0"@ && t == "(Ljava/lang/Object;JLjava/lang/Object;JJ)V"@ {
        Some(NativeRoutine::CopyMemory0)
    } else if c == "jdk/internal/misc/Unsafe"@ && n == "putByte"@ && t == "(Ljava/lang/Object;JB)V"@ {
        Some(NativeRoutine::PutByte)
    } else if c == "sun/nio/fs/UnixNativeDispatcher"@ && n == "stat0"@ && t == "(JLsun/nio/fs/UnixFileAttributes;)I"@ {
        Some(NativeRoutine::Stat0)
    } else if c == "java/lang/ref/Reference"@ && n == "refersTo0"@ && t == "(Ljava/lang/Object;)Z"@ {
        Some(NativeRoutine::RefersTo0)
    } else if c == "jdk/internal/loader/NativeLibraries"@ && n == "load"@ && t == "(Ljdk/internal/loader/NativeLibraries$NativeLibraryImpl;Ljava/lang/String;ZZ)Z"@ {
        Some(NativeRoutine::LibraryLoad)
    } else if c == "jdk/internal/jimage/NativeImageBuffer"@ && n == "getNativeMap"@ && t == "(Ljava/lang/String;)Ljava/nio/ByteBuffer;"@ {
        Some(NativeRoutine::GetNativeMap)
    } else if c == "sun/nio/fs/UnixNativeDispatcher"@ && n == "open0"@ && t == "(JII)I"@ {
        Some(NativeRoutine::Open0)
    } else if c == "java/lang/Class"@ && n == "forName0"@ && t == "(Ljava/lang/String;ZLjava/lang/ClassLoader;Ljava/lang/Class;)Ljava/lang/Class;"@ {
        Some(NativeRoutine::ForName0)
    } else if c == "java/lang/Class"@ && n == "getDeclaredMethods0"@ && t == "(Z)[Ljava/lang/reflect/Method;"@ {
        Some(NativeRoutine::GetDeclaredMethods0)
    } else if c == "java/lang/Class"@ && n == "getConstantPool"@ && t == "()Ljdk/internal/reflect/ConstantPool;"@ {
        Some(NativeRoutine::GetConstantPool)
    } else {
        None
    }
}

/// Entries 72 to 83 of the table of native methods, in order.
pub open spec fn native_table_6(c: Seq<char>, n: Seq<char>, t: Seq<char>) -> Option<NativeRoutine> {
    if c == "jdk/internal/reflect/Reflection"@ && n == "getClassAccessFlags"@ && t == "(Ljava/lang/Class;)I"@ {
        Some(NativeRoutine::GetClassAccessFlags)
    } else if c == "jdk/internal/reflect/DirectMethodHandleAccessor$NativeAccessor"@ && n == "invoke0"@ && t == "(Ljava/lang/reflect/Method;Ljava/lang/Object;[Ljava/lang/Object;)Ljava/lang/Object;"@ {
        Some(NativeRoutine::Invoke0)
    } else if c == "jdk/internal/misc/Unsafe"@ && n == "setMemory0"@ && t == "(Ljava/lang/Object;JJB)V"@ {
        Some(NativeRoutine::SetMemory0)
    } else if c == "sun/nio/ch/IOUtil"@ && n == "initIDs"@ && t == "()V"@ {
        Some(NativeRoutine::InitIds)
    } else if c == "sun/nio/ch/IOUtil"@ && n == "iovMax"@ && t == "()I"@ {
        Some(NativeRoutine::IovMax)
    } else if c == "sun/nio/ch/IOUtil"@ && n == "writevMax"@ && t == "()J"@ {
        Some(NativeRoutine::WritevMax)
    } else if c == "sun/nio/ch/NativeThread"@ && n == "init"@ && t == "()V"@ {
        Some(NativeRoutine::ThreadInit)
    } else if c == "sun/nio/ch/NativeThread"@ && n == "current0"@ && t == "()J"@ {
        Some(NativeRoutine::ThreadCurrent0)
    } else if c == "sun/nio/ch/UnixFileDispatcherImpl"@ && n == "pread0"@ && t == "(Ljava/io/FileDescriptor;JIJ)I"@ {
        Some(NativeRoutine::Pread0)
    } else if c == "jdk/internal/misc/Unsafe"@ && n == "getInt"@ && t == "(Ljava/lang/Object;J)I"@ {
        Some(NativeRoutine::UnsafeGetInt)
    } else if c == "jdk/internal/misc/Unsafe"@ && n == "getLong"@ && t == "(Ljava/lang/Object;J)J"@ {
        Some(NativeRoutine::UnsafeGetLong)
    } else if c == "jdk/internal/misc/Unsafe"@ && n == "getByte"@ && t == "(Ljava/lang/Object;J)B"@ {
        Some(NativeRoutine::UnsafeGetByte)
    } else {
        None
    }
}

/// Entries 84 to 95 of the table of native methods, in order.
pub open spec fn native_table_7(c: Seq<char>, n: Seq<char>, t: Seq<char>) -> Option<NativeRoutine> {
    if c == "sun/nio/ch/UnixFileDispatcherImpl"@ && n == "size0"@ && t == "(Ljava/io/FileDescriptor;)J"@ {
        Some(NativeRoutine::Size0)
    } else if c == "sun/nio/ch/UnixFileDispatcherImpl"@ && n == "allocationGranularity0"@ && t == "()J"@ {
        Some(NativeRoutine::AllocationGranularity0)
    } else if c == "sun/nio/ch/UnixFileDispatcherImpl"@ && n == "map0"@ && t == "(Ljava/io/FileDescriptor;IJJZ)J"@ {
        Some(NativeRoutine::Map0)
    } else if c == "java/lang/Class"@ && n == "isInterface"@ && t == "()Z"@ {
        Some(NativeRoutine::ClassIsInterface)
    } else if c == "java/lang/Class"@ && n == "getDeclaredConstructors0"@ && t == "(Z)[Ljava/lang/reflect/Constructor;"@ {
        Some(NativeRoutine::GetDeclaredConstructors0)
    } else if c == "java/lang/Class"@ && n == "getModifiers"@ && t == "()I"@ {
        Some(NativeRoutine::GetModifiers)
    } else if c == "jdk/internal/reflect/DirectConstructorHandleAccessor$NativeAccessor"@ && n == "newInstance0"@ && t == "(Ljava/lang/reflect/Constructor;[Ljava/lang/Object;)Ljava/lang/Object;"@ {
        Some(NativeRoutine::NewInstance0)
    } else if c == "java/io/UnixFileSystem"@ && n == "canonicalize0"@ && t == "(Ljava/lang/String;)Ljava/lang/String;"@ {
        Some(NativeRoutine::Canonicalize0)
    } else if c == "java/lang/Class"@ && n == "isAssignableFrom"@ && t == "(Ljava/lang/Class;)Z"@ {
        Some(NativeRoutine::IsAssignableFrom)
    } else if c == "java/lang/Class"@ && n == "getSuperclass"@ && t == "()Ljava/lang/Class;"@ {
        Some(NativeRoutine::GetSuperclass)
    } else if c == "java/lang/Module"@ && n == "defineModule0"@ && t == "(Ljava/lang/Module;ZLjava/lang/String;Ljava/lang/String;[Ljava/lang/Object;)V"@ {
        Some(NativeRoutine::DefineModule0)
    } else if c == "java/lang/Double"@ && n == "longBitsToDouble"@ && t == "(J)D"@ {
        Some(NativeRoutine::LongBitsToDouble)
    } else {
        None
    }
}

/// Entries 96 to 107 of the table of native methods, in order.
pub open spec fn native_table_8(c: Seq<char>, n: Seq<char>, t: Seq<char>) -> Option<NativeRoutine> {
    if c == "java/lang/Module"@ && n == "addReads0"@ && t == "(Ljava/lang/Module;Ljava/lang/Module;)V"@ {
        Some(NativeRoutine::AddReads0)
    } else if c == "java/lang/Module"@ && n == "addExportsToAll0"@ && t == "(Ljava/lang/Module;Ljava/lang/String;)V"@ {
        Some(NativeRoutine::AddExportsToAll0)
    } else if c == "java/lang/Module"@ && n == "addExports0"@ && t == "(Ljava/lang/Module;Ljava/lang/String;Ljava/lang/Module;)V"@ {
        Some(NativeRoutine::AddExports0)
    } else if c == "java/io/FileOutputStream"@ && n == "initIDs"@ && t == "()V"@ {
        Some(NativeRoutine::FileoutputstreamInitids)
    } else if c == "java/io/FileOutputStream"@ && n == "writeBytes"@ && t == "([BIIZ)V"@ {
        Some(NativeRoutine::FileoutputstreamWriteBytes)
    } else if c == "java/net/InetAddress"@ && n == "init"@ && t == "()V"@ {
        Some(NativeRoutine::InetaddressInit)
    } else if c == "java/net/InetAddress"@ && n == "isIPv6Supported"@ && t == "()Z"@ {
        Some(NativeRoutine::IsIpv6Supported)
    } else if c == "java/net/InetAddress"@ && n == "isIPv4Available"@ && t == "()Z"@ {
        Some(NativeRoutine::IsIpv4Available)
    } else if c == "java/net/Inet4Address"@ && n == "init"@ && t == "()V"@ {
        Some(NativeRoutine::Inet4addressInit)
    } else if c == "java/lang/invoke/MethodHandleNatives"@ && n == "getNamedCon"@ && t == "(I[Ljava/lang/Object;)I"@ {
        Some(NativeRoutine::GetNamedCon)
    } else if c == "java/lang/invoke/MethodHandleNatives"@ && n == "resolve"@ && t == "(Ljava/lang/invoke/MemberName;Ljava/lang/Class;IZ)Ljava/lang/invoke/MemberName;"@ {
        Some(NativeRoutine::ResolveMemberName)
    } else if c == "java/lang/invoke/MethodHandleNatives"@ && n == "getMemberVMInfo"@ && t == "(Ljava/lang/invoke/MemberName;)Ljava/lang/Object;"@ {
        Some(NativeRoutine::GetMemberVmInfo)
    } else {
        None
    }
}

/// The routine that a call of the native method `n` with descriptor `t` of the
/// class `c` reaches: the first entry of the table that the three names match
/// (an entry may leave the class or the descriptor open); none for a method
/// that the machine does not implement.
pub open spec fn native_routine_of(c: Seq<char>, n: Seq<char>, t: Seq<char>) -> Option<NativeRoutine> {
    match native_table_0(c, n, t) {
        Some(r) => Some(r),
        None => match native_table_1(c, n, t) {
        Some(r) => Some(r),
        None => match native_table_2(c, n, t) {
        Some(r) => Some(r),
        None => match native_table_3(c, n, t) {
        Some(r) => Some(r),
        None => match native_table_4(c, n, t) {
        Some(r) => Some(r),
        None => match native_table_5(c, n, t) {
        Some(r) => Some(r),
        None => match native_table_6(c, n, t) {
        Some(r) => Some(r),
        None => match native_table_7(c, n, t) {
        Some(r) => Some(r),
        None => match native_table_8(c, n, t) {
        Some(r) => Some(r),
        None => None,
    },
    },
    },
    },
    },
    },
    },
    },
    }
}

/// The routine of entries 0 to 11 of the table that the call matches.
fn native_table_0_lookup(class_name: &str, name: &str, type_str: &str) -> (r: Option<NativeRoutine>)
    ensures
        r == native_table_0(class_name@, name@, type_str@),
{
    if str_eq(name, "registerNatives") {
        Some(NativeRoutine::RegisterNatives)
    } else if str_eq(name, "desiredAssertionStatus0") {
        Some(NativeRoutine::DesiredAssertionStatus0)
    } else if str_eq(name, "platformProperties") {
        Some(NativeRoutine::PlatformProperties)
    } else if str_eq(class_name, "jdk/internal/util/SystemProps$Raw") && str_eq(name, "vmProperties") && str_eq(type_str, "()[Ljava/lang/String;") {
        Some(NativeRoutine::VmProperties)
    } else if str_eq(class_name, "java/lang/Class") && str_eq(name, "getPrimitiveClass") && str_eq(type_str, "(Ljava/lang/String;)Ljava/lang/Class;") {
        Some(NativeRoutine::GetPrimitiveClass)
    } else if str_eq(class_name, "java/lang/Object") && str_eq(name, "hashCode") && str_eq(type_str, "()I") {
        Some(NativeRoutine::HashCode)
    } else if str_eq(name, "getClass") {
        Some(NativeRoutine::GetClass)
    } else if str_eq(name, "arrayBaseOffset0") {
        Some(NativeRoutine::ArrayBaseOffset0)
    } else if str_eq(name, "arrayIndexScale0") {
        Some(NativeRoutine::ArrayIndexScale0)
    } else if str_eq(class_name, "java/lang/Class") && str_eq(name, "initClassName") && str_eq(type_str, "()Ljava/lang/String;") {
        Some(NativeRoutine::InitClassName)
    } else if str_eq(class_name, "java/lang/System") && str_eq(name, "arraycopy") && str_eq(type_str, "(Ljava/lang/Object;ILjava/lang/Object;II)V") {
        Some(NativeRoutine::Arraycopy)
    } else if str_eq(name, "floatToRawIntBits") {
        Some(NativeRoutine::FloatToRawIntBits)
    } else {
        None
    }
}

/// The routine of entries 12 to 23 of the table that the call matches.
fn native_table_1_lookup(class_name: &str, name: &str, type_str: &str) -> (r: Option<NativeRoutine>)
    ensures
        r == native_table_1(class_name@, name@, type_str@),
{
    if str_eq(name, "floatToIntBits") {
        Some(NativeRoutine::FloatToIntBits)
    } else if str_eq(name, "doubleToRawLongBits") {
        Some(NativeRoutine::DoubleToRawLongBits)
    } else if str_eq(name, "doubleToLongBits") {
        Some(NativeRoutine::DoubleToLongBits)
    } else if str_eq(class_name, "java/lang/Class") && str_eq(name, "isPrimitive") && str_eq(type_str, "()Z") {
        Some(NativeRoutine::IsPrimitive)
    } else if str_eq(name, "fillInStackTrace") {
        Some(NativeRoutine::FillInStackTrace)
    } else if str_eq(name, "initialize") {
        Some(NativeRoutine::Initialize)
    } else if str_eq(class_name, "java/lang/Runtime") && str_eq(name, "maxMemory") && str_eq(type_str, "()J") {
        Some(NativeRoutine::MaxMemory)
    } else if str_eq(class_name, "jdk/internal/misc/CDS") && str_eq(name, "getCDSConfigStatus") && str_eq(type_str, "()I") {
        Some(NativeRoutine::GetCdsConfigStatus)
    } else if str_eq(class_name, "jdk/internal/misc/CDS") && str_eq(name, "initializeFromArchive") && str_eq(type_str, "(Ljava/lang/Class;)V") {
        Some(NativeRoutine::InitializeFromArchive)
    } else if str_eq(class_name, "jdk/internal/misc/CDS") && str_eq(name, "getRandomSeedForDumping") && str_eq(type_str, "()J") {
        Some(NativeRoutine::GetRandomSeedForDumping)
    } else if str_eq(class_name, "jdk/internal/misc/Unsafe") && str_eq(name, "fullFence") && str_eq(type_str, "()V") {
        Some(NativeRoutine::FullFence)
    } else if str_eq(class_name, "java/lang/Runtime") && str_eq(name, "availableProcessors") && str_eq(type_str, "()I") {
        Some(NativeRoutine::AvailableProcessors)
    } else {
        None
    }
}

/// The routine of entries 24 to 35 of the table that the call matches.
fn native_table_2_lookup(class_name: &str, name: &str, type_str: &str) -> (r: Option<NativeRoutine>)
    ensures
        r == native_table_2(class_name@, name@, type_str@),
{
    if str_eq(class_name, "java/lang/Thread") && str_eq(name, "getNextThreadIdOffset") && str_eq(type_str, "()J") {
        Some(NativeRoutine::GetNextThreadIdOffset)
    } else if str_eq(class_name, "jdk/internal/misc/Unsafe") && str_eq(name, "objectFieldOffset1") && str_eq(type_str, "(Ljava/lang/Class;Ljava/lang/String;)J") {
        Some(NativeRoutine::ObjectFieldOffset1)
    } else if str_eq(class_name, "jdk/internal/misc/Unsafe") && str_eq(name, "compareAndSetInt") && str_eq(type_str, "(Ljava/lang/Object;JII)Z") {
        Some(NativeRoutine::CompareAndSetInt)
    } else if str_eq(class_name, "jdk/internal/misc/Unsafe") && str_eq(name, "compareAndSetReference") && str_eq(type_str, "(Ljava/lang/Object;JLjava/lang/Object;Ljava/lang/Object;)Z") {
        Some(NativeRoutine::CompareAndSetReference)
    } else if str_eq(class_name, "jdk/internal/misc/Unsafe") && str_eq(name, "compareAndSetLong") && str_eq(type_str, "(Ljava/lang/Object;JJJ)Z") {
        Some(NativeRoutine::CompareAndSetLong)
    } else if str_eq(class_name, "jdk/internal/misc/Unsafe") && str_eq(name, "getReferenceVolatile") && str_eq(type_str, "(Ljava/lang/Object;J)Ljava/lang/Object;") {
        Some(NativeRoutine::GetReferenceVolatile)
    } else if str_eq(class_name, "jdk/internal/misc/Unsafe") && str_eq(name, "putReferenceVolatile") && str_eq(type_str, "(Ljava/lang/Object;JLjava/lang/Object;)V") {
        Some(NativeRoutine::PutReferenceVolatile)
    } else if str_eq(class_name, "java/io/FileDescriptor") && str_eq(name, "initIDs") && str_eq(type_str, "()V") {
        Some(NativeRoutine::FiledescriptorInitIds)
    } else if str_eq(class_name, "java/io/FileDescriptor") && str_eq(name, "getHandle") && str_eq(type_str, "(I)J") {
        Some(NativeRoutine::GetHandle)
    } else if str_eq(class_name, "java/io/FileDescriptor") && str_eq(name, "getAppend") && str_eq(type_str, "(I)Z") {
        Some(NativeRoutine::GetAppend)
    } else if str_eq(class_name, "java/lang/System") && str_eq(name, "setIn0") && str_eq(type_str, "(Ljava/io/InputStream;)V") {
        Some(NativeRoutine::SetIn0)
    } else if str_eq(class_name, "java/lang/System") && str_eq(name, "setOut0") && str_eq(type_str, "(Ljava/io/PrintStream;)V") {
        Some(NativeRoutine::SetOut0)
    } else {
        None
    }
}

/// The routine of entries 36 to 47 of the table that the call matches.
fn native_table_3_lookup(class_name: &str, name: &str, type_str: &str) -> (r: Option<NativeRoutine>)
    ensures
        r == native_table_3(class_name@, name@, type_str@),
{
    if str_eq(class_name, "java/lang/System") && str_eq(name, "setErr0") && str_eq(type_str, "(Ljava/io/PrintStream;)V") {
        Some(NativeRoutine::SetErr0)
    } else if str_eq(class_name, "java/lang/Object") && str_eq(name, "clone") && str_eq(type_str, "()Ljava/lang/Object;") {
        Some(NativeRoutine::Clone)
    } else if str_eq(class_name, "jdk/internal/misc/Signal") && str_eq(name, "findSignal0") && str_eq(type_str, "(Ljava/lang/String;)I") {
        Some(NativeRoutine::FindSignal0)
    } else if str_eq(class_name, "jdk/internal/misc/Signal") && str_eq(name, "handle0") && str_eq(type_str, "(IJ)J") {
        Some(NativeRoutine::Handle0)
    } else if str_eq(class_name, "java/lang/Thread") && str_eq(name, "currentThread") && str_eq(type_str, "()Ljava/lang/Thread;") {
        Some(NativeRoutine::CurrentThread)
    } else if str_eq(class_name, "jdk/internal/misc/Unsafe") && str_eq(name, "getLongVolatile") && str_eq(type_str, "(Ljava/lang/Object;J)J") {
        Some(NativeRoutine::UnsafeGetLongVolatile)
    } else if str_eq(class_name, "jdk/internal/misc/Unsafe") && str_eq(name, "getIntVolatile") && str_eq(type_str, "(Ljava/lang/Object;J)I") {
        Some(NativeRoutine::UnsafeGetIntVolatile)
    } else if str_eq(class_name, "jdk/internal/reflect/Reflection") && str_eq(name, "getCallerClass") && str_eq(type_str, "()Ljava/lang/Class;") {
        Some(NativeRoutine::ReflectionGetCallerClass)
    } else if str_eq(class_name, "java/security/AccessController") && str_eq(name, "getStackAccessControlContext") && str_eq(type_str, "()Ljava/security/AccessControlContext;") {
        Some(NativeRoutine::GetStackAccessControlContext)
    } else if str_eq(class_name, "java/lang/Thread") && str_eq(name, "currentCarrierThread") && str_eq(type_str, "()Ljava/lang/Thread;") {
        Some(NativeRoutine::GetCurrentCarrierThread)
    } else if str_eq(class_name, "java/lang/Thread") && str_eq(name, "setPriority0") && str_eq(type_str, "(I)V") {
        Some(NativeRoutine::SetPriority0)
    } else if str_eq(class_name, "java/lang/Thread") && str_eq(name, "start0") && str_eq(type_str, "()V") {
        Some(NativeRoutine::Start0)
    } else {
        None
    }
}

/// The routine of entries 48 to 59 of the table that the call matches.
fn native_table_4_lookup(class_name: &str, name: &str, type_str: &str) -> (r: Option<NativeRoutine>)
    ensures
        r == native_table_4(class_name@, name@, type_str@),
{
    if str_eq(class_name, "java/lang/ref/Finalizer") && str_eq(name, "isFinalizationEnabled") && str_eq(type_str, "()Z") {
        Some(NativeRoutine::IsFinalizationEnabled)
    } else if str_eq(class_name, "java/lang/Object") && str_eq(name, "notifyAll") && str_eq(type_str, "()V") {
        Some(NativeRoutine::ObjectNotifyAll)
    } else if str_eq(class_name, "java/lang/Class") && str_eq(name, "isArray") && str_eq(type_str, "()Z") {
        Some(NativeRoutine::IsArray)
    } else if str_eq(class_name, "jdk/internal/misc/Unsafe") && str_eq(name, "ensureClassInitialized0") && str_eq(type_str, "(Ljava/lang/Class;)V") {
        Some(NativeRoutine::EnsureClassInitialized0)
    } else if str_eq(class_name, "jdk/internal/loader/BootLoader") && str_eq(name, "setBootLoaderUnnamedModule0") && str_eq(type_str, "(Ljava/lang/Module;)V") {
        Some(NativeRoutine::SetBootLoaderUnnamedModule0)
    } else if str_eq(class_name, "java/lang/System") && str_eq(name, "mapLibraryName") && str_eq(type_str, "(Ljava/lang/String;)Ljava/lang/String;") {
        Some(NativeRoutine::MapLibraryName)
    } else if str_eq(class_name, "jdk/internal/loader/NativeLibraries") && str_eq(name, "findBuiltinLib") && str_eq(type_str, "(Ljava/lang/String;)Ljava/lang/String;") {
        Some(NativeRoutine::FindBuiltinLib)
    } else if str_eq(class_name, "java/io/UnixFileSystem") && str_eq(name, "getBooleanAttributes0") && str_eq(type_str, "(Ljava/io/File;)I") {
        Some(NativeRoutine::GetBooleanAttributes0)
    } else if str_eq(class_name, "java/security/AccessController") && str_eq(name, "ensureMaterializedForStackWalk") && str_eq(type_str, "(Ljava/lang/Object;)V") {
        Some(NativeRoutine::EnsureMaterializedForStackWalk)
    } else if str_eq(class_name, "sun/nio/fs/UnixNativeDispatcher") && str_eq(name, "init") && str_eq(type_str, "()I") {
        Some(NativeRoutine::UnixNativeDispatcherInit)
    } else if str_eq(class_name, "sun/nio/fs/UnixNativeDispatcher") && str_eq(name, "getcwd") && str_eq(type_str, "()[B") {
        Some(NativeRoutine::Getcwd)
    } else if str_eq(class_name, "java/lang/System") && str_eq(name, "identityHashCode") && str_eq(type_str, "(Ljava/lang/Object;)I") {
        Some(NativeRoutine::IdentityHashCode)
    } else {
        None
    }
}

/// The routine of entries 60 to 71 of the table that the call matches.
fn native_table_5_lookup(class_name: &str, name: &str, type_str: &str) -> (r: Option<NativeRoutine>)
    ensures
        r == native_table_5(class_name@, name@, type_str@),
{
    if str_eq(class_name, "jdk/internal/misc/Unsafe") && str_eq(name, "getReference") && str_eq(type_str, "(Ljava/lang/Object;J)Ljava/lang/Object;") {
        Some(NativeRoutine::UnsafeGetReference)
    } else if str_eq(class_name, "jdk/internal/misc/Unsafe") && str_eq(name, "allocateMemory0") && str_eq(type_str, "(J)J") {
        Some(NativeRoutine::AllocateMemory0)
    } else if str_eq(class_name, "jdk/internal/misc/Unsafe") && str_eq(name, "copyMemory0") && str_eq(type_str, "(Ljava/lang/Object;JLjava/lang/Object;JJ)V") {
        Some(NativeRoutine::CopyMemory0)
    } else if str_eq(class_name, "jdk/internal/misc/Unsafe") && str_eq(name, "putByte") && str_eq(type_str, "(Ljava/lang/Object;JB)V") {
        Some(NativeRoutine::PutByte)
    } else if str_eq(class_name, "sun/nio/fs/UnixNativeDispatcher") && str_eq(name, "stat0") && str_eq(type_str, "(JLsun/nio/fs/UnixFileAttributes;)I") {
        Some(NativeRoutine::Stat0)
    } else if str_eq(class_name, "java/lang/ref/Reference") && str_eq(name, "refersTo0") && str_eq(type_str, "(Ljava/lang/Object;)Z") {
        Some(NativeRoutine::RefersTo0)
    } else if str_eq(class_name, "jdk/internal/loader/NativeLibraries") && str_eq(name, "load") && str_eq(type_str, "(Ljdk/internal/loader/NativeLibraries$NativeLibraryImpl;Ljava/lang/String;ZZ)Z") {
        Some(NativeRoutine::LibraryLoad)
    } else if str_eq(class_name, "jdk/internal/jimage/NativeImageBuffer") && str_eq(name, "getNativeMap") && str_eq(type_str, "(Ljava/lang/String;)Ljava/nio/ByteBuffer;") {
        Some(NativeRoutine::GetNativeMap)
    } else if str_eq(class_name, "sun/nio/fs/UnixNativeDispatcher") && str_eq(name, "open0") && str_eq(type_str, "(JII)I") {
        Some(NativeRoutine::Open0)
    } else if str_eq(class_name, "java/lang/Class") && str_eq(name, "forName0") && str_eq(type_str, "(Ljava/lang/String;ZLjava/lang/ClassLoader;Ljava/lang/Class;)Ljava/lang/Class;") {
        Some(NativeRoutine::ForName0)
    } else if str_eq(class_name, "java/lang/Class") && str_eq(name, "getDeclaredMethods0") && str_eq(type_str, "(Z)[Ljava/lang/reflect/Method;") {
        Some(NativeRoutine::GetDeclaredMethods0)
    } else if str_eq(class_name, "java/lang/Class") && str_eq(name, "getConstantPool") && str_eq(type_str, "()Ljdk/internal/reflect/ConstantPool;") {
        Some(NativeRoutine::GetConstantPool)
    } else {
        None
    }
}

/// The routine of entries 72 to 83 of the table that the call matches.
fn native_table_6_lookup(class_name: &str, name: &str, type_str: &str) -> (r: Option<NativeRoutine>)
    ensures
        r == native_table_6(class_name@, name@, type_str@),
{
    if str_eq(class_name, "jdk/internal/reflect/Reflection") && str_eq(name, "getClassAccessFlags") && str_eq(type_str, "(Ljava/lang/Class;)I") {
        Some(NativeRoutine::GetClassAccessFlags)
    } else if str_eq(class_name, "jdk/internal/reflect/DirectMethodHandleAccessor$NativeAccessor") && str_eq(name, "invoke0") && str_eq(type_str, "(Ljava/lang/reflect/Method;Ljava/lang/Object;[Ljava/lang/Object;)Ljava/lang/Object;") {
        Some(NativeRoutine::Invoke0)
    } else if str_eq(class_name, "jdk/internal/misc/Unsafe") && str_eq(name, "setMemory0") && str_eq(type_str, "(Ljava/lang/Object;JJB)V") {
        Some(NativeRoutine::SetMemory0)
    } else if str_eq(class_name, "sun/nio/ch/IOUtil") && str_eq(name, "initIDs") && str_eq(type_str, "()V") {
        Some(NativeRoutine::InitIds)
    } else if str_eq(class_name, "sun/nio/ch/IOUtil") && str_eq(name, "iovMax") && str_eq(type_str, "()I") {
        Some(NativeRoutine::IovMax)
    } else if str_eq(class_name, "sun/nio/ch/IOUtil") && str_eq(name, "writevMax") && str_eq(type_str, "()J") {
        Some(NativeRoutine::WritevMax)
    } else if str_eq(class_name, "sun/nio/ch/NativeThread") && str_eq(name, "init") && str_eq(type_str, "()V") {
        Some(NativeRoutine::ThreadInit)
    } else if str_eq(class_name, "sun/nio/ch/NativeThread") && str_eq(name, "current0") && str_eq(type_str, "()J") {
        Some(NativeRoutine::ThreadCurrent0)
    } else if str_eq(class_name, "sun/nio/ch/UnixFileDispatcherImpl") && str_eq(name, "pread0") && str_eq(type_str, "(Ljava/io/FileDescriptor;JIJ)I") {
        Some(NativeRoutine::Pread0)
    } else if str_eq(class_name, "jdk/internal/misc/Unsafe") && str_eq(name, "getInt") && str_eq(type_str, "(Ljava/lang/Object;J)I") {
        Some(NativeRoutine::UnsafeGetInt)
    } else if str_eq(class_name, "jdk/internal/misc/Unsafe") && str_eq(name, "getLong") && str_eq(type_str, "(Ljava/lang/Object;J)J") {
        Some(NativeRoutine::UnsafeGetLong)
    } else if str_eq(class_name, "jdk/internal/misc/Unsafe") && str_eq(name, "getByte") && str_eq(type_str, "(Ljava/lang/Object;J)B") {
        Some(NativeRoutine::UnsafeGetByte)
    } else {
        None
    }
}

/// The routine of entries 84 to 95 of the table that the call matches.
fn native_table_7_lookup(class_name: &str, name: &str, type_str: &str) -> (r: Option<NativeRoutine>)
    ensures
        r == native_table_7(class_name@, name@, type_str@),
{
    if str_eq(class_name, "sun/nio/ch/UnixFileDispatcherImpl") && str_eq(name, "size0") && str_eq(type_str, "(Ljava/io/FileDescriptor;)J") {
        Some(NativeRoutine::Size0)
    } else if str_eq(class_name, "sun/nio/ch/UnixFileDispatcherImpl") && str_eq(name, "allocationGranularity0") && str_eq(type_str, "()J") {
        Some(NativeRoutine::AllocationGranularity0)
    } else if str_eq(class_name, "sun/nio/ch/UnixFileDispatcherImpl") && str_eq(name, "map0") && str_eq(type_str, "(Ljava/io/FileDescriptor;IJJZ)J") {
        Some(NativeRoutine::Map0)
    } else if str_eq(class_name, "java/lang/Class") && str_eq(name, "isInterface") && str_eq(type_str, "()Z") {
        Some(NativeRoutine::ClassIsInterface)
    } else if str_eq(class_name, "java/lang/Class") && str_eq(name, "getDeclaredConstructors0") && str_eq(type_str, "(Z)[Ljava/lang/reflect/Constructor;") {
        Some(NativeRoutine::GetDeclaredConstructors0)
    } else if str_eq(class_name, "java/lang/Class") && str_eq(name, "getModifiers") && str_eq(type_str, "()I") {
        Some(NativeRoutine::GetModifiers)
    } else if str_eq(class_name, "jdk/internal/reflect/DirectConstructorHandleAccessor$NativeAccessor") && str_eq(name, "newInstance0") && str_eq(type_str, "(Ljava/lang/reflect/Constructor;[Ljava/lang/Object;)Ljava/lang/Object;") {
        Some(NativeRoutine::NewInstance0)
    } else if str_eq(class_name, "java/io/UnixFileSystem") && str_eq(name, "canonicalize0") && str_eq(type_str, "(Ljava/lang/String;)Ljava/lang/String;") {
        Some(NativeRoutine::Canonicalize0)
    } else if str_eq(class_name, "java/lang/Class") && str_eq(name, "isAssignableFrom") && str_eq(type_str, "(Ljava/lang/Class;)Z") {
        Some(NativeRoutine::IsAssignableFrom)
    } else if str_eq(class_name, "java/lang/Class") && str_eq(name, "getSuperclass") && str_eq(type_str, "()Ljava/lang/Class;") {
        Some(NativeRoutine::GetSuperclass)
    } else if str_eq(class_name, "java/lang/Module") && str_eq(name, "defineModule0") && str_eq(type_str, "(Ljava/lang/Module;ZLjava/lang/String;Ljava/lang/String;[Ljava/lang/Object;)V") {
        Some(NativeRoutine::DefineModule0)
    } else if str_eq(class_name, "java/lang/Double") && str_eq(name, "longBitsToDouble") && str_eq(type_str, "(J)D") {
        Some(NativeRoutine::LongBitsToDouble)
    } else {
        None
    }
}

/// The routine of entries 96 to 107 of the table that the call matches.
fn native_table_8_lookup(class_name: &str, name: &str, type_str: &str) -> (r: Option<NativeRoutine>)
    ensures
        r == native_table_8(class_name@, name@, type_str@),
{
    if str_eq(class_name, "java/lang/Module") && str_eq(name, "addReads0") && str_eq(type_str, "(Ljava/lang/Module;Ljava/lang/Module;)V") {
        Some(NativeRoutine::AddReads0)
    } else if str_eq(class_name, "java/lang/Module") && str_eq(name, "addExportsToAll0") && str_eq(type_str, "(Ljava/lang/Module;Ljava/lang/String;)V") {
        Some(NativeRoutine::AddExportsToAll0)
    } else if str_eq(class_name, "java/lang/Module") && str_eq(name, "addExports0") && str_eq(type_str, "(Ljava/lang/Module;Ljava/lang/String;Ljava/lang/Module;)V") {
        Some(NativeRoutine::AddExports0)
    } else if str_eq(class_name, "java/io/FileOutputStream") && str_eq(name, "initIDs") && str_eq(type_str, "()V") {
        Some(NativeRoutine::FileoutputstreamInitids)
    } else if str_eq(class_name, "java/io/FileOutputStream") && str_eq(name, "writeBytes") && str_eq(type_str, "([BIIZ)V") {
        Some(NativeRoutine::FileoutputstreamWriteBytes)
    } else if str_eq(class_name, "java/net/InetAddress") && str_eq(name, "init") && str_eq(type_str, "()V") {
        Some(NativeRoutine::InetaddressInit)
    } else if str_eq(class_name, "java/net/InetAddress") && str_eq(name, "isIPv6Supported") && str_eq(type_str, "()Z") {
        Some(NativeRoutine::IsIpv6Supported)
    } else if str_eq(class_name, "java/net/InetAddress") && str_eq(name, "isIPv4Available") && str_eq(type_str, "()Z") {
        Some(NativeRoutine::IsIpv4Available)
    } else if str_eq(class_name, "java/net/Inet4Address") && str_eq(name, "init") && str_eq(type_str, "()V") {
        Some(NativeRoutine::Inet4addressInit)
    } else if str_eq(class_name, "java/lang/invoke/MethodHandleNatives") && str_eq(name, "getNamedCon") && str_eq(type_str, "(I[Ljava/lang/Object;)I") {
        Some(NativeRoutine::GetNamedCon)
    } else if str_eq(class_name, "java/lang/invoke/MethodHandleNatives") && str_eq(name, "resolve") && str_eq(type_str, "(Ljava/lang/invoke/MemberName;Ljava/lang/Class;IZ)Ljava/lang/invoke/MemberName;") {
        Some(NativeRoutine::ResolveMemberName)
    } else if str_eq(class_name, "java/lang/invoke/MethodHandleNatives") && str_eq(name, "getMemberVMInfo") && str_eq(type_str, "(Ljava/lang/invoke/MemberName;)Ljava/lang/Object;") {
        Some(NativeRoutine::GetMemberVmInfo)
    } else {
        None
    }
}

/// The routine that a call of the native method `name` with descriptor
/// `type_str` of the class `class_name` reaches, if the machine implements it.
pub fn native_routine(class_name: &str, name: &str, type_str: &str) -> (r: Option<NativeRoutine>)
    ensures
        r == native_routine_of(class_name@, name@, type_str@),
{
    let found = native_table_0_lookup(class_name, name, type_str);
    if found.is_some() {
        return found;
    }
    let found = native_table_1_lookup(class_name, name, type_str);
    if found.is_some() {
        return found;
    }
    let found = native_table_2_lookup(class_name, name, type_str);
    if found.is_some() {
        return found;
    }
    let found = native_table_3_lookup(class_name, name, type_str);
    if found.is_some() {
        return found;
    }
    let found = native_table_4_lookup(class_name, name, type_str);
    if found.is_some() {
        return found;
    }
    let found = native_table_5_lookup(class_name, name, type_str);
    if found.is_some() {
        return found;
    }
    let found = native_table_6_lookup(class_name, name, type_str);
    if found.is_some() {
        return found;
    }
    let found = native_table_7_lookup(class_name, name, type_str);
    if found.is_some() {
        return found;
    }
    let found = native_table_8_lookup(class_name, name, type_str);
    if found.is_some() {
        return found;
    }
    None
}

} // verus!
