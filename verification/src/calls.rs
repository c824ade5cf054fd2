use vstd::prelude::*;

use crate::class_loader::class_file::ClassFileView;
use crate::class_loader::constant_pool::cp_method_ref;
use crate::class_loader::loader::{
    ClassLoader,
    ConstKind,
    Search,
    method_code,
    method_search,
    resolver,
    search_error,
};
use crate::class_loader::methods::ACC_NATIVE;
use crate::errors::InternalError;
use crate::exceptions::method_error;
use crate::frame::FrameView;
use crate::heap::{Heap, class_obj_budget, class_obj_ready, instance_at, loader_defaults_ok, ref_of, unchanged_below};
use crate::instance::Instance;
use crate::modulemanager::ModuleManager;
use crate::invoke::{Popped, arg_count, arguments, restore};
use crate::jvm::{Exec, JVM, StepError, argument_classes, frame_locals, read_u16, read_u8, readable_descriptor, runs};
use crate::text::str_eq;
use crate::objects::{frame_class, instance_class};
use crate::types::Type;
use crate::utils::{default_value_of, slashed};

verus! {

/// What an invocation leaves to the host.
#[derive(Debug)]
pub enum Call {
    /// A frame for the method was pushed; execution goes on in it.
    Pushed,
    /// The method (class, name, descriptor) is native; its arguments are on
    /// the operand stack for the host's routine.
    Native(String, String, String),
    /// The class of the static method (class, name, descriptor) is to be
    /// initialized first; the host does so, then calls `finish_invokestatic`.
    Init(String, String, String),
}

/// The method reference at `index` as the current class resolves it.
pub enum MethodRefCheck {
    /// The current class is not loaded.
    NoClass(Seq<char>),
    /// No class from the current class up resolves the reference.
    Unresolved(Search<ClassFileView>),
    /// The class, name and descriptor of the method.
    Resolved(Seq<char>, Seq<char>, Seq<char>),
}

/// The method reference at `index`, resolved from the current class up.
pub open spec fn method_ref_of(t: Seq<FrameView>, cs: Seq<(Seq<char>, ClassFileView)>, index: u16) -> MethodRefCheck {
    match frame_class(t, cs) {
        None => MethodRefCheck::NoClass(slashed(t.last().class)),
        Some(c) => match resolver(cs, c.this_class_name, ConstKind::MethodRef, index, cs.len() as nat) {
            Search::Found(rc) => match cp_method_ref(rc.constant_pool, index) {
                Ok((k, n, d)) => MethodRefCheck::Resolved(k, n, d),
                Err(_) => MethodRefCheck::Unresolved(Search::NotFound(c.this_class_name)),
            },
            sr => MethodRefCheck::Unresolved(sr),
        },
    }
}

/// Whether `e` reports the failed resolution `k` of the method reference at `index`.
pub open spec fn method_ref_error(k: MethodRefCheck, index: u16, e: StepError) -> bool {
    match k {
        MethodRefCheck::NoClass(n) => e matches StepError::Internal(InternalError::ClassNotFound(a)) && a@ == n,
        MethodRefCheck::Unresolved(Search::NotFound(n)) => e matches StepError::Internal(
            InternalError::ConstantNotFound(a, i),
        ) && a@ == n && i == index,
        MethodRefCheck::Unresolved(sr) => e matches StepError::Internal(ie) && search_error(
            sr,
            ie,
            InternalError::FieldNotFound,
        ),
        MethodRefCheck::Resolved(_, _, _) => false,
    }
}

/// Whether `r` (with the frames `s2`) reports the failed pops `p`.
pub open spec fn pop_failed(p: Popped, s2: Seq<FrameView>, r: Result<Call, StepError>) -> bool {
    match p {
        Popped::Failed(t, e) => s2 == t && r == Err::<Call, StepError>(e),
        Popped::FailedSomehow(t) => s2 == t && r matches Err(StepError::Internal(_)),
        Popped::Mismatch(t, a, b) => s2 == t && (r matches Err(StepError::Internal(InternalError::WrongClass(x, y))) && x@
            == a && y@ == b),
        Popped::SearchFailed(t, sr) => s2 == t && (r matches Err(StepError::Internal(e)) && search_error(
            sr,
            e,
            InternalError::FieldNotFound,
        )),
        _ => false,
    }
}

/// `k` empty local slots.
pub open spec fn voids(k: nat) -> Seq<Type> {
    Seq::new(k, |i: int| Type::Void)
}

/// Whether a frame for the method can be pushed with the locals `args`.
pub open spec fn frame_ok(ty: Seq<char>, args: Seq<Type>) -> bool {
    &&& readable_descriptor(ty)
    &&& forall|i: int|
        args.len() <= i < argument_classes(ty).len() ==> default_value_of(#[trigger] argument_classes(ty)[i]) is Some
}

/// Whether `r` and the frames `s2` are the outcome of pushing a frame for the
/// method `name` with descriptor `ty` found from `class`, with locals `args`.
pub open spec fn pushed_frame(
    t: Seq<FrameView>,
    cs: Seq<(Seq<char>, ClassFileView)>,
    class: Seq<char>,
    name: Seq<char>,
    ty: Seq<char>,
    args: Seq<Type>,
    s2: Seq<FrameView>,
    r: Result<Call, StepError>,
) -> bool {
    match method_search(cs, class, name, ty, false, cs.len() as nat) {
        Search::Found((c, m, i)) => if i <= i32::MAX && method_code(m) is Some {
            r matches Ok(Call::Pushed) && s2 == t.push(
                FrameView {
                    pc: 0,
                    last_opcode_pc: 0,
                    class: c,
                    func_name: name,
                    func_type: ty,
                    code: method_code(m)->0.code,
                    stack: Seq::empty(),
                    locals: frame_locals(args, ty, method_code(m)->0.max_locals),
                },
            )
        } else {
            r matches Err(StepError::Internal(_)) && s2 == t
        },
        _ => r matches Err(StepError::Internal(_)) && s2 == t,
    }
}

/// Whether `r` and the frames `s2` are the outcome of handing the native
/// method (`mc`, `name`, `ty`) to the host with its arguments `args` pushed back.
pub open spec fn native_call(
    t: Seq<FrameView>,
    args: Seq<Type>,
    mc: Seq<char>,
    name: Seq<char>,
    ty: Seq<char>,
    s2: Seq<FrameView>,
    r: Result<Call, StepError>,
) -> bool {
    match restore(t, args, 0) {
        Exec::Done(t3, _) => s2 == t3 && (r matches Ok(Call::Native(a, b, c)) && a@ == mc && b@ == name && c@ == ty),
        Exec::Fail(t3, e) => s2 == t3 && r == Err::<Call, StepError>(e),
        Exec::Panic => false,
    }
}

/// The class of the object a virtual call is made on: the first argument.
pub open spec fn caller_class(h: Seq<(u32, Instance)>, args: Seq<Type>) -> Seq<char> {
    match args[0] {
        Type::ObjectRef(o) => instance_class(instance_at(h, o)->0),
        Type::ArrayRef(o) => instance_class(instance_at(h, o)->0),
        _ => Seq::empty(),
    }
}

/// Whether a call of the method found from the class `from` (named `name` and
/// `ty`, with `n` parameters, resolved in `cls`), with the arguments `args`,
/// stops the machine.
pub open spec fn dispatch_stops(
    t: Seq<FrameView>,
    cs: Seq<(Seq<char>, ClassFileView)>,
    from: Seq<char>,
    name: Seq<char>,
    ty: Seq<char>,
    n: nat,
    args: Seq<Type>,
) -> bool {
    match method_search(cs, from, name, ty, false, cs.len() as nat) {
        Search::Found((mc, m, i)) => i <= i32::MAX && if m.access_flags & ACC_NATIVE != 0 {
            restore(t, args, 0) is Panic
        } else {
            match method_code(m) {
                Some(code) => (code.max_locals as int) < ((n as u16) as int) || !frame_ok(
                    ty,
                    args + voids((code.max_locals - (n as u16)) as nat),
                ),
                None => false,
            }
        },
        _ => false,
    }
}

/// The call of the method found from the class `from` with the arguments
/// `args` (`cls` is the class the reference named): a native method is handed
/// to the host, another gets a frame with its extra locals.
pub open spec fn dispatch(
    t: Seq<FrameView>,
    cs: Seq<(Seq<char>, ClassFileView)>,
    cls: Seq<char>,
    from: Seq<char>,
    name: Seq<char>,
    ty: Seq<char>,
    n: nat,
    args: Seq<Type>,
    s2: Seq<FrameView>,
    r: Result<Call, StepError>,
) -> bool {
    let ms = method_search(cs, from, name, ty, false, cs.len() as nat);
    match ms {
        Search::Found((mc, m, i)) => if i > i32::MAX {
            s2 == t && r matches Err(StepError::Internal(InternalError::General(_)))
        } else if m.access_flags & ACC_NATIVE != 0 {
            native_call(t, args, mc, name, ty, s2, r)
        } else {
            match method_code(m) {
                None => s2 == t && (r matches Err(StepError::Internal(InternalError::CodeNotFound(a, b, c))) && a@
                    == cls && b@ == name && c@ == ty),
                Some(code) => pushed_frame(
                    t,
                    cs,
                    mc,
                    name,
                    ty,
                    args + voids((code.max_locals - (n as u16)) as nat),
                    s2,
                    r,
                ),
            }
        },
        _ => s2 == t && (r matches Err(StepError::Internal(e)) && method_error(ms, e, name, ty)),
    }
}

/// Whether `invokevirtual` stops the machine.
pub open spec fn invokevirtual_stops(s: Seq<FrameView>, h: Seq<(u32, Instance)>, cs: Seq<(Seq<char>, ClassFileView)>) -> bool {
    match read_u16(s) {
        Exec::Done(t, index) => match method_ref_of(t, cs, index) {
            MethodRefCheck::Resolved(cls, name, ty) => match arg_count(ty) {
                Some(n) => match arguments(t, h, cs, n, cls, true) {
                    Popped::Args(t2, args) => dispatch_stops(t2, cs, caller_class(h, args), name, ty, n, args),
                    Popped::Stops => true,
                    _ => false,
                },
                None => false,
            },
            _ => false,
        },
        Exec::Panic => true,
        _ => false,
    }
}

/// `invokevirtual`: resolves the method reference, pops the arguments and the
/// object, and calls the method that the object's class finds.
pub open spec fn invokevirtual_outcome(
    s: Seq<FrameView>,
    h: Seq<(u32, Instance)>,
    cs: Seq<(Seq<char>, ClassFileView)>,
    s2: Seq<FrameView>,
    r: Result<Call, StepError>,
) -> bool {
    match read_u16(s) {
        Exec::Done(t, index) => match method_ref_of(t, cs, index) {
            MethodRefCheck::Resolved(cls, name, ty) => match arg_count(ty) {
                Some(n) => match arguments(t, h, cs, n, cls, true) {
                    Popped::Args(t2, args) => dispatch(t2, cs, cls, caller_class(h, args), name, ty, n, args, s2, r),
                    p => pop_failed(p, s2, r),
                },
                None => s2 == t && r == Err::<Call, StepError>(StepError::Internal(InternalError::BadDescriptor)),
            },
            k => s2 == t && (r matches Err(e) && method_ref_error(k, index, e)),
        },
        Exec::Fail(t, e) => s2 == t && r == Err::<Call, StepError>(e),
        Exec::Panic => false,
    }
}


/// Whether the heap has room for the class object of `name`, or has it already.
pub open spec fn class_obj_room(hp: Heap, cs: Seq<(Seq<char>, ClassFileView)>, name: Seq<char>) -> bool {
    ||| ref_of(hp.classes@, name) is Some
    ||| 1 <= hp.next_obj_ref && hp.next_obj_ref + class_obj_budget(name.len(), cs.len() as nat) <= u32::MAX
        && loader_defaults_ok(cs)
}

/// Whether the heap `hp2` is `hp` after the class object of `name` was looked
/// up, or made: a heap that has it is left as it is; otherwise what was there
/// stays and the references grow within the budget.
pub open spec fn class_obj_made(hp: Heap, hp2: Heap, cs: Seq<(Seq<char>, ClassFileView)>, name: Seq<char>) -> bool {
    &&& ref_of(hp.classes@, name) is Some ==> hp2 == hp
    &&& hp.next_obj_ref <= hp2.next_obj_ref <= hp.next_obj_ref + class_obj_budget(name.len(), cs.len() as nat)
    &&& unchanged_below(hp.heap@, hp2.heap@, hp.next_obj_ref)
}

/// Whether `invokespecial` (or `invokestatic`) of `name`/`ty` in `cls`, with
/// `extra` the local slots added to the arguments, stops the machine.
pub open spec fn direct_stops(
    t: Seq<FrameView>,
    h: Seq<(u32, Instance)>,
    cs: Seq<(Seq<char>, ClassFileView)>,
    cls: Seq<char>,
    name: Seq<char>,
    ty: Seq<char>,
    not_static: bool,
) -> bool {
    match method_search(cs, cls, name, ty, false, cs.len() as nat) {
        Search::Found((c, m, i)) => i <= i32::MAX && m.access_flags & ACC_NATIVE == 0 && match arg_count(ty) {
            Some(n) => match arguments(t, h, cs, n, cls, not_static) {
                Popped::Args(t2, args) => match method_code(m) {
                    Some(code) => !frame_ok(ty, args + voids(code.max_locals as nat)),
                    None => false,
                },
                Popped::Stops => true,
                _ => false,
            },
            None => false,
        },
        _ => false,
    }
}

/// The call of the method `name`/`ty` of `cls` made by `invokespecial`: a
/// native method is handed to the host with its arguments on the stack; another
/// gets its arguments and the object, and as many more empty slots as it has
/// locals.
pub open spec fn special_call(
    t: Seq<FrameView>,
    h: Seq<(u32, Instance)>,
    cs: Seq<(Seq<char>, ClassFileView)>,
    cls: Seq<char>,
    name: Seq<char>,
    ty: Seq<char>,
    s2: Seq<FrameView>,
    r: Result<Call, StepError>,
) -> bool {
    let ms = method_search(cs, cls, name, ty, false, cs.len() as nat);
    match ms {
        Search::Found((c, m, i)) => if i > i32::MAX {
            s2 == t && r matches Err(StepError::Internal(InternalError::General(_)))
        } else if m.access_flags & ACC_NATIVE != 0 {
            s2 == t && (r matches Ok(Call::Native(a, b, d)) && a@ == cls && b@ == name && d@ == ty)
        } else {
            match method_code(m) {
                None => s2 == t && (r matches Err(StepError::Internal(InternalError::CodeNotFound(a, b, d))) && a@
                    == cls && b@ == name && d@ == ty),
                Some(code) => match arg_count(ty) {
                    None => s2 == t && r == Err::<Call, StepError>(StepError::Internal(InternalError::BadDescriptor)),
                    Some(n) => match arguments(t, h, cs, n, cls, true) {
                        Popped::Args(t2, args) => pushed_frame(
                            t2,
                            cs,
                            cls,
                            name,
                            ty,
                            args + voids(code.max_locals as nat),
                            s2,
                            r,
                        ),
                        p => pop_failed(p, s2, r),
                    },
                },
            }
        },
        _ => s2 == t && (r matches Err(StepError::Internal(e)) && method_error(ms, e, name, ty)),
    }
}

/// The call of the static method `name`/`ty` of `cls`, once its class is
/// initialized: a native method is handed to the host; another gets its
/// arguments and as many more empty slots as it has locals, in a frame of the
/// class that declares it.
pub open spec fn static_call(
    t: Seq<FrameView>,
    h: Seq<(u32, Instance)>,
    cs: Seq<(Seq<char>, ClassFileView)>,
    cls: Seq<char>,
    name: Seq<char>,
    ty: Seq<char>,
    s2: Seq<FrameView>,
    r: Result<Call, StepError>,
) -> bool {
    let ms = method_search(cs, cls, name, ty, false, cs.len() as nat);
    match ms {
        Search::Found((c, m, i)) => if i > i32::MAX {
            s2 == t && r matches Err(StepError::Internal(InternalError::General(_)))
        } else if m.access_flags & ACC_NATIVE != 0 {
            s2 == t && (r matches Ok(Call::Native(a, b, d)) && a@ == cls && b@ == name && d@ == ty)
        } else {
            match arg_count(ty) {
                None => s2 == t && r == Err::<Call, StepError>(StepError::Internal(InternalError::BadDescriptor)),
                Some(n) => match arguments(t, h, cs, n, cls, false) {
                    Popped::Args(t2, args) => match method_code(m) {
                        None => s2 == t2 && (r matches Err(
                            StepError::Internal(InternalError::CodeNotFound(a, b, d)),
                        ) && a@ == cls && b@ == name && d@ == ty),
                        Some(code) => pushed_frame(t2, cs, c, name, ty, args + voids(code.max_locals as nat), s2, r),
                    },
                    p => pop_failed(p, s2, r),
                },
            }
        },
        _ => s2 == t && (r matches Err(StepError::Internal(e)) && method_error(ms, e, name, ty)),
    }
}

/// Whether `invokespecial` stops the machine, whatever making the class object
/// leaves in the heap beyond what was there.
pub open spec fn invokespecial_stops(s: Seq<FrameView>, hp: Heap, cs: Seq<(Seq<char>, ClassFileView)>) -> bool {
    match read_u16(s) {
        Exec::Done(t, index) => match method_ref_of(t, cs, index) {
            MethodRefCheck::Resolved(cls, name, ty) => !class_obj_room(hp, cs, cls) || exists|h2: Seq<(u32, Instance)>|
                unchanged_below(hp.heap@, h2, hp.next_obj_ref) && #[trigger] direct_stops(t, h2, cs, cls, name, ty, true),
            _ => false,
        },
        Exec::Panic => true,
        _ => false,
    }
}

/// `invokespecial`: resolves the method reference, makes the class object of
/// its class if there is none, and calls the method.
pub open spec fn invokespecial_outcome(
    s: Seq<FrameView>,
    hp: Heap,
    hp2: Heap,
    cs: Seq<(Seq<char>, ClassFileView)>,
    mm: ModuleManager,
    s2: Seq<FrameView>,
    r: Result<Call, StepError>,
) -> bool {
    match read_u16(s) {
        Exec::Done(t, index) => match method_ref_of(t, cs, index) {
            MethodRefCheck::Resolved(cls, name, ty) => class_obj_made(hp, hp2, cs, cls) && (
            (ref_of(hp2.classes@, cls) is Some && special_call(t, hp2.heap@, cs, cls, name, ty, s2, r)) || (ref_of(
                hp.classes@,
                cls,
            ) is None && !class_obj_ready(cs, mm, cls) && s2 == t && r matches Err(StepError::Internal(_)))),
            k => hp2 == hp && s2 == t && (r matches Err(e) && method_ref_error(k, index, e)),
        },
        Exec::Fail(t, e) => hp2 == hp && s2 == t && r == Err::<Call, StepError>(e),
        Exec::Panic => false,
    }
}

/// Whether `invokestatic` stops the machine (its class being initialized
/// already).
pub open spec fn invokestatic_stops(s: Seq<FrameView>, hp: Heap, cs: Seq<(Seq<char>, ClassFileView)>) -> bool {
    match read_u16(s) {
        Exec::Done(t, index) => match method_ref_of(t, cs, index) {
            MethodRefCheck::Resolved(cls, name, ty) => ref_of(hp.classes@, cls) is Some && direct_stops(
                t,
                hp.heap@,
                cs,
                cls,
                name,
                ty,
                false,
            ),
            _ => false,
        },
        Exec::Panic => true,
        _ => false,
    }
}

/// `invokestatic`: resolves the method reference; a class without its class
/// object is handed to the host to be initialized first, otherwise the method
/// is called.
pub open spec fn invokestatic_outcome(
    s: Seq<FrameView>,
    hp: Heap,
    cs: Seq<(Seq<char>, ClassFileView)>,
    s2: Seq<FrameView>,
    r: Result<Call, StepError>,
) -> bool {
    match read_u16(s) {
        Exec::Done(t, index) => match method_ref_of(t, cs, index) {
            MethodRefCheck::Resolved(cls, name, ty) => if ref_of(hp.classes@, cls) is None {
                s2 == t && (r matches Ok(Call::Init(a, b, d)) && a@ == cls && b@ == name && d@ == ty)
            } else {
                static_call(t, hp.heap@, cs, cls, name, ty, s2, r)
            },
            k => s2 == t && (r matches Err(e) && method_ref_error(k, index, e)),
        },
        Exec::Fail(t, e) => s2 == t && r == Err::<Call, StepError>(e),
        Exec::Panic => false,
    }
}

/// The larger of `a` and `b`.
pub open spec fn larger(a: u16, b: u16) -> u16 {
    if a < b {
        b
    } else {
        a
    }
}

/// The call of the interface method `name`/`ty` found from the class `caller`
/// of the object it is called on, with the arguments `args`: a native method
/// goes to the host with its arguments pushed back; another gets a frame with
/// at least four more empty slots.
pub open spec fn interface_dispatch(
    t: Seq<FrameView>,
    cs: Seq<(Seq<char>, ClassFileView)>,
    cls: Seq<char>,
    caller: Seq<char>,
    name: Seq<char>,
    ty: Seq<char>,
    args: Seq<Type>,
    s2: Seq<FrameView>,
    r: Result<Call, StepError>,
) -> bool {
    let ms = method_search(cs, caller, name, ty, false, cs.len() as nat);
    match ms {
        Search::Found((mc, m, i)) => if i > i32::MAX {
            s2 == t && r matches Err(StepError::Internal(InternalError::General(_)))
        } else if m.access_flags & ACC_NATIVE != 0 {
            native_call(t, args, mc, name, ty, s2, r)
        } else {
            match method_code(m) {
                None => s2 == t && (r matches Err(StepError::Internal(InternalError::CodeNotFound(a, b, d))) && a@
                    == cls && b@ == name && d@ == ty),
                Some(code) => pushed_frame(
                    t,
                    cs,
                    caller,
                    name,
                    ty,
                    args + voids(larger(code.max_locals, 4) as nat),
                    s2,
                    r,
                ),
            }
        },
        _ => s2 == t && (r matches Err(StepError::Internal(e)) && method_error(ms, e, name, ty)),
    }
}

/// Whether the call of the interface method (once its arguments are popped)
/// stops the machine: a method named `synchronized`, an object that is no
/// reference to an object, a frame that cannot be made or arguments that
/// cannot go back.
pub open spec fn interface_stops(
    t: Seq<FrameView>,
    h: Seq<(u32, Instance)>,
    cs: Seq<(Seq<char>, ClassFileView)>,
    cls: Seq<char>,
    name: Seq<char>,
    ty: Seq<char>,
) -> bool {
    name == "synchronized"@ || match arg_count(ty) {
        Some(n) => match arguments(t, h, cs, n, cls, true) {
            Popped::Args(t2, args) => match args[0] {
                Type::ObjectRef(o) => match instance_at(h, o) {
                    Some(Instance::ObjectInstance(ob)) => match method_search(
                        cs,
                        ob.classname@,
                        name,
                        ty,
                        false,
                        cs.len() as nat,
                    ) {
                        Search::Found((mc, m, i)) => i <= i32::MAX && if m.access_flags & ACC_NATIVE != 0 {
                            restore(t2, args, 0) is Panic
                        } else {
                            match method_code(m) {
                                Some(code) => !frame_ok(ty, args + voids(larger(code.max_locals, 4) as nat)),
                                None => false,
                            }
                        },
                        _ => false,
                    },
                    _ => false,
                },
                _ => true,
            },
            Popped::Stops => true,
            _ => false,
        },
        None => false,
    }
}

/// The call of the interface method `name`/`ty` of `cls` (its class object
/// made): the arguments and the object are popped, and the method that the
/// object's class finds is called.
pub open spec fn interface_call(
    t: Seq<FrameView>,
    h: Seq<(u32, Instance)>,
    cs: Seq<(Seq<char>, ClassFileView)>,
    cls: Seq<char>,
    name: Seq<char>,
    ty: Seq<char>,
    s2: Seq<FrameView>,
    r: Result<Call, StepError>,
) -> bool {
    match arg_count(ty) {
        None => s2 == t && r == Err::<Call, StepError>(StepError::Internal(InternalError::BadDescriptor)),
        Some(n) => match arguments(t, h, cs, n, cls, true) {
            Popped::Args(t2, args) => match args[0] {
                Type::ObjectRef(o) => match instance_at(h, o) {
                    Some(Instance::ObjectInstance(ob)) => interface_dispatch(
                        t2,
                        cs,
                        cls,
                        ob.classname@,
                        name,
                        ty,
                        args,
                        s2,
                        r,
                    ),
                    Some(Instance::ArrayInstance(a)) => s2 == t2 && (r matches Err(
                        StepError::Internal(InternalError::WrongInstance(_, x)),
                    ) && x@ == a.classname@),
                    None => s2 == t2 && r matches Err(StepError::Internal(InternalError::General(_))),
                },
                _ => false,
            },
            p => pop_failed(p, s2, r),
        },
    }
}

/// The operands of `invokeinterface`: the method reference's index, and the
/// frames past the two bytes that follow it.
pub open spec fn interface_operands(s: Seq<FrameView>) -> Exec<(u16, u8)> {
    match read_u16(s) {
        Exec::Done(t1, index) => match read_u8(t1) {
            Exec::Done(t2, _) => match read_u8(t2) {
                Exec::Done(t3, zero) => Exec::Done(t3, (index, zero)),
                Exec::Fail(t3, e) => Exec::Fail(t3, e),
                Exec::Panic => Exec::Panic,
            },
            Exec::Fail(t2, e) => Exec::Fail(t2, e),
            Exec::Panic => Exec::Panic,
        },
        Exec::Fail(t1, e) => Exec::Fail(t1, e),
        Exec::Panic => Exec::Panic,
    }
}

/// Whether `invokeinterface` stops the machine: its last operand byte is not
/// zero, or the call stops, whatever making the class object leaves in the heap
/// beyond what was there.
pub open spec fn invokeinterface_stops(s: Seq<FrameView>, hp: Heap, cs: Seq<(Seq<char>, ClassFileView)>) -> bool {
    match interface_operands(s) {
        Exec::Done(t, (index, zero)) => zero != 0 || match method_ref_of(t, cs, index) {
            MethodRefCheck::Resolved(cls, name, ty) => !class_obj_room(hp, cs, cls) || exists|h2: Seq<(u32, Instance)>|
                unchanged_below(hp.heap@, h2, hp.next_obj_ref) && #[trigger] interface_stops(t, h2, cs, cls, name, ty),
            _ => false,
        },
        Exec::Panic => true,
        _ => false,
    }
}

/// `invokeinterface`: reads its operands, resolves the method reference, makes
/// the class object of its class if there is none, and calls the method.
pub open spec fn invokeinterface_outcome(
    s: Seq<FrameView>,
    hp: Heap,
    hp2: Heap,
    cs: Seq<(Seq<char>, ClassFileView)>,
    mm: ModuleManager,
    s2: Seq<FrameView>,
    r: Result<Call, StepError>,
) -> bool {
    match interface_operands(s) {
        Exec::Done(t, (index, _)) => match method_ref_of(t, cs, index) {
            MethodRefCheck::Resolved(cls, name, ty) => class_obj_made(hp, hp2, cs, cls) && (
            (ref_of(hp2.classes@, cls) is Some && interface_call(t, hp2.heap@, cs, cls, name, ty, s2, r)) || (ref_of(
                hp.classes@,
                cls,
            ) is None && !class_obj_ready(cs, mm, cls) && s2 == t && r matches Err(StepError::Internal(_)))),
            k => hp2 == hp && s2 == t && (r matches Err(e) && method_ref_error(k, index, e)),
        },
        Exec::Fail(t, e) => hp2 == hp && s2 == t && r == Err::<Call, StepError>(e),
        Exec::Panic => false,
    }
}

/// Appends `k` empty slots to `args`.
fn pad_voids(args: &mut Vec<Type>, k: u16)
    ensures
        final(args)@ == old(args)@ + voids(k as nat),
{
    let ghost given = args@;
    let mut i: u16 = 0;
    assert(args@ =~= given + voids(0));
    while i < k
        invariant
            i <= k,
            args@ == given + voids(i as nat),
        decreases k - i,
    {
        args.push(Type::Void);
        i = i + 1;
        assert(args@ =~= given + voids(i as nat));
    }
}

/// Makes the class object of `name` unless the heap has it.
fn ensure_class_obj(heap: &mut Heap, loader: &ClassLoader, name: &str) -> (r: Result<(), StepError>)
    requires
        class_obj_room(*old(heap), loader.classes_view(), name@),
    ensures
        class_obj_made(*old(heap), *final(heap), loader.classes_view(), name@),
        ref_of(old(heap).classes@, name@) is Some ==> r is Ok,
        ref_of(old(heap).classes@, name@) is None && class_obj_ready(loader.classes_view(), loader.modulemanager, name@)
            ==> r is Ok,
        r is Ok ==> ref_of(final(heap).classes@, name@) is Some,
        r is Err ==> r matches Err(StepError::Internal(_)),
{
    if !heap.has_class_instance(name) {
        match heap.alloc_class_obj(loader, name) {
            Ok(_) => {},
            Err(e) => {
                return Err(StepError::Internal(e));
            },
        }
    }
    Ok(())
}

impl JVM {
    /// The class, name and descriptor of the method reference at `index`,
    /// resolved from the current class up.
    fn resolve_method(&self, loader: &ClassLoader, index: u16) -> (r: Result<(String, String, String), StepError>)
        requires
            self@.len() > 0,
        ensures
            match method_ref_of(self@, loader.classes_view(), index) {
                MethodRefCheck::Resolved(k, n, d) => (r matches Ok((a, b, c)) && a@ == k && b@ == n && c@ == d),
                k => r matches Err(e) && method_ref_error(k, index, e),
            },
    {
        let class = self.get_current_class(loader)?;
        match loader.resolve_method_ref(class.get_name(), index) {
            Ok(t) => Ok(t),
            Err(e) => Err(StepError::Internal(e)),
        }
    }

    /// Calls the method `name` with descriptor `ty` found from `from` with the
    /// arguments `args` (`cls` names the class of the method reference): a
    /// native method's arguments go back on the stack for the host; another
    /// method gets a frame with its extra local slots.
    fn dispatch_call(
        &mut self,
        loader: &ClassLoader,
        cls: &str,
        from: &str,
        name: String,
        ty: String,
        n: usize,
        args: Vec<Type>,
    ) -> (r: Result<Call, StepError>)
        requires
            !dispatch_stops(old(self)@, loader.classes_view(), from@, name@, ty@, n as nat, args@),
        ensures
            dispatch(old(self)@, loader.classes_view(), cls@, from@, name@, ty@, n as nat, args@, final(self)@, r),
            final(self).counter == old(self).counter,
    {
        let (method_class, method) = match loader.get_method_by_name(from, name.as_str(), ty.as_str()) {
            Ok(p) => p,
            Err(e) => {
                return Err(StepError::Internal(e));
            },
        };
        if method.is_native() {
            self.restore_stack(&args)?;
            return Ok(Call::Native(method_class, name, ty));
        }
        let code = if method.has_code() && method.code_index < method.attributes.len() {
            method.get_code()
        } else {
            None
        };
        let max_locals = match code {
            Some(c) => c.get_max_locals(),
            None => {
                return Err(StepError::Internal(InternalError::CodeNotFound(cls.to_string(), name, ty)));
            },
        };
        let mut locals = args;
        let ghost given = locals@;
        let extra: u16 = max_locals - n as u16;
        let mut k: u16 = 0;
        while k < extra
            invariant
                k <= extra,
                locals@ == given + voids(k as nat),
            decreases extra - k,
        {
            locals.push(Type::Void);
            k = k + 1;
            assert(locals@ =~= given + voids(k as nat));
        }
        match self.push_frame_from_class(loader, method_class.as_str(), name.as_str(), ty.as_str(), locals) {
            Ok(()) => Ok(Call::Pushed),
            Err(e) => Err(StepError::Internal(e)),
        }
    }

    /// `invokevirtual`.
    pub fn exec_invokevirtual(&mut self, heap: &Heap, loader: &ClassLoader) -> (r: Result<Call, StepError>)
        requires
            !invokevirtual_stops(old(self)@, heap.heap@, loader.classes_view()),
        ensures
            invokevirtual_outcome(old(self)@, heap.heap@, loader.classes_view(), final(self)@, r),
            final(self).counter == old(self).counter,
    {
        let index = self.read_operand_u16()?;
        let ghost t = self@;
        let (class_name, method_name, method_type) = self.resolve_method(loader, index)?;
        assert(method_ref_of(t, loader.classes_view(), index) == MethodRefCheck::Resolved(
            class_name@,
            method_name@,
            method_type@,
        ));
        let n = match JVM::parse_argument_count(method_type.as_str()) {
            Ok(c) => c,
            Err(e) => {
                return Err(StepError::Internal(e));
            },
        };
        assert(arg_count(method_type@) == Some(n as nat));
        let args = self.pop_arguments(heap, loader, n, class_name.as_str(), true)?;
        let caller = match args[0] {
            Type::ObjectRef(o) | Type::ArrayRef(o) => match heap.get_instance(o) {
                Ok(i) => i.get_classname(),
                Err(_) => vstd::pervasive::unreached(),
            },
            _ => vstd::pervasive::unreached(),
        };
        self.dispatch_call(loader, class_name.as_str(), caller, method_name, method_type, n, args)
    }

    /// The call made by `invokespecial` of `name`/`ty` in `cls`, its class
    /// object made.
    fn call_special(&mut self, heap: &Heap, loader: &ClassLoader, cls: String, name: String, ty: String) -> (r: Result<
        Call,
        StepError,
    >)
        requires
            !direct_stops(old(self)@, heap.heap@, loader.classes_view(), cls@, name@, ty@, true),
        ensures
            special_call(old(self)@, heap.heap@, loader.classes_view(), cls@, name@, ty@, final(self)@, r),
            final(self).counter == old(self).counter,
    {
        let native = match loader.is_method_native(cls.as_str(), name.as_str(), ty.as_str()) {
            Ok(b) => b,
            Err(e) => {
                return Err(StepError::Internal(e));
            },
        };
        if native {
            return Ok(Call::Native(cls, name, ty));
        }
        let max_locals = match loader.get_method_max_locals_by_name(cls.as_str(), name.as_str(), ty.as_str()) {
            Ok(m) => m,
            Err(e) => {
                return Err(StepError::Internal(e));
            },
        };
        let n = match JVM::parse_argument_count(ty.as_str()) {
            Ok(c) => c,
            Err(e) => {
                return Err(StepError::Internal(e));
            },
        };
        let mut args = self.pop_arguments(heap, loader, n, cls.as_str(), true)?;
        pad_voids(&mut args, max_locals);
        match self.push_frame_from_class(loader, cls.as_str(), name.as_str(), ty.as_str(), args) {
            Ok(()) => Ok(Call::Pushed),
            Err(e) => Err(StepError::Internal(e)),
        }
    }

    /// `invokespecial`.
    pub fn exec_invokespecial(&mut self, heap: &mut Heap, loader: &ClassLoader) -> (r: Result<Call, StepError>)
        requires
            !invokespecial_stops(old(self)@, *old(heap), loader.classes_view()),
        ensures
            invokespecial_outcome(
                old(self)@,
                *old(heap),
                *final(heap),
                loader.classes_view(),
                loader.modulemanager,
                final(self)@,
                r,
            ),
            final(self).counter == old(self).counter,
    {
        let index = self.read_operand_u16()?;
        let ghost t = self@;
        let (class_name, method_name, method_type) = self.resolve_method(loader, index)?;
        assert(method_ref_of(t, loader.classes_view(), index) == MethodRefCheck::Resolved(
            class_name@,
            method_name@,
            method_type@,
        ));
        let ghost h0 = *heap;
        ensure_class_obj(heap, loader, class_name.as_str())?;
        assert(!direct_stops(t, heap.heap@, loader.classes_view(), class_name@, method_name@, method_type@, true)) by {
            assert(unchanged_below(h0.heap@, heap.heap@, h0.next_obj_ref));
        }
        self.call_special(heap, loader, class_name, method_name, method_type)
    }

    /// The call of the static method `name`/`ty` of `cls`, once its class is
    /// initialized: a native method is handed to the host; another gets a frame
    /// in the class that declares it.
    pub fn finish_invokestatic(
        &mut self,
        heap: &Heap,
        loader: &ClassLoader,
        cls: String,
        name: String,
        ty: String,
    ) -> (r: Result<Call, StepError>)
        requires
            !direct_stops(old(self)@, heap.heap@, loader.classes_view(), cls@, name@, ty@, false),
        ensures
            static_call(old(self)@, heap.heap@, loader.classes_view(), cls@, name@, ty@, final(self)@, r),
            final(self).counter == old(self).counter,
    {
        let native = match loader.is_method_native(cls.as_str(), name.as_str(), ty.as_str()) {
            Ok(b) => b,
            Err(e) => {
                return Err(StepError::Internal(e));
            },
        };
        if native {
            return Ok(Call::Native(cls, name, ty));
        }
        let n = match JVM::parse_argument_count(ty.as_str()) {
            Ok(c) => c,
            Err(e) => {
                return Err(StepError::Internal(e));
            },
        };
        let mut args = self.pop_arguments(heap, loader, n, cls.as_str(), false)?;
        let (method_class, method) = match loader.get_method_by_name(cls.as_str(), name.as_str(), ty.as_str()) {
            Ok(p) => p,
            Err(e) => {
                return Err(StepError::Internal(e));
            },
        };
        let code = if method.has_code() && method.code_index < method.attributes.len() {
            method.get_code()
        } else {
            None
        };
        let max_locals = match code {
            Some(c) => c.get_max_locals(),
            None => {
                return Err(StepError::Internal(InternalError::CodeNotFound(cls, name, ty)));
            },
        };
        pad_voids(&mut args, max_locals);
        match self.push_frame_from_class(loader, method_class.as_str(), name.as_str(), ty.as_str(), args) {
            Ok(()) => Ok(Call::Pushed),
            Err(e) => Err(StepError::Internal(e)),
        }
    }

    /// `invokestatic`.
    pub fn exec_invokestatic(&mut self, heap: &Heap, loader: &ClassLoader) -> (r: Result<Call, StepError>)
        requires
            !invokestatic_stops(old(self)@, *heap, loader.classes_view()),
        ensures
            invokestatic_outcome(old(self)@, *heap, loader.classes_view(), final(self)@, r),
            final(self).counter == old(self).counter,
    {
        let index = self.read_operand_u16()?;
        let ghost t = self@;
        let (class_name, method_name, method_type) = self.resolve_method(loader, index)?;
        assert(method_ref_of(t, loader.classes_view(), index) == MethodRefCheck::Resolved(
            class_name@,
            method_name@,
            method_type@,
        ));
        if !heap.has_class_instance(class_name.as_str()) {
            return Ok(Call::Init(class_name, method_name, method_type));
        }
        self.finish_invokestatic(heap, loader, class_name, method_name, method_type)
    }

    /// The call made by `invokeinterface` of `name`/`ty` in `cls`, its class
    /// object made.
    fn call_interface(&mut self, heap: &Heap, loader: &ClassLoader, cls: String, name: String, ty: String) -> (r: Result<
        Call,
        StepError,
    >)
        requires
            !interface_stops(old(self)@, heap.heap@, loader.classes_view(), cls@, name@, ty@),
        ensures
            interface_call(old(self)@, heap.heap@, loader.classes_view(), cls@, name@, ty@, final(self)@, r),
            final(self).counter == old(self).counter,
    {
        let n = match JVM::parse_argument_count(ty.as_str()) {
            Ok(c) => c,
            Err(e) => {
                return Err(StepError::Internal(e));
            },
        };
        let mut args = self.pop_arguments(heap, loader, n, cls.as_str(), true)?;
        let caller = match args[0] {
            Type::ObjectRef(o) => match heap.get_obj_instance(o) {
                Ok(ob) => ob.get_classname(),
                Err(e) => {
                    return Err(StepError::Internal(e));
                },
            },
            _ => vstd::pervasive::unreached(),
        };
        let (method_class, method) = match loader.get_method_by_name(caller, name.as_str(), ty.as_str()) {
            Ok(p) => p,
            Err(e) => {
                return Err(StepError::Internal(e));
            },
        };
        if method.is_native() {
            self.restore_stack(&args)?;
            return Ok(Call::Native(method_class, name, ty));
        }
        let code = if method.has_code() && method.code_index < method.attributes.len() {
            method.get_code()
        } else {
            None
        };
        let max_locals = match code {
            Some(c) => c.get_max_locals(),
            None => {
                return Err(StepError::Internal(InternalError::CodeNotFound(cls, name, ty)));
            },
        };
        let extra: u16 = if max_locals < 4 {
            4
        } else {
            max_locals
        };
        pad_voids(&mut args, extra);
        match self.push_frame_from_class(loader, caller, name.as_str(), ty.as_str(), args) {
            Ok(()) => Ok(Call::Pushed),
            Err(e) => Err(StepError::Internal(e)),
        }
    }

    /// `invokeinterface`.
    pub fn exec_invokeinterface(&mut self, heap: &mut Heap, loader: &ClassLoader) -> (r: Result<Call, StepError>)
        requires
            !invokeinterface_stops(old(self)@, *old(heap), loader.classes_view()),
        ensures
            invokeinterface_outcome(
                old(self)@,
                *old(heap),
                *final(heap),
                loader.classes_view(),
                loader.modulemanager,
                final(self)@,
                r,
            ),
            final(self).counter == old(self).counter,
    {
        let index = self.read_operand_u16()?;
        let _count = self.read_operand_u8()?;
        let zero = self.read_operand_u8()?;
        if zero != 0 {
            vstd::pervasive::unreached()
        }
        let ghost t = self@;
        let (class_name, method_name, method_type) = self.resolve_method(loader, index)?;
        assert(method_ref_of(t, loader.classes_view(), index) == MethodRefCheck::Resolved(
            class_name@,
            method_name@,
            method_type@,
        ));
        let ghost h0 = *heap;
        ensure_class_obj(heap, loader, class_name.as_str())?;
        assert(!interface_stops(t, heap.heap@, loader.classes_view(), class_name@, method_name@, method_type@)) by {
            assert(unchanged_below(h0.heap@, heap.heap@, h0.next_obj_ref));
        }
        if str_eq(method_name.as_str(), "synchronized") {
            vstd::pervasive::unreached()
        }
        self.call_interface(heap, loader, class_name, method_name, method_type)
    }
}

} // verus!
