use vstd::prelude::*;

use crate::assign::{assign_stops, assignable};
use crate::class_loader::attribute_info::Code;
use crate::class_loader::attributes::{ExceptionTableEntry, ExceptionTableEntryView};
use crate::class_loader::class_file::ClassFileView;
use crate::class_loader::loader::{
    ClassLoader,
    Search,
    class_named,
    found_or,
    method_code,
    method_search,
    method_search_error,
    search_error,
};
use crate::class_loader::methods::MethodInfoView;
use crate::errors::{InternalError, JavaException, exception_classname, exception_of_classname, is_known_exception_class};
use crate::frame::{FrameView, with_pc};
use crate::heap::{Heap, alloc_search, instance_at, loader_defaults_ok, readable_string, ref_value, string_read};
use crate::instance::field_of;
use crate::jvm::pop_value;
use crate::instance::Instance;
use crate::jvm::{Exec, JVM, StepError, no_frame, push_value, set_top};
use crate::types::Type;

verus! {

/// Whether an exception of class `cls` thrown at `pc` is caught by the entry:
/// `pc` is within the entry's bounds (both included) and the class may be
/// assigned to the entry's catch type.
pub open spec fn entry_catches(
    cs: Seq<(Seq<char>, ClassFileView)>,
    e: ExceptionTableEntryView,
    pc: u16,
    cls: Seq<char>,
) -> Search<bool> {
    if e.start_pc <= pc && pc <= e.end_pc {
        assignable(cs, e.catch_type, cls)
    } else {
        Search::Found(false)
    }
}

/// Whether checking the entry stops the machine.
pub open spec fn entry_stops(cs: Seq<(Seq<char>, ClassFileView)>, e: ExceptionTableEntryView, pc: u16, cls: Seq<char>) -> bool {
    e.start_pc <= pc && pc <= e.end_pc && assign_stops(cs, e.catch_type, cls)
}

/// The handler of the first entry from `i` on that catches an exception of
/// class `cls` thrown at `pc`, if any.
pub open spec fn handler_search(
    cs: Seq<(Seq<char>, ClassFileView)>,
    table: Seq<ExceptionTableEntryView>,
    pc: u16,
    cls: Seq<char>,
    i: int,
) -> Search<Option<u16>>
    decreases table.len() - i,
{
    if i < 0 || i >= table.len() {
        Search::Found(None)
    } else {
        match entry_catches(cs, table[i], pc, cls) {
            Search::Found(true) => Search::Found(Some(table[i].handler_pc)),
            Search::Found(false) => handler_search(cs, table, pc, cls, i + 1),
            Search::NoClass(n) => Search::NoClass(n),
            Search::NotFound(n) => Search::NotFound(n),
            Search::Circular(n) => Search::Circular(n),
        }
    }
}

/// Whether the search for a handler from `i` on stops the machine.
pub open spec fn handler_stops(
    cs: Seq<(Seq<char>, ClassFileView)>,
    table: Seq<ExceptionTableEntryView>,
    pc: u16,
    cls: Seq<char>,
    i: int,
) -> bool
    decreases table.len() - i,
{
    if i < 0 || i >= table.len() {
        false
    } else if entry_stops(cs, table[i], pc, cls) {
        true
    } else {
        entry_catches(cs, table[i], pc, cls) == Search::Found(false) && handler_stops(cs, table, pc, cls, i + 1)
    }
}

/// Whether `e` reports the failed search `ms` for the method `name` with
/// descriptor `ty` (a method number past the range of `i32` is an error too).
pub open spec fn method_error(
    ms: Search<(Seq<char>, MethodInfoView, int)>,
    e: InternalError,
    name: Seq<char>,
    ty: Seq<char>,
) -> bool {
    match ms {
        Search::Found((_, _, i)) => i > i32::MAX && e is General,
        _ => method_search_error(ms, e, name, ty),
    }
}

/// The class of the object that stands for the Java exception `ex`: the name
/// in the class file of the class loaded for it.
pub open spec fn exception_object_class(cs: Seq<(Seq<char>, ClassFileView)>, ex: JavaException) -> Seq<char> {
    class_named(cs, exception_classname(ex))->0.this_class_name
}

/// Where the unwinding of the frames for an exception of class `cls` ends.
pub enum Unwound {
    /// A handler of the current method of these frames catches it, at this pc.
    Handler(Seq<FrameView>, u16),
    /// No method down to the frame at `stop_at` catches it; these frames are left.
    Unhandled(Seq<FrameView>),
    /// All frames are gone and none caught it.
    NoFrame(Seq<FrameView>),
    /// The current method of these frames is not found by this search.
    MethodFailed(Seq<FrameView>, Search<(Seq<char>, MethodInfoView, int)>),
    /// The search for a handler of the current method failed.
    CheckFailed(Seq<FrameView>, Search<Option<u16>>),
    /// The search stops the machine.
    Stops,
}

/// Unwinds the frames `s` for an exception of class `cls`: the current method's
/// handlers are searched at the frame's program counter; a method without a
/// handler for it has its frame popped, down to `stop_at` frames.
pub open spec fn unwind(s: Seq<FrameView>, cs: Seq<(Seq<char>, ClassFileView)>, cls: Seq<char>, stop_at: nat) -> Unwound
    decreases s.len(),
{
    if s.len() < stop_at {
        Unwound::Unhandled(s)
    } else if s.len() == 0 {
        Unwound::NoFrame(s)
    } else {
        let f = s.last();
        let ms = method_search(cs, f.class, f.func_name, f.func_type, false, cs.len() as nat);
        match ms {
            Search::Found((_, m, i)) => if i > i32::MAX {
                Unwound::MethodFailed(s, ms)
            } else {
                match method_code(m) {
                    Some(code) => if handler_stops(cs, code.exception_table, f.pc as u16, cls, 0) {
                        Unwound::Stops
                    } else {
                        match handler_search(cs, code.exception_table, f.pc as u16, cls, 0) {
                            Search::Found(Some(h)) => Unwound::Handler(s, h),
                            Search::Found(None) => unwind(s.drop_last(), cs, cls, stop_at),
                            sr => Unwound::CheckFailed(s, sr),
                        }
                    },
                    None => unwind(s.drop_last(), cs, cls, stop_at),
                }
            },
            _ => Unwound::MethodFailed(s, ms),
        }
    }
}

/// The frames after the handler at `h` takes the exception `x`: the reference
/// is pushed and the current frame goes on at the handler.
pub open spec fn enter_handler(t: Seq<FrameView>, x: u32, h: u16) -> Exec<()> {
    match push_value(t, Type::ObjectRef(x)) {
        Exec::Done(t2, _) => Exec::Done(set_top(t2, with_pc(t2.last(), h as usize)), ()),
        other => other,
    }
}

/// Whether the handling of the exception object `x` stops the machine.
pub open spec fn handling_stops(s: Seq<FrameView>, h: Seq<(u32, Instance)>, cs: Seq<(Seq<char>, ClassFileView)>, x: u32, stop_at: nat) -> bool {
    match instance_at(h, x) {
        Some(Instance::ObjectInstance(o)) => unwind(s, cs, o.classname@, stop_at) is Stops,
        _ => false,
    }
}

/// What handling the exception object `x` does to the frames `s` (giving `s2`)
/// and returns.
pub open spec fn handling(
    s: Seq<FrameView>,
    h: Seq<(u32, Instance)>,
    cs: Seq<(Seq<char>, ClassFileView)>,
    x: u32,
    stop_at: nat,
    s2: Seq<FrameView>,
    r: Result<Option<Type>, StepError>,
) -> bool {
    match instance_at(h, x) {
        None => s2 == s && r == Err::<Option<Type>, StepError>(StepError::Internal(InternalError::InstanceNotFound(x))),
        Some(Instance::ArrayInstance(_)) => s2 == s && r == Err::<Option<Type>, StepError>(
            StepError::Internal(InternalError::NotAnObject(x)),
        ),
        Some(Instance::ObjectInstance(o)) => match unwind(s, cs, o.classname@, stop_at) {
            Unwound::Handler(t, pc) => enter_handler(t, x, pc) matches Exec::Done(t2, _) && s2 == t2 && r == Ok::<
                Option<Type>,
                StepError,
            >(Some(Type::ObjectRef(x))),
            Unwound::Unhandled(t) => s2 == t && r == Ok::<Option<Type>, StepError>(None),
            Unwound::NoFrame(t) => s2 == t && r == Err::<Option<Type>, StepError>(no_frame()),
            Unwound::MethodFailed(t, ms) => s2 == t && (r matches Err(StepError::Internal(e)) && method_error(
                ms,
                e,
                t.last().func_name,
                t.last().func_type,
            )),
            Unwound::CheckFailed(t, sr) => s2 == t && (r matches Err(StepError::Internal(e)) && search_error(
                sr,
                e,
                InternalError::FieldNotFound,
            )),
            Unwound::Stops => false,
        },
    }
}

/// Whether `ex` is the exception that an object of class `name` with message
/// `msg` stands for.
pub open spec fn thrown_as(ex: JavaException, name: Seq<char>, msg: Seq<char>) -> bool {
    match ex {
        JavaException::CloneNotSupported(m) => name == "java/lang/CloneNotSupportedException"@ && m@ == msg,
        JavaException::IO(m) => name == "java/lang/IOException"@ && m@ == msg,
        JavaException::FileNotFound(m) => name == "java/lang/FileNotFoundException"@ && m@ == msg,
        JavaException::IllegalArgumentException(m) => name == "java/lang/IllegalArgumentException"@ && m@ == msg,
        JavaException::NullPointer => name == "java/lang/NullPointerException"@,
        JavaException::ArrayIndexOutOfBounds(a, b) => name == "java/lang/ArrayIndexOutOfBoundsException"@ && a
            == usize::MAX && b == usize::MAX,
        JavaException::Arithmetic => name == "java/lang/ArithmeticException"@,
        JavaException::LinkageError => name == "java/lang/LinkageError"@,
        JavaException::AssertionError => name == "java/lang/AssertionError"@,
    }
}

/// Whether `athrow` stops the machine: the thrown object's class stands for no
/// exception of the machine, or its message is not a readable string.
pub open spec fn athrow_stops(s: Seq<FrameView>, h: Seq<(u32, Instance)>) -> bool {
    match pop_value(s) {
        Exec::Panic => true,
        Exec::Done(_, v) => match ref_value(v) {
            Some(x) => match instance_at(h, x) {
                Some(Instance::ObjectInstance(o)) => match field_of(o, "detailMessage"@) {
                    Some(m) => match ref_value(m) {
                        Some(mr) => !is_known_exception_class(o.classname@) || (mr != 0 && !readable_string(h, mr)),
                        None => false,
                    },
                    None => false,
                },
                _ => false,
            },
            None => false,
        },
        Exec::Fail(_, _) => false,
    }
}

/// `athrow`: pops the exception object and raises the exception that its class
/// and its message stand for (`No Message` without a message).
pub open spec fn athrow_outcome(
    s: Seq<FrameView>,
    h: Seq<(u32, Instance)>,
    s2: Seq<FrameView>,
    r: Result<Option<Type>, StepError>,
) -> bool {
    match pop_value(s) {
        Exec::Done(t, v) => s2 == t && match ref_value(v) {
            None => r == Err::<Option<Type>, StepError>(StepError::Internal(InternalError::WrongType("Reference", v))),
            Some(x) => match instance_at(h, x) {
                None => r == Err::<Option<Type>, StepError>(StepError::Internal(InternalError::InstanceNotFound(x))),
                Some(Instance::ArrayInstance(_)) => r == Err::<Option<Type>, StepError>(
                    StepError::Internal(InternalError::NotAnObject(x)),
                ),
                Some(Instance::ObjectInstance(o)) => match field_of(o, "detailMessage"@) {
                    None => r == Err::<Option<Type>, StepError>(StepError::Internal(InternalError::FieldNotFound)),
                    Some(m) => match ref_value(m) {
                        None => r == Err::<Option<Type>, StepError>(
                            StepError::Internal(InternalError::WrongType("Reference", m)),
                        ),
                        Some(mr) => if mr == 0 {
                            r matches Err(StepError::Java(ex)) && thrown_as(ex, o.classname@, "No Message"@)
                        } else {
                            ||| exists|text: String|
                                string_read(h, mr, Ok::<String, InternalError>(text)) && (r matches Err(StepError::Java(ex))
                                    && thrown_as(ex, o.classname@, text@))
                            ||| r matches Err(StepError::Internal(e)) && string_read(h, mr, Err::<String, InternalError>(e))
                        },
                    },
                },
            },
        },
        Exec::Fail(t, e) => s2 == t && r == Err::<Option<Type>, StepError>(e),
        Exec::Panic => false,
    }
}

impl ExceptionTableEntry {
    /// Whether the entry catches an exception of class `exception_class` thrown
    /// at `pc`.
    pub fn check_exception(&self, loader: &ClassLoader, pc: u16, exception_class: &str) -> (r: Result<
        bool,
        InternalError,
    >)
        requires
            !entry_stops(loader.classes_view(), self@, pc, exception_class@),
        ensures
            found_or(entry_catches(loader.classes_view(), self@, pc, exception_class@), r, InternalError::FieldNotFound),
    {
        if pc >= self.start_pc && pc <= self.end_pc {
            Type::check_type(loader, self.catch_type.as_str(), exception_class)
        } else {
            Ok(false)
        }
    }
}

impl Code {
    /// The handler of the first entry of the exception table that catches an
    /// exception of class `exception_class` thrown at `pc`, if any.
    pub fn check_exception(&self, loader: &ClassLoader, pc: u16, exception_class: &str) -> (r: Result<
        Option<u16>,
        InternalError,
    >)
        requires
            !handler_stops(loader.classes_view(), self@.exception_table, pc, exception_class@, 0),
        ensures
            found_or(
                handler_search(loader.classes_view(), self@.exception_table, pc, exception_class@, 0),
                r,
                InternalError::FieldNotFound,
            ),
    {
        let ghost cs = loader.classes_view();
        let ghost table = self@.exception_table;
        let mut i: usize = 0;
        while i < self.exception_table.len()
            invariant
                cs == loader.classes_view(),
                table == self@.exception_table,
                table.len() == self.exception_table@.len(),
                i <= table.len(),
                handler_search(cs, table, pc, exception_class@, 0) == handler_search(
                    cs,
                    table,
                    pc,
                    exception_class@,
                    i as int,
                ),
                !handler_stops(cs, table, pc, exception_class@, i as int),
            decreases table.len() - i,
        {
            let entry = &self.exception_table[i];
            assert(entry@ == table[i as int]);
            let caught = entry.check_exception(loader, pc, exception_class)?;
            if caught {
                return Ok(Some(entry.get_handler_pc()));
            }
            i = i + 1;
        }
        Ok(None)
    }
}

impl JVM {
    /// Moves the program counter of the current frame to `pc`.
    pub fn jump_to(&mut self, pc: usize) -> (r: Result<(), StepError>)
        ensures
            old(self)@.len() == 0 ==> final(self)@ == old(self)@ && r == Err::<(), StepError>(no_frame()),
            old(self)@.len() > 0 ==> final(self)@ == set_top(old(self)@, with_pc(old(self)@.last(), pc)) && r is Ok,
            final(self).counter == old(self).counter,
    {
        if self.frames.len() == 0 {
            return Err(StepError::Internal(InternalError::FrameNotFound));
        }
        let mut f = self.take_top();
        f.jump_to(pc);
        self.put_top(f);
        assert(self@ =~= set_top(old(self)@, with_pc(old(self)@.last(), pc)));
        Ok(())
    }

    /// Looks for a handler of the exception object `exec_ref` from the current
    /// method down, popping the frames of the methods that do not catch it, as
    /// long as at least `stop_at` frames are left. A handler takes the exception
    /// on its stack and its method goes on from the handler.
    pub fn handle_java_exception(&mut self, heap: &Heap, loader: &ClassLoader, exec_ref: u32, stop_at: usize) -> (r:
        Result<Option<Type>, StepError>)
        requires
            !handling_stops(old(self)@, heap.heap@, loader.classes_view(), exec_ref, stop_at as nat),
        ensures
            handling(old(self)@, heap.heap@, loader.classes_view(), exec_ref, stop_at as nat, final(self)@, r),
            final(self).counter == old(self).counter,
    {
        let class_name = match heap.get_instance(exec_ref) {
            Ok(Instance::ObjectInstance(o)) => o.get_classname(),
            Ok(Instance::ArrayInstance(_)) => {
                return Err(StepError::Internal(InternalError::NotAnObject(exec_ref)));
            },
            Err(_) => {
                return Err(StepError::Internal(InternalError::InstanceNotFound(exec_ref)));
            },
        };
        let ghost cs = loader.classes_view();
        let ghost start = self@;
        loop
            invariant
                cs == loader.classes_view(),
                start == old(self)@,
                instance_at(heap.heap@, exec_ref) matches Some(Instance::ObjectInstance(o)) && o.classname@ == class_name@,
                unwind(start, cs, class_name@, stop_at as nat) == unwind(self@, cs, class_name@, stop_at as nat),
                !(unwind(self@, cs, class_name@, stop_at as nat) is Stops),
                self.counter == old(self).counter,
            decreases self@.len(),
        {
            if self.frames.len() < stop_at {
                return Ok(None);
            }
            if self.frames.len() == 0 {
                return Err(StepError::Internal(InternalError::FrameNotFound));
            }
            let pc: u16;
            let found = {
                let f = &self.frames[self.frames.len() - 1];
                assert(f@ == self@.last());
                pc = f.get_pc() as u16;
                loader.get_method_by_name(f.get_classname(), f.get_func_name(), f.get_func_type())
            };
            let m = match found {
                Ok((_, m)) => m,
                Err(e) => {
                    return Err(StepError::Internal(e));
                },
            };
            let code = if m.has_code() && m.code_index < m.attributes.len() {
                m.get_code()
            } else {
                None
            };
            if let Some(code) = code {
                match code.check_exception(loader, pc, class_name) {
                    Ok(Some(h)) => {
                        self.push_stack(Type::ObjectRef(exec_ref))?;
                        self.jump_to(h as usize)?;
                        return Ok(Some(Type::ObjectRef(exec_ref)));
                    },
                    Ok(None) => {},
                    Err(e) => {
                        return Err(StepError::Internal(e));
                    },
                }
            }
            self.pop_frame();
        }
    }

    /// What the machine does with an error of a step: a missing frame ends the
    /// run quietly, and a Java exception becomes an object of its class that is
    /// handed to the handlers of the methods down to `stop_at` frames (the
    /// error comes back when none catches it).
    pub fn handle_step_error(&mut self, heap: &mut Heap, loader: &ClassLoader, err: StepError, stop_at: usize) -> (r:
        Result<Option<Type>, StepError>)
        requires
            err is Java || err == StepError::Internal(InternalError::FrameNotFound),
            1 <= old(heap).next_obj_ref,
            old(heap).next_obj_ref + loader.classes@.len() + 1 <= u32::MAX,
            loader_defaults_ok(loader.classes_view()),
            err matches StepError::Java(ex) ==> alloc_search(
                loader.classes_view(),
                exception_classname(ex),
                loader.classes@.len() as nat,
            ) matches Search::Found(_) ==> !(unwind(
                old(self)@,
                loader.classes_view(),
                exception_object_class(loader.classes_view(), ex),
                stop_at as nat,
            ) is Stops),
        ensures
            err == StepError::Internal(InternalError::FrameNotFound) ==> r == Ok::<Option<Type>, StepError>(None)
                && final(self)@ == old(self)@,
            err matches StepError::Java(ex) ==> match alloc_search(
                loader.classes_view(),
                exception_classname(ex),
                loader.classes@.len() as nat,
            ) {
                Search::Found(_) => match unwind(
                    old(self)@,
                    loader.classes_view(),
                    exception_object_class(loader.classes_view(), ex),
                    stop_at as nat,
                ) {
                    Unwound::Handler(t, pc) => enter_handler(t, old(heap).next_obj_ref, pc) matches Exec::Done(t2, _)
                        && final(self)@ == t2 && r == Ok::<Option<Type>, StepError>(
                        Some(Type::ObjectRef(old(heap).next_obj_ref)),
                    ),
                    Unwound::Unhandled(t) => final(self)@ == t && r == Err::<Option<Type>, StepError>(err),
                    _ => r is Err,
                },
                sr => final(self)@ == old(self)@ && (r matches Err(StepError::Internal(e)) && search_error(
                    sr,
                    e,
                    InternalError::FieldNotFound,
                )),
            },
            final(self).counter == old(self).counter,
    {
        match err {
            StepError::Java(ex) => {
                let class_name = JavaException::convert_java_exception_to_classname(&ex);
                let obj = match heap.alloc_obj(loader, class_name) {
                    Ok(o) => o,
                    Err(e) => {
                        return Err(StepError::Internal(e));
                    },
                };
                let exec_ref = match obj {
                    Type::ObjectRef(x) => x,
                    _ => vstd::pervasive::unreached(),
                };
                let handled = self.handle_java_exception(heap, loader, exec_ref, stop_at)?;
                match handled {
                    None => Err(StepError::Java(ex)),
                    Some(v) => Ok(Some(v)),
                }
            },
            _ => Ok(None),
        }
    }

    /// `athrow`.
    pub fn exec_athrow(&mut self, heap: &Heap) -> (r: Result<Option<Type>, StepError>)
        requires
            !athrow_stops(old(self)@, heap.heap@),
        ensures
            athrow_outcome(old(self)@, heap.heap@, final(self)@, r),
            final(self).counter == old(self).counter,
    {
        let v = self.pop_stack()?;
        let x = match v.as_ref() {
            Ok(x) => x,
            Err(e) => {
                return Err(StepError::Internal(e));
            },
        };
        let obj = match heap.get_instance(x) {
            Ok(Instance::ObjectInstance(o)) => o,
            Ok(Instance::ArrayInstance(_)) => {
                return Err(StepError::Internal(InternalError::NotAnObject(x)));
            },
            Err(_) => {
                return Err(StepError::Internal(InternalError::InstanceNotFound(x)));
            },
        };
        let message = match obj.get_field("detailMessage") {
            Ok(m) => m,
            Err(e) => {
                return Err(StepError::Internal(e));
            },
        };
        let message_ref = match message.as_ref() {
            Ok(m) => m,
            Err(e) => {
                return Err(StepError::Internal(e));
            },
        };
        let detail = if message_ref == 0 {
            "No Message".to_string()
        } else {
            match heap.get_string(message_ref) {
                Ok(t) => t,
                Err(e) => {
                    return Err(StepError::Internal(e));
                },
            }
        };
        let ghost text = detail@;
        let ex = JavaException::convert_classname_to_java_exception(obj.get_classname(), detail);
        assert(thrown_as(ex, obj.classname@, text));
        Err(StepError::Java(ex))
    }
}

} // verus!
