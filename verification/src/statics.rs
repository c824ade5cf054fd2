use vstd::prelude::*;

use crate::calls::MethodRefCheck;
use crate::calls::method_ref_error;
use crate::class_loader::class_file::ClassFileView;
use crate::class_loader::constant_pool::cp_field_ref;
use crate::class_loader::loader::{
    ClassLoader,
    ConstKind,
    Search,
    class_named,
    find_class,
    resolver,
    search_error,
    static_search,
    with_static,
};
use crate::errors::InternalError;
use crate::frame::FrameView;
use crate::heap::{Heap, instance_at};
use crate::instance::Instance;
use crate::jvm::{Exec, JVM, StepError, pop_value, push_value, read_u16, runs};
use crate::objects::frame_class;
use crate::text::str_eq;
use crate::types::Type;
use crate::utils::slashed;

verus! {

/// What a static-field instruction leaves to the host.
#[derive(Debug)]
pub enum StaticAccess {
    /// The instruction is done.
    Done,
    /// The class (first) of the field (second) is to be initialized first; the
    /// host does so, then calls the instruction's finishing function.
    Init(String, String),
}

/// The field reference at `index` as the current class resolves it: the
/// class, name and descriptor of the field.
pub open spec fn static_ref_of(t: Seq<FrameView>, cs: Seq<(Seq<char>, ClassFileView)>, index: u16) -> MethodRefCheck {
    match frame_class(t, cs) {
        None => MethodRefCheck::NoClass(slashed(t.last().class)),
        Some(c) => match resolver(cs, c.this_class_name, ConstKind::FieldRef, index, cs.len() as nat) {
            Search::Found(rc) => match cp_field_ref(rc.constant_pool, index) {
                Ok((k, n, d)) => MethodRefCheck::Resolved(k, n, d),
                Err(_) => MethodRefCheck::Unresolved(Search::NotFound(c.this_class_name)),
            },
            sr => MethodRefCheck::Unresolved(sr),
        },
    }
}

/// Whether reading the static field `name` from the class `k` (initialized)
/// stops the machine: the value cannot be pushed.
pub open spec fn static_read_stops(t: Seq<FrameView>, cs: Seq<(Seq<char>, ClassFileView)>, k: Seq<char>, name: Seq<char>) -> bool {
    match static_search(cs, k, name, cs.len() as nat) {
        Search::Found(v) => !runs(push_value(t, v)),
        _ => false,
    }
}

/// Reading the static field `name` from the class `k` up (its class
/// initialized): the value is pushed; a reference must designate an object.
pub open spec fn static_read(
    t: Seq<FrameView>,
    h: Seq<(u32, Instance)>,
    cs: Seq<(Seq<char>, ClassFileView)>,
    k: Seq<char>,
    name: Seq<char>,
    s2: Seq<FrameView>,
    r: Result<StaticAccess, StepError>,
) -> bool {
    match static_search(cs, k, name, cs.len() as nat) {
        Search::Found(v) => match v {
            Type::ObjectRef(o) => match instance_at(h, o) {
                None => s2 == t && r matches Err(StepError::Internal(InternalError::General(_))),
                Some(Instance::ArrayInstance(a)) => s2 == t && (r matches Err(
                    StepError::Internal(InternalError::WrongInstance(_, x)),
                ) && x@ == a.classname@),
                Some(Instance::ObjectInstance(_)) => pushed(t, v, s2, r),
            },
            _ => pushed(t, v, s2, r),
        },
        Search::NotFound(_) => s2 == t && (r matches Err(StepError::Internal(InternalError::StaticFieldNotFound(a)))
            && a@ == name),
        sr => s2 == t && (r matches Err(StepError::Internal(e)) && search_error(sr, e, InternalError::FieldNotFound)),
    }
}

/// Whether `r` and `s2` are the outcome of pushing `v`.
pub open spec fn pushed(t: Seq<FrameView>, v: Type, s2: Seq<FrameView>, r: Result<StaticAccess, StepError>) -> bool {
    match push_value(t, v) {
        Exec::Done(t2, _) => s2 == t2 && r matches Ok(StaticAccess::Done),
        Exec::Fail(t2, e) => s2 == t2 && r == Err::<StaticAccess, StepError>(e),
        Exec::Panic => false,
    }
}

/// The part of a static-field instruction before its class is initialized:
/// the field reference is resolved; an uninitialized class is handed to the
/// host; `then` says what is done otherwise.
pub open spec fn static_access(
    s: Seq<FrameView>,
    cs: Seq<(Seq<char>, ClassFileView)>,
    s2: Seq<FrameView>,
    r: Result<StaticAccess, StepError>,
    then: spec_fn(Seq<FrameView>, Seq<char>, Seq<char>) -> bool,
) -> bool {
    match read_u16(s) {
        Exec::Done(t, index) => match static_ref_of(t, cs, index) {
            MethodRefCheck::Resolved(k, n, _) => match class_named(cs, k) {
                None => s2 == t && (r matches Err(StepError::Internal(InternalError::ClassNotFound(a))) && a@
                    == slashed(k)),
                Some(c) => if !c.is_init {
                    s2 == t && (r matches Ok(StaticAccess::Init(a, b)) && a@ == k && b@ == n)
                } else {
                    then(t, k, n)
                },
            },
            e => s2 == t && (r matches Err(x) && method_ref_error(e, index, x)),
        },
        Exec::Fail(t, e) => s2 == t && r == Err::<StaticAccess, StepError>(e),
        Exec::Panic => false,
    }
}

/// Whether a static-field instruction stops the machine once its class is
/// found initialized, `stops` saying when for the field.
pub open spec fn static_stops(
    s: Seq<FrameView>,
    cs: Seq<(Seq<char>, ClassFileView)>,
    stops: spec_fn(Seq<FrameView>, Seq<char>, Seq<char>) -> bool,
) -> bool {
    match read_u16(s) {
        Exec::Done(t, index) => match static_ref_of(t, cs, index) {
            MethodRefCheck::Resolved(k, n, _) => match class_named(cs, k) {
                Some(c) => c.is_init && stops(t, k, n),
                None => false,
            },
            _ => false,
        },
        Exec::Panic => true,
        _ => false,
    }
}

/// `getstatic`.
pub open spec fn getstatic_outcome(
    s: Seq<FrameView>,
    h: Seq<(u32, Instance)>,
    cs: Seq<(Seq<char>, ClassFileView)>,
    s2: Seq<FrameView>,
    r: Result<StaticAccess, StepError>,
) -> bool {
    static_access(s, cs, s2, r, |t: Seq<FrameView>, k: Seq<char>, n: Seq<char>| static_read(t, h, cs, k, n, s2, r))
}

/// The value that a write to the static field `name` of `k` stores: the
/// constants of `jdk/internal/misc/UnsafeConstants` that describe the machine
/// (a 64-bit little-endian one with pages of 4096 bytes) take their own values.
pub open spec fn stored_static(k: Seq<char>, name: Seq<char>, v: Type) -> Type {
    if k == "jdk/internal/misc/UnsafeConstants"@ {
        if name == "ADDRESS_SIZE0"@ {
            Type::Integer(8)
        } else if name == "PAGE_SIZE"@ {
            Type::Integer(4096)
        } else if name == "BIG_ENDIAN"@ {
            Type::Boolean(false)
        } else {
            v
        }
    } else {
        v
    }
}

/// Writing the static field `name` of the class `k` (initialized): the value is
/// popped and stored in the class itself.
pub open spec fn static_write(
    t: Seq<FrameView>,
    cs: Seq<(Seq<char>, ClassFileView)>,
    cs2: Seq<(Seq<char>, ClassFileView)>,
    k: Seq<char>,
    name: Seq<char>,
    s2: Seq<FrameView>,
    r: Result<StaticAccess, StepError>,
) -> bool {
    match pop_value(t) {
        Exec::Done(t2, v) => s2 == t2 && match find_class(cs, slashed(k), 0) {
            Some(i) => r matches Ok(StaticAccess::Done) && cs2 == with_static(cs, i, name, stored_static(k, name, v)),
            None => (r matches Err(StepError::Internal(InternalError::ClassNotFound(a))) && a@ == slashed(k)) && cs2
                == cs,
        },
        Exec::Fail(t2, e) => s2 == t2 && r == Err::<StaticAccess, StepError>(e) && cs2 == cs,
        Exec::Panic => false,
    }
}

/// `putstatic`.
pub open spec fn putstatic_outcome(
    s: Seq<FrameView>,
    cs: Seq<(Seq<char>, ClassFileView)>,
    cs2: Seq<(Seq<char>, ClassFileView)>,
    s2: Seq<FrameView>,
    r: Result<StaticAccess, StepError>,
) -> bool {
    static_access(
        s,
        cs,
        s2,
        r,
        |t: Seq<FrameView>, k: Seq<char>, n: Seq<char>| static_write(t, cs, cs2, k, n, s2, r),
    ) && (!(r is Ok && r->Ok_0 is Done) ==> cs2 == cs)
}

impl JVM {
    /// The class, name and descriptor of the field reference at `index`,
    /// resolved from the current class up.
    fn resolve_static(&self, loader: &ClassLoader, index: u16) -> (r: Result<(String, String, String), StepError>)
        requires
            self@.len() > 0,
        ensures
            match static_ref_of(self@, loader.classes_view(), index) {
                MethodRefCheck::Resolved(k, n, d) => (r matches Ok((a, b, c)) && a@ == k && b@ == n && c@ == d),
                k => r matches Err(e) && method_ref_error(k, index, e),
            },
    {
        let class = self.get_current_class(loader)?;
        match loader.resolve_field_ref(class.get_name(), index) {
            Ok(t) => Ok(t),
            Err(e) => Err(StepError::Internal(e)),
        }
    }

    /// Reads the operand of a static-field instruction and resolves it: the
    /// class and name of the field, and whether the class is initialized.
    fn static_operand(&mut self, loader: &ClassLoader) -> (r: Result<(String, String, bool), StepError>)
        ensures
            match read_u16(old(self)@) {
                Exec::Done(t, index) => final(self)@ == t && match static_ref_of(t, loader.classes_view(), index) {
                    MethodRefCheck::Resolved(k, n, _) => match class_named(loader.classes_view(), k) {
                        None => (r matches Err(StepError::Internal(InternalError::ClassNotFound(a))) && a@ == slashed(
                            k,
                        )),
                        Some(c) => (r matches Ok((a, b, i)) && a@ == k && b@ == n && i == c.is_init),
                    },
                    e => r matches Err(x) && method_ref_error(e, index, x),
                },
                Exec::Fail(t, e) => final(self)@ == t && r == Err::<(String, String, bool), StepError>(e),
                Exec::Panic => false,
            },
            final(self).counter == old(self).counter,
    {
        let index = self.read_operand_u16()?;
        let (class_name, field_name, _) = self.resolve_static(loader, index)?;
        proof {
            loader.lemma_get(class_name@);
        }
        let init = match loader.get(class_name.as_str()) {
            Ok(c) => c.get_init(),
            Err(e) => {
                return Err(StepError::Internal(e));
            },
        };
        Ok((class_name, field_name, init))
    }

    /// The rest of `getstatic` once the class `class_name` is initialized: the
    /// static field `field_name`, read from the class up, is pushed.
    pub fn finish_getstatic(&mut self, heap: &Heap, loader: &ClassLoader, class_name: &str, field_name: &str) -> (r: Result<
        StaticAccess,
        StepError,
    >)
        requires
            !static_read_stops(old(self)@, loader.classes_view(), class_name@, field_name@),
        ensures
            static_read(old(self)@, heap.heap@, loader.classes_view(), class_name@, field_name@, final(self)@, r),
            final(self).counter == old(self).counter,
    {
        let field = match loader.get_static_field(class_name, field_name) {
            Ok(v) => v,
            Err(e) => {
                return Err(StepError::Internal(e));
            },
        };
        match field {
            Type::ObjectRef(o) => match heap.get_obj_instance(o) {
                Ok(_) => {},
                Err(e) => {
                    return Err(StepError::Internal(e));
                },
            },
            _ => {},
        }
        self.push_stack(field)?;
        Ok(StaticAccess::Done)
    }

    /// `getstatic`: an uninitialized class is handed to the host, which
    /// initializes it and calls `finish_getstatic`.
    pub fn exec_getstatic(&mut self, heap: &Heap, loader: &ClassLoader) -> (r: Result<StaticAccess, StepError>)
        requires
            !static_stops(
                old(self)@,
                loader.classes_view(),
                |t: Seq<FrameView>, k: Seq<char>, n: Seq<char>| static_read_stops(t, loader.classes_view(), k, n),
            ),
        ensures
            getstatic_outcome(old(self)@, heap.heap@, loader.classes_view(), final(self)@, r),
            final(self).counter == old(self).counter,
    {
        let (class_name, field_name, init) = self.static_operand(loader)?;
        if !init {
            return Ok(StaticAccess::Init(class_name, field_name));
        }
        self.finish_getstatic(heap, loader, class_name.as_str(), field_name.as_str())
    }

    /// The rest of `putstatic` once the class `class_name` is initialized: the
    /// value is popped and stored in the static field `field_name` of the class
    /// itself.
    pub fn finish_putstatic(&mut self, loader: &mut ClassLoader, class_name: &str, field_name: &str) -> (r: Result<
        StaticAccess,
        StepError,
    >)
        requires
            runs(pop_value(old(self)@)),
        ensures
            static_write(
                old(self)@,
                old(loader).classes_view(),
                final(loader).classes_view(),
                class_name@,
                field_name@,
                final(self)@,
                r,
            ),
            final(loader).modulemanager == old(loader).modulemanager,
            final(self).counter == old(self).counter,
    {
        let value = self.pop_stack()?;
        let stored = if str_eq(class_name, "jdk/internal/misc/UnsafeConstants") {
            if str_eq(field_name, "ADDRESS_SIZE0") {
                Type::Integer(8)
            } else if str_eq(field_name, "PAGE_SIZE") {
                Type::Integer(4096)
            } else if str_eq(field_name, "BIG_ENDIAN") {
                Type::Boolean(false)
            } else {
                value
            }
        } else {
            value
        };
        match loader.put_static_field(class_name, field_name, stored) {
            Ok(()) => Ok(StaticAccess::Done),
            Err(e) => Err(StepError::Internal(e)),
        }
    }

    /// `putstatic`: an uninitialized class is handed to the host, which
    /// initializes it and calls `finish_putstatic`.
    pub fn exec_putstatic(&mut self, loader: &mut ClassLoader) -> (r: Result<StaticAccess, StepError>)
        requires
            !static_stops(
                old(self)@,
                old(loader).classes_view(),
                |t: Seq<FrameView>, k: Seq<char>, n: Seq<char>| !runs(pop_value(t)),
            ),
        ensures
            putstatic_outcome(old(self)@, old(loader).classes_view(), final(loader).classes_view(), final(self)@, r),
            final(loader).modulemanager == old(loader).modulemanager,
            final(self).counter == old(self).counter,
    {
        let (class_name, field_name, init) = self.static_operand(loader)?;
        if !init {
            return Ok(StaticAccess::Init(class_name, field_name));
        }
        self.finish_putstatic(loader, class_name.as_str(), field_name.as_str())
    }
}

} // verus!
