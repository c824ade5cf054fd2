use vstd::prelude::*;

use crate::class_loader::class_file::ClassFileView;
use crate::class_loader::loader::{ClassLoader, Search, class_named, search_error};
use crate::constants::{Constants, MN_IS_CONSTRUCTOR, MN_IS_FIELD, MN_IS_METHOD};
use crate::errors::InternalError;
use crate::heap::{Heap, alloc_search, instance_at, loader_defaults_ok, new_object, object_at, readable_string, ref_value, string_text, unchanged_below};
use crate::instance::{Instance, field_of};
use crate::jvm::{JVM, StepError};
use crate::member_info::{RefField, integer_of, read_class_name, read_ref_field, ref_field};
use crate::native_calls::{NameRead, class_name_text};
use crate::types::Type;
use crate::text::{find_char_from, index_of_from, lemma_index_of_from};
use crate::utils::{dotclass_to_class, extract_parameters, parameter_part, slashed};

verus! {

/// The call that a direct method handle stands for, once its member is read.
#[derive(Debug)]
pub struct DirectCall {
    /// The handle's `MethodType`, whose descriptor the host asks for before
    /// the call (see `direct_call_descriptor`).
    pub method_type: u32,
    pub class: String,
    pub name: String,
    pub args: Vec<Type>,
    /// The new object, where the member makes one (a constructor, or a method
    /// reached as `newInvokeSpecial`): the handle's value is then that object,
    /// else what the call returns.
    pub this: Option<Type>,
    pub constructor: bool,
}

/// What reading a direct method handle gives: the class, the name and the
/// flags of its member.
pub enum HandleRead {
    Member(Seq<char>, Seq<char>, i32),
    Fails(StepError),
    FailsSomehow,
    Stops,
}

/// Reading the handle `mh`: its `member`, that member's `name` (a string),
/// `clazz` (a `Class` object, whose name is taken with `/` for `.`) and `flags`.
pub open spec fn handle_read(h: Seq<(u32, Instance)>, mh: u32) -> HandleRead {
    match instance_at(h, mh) {
        Some(Instance::ObjectInstance(o)) => match ref_field(o, "member"@) {
            RefField::Fails(e) => HandleRead::Fails(e),
            RefField::Ref(m) => match instance_at(h, m) {
                Some(Instance::ObjectInstance(mo)) => match ref_field(mo, "name"@) {
                    RefField::Fails(e) => HandleRead::Fails(e),
                    RefField::Ref(n) => if !readable_string(h, n) {
                        HandleRead::Stops
                    } else {
                        match string_text(h, n) {
                            None => HandleRead::FailsSomehow,
                            Some(name) => match ref_field(mo, "clazz"@) {
                                RefField::Fails(e) => HandleRead::Fails(e),
                                RefField::Ref(c) => match class_name_text(h, Type::ObjectRef(c), false) {
                                    NameRead::Text(cn) => match field_of(mo, "flags"@) {
                                        None => HandleRead::Fails(StepError::Internal(InternalError::FieldNotFound)),
                                        Some(f) => match integer_of(f) {
                                            None => HandleRead::Fails(
                                                StepError::Internal(InternalError::WrongType("Integer", f)),
                                            ),
                                            Some(flags) => HandleRead::Member(slashed(cn), name, flags),
                                        },
                                    },
                                    NameRead::Fails(e) => HandleRead::Fails(e),
                                    NameRead::FailsSomehow => HandleRead::FailsSomehow,
                                    NameRead::Stops => HandleRead::Stops,
                                },
                            },
                        }
                    },
                },
                _ => HandleRead::FailsSomehow,
            },
        },
        _ => HandleRead::FailsSomehow,
    }
}

/// Whether the flags of a member say that it is reached as `newInvokeSpecial`.
pub open spec fn new_invoke_special(flags: i32) -> bool {
    (flags >> 24i32) & 8i32 != 0
}

/// Whether the member with `flags` is a method.
pub open spec fn handle_method(flags: i32) -> bool {
    flags & MN_IS_METHOD != 0
}

/// Whether the member with `flags` is taken as a constructor (it is neither a
/// method nor a field).
pub open spec fn handle_constructor(flags: i32) -> bool {
    flags & MN_IS_METHOD == 0 && flags & MN_IS_FIELD == 0 && flags & MN_IS_CONSTRUCTOR != 0
}

/// Whether the member with `flags` makes a new object before the call.
pub open spec fn handle_makes_object(flags: i32) -> bool {
    handle_constructor(flags) || (handle_method(flags) && new_invoke_special(flags))
}

/// Whether calling the direct method handle `mh` stops the machine: a string
/// or a class name cannot be read, the member is of no kind known here, or a
/// new object is needed and the heap has no room.
pub open spec fn direct_handle_stops(hp: Heap, cs: Seq<(Seq<char>, ClassFileView)>, mh: u32) -> bool {
    match handle_read(hp.heap@, mh) {
        HandleRead::Stops => true,
        HandleRead::Member(_, _, flags) => {
            ||| (flags & MN_IS_METHOD == 0 && flags & MN_IS_FIELD == 0 && flags & MN_IS_CONSTRUCTOR == 0)
            ||| (handle_makes_object(flags) && !(1 <= hp.next_obj_ref && hp.next_obj_ref + cs.len() + 1 <= u32::MAX
                && loader_defaults_ok(cs)))
        },
        _ => false,
    }
}

/// Whether `r` is the call of `class.name` with `args` and `this`, made
/// with the method type that `t` reads.
pub open spec fn made_call(
    t: RefField,
    class: Seq<char>,
    name: Seq<char>,
    args: Seq<Type>,
    this: Option<Type>,
    ctor: bool,
    r: Result<DirectCall, StepError>,
) -> bool {
    match t {
        RefField::Ref(ty) => r matches Ok(dc) && dc.method_type == ty && dc.class@ == class && dc.name@ == name
            && dc.args@ == args && dc.this == this && dc.constructor == ctor,
        RefField::Fails(e) => r == Err::<DirectCall, StepError>(e),
    }
}

/// Calling the direct method handle `mh` with `args` (the handle first): a
/// method drops the handle from the arguments, unless it is reached as
/// `newInvokeSpecial`; that one and a constructor put a new object of the
/// member's class in its place; a field is not carried out.
pub open spec fn direct_handle_outcome(
    hp: Heap,
    hp2: Heap,
    cs: Seq<(Seq<char>, ClassFileView)>,
    mh: u32,
    args: Seq<Type>,
    r: Result<DirectCall, StepError>,
) -> bool {
    match handle_read(hp.heap@, mh) {
        HandleRead::Member(c, n, flags) => {
            let t = ref_field(object_at(hp.heap@, mh)->0, "type"@);
            if !handle_method(flags) && !handle_constructor(flags) {
                hp2 == hp && r == Err::<DirectCall, StepError>(StepError::Internal(InternalError::NotImplemented))
            } else if handle_makes_object(flags) {
                &&& unchanged_below(hp.heap@, hp2.heap@, hp.next_obj_ref)
                &&& hp.next_obj_ref < hp2.next_obj_ref
                &&& match alloc_search(cs, c, cs.len() as nat) {
                    Search::Found(_) => {
                        let o = Type::ObjectRef(hp.next_obj_ref);
                        &&& object_at(hp2.heap@, hp.next_obj_ref) matches Some(no) && new_object(
                            no,
                            class_named(cs, c)->0,
                            c,
                            hp.next_obj_ref,
                        )
                        &&& made_call(t, c, n, args.update(0, o), Some(o), handle_constructor(flags), r)
                    },
                    s => (r matches Err(StepError::Internal(e)) && search_error(s, e, InternalError::FieldNotFound)),
                }
            } else {
                hp2 == hp && made_call(t, c, n, args.drop_first(), None, false, r)
            }
        },
        HandleRead::Fails(e) => hp2 == hp && r == Err::<DirectCall, StepError>(e),
        HandleRead::FailsSomehow => hp2 == hp && r matches Err(StepError::Internal(_)),
        HandleRead::Stops => false,
    }
}

/// Reads the handle `mh`: the class, name and flags of its member, and its
/// `type` (read, not yet checked).
fn read_handle(heap: &Heap, mh: u32) -> (r: Result<(String, String, i32, Result<u32, StepError>), StepError>)
    requires
        !(handle_read(heap.heap@, mh) is Stops),
    ensures
        match handle_read(heap.heap@, mh) {
            HandleRead::Member(c, n, f) => (r matches Ok((a, b, x, t)) && a@ == c && b@ == n && x == f && match ref_field(
                object_at(heap.heap@, mh)->0,
                "type"@,
            ) {
                RefField::Ref(y) => t == Ok::<u32, StepError>(y),
                RefField::Fails(e) => t == Err::<u32, StepError>(e),
            }),
            HandleRead::Fails(e) => r == Err::<(String, String, i32, Result<u32, StepError>), StepError>(e),
            HandleRead::FailsSomehow => r matches Err(StepError::Internal(_)),
            HandleRead::Stops => false,
        },
{
    let o = match heap.get_obj_instance(mh) {
        Ok(o) => o,
        Err(e) => {
            return Err(StepError::Internal(e));
        },
    };
    let member = read_ref_field(o, "member")?;
    let mo = match heap.get_obj_instance(member) {
        Ok(o) => o,
        Err(e) => {
            return Err(StepError::Internal(e));
        },
    };
    let name_ref = read_ref_field(mo, "name")?;
    let name = match heap.get_string(name_ref) {
        Ok(t) => t,
        Err(e) => {
            return Err(StepError::Internal(e));
        },
    };
    let clazz = read_ref_field(mo, "clazz")?;
    let class_text = read_class_name(heap, clazz)?;
    let class = dotclass_to_class(class_text.as_str());
    let f = match mo.get_field("flags") {
        Ok(f) => f,
        Err(e) => {
            return Err(StepError::Internal(e));
        },
    };
    let flags = match f.as_integer() {
        Ok(i) => i,
        Err(e) => {
            return Err(StepError::Internal(e));
        },
    };
    let ty = read_ref_field(o, "type");
    Ok((class, name, flags, ty))
}

impl JVM {
    /// Resolves the direct method handle `mh` called with `args` (the handle
    /// first) into the call it stands for; the host then describes its method
    /// type, makes the call with `direct_call_descriptor`'s descriptor, and
    /// takes `this`, where there is one, as the handle's value.
    pub fn call_direct_method_handle(heap: &mut Heap, loader: &ClassLoader, mh: u32, args: Vec<Type>) -> (r: Result<
        DirectCall,
        StepError,
    >)
        requires
            args@.len() > 0,
            !direct_handle_stops(*old(heap), loader.classes_view(), mh),
        ensures
            direct_handle_outcome(*old(heap), *final(heap), loader.classes_view(), mh, args@, r),
    {
        let (class, name, flags, ty) = read_handle(heap, mh)?;
        let method = Constants::is_method(flags);
        let ctor = !method && !Constants::is_field(flags) && Constants::is_constructor(flags);
        if !method && !ctor {
            if Constants::is_field(flags) {
                return Err(StepError::Internal(InternalError::NotImplemented));
            }
            vstd::pervasive::unreached::<()>();
        }
        let mut args = args;
        let this = if ctor || (method && (flags >> 24i32) & 8i32 != 0) {
            let o = match heap.alloc_obj(loader, class.as_str()) {
                Ok(o) => o,
                Err(e) => {
                    return Err(StepError::Internal(e));
                },
            };
            args.set(0, o);
            Some(o)
        } else {
            args.remove(0);
            None
        };
        let t = ty?;
        Ok(DirectCall { method_type: t, class, name, args, this, constructor: ctor })
    }
}

/// The descriptor that a direct call is made with, once the host has described
/// the handle's method type as `desc`: that descriptor, or for a constructor
/// its parameters with the return type `V` (`desc` must then hold `(` before
/// `)`).
pub open spec fn call_descriptor(desc: Seq<char>, ctor: bool) -> Option<Seq<char>> {
    if !ctor {
        Some(desc)
    } else if index_of_from(desc, '(', 0) < index_of_from(desc, ')', 0) {
        match parameter_part(desc) {
            Some(p) => Some(seq!['('] + p + seq![')', 'V']),
            None => None,
        }
    } else {
        None
    }
}

/// The descriptor that the call `call` is made with, once the host has run
/// `MethodType.descriptorString` on its method type and got `descriptor`.
pub fn direct_call_descriptor(heap: &Heap, call: &DirectCall, descriptor: Type) -> (r: Result<String, StepError>)
    requires
        ref_value(descriptor) matches Some(d) ==> readable_string(heap.heap@, d),
    ensures
        match ref_value(descriptor) {
            None => r == Err::<String, StepError>(StepError::Internal(InternalError::WrongType("Reference", descriptor))),
            Some(d) => match string_text(heap.heap@, d) {
                None => r matches Err(StepError::Internal(_)),
                Some(t) => match call_descriptor(t, call.constructor) {
                    Some(x) => (r matches Ok(s) && s@ == x),
                    None => r matches Err(StepError::Internal(InternalError::General(_))),
                },
            },
        },
{
    let d = match descriptor.as_ref() {
        Ok(d) => d,
        Err(e) => {
            return Err(StepError::Internal(e));
        },
    };
    let desc = match heap.get_string(d) {
        Ok(t) => t,
        Err(e) => {
            return Err(StepError::Internal(e));
        },
    };
    if !call.constructor {
        return Ok(desc);
    }
    proof {
        lemma_index_of_from(desc@, '(', 0);
        lemma_index_of_from(desc@, ')', 0);
    }
    let open = find_char_from(desc.as_str(), '(', 0);
    let close = find_char_from(desc.as_str(), ')', 0);
    if !(open < close) {
        return Err(StepError::Internal(InternalError::General("malformed method type".to_string())));
    }
    match extract_parameters(desc.as_str()) {
        Some(p) => {
            let mut out = String::from_str("(");
            out.append(p);
            out.append(")V");
            proof {
                reveal_strlit("(");
                reveal_strlit(")V");
                assert(out@ =~= seq!['('] + p@ + seq![')', 'V']);
            }
            Ok(out)
        },
        None => Err(StepError::Internal(InternalError::General("malformed method type".to_string()))),
    }
}

} // verus!
