use vstd::prelude::*;

use crate::errors::InternalError;
use crate::heap::{Heap, instance_at, readable_string, ref_value, string_text};
use crate::instance::{Instance, field_of};
use crate::jvm::{JVM, StepError};
use crate::member_info::{RefField, integer_of, read_class_name, read_ref_field, ref_field};
use crate::native_calls::{NameRead, class_name_text};
use crate::objects::value_type_name;
use crate::text::str_eq;
use crate::types::{Type, category};
use crate::utils::{dotclass_to_class, slashed};

verus! {

/// A lambda form being interpreted: the form, its names, its arity, and the
/// value of each name so far.
#[derive(Debug)]
pub struct LambdaFrame {
    pub form: u32,
    pub names: Vec<Type>,
    pub arity: usize,
    pub values: Vec<Type>,
}

/// What one name of a lambda form asks for: a value read at once, or a call
/// that the host makes (its result becomes the name's value).
#[derive(Debug)]
pub enum LambdaAction {
    Value(Type),
    Invoke { class: String, name: String, descriptor: String, args: Vec<Type> },
}

/// What reading the lambda form of a handle gives: the form, its names and
/// its arity.
pub enum FormRead {
    Form(u32, Seq<Type>, i32),
    Fails(StepError),
    FailsSomehow,
}

/// Reading the handle `mh`: its `form`, that form's `names` (an array) and
/// `arity`.
pub open spec fn form_read(h: Seq<(u32, Instance)>, mh: u32) -> FormRead {
    match instance_at(h, mh) {
        Some(Instance::ObjectInstance(o)) => match ref_field(o, "form"@) {
            RefField::Fails(e) => FormRead::Fails(e),
            RefField::Ref(f) => match instance_at(h, f) {
                Some(Instance::ObjectInstance(fo)) => match ref_field(fo, "names"@) {
                    RefField::Fails(e) => FormRead::Fails(e),
                    RefField::Ref(n) => match instance_at(h, n) {
                        Some(Instance::ArrayInstance(a)) => match field_of(fo, "arity"@) {
                            None => FormRead::Fails(StepError::Internal(InternalError::FieldNotFound)),
                            Some(t) => match integer_of(t) {
                                None => FormRead::Fails(StepError::Internal(InternalError::WrongType("Integer", t))),
                                Some(ar) => FormRead::Form(f, a.elements@, ar),
                            },
                        },
                        _ => FormRead::FailsSomehow,
                    },
                },
                _ => FormRead::FailsSomehow,
            },
        },
        _ => FormRead::FailsSomehow,
    }
}

/// The arguments placed in the values of the names, from argument `i` and
/// place `vi` on, while `i < guard`: a `long` or a `double` takes two
/// arguments and one place, and lets one more argument in. Gives the values,
/// the last guard and the number of wide arguments; `None` where an argument
/// or a place is missing.
pub open spec fn place_args(args: Seq<Type>, values: Seq<Type>, i: int, guard: int, vi: int, wide: int) -> Option<
    (Seq<Type>, int, int),
>
    decreases guard - i,
{
    if i >= guard {
        Some((values, guard, wide))
    } else if i < 0 || i >= args.len() || vi < 0 || vi >= values.len() || args[i] is _Unitialized {
        None
    } else if category(args[i]) == 2 {
        place_args(args, values.update(vi, args[i]), i + 2, guard + 1, vi + 1, wide + 1)
    } else {
        place_args(args, values.update(vi, args[i]), i + 1, guard, vi + 1, wide)
    }
}

/// The values the names start with: none.
pub open spec fn start_values(n: nat) -> Seq<Type> {
    Seq::new(n, |k: int| Type::Void)
}

/// Whether starting the lambda form of `mh` on `args` stops the machine: the
/// arity is negative, the arguments do not fill it, or their number is not
/// the one the arity calls for.
pub open spec fn lambda_start_stops(h: Seq<(u32, Instance)>, mh: u32, args: Seq<Type>) -> bool {
    match form_read(h, mh) {
        FormRead::Form(_, names, ar) => ar < 0 || match place_args(args, start_values(names.len()), 0, ar as int, 0, 0) {
            None => true,
            Some((_, g, w)) => args.len() != g - w / 2,
        },
        _ => false,
    }
}

/// Starting the lambda form of the handle `mh` on `args`: the arguments fill
/// the first names.
pub open spec fn lambda_start_outcome(
    h: Seq<(u32, Instance)>,
    mh: u32,
    args: Seq<Type>,
    r: Result<LambdaFrame, StepError>,
) -> bool {
    match form_read(h, mh) {
        FormRead::Form(f, names, ar) => r matches Ok(lf) && lf.form == f && lf.names@ == names && lf.arity == ar
            && match place_args(args, start_values(names.len()), 0, ar as int, 0, 0) {
            Some(p) => lf.values@ == p.0,
            None => false,
        },
        FormRead::Fails(e) => r == Err::<LambdaFrame, StepError>(e),
        FormRead::FailsSomehow => r matches Err(StepError::Internal(_)),
    }
}

impl JVM {
    /// Starts interpreting the lambda form of the method handle `mh` called
    /// with `args`: the arguments become the values of the first names.
    pub fn lambda_form_start(heap: &Heap, mh: u32, args: &Vec<Type>) -> (r: Result<LambdaFrame, StepError>)
        requires
            !lambda_start_stops(heap.heap@, mh, args@),
        ensures
            lambda_start_outcome(heap.heap@, mh, args@, r),
    {
        let o = match heap.get_obj_instance(mh) {
            Ok(o) => o,
            Err(e) => {
                return Err(StepError::Internal(e));
            },
        };
        let form = read_ref_field(o, "form")?;
        let fo = match heap.get_obj_instance(form) {
            Ok(o) => o,
            Err(e) => {
                return Err(StepError::Internal(e));
            },
        };
        let names_ref = read_ref_field(fo, "names")?;
        let names = match heap.get_array_instance(names_ref) {
            Ok(a) => a.duplicate().elements,
            Err(e) => {
                return Err(StepError::Internal(e));
            },
        };
        let t = match fo.get_field("arity") {
            Ok(t) => t,
            Err(e) => {
                return Err(StepError::Internal(e));
            },
        };
        let ar = match t.as_integer() {
            Ok(a) => a,
            Err(e) => {
                return Err(StepError::Internal(e));
            },
        };
        if ar < 0 {
            vstd::pervasive::unreached::<()>();
        }
        let arity = ar as usize;
        let mut values: Vec<Type> = Vec::new();
        let mut k: usize = 0;
        while k < names.len()
            invariant
                k <= names@.len(),
                values@ == start_values(k as nat),
            decreases names@.len() - k,
        {
            values.push(Type::Void);
            k = k + 1;
            assert(values@ =~= start_values(k as nat));
        }
        let ghost start = values@;
        let mut guard = arity;
        let mut wide: usize = 0;
        let mut i: usize = 0;
        let mut vi: usize = 0;
        while i < guard
            invariant
                0 <= ar,
                arity == ar,
                guard == arity + wide,
                2 * wide <= i,
                vi <= i,
                values@.len() == names@.len(),
                place_args(args@, start, 0, ar as int, 0, 0) == place_args(
                    args@,
                    values@,
                    i as int,
                    guard as int,
                    vi as int,
                    wide as int,
                ),
                place_args(args@, start, 0, ar as int, 0, 0) is Some,
            decreases guard - i,
        {
            if i >= args.len() || vi >= values.len() {
                vstd::pervasive::unreached::<()>();
            }
            let a = args[i];
            if a.get_category() == 2 {
                values.set(vi, a);
                wide = wide + 1;
                guard = guard + 1;
                i = i + 1;
            } else {
                values.set(vi, a);
            }
            i = i + 1;
            vi = vi + 1;
        }
        let half = wide / 2;
        if args.len() != guard - half {
            vstd::pervasive::unreached::<()>();
        }
        Ok(LambdaFrame { form, names, arity, values })
    }
}

/// What a name of a lambda form reads: the elements of its `arguments`, the
/// name of the member its `function` calls, and that member's class.
pub enum NameMember {
    Member(Seq<Type>, Seq<char>, Seq<char>),
    Fails(StepError),
    FailsSomehow,
    Stops,
}

/// Reading the name `nv`: its `arguments` (an array), its `function`'s
/// `member`, and that member's `name` (a string), `type` (an object) and
/// `clazz` (a `Class` object, whose name is taken with `/` for `.`).
pub open spec fn name_member(h: Seq<(u32, Instance)>, nv: Type) -> NameMember {
    match ref_value(nv) {
        None => NameMember::Fails(StepError::Internal(InternalError::WrongType("Reference", nv))),
        Some(n) => match instance_at(h, n) {
            Some(Instance::ObjectInstance(no)) => match ref_field(no, "arguments"@) {
                RefField::Fails(e) => NameMember::Fails(e),
                RefField::Ref(ar) => match instance_at(h, ar) {
                    Some(Instance::ArrayInstance(arr)) => match ref_field(no, "function"@) {
                        RefField::Fails(e) => NameMember::Fails(e),
                        RefField::Ref(fr) => match instance_at(h, fr) {
                            Some(Instance::ObjectInstance(fo)) => match ref_field(fo, "member"@) {
                                RefField::Fails(e) => NameMember::Fails(e),
                                RefField::Ref(mr) => match instance_at(h, mr) {
                                    Some(Instance::ObjectInstance(mo)) => member_of_name(h, arr.elements@, mo),
                                    _ => NameMember::FailsSomehow,
                                },
                            },
                            _ => NameMember::FailsSomehow,
                        },
                    },
                    _ => NameMember::FailsSomehow,
                },
            },
            _ => NameMember::FailsSomehow,
        },
    }
}

/// The member `mo` of a name whose arguments are `elems`: its `name`, `type`
/// and `clazz`.
pub open spec fn member_of_name(h: Seq<(u32, Instance)>, elems: Seq<Type>, mo: crate::instance::ObjectInstance) -> NameMember {
    match ref_field(mo, "name"@) {
        RefField::Fails(e) => NameMember::Fails(e),
        RefField::Ref(nm) => if !readable_string(h, nm) {
            NameMember::Stops
        } else {
            match string_text(h, nm) {
                None => NameMember::FailsSomehow,
                Some(mn) => match ref_field(mo, "type"@) {
                    RefField::Fails(e) => NameMember::Fails(e),
                    RefField::Ref(tr) => match instance_at(h, tr) {
                        Some(Instance::ObjectInstance(_)) => match ref_field(mo, "clazz"@) {
                            RefField::Fails(e) => NameMember::Fails(e),
                            RefField::Ref(cr) => match class_name_text(h, Type::ObjectRef(cr), false) {
                                NameRead::Text(cn) => NameMember::Member(elems, mn, slashed(cn)),
                                NameRead::Fails(e) => NameMember::Fails(e),
                                NameRead::FailsSomehow => NameMember::FailsSomehow,
                                NameRead::Stops => NameMember::Stops,
                            },
                        },
                        _ => NameMember::FailsSomehow,
                    },
                },
            }
        },
    }
}

/// What an argument of a name gives.
pub enum ArgValue {
    Val(Type),
    Fails(StepError),
    FailsSomehow,
    Stops,
}

/// The argument `e` of a name: another name, whose `index` picks the value.
pub open spec fn arg_value(h: Seq<(u32, Instance)>, e: Type, values: Seq<Type>) -> ArgValue {
    match e {
        Type::ObjectRef(o) => match instance_at(h, o) {
            Some(Instance::ObjectInstance(ob)) => match field_of(ob, "index"@) {
                None => ArgValue::Fails(StepError::Internal(InternalError::FieldNotFound)),
                Some(t) => match integer_of(t) {
                    None => ArgValue::Fails(StepError::Internal(InternalError::WrongType("Integer", t))),
                    Some(k) => if 0 <= k < values.len() && !(values[k as int] is _Unitialized) {
                        ArgValue::Val(values[k as int])
                    } else {
                        ArgValue::Stops
                    },
                },
            },
            _ => ArgValue::FailsSomehow,
        },
        _ => ArgValue::Stops,
    }
}

/// What the arguments of a name give.
pub enum ArgsRead {
    Args(Seq<Type>),
    Fails(StepError),
    FailsSomehow,
    Stops,
}

/// The values of the first `k` arguments `elems` of a name, a `long` or a
/// `double` twice; the first argument that fails decides.
pub open spec fn call_args(h: Seq<(u32, Instance)>, elems: Seq<Type>, values: Seq<Type>, k: int) -> ArgsRead
    decreases k,
{
    if k <= 0 {
        ArgsRead::Args(Seq::empty())
    } else {
        match call_args(h, elems, values, k - 1) {
            ArgsRead::Args(a) => match arg_value(h, elems[k - 1], values) {
                ArgValue::Val(v) => ArgsRead::Args(
                    if category(v) == 2 {
                        a.push(v).push(v)
                    } else {
                        a.push(v)
                    },
                ),
                ArgValue::Fails(e) => ArgsRead::Fails(e),
                ArgValue::FailsSomehow => ArgsRead::FailsSomehow,
                ArgValue::Stops => ArgsRead::Stops,
            },
            other => other,
        }
    }
}

/// Once the arguments fail, they fail the same way however many follow.
proof fn lemma_call_args_stays(h: Seq<(u32, Instance)>, elems: Seq<Type>, values: Seq<Type>, k: int, n: int)
    requires
        0 <= k <= n,
        !(call_args(h, elems, values, k) is Args),
    ensures
        call_args(h, elems, values, n) == call_args(h, elems, values, k),
    decreases n - k,
{
    if k < n {
        lemma_call_args_stays(h, elems, values, k, n - 1);
    }
}

/// The type names of the values `a` from `i` on, a `long` or a `double`
/// counted once; `None` where a value has none.
pub open spec fn arg_types_from(h: Seq<(u32, Instance)>, a: Seq<Type>, i: int) -> Option<Seq<char>>
    decreases a.len() - i,
{
    if i < 0 || i >= a.len() {
        Some(Seq::empty())
    } else {
        match value_type_name(h, a[i]) {
            None => None,
            Some(t) => match arg_types_from(h, a, next_arg(a, i)) {
                Some(rest) => Some(t + rest),
                None => None,
            },
        }
    }
}

/// The position after the value at `i` (below `a.len()`): a `long` or a
/// `double` takes two.
pub open spec fn next_arg(a: Seq<Type>, i: int) -> int {
    let n = if category(a[i]) == 2 {
        i + 2
    } else {
        i + 1
    };
    if n > a.len() {
        a.len() as int
    } else {
        n
    }
}

/// Whether a member's name starts with `arg` (a field of the bound handle).
pub open spec fn bound_field(n: Seq<char>) -> bool {
    n.len() >= 3 && n[0] == 'a' && n[1] == 'r' && n[2] == 'g'
}

/// Whether interpreting the name `i` stops the machine: a string, a class
/// name or an argument cannot be read, a bound field has no handle, a call's
/// argument has no type, or the member is neither a bound field nor
/// `invokeBasic`.
pub open spec fn lambda_next_stops(h: Seq<(u32, Instance)>, names: Seq<Type>, values: Seq<Type>, i: int) -> bool {
    match name_member(h, names[i]) {
        NameMember::Stops => true,
        NameMember::Member(elems, mn, _) => match call_args(h, elems, values, elems.len() as int) {
            ArgsRead::Stops => true,
            ArgsRead::Args(a) => if bound_field(mn) {
                a.len() == 0
            } else if mn == "invokeBasic"@ {
                arg_types_from(h, a, 1) is None
            } else {
                true
            },
            _ => false,
        },
        _ => false,
    }
}

/// Interpreting the name `i` of a lambda form: a bound field (`argL0`, ...)
/// is read from the handle that comes first among the arguments;
/// `invokeBasic` becomes a call of the member with the arguments, whose
/// descriptor lists the types of all but the first.
pub open spec fn lambda_next_outcome(
    h: Seq<(u32, Instance)>,
    names: Seq<Type>,
    values: Seq<Type>,
    i: int,
    r: Result<LambdaAction, StepError>,
) -> bool {
    match name_member(h, names[i]) {
        NameMember::Member(elems, mn, c) => match call_args(h, elems, values, elems.len() as int) {
            ArgsRead::Args(a) => if bound_field(mn) {
                match ref_value(a[0]) {
                    None => r == Err::<LambdaAction, StepError>(StepError::Internal(InternalError::WrongType("Reference", a[0]))),
                    Some(x) => match instance_at(h, x) {
                        Some(Instance::ObjectInstance(o)) => match field_of(o, mn) {
                            Some(t) => r == Ok::<LambdaAction, StepError>(LambdaAction::Value(t)),
                            None => r == Err::<LambdaAction, StepError>(StepError::Internal(InternalError::FieldNotFound)),
                        },
                        _ => r matches Err(StepError::Internal(_)),
                    },
                }
            } else {
                r matches Ok(LambdaAction::Invoke { class, name, descriptor, args }) && class@ == c && name@ == mn
                    && args@ == a && descriptor@ == seq!['('] + arg_types_from(h, a, 1)->0 + ")Ljava/lang/Object"@
            },
            ArgsRead::Fails(e) => r == Err::<LambdaAction, StepError>(e),
            ArgsRead::FailsSomehow => r matches Err(StepError::Internal(_)),
            ArgsRead::Stops => false,
        },
        NameMember::Fails(e) => r == Err::<LambdaAction, StepError>(e),
        NameMember::FailsSomehow => r matches Err(StepError::Internal(_)),
        NameMember::Stops => false,
    }
}

/// Reads the name `nv`: the elements of its arguments, its member's name and
/// class.
fn read_name(heap: &Heap, nv: Type) -> (r: Result<(Vec<Type>, String, String), StepError>)
    requires
        !(name_member(heap.heap@, nv) is Stops),
    ensures
        match name_member(heap.heap@, nv) {
            NameMember::Member(elems, mn, c) => (r matches Ok((x, y, z)) && x@ == elems && y@ == mn && z@ == c),
            NameMember::Fails(e) => r == Err::<(Vec<Type>, String, String), StepError>(e),
            NameMember::FailsSomehow => r matches Err(StepError::Internal(_)),
            NameMember::Stops => false,
        },
{
    let n = match nv.as_ref() {
        Ok(n) => n,
        Err(e) => {
            return Err(StepError::Internal(e));
        },
    };
    let no = match heap.get_obj_instance(n) {
        Ok(o) => o,
        Err(e) => {
            return Err(StepError::Internal(e));
        },
    };
    let ar = read_ref_field(no, "arguments")?;
    let elems = match heap.get_array_instance(ar) {
        Ok(a) => a.duplicate().elements,
        Err(e) => {
            return Err(StepError::Internal(e));
        },
    };
    let fr = read_ref_field(no, "function")?;
    let fo = match heap.get_obj_instance(fr) {
        Ok(o) => o,
        Err(e) => {
            return Err(StepError::Internal(e));
        },
    };
    let mr = read_ref_field(fo, "member")?;
    let mo = match heap.get_obj_instance(mr) {
        Ok(o) => o,
        Err(e) => {
            return Err(StepError::Internal(e));
        },
    };
    let nm = read_ref_field(mo, "name")?;
    let mn = match heap.get_string(nm) {
        Ok(t) => t,
        Err(e) => {
            return Err(StepError::Internal(e));
        },
    };
    let tr = read_ref_field(mo, "type")?;
    match heap.get_obj_instance(tr) {
        Ok(_) => {},
        Err(e) => {
            return Err(StepError::Internal(e));
        },
    }
    let cr = read_ref_field(mo, "clazz")?;
    let cn = read_class_name(heap, cr)?;
    Ok((elems, mn, dotclass_to_class(cn.as_str())))
}

/// The value of the argument `e` of a name.
fn read_arg(heap: &Heap, e: Type, values: &Vec<Type>) -> (r: Result<Type, StepError>)
    requires
        !(arg_value(heap.heap@, e, values@) is Stops),
    ensures
        match arg_value(heap.heap@, e, values@) {
            ArgValue::Val(v) => r == Ok::<Type, StepError>(v),
            ArgValue::Fails(x) => r == Err::<Type, StepError>(x),
            ArgValue::FailsSomehow => r matches Err(StepError::Internal(_)),
            ArgValue::Stops => false,
        },
{
    let o = match e {
        Type::ObjectRef(o) => o,
        _ => {
            return vstd::pervasive::unreached();
        },
    };
    let ob = match heap.get_obj_instance(o) {
        Ok(o) => o,
        Err(x) => {
            return Err(StepError::Internal(x));
        },
    };
    let t = match ob.get_field("index") {
        Ok(t) => t,
        Err(x) => {
            return Err(StepError::Internal(x));
        },
    };
    let k = match t.as_integer() {
        Ok(k) => k,
        Err(x) => {
            return Err(StepError::Internal(x));
        },
    };
    if k < 0 || k as usize >= values.len() {
        return vstd::pervasive::unreached();
    }
    Ok(values[k as usize])
}

/// Whether `n` starts with `arg`.
fn starts_with_arg(n: &str) -> (r: bool)
    ensures
        r == bound_field(n@),
{
    n.unicode_len() >= 3 && n.get_char(0) == 'a' && n.get_char(1) == 'r' && n.get_char(2) == 'g'
}

impl JVM {
    /// Interprets the name `i` of the lambda form `frame`: the value it takes,
    /// or the call whose result the host gives it.
    pub fn lambda_form_next(heap: &Heap, frame: &LambdaFrame, i: usize) -> (r: Result<LambdaAction, StepError>)
        requires
            i < frame.names@.len(),
            !lambda_next_stops(heap.heap@, frame.names@, frame.values@, i as int),
        ensures
            lambda_next_outcome(heap.heap@, frame.names@, frame.values@, i as int, r),
    {
        let ghost h = heap.heap@;
        let (elems, mn, class) = read_name(heap, frame.names[i])?;
        let ghost n = elems@.len() as int;
        let mut a: Vec<Type> = Vec::new();
        let mut k: usize = 0;
        while k < elems.len()
            invariant
                k <= elems@.len(),
                n == elems@.len(),
                call_args(h, elems@, frame.values@, k as int) == ArgsRead::Args(a@),
                !(call_args(h, elems@, frame.values@, n) is Stops),
                h == heap.heap@,
                name_member(h, frame.names@[i as int]) matches NameMember::Member(x, y, z) && x == elems@ && y
                    == mn@ && z == class@,
            decreases elems@.len() - k,
        {
            proof {
                if arg_value(h, elems@[k as int], frame.values@) is Stops {
                    lemma_call_args_stays(h, elems@, frame.values@, k as int + 1, n);
                }
            }
            let v = match read_arg(heap, elems[k], &frame.values) {
                Ok(v) => v,
                Err(e) => {
                    proof {
                        assert(call_args(h, elems@, frame.values@, k as int + 1) == match arg_value(h, elems@[k as int], frame.values@) {
                            ArgValue::Val(v) => ArgsRead::Args(if category(v) == 2 { a@.push(v).push(v) } else { a@.push(v) }),
                            ArgValue::Fails(x) => ArgsRead::Fails(x),
                            ArgValue::FailsSomehow => ArgsRead::FailsSomehow,
                            ArgValue::Stops => ArgsRead::Stops,
                        });
                        lemma_call_args_stays(h, elems@, frame.values@, k as int + 1, n);
                    }
                    return Err(e);
                },
            };
            a.push(v);
            if v.get_category() == 2 {
                a.push(v);
            }
            k = k + 1;
        }
        if starts_with_arg(mn.as_str()) {
            if a.len() == 0 {
                return vstd::pervasive::unreached();
            }
            let x = match a[0].as_ref() {
                Ok(x) => x,
                Err(e) => {
                    return Err(StepError::Internal(e));
                },
            };
            let o = match heap.get_obj_instance(x) {
                Ok(o) => o,
                Err(e) => {
                    return Err(StepError::Internal(e));
                },
            };
            return match o.get_field(mn.as_str()) {
                Ok(t) => Ok(LambdaAction::Value(t)),
                Err(e) => Err(StepError::Internal(e)),
            };
        }
        if !str_eq(mn.as_str(), "invokeBasic") {
            return vstd::pervasive::unreached();
        }
        let mut types = String::new();
        let mut j: usize = 1;
        proof {
            assert(types@ =~= Seq::<char>::empty());
            assert(types@ + arg_types_from(h, a@, 1)->0 =~= arg_types_from(h, a@, 1)->0);
        }
        while j < a.len()
            invariant
                1 <= j <= a@.len() || (j == 1 && a@.len() == 0),
                arg_types_from(h, a@, 1) is Some,
                arg_types_from(h, a@, j as int) is Some,
                arg_types_from(h, a@, 1)->0 == types@ + arg_types_from(h, a@, j as int)->0,
                h == heap.heap@,
            decreases a@.len() - j,
        {
            let t = a[j].get_type(heap);
            let ghost before = types@;
            let ghost rest = arg_types_from(h, a@, j as int)->0;
            types.append(t.as_str());
            if a[j].get_category() == 2 && j + 1 < a.len() {
                j = j + 2;
            } else if a[j].get_category() == 2 {
                j = a.len();
            } else {
                j = j + 1;
            }
            proof {
                assert(rest == t@ + arg_types_from(h, a@, j as int)->0);
                assert(types@ + arg_types_from(h, a@, j as int)->0 =~= before + rest);
            }
        }
        let mut descriptor = String::from_str("(");
        descriptor.append(types.as_str());
        descriptor.append(")Ljava/lang/Object");
        proof {
            reveal_strlit("(");
            assert(arg_types_from(h, a@, j as int)->0 =~= Seq::<char>::empty());
            assert(descriptor@ =~= seq!['('] + arg_types_from(h, a@, 1)->0 + ")Ljava/lang/Object"@);
        }
        Ok(LambdaAction::Invoke { class, name: mn, descriptor, args: a })
    }
}

/// Whether reading the result of the lambda form `form` stops the machine:
/// its `result` is no name's number.
pub open spec fn lambda_result_stops(h: Seq<(u32, Instance)>, form: u32, values: Seq<Type>) -> bool {
    match instance_at(h, form) {
        Some(Instance::ObjectInstance(fo)) => match field_of(fo, "result"@) {
            Some(t) => match integer_of(t) {
                Some(k) => !(0 <= k < values.len()),
                None => false,
            },
            None => false,
        },
        _ => false,
    }
}

/// The result of the lambda form `form`: the value of the name its `result`
/// gives.
pub open spec fn lambda_result(h: Seq<(u32, Instance)>, form: u32, values: Seq<Type>, r: Result<Type, StepError>) -> bool {
    match instance_at(h, form) {
        Some(Instance::ObjectInstance(fo)) => match field_of(fo, "result"@) {
            None => r == Err::<Type, StepError>(StepError::Internal(InternalError::FieldNotFound)),
            Some(t) => match integer_of(t) {
                None => r == Err::<Type, StepError>(StepError::Internal(InternalError::WrongType("Integer", t))),
                Some(k) => r == Ok::<Type, StepError>(values[k as int]),
            },
        },
        _ => r matches Err(StepError::Internal(_)),
    }
}

impl JVM {
    /// The value of the lambda form `frame` once all its names are
    /// interpreted.
    pub fn lambda_form_result(heap: &Heap, frame: &LambdaFrame) -> (r: Result<Type, StepError>)
        requires
            !lambda_result_stops(heap.heap@, frame.form, frame.values@),
        ensures
            lambda_result(heap.heap@, frame.form, frame.values@, r),
    {
        let fo = match heap.get_obj_instance(frame.form) {
            Ok(o) => o,
            Err(e) => {
                return Err(StepError::Internal(e));
            },
        };
        let t = match fo.get_field("result") {
            Ok(t) => t,
            Err(e) => {
                return Err(StepError::Internal(e));
            },
        };
        let k = match t.as_integer() {
            Ok(k) => k,
            Err(e) => {
                return Err(StepError::Internal(e));
            },
        };
        if k < 0 || k as usize >= frame.values.len() {
            return vstd::pervasive::unreached();
        }
        Ok(frame.values[k as usize])
    }
}

} // verus!
