use vstd::prelude::*;
use vstd::utf8::valid_utf8;

use crate::assign::{assign_stops, assignable};
use crate::class_loader::class_file::ClassFileView;
use crate::class_loader::loader::{ClassLoader, Search, search_error};
use crate::errors::{InternalError, JavaException};
use crate::frame::FrameView;
use crate::heap::{Heap, class_name_ref, instance_at, readable_string};
use crate::instance::{Instance, byte_of, field_of, is_byte_like};
use crate::jvm::{Exec, JVM, StepError, outcome, pop_value, push_value, runs};
use crate::objects::instance_class;
use crate::text::{find_char_from, index_of_from, lemma_index_of_from, str_eq};
use crate::types::{Type, category, is_primitive_letter};

verus! {

/// The number of parameters of a descriptor from position `i` of its
/// parameter list on (up to `)` or the end); none for a character that starts
/// no type.
pub open spec fn count_from(d: Seq<char>, i: int) -> Option<nat>
    decreases d.len() - i,
{
    if i < 0 || i >= d.len() {
        Some(0)
    } else if d[i] == ')' {
        Some(0)
    } else if d[i] == 'L' {
        let j = index_of_from(d, ';', i + 1);
        proof {
            lemma_index_of_from(d, ';', i + 1);
        }
        if j >= d.len() {
            Some(1)
        } else {
            match count_from(d, j + 1) {
                Some(n) => Some(n + 1),
                None => None,
            }
        }
    } else if d[i] == '[' {
        count_from(d, i + 1)
    } else if is_primitive_letter(d[i]) {
        match count_from(d, i + 1) {
            Some(n) => Some(n + 1),
            None => None,
        }
    } else {
        None
    }
}

/// The number of parameters of a method descriptor, which must start with `(`.
pub open spec fn arg_count(d: Seq<char>) -> Option<nat> {
    if d.len() == 0 || d[0] != '(' {
        None
    } else {
        count_from(d, 1)
    }
}

/// What checking an argument on its way off the stack finds.
pub enum ArgCheck {
    Fine,
    Fails(StepError),
    /// A string argument whose bytes are not valid UTF-8 fails, with an error
    /// of the machine.
    FailsSomehow,
    Stops,
}

/// The check of an argument: a reference must designate an instance of its
/// kind; a string's bytes must decode; a class object's name must be readable.
pub open spec fn arg_check(h: Seq<(u32, Instance)>, v: Type) -> ArgCheck {
    match v {
        Type::ArrayRef(x) => match instance_at(h, x) {
            None => ArgCheck::Fails(StepError::Internal(InternalError::InstanceNotFound(x))),
            Some(Instance::ObjectInstance(_)) => ArgCheck::Fails(StepError::Internal(InternalError::NotAnArray(x))),
            Some(Instance::ArrayInstance(_)) => ArgCheck::Fine,
        },
        Type::ObjectRef(o) => match instance_at(h, o) {
            None => ArgCheck::Fails(StepError::Internal(InternalError::InstanceNotFound(o))),
            Some(Instance::ArrayInstance(_)) => ArgCheck::Fails(StepError::Internal(InternalError::NotAnObject(o))),
            Some(Instance::ObjectInstance(ob)) => if ob.classname@ == "java/lang/String"@ {
                match field_of(ob, "value"@) {
                    None => ArgCheck::Fails(StepError::Internal(InternalError::FieldNotFound)),
                    Some(Type::ArrayRef(a)) => match instance_at(h, a) {
                        None => ArgCheck::Fails(StepError::Internal(InternalError::InstanceNotFound(a))),
                        Some(Instance::ObjectInstance(_)) => ArgCheck::Fails(
                            StepError::Internal(InternalError::NotAnArray(a)),
                        ),
                        Some(Instance::ArrayInstance(arr)) => if !(forall|i: int|
                            0 <= i < arr.elements@.len() ==> #[trigger] is_byte_like(arr.elements@[i])) {
                            ArgCheck::Stops
                        } else if valid_utf8(arr.elements@.map_values(|t: Type| byte_of(t))) {
                            ArgCheck::Fine
                        } else {
                            ArgCheck::FailsSomehow
                        },
                    },
                    Some(_) => ArgCheck::Fine,
                }
            } else if ob.classname@ == "java/lang/Class"@ {
                if class_name_ref(h, o) matches Some(n) ==> readable_string(h, n) {
                    ArgCheck::Fine
                } else {
                    ArgCheck::Stops
                }
            } else {
                ArgCheck::Fine
            },
        },
        _ => ArgCheck::Fine,
    }
}

/// What popping the arguments of a call gives.
pub enum Popped {
    /// The frames after the pops, and the arguments in local-variable order.
    Args(Seq<FrameView>, Seq<Type>),
    Failed(Seq<FrameView>, StepError),
    FailedSomehow(Seq<FrameView>),
    /// The object the method is called on is not of the method's class.
    Mismatch(Seq<FrameView>, Seq<char>, Seq<char>),
    SearchFailed(Seq<FrameView>, Search<bool>),
    Stops,
}

/// The slots an argument takes among the locals: a `long` or a `double` two.
pub open spec fn slots(v: Type) -> Seq<Type> {
    if v is Long || v is Double {
        seq![v, v]
    } else {
        seq![v]
    }
}

/// Pops `n` arguments, the last one first, each checked; the result lists them
/// in the order they were popped.
pub open spec fn pop_args(s: Seq<FrameView>, h: Seq<(u32, Instance)>, n: nat) -> Popped
    decreases n,
{
    if n == 0 {
        Popped::Args(s, Seq::empty())
    } else {
        match pop_value(s) {
            Exec::Done(s1, v) => match arg_check(h, v) {
                ArgCheck::Fine => match pop_args(s1, h, (n - 1) as nat) {
                    Popped::Args(s2, rest) => Popped::Args(s2, slots(v) + rest),
                    other => other,
                },
                ArgCheck::Fails(e) => Popped::Failed(s1, e),
                ArgCheck::FailsSomehow => Popped::FailedSomehow(s1),
                ArgCheck::Stops => Popped::Stops,
            },
            Exec::Fail(s1, e) => Popped::Failed(s1, e),
            Exec::Panic => Popped::Stops,
        }
    }
}

/// Pops the object a method of `class` is called on: a reference to an
/// instance that may be assigned to the class.
pub open spec fn pop_this(s: Seq<FrameView>, h: Seq<(u32, Instance)>, cs: Seq<(Seq<char>, ClassFileView)>, class: Seq<char>) -> Popped {
    match pop_value(s) {
        Exec::Done(s1, v) => match v {
            Type::ObjectRef(o) => this_check(s1, h, cs, class, v, o),
            Type::ArrayRef(o) => this_check(s1, h, cs, class, v, o),
            Type::Null => Popped::Failed(s1, StepError::Java(JavaException::NullPointer)),
            _ => Popped::Failed(s1, StepError::Internal(InternalError::WrongType("ObjectRef", v))),
        },
        Exec::Fail(s1, e) => Popped::Failed(s1, e),
        Exec::Panic => Popped::Stops,
    }
}

/// The check of the object `o` (the value `v`) a method of `class` is called on.
pub open spec fn this_check(
    s1: Seq<FrameView>,
    h: Seq<(u32, Instance)>,
    cs: Seq<(Seq<char>, ClassFileView)>,
    class: Seq<char>,
    v: Type,
    o: u32,
) -> Popped {
    match instance_at(h, o) {
        None => Popped::Failed(s1, StepError::Internal(InternalError::InstanceNotFound(o))),
        Some(inst) => if assign_stops(cs, class, instance_class(inst)) {
            Popped::Stops
        } else {
            match assignable(cs, class, instance_class(inst)) {
                Search::Found(true) => Popped::Args(s1, seq![v]),
                Search::Found(false) => Popped::Mismatch(s1, class, instance_class(inst)),
                sr => Popped::SearchFailed(s1, sr),
            }
        },
    }
}

/// The arguments of a call of a method of `class` with `n` parameters (and the
/// object it is called on unless static), in local-variable order.
pub open spec fn arguments(
    s: Seq<FrameView>,
    h: Seq<(u32, Instance)>,
    cs: Seq<(Seq<char>, ClassFileView)>,
    n: nat,
    class: Seq<char>,
    not_static: bool,
) -> Popped {
    match pop_args(s, h, n) {
        Popped::Args(t, a) => if not_static {
            match pop_this(t, h, cs, class) {
                Popped::Args(t2, th) => Popped::Args(t2, (a + th).reverse()),
                other => other,
            }
        } else {
            Popped::Args(t, a.reverse())
        },
        other => other,
    }
}

/// Whether `r` (with the frames `s2`) is what popping gave.
pub open spec fn popped_as(p: Popped, s2: Seq<FrameView>, r: Result<Vec<Type>, StepError>) -> bool {
    match p {
        Popped::Args(t, a) => s2 == t && (r matches Ok(v) && v@ == a),
        Popped::Failed(t, e) => s2 == t && r == Err::<Vec<Type>, StepError>(e),
        Popped::FailedSomehow(t) => s2 == t && r matches Err(StepError::Internal(_)),
        Popped::Mismatch(t, a, b) => s2 == t && (r matches Err(StepError::Internal(InternalError::WrongClass(x, y))) && x@
            == a && y@ == b),
        Popped::SearchFailed(t, sr) => s2 == t && (r matches Err(StepError::Internal(e)) && search_error(
            sr,
            e,
            InternalError::FieldNotFound,
        )),
        Popped::Stops => false,
    }
}

/// Pushes the arguments back on the stack from position `i` on (a value of
/// category two takes its two places in `args` and is pushed once, in its two
/// slots).
pub open spec fn restore(s: Seq<FrameView>, args: Seq<Type>, i: int) -> Exec<()>
    decreases args.len() + 1 - i,
{
    if i < 0 || i >= args.len() {
        Exec::Done(s, ())
    } else {
        match push_value(s, args[i]) {
            Exec::Done(s1, _) => restore(s1, args, if category(args[i]) == 2 { i + 2 } else { i + 1 }),
            Exec::Fail(s1, e) => Exec::Fail(s1, e),
            Exec::Panic => Exec::Panic,
        }
    }
}

/// `p` put in front of the arguments that `q` pops.
pub open spec fn after(p: Seq<Type>, q: Popped) -> Popped {
    match q {
        Popped::Args(t, rest) => Popped::Args(t, p + rest),
        other => other,
    }
}

impl JVM {
    /// The number of parameters of a method descriptor.
    pub fn parse_argument_count(descriptor: &str) -> (r: Result<usize, InternalError>)
        ensures
            match arg_count(descriptor@) {
                Some(n) => r matches Ok(c) && c == n,
                None => r == Err::<usize, InternalError>(InternalError::BadDescriptor),
            },
    {
        let n = descriptor.unicode_len();
        if n == 0 || descriptor.get_char(0) != '(' {
            return Err(InternalError::BadDescriptor);
        }
        let ghost d = descriptor@;
        let mut i: usize = 1;
        let mut count: usize = 0;
        while i < n
            invariant
                n == d.len(),
                d == descriptor@,
                1 <= i <= n,
                count <= i,
                arg_count(d) == match count_from(d, i as int) {
                    Some(c) => Some((c + count) as nat),
                    None => None::<nat>,
                },
            decreases n - i,
        {
            let ch = descriptor.get_char(i);
            if ch == ')' {
                return Ok(count);
            } else if ch == 'L' {
                let j = find_char_from(descriptor, ';', i + 1);
                proof {
                    lemma_index_of_from(d, ';', i + 1);
                }
                count = count + 1;
                if j >= n {
                    return Ok(count);
                }
                i = j + 1;
            } else if ch == '[' {
                i = i + 1;
            } else if ch == 'B' || ch == 'C' || ch == 'D' || ch == 'F' || ch == 'I' || ch == 'J' || ch == 'S' || ch
                == 'Z' {
                count = count + 1;
                i = i + 1;
            } else {
                return Err(InternalError::BadDescriptor);
            }
        }
        Ok(count)
    }

    /// Checks an argument as it comes off the stack.
    fn check_argument(heap: &Heap, v: Type) -> (r: Result<(), StepError>)
        requires
            !(arg_check(heap.heap@, v) is Stops),
        ensures
            match arg_check(heap.heap@, v) {
                ArgCheck::Fine => r is Ok,
                ArgCheck::Fails(e) => r == Err::<(), StepError>(e),
                ArgCheck::FailsSomehow => r matches Err(StepError::Internal(_)),
                ArgCheck::Stops => false,
            },
    {
        match v {
            Type::ArrayRef(x) => match heap.get_instance(x) {
                Ok(Instance::ArrayInstance(_)) => Ok(()),
                Ok(Instance::ObjectInstance(_)) => Err(StepError::Internal(InternalError::NotAnArray(x))),
                Err(_) => Err(StepError::Internal(InternalError::InstanceNotFound(x))),
            },
            Type::ObjectRef(o) => match heap.get_instance(o) {
                Ok(Instance::ObjectInstance(ob)) => {
                    if str_eq(ob.get_classname(), "java/lang/String") {
                        match ob.get_field("value") {
                            Ok(Type::ArrayRef(a)) => match heap.get_instance(a) {
                                Ok(Instance::ArrayInstance(arr)) => match arr.get_string() {
                                    Ok(_) => Ok(()),
                                    Err(e) => Err(StepError::Internal(e)),
                                },
                                Ok(Instance::ObjectInstance(_)) => Err(
                                    StepError::Internal(InternalError::NotAnArray(a)),
                                ),
                                Err(_) => Err(StepError::Internal(InternalError::InstanceNotFound(a))),
                            },
                            Ok(_) => Ok(()),
                            Err(e) => Err(StepError::Internal(e)),
                        }
                    } else if str_eq(ob.get_classname(), "java/lang/Class") {
                        let _ = heap.get_classname_from_class_obj(o);
                        Ok(())
                    } else {
                        Ok(())
                    }
                },
                Ok(Instance::ArrayInstance(_)) => Err(StepError::Internal(InternalError::NotAnObject(o))),
                Err(_) => Err(StepError::Internal(InternalError::InstanceNotFound(o))),
            },
            _ => Ok(()),
        }
    }

    /// Pops the arguments of a call of a method of `class_name` with
    /// `arg_count` parameters, and the object it is called on unless the method
    /// is static; they come back in local-variable order (a `long` or a
    /// `double` in two slots).
    pub fn pop_arguments(
        &mut self,
        heap: &Heap,
        loader: &ClassLoader,
        arg_count: usize,
        class_name: &str,
        not_static: bool,
    ) -> (r: Result<Vec<Type>, StepError>)
        requires
            !(arguments(old(self)@, heap.heap@, loader.classes_view(), arg_count as nat, class_name@, not_static) is Stops),
        ensures
            popped_as(
                arguments(old(self)@, heap.heap@, loader.classes_view(), arg_count as nat, class_name@, not_static),
                final(self)@,
                r,
            ),
            final(self).counter == old(self).counter,
    {
        let ghost h = heap.heap@;
        let mut popped: Vec<Type> = Vec::new();
        let mut k: usize = 0;
        proof {
            assert(Seq::<Type>::empty() + pop_args(old(self)@, h, arg_count as nat)->Args_1 =~= pop_args(
                old(self)@,
                h,
                arg_count as nat,
            )->Args_1);
        }
        while k < arg_count
            invariant
                k <= arg_count,
                h == heap.heap@,
                self.counter == old(self).counter,
                pop_args(old(self)@, h, arg_count as nat) == after(popped@, pop_args(self@, h, (arg_count - k) as nat)),
                !(pop_args(self@, h, (arg_count - k) as nat) is Stops),
            decreases arg_count - k,
        {
            let v = self.pop_stack()?;
            JVM::check_argument(heap, v)?;
            proof {
                match pop_args(self@, h, (arg_count - k - 1) as nat) {
                    Popped::Args(t, rest) => {
                        assert(popped@ + (slots(v) + rest) =~= (popped@ + slots(v)) + rest);
                    },
                    _ => {},
                }
            }
            let ghost before = popped@;
            match v {
                Type::Long(_) | Type::Double(_) => {
                    popped.push(v);
                    popped.push(v);
                },
                _ => {
                    popped.push(v);
                },
            }
            assert(popped@ =~= before + slots(v));
            k = k + 1;
        }
        if not_static {
            let v = self.pop_stack()?;
            match v {
                Type::ObjectRef(o) | Type::ArrayRef(o) => {
                    let inst = match heap.get_instance(o) {
                        Ok(i) => i,
                        Err(_) => {
                            return Err(StepError::Internal(InternalError::InstanceNotFound(o)));
                        },
                    };
                    match Type::check_type(loader, class_name, inst.get_class_field_type()) {
                        Ok(true) => {
                            popped.push(v);
                        },
                        Ok(false) => {
                            return Err(
                                StepError::Internal(
                                    InternalError::WrongClass(
                                        class_name.to_string(),
                                        inst.get_class_field_type().to_string(),
                                    ),
                                ),
                            );
                        },
                        Err(e) => {
                            return Err(StepError::Internal(e));
                        },
                    }
                },
                Type::Null => {
                    return Err(StepError::Java(JavaException::NullPointer));
                },
                _ => {
                    return Err(StepError::Internal(InternalError::WrongType("ObjectRef", v)));
                },
            }
        }
        let mut args: Vec<Type> = Vec::new();
        let mut j: usize = popped.len();
        while j > 0
            invariant
                j <= popped@.len(),
                args@ == popped@.subrange(j as int, popped@.len() as int).reverse(),
            decreases j,
        {
            j = j - 1;
            args.push(popped[j]);
            assert(args@ =~= popped@.subrange(j as int, popped@.len() as int).reverse());
        }
        assert(popped@.subrange(0, popped@.len() as int) =~= popped@);
        Ok(args)
    }

    /// Pushes the arguments back on the stack (a `long` or a `double`, which
    /// takes two places in `args`, is pushed once, in its two slots).
    pub fn restore_stack(&mut self, args: &Vec<Type>) -> (r: Result<(), StepError>)
        requires
            runs(restore(old(self)@, args@, 0)),
        ensures
            outcome(restore(old(self)@, args@, 0), final(self)@, r),
            final(self).counter == old(self).counter,
    {
        let mut i: usize = 0;
        while i < args.len()
            invariant
                i <= args@.len(),
                self.counter == old(self).counter,
                restore(old(self)@, args@, 0) == restore(self@, args@, i as int),
                runs(restore(self@, args@, i as int)),
            decreases args@.len() - i,
        {
            let ghost before = self@;
            self.push_stack(args[i])?;
            let step: usize = if args[i].get_category() == 2 {
                2
            } else {
                1
            };
            let ghost next = i + step;
            assert(restore(before, args@, i as int) == restore(self@, args@, next));
            if args.len() - i <= step {
                i = args.len();
                assert(restore(self@, args@, next) == restore(self@, args@, i as int));
            } else {
                i = i + step;
            }
        }
        Ok(())
    }
}

} // verus!
