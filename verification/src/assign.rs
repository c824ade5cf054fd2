use vstd::prelude::*;

use crate::class_loader::loader::{
    ClassLoader,
    Search,
    class_named,
    found_or,
    implements,
};
use crate::class_loader::class_file::ClassFileView;
use crate::errors::InternalError;
use crate::text::{starts_with_char, str_eq};
use crate::types::{Type, element_class, is_primitive_descriptor};
use crate::utils::slashed;

verus! {

/// Whether a descriptor or class name stands for a value of the integer family
/// (`long` and the wrapper classes included).
pub open spec fn is_class_integer(s: Seq<char>) -> bool {
    ||| s == "B"@
    ||| s == "Z"@
    ||| s == "C"@
    ||| s == "S"@
    ||| s == "I"@
    ||| s == "J"@
    ||| s == "java/lang/Boolean"@
    ||| s == "java/lang/Character"@
    ||| s == "java/lang/Byte"@
    ||| s == "java/lang/Short"@
    ||| s == "java/lang/Integer"@
    ||| s == "java/lang/Long"@
}

/// Whether the text starts with `c`.
pub open spec fn starts(s: Seq<char>, c: char) -> bool {
    s.len() > 0 && s[0] == c
}

/// Walks up from the class `p` through its superclasses, looking for `left`
/// among the superclasses; the walk ends at `java/lang/Object`.
pub open spec fn superclass_walk(
    cs: Seq<(Seq<char>, ClassFileView)>,
    left: Seq<char>,
    p: Seq<char>,
    fuel: nat,
) -> Search<bool>
    decreases fuel,
{
    if p == "java/lang/Object"@ {
        Search::Found(false)
    } else {
        match class_named(cs, p) {
            None => Search::NoClass(slashed(p)),
            Some(c) => if c.super_class_name == left {
                Search::Found(true)
            } else if fuel == 0 {
                Search::Circular(p)
            } else {
                superclass_walk(cs, left, c.super_class_name, (fuel - 1) as nat)
            },
        }
    }
}

/// Whether `right` is a subclass of `left`: field descriptors (`L...;`) are
/// taken as subtypes of anything, every class is a subclass of
/// `java/lang/Object` and of itself, and otherwise `left` must be among the
/// superclasses of `right`.
pub open spec fn subtype(cs: Seq<(Seq<char>, ClassFileView)>, left: Seq<char>, right: Seq<char>) -> Search<bool> {
    if starts(left, 'L') || starts(right, 'L') {
        Search::Found(true)
    } else if left == "java/lang/Object"@ || left == right {
        Search::Found(true)
    } else {
        superclass_walk(cs, left, right, cs.len() as nat)
    }
}

/// The element class of an array descriptor (`d` starts with `[`).
pub open spec fn array_element(d: Seq<char>) -> Seq<char> {
    if d.len() >= 2 && d[1] == 'L' && d[d.len() - 1] == ';' {
        d.subrange(2, d.len() - 1)
    } else {
        d.subrange(1, d.len() as int)
    }
}

/// Whether one of the shortcuts of `assignable` accepts the assignment at once.
pub open spec fn trivially_assignable(left: Seq<char>, right: Seq<char>) -> bool {
    ||| left == right
    ||| right == "Null"@ && !is_primitive_descriptor(left)
    ||| left == "Ljava/lang/Object;"@ || right == "Ljava/lang/Object;"@
    ||| left == "java/lang/Object"@ || right == "java/lang/Object"@
}

/// Whether a value of type `right` may be stored where a `left` is expected:
/// the shortcuts, then arrays by their element classes, then no mixing of
/// arrays and non-arrays, then the integer family among itself, then
/// subclasses, then implemented interfaces.
pub open spec fn assignable(cs: Seq<(Seq<char>, ClassFileView)>, left: Seq<char>, right: Seq<char>) -> Search<bool>
    decreases left.len(),
{
    if trivially_assignable(left, right) {
        Search::Found(true)
    } else if starts(left, '[') && starts(right, '[') {
        assignable(cs, array_element(left), array_element(right))
    } else if starts(left, '[') || starts(right, '[') {
        Search::Found(false)
    } else if is_class_integer(left) && is_class_integer(right) {
        Search::Found(true)
    } else {
        match subtype(cs, left, right) {
            Search::Found(false) => implements(cs, left, right, cs.len() as nat),
            other => other,
        }
    }
}

/// Whether checking the assignment stops the machine: two array types whose
/// element classes do not match.
pub open spec fn assign_stops(cs: Seq<(Seq<char>, ClassFileView)>, left: Seq<char>, right: Seq<char>) -> bool
    decreases left.len(),
{
    if trivially_assignable(left, right) {
        false
    } else if starts(left, '[') && starts(right, '[') {
        assign_stops(cs, array_element(left), array_element(right)) || assignable(
            cs,
            array_element(left),
            array_element(right),
        ) == Search::Found(false)
    } else {
        false
    }
}

/// The element class of an array descriptor is the one that
/// `convert_array_descriptor_to_class_type` gives.
proof fn lemma_array_element(d: Seq<char>)
    requires
        starts(d, '['),
    ensures
        element_class(d) == Some(array_element(d)),
{
}

impl Type {
    /// Whether a descriptor or class name stands for a value of the integer
    /// family.
    pub fn is_class_integer(type_str: &str) -> (r: bool)
        ensures
            r == is_class_integer(type_str@),
    {
        str_eq(type_str, "B") || str_eq(type_str, "Z") || str_eq(type_str, "C") || str_eq(type_str, "S") || str_eq(
            type_str,
            "I",
        ) || str_eq(type_str, "J") || str_eq(type_str, "java/lang/Boolean") || str_eq(type_str, "java/lang/Character")
            || str_eq(type_str, "java/lang/Byte") || str_eq(type_str, "java/lang/Short") || str_eq(
            type_str,
            "java/lang/Integer",
        ) || str_eq(type_str, "java/lang/Long")
    }

    /// Whether `right` is a subclass of `left` (see `subtype`).
    pub fn is_subtype(loader: &ClassLoader, left: &str, right: &str) -> (r: Result<bool, InternalError>)
        ensures
            found_or(subtype(loader.classes_view(), left@, right@), r, InternalError::FieldNotFound),
    {
        if starts_with_char(left, 'L') || starts_with_char(right, 'L') {
            return Ok(true);
        }
        if str_eq(left, "java/lang/Object") || str_eq(left, right) {
            return Ok(true);
        }
        let ghost cs = loader.classes_view();
        let mut p: &str = right;
        let mut fuel: usize = loader.classes.len();
        loop
            invariant
                cs == loader.classes_view(),
                cs.len() == loader.classes@.len(),
                subtype(cs, left@, right@) == superclass_walk(cs, left@, right@, cs.len() as nat),
                superclass_walk(cs, left@, right@, cs.len() as nat) == superclass_walk(cs, left@, p@, fuel as nat),
            decreases fuel,
        {
            if str_eq(p, "java/lang/Object") {
                return Ok(false);
            }
            proof {
                loader.lemma_get(p@);
            }
            let class = loader.get(p)?;
            let parent = class.get_parent_name();
            if str_eq(parent, left) {
                return Ok(true);
            }
            if fuel == 0 {
                return Err(InternalError::ClassCircularity(p.to_string()));
            }
            p = parent;
            fuel = fuel - 1;
        }
    }

    /// Whether the class `right` is `left` or implements it.
    pub fn implements_interface(loader: &ClassLoader, left: &str, right: &str) -> (r: Result<bool, InternalError>)
        ensures
            found_or(
                implements(loader.classes_view(), left@, right@, loader.classes@.len() as nat),
                r,
                InternalError::FieldNotFound,
            ),
    {
        loader.has_interface(left, right)
    }

    /// Whether a value of type `right` may be stored where a `left` is expected
    /// (see `assignable`).
    pub fn check_type(loader: &ClassLoader, left: &str, right: &str) -> (r: Result<bool, InternalError>)
        requires
            !assign_stops(loader.classes_view(), left@, right@),
        ensures
            found_or(assignable(loader.classes_view(), left@, right@), r, InternalError::FieldNotFound),
        decreases left@.len(),
    {
        if str_eq(left, right) {
            return Ok(true);
        }
        if str_eq(right, "Null") && !Type::is_primitive(left) {
            return Ok(true);
        }
        if str_eq(left, "Ljava/lang/Object;") || str_eq(right, "Ljava/lang/Object;") {
            return Ok(true);
        }
        if str_eq(left, "java/lang/Object") || str_eq(right, "java/lang/Object") {
            return Ok(true);
        }
        let left_array = starts_with_char(left, '[');
        let right_array = starts_with_char(right, '[');
        if left_array && right_array {
            proof {
                lemma_array_element(left@);
                lemma_array_element(right@);
            }
            let left_element = Type::convert_array_descriptor_to_class_type(left);
            let right_element = Type::convert_array_descriptor_to_class_type(right);
            if Type::check_type(loader, left_element.as_str(), right_element.as_str())? {
                return Ok(true);
            } else {
                vstd::pervasive::unreached()
            }
        }
        if left_array || right_array {
            return Ok(false);
        }
        if Type::is_class_integer(left) && Type::is_class_integer(right) {
            return Ok(true);
        }
        if Type::is_subtype(loader, left, right)? {
            return Ok(true);
        }
        Type::implements_interface(loader, left, right)
    }
}

} // verus!
