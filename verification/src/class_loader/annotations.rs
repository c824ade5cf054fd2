use vstd::prelude::*;

use crate::class_loader::attributes::{fits, lemma_prepend_empty, lemma_prepend_prepend, prepend, seq_from};
use crate::class_loader::constant_pool::{ConstantPool, PoolView, cp_name};
use crate::class_loader::format::{FormatError, Parsed, reads};
use crate::text::str_eq;
use crate::utils::{be_u16_at, ju1, ju2, read_u16_at};

verus! {

/// What an element value of an annotation holds.
#[derive(Debug)]
pub enum ElementValueEnum {
    ConstValue { const_value_index: u16 },
    EnumConstValue { type_name_index: u16, const_name_index: u16 },
    ClassInfo { class_info_index: u16 },
    AnnotationValue(Annotation),
    ArrayValue(Vec<ElementValue>),
    NotRecognized,
}

/// An element value of an annotation, with its tag.
#[derive(Debug)]
pub struct ElementValue {
    pub tag: ju1,
    pub value: ElementValueEnum,
}

/// A name-value pair of an annotation.
#[derive(Debug)]
pub struct ElementValuePair {
    pub element_name_index: ju2,
    pub value: ElementValue,
}

/// An annotation: its type's descriptor and its name-value pairs.
#[derive(Debug)]
pub struct Annotation {
    pub annotation_type: String,
    pub num_element_value_pairs: ju2,
    pub element_value_pairs: Vec<ElementValuePair>,
}

/// The mathematical content of an element value's payload.
pub enum ElementValueKind {
    ConstValue { const_value_index: u16 },
    EnumConstValue { type_name_index: u16, const_name_index: u16 },
    ClassInfo { class_info_index: u16 },
    AnnotationValue(AnnotationView),
    ArrayValue(Seq<ElementValueView>),
    NotRecognized,
}

/// The mathematical content of an element value.
pub struct ElementValueView {
    pub tag: u8,
    pub value: ElementValueKind,
}

/// The mathematical content of a name-value pair.
pub struct ElementValuePairView {
    pub element_name_index: u16,
    pub value: ElementValueView,
}

/// The mathematical content of an annotation.
pub struct AnnotationView {
    pub annotation_type: Seq<char>,
    pub num_element_value_pairs: u16,
    pub element_value_pairs: Seq<ElementValuePairView>,
}

/// The contents of a sequence of element values.
pub open spec fn element_value_views(vs: Seq<ElementValue>) -> Seq<ElementValueView>
    decreases vs,
{
    Seq::new(
        vs.len(),
        |i: int|
            if 0 <= i < vs.len() {
                element_value_view(vs[i])
            } else {
                ElementValueView { tag: 0, value: ElementValueKind::NotRecognized }
            },
    )
}

/// The content of an element value.
pub open spec fn element_value_view(x: ElementValue) -> ElementValueView
    decreases x,
{
    ElementValueView {
        tag: x.tag,
        value: match x.value {
            ElementValueEnum::ConstValue { const_value_index } => ElementValueKind::ConstValue { const_value_index },
            ElementValueEnum::EnumConstValue { type_name_index, const_name_index } => ElementValueKind::EnumConstValue {
                type_name_index,
                const_name_index,
            },
            ElementValueEnum::ClassInfo { class_info_index } => ElementValueKind::ClassInfo { class_info_index },
            ElementValueEnum::AnnotationValue(a) => ElementValueKind::AnnotationValue(annotation_view(a)),
            ElementValueEnum::ArrayValue(vs) => ElementValueKind::ArrayValue(element_value_views(vs@)),
            ElementValueEnum::NotRecognized => ElementValueKind::NotRecognized,
        },
    }
}

/// The contents of a sequence of name-value pairs.
pub open spec fn element_value_pair_views(ps: Seq<ElementValuePair>) -> Seq<ElementValuePairView>
    decreases ps,
{
    Seq::new(
        ps.len(),
        |i: int|
            if 0 <= i < ps.len() {
                ElementValuePairView {
                    element_name_index: ps[i].element_name_index,
                    value: element_value_view(ps[i].value),
                }
            } else {
                ElementValuePairView {
                    element_name_index: 0,
                    value: ElementValueView { tag: 0, value: ElementValueKind::NotRecognized },
                }
            },
    )
}

/// The content of an annotation.
pub open spec fn annotation_view(a: Annotation) -> AnnotationView
    decreases a,
{
    AnnotationView {
        annotation_type: a.annotation_type@,
        num_element_value_pairs: a.num_element_value_pairs,
        element_value_pairs: element_value_pair_views(a.element_value_pairs@),
    }
}

impl View for ElementValue {
    type V = ElementValueView;

    open spec fn view(&self) -> ElementValueView {
        element_value_view(*self)
    }
}

impl View for ElementValuePair {
    type V = ElementValuePairView;

    open spec fn view(&self) -> ElementValuePairView {
        ElementValuePairView { element_name_index: self.element_name_index, value: element_value_view(self.value) }
    }
}

impl View for Annotation {
    type V = AnnotationView;

    open spec fn view(&self) -> AnnotationView {
        annotation_view(*self)
    }
}

/// The tag of an enum constant, `e`.
pub const TAG_ENUM: u8 = 101;

/// The tag of a class literal, `c`.
pub const TAG_CLASS: u8 = 99;

/// The tag of a nested annotation, `@`.
pub const TAG_ANNOTATION: u8 = 64;

/// The tag of an array, `[`.
pub const TAG_ARRAY: u8 = 91;

/// Whether `tag` marks an element value that is the index of a constant: one of
/// `B`, `C`, `D`, `F`, `I`, `J`, `S`, `Z` and `s`.
pub open spec fn is_const_tag(tag: u8) -> bool {
    tag == 66 || tag == 67 || tag == 68 || tag == 70 || tag == 73 || tag == 74 || tag == 83 || tag == 90 || tag == 115
}

/// The element value at `p`, with its size.
pub open spec fn element_value_at(s: Seq<u8>, p: int, cp: PoolView) -> Parsed<(ElementValueView, int)>
    decreases s.len() - p, 0int,
{
    if !fits(s, p, 1) {
        Parsed::Panic
    } else {
        let tag = s[p];
        if is_const_tag(tag) {
            if !fits(s, p + 1, 2) {
                Parsed::Panic
            } else {
                Parsed::Done(
                    (ElementValueView { tag, value: ElementValueKind::ConstValue { const_value_index: be_u16_at(s, p + 1) } }, 3),
                )
            }
        } else if tag == TAG_ENUM {
            if !fits(s, p + 1, 4) {
                Parsed::Panic
            } else {
                Parsed::Done(
                    (
                        ElementValueView {
                            tag,
                            value: ElementValueKind::EnumConstValue {
                                type_name_index: be_u16_at(s, p + 1),
                                const_name_index: be_u16_at(s, p + 3),
                            },
                        },
                        5,
                    ),
                )
            }
        } else if tag == TAG_CLASS {
            if !fits(s, p + 1, 2) {
                Parsed::Panic
            } else {
                Parsed::Done(
                    (ElementValueView { tag, value: ElementValueKind::ClassInfo { class_info_index: be_u16_at(s, p + 1) } }, 3),
                )
            }
        } else if tag == TAG_ANNOTATION {
            match annotation_at(s, p + 1, cp) {
                Parsed::Done((a, n)) => Parsed::Done((ElementValueView { tag, value: ElementValueKind::AnnotationValue(a) }, 1 + n)),
                Parsed::Fail(e) => Parsed::Fail(e),
                Parsed::Panic => Parsed::Panic,
            }
        } else if tag == TAG_ARRAY {
            if !fits(s, p + 1, 2) {
                Parsed::Panic
            } else {
                match element_values_from(s, p + 3, be_u16_at(s, p + 1) as int, cp) {
                    Parsed::Done((vs, end)) => Parsed::Done((ElementValueView { tag, value: ElementValueKind::ArrayValue(vs) }, end - p)),
                    Parsed::Fail(e) => Parsed::Fail(e),
                    Parsed::Panic => Parsed::Panic,
                }
            }
        } else {
            Parsed::Fail(FormatError::UnknownElementTag(tag))
        }
    }
}

/// `k` element values one after the other from `p`, with the position after the
/// last.
pub open spec fn element_values_from(s: Seq<u8>, p: int, k: int, cp: PoolView) -> Parsed<(Seq<ElementValueView>, int)>
    decreases s.len() - p, 1int,
{
    if k <= 0 {
        Parsed::Done((Seq::<ElementValueView>::empty(), p))
    } else {
        match element_value_at(s, p, cp) {
            Parsed::Done((x, n)) => if 1 <= n && p + n <= s.len() {
                prepend(seq![x], element_values_from(s, p + n, k - 1, cp))
            } else {
                Parsed::Panic
            },
            Parsed::Fail(e) => Parsed::Fail(e),
            Parsed::Panic => Parsed::Panic,
        }
    }
}

/// The name-value pair at `p`, with its size.
pub open spec fn element_value_pair_at(s: Seq<u8>, p: int, cp: PoolView) -> Parsed<(ElementValuePairView, int)>
    decreases s.len() - p, 0int,
{
    if !fits(s, p, 2) {
        Parsed::Panic
    } else {
        match element_value_at(s, p + 2, cp) {
            Parsed::Done((v, n)) => Parsed::Done((ElementValuePairView { element_name_index: be_u16_at(s, p), value: v }, 2 + n)),
            Parsed::Fail(e) => Parsed::Fail(e),
            Parsed::Panic => Parsed::Panic,
        }
    }
}

/// `k` name-value pairs one after the other from `p`, with the position after the
/// last.
pub open spec fn element_pairs_from(s: Seq<u8>, p: int, k: int, cp: PoolView) -> Parsed<(Seq<ElementValuePairView>, int)>
    decreases s.len() - p, 1int,
{
    if k <= 0 {
        Parsed::Done((Seq::<ElementValuePairView>::empty(), p))
    } else {
        match element_value_pair_at(s, p, cp) {
            Parsed::Done((x, n)) => if 1 <= n && p + n <= s.len() {
                prepend(seq![x], element_pairs_from(s, p + n, k - 1, cp))
            } else {
                Parsed::Panic
            },
            Parsed::Fail(e) => Parsed::Fail(e),
            Parsed::Panic => Parsed::Panic,
        }
    }
}

/// The annotation at `p`, with its size: its type is resolved as a name in the
/// constant pool.
pub open spec fn annotation_at(s: Seq<u8>, p: int, cp: PoolView) -> Parsed<(AnnotationView, int)>
    decreases s.len() - p, 0int,
{
    if !fits(s, p, 2) {
        Parsed::Panic
    } else {
        match cp_name(cp, be_u16_at(s, p)) {
            Err(e) => Parsed::Fail(e),
            Ok(t) => if !fits(s, p + 2, 2) {
                Parsed::Panic
            } else {
                let k = be_u16_at(s, p + 2);
                match element_pairs_from(s, p + 4, k as int, cp) {
                    Parsed::Done((pairs, end)) => Parsed::Done(
                        (AnnotationView { annotation_type: t, num_element_value_pairs: k, element_value_pairs: pairs }, end - p),
                    ),
                    Parsed::Fail(e) => Parsed::Fail(e),
                    Parsed::Panic => Parsed::Panic,
                }
            },
        }
    }
}

/// Whether `tag` marks an element value that is the index of a constant.
fn const_tag(tag: u8) -> (r: bool)
    ensures
        r == is_const_tag(tag),
{
    tag == 66 || tag == 67 || tag == 68 || tag == 70 || tag == 73 || tag == 74 || tag == 83 || tag == 90 || tag == 115
}

impl ElementValue {
    pub fn parse_at(bytes: &[u8], p: usize, cp: &ConstantPool) -> (r: Result<(ElementValue, usize), FormatError>)
        requires
            reads(element_value_at(bytes@, p as int, cp@)),
        ensures
            match element_value_at(bytes@, p as int, cp@) {
                Parsed::Done((v, n)) => (r matches Ok((x, m)) && x@ == v && m == n),
                Parsed::Fail(e) => r == Err::<(ElementValue, usize), FormatError>(e),
                Parsed::Panic => false,
            },
            r matches Ok((_x, m)) ==> 1 <= m && p + m <= bytes@.len(),
        decreases bytes@.len() - p,
    {
        let _len = bytes.len();
        let tag = bytes[p];
        let (value, bytes_read) = if const_tag(tag) {
            (ElementValueEnum::ConstValue { const_value_index: read_u16_at(bytes, p + 1) }, 3)
        } else if tag == TAG_ENUM {
            (
                ElementValueEnum::EnumConstValue {
                    type_name_index: read_u16_at(bytes, p + 1),
                    const_name_index: read_u16_at(bytes, p + 3),
                },
                5,
            )
        } else if tag == TAG_CLASS {
            (ElementValueEnum::ClassInfo { class_info_index: read_u16_at(bytes, p + 1) }, 3)
        } else if tag == TAG_ANNOTATION {
            let (annotation, n) = Annotation::parse_at(bytes, p + 1, cp)?;
            (ElementValueEnum::AnnotationValue(annotation), 1 + n)
        } else if tag == TAG_ARRAY {
            let num_values = read_u16_at(bytes, p + 1);
            let ghost whole = element_values_from(bytes@, p + 3, num_values as int, cp@);
            let mut values: Vec<ElementValue> = Vec::new();
            let mut index: usize = p + 3;
            let mut k: u16 = 0;
            proof {
                lemma_prepend_empty(whole);
                assert(element_value_views(values@) =~= Seq::<ElementValueView>::empty());
            }
            while k < num_values
                invariant
                    bytes@.len() <= usize::MAX,
                    p + 3 <= index <= bytes@.len(),
                    k <= num_values,
                    fits(bytes@, p as int, 3),
                    tag == bytes@[p as int],
                    tag == TAG_ARRAY,
                    num_values == be_u16_at(bytes@, p + 1),
                    whole == element_values_from(bytes@, p + 3, num_values as int, cp@),
                    reads(whole),
                    whole == prepend(element_value_views(values@), element_values_from(bytes@, index as int, num_values - k, cp@)),
                decreases num_values - k,
            {
                let ghost old_views = element_value_views(values@);
                match ElementValue::parse_at(bytes, index, cp) {
                    Ok((v, m)) => {
                        proof {
                            lemma_prepend_prepend(old_views, seq![v@], element_values_from(bytes@, index + m, num_values - k - 1, cp@));
                        }
                        let ghost vv = v@;
                        values.push(v);
                        assert(element_value_views(values@) =~= old_views + seq![vv]);
                        index = index + m;
                        k = k + 1;
                    },
                    Err(e) => {
                        return Err(e);
                    },
                }
            }
            assert(element_value_views(values@) + Seq::<ElementValueView>::empty() =~= element_value_views(values@));
            (ElementValueEnum::ArrayValue(values), index - p)
        } else {
            return Err(FormatError::UnknownElementTag(tag));
        };
        Ok((ElementValue { tag, value }, bytes_read))
    }
}

impl ElementValuePair {
    pub fn parse_at(bytes: &[u8], p: usize, cp: &ConstantPool) -> (r: Result<(ElementValuePair, usize), FormatError>)
        requires
            reads(element_value_pair_at(bytes@, p as int, cp@)),
        ensures
            match element_value_pair_at(bytes@, p as int, cp@) {
                Parsed::Done((v, n)) => (r matches Ok((x, m)) && x@ == v && m == n),
                Parsed::Fail(e) => r == Err::<(ElementValuePair, usize), FormatError>(e),
                Parsed::Panic => false,
            },
            r matches Ok((_x, m)) ==> 1 <= m && p + m <= bytes@.len(),
        decreases bytes@.len() - p,
    {
        let _len = bytes.len();
        let element_name_index = read_u16_at(bytes, p);
        let (value, n) = ElementValue::parse_at(bytes, p + 2, cp)?;
        Ok((ElementValuePair { element_name_index, value }, 2 + n))
    }
}

impl Annotation {
    pub fn parse_at(bytes: &[u8], p: usize, cp: &ConstantPool) -> (r: Result<(Annotation, usize), FormatError>)
        requires
            reads(annotation_at(bytes@, p as int, cp@)),
        ensures
            match annotation_at(bytes@, p as int, cp@) {
                Parsed::Done((v, n)) => (r matches Ok((x, m)) && x@ == v && m == n),
                Parsed::Fail(e) => r == Err::<(Annotation, usize), FormatError>(e),
                Parsed::Panic => false,
            },
            r matches Ok((_x, m)) ==> 1 <= m && p + m <= bytes@.len(),
        decreases bytes@.len() - p,
    {
        let _len = bytes.len();
        let type_index = read_u16_at(bytes, p);
        let annotation_type = cp.resolve_name(type_index)?;
        let num_element_value_pairs = read_u16_at(bytes, p + 2);
        let ghost whole = element_pairs_from(bytes@, p + 4, num_element_value_pairs as int, cp@);
        let mut pairs: Vec<ElementValuePair> = Vec::new();
        let mut index: usize = p + 4;
        let mut k: u16 = 0;
        proof {
            lemma_prepend_empty(whole);
            assert(element_value_pair_views(pairs@) =~= Seq::<ElementValuePairView>::empty());
        }
        while k < num_element_value_pairs
            invariant
                bytes@.len() <= usize::MAX,
                p + 4 <= index <= bytes@.len(),
                k <= num_element_value_pairs,
                fits(bytes@, p as int, 4),
                type_index == be_u16_at(bytes@, p as int),
                cp_name(cp@, type_index) == Ok::<Seq<char>, FormatError>(annotation_type@),
                num_element_value_pairs == be_u16_at(bytes@, p + 2),
                whole == element_pairs_from(bytes@, p + 4, num_element_value_pairs as int, cp@),
                reads(whole),
                whole == prepend(
                    element_value_pair_views(pairs@),
                    element_pairs_from(bytes@, index as int, num_element_value_pairs - k, cp@),
                ),
            decreases num_element_value_pairs - k,
        {
            let ghost old_views = element_value_pair_views(pairs@);
            match ElementValuePair::parse_at(bytes, index, cp) {
                Ok((pair, m)) => {
                    proof {
                        lemma_prepend_prepend(
                            old_views,
                            seq![pair@],
                            element_pairs_from(bytes@, index + m, num_element_value_pairs - k - 1, cp@),
                        );
                    }
                    let ghost pv = pair@;
                    pairs.push(pair);
                    assert(element_value_pair_views(pairs@) =~= old_views + seq![pv]);
                    index = index + m;
                    k = k + 1;
                },
                Err(e) => {
                    return Err(e);
                },
            }
        }
        assert(element_value_pair_views(pairs@) + Seq::<ElementValuePairView>::empty() =~= element_value_pair_views(pairs@));
        Ok((Annotation { annotation_type, num_element_value_pairs, element_value_pairs: pairs }, index - p))
    }

    pub fn get_annotation_type(&self) -> (r: &str)
        ensures
            r@ == self.annotation_type@,
    {
        self.annotation_type.as_str()
    }
}

/// The contents of a sequence of annotations.
pub open spec fn annotation_views(v: Seq<Annotation>) -> Seq<AnnotationView> {
    v.map_values(|a: Annotation| a@)
}

/// The reader of annotations over `s`.
pub open spec fn annotation_fn(s: Seq<u8>, cp: PoolView) -> spec_fn(int) -> Parsed<(AnnotationView, int)> {
    |p: int| annotation_at(s, p, cp)
}

/// A table of annotations at `i` (a count, then that many annotations): the
/// annotations and the table's size.
pub open spec fn annotations_table_at(s: Seq<u8>, i: int, cp: PoolView) -> Parsed<(Seq<AnnotationView>, int)> {
    if !fits(s, i, 2) {
        Parsed::Panic
    } else {
        match seq_from(i + 2, be_u16_at(s, i) as int, annotation_fn(s, cp)) {
            Parsed::Done((v, end)) => Parsed::Done((v, end - i)),
            Parsed::Fail(e) => Parsed::Fail(e),
            Parsed::Panic => Parsed::Panic,
        }
    }
}

/// Reads the table of annotations at `i`: the count, the annotations and the
/// table's size.
fn parse_annotations_table(bytes: &[u8], i: usize, cp: &ConstantPool) -> (r: Result<(u16, Vec<Annotation>, usize), FormatError>)
    requires
        reads(annotations_table_at(bytes@, i as int, cp@)),
    ensures
        match annotations_table_at(bytes@, i as int, cp@) {
            Parsed::Done((v, n)) => (r matches Ok((c, x, m)) && c == be_u16_at(bytes@, i as int) && annotation_views(x@) == v
                && m == n),
            Parsed::Fail(e) => r == Err::<(u16, Vec<Annotation>, usize), FormatError>(e),
            Parsed::Panic => false,
        },
        r matches Ok((_c, _x, m)) ==> i + m <= bytes@.len(),
{
    let _len = bytes.len();
    let n = read_u16_at(bytes, i);
    let mut annotations: Vec<Annotation> = Vec::new();
    let mut index: usize = i + 2;
    let mut k: u16 = 0;
    let ghost f = annotation_fn(bytes@, cp@);
    let ghost whole = seq_from(i + 2, n as int, f);
    proof {
        lemma_prepend_empty(whole);
        assert(annotation_views(annotations@) =~= Seq::<AnnotationView>::empty());
    }
    while k < n
        invariant
            bytes@.len() <= usize::MAX,
            fits(bytes@, i as int, 2),
            n == be_u16_at(bytes@, i as int),
            k <= n,
            i + 2 <= index <= bytes@.len(),
            f == annotation_fn(bytes@, cp@),
            whole == seq_from(i + 2, n as int, f),
            reads(whole),
            whole == prepend(annotation_views(annotations@), seq_from(index as int, n - k, f)),
        decreases n - k,
    {
        assert(f(index as int) == annotation_at(bytes@, index as int, cp@));
        let ghost old_views = annotation_views(annotations@);
        match Annotation::parse_at(bytes, index, cp) {
            Ok((a, size)) => {
                proof {
                    lemma_prepend_prepend(old_views, seq![a@], seq_from(index + size, n - k - 1, f));
                }
                let ghost av = a@;
                annotations.push(a);
                assert(annotation_views(annotations@) =~= old_views + seq![av]);
                index = index + size;
                k = k + 1;
            },
            Err(e) => {
                return Err(e);
            },
        }
    }
    assert(annotation_views(annotations@) + Seq::<AnnotationView>::empty() =~= annotation_views(annotations@));
    Ok((n, annotations, index - i))
}

/// The descriptor of the annotation that marks a signature-polymorphic method.
pub const POLYMORPHIC_SIGNATURE: &'static str = "Ljava/lang/invoke/MethodHandle$PolymorphicSignature;";

/// Whether one of `anns` is the annotation that marks a signature-polymorphic
/// method.
pub open spec fn marks_polymorphic(anns: Seq<AnnotationView>) -> bool {
    exists|k: int| 0 <= k < anns.len() && #[trigger] anns[k].annotation_type == POLYMORPHIC_SIGNATURE@
}

/// A `RuntimeVisibleAnnotations` attribute.
#[derive(Debug)]
pub struct RuntimeVisibleAnnotations {
    pub num_annotations: ju2,
    pub annotations: Vec<Annotation>,
}

impl RuntimeVisibleAnnotations {
    pub fn parse_at(bytes: &[u8], i: usize, cp: &ConstantPool) -> (r: Result<(RuntimeVisibleAnnotations, usize), FormatError>)
        requires
            reads(annotations_table_at(bytes@, i as int, cp@)),
        ensures
            match annotations_table_at(bytes@, i as int, cp@) {
                Parsed::Done((v, n)) => (r matches Ok((x, m)) && x.num_annotations == be_u16_at(bytes@, i as int)
                    && annotation_views(x.annotations@) == v && m == n),
                Parsed::Fail(e) => r == Err::<(RuntimeVisibleAnnotations, usize), FormatError>(e),
                Parsed::Panic => false,
            },
            r matches Ok((_x, m)) ==> i + m <= bytes@.len(),
    {
        let (num_annotations, annotations, size) = parse_annotations_table(bytes, i, cp)?;
        Ok((RuntimeVisibleAnnotations { num_annotations, annotations }, size))
    }

    /// Whether one of the annotations is the one that marks a
    /// signature-polymorphic method.
    pub fn has_polymorphic_signature(&self) -> (r: bool)
        ensures
            r == marks_polymorphic(annotation_views(self.annotations@)),
    {
        let ghost views = annotation_views(self.annotations@);
        let mut k: usize = 0;
        while k < self.annotations.len()
            invariant
                k <= self.annotations@.len(),
                views == annotation_views(self.annotations@),
                forall|j: int| 0 <= j < k ==> #[trigger] views[j].annotation_type != POLYMORPHIC_SIGNATURE@,
            decreases self.annotations@.len() - k,
        {
            assert(views[k as int].annotation_type == self.annotations@[k as int].annotation_type@);
            if str_eq(self.annotations[k].get_annotation_type(), POLYMORPHIC_SIGNATURE) {
                return true;
            }
            k = k + 1;
        }
        false
    }
}

/// A `RuntimeInvisibleAnnotations` attribute.
#[derive(Debug)]
pub struct RuntimeInvisibleAnnotations {
    pub num_annotations: ju2,
    pub annotations: Vec<Annotation>,
}

impl RuntimeInvisibleAnnotations {
    pub fn parse_at(bytes: &[u8], i: usize, cp: &ConstantPool) -> (r: Result<(RuntimeInvisibleAnnotations, usize), FormatError>)
        requires
            reads(annotations_table_at(bytes@, i as int, cp@)),
        ensures
            match annotations_table_at(bytes@, i as int, cp@) {
                Parsed::Done((v, n)) => (r matches Ok((x, m)) && x.num_annotations == be_u16_at(bytes@, i as int)
                    && annotation_views(x.annotations@) == v && m == n),
                Parsed::Fail(e) => r == Err::<(RuntimeInvisibleAnnotations, usize), FormatError>(e),
                Parsed::Panic => false,
            },
            r matches Ok((_x, m)) ==> i + m <= bytes@.len(),
    {
        let (num_annotations, annotations, size) = parse_annotations_table(bytes, i, cp)?;
        Ok((RuntimeInvisibleAnnotations { num_annotations, annotations }, size))
    }
}

} // verus!
