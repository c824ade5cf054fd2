use vstd::prelude::*;

use crate::class_loader::annotations::marks_polymorphic;
use crate::class_loader::attribute_info::{
    AttributeInfoInfoEnum, AttributeKind, AttributeView, Attributes, Code, attribute_views, attributes_at,
};
use crate::class_loader::attributes::{fits, lemma_prepend_empty, lemma_prepend_prepend, prepend, seq_from};
use crate::class_loader::constant_pool::{ConstantPool, PoolView, cp_name};
use crate::class_loader::fields::{ACC_PUBLIC, ACC_STATIC};
use crate::class_loader::format::{FormatError, Parsed, reads};
use crate::utils::{be_u16_at, ju2, read_u16_at};

verus! {

/// The bit of the access flags that marks a native method.
pub const ACC_NATIVE: u16 = 0x0100;

/// A method of a class. Beside what the class file holds, it records its name and
/// descriptor (resolved in the constant pool), whether it has code and where its
/// `Code` attribute stands, and whether it is signature-polymorphic.
#[derive(Debug)]
pub struct MethodInfo {
    pub name: String,
    pub descriptor: String,
    pub access_flags: ju2,
    pub name_index: ju2,
    pub descriptor_index: ju2,
    pub attributes: Attributes,
    pub has_code: bool,
    pub code_index: usize,
    pub has_polymorphic_signature: bool,
}

/// The mathematical content of a method.
pub struct MethodInfoView {
    pub name: Seq<char>,
    pub descriptor: Seq<char>,
    pub access_flags: u16,
    pub name_index: u16,
    pub descriptor_index: u16,
    pub attributes: Seq<AttributeView>,
    pub has_code: bool,
    pub code_index: int,
    pub has_polymorphic_signature: bool,
}

impl View for MethodInfo {
    type V = MethodInfoView;

    open spec fn view(&self) -> MethodInfoView {
        MethodInfoView {
            name: self.name@,
            descriptor: self.descriptor@,
            access_flags: self.access_flags,
            name_index: self.name_index,
            descriptor_index: self.descriptor_index,
            attributes: attribute_views(self.attributes.attributes@),
            has_code: self.has_code,
            code_index: self.code_index as int,
            has_polymorphic_signature: self.has_polymorphic_signature,
        }
    }
}

/// The position of the first `Code` attribute at or after `i`.
pub open spec fn first_code_from(attrs: Seq<AttributeView>, i: int) -> Option<int>
    decreases attrs.len() - i,
{
    if i < 0 || i >= attrs.len() {
        None
    } else if attrs[i].info is Code {
        Some(i)
    } else {
        first_code_from(attrs, i + 1)
    }
}

/// Whether a method with these flags and attributes has code, and where its
/// `Code` attribute stands: a native method has code (its body is supplied by
/// the machine), at position 0.
pub open spec fn code_location(flags: u16, attrs: Seq<AttributeView>) -> (bool, int) {
    if flags & ACC_NATIVE != 0 {
        (true, 0)
    } else {
        match first_code_from(attrs, 0) {
            Some(k) => (true, k),
            None => (false, 0),
        }
    }
}

/// Whether a method's code position is the one its flags and attributes give:
/// a native method counts as having code (at position 0); another has the
/// first `Code` attribute, if any.
pub open spec fn method_wf(m: MethodInfoView) -> bool {
    m.has_code == code_location(m.access_flags, m.attributes).0 && m.code_index == code_location(
        m.access_flags,
        m.attributes,
    ).1
}

/// A native method, as read from a class file, counts as having code.
pub proof fn lemma_native_has_code(m: MethodInfoView)
    requires
        method_wf(m),
        m.access_flags & ACC_NATIVE != 0,
    ensures
        m.has_code,
        m.code_index == 0,
{
}

/// Whether the first `RuntimeVisibleAnnotations` attribute at or after `i`
/// marks a signature-polymorphic method (false when there is none).
pub open spec fn polymorphic_from(attrs: Seq<AttributeView>, i: int) -> bool
    decreases attrs.len() - i,
{
    if i < 0 || i >= attrs.len() {
        false
    } else {
        match attrs[i].info {
            AttributeKind::RuntimeVisibleAnnotations { annotations, .. } => marks_polymorphic(annotations),
            _ => polymorphic_from(attrs, i + 1),
        }
    }
}

/// The method at `p`, with its size: access flags, name index, descriptor index,
/// the attributes, and then the name and descriptor resolved in the constant pool.
pub open spec fn method_info_at(s: Seq<u8>, p: int, cp: PoolView) -> Parsed<(MethodInfoView, int)> {
    if !fits(s, p, 6) {
        Parsed::Panic
    } else {
        let flags = be_u16_at(s, p);
        match attributes_at(s, p + 6, cp) {
            Parsed::Done((attrs, n)) => match cp_name(cp, be_u16_at(s, p + 2)) {
                Err(e) => Parsed::Fail(e),
                Ok(name) => match cp_name(cp, be_u16_at(s, p + 4)) {
                    Err(e) => Parsed::Fail(e),
                    Ok(descriptor) => Parsed::Done(
                        (
                            MethodInfoView {
                                name,
                                descriptor,
                                access_flags: flags,
                                name_index: be_u16_at(s, p + 2),
                                descriptor_index: be_u16_at(s, p + 4),
                                attributes: attrs,
                                has_code: code_location(flags, attrs).0,
                                code_index: code_location(flags, attrs).1,
                                has_polymorphic_signature: polymorphic_from(attrs, 0),
                            },
                            6 + n,
                        ),
                    ),
                },
            },
            Parsed::Fail(e) => Parsed::Fail(e),
            Parsed::Panic => Parsed::Panic,
        }
    }
}

/// A method starts with its access flags, then the index of its name, then
/// the index of its descriptor, each two bytes, high byte first; the name and
/// the descriptor are the texts that the constant pool holds at those
/// indices.
pub proof fn law_method_layout(s: Seq<u8>, p: int, cp: PoolView)
    requires
        0 <= p,
        p + 6 <= s.len(),
    ensures
        match method_info_at(s, p, cp) {
            Parsed::Done((m, _n)) => {
            &&& m.access_flags == s[p] as int * 256 + s[p + 1] as int
            &&& m.name_index == s[p + 2] as int * 256 + s[p + 3] as int
            &&& m.descriptor_index == s[p + 4] as int * 256 + s[p + 5] as int
            &&& cp_name(cp, m.name_index) == Ok::<Seq<char>, FormatError>(m.name)
            &&& cp_name(cp, m.descriptor_index) == Ok::<Seq<char>, FormatError>(m.descriptor)
            },
            _ => true,
        },
{
}

/// Where the first `Code` attribute of `attributes` stands, if there is one.
fn find_code(attributes: &Attributes) -> (r: (bool, usize))
    ensures
        match first_code_from(attributes@, 0) {
            Some(k) => r.0 && r.1 == k,
            None => !r.0 && r.1 == 0,
        },
{
    let ghost av = attributes@;
    let mut i: usize = 0;
    while i < attributes.len()
        invariant
            av == attributes@,
            i <= av.len(),
            av.len() == attributes.attributes@.len(),
            first_code_from(av, 0) == first_code_from(av, i as int),
        decreases av.len() - i,
    {
        assert(av[i as int] == crate::class_loader::attribute_info::attribute_view(attributes.attributes@[i as int]));
        match attributes.get(i).get_info() {
            AttributeInfoInfoEnum::Code(_) => {
                return (true, i);
            },
            _ => {},
        }
        i = i + 1;
    }
    (false, 0)
}

/// Whether the first `RuntimeVisibleAnnotations` attribute of `attributes` marks
/// a signature-polymorphic method.
fn find_polymorphic(attributes: &Attributes) -> (r: bool)
    ensures
        r == polymorphic_from(attributes@, 0),
{
    let ghost av = attributes@;
    let mut i: usize = 0;
    while i < attributes.len()
        invariant
            av == attributes@,
            i <= av.len(),
            av.len() == attributes.attributes@.len(),
            polymorphic_from(av, 0) == polymorphic_from(av, i as int),
        decreases av.len() - i,
    {
        assert(av[i as int] == crate::class_loader::attribute_info::attribute_view(attributes.attributes@[i as int]));
        match attributes.get(i).get_info() {
            AttributeInfoInfoEnum::RuntimeVisibleAnnotations(annotations) => {
                return annotations.has_polymorphic_signature();
            },
            _ => {},
        }
        i = i + 1;
    }
    false
}

impl MethodInfo {
    pub fn parse_at(bytes: &[u8], p: usize, cp: &ConstantPool) -> (r: Result<(MethodInfo, usize), FormatError>)
        requires
            reads(method_info_at(bytes@, p as int, cp@)),
        ensures
            match method_info_at(bytes@, p as int, cp@) {
                Parsed::Done((v, n)) => (r matches Ok((x, m)) && x@ == v && m == n),
                Parsed::Fail(e) => r == Err::<(MethodInfo, usize), FormatError>(e),
                Parsed::Panic => false,
            },
            r matches Ok((_x, m)) ==> p + m <= bytes@.len(),
            r matches Ok((x, _m)) ==> method_wf(x@),
    {
        let _len = bytes.len();
        let access_flags = read_u16_at(bytes, p);
        let name_index = read_u16_at(bytes, p + 2);
        let descriptor_index = read_u16_at(bytes, p + 4);
        let (attributes, n) = Attributes::parse_at(bytes, p + 6, cp)?;
        let (has_code, code_index) = if (access_flags & ACC_NATIVE) != 0 {
            (true, 0)
        } else {
            find_code(&attributes)
        };
        let has_polymorphic_signature = find_polymorphic(&attributes);
        let name = cp.resolve_name(name_index)?;
        let descriptor = cp.resolve_name(descriptor_index)?;
        Ok(
            (
                MethodInfo {
                    name,
                    descriptor,
                    access_flags,
                    name_index,
                    descriptor_index,
                    attributes,
                    has_code,
                    code_index,
                    has_polymorphic_signature,
                },
                6 + n,
            ),
        )
    }

    pub fn get_name(&self) -> (r: &str)
        ensures
            r@ == self.name@,
    {
        self.name.as_str()
    }

    pub fn _get_name_index(&self) -> (r: ju2)
        ensures
            r == self.name_index,
    {
        self.name_index
    }

    pub fn get_descriptor(&self) -> (r: &str)
        ensures
            r@ == self.descriptor@,
    {
        self.descriptor.as_str()
    }

    pub fn _get_descriptor_index(&self) -> (r: ju2)
        ensures
            r == self.descriptor_index,
    {
        self.descriptor_index
    }

    pub fn _get_attributes(&self) -> (r: &Attributes)
        ensures
            *r == self.attributes,
    {
        &self.attributes
    }

    pub fn has_code(&self) -> (r: bool)
        ensures
            r == self.has_code,
    {
        self.has_code
    }

    /// The method's `Code` attribute: the one at the recorded position, when the
    /// method has code and that attribute is a `Code` attribute.
    pub fn get_code(&self) -> (r: Option<&Code>)
        requires
            self.has_code ==> self.code_index < self.attributes.attributes@.len(),
        ensures
            match r {
                Some(c) => self.has_code && self.attributes.attributes@[self.code_index as int].info
                    == AttributeInfoInfoEnum::Code(*c),
                None => !(self.has_code && self.attributes.attributes@[self.code_index as int].info is Code),
            },
    {
        if self.has_code {
            match self.attributes.get(self.code_index).get_info() {
                AttributeInfoInfoEnum::Code(c) => {
                    return Some(c);
                },
                _ => {},
            }
        }
        None
    }

    pub fn get_access_flags(&self) -> (r: ju2)
        ensures
            r == self.access_flags,
    {
        self.access_flags
    }

    pub fn is_public(&self) -> (r: bool)
        ensures
            r == (self.access_flags & ACC_PUBLIC != 0),
    {
        (self.access_flags & ACC_PUBLIC) != 0
    }

    pub fn is_native(&self) -> (r: bool)
        ensures
            r == (self.access_flags & ACC_NATIVE != 0),
            r && method_wf(self@) ==> self.has_code,
    {
        (self.access_flags & ACC_NATIVE) != 0
    }

    pub fn is_static(&self) -> (r: bool)
        ensures
            r == (self.access_flags & ACC_STATIC != 0),
    {
        (self.access_flags & ACC_STATIC) != 0
    }

    pub fn has_polymorphic_signature(&self) -> (r: bool)
        ensures
            r == self.has_polymorphic_signature,
    {
        self.has_polymorphic_signature
    }
}

/// The methods of a class.
#[derive(Debug)]
pub struct Methods {
    pub methods: Vec<MethodInfo>,
}

/// The contents of a sequence of methods.
pub open spec fn method_views(v: Seq<MethodInfo>) -> Seq<MethodInfoView> {
    v.map_values(|m: MethodInfo| m@)
}

/// The reader of methods over `s`.
pub open spec fn method_fn(s: Seq<u8>, cp: PoolView) -> spec_fn(int) -> Parsed<(MethodInfoView, int)> {
    |p: int| method_info_at(s, p, cp)
}

/// The methods at `i` (a count, then that many methods), with their size.
pub open spec fn methods_at(s: Seq<u8>, i: int, cp: PoolView) -> Parsed<(Seq<MethodInfoView>, int)> {
    if !fits(s, i, 2) {
        Parsed::Panic
    } else {
        match seq_from(i + 2, be_u16_at(s, i) as int, method_fn(s, cp)) {
            Parsed::Done((v, end)) => Parsed::Done((v, end - i)),
            Parsed::Fail(e) => Parsed::Fail(e),
            Parsed::Panic => Parsed::Panic,
        }
    }
}

/// The position of the first method at or after `i` whose name index is `index`.
pub open spec fn first_with_name_index(ms: Seq<MethodInfo>, index: u16, i: int) -> Option<int>
    decreases ms.len() - i,
{
    if i < 0 || i >= ms.len() {
        None
    } else if ms[i].name_index == index {
        Some(i)
    } else {
        first_with_name_index(ms, index, i + 1)
    }
}

impl Methods {
    #[verifier::rlimit(40)]
    pub fn parse_at(bytes: &[u8], i: usize, cp: &ConstantPool) -> (r: Result<(Methods, usize), FormatError>)
        requires
            reads(methods_at(bytes@, i as int, cp@)),
        ensures
            match methods_at(bytes@, i as int, cp@) {
                Parsed::Done((v, n)) => (r matches Ok((x, m)) && method_views(x.methods@) == v && m == n),
                Parsed::Fail(e) => r == Err::<(Methods, usize), FormatError>(e),
                Parsed::Panic => false,
            },
            r matches Ok((_x, m)) ==> i + m <= bytes@.len(),
    {
        let _len = bytes.len();
        let n = read_u16_at(bytes, i);
        let mut methods: Vec<MethodInfo> = Vec::new();
        let mut index: usize = i + 2;
        let mut k: u16 = 0;
        let ghost f = method_fn(bytes@, cp@);
        let ghost whole = seq_from(i + 2, n as int, f);
        proof {
            lemma_prepend_empty(whole);
            assert(method_views(methods@) =~= Seq::<MethodInfoView>::empty());
        }
        while k < n
            invariant
                bytes@.len() <= usize::MAX,
                fits(bytes@, i as int, 2),
                n == be_u16_at(bytes@, i as int),
                k <= n,
                i + 2 <= index <= bytes@.len(),
                f == method_fn(bytes@, cp@),
                whole == seq_from(i + 2, n as int, f),
                reads(whole),
                whole == prepend(method_views(methods@), seq_from(index as int, n - k, f)),
            decreases n - k,
        {
            assert(f(index as int) == method_info_at(bytes@, index as int, cp@));
            let ghost old_views = method_views(methods@);
            match MethodInfo::parse_at(bytes, index, cp) {
                Ok((method, size)) => {
                    proof {
                        lemma_prepend_prepend(old_views, seq![method@], seq_from(index + size, n - k - 1, f));
                    }
                    let ghost mv = method@;
                    methods.push(method);
                    assert(method_views(methods@) =~= old_views + seq![mv]);
                    index = index + size;
                    k = k + 1;
                },
                Err(e) => {
                    return Err(e);
                },
            }
        }
        assert(method_views(methods@) + Seq::<MethodInfoView>::empty() =~= method_views(methods@));
        Ok((Methods { methods }, index - i))
    }

    /// Reads the methods at the start of `bytes`.
    pub fn parse(bytes: &[u8], cp: &ConstantPool) -> (r: Result<(Methods, usize), FormatError>)
        requires
            reads(methods_at(bytes@, 0, cp@)),
        ensures
            match methods_at(bytes@, 0, cp@) {
                Parsed::Done((v, n)) => (r matches Ok((x, m)) && method_views(x.methods@) == v && m == n),
                Parsed::Fail(e) => r == Err::<(Methods, usize), FormatError>(e),
                Parsed::Panic => false,
            },
    {
        Methods::parse_at(bytes, 0, cp)
    }

    pub fn empty() -> (r: Methods)
        ensures
            r.methods@.len() == 0,
    {
        Methods { methods: Vec::new() }
    }

    pub fn len(&self) -> (r: usize)
        ensures
            r == self.methods@.len(),
    {
        self.methods.len()
    }

    pub fn get(&self, index: usize) -> (r: &MethodInfo)
        requires
            index < self.methods@.len(),
        ensures
            *r == self.methods@[index as int],
    {
        &self.methods[index]
    }

    pub fn get_methods(&self) -> (r: &Vec<MethodInfo>)
        ensures
            r@ == self.methods@,
    {
        &self.methods
    }

    /// The first method whose name index is `index`.
    pub fn _get_code_by_name_index(&self, index: ju2) -> (r: Option<&MethodInfo>)
        ensures
            match first_with_name_index(self.methods@, index, 0) {
                Some(k) => r == Some(&self.methods@[k]),
                None => r is None,
            },
    {
        self._get_by_name_index(index)
    }

    /// The first method whose name index is `index`.
    pub fn _get_by_name_index(&self, index: ju2) -> (r: Option<&MethodInfo>)
        ensures
            match first_with_name_index(self.methods@, index, 0) {
                Some(k) => r == Some(&self.methods@[k]),
                None => r is None,
            },
    {
        let mut i: usize = 0;
        while i < self.methods.len()
            invariant
                i <= self.methods@.len(),
                first_with_name_index(self.methods@, index, 0) == first_with_name_index(self.methods@, index, i as int),
            decreases self.methods@.len() - i,
        {
            if self.methods[i]._get_name_index() == index {
                return Some(&self.methods[i]);
            }
            i = i + 1;
        }
        None
    }
}

} // verus!
