use vstd::prelude::*;

use crate::class_loader::attribute_info::{AttributeView, Attributes, attribute_views, attributes_at};
use crate::class_loader::attributes::{fits, lemma_prepend_empty, lemma_prepend_prepend, prepend, seq_from};
use crate::class_loader::constant_pool::{ConstantPool, PoolView, cp_name};
use crate::class_loader::format::{FormatError, Parsed, reads};
use crate::utils::{be_u16_at, ju2, read_u16_at};

verus! {

/// A field of a class: access flags, name, descriptor and attributes.
#[derive(Debug)]
pub struct FieldInfo {
    pub access_flags: ju2,
    pub name: String,
    pub descriptor: String,
    pub attributes: Attributes,
}

/// The mathematical content of a field.
pub struct FieldInfoView {
    pub access_flags: u16,
    pub name: Seq<char>,
    pub descriptor: Seq<char>,
    pub attributes: Seq<AttributeView>,
}

impl View for FieldInfo {
    type V = FieldInfoView;

    open spec fn view(&self) -> FieldInfoView {
        FieldInfoView {
            access_flags: self.access_flags,
            name: self.name@,
            descriptor: self.descriptor@,
            attributes: attribute_views(self.attributes.attributes@),
        }
    }
}

/// The field at `p`, with its size: access flags, name index and descriptor
/// index (both resolved in the constant pool), then the attributes.
pub open spec fn field_info_at(s: Seq<u8>, p: int, cp: PoolView) -> Parsed<(FieldInfoView, int)> {
    if !fits(s, p, 4) {
        Parsed::Panic
    } else {
        match cp_name(cp, be_u16_at(s, p + 2)) {
            Err(e) => Parsed::Fail(e),
            Ok(name) => if !fits(s, p + 4, 2) {
                Parsed::Panic
            } else {
                match cp_name(cp, be_u16_at(s, p + 4)) {
                    Err(e) => Parsed::Fail(e),
                    Ok(descriptor) => match attributes_at(s, p + 6, cp) {
                        Parsed::Done((attributes, n)) => Parsed::Done(
                            (FieldInfoView { access_flags: be_u16_at(s, p), name, descriptor, attributes }, 6 + n),
                        ),
                        Parsed::Fail(e) => Parsed::Fail(e),
                        Parsed::Panic => Parsed::Panic,
                    },
                }
            },
        }
    }
}

/// A field starts with its access flags, then the index of its name, then
/// the index of its descriptor, each two bytes, high byte first; the name and
/// the descriptor are the texts that the constant pool holds at those
/// indices.
pub proof fn law_field_layout(s: Seq<u8>, p: int, cp: PoolView)
    requires
        0 <= p,
        p + 6 <= s.len(),
    ensures
        match field_info_at(s, p, cp) {
            Parsed::Done((f, _n)) => {
            &&& f.access_flags == s[p] as int * 256 + s[p + 1] as int
            &&& cp_name(cp, (s[p + 2] as int * 256 + s[p + 3] as int) as u16) == Ok::<Seq<char>, FormatError>(f.name)
            &&& cp_name(cp, (s[p + 4] as int * 256 + s[p + 5] as int) as u16) == Ok::<Seq<char>, FormatError>(f.descriptor)
            },
            _ => true,
        },
{
}

/// The bit of the access flags that marks a static member.
pub const ACC_STATIC: u16 = 0x0008;

/// The bit of the access flags that marks a public member.
pub const ACC_PUBLIC: u16 = 0x0001;

impl FieldInfo {
    pub fn parse_at(bytes: &[u8], p: usize, cp: &ConstantPool) -> (r: Result<(FieldInfo, usize), FormatError>)
        requires
            reads(field_info_at(bytes@, p as int, cp@)),
        ensures
            match field_info_at(bytes@, p as int, cp@) {
                Parsed::Done((v, n)) => (r matches Ok((x, m)) && x@ == v && m == n),
                Parsed::Fail(e) => r == Err::<(FieldInfo, usize), FormatError>(e),
                Parsed::Panic => false,
            },
            r matches Ok((_x, m)) ==> p + m <= bytes@.len(),
    {
        let _len = bytes.len();
        let access_flags = read_u16_at(bytes, p);
        let name_index = read_u16_at(bytes, p + 2);
        let name = cp.resolve_name(name_index)?;
        let descriptor_index = read_u16_at(bytes, p + 4);
        let descriptor = cp.resolve_name(descriptor_index)?;
        let (attributes, n) = Attributes::parse_at(bytes, p + 6, cp)?;
        Ok((FieldInfo { access_flags, name, descriptor, attributes }, 6 + n))
    }

    /// A field with no attributes.
    pub fn new(access_flags: ju2, name: &str, descriptor: &str) -> (r: FieldInfo)
        ensures
            r.access_flags == access_flags,
            r.name@ == name@,
            r.descriptor@ == descriptor@,
            r.attributes.attributes@.len() == 0,
    {
        FieldInfo {
            access_flags,
            name: name.to_string(),
            descriptor: descriptor.to_string(),
            attributes: Attributes::new(Vec::new()),
        }
    }

    pub fn get_name(&self) -> (r: &str)
        ensures
            r@ == self.name@,
    {
        self.name.as_str()
    }

    pub fn get_descriptor(&self) -> (r: &str)
        ensures
            r@ == self.descriptor@,
    {
        self.descriptor.as_str()
    }

    pub fn get_access_flags(&self) -> (r: ju2)
        ensures
            r == self.access_flags,
    {
        self.access_flags
    }

    pub fn _get_attributes(&self) -> (r: &Attributes)
        ensures
            *r == self.attributes,
    {
        &self.attributes
    }

    pub fn is_static(&self) -> (r: bool)
        ensures
            r == (self.access_flags & ACC_STATIC == ACC_STATIC),
    {
        (self.access_flags & ACC_STATIC) == ACC_STATIC
    }

    pub fn is_public(&self) -> (r: bool)
        ensures
            r == (self.access_flags & ACC_PUBLIC == ACC_PUBLIC),
    {
        (self.access_flags & ACC_PUBLIC) == ACC_PUBLIC
    }
}

/// The fields of a class and their count.
#[derive(Debug)]
pub struct Fields {
    pub fields_count: ju2,
    pub fields: Vec<FieldInfo>,
}

/// The contents of a sequence of fields.
pub open spec fn field_views(v: Seq<FieldInfo>) -> Seq<FieldInfoView> {
    v.map_values(|f: FieldInfo| f@)
}

/// The reader of fields over `s`.
pub open spec fn field_fn(s: Seq<u8>, cp: PoolView) -> spec_fn(int) -> Parsed<(FieldInfoView, int)> {
    |p: int| field_info_at(s, p, cp)
}

/// The fields at `i` (a count, then that many fields), with their size.
pub open spec fn fields_at(s: Seq<u8>, i: int, cp: PoolView) -> Parsed<(Seq<FieldInfoView>, int)> {
    if !fits(s, i, 2) {
        Parsed::Panic
    } else {
        match seq_from(i + 2, be_u16_at(s, i) as int, field_fn(s, cp)) {
            Parsed::Done((v, end)) => Parsed::Done((v, end - i)),
            Parsed::Fail(e) => Parsed::Fail(e),
            Parsed::Panic => Parsed::Panic,
        }
    }
}

impl Fields {
    pub fn parse_at(bytes: &[u8], i: usize, cp: &ConstantPool) -> (r: Result<(Fields, usize), FormatError>)
        requires
            reads(fields_at(bytes@, i as int, cp@)),
        ensures
            match fields_at(bytes@, i as int, cp@) {
                Parsed::Done((v, n)) => (r matches Ok((x, m)) && x.fields_count == be_u16_at(bytes@, i as int)
                    && field_views(x.fields@) == v && m == n),
                Parsed::Fail(e) => r == Err::<(Fields, usize), FormatError>(e),
                Parsed::Panic => false,
            },
            r matches Ok((_x, m)) ==> i + m <= bytes@.len(),
    {
        let _len = bytes.len();
        let n = read_u16_at(bytes, i);
        let mut fields: Vec<FieldInfo> = Vec::new();
        let mut index: usize = i + 2;
        let mut k: u16 = 0;
        let ghost f = field_fn(bytes@, cp@);
        let ghost whole = seq_from(i + 2, n as int, f);
        proof {
            lemma_prepend_empty(whole);
            assert(field_views(fields@) =~= Seq::<FieldInfoView>::empty());
        }
        while k < n
            invariant
                bytes@.len() <= usize::MAX,
                fits(bytes@, i as int, 2),
                n == be_u16_at(bytes@, i as int),
                k <= n,
                i + 2 <= index <= bytes@.len(),
                f == field_fn(bytes@, cp@),
                whole == seq_from(i + 2, n as int, f),
                reads(whole),
                whole == prepend(field_views(fields@), seq_from(index as int, n - k, f)),
            decreases n - k,
        {
            assert(f(index as int) == field_info_at(bytes@, index as int, cp@));
            let ghost old_views = field_views(fields@);
            match FieldInfo::parse_at(bytes, index, cp) {
                Ok((field, size)) => {
                    proof {
                        lemma_prepend_prepend(old_views, seq![field@], seq_from(index + size, n - k - 1, f));
                    }
                    let ghost fv = field@;
                    fields.push(field);
                    assert(field_views(fields@) =~= old_views + seq![fv]);
                    index = index + size;
                    k = k + 1;
                },
                Err(e) => {
                    return Err(e);
                },
            }
        }
        assert(field_views(fields@) + Seq::<FieldInfoView>::empty() =~= field_views(fields@));
        Ok((Fields { fields_count: n, fields }, index - i))
    }

    /// Reads the fields at the start of `bytes`.
    pub fn parse(bytes: &[u8], cp: &ConstantPool) -> (r: Result<(Fields, usize), FormatError>)
        requires
            reads(fields_at(bytes@, 0, cp@)),
        ensures
            match fields_at(bytes@, 0, cp@) {
                Parsed::Done((v, n)) => (r matches Ok((x, m)) && x.fields_count == be_u16_at(bytes@, 0)
                    && field_views(x.fields@) == v && m == n),
                Parsed::Fail(e) => r == Err::<(Fields, usize), FormatError>(e),
                Parsed::Panic => false,
            },
    {
        Fields::parse_at(bytes, 0, cp)
    }

    pub fn empty() -> (r: Fields)
        ensures
            r.fields_count == 0,
            r.fields@.len() == 0,
    {
        Fields { fields_count: 0, fields: Vec::new() }
    }

    /// Adds a field at the end; the count goes up by one.
    pub fn put_field(&mut self, field: FieldInfo)
        requires
            old(self).fields_count < u16::MAX,
        ensures
            final(self).fields_count == old(self).fields_count + 1,
            final(self).fields@ == old(self).fields@.push(field),
    {
        self.fields_count = self.fields_count + 1;
        self.fields.push(field);
    }

    pub fn get_fields(&self) -> (r: &Vec<FieldInfo>)
        ensures
            r@ == self.fields@,
    {
        &self.fields
    }

    pub fn _get_field(&self, index: usize) -> (r: &FieldInfo)
        requires
            index < self.fields@.len(),
        ensures
            *r == self.fields@[index as int],
    {
        &self.fields[index]
    }
}

} // verus!
