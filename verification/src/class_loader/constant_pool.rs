use vstd::prelude::*;

use crate::class_loader::format::{FormatError, Parsed, reads, utf8_text, utf8_to_string};
use crate::utils::{be_u16_at, be_u32_at, ju1, ju2, ju4, ju8, read_u16_at, read_u32_at};

verus! {

/// A constant-pool entry as mathematics: the tag's kind and the numbers it holds.
pub enum CpEntry {
    /// The unusable slot that follows a `Long` or `Double` entry.
    Unusable,
    Fieldref { class_index: u16, name_and_type_index: u16 },
    Methodref { class_index: u16, name_and_type_index: u16 },
    Interfaceref { class_index: u16, name_and_type_index: u16 },
    String { string_index: u16 },
    Integer { bytes: u32 },
    Float { bytes: u32 },
    Long { high_bytes: u32, low_bytes: u32 },
    Double { high_bytes: u32, low_bytes: u32 },
    NameAndType { name_index: u16, descriptor_index: u16 },
    Utf8 { length: u16, bytes: Seq<u8> },
    MethodHandle { reference_kind: u8, reference_index: u16 },
    MethodType { descriptor_index: u16 },
    Dynamic { bootstrap_method_attr_index: u16, name_and_type_index: u16 },
    InvokeDynamic { bootstrap_method_attr_index: u16, name_and_type_index: u16 },
    Module { name_index: u16 },
    Package { name_index: u16 },
    Class { name_index: u16 },
}

/// The entry whose tag stands at `i` in `s`, with the number of bytes it takes
/// (tag included).
pub open spec fn entry_at(s: Seq<u8>, i: int) -> Parsed<(CpEntry, int)> {
    if i < 0 || i >= s.len() {
        Parsed::Panic
    } else {
        let tag = s[i];
        let p = i + 1;
        if tag == 1 {
            if p + 2 > s.len() {
                Parsed::Panic
            } else {
                let l = be_u16_at(s, p) as int;
                if p + 2 + l > s.len() {
                    Parsed::Panic
                } else {
                    Parsed::Done((CpEntry::Utf8 { length: l as u16, bytes: s.subrange(p + 2, p + 2 + l) }, 3 + l))
                }
            }
        } else if tag == 3 || tag == 4 {
            if p + 4 > s.len() {
                Parsed::Panic
            } else if tag == 3 {
                Parsed::Done((CpEntry::Integer { bytes: be_u32_at(s, p) }, 5))
            } else {
                Parsed::Done((CpEntry::Float { bytes: be_u32_at(s, p) }, 5))
            }
        } else if tag == 5 || tag == 6 {
            if p + 8 > s.len() {
                Parsed::Panic
            } else if tag == 5 {
                Parsed::Done((CpEntry::Long { high_bytes: be_u32_at(s, p), low_bytes: be_u32_at(s, p + 4) }, 9))
            } else {
                Parsed::Done((CpEntry::Double { high_bytes: be_u32_at(s, p), low_bytes: be_u32_at(s, p + 4) }, 9))
            }
        } else if tag == 2 || tag == 7 || tag == 8 || tag == 16 {
            if p + 2 > s.len() {
                Parsed::Panic
            } else {
                let a = be_u16_at(s, p);
                Parsed::Done(
                    (
                        if tag == 2 {
                            CpEntry::Package { name_index: a }
                        } else if tag == 7 {
                            CpEntry::Class { name_index: a }
                        } else if tag == 8 {
                            CpEntry::String { string_index: a }
                        } else {
                            CpEntry::MethodType { descriptor_index: a }
                        },
                        3,
                    ),
                )
            }
        } else if tag == 9 || tag == 10 || tag == 11 || tag == 12 || tag == 17 || tag == 18 {
            if p + 4 > s.len() {
                Parsed::Panic
            } else {
                let a = be_u16_at(s, p);
                let b = be_u16_at(s, p + 2);
                Parsed::Done(
                    (
                        if tag == 9 {
                            CpEntry::Fieldref { class_index: a, name_and_type_index: b }
                        } else if tag == 10 {
                            CpEntry::Methodref { class_index: a, name_and_type_index: b }
                        } else if tag == 11 {
                            CpEntry::Interfaceref { class_index: a, name_and_type_index: b }
                        } else if tag == 12 {
                            CpEntry::NameAndType { name_index: a, descriptor_index: b }
                        } else if tag == 17 {
                            CpEntry::Dynamic { bootstrap_method_attr_index: a, name_and_type_index: b }
                        } else {
                            CpEntry::InvokeDynamic { bootstrap_method_attr_index: a, name_and_type_index: b }
                        },
                        5,
                    ),
                )
            }
        } else if tag == 15 {
            if p + 3 > s.len() {
                Parsed::Panic
            } else {
                Parsed::Done((CpEntry::MethodHandle { reference_kind: s[p], reference_index: be_u16_at(s, p + 1) }, 4))
            }
        } else if tag == 19 {
            // a Module entry is recognized but has no reader
            Parsed::Panic
        } else {
            Parsed::Fail(FormatError::UnknownConstantTag(tag))
        }
    }
}

/// Whether an entry occupies two slots of the pool (`Long` and `Double` do).
pub open spec fn is_wide(e: CpEntry) -> bool {
    e is Long || e is Double
}

/// The slots that the entries of a pool fill, from entry number `i` (counted from
/// one) up to `count`, read from `index` in `s`; with the position after them.
pub open spec fn entries_from(s: Seq<u8>, index: int, i: int, count: int) -> Parsed<(Seq<CpEntry>, int)>
    decreases count - i + 1,
{
    if i >= count {
        Parsed::Done((Seq::<CpEntry>::empty(), index))
    } else {
        match entry_at(s, index) {
            Parsed::Panic => Parsed::Panic,
            Parsed::Fail(e) => Parsed::Fail(e),
            Parsed::Done((e, size)) => {
                let slots = if is_wide(e) { seq![e, CpEntry::Unusable] } else { seq![e] };
                let next = if is_wide(e) { i + 2 } else { i + 1 };
                prepend_entries(slots, entries_from(s, index + size, next, count))
            }
        }
    }
}

/// Puts `front` before the entries of a reading outcome.
pub open spec fn prepend_entries(front: Seq<CpEntry>, p: Parsed<(Seq<CpEntry>, int)>) -> Parsed<(Seq<CpEntry>, int)> {
    match p {
        Parsed::Done((rest, end)) => Parsed::Done((front + rest, end)),
        Parsed::Fail(e) => Parsed::Fail(e),
        Parsed::Panic => Parsed::Panic,
    }
}

/// A constant pool read from the start of `s`: its count, its slots (slot `k`
/// holds entry `k + 1`) and the number of bytes it takes.
pub open spec fn constant_pool_at(s: Seq<u8>) -> Parsed<(u16, Seq<CpEntry>, int)> {
    if s.len() < 2 {
        Parsed::Panic
    } else {
        let count = be_u16_at(s, 0);
        match entries_from(s, 2, 1, count as int) {
            Parsed::Done((entries, end)) => Parsed::Done((count, entries, end)),
            Parsed::Fail(e) => Parsed::Fail(e),
            Parsed::Panic => Parsed::Panic,
        }
    }
}

#[derive(Debug, Clone)]
pub struct RefInfo {
    pub class_index: ju2,
    pub name_and_type_index: ju2,
}

impl RefInfo {
    pub fn get_class_index(&self) -> (r: ju2)
        ensures
            r == self.class_index,
    {
        self.class_index
    }

    pub fn _get_name_and_type_index(&self) -> (r: ju2)
        ensures
            r == self.name_and_type_index,
    {
        self.name_and_type_index
    }
}

#[derive(Debug, Clone)]
pub struct StringInfo {
    pub string_index: ju2,
}

impl StringInfo {
    pub fn get_string_index(&self) -> (r: ju2)
        ensures
            r == self.string_index,
    {
        self.string_index
    }
}

#[derive(Debug, Clone)]
pub struct NumericInfo {
    pub bytes: ju4,
}

impl NumericInfo {
    /// The entry's four bytes as an `int`.
    pub fn as_int(&self) -> (r: i32)
        ensures
            r == self.bytes as i32,
    {
        self.bytes as i32
    }

    /// The entry's four bytes (the bits of a `float`).
    pub fn float_bits(&self) -> (r: u32)
        ensures
            r == self.bytes,
    {
        self.bytes
    }
}

#[derive(Debug, Clone)]
pub struct BigNumericInfo {
    pub high_bytes: ju4,
    pub low_bytes: ju4,
}

impl BigNumericInfo {
    /// The entry's eight bytes as one number, high bytes first.
    pub fn value(&self) -> (r: ju8)
        ensures
            r as int == self.high_bytes as int * 0x1_0000_0000 + self.low_bytes as int,
    {
        (self.high_bytes as u64) * 0x1_0000_0000u64 + self.low_bytes as u64
    }
}

#[derive(Debug, Clone)]
pub struct NameAndTypeInfo {
    pub name_index: ju2,
    pub descriptor_index: ju2,
}

#[derive(Debug, Clone)]
pub struct Utf8Info {
    pub length: ju2,
    pub bytes: Vec<ju1>,
}

impl Utf8Info {
    /// The text of the entry, empty when its bytes are not valid UTF-8.
    pub fn name(&self) -> (r: String)
        ensures
            r@ == utf8_text(self.bytes@),
    {
        utf8_to_string(&self.bytes)
    }
}

#[derive(Debug, Clone)]
pub struct MethodHandleInfo {
    pub reference_kind: ju1,
    pub reference_index: ju2,
}

impl MethodHandleInfo {
    pub fn get_reference_kind(&self) -> (r: ju1)
        ensures
            r == self.reference_kind,
    {
        self.reference_kind
    }

    pub fn get_reference_index(&self) -> (r: ju2)
        ensures
            r == self.reference_index,
    {
        self.reference_index
    }
}

#[derive(Debug, Clone)]
pub struct MethodTypeInfo {
    pub descriptor_index: ju2,
}

impl MethodTypeInfo {
    pub fn get_descriptor_index(&self) -> (r: ju2)
        ensures
            r == self.descriptor_index,
    {
        self.descriptor_index
    }
}

#[derive(Debug, Clone)]
pub struct DynamicInfo {
    pub bootstrap_method_attr_index: ju2,
    pub name_and_type_index: ju2,
}

#[derive(Debug, Clone)]
pub struct InvokeDynamicInfo {
    pub bootstrap_method_attr_index: ju2,
    pub name_and_type_index: ju2,
}

#[derive(Debug, Clone)]
pub struct ModuleInfo {
    pub name_index: ju2,
}

#[derive(Debug, Clone)]
pub struct PackageInfo {
    pub name_index: ju2,
}

#[derive(Debug, Clone)]
pub struct ClassInfo {
    pub name_index: ju2,
}

impl ClassInfo {
    pub fn get_name_index(&self) -> (r: ju2)
        ensures
            r == self.name_index,
    {
        self.name_index
    }
}

/// The information of a constant-pool entry.
#[derive(Debug, Clone)]
pub enum CpInfoInfoEnum {
    Unusable,
    Fieldref(RefInfo),
    Methodref(RefInfo),
    Interfaceref(RefInfo),
    String(StringInfo),
    Integer(NumericInfo),
    Float(NumericInfo),
    Long(BigNumericInfo),
    Double(BigNumericInfo),
    NameAndType(NameAndTypeInfo),
    Utf8(Utf8Info),
    MethodHandle(MethodHandleInfo),
    MethodType(MethodTypeInfo),
    Dynamic(DynamicInfo),
    InvokeDynamic(InvokeDynamicInfo),
    _Module(ModuleInfo),
    Package(PackageInfo),
    Class(ClassInfo),
}

impl View for CpInfoInfoEnum {
    type V = CpEntry;

    open spec fn view(&self) -> CpEntry {
        match self {
            CpInfoInfoEnum::Unusable => CpEntry::Unusable,
            CpInfoInfoEnum::Fieldref(r) => CpEntry::Fieldref { class_index: r.class_index, name_and_type_index: r.name_and_type_index },
            CpInfoInfoEnum::Methodref(r) => CpEntry::Methodref { class_index: r.class_index, name_and_type_index: r.name_and_type_index },
            CpInfoInfoEnum::Interfaceref(r) => CpEntry::Interfaceref { class_index: r.class_index, name_and_type_index: r.name_and_type_index },
            CpInfoInfoEnum::String(r) => CpEntry::String { string_index: r.string_index },
            CpInfoInfoEnum::Integer(r) => CpEntry::Integer { bytes: r.bytes },
            CpInfoInfoEnum::Float(r) => CpEntry::Float { bytes: r.bytes },
            CpInfoInfoEnum::Long(r) => CpEntry::Long { high_bytes: r.high_bytes, low_bytes: r.low_bytes },
            CpInfoInfoEnum::Double(r) => CpEntry::Double { high_bytes: r.high_bytes, low_bytes: r.low_bytes },
            CpInfoInfoEnum::NameAndType(r) => CpEntry::NameAndType { name_index: r.name_index, descriptor_index: r.descriptor_index },
            CpInfoInfoEnum::Utf8(r) => CpEntry::Utf8 { length: r.length, bytes: r.bytes@ },
            CpInfoInfoEnum::MethodHandle(r) => CpEntry::MethodHandle { reference_kind: r.reference_kind, reference_index: r.reference_index },
            CpInfoInfoEnum::MethodType(r) => CpEntry::MethodType { descriptor_index: r.descriptor_index },
            CpInfoInfoEnum::Dynamic(r) => CpEntry::Dynamic { bootstrap_method_attr_index: r.bootstrap_method_attr_index, name_and_type_index: r.name_and_type_index },
            CpInfoInfoEnum::InvokeDynamic(r) => CpEntry::InvokeDynamic { bootstrap_method_attr_index: r.bootstrap_method_attr_index, name_and_type_index: r.name_and_type_index },
            CpInfoInfoEnum::_Module(r) => CpEntry::Module { name_index: r.name_index },
            CpInfoInfoEnum::Package(r) => CpEntry::Package { name_index: r.name_index },
            CpInfoInfoEnum::Class(r) => CpEntry::Class { name_index: r.name_index },
        }
    }
}

/// The number of bytes an entry takes in the file, tag included.
pub open spec fn entry_size(e: CpEntry) -> int {
    match e {
        CpEntry::Utf8 { length, .. } => 3 + length as int,
        CpEntry::Integer { .. } | CpEntry::Float { .. } => 5,
        CpEntry::Long { .. } | CpEntry::Double { .. } => 9,
        CpEntry::String { .. } | CpEntry::Package { .. } | CpEntry::Class { .. } | CpEntry::MethodType { .. } => 3,
        CpEntry::MethodHandle { .. } => 4,
        _ => 5,
    }
}

impl CpInfoInfoEnum {
    /// The number of bytes the entry takes in the file, tag included.
    pub fn get_size(&self) -> (r: usize)
        requires
            !(self@ is Unusable),
            !(self@ is Module),
        ensures
            r == entry_size(self@),
    {
        match self {
            CpInfoInfoEnum::Utf8(info) => 3 + info.length as usize,
            CpInfoInfoEnum::Integer(_) => 5,
            CpInfoInfoEnum::Float(_) => 5,
            CpInfoInfoEnum::Long(_) => 9,
            CpInfoInfoEnum::Double(_) => 9,
            CpInfoInfoEnum::String(_) => 3,
            CpInfoInfoEnum::Package(_) => 3,
            CpInfoInfoEnum::Class(_) => 3,
            CpInfoInfoEnum::MethodType(_) => 3,
            CpInfoInfoEnum::MethodHandle(_) => 4,
            _ => 5,
        }
    }
}

/// One entry of the constant pool.
#[derive(Debug, Clone)]
pub struct CpInfo {
    pub info: CpInfoInfoEnum,
}

/// A `CONSTANT_InvokeDynamic` entry (tag 18) reads its bootstrap method's
/// index from the two bytes right after the tag, high byte first, and the
/// index of its name and type from the two bytes after those; it takes five
/// bytes.
pub proof fn law_invoke_dynamic_entry_layout(s: Seq<u8>, i: int)
    requires
        0 <= i,
        i + 5 <= s.len(),
        s[i] == 18,
    ensures
        entry_at(s, i) matches Parsed::Done((CpEntry::InvokeDynamic { bootstrap_method_attr_index: a, name_and_type_index: b }, n))
            && a as int == s[i + 1] as int * 256 + s[i + 2] as int && b as int == s[i + 3] as int * 256 + s[i + 4] as int
            && n == 5,
{
}

/// The two-byte references of a constant-pool entry come right after its tag,
/// high byte first, in the order the class-file format gives them: the class
/// before the name and type for field, method and interface-method
/// references, the name before the descriptor for a name and type; a class,
/// a string and a method type hold one reference; a method handle holds its
/// kind byte and then a reference.
pub proof fn law_reference_entries_layout(s: Seq<u8>, i: int)
    requires
        0 <= i,
        i + 5 <= s.len(),
    ensures
        ({
            let x = s[i + 1] as int * 256 + s[i + 2] as int;
            let y = s[i + 3] as int * 256 + s[i + 4] as int;
            &&& s[i] == 9 ==> (entry_at(s, i) matches Parsed::Done((CpEntry::Fieldref { class_index: a, name_and_type_index: b }, n)) && n == 5 && a == x && b == y)
            &&& s[i] == 10 ==> (entry_at(s, i) matches Parsed::Done((CpEntry::Methodref { class_index: a, name_and_type_index: b }, n)) && n == 5 && a == x && b == y)
            &&& s[i] == 11 ==> (entry_at(s, i) matches Parsed::Done((CpEntry::Interfaceref { class_index: a, name_and_type_index: b }, n)) && n == 5 && a == x && b == y)
            &&& s[i] == 12 ==> (entry_at(s, i) matches Parsed::Done((CpEntry::NameAndType { name_index: a, descriptor_index: b }, n)) && n == 5 && a == x && b == y)
            &&& s[i] == 17 ==> (entry_at(s, i) matches Parsed::Done((CpEntry::Dynamic { bootstrap_method_attr_index: a, name_and_type_index: b }, n)) && n == 5 && a == x && b == y)
            &&& s[i] == 7 ==> (entry_at(s, i) matches Parsed::Done((CpEntry::Class { name_index: a }, n)) && n == 3 && a == x)
            &&& s[i] == 8 ==> (entry_at(s, i) matches Parsed::Done((CpEntry::String { string_index: a }, n)) && n == 3 && a == x)
            &&& s[i] == 16 ==> (entry_at(s, i) matches Parsed::Done((CpEntry::MethodType { descriptor_index: a }, n)) && n == 3 && a == x)
            &&& s[i] == 15 ==> (entry_at(s, i) matches Parsed::Done((CpEntry::MethodHandle { reference_kind: k, reference_index: a }, n)) && n == 4 && k == s[i + 1] && a == s[i + 2] as int * 256 + s[i + 3] as int)
        }),
{
}

/// Numeric constants are read big-endian right after the tag: an `int` from
/// four bytes, a `long` as its high four bytes and then its low four bytes.
pub proof fn law_numeric_entries_layout(s: Seq<u8>, i: int)
    requires
        0 <= i,
        i + 9 <= s.len(),
    ensures
        s[i] == 3 ==> (entry_at(s, i) matches Parsed::Done((CpEntry::Integer { bytes: v }, n)) && n == 5 && v == s[i + 1] as int
            * 16777216 + s[i + 2] as int * 65536 + s[i + 3] as int * 256 + s[i + 4] as int),
        s[i] == 5 ==> (entry_at(s, i) matches Parsed::Done((CpEntry::Long { high_bytes: h, low_bytes: l }, n)) && n == 9 && h == s[i + 1] as int
            * 16777216 + s[i + 2] as int * 65536 + s[i + 3] as int * 256 + s[i + 4] as int && l == s[i + 5] as int * 16777216
            + s[i + 6] as int * 65536 + s[i + 7] as int * 256 + s[i + 8] as int),
{
}

impl CpInfo {
    /// Reads the entry whose tag stands at `i`.
    pub fn parse_at(bytes: &[u8], i: usize) -> (r: Result<(CpInfo, usize), FormatError>)
        requires
            reads(entry_at(bytes@, i as int)),
        ensures
            match entry_at(bytes@, i as int) {
                Parsed::Done((e, size)) => (r matches Ok((c, n)) && c.info@ == e && n == size),
                Parsed::Fail(err) => r == Err::<(CpInfo, usize), FormatError>(err),
                Parsed::Panic => false,
            },
    {
        let _n = bytes.len();
        let tag = bytes[i];
        let p = i + 1;
        let info = if tag == 1 {
            let length = read_u16_at(bytes, p);
            let mut data: Vec<u8> = Vec::new();
            let start = p + 2;
            let mut k: usize = 0;
            while k < length as usize
                invariant
                    start == i + 3,
                    start + length <= bytes@.len(),
                    bytes@.len() <= usize::MAX,
                    k <= length,
                    data@ == bytes@.subrange(start as int, start + k),
                decreases length - k,
            {
                data.push(bytes[start + k]);
                k = k + 1;
                assert(data@ =~= bytes@.subrange(start as int, start + k));
            }
            CpInfoInfoEnum::Utf8(Utf8Info { length, bytes: data })
        } else if tag == 3 {
            CpInfoInfoEnum::Integer(NumericInfo { bytes: read_u32_at(bytes, p) })
        } else if tag == 4 {
            CpInfoInfoEnum::Float(NumericInfo { bytes: read_u32_at(bytes, p) })
        } else if tag == 5 {
            CpInfoInfoEnum::Long(BigNumericInfo { high_bytes: read_u32_at(bytes, p), low_bytes: read_u32_at(bytes, p + 4) })
        } else if tag == 6 {
            CpInfoInfoEnum::Double(BigNumericInfo { high_bytes: read_u32_at(bytes, p), low_bytes: read_u32_at(bytes, p + 4) })
        } else if tag == 2 {
            CpInfoInfoEnum::Package(PackageInfo { name_index: read_u16_at(bytes, p) })
        } else if tag == 7 {
            CpInfoInfoEnum::Class(ClassInfo { name_index: read_u16_at(bytes, p) })
        } else if tag == 8 {
            CpInfoInfoEnum::String(StringInfo { string_index: read_u16_at(bytes, p) })
        } else if tag == 16 {
            CpInfoInfoEnum::MethodType(MethodTypeInfo { descriptor_index: read_u16_at(bytes, p) })
        } else if tag == 9 || tag == 10 || tag == 11 {
            let r = RefInfo { class_index: read_u16_at(bytes, p), name_and_type_index: read_u16_at(bytes, p + 2) };
            if tag == 9 {
                CpInfoInfoEnum::Fieldref(r)
            } else if tag == 10 {
                CpInfoInfoEnum::Methodref(r)
            } else {
                CpInfoInfoEnum::Interfaceref(r)
            }
        } else if tag == 12 {
            CpInfoInfoEnum::NameAndType(
                NameAndTypeInfo { name_index: read_u16_at(bytes, p), descriptor_index: read_u16_at(bytes, p + 2) },
            )
        } else if tag == 17 {
            CpInfoInfoEnum::Dynamic(
                DynamicInfo {
                    bootstrap_method_attr_index: read_u16_at(bytes, p),
                    name_and_type_index: read_u16_at(bytes, p + 2),
                },
            )
        } else if tag == 18 {
            CpInfoInfoEnum::InvokeDynamic(
                InvokeDynamicInfo {
                    bootstrap_method_attr_index: read_u16_at(bytes, p),
                    name_and_type_index: read_u16_at(bytes, p + 2),
                },
            )
        } else if tag == 15 {
            CpInfoInfoEnum::MethodHandle(
                MethodHandleInfo { reference_kind: bytes[p], reference_index: read_u16_at(bytes, p + 1) },
            )
        } else {
            return Err(FormatError::UnknownConstantTag(tag));
        };
        let size = info.get_size();
        Ok((CpInfo { info }, size))
    }

    /// The information of the entry.
    pub fn get_info(&self) -> (r: &CpInfoInfoEnum)
        ensures
            r@ == self.info@,
    {
        &self.info
    }
}

/// The constant pool of a class file.
#[derive(Debug, Clone)]
pub struct ConstantPool {
    constant_pool_count: ju2,
    constant_pool: Vec<CpInfo>,
}

/// The mathematical content of a constant pool: the count from the file and the
/// slots, slot `k` holding entry `k + 1`.
pub struct PoolView {
    pub count: u16,
    pub entries: Seq<CpEntry>,
}

impl View for ConstantPool {
    type V = PoolView;

    closed spec fn view(&self) -> PoolView {
        PoolView { count: self.constant_pool_count, entries: self.constant_pool@.map_values(|c: CpInfo| c.info@) }
    }
}

/// The slot that constant-pool index `index` designates (index 0 wraps around to
/// the last possible slot, which never holds an entry of a real pool).
pub open spec fn slot_of(index: u16) -> int {
    if index == 0 {
        65535
    } else {
        index - 1
    }
}

/// The entry at `index`.
pub open spec fn cp_get(cp: PoolView, index: u16) -> Result<CpEntry, FormatError> {
    if 0 <= slot_of(index) < cp.entries.len() {
        Ok(cp.entries[slot_of(index)])
    } else {
        Err(FormatError::IndexNotFound(index, cp.count))
    }
}

/// The text of the `Utf8` entry at `index`.
pub open spec fn cp_name(cp: PoolView, index: u16) -> Result<Seq<char>, FormatError> {
    match cp_get(cp, index) {
        Ok(CpEntry::Utf8 { bytes, .. }) => Ok(utf8_text(bytes)),
        Ok(_) => Err(FormatError::NotUtf8(index)),
        Err(e) => Err(e),
    }
}

/// The name of the class that the `Class` entry at `index` designates; index 0,
/// and a class entry with name index 0, name no class (the empty text).
pub open spec fn cp_class_name(cp: PoolView, index: u16) -> Result<Seq<char>, FormatError> {
    if index == 0 {
        Ok(Seq::<char>::empty())
    } else {
        match cp_get(cp, index) {
            Ok(CpEntry::Class { name_index }) => if name_index == 0 {
                Ok(Seq::<char>::empty())
            } else {
                cp_name(cp, name_index)
            },
            Ok(_) => Err(FormatError::NotClass(index)),
            Err(e) => Err(e),
        }
    }
}

/// The index of the name-and-type entry that the entry at `index` designates
/// (a name-and-type entry designates itself).
pub open spec fn cp_name_and_type_index(cp: PoolView, index: u16) -> Result<u16, FormatError> {
    match cp_get(cp, index) {
        Ok(CpEntry::NameAndType { .. }) => Ok(index),
        Ok(CpEntry::Fieldref { name_and_type_index, .. }) => Ok(name_and_type_index),
        Ok(CpEntry::Methodref { name_and_type_index, .. }) => Ok(name_and_type_index),
        Ok(CpEntry::Interfaceref { name_and_type_index, .. }) => Ok(name_and_type_index),
        Ok(CpEntry::InvokeDynamic { name_and_type_index, .. }) => Ok(name_and_type_index),
        Ok(_) => Err(FormatError::NotRef(index)),
        Err(e) => Err(e),
    }
}

/// The name and the descriptor that the entry at `index` designates.
pub open spec fn cp_name_and_type(cp: PoolView, index: u16) -> Result<(Seq<char>, Seq<char>), FormatError> {
    match cp_name_and_type_index(cp, index) {
        Err(e) => Err(e),
        Ok(nt) => match cp_get(cp, nt) {
            Ok(CpEntry::NameAndType { name_index, descriptor_index }) => match cp_name(cp, name_index) {
                Err(e) => Err(e),
                Ok(name) => match cp_name(cp, descriptor_index) {
                    Err(e) => Err(e),
                    Ok(desc) => Ok((name, desc)),
                },
            },
            Ok(_) => Err(FormatError::NotNameAndType(index)),
            Err(e) => Err(e),
        },
    }
}

/// Class, name and descriptor of a member reference whose class index is
/// `class_index` and that stands at `index`.
pub open spec fn cp_member(cp: PoolView, class_index: u16, index: u16) -> Result<(Seq<char>, Seq<char>, Seq<char>), FormatError> {
    match cp_class_name(cp, class_index) {
        Err(e) => Err(e),
        Ok(class) => match cp_name_and_type(cp, index) {
            Err(e) => Err(e),
            Ok((name, desc)) => Ok((class, name, desc)),
        },
    }
}

/// The field reference at `index`: class, name and descriptor.
pub open spec fn cp_field_ref(cp: PoolView, index: u16) -> Result<(Seq<char>, Seq<char>, Seq<char>), FormatError> {
    match cp_get(cp, index) {
        Ok(CpEntry::Fieldref { class_index, .. }) => cp_member(cp, class_index, index),
        Ok(_) => Err(FormatError::NotFieldRef(index)),
        Err(e) => Err(e),
    }
}

/// The method or interface-method reference at `index`: class, name and descriptor.
pub open spec fn cp_method_ref(cp: PoolView, index: u16) -> Result<(Seq<char>, Seq<char>, Seq<char>), FormatError> {
    match cp_get(cp, index) {
        Ok(CpEntry::Methodref { class_index, .. }) => cp_member(cp, class_index, index),
        Ok(CpEntry::Interfaceref { class_index, .. }) => cp_member(cp, class_index, index),
        Ok(_) => Err(FormatError::NotMethodRef(index)),
        Err(e) => Err(e),
    }
}

/// The method handle at `index`: reference kind, then the method it refers to.
pub open spec fn cp_method_handle(cp: PoolView, index: u16) -> Result<(u8, Seq<char>, Seq<char>, Seq<char>), FormatError> {
    match cp_get(cp, index) {
        Ok(CpEntry::MethodHandle { reference_kind, reference_index }) => match cp_method_ref(cp, reference_index) {
            Err(e) => Err(e),
            Ok((c, n, t)) => Ok((reference_kind, c, n, t)),
        },
        Ok(_) => Err(FormatError::NotMethodHandle(index)),
        Err(e) => Err(e),
    }
}

/// The descriptor of the method type at `index`.
pub open spec fn cp_method_type(cp: PoolView, index: u16) -> Result<Seq<char>, FormatError> {
    match cp_get(cp, index) {
        Ok(CpEntry::MethodType { descriptor_index }) => cp_name(cp, descriptor_index),
        Ok(_) => Err(FormatError::NotMethodType(index)),
        Err(e) => Err(e),
    }
}

/// The dynamic call site at `index`: bootstrap method index, name and descriptor.
pub open spec fn cp_invokedynamic(cp: PoolView, index: u16) -> Result<(u16, Seq<char>, Seq<char>), FormatError> {
    match cp_get(cp, index) {
        Ok(CpEntry::InvokeDynamic { bootstrap_method_attr_index, .. }) => match cp_name_and_type(cp, index) {
            Err(e) => Err(e),
            Ok((n, t)) => Ok((bootstrap_method_attr_index, n, t)),
        },
        Ok(_) => Err(FormatError::NotInvokeDynamic(index)),
        Err(e) => Err(e),
    }
}

impl ConstantPool {
    /// Reads a constant pool from the start of `bytes`; gives the pool and the
    /// number of bytes it takes.
    pub fn parse(bytes: &[u8]) -> (r: Result<(ConstantPool, usize), FormatError>)
        requires
            reads(constant_pool_at(bytes@)),
        ensures
            match constant_pool_at(bytes@) {
                Parsed::Done((count, entries, end)) => (r matches Ok((cp, n)) && cp@.count == count && cp@.entries == entries && n == end),
                Parsed::Fail(e) => r == Err::<(ConstantPool, usize), FormatError>(e),
                Parsed::Panic => false,
            },
    {
        let _n = bytes.len();
        let mut v: Vec<CpInfo> = Vec::new();
        let count = read_u16_at(bytes, 0);
        let mut index: usize = 2;
        let mut i: u32 = 1;
        let ghost whole = entries_from(bytes@, 2, 1, count as int);
        while i < count as u32
            invariant
                bytes@.len() <= usize::MAX,
                count == be_u16_at(bytes@, 0),
                1 <= i <= count + 1,
                whole == entries_from(bytes@, 2, 1, count as int),
                reads(whole),
                whole == prepend_entries(v@.map_values(|c: CpInfo| c.info@), entries_from(bytes@, index as int, i as int, count as int)),
            decreases count + 1 - i,
        {
            let (cpinfo, bytes_read) = match CpInfo::parse_at(bytes, index) {
                Ok(x) => x,
                Err(e) => {
                    return Err(e);
                },
            };
            let ghost old_v = v@.map_values(|c: CpInfo| c.info@);
            let wide = match cpinfo.info {
                CpInfoInfoEnum::Double(_) | CpInfoInfoEnum::Long(_) => true,
                _ => false,
            };
            index = index + bytes_read;
            v.push(cpinfo);
            i = i + 1;
            if wide {
                i = i + 1;
                v.push(CpInfo { info: CpInfoInfoEnum::Unusable });
            }
            proof {
                let e = entry_at(bytes@, (index - bytes_read) as int)->Done_0.0;
                let slots = if is_wide(e) { seq![e, CpEntry::Unusable] } else { seq![e] };
                assert(v@.map_values(|c: CpInfo| c.info@) =~= old_v + slots);
                let rest = entries_from(bytes@, index as int, i as int, count as int);
                assert(prepend_entries(old_v, prepend_entries(slots, rest)) == prepend_entries(old_v + slots, rest)) by {
                    match rest {
                        Parsed::Done((r, end)) => {
                            assert(old_v + (slots + r) =~= (old_v + slots) + r);
                        },
                        _ => {},
                    }
                };
            }
        }
        proof {
            assert(v@.map_values(|c: CpInfo| c.info@) + Seq::<CpEntry>::empty() =~= v@.map_values(|c: CpInfo| c.info@));
        }
        Ok((ConstantPool { constant_pool_count: count, constant_pool: v }, index))
    }

    /// A pool with no entries.
    pub fn empty() -> (cp: ConstantPool)
        ensures
            cp@.count == 0,
            cp@.entries == Seq::<CpEntry>::empty(),
    {
        let cp = ConstantPool { constant_pool_count: 0, constant_pool: Vec::new() };
        assert(cp@.entries =~= Seq::<CpEntry>::empty());
        cp
    }

    /// The entry at `index`.
    pub fn resolve_index(&self, index: ju2) -> (r: Result<&CpInfo, FormatError>)
        ensures
            match cp_get(self@, index) {
                Ok(e) => (r matches Ok(c) && c.info@ == e),
                Err(e) => r == Err::<&CpInfo, FormatError>(e),
            },
    {
        let k: usize = index.wrapping_sub(1) as usize;
        if k < self.constant_pool.len() {
            Ok(&self.constant_pool[k])
        } else {
            Err(FormatError::IndexNotFound(index, self.constant_pool_count))
        }
    }

    /// The text of the `Utf8` entry at `index`.
    pub fn resolve_name(&self, index: ju2) -> (r: Result<String, FormatError>)
        ensures
            match cp_name(self@, index) {
                Ok(t) => (r matches Ok(s) && s@ == t),
                Err(e) => r == Err::<String, FormatError>(e),
            },
    {
        let entry = self.resolve_index(index)?;
        match &entry.info {
            CpInfoInfoEnum::Utf8(info) => Ok(info.name()),
            _ => Err(FormatError::NotUtf8(index)),
        }
    }

    /// The name of the class at `index` (the empty text for index 0).
    pub fn resolve_class_name(&self, index: ju2) -> (r: Result<String, FormatError>)
        ensures
            match cp_class_name(self@, index) {
                Ok(t) => (r matches Ok(s) && s@ == t),
                Err(e) => r == Err::<String, FormatError>(e),
            },
    {
        if index == 0 {
            return Ok(String::new());
        }
        let class = self.resolve_index(index)?;
        match &class.info {
            CpInfoInfoEnum::Class(info) => {
                if info.name_index == 0 {
                    return Ok(String::new());
                }
                self.resolve_name(info.name_index)
            },
            _ => Err(FormatError::NotClass(index)),
        }
    }

    /// The index of the name-and-type entry that the entry at `index` designates.
    pub fn resolve_name_and_type_index(&self, index: ju2) -> (r: Result<ju2, FormatError>)
        ensures
            r == cp_name_and_type_index(self@, index),
    {
        let value = self.resolve_index(index)?;
        match &value.info {
            CpInfoInfoEnum::NameAndType(_) => Ok(index),
            CpInfoInfoEnum::Fieldref(refinfo) => Ok(refinfo.name_and_type_index),
            CpInfoInfoEnum::Methodref(refinfo) => Ok(refinfo.name_and_type_index),
            CpInfoInfoEnum::Interfaceref(refinfo) => Ok(refinfo.name_and_type_index),
            CpInfoInfoEnum::InvokeDynamic(refinfo) => Ok(refinfo.name_and_type_index),
            _ => Err(FormatError::NotRef(index)),
        }
    }

    /// The name and descriptor that the entry at `index` designates.
    pub fn resolve_name_and_type(&self, index: ju2) -> (r: Result<(String, String), FormatError>)
        ensures
            match cp_name_and_type(self@, index) {
                Ok((n, t)) => (r matches Ok((a, b)) && a@ == n && b@ == t),
                Err(e) => r == Err::<(String, String), FormatError>(e),
            },
    {
        let nt = self.resolve_name_and_type_index(index)?;
        let name_and_type = self.resolve_index(nt)?;
        match &name_and_type.info {
            CpInfoInfoEnum::NameAndType(info) => {
                let name = self.resolve_name(info.name_index)?;
                let desc = self.resolve_name(info.descriptor_index)?;
                Ok((name, desc))
            },
            _ => Err(FormatError::NotNameAndType(index)),
        }
    }

    /// The name index of the `Class` entry at `index`.
    pub fn resolve_class(&self, index: ju2) -> (r: Result<ju2, FormatError>)
        ensures
            match cp_get(self@, index) {
                Ok(CpEntry::Class { name_index }) => r == Ok::<ju2, FormatError>(name_index),
                Ok(_) => r == Err::<ju2, FormatError>(FormatError::NotClass(index)),
                Err(e) => r == Err::<ju2, FormatError>(e),
            },
    {
        let value = self.resolve_index(index)?;
        match &value.info {
            CpInfoInfoEnum::Class(classinfo) => Ok(classinfo.name_index),
            _ => Err(FormatError::NotClass(index)),
        }
    }

    fn resolve_member(&self, class_index: ju2, index: ju2) -> (r: Result<(String, String, String), FormatError>)
        ensures
            match cp_member(self@, class_index, index) {
                Ok((c, n, t)) => (r matches Ok((a, b, d)) && a@ == c && b@ == n && d@ == t),
                Err(e) => r == Err::<(String, String, String), FormatError>(e),
            },
    {
        let class = self.resolve_class_name(class_index)?;
        let (name, ty) = self.resolve_name_and_type(index)?;
        Ok((class, name, ty))
    }

    /// The field reference at `index`: class, name and descriptor.
    pub fn resolve_field_ref(&self, index: ju2) -> (r: Result<(String, String, String), FormatError>)
        ensures
            match cp_field_ref(self@, index) {
                Ok((c, n, t)) => (r matches Ok((a, b, d)) && a@ == c && b@ == n && d@ == t),
                Err(e) => r == Err::<(String, String, String), FormatError>(e),
            },
    {
        let value = self.resolve_index(index)?;
        match &value.info {
            CpInfoInfoEnum::Fieldref(refinfo) => self.resolve_member(refinfo.class_index, index),
            _ => Err(FormatError::NotFieldRef(index)),
        }
    }

    /// The method or interface-method reference at `index`: class, name and descriptor.
    pub fn resolve_method_ref(&self, index: ju2) -> (r: Result<(String, String, String), FormatError>)
        ensures
            match cp_method_ref(self@, index) {
                Ok((c, n, t)) => (r matches Ok((a, b, d)) && a@ == c && b@ == n && d@ == t),
                Err(e) => r == Err::<(String, String, String), FormatError>(e),
            },
    {
        let value = self.resolve_index(index)?;
        match &value.info {
            CpInfoInfoEnum::Methodref(refinfo) => self.resolve_member(refinfo.class_index, index),
            CpInfoInfoEnum::Interfaceref(refinfo) => self.resolve_member(refinfo.class_index, index),
            _ => Err(FormatError::NotMethodRef(index)),
        }
    }

    /// The method handle at `index`: reference kind, class, name and descriptor.
    pub fn resolve_method_handle(&self, index: ju2) -> (r: Result<(ju1, String, String, String), FormatError>)
        ensures
            match cp_method_handle(self@, index) {
                Ok((k, c, n, t)) => (r matches Ok((k2, a, b, d)) && k2 == k && a@ == c && b@ == n && d@ == t),
                Err(e) => r == Err::<(ju1, String, String, String), FormatError>(e),
            },
    {
        let value = self.resolve_index(index)?;
        match &value.info {
            CpInfoInfoEnum::MethodHandle(metinfo) => {
                let (c, n, t) = self.resolve_method_ref(metinfo.reference_index)?;
                Ok((metinfo.reference_kind, c, n, t))
            },
            _ => Err(FormatError::NotMethodHandle(index)),
        }
    }

    /// The descriptor of the method type at `index`.
    pub fn resolve_method_type(&self, index: ju2) -> (r: Result<String, FormatError>)
        ensures
            match cp_method_type(self@, index) {
                Ok(t) => (r matches Ok(s) && s@ == t),
                Err(e) => r == Err::<String, FormatError>(e),
            },
    {
        let value = self.resolve_index(index)?;
        match &value.info {
            CpInfoInfoEnum::MethodType(metinfo) => self.resolve_name(metinfo.descriptor_index),
            _ => Err(FormatError::NotMethodType(index)),
        }
    }

    /// The dynamic call site at `index`: bootstrap method index, name and descriptor.
    pub fn resolve_invokedynamic(&self, index: ju2) -> (r: Result<(ju2, String, String), FormatError>)
        ensures
            match cp_invokedynamic(self@, index) {
                Ok((b, n, t)) => (r matches Ok((b2, x, y)) && b2 == b && x@ == n && y@ == t),
                Err(e) => r == Err::<(ju2, String, String), FormatError>(e),
            },
    {
        let value = self.resolve_index(index)?;
        match &value.info {
            CpInfoInfoEnum::InvokeDynamic(refinfo) => {
                let (n, t) = self.resolve_name_and_type(index)?;
                Ok((refinfo.bootstrap_method_attr_index, n, t))
            },
            _ => Err(FormatError::NotInvokeDynamic(index)),
        }
    }

    /// The bits of the `Float` entry at `index`.
    pub fn _resolve_float(&self, index: ju2) -> (r: Result<ju4, FormatError>)
        ensures
            match cp_get(self@, index) {
                Ok(CpEntry::Float { bytes }) => r == Ok::<ju4, FormatError>(bytes),
                Ok(_) => r == Err::<ju4, FormatError>(FormatError::NotFloat(index)),
                Err(e) => r == Err::<ju4, FormatError>(e),
            },
    {
        let value = self.resolve_index(index)?;
        match &value.info {
            CpInfoInfoEnum::Float(num) => Ok(num.bytes),
            _ => Err(FormatError::NotFloat(index)),
        }
    }

    /// The number of slots of the pool.
    pub fn len(&self) -> (n: usize)
        ensures
            n == self@.entries.len(),
    {
        self.constant_pool.len()
    }
}

} // verus!


