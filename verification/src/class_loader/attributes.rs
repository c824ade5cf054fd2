use vstd::prelude::*;
use vstd::string::*;

use crate::class_loader::constant_pool::{ConstantPool, PoolView, cp_class_name, cp_name, cp_name_and_type};
use crate::class_loader::format::{FormatError, Parsed, reads};
use crate::utils::{be_u16_at, be_u32_at, ju1, ju2, ju4, read_u16_at, read_u32_at};

verus! {

/// Whether `n` bytes can be read at `p` in `s`.
pub open spec fn fits(s: Seq<u8>, p: int, n: int) -> bool {
    0 <= p && p + n <= s.len()
}

/// The `n` big-endian 16-bit quantities that start at `i`.
pub open spec fn u16s_at(s: Seq<u8>, i: int, n: int) -> Seq<u16> {
    Seq::new(n as nat, |k: int| be_u16_at(s, i + 2 * k))
}

/// Reads `n` big-endian 16-bit quantities starting at `i`.
pub fn read_u16_list(bytes: &[u8], i: usize, n: usize) -> (v: Vec<u16>)
    requires
        i + 2 * n <= bytes@.len(),
    ensures
        v@ == u16s_at(bytes@, i as int, n as int),
{
    let _len = bytes.len();
    let mut v: Vec<u16> = Vec::new();
    let mut k: usize = 0;
    while k < n
        invariant
            bytes@.len() <= usize::MAX,
            i + 2 * n <= bytes@.len(),
            k <= n,
            v@ == u16s_at(bytes@, i as int, k as int),
        decreases n - k,
    {
        v.push(read_u16_u(bytes, i + 2 * k));
        k = k + 1;
        assert(v@ =~= u16s_at(bytes@, i as int, k as int));
    }
    v
}

fn read_u16_u(bytes: &[u8], i: usize) -> (r: u16)
    requires
        i + 2 <= bytes@.len(),
    ensures
        r == be_u16_at(bytes@, i as int),
{
    read_u16_at(bytes, i)
}

/// A `ConstantValue` attribute.
#[derive(Debug, Clone, Copy)]
pub struct ConstantValue {
    pub constantvalue_index: ju2,
}

impl ConstantValue {
    pub fn parse_at(bytes: &[u8], i: usize) -> (r: (ConstantValue, usize))
        requires
            fits(bytes@, i as int, 2),
        ensures
            r.0.constantvalue_index == be_u16_at(bytes@, i as int),
            r.1 == 2,
    {
        (ConstantValue { constantvalue_index: read_u16_at(bytes, i) }, 2)
    }
}

/// A `SourceFile` attribute.
#[derive(Debug, Clone, Copy)]
pub struct SourceFile {
    pub sourcefile_index: ju2,
}

impl SourceFile {
    pub fn parse_at(bytes: &[u8], i: usize) -> (r: (SourceFile, usize))
        requires
            fits(bytes@, i as int, 2),
        ensures
            r.0.sourcefile_index == be_u16_at(bytes@, i as int),
            r.1 == 2,
    {
        (SourceFile { sourcefile_index: read_u16_at(bytes, i) }, 2)
    }
}

/// A `NestHost` attribute.
#[derive(Debug, Clone, Copy, PartialEq, Eq, Structural)]
pub struct NestHost {
    pub host_class_index: ju2,
}

impl NestHost {
    pub fn parse_at(bytes: &[u8], i: usize) -> (r: (NestHost, usize))
        requires
            fits(bytes@, i as int, 2),
        ensures
            r.0.host_class_index == be_u16_at(bytes@, i as int),
            r.1 == 2,
    {
        (NestHost { host_class_index: read_u16_at(bytes, i) }, 2)
    }

    pub fn get_host_class_index(&self) -> (r: ju2)
        ensures
            r == self.host_class_index,
    {
        self.host_class_index
    }
}

/// A `Signature` attribute.
#[derive(Debug, Clone, Copy)]
pub struct Signature {
    pub signature_index: ju2,
}

impl Signature {
    pub fn parse_at(bytes: &[u8], i: usize) -> (r: (Signature, usize))
        requires
            fits(bytes@, i as int, 2),
        ensures
            r.0.signature_index == be_u16_at(bytes@, i as int),
            r.1 == 2,
    {
        (Signature { signature_index: read_u16_at(bytes, i) }, 2)
    }
}

/// A list of class indices: the tables of `NestMembers`, `Exceptions` and
/// `PermittedSubclasses`, read as a count followed by that many indices.
pub open spec fn index_table_at(s: Seq<u8>, i: int) -> Parsed<(Seq<u16>, int)> {
    if !fits(s, i, 2) {
        Parsed::Panic
    } else {
        let n = be_u16_at(s, i) as int;
        if !fits(s, i + 2, 2 * n) {
            Parsed::Panic
        } else {
            Parsed::Done((u16s_at(s, i + 2, n), 2 + 2 * n))
        }
    }
}

fn parse_index_table(bytes: &[u8], i: usize) -> (r: (u16, Vec<u16>, usize))
    requires
        reads(index_table_at(bytes@, i as int)),
    ensures
        r.0 == be_u16_at(bytes@, i as int),
        index_table_at(bytes@, i as int) == Parsed::Done((r.1@, r.2 as int)),
{
    let _len = bytes.len();
    let n = read_u16_at(bytes, i);
    let v = read_u16_list(bytes, i + 2, n as usize);
    (n, v, 2 + 2 * n as usize)
}

/// A `NestMembers` attribute.
#[derive(Debug, Clone)]
pub struct NestMembers {
    pub number_of_classes: ju2,
    pub classes: Vec<ju2>,
}

impl NestMembers {
    pub fn parse_at(bytes: &[u8], i: usize) -> (r: (NestMembers, usize))
        requires
            reads(index_table_at(bytes@, i as int)),
        ensures
            r.0.number_of_classes == be_u16_at(bytes@, i as int),
            index_table_at(bytes@, i as int) == Parsed::Done((r.0.classes@, r.1 as int)),
    {
        let (n, classes, size) = parse_index_table(bytes, i);
        (NestMembers { number_of_classes: n, classes }, size)
    }
}

/// An `Exceptions` attribute.
#[derive(Debug, Clone)]
pub struct Exceptions {
    pub exception_index_table: Vec<ju2>,
}

impl Exceptions {
    pub fn parse_at(bytes: &[u8], i: usize) -> (r: (Exceptions, usize))
        requires
            reads(index_table_at(bytes@, i as int)),
        ensures
            index_table_at(bytes@, i as int) == Parsed::Done((r.0.exception_index_table@, r.1 as int)),
    {
        let (_n, exception_index_table, size) = parse_index_table(bytes, i);
        (Exceptions { exception_index_table }, size)
    }
}

/// A `PermittedSubclasses` attribute.
#[derive(Debug, Clone)]
pub struct PermittedSubclasses {
    pub number_of_classes: ju2,
    pub classes: Vec<ju2>,
}

impl PermittedSubclasses {
    pub fn parse_at(bytes: &[u8], i: usize) -> (r: (PermittedSubclasses, usize))
        requires
            reads(index_table_at(bytes@, i as int)),
        ensures
            r.0.number_of_classes == be_u16_at(bytes@, i as int),
            index_table_at(bytes@, i as int) == Parsed::Done((r.0.classes@, r.1 as int)),
    {
        let (n, classes, size) = parse_index_table(bytes, i);
        (PermittedSubclasses { number_of_classes: n, classes }, size)
    }
}

/// One line of a `LineNumberTable`.
#[derive(Debug, Clone, Copy)]
pub struct LineNumberTableEntry {
    pub start_pc: ju2,
    pub line_number: ju2,
}

/// A `LineNumberTable` attribute.
#[derive(Debug, Clone)]
pub struct LineNumberTable {
    pub line_number_table_length: ju2,
    pub line_number_table: Vec<LineNumberTableEntry>,
}

/// The line-number entries that start at `i`, `n` of them.
pub open spec fn line_entries_at(s: Seq<u8>, i: int, n: int) -> Seq<LineNumberTableEntry> {
    Seq::new(n as nat, |k: int| LineNumberTableEntry { start_pc: be_u16_at(s, i + 4 * k), line_number: be_u16_at(s, i + 4 * k + 2) })
}

/// A line-number table at `i`: its entries and its size. The size is computed in
/// 16 bits, and a table whose size does not fit there is not read.
pub open spec fn line_number_table_at(s: Seq<u8>, i: int) -> Parsed<(Seq<LineNumberTableEntry>, int)> {
    if !fits(s, i, 2) {
        Parsed::Panic
    } else {
        let n = be_u16_at(s, i) as int;
        if !fits(s, i + 2, 4 * n) || 2 + 4 * n > u16::MAX {
            Parsed::Panic
        } else {
            Parsed::Done((line_entries_at(s, i + 2, n), 2 + 4 * n))
        }
    }
}

impl LineNumberTable {
    pub fn parse_at(bytes: &[u8], i: usize) -> (r: (LineNumberTable, usize))
        requires
            reads(line_number_table_at(bytes@, i as int)),
        ensures
            r.0.line_number_table_length == be_u16_at(bytes@, i as int),
            line_number_table_at(bytes@, i as int) == Parsed::Done((r.0.line_number_table@, r.1 as int)),
    {
        let _len = bytes.len();
        let n = read_u16_at(bytes, i);
        let mut table: Vec<LineNumberTableEntry> = Vec::new();
        let mut k: usize = 0;
        let start = i + 2;
        while k < n as usize
            invariant
                bytes@.len() <= usize::MAX,
                start == i + 2,
                fits(bytes@, start as int, 4 * n),
                k <= n,
                table@ == line_entries_at(bytes@, start as int, k as int),
            decreases n - k,
        {
            let p = start + 4 * k;
            table.push(LineNumberTableEntry { start_pc: read_u16_at(bytes, p), line_number: read_u16_at(bytes, p + 2) });
            k = k + 1;
            assert(table@ =~= line_entries_at(bytes@, start as int, k as int));
        }
        (LineNumberTable { line_number_table_length: n, line_number_table: table }, (2 + n * 4) as usize)
    }
}

/// One entry of a `LocalVariableTable`.
#[derive(Debug, Clone, Copy)]
pub struct LocalVariableTableEntry {
    pub start_pc: ju2,
    pub length: ju2,
    pub name_index: ju2,
    pub descriptor_index: ju2,
    pub index: ju2,
}

/// The local-variable entry at `p`.
pub open spec fn local_variable_entry(s: Seq<u8>, p: int) -> LocalVariableTableEntry {
    LocalVariableTableEntry {
        start_pc: be_u16_at(s, p),
        length: be_u16_at(s, p + 2),
        name_index: be_u16_at(s, p + 4),
        descriptor_index: be_u16_at(s, p + 6),
        index: be_u16_at(s, p + 8),
    }
}

/// The `n` local-variable entries that start at `i`.
pub open spec fn local_entries_at(s: Seq<u8>, i: int, n: int) -> Seq<LocalVariableTableEntry> {
    Seq::new(n as nat, |k: int| local_variable_entry(s, i + 10 * k))
}

/// A local-variable table at `i`: its entries and its size.
pub open spec fn local_variable_table_at(s: Seq<u8>, i: int) -> Parsed<(Seq<LocalVariableTableEntry>, int)> {
    if !fits(s, i, 2) {
        Parsed::Panic
    } else {
        let n = be_u16_at(s, i) as int;
        if !fits(s, i + 2, 10 * n) {
            Parsed::Panic
        } else {
            Parsed::Done((local_entries_at(s, i + 2, n), 2 + 10 * n))
        }
    }
}

/// A `LocalVariableTable` (or `LocalVariableTypeTable`) attribute.
#[derive(Debug, Clone)]
pub struct LocalVariableTable {
    pub local_variable_table_length: ju2,
    pub local_variable_table: Vec<LocalVariableTableEntry>,
}

impl LocalVariableTable {
    pub fn parse_at(bytes: &[u8], i: usize) -> (r: (LocalVariableTable, usize))
        requires
            reads(local_variable_table_at(bytes@, i as int)),
        ensures
            r.0.local_variable_table_length == be_u16_at(bytes@, i as int),
            local_variable_table_at(bytes@, i as int) == Parsed::Done((r.0.local_variable_table@, r.1 as int)),
    {
        let _len = bytes.len();
        let n = read_u16_at(bytes, i);
        let mut table: Vec<LocalVariableTableEntry> = Vec::new();
        let mut k: usize = 0;
        let start = i + 2;
        while k < n as usize
            invariant
                bytes@.len() <= usize::MAX,
                start == i + 2,
                fits(bytes@, start as int, 10 * n),
                k <= n,
                table@ == local_entries_at(bytes@, start as int, k as int),
            decreases n - k,
        {
            let p = start + 10 * k;
            table.push(
                LocalVariableTableEntry {
                    start_pc: read_u16_at(bytes, p),
                    length: read_u16_at(bytes, p + 2),
                    name_index: read_u16_at(bytes, p + 4),
                    descriptor_index: read_u16_at(bytes, p + 6),
                    index: read_u16_at(bytes, p + 8),
                },
            );
            k = k + 1;
            assert(table@ =~= local_entries_at(bytes@, start as int, k as int));
        }
        (LocalVariableTable { local_variable_table_length: n, local_variable_table: table }, 2 + 10 * n as usize)
    }
}

/// One parameter of a `MethodParameters` attribute.
#[derive(Debug, Clone, Copy)]
pub struct MethodParameter {
    pub name_index: ju2,
    pub access_flags: ju2,
}

/// The `n` parameters that start at `i`.
pub open spec fn parameters_at(s: Seq<u8>, i: int, n: int) -> Seq<MethodParameter> {
    Seq::new(n as nat, |k: int| MethodParameter { name_index: be_u16_at(s, i + 4 * k), access_flags: be_u16_at(s, i + 4 * k + 2) })
}

/// A `MethodParameters` table at `i` (its count is one byte): parameters and size.
pub open spec fn method_parameters_at(s: Seq<u8>, i: int) -> Parsed<(Seq<MethodParameter>, int)> {
    if !fits(s, i, 1) {
        Parsed::Panic
    } else {
        let n = s[i] as int;
        if !fits(s, i + 1, 4 * n) {
            Parsed::Panic
        } else {
            Parsed::Done((parameters_at(s, i + 1, n), 1 + 4 * n))
        }
    }
}

/// A `MethodParameters` attribute.
#[derive(Debug, Clone)]
pub struct MethodParameters {
    pub parameters_count: ju1,
    pub parameters: Vec<MethodParameter>,
}

impl MethodParameters {
    pub fn parse_at(bytes: &[u8], i: usize) -> (r: (MethodParameters, usize))
        requires
            reads(method_parameters_at(bytes@, i as int)),
        ensures
            r.0.parameters_count == bytes@[i as int],
            method_parameters_at(bytes@, i as int) == Parsed::Done((r.0.parameters@, r.1 as int)),
    {
        let _len = bytes.len();
        let n = bytes[i];
        let mut params: Vec<MethodParameter> = Vec::new();
        let mut k: usize = 0;
        let start = i + 1;
        while k < n as usize
            invariant
                bytes@.len() <= usize::MAX,
                start == i + 1,
                fits(bytes@, start as int, 4 * n),
                k <= n,
                params@ == parameters_at(bytes@, start as int, k as int),
            decreases n - k,
        {
            let p = start + 4 * k;
            params.push(MethodParameter { name_index: read_u16_at(bytes, p), access_flags: read_u16_at(bytes, p + 2) });
            k = k + 1;
            assert(params@ =~= parameters_at(bytes@, start as int, k as int));
        }
        (MethodParameters { parameters_count: n, parameters: params }, 1 + 4 * n as usize)
    }
}

/// The values `f(0)`, ..., `f(n - 1)`, or the first failure among them.
pub open spec fn collect<T>(n: int, f: spec_fn(int) -> Result<T, FormatError>) -> Result<Seq<T>, FormatError>
    decreases n,
{
    if n <= 0 {
        Ok(Seq::<T>::empty())
    } else {
        match collect(n - 1, f) {
            Err(e) => Err(e),
            Ok(xs) => match f(n - 1) {
                Ok(x) => Ok(xs.push(x)),
                Err(e) => Err(e),
            },
        }
    }
}

/// Once a failure is met, collecting further gives that failure.
pub proof fn lemma_collect_fail<T>(k: int, n: int, f: spec_fn(int) -> Result<T, FormatError>)
    requires
        0 <= k < n,
        collect(k, f) is Ok,
        f(k) is Err,
    ensures
        collect(n, f) == Err::<Seq<T>, FormatError>(f(k)->Err_0),
    decreases n - k,
{
    if n > k + 1 {
        lemma_collect_fail(k, n - 1, f);
    }
}

/// One entry of a method's exception table, its catch type resolved to a class
/// name (`finally` for entries that catch everything).
#[derive(Debug, Clone)]
pub struct ExceptionTableEntry {
    pub start_pc: ju2,
    pub end_pc: ju2,
    pub handler_pc: ju2,
    pub catch_type: String,
}

/// The mathematical content of an exception-table entry.
pub struct ExceptionTableEntryView {
    pub start_pc: u16,
    pub end_pc: u16,
    pub handler_pc: u16,
    pub catch_type: Seq<char>,
}

impl View for ExceptionTableEntry {
    type V = ExceptionTableEntryView;

    open spec fn view(&self) -> ExceptionTableEntryView {
        ExceptionTableEntryView {
            start_pc: self.start_pc,
            end_pc: self.end_pc,
            handler_pc: self.handler_pc,
            catch_type: self.catch_type@,
        }
    }
}

/// The exception-table entry at `p` (it takes eight bytes).
pub open spec fn exception_entry_at(s: Seq<u8>, p: int, cp: PoolView) -> Result<ExceptionTableEntryView, FormatError> {
    let idx = be_u16_at(s, p + 6);
    let catch = if idx == 0 { Ok("finally"@) } else { cp_class_name(cp, idx) };
    match catch {
        Err(e) => Err(e),
        Ok(c) => Ok(
            ExceptionTableEntryView {
                start_pc: be_u16_at(s, p),
                end_pc: be_u16_at(s, p + 2),
                handler_pc: be_u16_at(s, p + 4),
                catch_type: c,
            },
        ),
    }
}

impl ExceptionTableEntry {
    pub fn parse_at(bytes: &[u8], p: usize, cp: &ConstantPool) -> (r: Result<ExceptionTableEntry, FormatError>)
        requires
            fits(bytes@, p as int, 8),
        ensures
            match exception_entry_at(bytes@, p as int, cp@) {
                Ok(v) => (r matches Ok(x) && x@ == v),
                Err(e) => r == Err::<ExceptionTableEntry, FormatError>(e),
            },
    {
        let _len = bytes.len();
        let start_pc = read_u16_at(bytes, p);
        let end_pc = read_u16_at(bytes, p + 2);
        let handler_pc = read_u16_at(bytes, p + 4);
        let catch_type_index = read_u16_at(bytes, p + 6);
        let catch_type = if catch_type_index == 0 {
            String::from_str("finally")
        } else {
            cp.resolve_class_name(catch_type_index)?
        };
        Ok(ExceptionTableEntry { start_pc, end_pc, handler_pc, catch_type })
    }

    pub fn get_handler_pc(&self) -> (r: ju2)
        ensures
            r == self.handler_pc,
    {
        self.handler_pc
    }

    /// Whether the entry covers `pc` (bounds included).
    pub fn covers(&self, pc: ju2) -> (r: bool)
        ensures
            r == (self.start_pc <= pc && pc <= self.end_pc),
    {
        pc >= self.start_pc && pc <= self.end_pc
    }
}

/// One class of an `InnerClasses` attribute, its name resolved (empty for an
/// anonymous class).
#[derive(Debug, Clone)]
pub struct InnerClassesClass {
    pub inner_class_info_index: ju2,
    pub outer_class_info_index: ju2,
    pub inner_name: String,
    pub inner_class_access_flags: ju2,
}

/// The mathematical content of an inner-class entry.
pub struct InnerClassesClassView {
    pub inner_class_info_index: u16,
    pub outer_class_info_index: u16,
    pub inner_name: Seq<char>,
    pub inner_class_access_flags: u16,
}

impl View for InnerClassesClass {
    type V = InnerClassesClassView;

    open spec fn view(&self) -> InnerClassesClassView {
        InnerClassesClassView {
            inner_class_info_index: self.inner_class_info_index,
            outer_class_info_index: self.outer_class_info_index,
            inner_name: self.inner_name@,
            inner_class_access_flags: self.inner_class_access_flags,
        }
    }
}

/// The inner-class entry at `p` (it takes eight bytes).
pub open spec fn inner_class_at(s: Seq<u8>, p: int, cp: PoolView) -> Result<InnerClassesClassView, FormatError> {
    let idx = be_u16_at(s, p + 4);
    let name = if idx == 0 { Ok(Seq::<char>::empty()) } else { cp_name(cp, idx) };
    match name {
        Err(e) => Err(e),
        Ok(n) => Ok(
            InnerClassesClassView {
                inner_class_info_index: be_u16_at(s, p),
                outer_class_info_index: be_u16_at(s, p + 2),
                inner_name: n,
                inner_class_access_flags: be_u16_at(s, p + 6),
            },
        ),
    }
}

impl InnerClassesClass {
    pub fn parse_at(bytes: &[u8], p: usize, cp: &ConstantPool) -> (r: Result<InnerClassesClass, FormatError>)
        requires
            fits(bytes@, p as int, 8),
        ensures
            match inner_class_at(bytes@, p as int, cp@) {
                Ok(v) => (r matches Ok(x) && x@ == v),
                Err(e) => r == Err::<InnerClassesClass, FormatError>(e),
            },
    {
        let _len = bytes.len();
        let inner_class_info_index = read_u16_at(bytes, p);
        let outer_class_info_index = read_u16_at(bytes, p + 2);
        let inner_name_index = read_u16_at(bytes, p + 4);
        let inner_name = if inner_name_index == 0 {
            String::new()
        } else {
            cp.resolve_name(inner_name_index)?
        };
        let inner_class_access_flags = read_u16_at(bytes, p + 6);
        Ok(InnerClassesClass { inner_class_info_index, outer_class_info_index, inner_name, inner_class_access_flags })
    }

    pub fn get_name(&self) -> (r: &str)
        ensures
            r@ == self.inner_name@,
    {
        self.inner_name.as_str()
    }
}

/// An `InnerClasses` attribute.
#[derive(Debug, Clone)]
pub struct InnerClasses {
    pub number_of_classes: ju2,
    pub classes: Vec<InnerClassesClass>,
}

/// The views of a sequence of inner-class entries.
pub open spec fn inner_views(v: Seq<InnerClassesClass>) -> Seq<InnerClassesClassView> {
    v.map_values(|c: InnerClassesClass| c@)
}

/// The reader of the `k`-th entry of the inner-class table at `i`.
pub open spec fn inner_class_fn(s: Seq<u8>, i: int, cp: PoolView) -> spec_fn(int) -> Result<InnerClassesClassView, FormatError> {
    |k: int| inner_class_at(s, i + 2 + 8 * k, cp)
}

/// An `InnerClasses` table at `i`: its classes and its size.
pub open spec fn inner_classes_at(s: Seq<u8>, i: int, cp: PoolView) -> Parsed<(Seq<InnerClassesClassView>, int)> {
    if !fits(s, i, 2) {
        Parsed::Panic
    } else {
        let n = be_u16_at(s, i) as int;
        if !fits(s, i + 2, 8 * n) {
            Parsed::Panic
        } else {
            match collect(n, inner_class_fn(s, i, cp)) {
                Ok(v) => Parsed::Done((v, 2 + 8 * n)),
                Err(e) => Parsed::Fail(e),
            }
        }
    }
}

impl InnerClasses {
    pub fn parse_at(bytes: &[u8], i: usize, cp: &ConstantPool) -> (r: Result<(InnerClasses, usize), FormatError>)
        requires
            reads(inner_classes_at(bytes@, i as int, cp@)),
        ensures
            match inner_classes_at(bytes@, i as int, cp@) {
                Parsed::Done((v, n)) => (r matches Ok((x, m)) && inner_views(x.classes@) == v && m == n
                    && x.number_of_classes == be_u16_at(bytes@, i as int)),
                Parsed::Fail(e) => r == Err::<(InnerClasses, usize), FormatError>(e),
                Parsed::Panic => false,
            },
            r matches Ok((_x, m)) ==> i + m <= bytes@.len(),
    {
        let _len = bytes.len();
        let n = read_u16_at(bytes, i);
        let ghost f = inner_class_fn(bytes@, i as int, cp@);
        let mut classes: Vec<InnerClassesClass> = Vec::new();
        assert(inner_views(classes@) =~= Seq::<InnerClassesClassView>::empty());
        let mut k: usize = 0;
        while k < n as usize
            invariant
                bytes@.len() <= usize::MAX,
                fits(bytes@, i + 2, 8 * n),
                fits(bytes@, i as int, 2),
                n == be_u16_at(bytes@, i as int),
                k <= n,
                f == inner_class_fn(bytes@, i as int, cp@),
                collect(k as int, f) == Ok::<Seq<InnerClassesClassView>, FormatError>(inner_views(classes@)),
            decreases n - k,
        {
            match InnerClassesClass::parse_at(bytes, i + 2 + 8 * k, cp) {
                Ok(c) => {
                    let ghost old_views = inner_views(classes@);
                    let ghost cv = c@;
                    classes.push(c);
                    assert(inner_views(classes@) =~= old_views.push(cv));
                },
                Err(e) => {
                    proof {
                        assert(f(k as int) == inner_class_at(bytes@, i + 2 + 8 * k, cp@));
                        lemma_collect_fail(k as int, n as int, f);
                    }
                    return Err(e);
                },
            }
            k = k + 1;
        }
        Ok((InnerClasses { number_of_classes: n, classes }, 2 + 8 * n as usize))
    }

    pub fn get_inner_classes(&self) -> (r: &Vec<InnerClassesClass>)
        ensures
            r@ == self.classes@,
    {
        &self.classes
    }
}

/// `k` structures read one after the other from `p`, each by `f`; with the
/// position after the last.
pub open spec fn seq_from<T>(p: int, k: int, f: spec_fn(int) -> Parsed<(T, int)>) -> Parsed<(Seq<T>, int)>
    decreases k,
{
    if k <= 0 {
        Parsed::Done((Seq::<T>::empty(), p))
    } else {
        match f(p) {
            Parsed::Done((x, n)) => prepend(seq![x], seq_from(p + n, k - 1, f)),
            Parsed::Fail(e) => Parsed::Fail(e),
            Parsed::Panic => Parsed::Panic,
        }
    }
}

/// Puts `front` before the structures of a reading outcome.
pub open spec fn prepend<T>(front: Seq<T>, p: Parsed<(Seq<T>, int)>) -> Parsed<(Seq<T>, int)> {
    match p {
        Parsed::Done((rest, end)) => Parsed::Done((front + rest, end)),
        Parsed::Fail(e) => Parsed::Fail(e),
        Parsed::Panic => Parsed::Panic,
    }
}

/// Prepending twice is prepending the concatenation.
pub proof fn lemma_prepend_prepend<T>(a: Seq<T>, b: Seq<T>, p: Parsed<(Seq<T>, int)>)
    ensures
        prepend(a, prepend(b, p)) == prepend(a + b, p),
{
    match p {
        Parsed::Done((rest, end)) => {
            assert(a + (b + rest) =~= (a + b) + rest);
        },
        _ => {},
    }
}

/// Prepending nothing changes nothing.
pub proof fn lemma_prepend_empty<T>(p: Parsed<(Seq<T>, int)>)
    ensures
        prepend(Seq::<T>::empty(), p) == p,
{
    match p {
        Parsed::Done((rest, end)) => {
            assert(Seq::<T>::empty() + rest =~= rest);
        },
        _ => {},
    }
}

/// An `EnclosingMethod` attribute, its class and method resolved (the method's
/// name and descriptor are empty when the class is not enclosed by a method).
#[derive(Debug, Clone)]
pub struct EnclosingMethod {
    pub class_name: String,
    pub method_name: String,
    pub method_descriptor: String,
}

/// The mathematical content of an `EnclosingMethod` attribute.
pub struct EnclosingMethodView {
    pub class_name: Seq<char>,
    pub method_name: Seq<char>,
    pub method_descriptor: Seq<char>,
}

impl View for EnclosingMethod {
    type V = EnclosingMethodView;

    open spec fn view(&self) -> EnclosingMethodView {
        EnclosingMethodView {
            class_name: self.class_name@,
            method_name: self.method_name@,
            method_descriptor: self.method_descriptor@,
        }
    }
}

/// The `EnclosingMethod` attribute at `p` (it takes four bytes).
pub open spec fn enclosing_method_at(s: Seq<u8>, p: int, cp: PoolView) -> Result<EnclosingMethodView, FormatError> {
    match cp_class_name(cp, be_u16_at(s, p)) {
        Err(e) => Err(e),
        Ok(c) => {
            let mi = be_u16_at(s, p + 2);
            let nt = if mi == 0 { Ok((Seq::<char>::empty(), Seq::<char>::empty())) } else { cp_name_and_type(cp, mi) };
            match nt {
                Err(e) => Err(e),
                Ok((n, t)) => Ok(EnclosingMethodView { class_name: c, method_name: n, method_descriptor: t }),
            }
        },
    }
}

impl EnclosingMethod {
    pub fn parse_at(bytes: &[u8], p: usize, cp: &ConstantPool) -> (r: Result<(EnclosingMethod, usize), FormatError>)
        requires
            fits(bytes@, p as int, 4),
        ensures
            match enclosing_method_at(bytes@, p as int, cp@) {
                Ok(v) => (r matches Ok((x, n)) && x@ == v && n == 4),
                Err(e) => r == Err::<(EnclosingMethod, usize), FormatError>(e),
            },
    {
        let _len = bytes.len();
        let class_index = read_u16_at(bytes, p);
        let class_name = cp.resolve_class_name(class_index)?;
        let method_index = read_u16_at(bytes, p + 2);
        let (method_name, method_descriptor) = if method_index == 0 {
            (String::new(), String::new())
        } else {
            cp.resolve_name_and_type(method_index)?
        };
        Ok((EnclosingMethod { class_name, method_name, method_descriptor }, 4))
    }

    pub fn get_classname(&self) -> (r: &str)
        ensures
            r@ == self.class_name@,
    {
        self.class_name.as_str()
    }

    /// Whether the recorded method name is empty, as it is for a class that no
    /// method encloses.
    pub fn define_in_method(&self) -> (r: bool)
        ensures
            r == (self.method_name@.len() == 0),
    {
        self.method_name.as_str().unicode_len() == 0
    }

    pub fn get_method_name(&self) -> (r: &str)
        ensures
            r@ == self.method_name@,
    {
        self.method_name.as_str()
    }

    pub fn get_method_descriptor(&self) -> (r: &str)
        ensures
            r@ == self.method_descriptor@,
    {
        self.method_descriptor.as_str()
    }
}

/// One bootstrap method: its method handle and its static arguments.
#[derive(Debug, Clone)]
pub struct BootstrapMethod {
    pub bootstrap_method_ref: ju2,
    pub bootstrap_arguments: Vec<ju2>,
}

/// The mathematical content of a bootstrap method.
pub struct BootstrapMethodView {
    pub bootstrap_method_ref: u16,
    pub bootstrap_arguments: Seq<u16>,
}

impl View for BootstrapMethod {
    type V = BootstrapMethodView;

    open spec fn view(&self) -> BootstrapMethodView {
        BootstrapMethodView { bootstrap_method_ref: self.bootstrap_method_ref, bootstrap_arguments: self.bootstrap_arguments@ }
    }
}

/// The bootstrap method at `p`, with its size.
pub open spec fn bootstrap_method_at(s: Seq<u8>, p: int) -> Parsed<(BootstrapMethodView, int)> {
    if !fits(s, p, 4) {
        Parsed::Panic
    } else {
        let n = be_u16_at(s, p + 2) as int;
        if !fits(s, p + 4, 2 * n) {
            Parsed::Panic
        } else {
            Parsed::Done(
                (BootstrapMethodView { bootstrap_method_ref: be_u16_at(s, p), bootstrap_arguments: u16s_at(s, p + 4, n) }, 4 + 2 * n),
            )
        }
    }
}

impl BootstrapMethod {
    pub fn parse_at(bytes: &[u8], p: usize) -> (r: (BootstrapMethod, usize))
        requires
            reads(bootstrap_method_at(bytes@, p as int)),
        ensures
            bootstrap_method_at(bytes@, p as int) == Parsed::Done((r.0@, r.1 as int)),
    {
        let _len = bytes.len();
        let bootstrap_method_ref = read_u16_at(bytes, p);
        let n = read_u16_at(bytes, p + 2);
        let bootstrap_arguments = read_u16_list(bytes, p + 4, n as usize);
        (BootstrapMethod { bootstrap_method_ref, bootstrap_arguments }, 4 + 2 * n as usize)
    }

    pub fn get_method_ref(&self) -> (r: ju2)
        ensures
            r == self.bootstrap_method_ref,
    {
        self.bootstrap_method_ref
    }

    pub fn get_arguments(&self) -> (r: &Vec<ju2>)
        ensures
            r@ == self.bootstrap_arguments@,
    {
        &self.bootstrap_arguments
    }
}

/// The views of a sequence of bootstrap methods.
pub open spec fn bootstrap_views(v: Seq<BootstrapMethod>) -> Seq<BootstrapMethodView> {
    v.map_values(|b: BootstrapMethod| b@)
}

/// The reader of bootstrap methods over `s`.
pub open spec fn bootstrap_method_fn(s: Seq<u8>) -> spec_fn(int) -> Parsed<(BootstrapMethodView, int)> {
    |p: int| bootstrap_method_at(s, p)
}

/// A `BootstrapMethods` table at `i`: its methods and its size.
pub open spec fn bootstrap_methods_at(s: Seq<u8>, i: int) -> Parsed<(Seq<BootstrapMethodView>, int)> {
    if !fits(s, i, 2) {
        Parsed::Panic
    } else {
        match seq_from(i + 2, be_u16_at(s, i) as int, bootstrap_method_fn(s)) {
            Parsed::Done((v, end)) => Parsed::Done((v, end - i)),
            Parsed::Fail(e) => Parsed::Fail(e),
            Parsed::Panic => Parsed::Panic,
        }
    }
}

/// A `BootstrapMethods` attribute.
#[derive(Debug, Clone)]
pub struct BootstrapMethods {
    pub num_bootstrap_methods: ju2,
    pub bootstrap_methods: Vec<BootstrapMethod>,
}

impl BootstrapMethods {
    pub fn parse_at(bytes: &[u8], i: usize) -> (r: (BootstrapMethods, usize))
        requires
            reads(bootstrap_methods_at(bytes@, i as int)),
        ensures
            r.0.num_bootstrap_methods == be_u16_at(bytes@, i as int),
            bootstrap_methods_at(bytes@, i as int) == Parsed::Done((bootstrap_views(r.0.bootstrap_methods@), r.1 as int)),
            i + r.1 <= bytes@.len(),
    {
        let _len = bytes.len();
        let n = read_u16_at(bytes, i);
        let mut methods: Vec<BootstrapMethod> = Vec::new();
        let mut index: usize = i + 2;
        let mut k: u16 = 0;
        let ghost f = bootstrap_method_fn(bytes@);
        let ghost whole = seq_from(i + 2, n as int, f);
        proof {
            lemma_prepend_empty(whole);
            assert(bootstrap_views(methods@) =~= Seq::<BootstrapMethodView>::empty());
        }
        while k < n
            invariant
                bytes@.len() <= usize::MAX,
                fits(bytes@, i as int, 2),
                n == be_u16_at(bytes@, i as int),
                k <= n,
                i + 2 <= index <= bytes@.len(),
                f == bootstrap_method_fn(bytes@),
                whole == seq_from(i + 2, n as int, f),
                reads(whole),
                whole == prepend(bootstrap_views(methods@), seq_from(index as int, n - k, f)),
            decreases n - k,
        {
            assert(f(index as int) == bootstrap_method_at(bytes@, index as int));
            let ghost rest = seq_from(index as int, n - k, f);
            let ghost old_views = bootstrap_views(methods@);
            proof {
                lemma_prepend_prepend(old_views, seq![bootstrap_method_at(bytes@, index as int)->Done_0.0], seq_from(index + bootstrap_method_at(bytes@, index as int)->Done_0.1, n - k - 1, f));
            }
            let (m, size) = BootstrapMethod::parse_at(bytes, index);
            let ghost mv = m@;
            methods.push(m);
            assert(bootstrap_views(methods@) =~= old_views + seq![mv]);
            index = index + size;
            k = k + 1;
        }
        (BootstrapMethods { num_bootstrap_methods: n, bootstrap_methods: methods }, index - i)
    }

    /// The bootstrap method at position `index` of the table.
    pub fn get(&self, index: usize) -> (r: &BootstrapMethod)
        requires
            index < self.bootstrap_methods@.len(),
        ensures
            *r == self.bootstrap_methods@[index as int],
    {
        &self.bootstrap_methods[index]
    }
}

/// The kind of a verification type of a stack map frame.
#[derive(Debug, Clone, Copy, PartialEq, Eq, Structural)]
pub enum VerificationTypeInfoEnum {
    Top,
    Integer,
    Float,
    Long,
    Double,
    Null,
    UninitializedThis,
    Object { cpool_index: ju2 },
    Uninitialized { offset: ju2 },
}

/// A verification type of a stack map frame, with its tag.
#[derive(Debug, Clone, Copy, PartialEq, Eq, Structural)]
pub struct VerificationTypeInfo {
    pub tag: ju1,
    pub info: VerificationTypeInfoEnum,
}

/// The verification type at `p`, with its size.
pub open spec fn verification_type_at(s: Seq<u8>, p: int) -> Parsed<(VerificationTypeInfo, int)> {
    if !fits(s, p, 1) {
        Parsed::Panic
    } else {
        let tag = s[p];
        if tag <= 6 {
            let info = if tag == 0 {
                VerificationTypeInfoEnum::Top
            } else if tag == 1 {
                VerificationTypeInfoEnum::Integer
            } else if tag == 2 {
                VerificationTypeInfoEnum::Float
            } else if tag == 3 {
                VerificationTypeInfoEnum::Double
            } else if tag == 4 {
                VerificationTypeInfoEnum::Long
            } else if tag == 5 {
                VerificationTypeInfoEnum::Null
            } else {
                VerificationTypeInfoEnum::UninitializedThis
            };
            Parsed::Done((VerificationTypeInfo { tag, info }, 1))
        } else if tag == 7 || tag == 8 {
            if !fits(s, p + 1, 2) {
                Parsed::Panic
            } else {
                let v = be_u16_at(s, p + 1);
                let info = if tag == 7 {
                    VerificationTypeInfoEnum::Object { cpool_index: v }
                } else {
                    VerificationTypeInfoEnum::Uninitialized { offset: v }
                };
                Parsed::Done((VerificationTypeInfo { tag, info }, 3))
            }
        } else {
            Parsed::Fail(FormatError::UnknownVerificationType(tag))
        }
    }
}

impl VerificationTypeInfo {
    pub fn parse_at(bytes: &[u8], p: usize) -> (r: Result<(VerificationTypeInfo, usize), FormatError>)
        requires
            reads(verification_type_at(bytes@, p as int)),
        ensures
            match verification_type_at(bytes@, p as int) {
                Parsed::Done((v, n)) => r == Ok::<(VerificationTypeInfo, usize), FormatError>((v, n as usize)),
                Parsed::Fail(e) => r == Err::<(VerificationTypeInfo, usize), FormatError>(e),
                Parsed::Panic => false,
            },
    {
        let _len = bytes.len();
        let tag = bytes[p];
        let (info, bytes_read) = if tag == 0 {
            (VerificationTypeInfoEnum::Top, 0)
        } else if tag == 1 {
            (VerificationTypeInfoEnum::Integer, 0)
        } else if tag == 2 {
            (VerificationTypeInfoEnum::Float, 0)
        } else if tag == 3 {
            (VerificationTypeInfoEnum::Double, 0)
        } else if tag == 4 {
            (VerificationTypeInfoEnum::Long, 0)
        } else if tag == 5 {
            (VerificationTypeInfoEnum::Null, 0)
        } else if tag == 6 {
            (VerificationTypeInfoEnum::UninitializedThis, 0)
        } else if tag == 7 {
            (VerificationTypeInfoEnum::Object { cpool_index: read_u16_at(bytes, p + 1) }, 2)
        } else if tag == 8 {
            (VerificationTypeInfoEnum::Uninitialized { offset: read_u16_at(bytes, p + 1) }, 2)
        } else {
            return Err(FormatError::UnknownVerificationType(tag));
        };
        Ok((VerificationTypeInfo { tag, info }, bytes_read + 1))
    }
}

/// The reader of verification types over `s`.
pub open spec fn verification_type_fn(s: Seq<u8>) -> spec_fn(int) -> Parsed<(VerificationTypeInfo, int)> {
    |p: int| verification_type_at(s, p)
}

/// Reads `n` verification types one after the other from `p`; gives them and the
/// position after the last.
fn parse_verification_types(bytes: &[u8], p: usize, n: usize) -> (r: Result<(Vec<VerificationTypeInfo>, usize), FormatError>)
    requires
        reads(seq_from(p as int, n as int, verification_type_fn(bytes@))),
    ensures
        match seq_from(p as int, n as int, verification_type_fn(bytes@)) {
            Parsed::Done((v, end)) => (r matches Ok((x, e)) && x@ == v && e == end),
            Parsed::Fail(e) => r == Err::<(Vec<VerificationTypeInfo>, usize), FormatError>(e),
            Parsed::Panic => false,
        },
        r matches Ok((_x, e)) ==> e == p || e <= bytes@.len(),
{
    let _len = bytes.len();
    let ghost f = verification_type_fn(bytes@);
    let ghost whole = seq_from(p as int, n as int, f);
    let mut v: Vec<VerificationTypeInfo> = Vec::new();
    let mut index = p;
    let mut k: usize = 0;
    proof {
        lemma_prepend_empty(whole);
        assert(v@ =~= Seq::<VerificationTypeInfo>::empty());
    }
    while k < n
        invariant
            bytes@.len() <= usize::MAX,
            k <= n,
            index == p || index <= bytes@.len(),
            f == verification_type_fn(bytes@),
            whole == seq_from(p as int, n as int, f),
            reads(whole),
            whole == prepend(v@, seq_from(index as int, n - k, f)),
        decreases n - k,
    {
        assert(f(index as int) == verification_type_at(bytes@, index as int));
        let ghost old_v = v@;
        match VerificationTypeInfo::parse_at(bytes, index) {
            Ok((info, size)) => {
                proof {
                    lemma_prepend_prepend(old_v, seq![info], seq_from(index + size, n - k - 1, f));
                }
                v.push(info);
                assert(v@ =~= old_v + seq![info]);
                index = index + size;
                k = k + 1;
            },
            Err(e) => {
                return Err(e);
            },
        }
    }
    assert(v@ + Seq::<VerificationTypeInfo>::empty() =~= v@);
    Ok((v, index))
}

/// The kind of a stack map frame with what it carries.
#[derive(Debug, Clone)]
pub enum StackMapFrameEnum {
    SameFrame,
    SameLocals1StackItemFrame { stack: Vec<VerificationTypeInfo> },
    SameLocals1StackItemFrameExtended { offset_delta: ju2, stack: Vec<VerificationTypeInfo> },
    ChopFrame { offset_delta: ju2 },
    SameFrameExtended { offset_delta: ju2 },
    AppendFrame { offset_delta: ju2, locals: Vec<VerificationTypeInfo> },
    FullFrame {
        offset_delta: ju2,
        number_of_locals: ju2,
        locals: Vec<VerificationTypeInfo>,
        number_of_stack_items: ju2,
        stack: Vec<VerificationTypeInfo>,
    },
}

/// The mathematical content of a stack map frame's kind.
pub enum StackMapFrameKind {
    SameFrame,
    SameLocals1StackItemFrame { stack: Seq<VerificationTypeInfo> },
    SameLocals1StackItemFrameExtended { offset_delta: u16, stack: Seq<VerificationTypeInfo> },
    ChopFrame { offset_delta: u16 },
    SameFrameExtended { offset_delta: u16 },
    AppendFrame { offset_delta: u16, locals: Seq<VerificationTypeInfo> },
    FullFrame {
        offset_delta: u16,
        number_of_locals: u16,
        locals: Seq<VerificationTypeInfo>,
        number_of_stack_items: u16,
        stack: Seq<VerificationTypeInfo>,
    },
}

impl View for StackMapFrameEnum {
    type V = StackMapFrameKind;

    open spec fn view(&self) -> StackMapFrameKind {
        match self {
            StackMapFrameEnum::SameFrame => StackMapFrameKind::SameFrame,
            StackMapFrameEnum::SameLocals1StackItemFrame { stack } => StackMapFrameKind::SameLocals1StackItemFrame { stack: stack@ },
            StackMapFrameEnum::SameLocals1StackItemFrameExtended { offset_delta, stack } => StackMapFrameKind::SameLocals1StackItemFrameExtended {
                offset_delta: *offset_delta,
                stack: stack@,
            },
            StackMapFrameEnum::ChopFrame { offset_delta } => StackMapFrameKind::ChopFrame { offset_delta: *offset_delta },
            StackMapFrameEnum::SameFrameExtended { offset_delta } => StackMapFrameKind::SameFrameExtended { offset_delta: *offset_delta },
            StackMapFrameEnum::AppendFrame { offset_delta, locals } => StackMapFrameKind::AppendFrame {
                offset_delta: *offset_delta,
                locals: locals@,
            },
            StackMapFrameEnum::FullFrame { offset_delta, number_of_locals, locals, number_of_stack_items, stack } => StackMapFrameKind::FullFrame {
                offset_delta: *offset_delta,
                number_of_locals: *number_of_locals,
                locals: locals@,
                number_of_stack_items: *number_of_stack_items,
                stack: stack@,
            },
        }
    }
}

/// A stack map frame: its type byte and its kind.
#[derive(Debug, Clone)]
pub struct StackMapFrame {
    pub frame_type: ju1,
    pub frame_enum: StackMapFrameEnum,
}

/// The mathematical content of a stack map frame.
pub struct StackMapFrameView {
    pub frame_type: u8,
    pub kind: StackMapFrameKind,
}

impl View for StackMapFrame {
    type V = StackMapFrameView;

    open spec fn view(&self) -> StackMapFrameView {
        StackMapFrameView { frame_type: self.frame_type, kind: self.frame_enum@ }
    }
}

/// The stack map frame at `p`, with its size.
pub open spec fn stack_map_frame_at(s: Seq<u8>, p: int) -> Parsed<(StackMapFrameView, int)> {
    if !fits(s, p, 1) {
        Parsed::Panic
    } else {
        let ft = s[p];
        if ft <= 63 {
            Parsed::Done((StackMapFrameView { frame_type: ft, kind: StackMapFrameKind::SameFrame }, 1))
        } else if ft <= 127 {
            match verification_type_at(s, p + 1) {
                Parsed::Done((v, n)) => Parsed::Done(
                    (StackMapFrameView { frame_type: ft, kind: StackMapFrameKind::SameLocals1StackItemFrame { stack: seq![v] } }, 1 + n),
                ),
                Parsed::Fail(e) => Parsed::Fail(e),
                Parsed::Panic => Parsed::Panic,
            }
        } else if ft <= 246 {
            Parsed::Fail(FormatError::UnknownStackMapFrame(ft))
        } else if !fits(s, p + 1, 2) {
            Parsed::Panic
        } else {
            let offset_delta = be_u16_at(s, p + 1);
            if ft == 247 {
                match verification_type_at(s, p + 3) {
                    Parsed::Done((v, n)) => Parsed::Done(
                        (
                            StackMapFrameView {
                                frame_type: ft,
                                kind: StackMapFrameKind::SameLocals1StackItemFrameExtended { offset_delta, stack: seq![v] },
                            },
                            3 + n,
                        ),
                    ),
                    Parsed::Fail(e) => Parsed::Fail(e),
                    Parsed::Panic => Parsed::Panic,
                }
            } else if ft <= 250 {
                Parsed::Done((StackMapFrameView { frame_type: ft, kind: StackMapFrameKind::ChopFrame { offset_delta } }, 3))
            } else if ft == 251 {
                Parsed::Done((StackMapFrameView { frame_type: ft, kind: StackMapFrameKind::SameFrameExtended { offset_delta } }, 3))
            } else if ft <= 254 {
                match seq_from(p + 3, ft - 251, verification_type_fn(s)) {
                    Parsed::Done((locals, end)) => Parsed::Done(
                        (
                            StackMapFrameView {
                                frame_type: ft,
                                kind: StackMapFrameKind::AppendFrame { offset_delta, locals },
                            },
                            end - p,
                        ),
                    ),
                    Parsed::Fail(e) => Parsed::Fail(e),
                    Parsed::Panic => Parsed::Panic,
                }
            } else if !fits(s, p + 3, 2) {
                Parsed::Panic
            } else {
                let nl = be_u16_at(s, p + 3);
                match seq_from(p + 5, nl as int, verification_type_fn(s)) {
                    Parsed::Done((locals, e1)) => if !fits(s, e1, 2) {
                        Parsed::Panic
                    } else {
                        let ns = be_u16_at(s, e1);
                        match seq_from(e1 + 2, ns as int, verification_type_fn(s)) {
                            Parsed::Done((stack, e2)) => Parsed::Done(
                                (
                                    StackMapFrameView {
                                        frame_type: ft,
                                        kind: StackMapFrameKind::FullFrame {
                                            offset_delta,
                                            number_of_locals: nl,
                                            locals,
                                            number_of_stack_items: ns,
                                            stack,
                                        },
                                    },
                                    e2 - p,
                                ),
                            ),
                            Parsed::Fail(e) => Parsed::Fail(e),
                            Parsed::Panic => Parsed::Panic,
                        }
                    },
                    Parsed::Fail(e) => Parsed::Fail(e),
                    Parsed::Panic => Parsed::Panic,
                }
            }
        }
    }
}

/// A reading of `k` structures from `p` never ends before `p`.
pub proof fn lemma_seq_from_end<T>(p: int, k: int, f: spec_fn(int) -> Parsed<(T, int)>)
    requires
        forall|q: int| #[trigger] f(q) matches Parsed::Done((_x, n)) ==> n >= 0,
        seq_from(p, k, f) is Done,
    ensures
        seq_from(p, k, f)->Done_0.1 >= p,
    decreases k,
{
    if k > 0 {
        let n = f(p)->Done_0.1;
        lemma_seq_from_end(p + n, k - 1, f);
    }
}

impl StackMapFrame {
    pub fn parse_at(bytes: &[u8], p: usize) -> (r: Result<(StackMapFrame, usize), FormatError>)
        requires
            reads(stack_map_frame_at(bytes@, p as int)),
        ensures
            match stack_map_frame_at(bytes@, p as int) {
                Parsed::Done((v, n)) => (r matches Ok((x, m)) && x@ == v && m == n),
                Parsed::Fail(e) => r == Err::<(StackMapFrame, usize), FormatError>(e),
                Parsed::Panic => false,
            },
            r matches Ok((_x, m)) ==> p + m <= bytes@.len(),
    {
        let _len = bytes.len();
        let frame_type = bytes[p];
        let (frame_enum, bytes_read) = if frame_type <= 63 {
            (StackMapFrameEnum::SameFrame, 0)
        } else if frame_type <= 127 {
            let (verinfo, n) = VerificationTypeInfo::parse_at(bytes, p + 1)?;
            let mut stack: Vec<VerificationTypeInfo> = Vec::new();
            stack.push(verinfo);
            (StackMapFrameEnum::SameLocals1StackItemFrame { stack }, n)
        } else if frame_type <= 246 {
            return Err(FormatError::UnknownStackMapFrame(frame_type));
        } else if frame_type == 247 {
            let offset_delta = read_u16_at(bytes, p + 1);
            let (verinfo, n) = VerificationTypeInfo::parse_at(bytes, p + 3)?;
            let mut stack: Vec<VerificationTypeInfo> = Vec::new();
            stack.push(verinfo);
            (StackMapFrameEnum::SameLocals1StackItemFrameExtended { offset_delta, stack }, n + 2)
        } else if frame_type <= 250 {
            let offset_delta = read_u16_at(bytes, p + 1);
            (StackMapFrameEnum::ChopFrame { offset_delta }, 2)
        } else if frame_type == 251 {
            let offset_delta = read_u16_at(bytes, p + 1);
            (StackMapFrameEnum::SameFrameExtended { offset_delta }, 2)
        } else if frame_type <= 254 {
            let offset_delta = read_u16_at(bytes, p + 1);
            let num_locals = frame_type - 251;
            let (locals, end) = parse_verification_types(bytes, p + 3, num_locals as usize)?;
            proof {
                lemma_seq_from_end(p + 3, num_locals as int, verification_type_fn(bytes@));
            }
            (StackMapFrameEnum::AppendFrame { offset_delta, locals }, end - p - 1)
        } else {
            let offset_delta = read_u16_at(bytes, p + 1);
            let number_of_locals = read_u16_at(bytes, p + 3);
            let (locals, e1) = parse_verification_types(bytes, p + 5, number_of_locals as usize)?;
            proof {
                lemma_seq_from_end(p + 5, number_of_locals as int, verification_type_fn(bytes@));
            }
            let number_of_stack_items = read_u16_at(bytes, e1);
            let (stack, e2) = parse_verification_types(bytes, e1 + 2, number_of_stack_items as usize)?;
            proof {
                lemma_seq_from_end(e1 + 2, number_of_stack_items as int, verification_type_fn(bytes@));
            }
            (
                StackMapFrameEnum::FullFrame { offset_delta, number_of_locals, locals, number_of_stack_items, stack },
                e2 - p - 1,
            )
        };
        Ok((StackMapFrame { frame_type, frame_enum }, bytes_read + 1))
    }
}

/// The views of a sequence of stack map frames.
pub open spec fn frame_views(v: Seq<StackMapFrame>) -> Seq<StackMapFrameView> {
    v.map_values(|f: StackMapFrame| f@)
}

/// The reader of stack map frames over `s`.
pub open spec fn stack_map_frame_fn(s: Seq<u8>) -> spec_fn(int) -> Parsed<(StackMapFrameView, int)> {
    |p: int| stack_map_frame_at(s, p)
}

/// A `StackMapTable` at `i`: its frames and its size.
pub open spec fn stack_map_table_at(s: Seq<u8>, i: int) -> Parsed<(Seq<StackMapFrameView>, int)> {
    if !fits(s, i, 2) {
        Parsed::Panic
    } else {
        match seq_from(i + 2, be_u16_at(s, i) as int, stack_map_frame_fn(s)) {
            Parsed::Done((v, end)) => Parsed::Done((v, end - i)),
            Parsed::Fail(e) => Parsed::Fail(e),
            Parsed::Panic => Parsed::Panic,
        }
    }
}

/// A `StackMapTable` attribute.
#[derive(Debug, Clone)]
pub struct StackMapTable {
    pub number_of_entries: ju2,
    pub entries: Vec<StackMapFrame>,
}

impl StackMapTable {
    pub fn parse_at(bytes: &[u8], i: usize) -> (r: Result<(StackMapTable, usize), FormatError>)
        requires
            reads(stack_map_table_at(bytes@, i as int)),
        ensures
            match stack_map_table_at(bytes@, i as int) {
                Parsed::Done((v, n)) => (r matches Ok((x, m)) && frame_views(x.entries@) == v && m == n
                    && x.number_of_entries == be_u16_at(bytes@, i as int)),
                Parsed::Fail(e) => r == Err::<(StackMapTable, usize), FormatError>(e),
                Parsed::Panic => false,
            },
            r matches Ok((_x, m)) ==> i + m <= bytes@.len(),
    {
        let _len = bytes.len();
        let n = read_u16_at(bytes, i);
        let mut entries: Vec<StackMapFrame> = Vec::new();
        let mut index: usize = i + 2;
        let mut k: u16 = 0;
        let ghost f = stack_map_frame_fn(bytes@);
        let ghost whole = seq_from(i + 2, n as int, f);
        proof {
            lemma_prepend_empty(whole);
            assert(frame_views(entries@) =~= Seq::<StackMapFrameView>::empty());
        }
        while k < n
            invariant
                bytes@.len() <= usize::MAX,
                fits(bytes@, i as int, 2),
                n == be_u16_at(bytes@, i as int),
                k <= n,
                i + 2 <= index <= bytes@.len(),
                f == stack_map_frame_fn(bytes@),
                whole == seq_from(i + 2, n as int, f),
                reads(whole),
                whole == prepend(frame_views(entries@), seq_from(index as int, n - k, f)),
            decreases n - k,
        {
            assert(f(index as int) == stack_map_frame_at(bytes@, index as int));
            let ghost old_views = frame_views(entries@);
            match StackMapFrame::parse_at(bytes, index) {
                Ok((entry, size)) => {
                    proof {
                        lemma_prepend_prepend(old_views, seq![entry@], seq_from(index + size, n - k - 1, f));
                    }
                    let ghost ev = entry@;
                    entries.push(entry);
                    assert(frame_views(entries@) =~= old_views + seq![ev]);
                    index = index + size;
                    k = k + 1;
                },
                Err(e) => {
                    return Err(e);
                },
            }
        }
        assert(frame_views(entries@) + Seq::<StackMapFrameView>::empty() =~= frame_views(entries@));
        Ok((StackMapTable { number_of_entries: n, entries }, index - i))
    }
}

} // verus!



