use vstd::prelude::*;

use crate::class_loader::annotations::{
    AnnotationView, RuntimeInvisibleAnnotations, RuntimeVisibleAnnotations, annotation_views, annotations_table_at,
};
use crate::class_loader::attributes::{
    BootstrapMethodView, BootstrapMethods, ConstantValue, EnclosingMethod, EnclosingMethodView, ExceptionTableEntry,
    ExceptionTableEntryView, Exceptions, InnerClasses, InnerClassesClassView, LineNumberTable, LineNumberTableEntry,
    LocalVariableTable, LocalVariableTableEntry, MethodParameter, MethodParameters, NestHost, NestMembers,
    PermittedSubclasses, Signature, SourceFile, StackMapFrameView, StackMapTable, bootstrap_methods_at,
    bootstrap_views, enclosing_method_at, exception_entry_at, fits, frame_views, index_table_at, inner_classes_at,
    inner_views, lemma_prepend_empty, lemma_prepend_prepend, lemma_seq_from_end, line_number_table_at,
    local_variable_table_at, method_parameters_at, prepend, seq_from, stack_map_table_at,
};
use crate::class_loader::constant_pool::{ConstantPool, PoolView, cp_name};
use crate::class_loader::format::{FormatError, Parsed, reads};
use crate::text::str_eq;
use crate::utils::{be_u16_at, be_u32_at, ju1, ju2, ju4, read_u16_at, read_u32_at};

verus! {

/// A `Code` attribute: limits, the bytecode, the exception table and the
/// attributes of the code.
#[derive(Debug)]
pub struct Code {
    pub max_stack: ju2,
    pub max_locals: ju2,
    pub code_length: ju4,
    pub code: Vec<ju1>,
    pub exception_table: Vec<ExceptionTableEntry>,
    pub attributes: Attributes,
}

/// One component of a `Record` attribute.
#[derive(Debug)]
pub struct RecordComponent {
    pub name_index: ju2,
    pub descriptor_index: ju2,
    pub attributes: Attributes,
}

/// A `Record` attribute.
#[derive(Debug)]
pub struct Record {
    pub components_count: ju2,
    pub components: Vec<RecordComponent>,
}

/// What an attribute holds, by its kind.
#[derive(Debug)]
pub enum AttributeInfoInfoEnum {
    Raw(Vec<ju1>),
    ConstantValue(ConstantValue),
    Code(Code),
    StackMapTable(StackMapTable),
    BootstrapMethods(BootstrapMethods),
    NestHost(NestHost),
    NestMembers(NestMembers),
    PermittedSubclasses(PermittedSubclasses),
    Exceptions(Exceptions),
    InnerClasses(InnerClasses),
    EnclosingMethod(EnclosingMethod),
    Synthetic,
    Signature(Signature),
    Record(Record),
    SourceFile(SourceFile),
    LineNumberTable(LineNumberTable),
    LocalVariableTable(LocalVariableTable),
    LocalVariableTypeTable,
    SourceDebugExtension,
    Deprecated,
    RuntimeVisibleAnnotations(RuntimeVisibleAnnotations),
    RuntimeInvisibleAnnotations(RuntimeInvisibleAnnotations),
    RuntimeVisibleParameterAnnotations,
    RuntimeInvisibleParameterAnnotations,
    RuntimeVisibleTypeAnnotations,
    RuntimeInvisibleTypeAnnotations,
    AnnotationDefault,
    MethodParameters(MethodParameters),
    Module,
    ModulePackages,
    ModuleMainClass,
}

/// An attribute: its name (resolved in the constant pool), the name's index, its
/// declared length and what it holds.
#[derive(Debug)]
pub struct AttributeInfo {
    pub attribute_name: String,
    pub attribute_name_index: ju2,
    pub attribute_length: ju4,
    pub info: AttributeInfoInfoEnum,
}

/// The attributes of a class, a field, a method, a `Code` attribute or a record
/// component, in the order in which they were read.
#[derive(Debug)]
pub struct Attributes {
    pub attributes: Vec<AttributeInfo>,
}

/// The mathematical content of a `Code` attribute.
pub struct CodeView {
    pub max_stack: u16,
    pub max_locals: u16,
    pub code_length: u32,
    pub code: Seq<u8>,
    pub exception_table: Seq<ExceptionTableEntryView>,
    pub attributes: Seq<AttributeView>,
}

/// The mathematical content of a record component.
pub struct RecordComponentView {
    pub name_index: u16,
    pub descriptor_index: u16,
    pub attributes: Seq<AttributeView>,
}

/// The mathematical content of a `Record` attribute.
pub struct RecordView {
    pub components_count: u16,
    pub components: Seq<RecordComponentView>,
}

/// The mathematical content of what an attribute holds.
pub enum AttributeKind {
    Raw(Seq<u8>),
    ConstantValue(ConstantValue),
    Code(CodeView),
    StackMapTable { number_of_entries: u16, entries: Seq<StackMapFrameView> },
    BootstrapMethods { num_bootstrap_methods: u16, bootstrap_methods: Seq<BootstrapMethodView> },
    NestHost(NestHost),
    NestMembers { number_of_classes: u16, classes: Seq<u16> },
    PermittedSubclasses { number_of_classes: u16, classes: Seq<u16> },
    Exceptions { exception_index_table: Seq<u16> },
    InnerClasses { number_of_classes: u16, classes: Seq<InnerClassesClassView> },
    EnclosingMethod(EnclosingMethodView),
    Synthetic,
    Signature(Signature),
    Record(RecordView),
    SourceFile(SourceFile),
    LineNumberTable { line_number_table_length: u16, line_number_table: Seq<LineNumberTableEntry> },
    LocalVariableTable { local_variable_table_length: u16, local_variable_table: Seq<LocalVariableTableEntry> },
    LocalVariableTypeTable,
    SourceDebugExtension,
    Deprecated,
    RuntimeVisibleAnnotations { num_annotations: u16, annotations: Seq<AnnotationView> },
    RuntimeInvisibleAnnotations { num_annotations: u16, annotations: Seq<AnnotationView> },
    RuntimeVisibleParameterAnnotations,
    RuntimeInvisibleParameterAnnotations,
    RuntimeVisibleTypeAnnotations,
    RuntimeInvisibleTypeAnnotations,
    AnnotationDefault,
    MethodParameters { parameters_count: u8, parameters: Seq<MethodParameter> },
    Module,
    ModulePackages,
    ModuleMainClass,
}

/// The mathematical content of an attribute.
pub struct AttributeView {
    pub name: Seq<char>,
    pub name_index: u16,
    pub length: u32,
    pub info: AttributeKind,
}

/// The contents of a sequence of attributes.
pub open spec fn attribute_views(v: Seq<AttributeInfo>) -> Seq<AttributeView>
    decreases v,
{
    Seq::new(
        v.len(),
        |i: int|
            if 0 <= i < v.len() {
                attribute_view(v[i])
            } else {
                AttributeView { name: Seq::empty(), name_index: 0, length: 0, info: AttributeKind::Synthetic }
            },
    )
}

/// The content of an attribute.
pub open spec fn attribute_view(a: AttributeInfo) -> AttributeView
    decreases a,
{
    AttributeView {
        name: a.attribute_name@,
        name_index: a.attribute_name_index,
        length: a.attribute_length,
        info: kind_view(a.info),
    }
}

/// The content of a `Code` attribute.
pub open spec fn code_view(c: Code) -> CodeView
    decreases c,
{
    CodeView {
        max_stack: c.max_stack,
        max_locals: c.max_locals,
        code_length: c.code_length,
        code: c.code@,
        exception_table: c.exception_table@.map_values(|e: ExceptionTableEntry| e@),
        attributes: attribute_views(c.attributes.attributes@),
    }
}

/// The contents of a sequence of record components.
pub open spec fn record_component_views(v: Seq<RecordComponent>) -> Seq<RecordComponentView>
    decreases v,
{
    Seq::new(
        v.len(),
        |i: int|
            if 0 <= i < v.len() {
                RecordComponentView {
                    name_index: v[i].name_index,
                    descriptor_index: v[i].descriptor_index,
                    attributes: attribute_views(v[i].attributes.attributes@),
                }
            } else {
                RecordComponentView { name_index: 0, descriptor_index: 0, attributes: Seq::empty() }
            },
    )
}

/// The content of a `Record` attribute.
pub open spec fn record_view(r: Record) -> RecordView
    decreases r,
{
    RecordView { components_count: r.components_count, components: record_component_views(r.components@) }
}

/// The content of what an attribute holds.
pub open spec fn kind_view(info: AttributeInfoInfoEnum) -> AttributeKind
    decreases info,
{
    match info {
        AttributeInfoInfoEnum::Raw(v) => AttributeKind::Raw(v@),
        AttributeInfoInfoEnum::ConstantValue(c) => AttributeKind::ConstantValue(c),
        AttributeInfoInfoEnum::Code(c) => AttributeKind::Code(code_view(c)),
        AttributeInfoInfoEnum::StackMapTable(t) => AttributeKind::StackMapTable {
            number_of_entries: t.number_of_entries,
            entries: frame_views(t.entries@),
        },
        AttributeInfoInfoEnum::BootstrapMethods(b) => AttributeKind::BootstrapMethods {
            num_bootstrap_methods: b.num_bootstrap_methods,
            bootstrap_methods: bootstrap_views(b.bootstrap_methods@),
        },
        AttributeInfoInfoEnum::NestHost(h) => AttributeKind::NestHost(h),
        AttributeInfoInfoEnum::NestMembers(m) => AttributeKind::NestMembers {
            number_of_classes: m.number_of_classes,
            classes: m.classes@,
        },
        AttributeInfoInfoEnum::PermittedSubclasses(m) => AttributeKind::PermittedSubclasses {
            number_of_classes: m.number_of_classes,
            classes: m.classes@,
        },
        AttributeInfoInfoEnum::Exceptions(e) => AttributeKind::Exceptions { exception_index_table: e.exception_index_table@ },
        AttributeInfoInfoEnum::InnerClasses(c) => AttributeKind::InnerClasses {
            number_of_classes: c.number_of_classes,
            classes: inner_views(c.classes@),
        },
        AttributeInfoInfoEnum::EnclosingMethod(m) => AttributeKind::EnclosingMethod(m@),
        AttributeInfoInfoEnum::Synthetic => AttributeKind::Synthetic,
        AttributeInfoInfoEnum::Signature(s) => AttributeKind::Signature(s),
        AttributeInfoInfoEnum::Record(r) => AttributeKind::Record(record_view(r)),
        AttributeInfoInfoEnum::SourceFile(s) => AttributeKind::SourceFile(s),
        AttributeInfoInfoEnum::LineNumberTable(t) => AttributeKind::LineNumberTable {
            line_number_table_length: t.line_number_table_length,
            line_number_table: t.line_number_table@,
        },
        AttributeInfoInfoEnum::LocalVariableTable(t) => AttributeKind::LocalVariableTable {
            local_variable_table_length: t.local_variable_table_length,
            local_variable_table: t.local_variable_table@,
        },
        AttributeInfoInfoEnum::LocalVariableTypeTable => AttributeKind::LocalVariableTypeTable,
        AttributeInfoInfoEnum::SourceDebugExtension => AttributeKind::SourceDebugExtension,
        AttributeInfoInfoEnum::Deprecated => AttributeKind::Deprecated,
        AttributeInfoInfoEnum::RuntimeVisibleAnnotations(a) => AttributeKind::RuntimeVisibleAnnotations {
            num_annotations: a.num_annotations,
            annotations: annotation_views(a.annotations@),
        },
        AttributeInfoInfoEnum::RuntimeInvisibleAnnotations(a) => AttributeKind::RuntimeInvisibleAnnotations {
            num_annotations: a.num_annotations,
            annotations: annotation_views(a.annotations@),
        },
        AttributeInfoInfoEnum::RuntimeVisibleParameterAnnotations => AttributeKind::RuntimeVisibleParameterAnnotations,
        AttributeInfoInfoEnum::RuntimeInvisibleParameterAnnotations => AttributeKind::RuntimeInvisibleParameterAnnotations,
        AttributeInfoInfoEnum::RuntimeVisibleTypeAnnotations => AttributeKind::RuntimeVisibleTypeAnnotations,
        AttributeInfoInfoEnum::RuntimeInvisibleTypeAnnotations => AttributeKind::RuntimeInvisibleTypeAnnotations,
        AttributeInfoInfoEnum::AnnotationDefault => AttributeKind::AnnotationDefault,
        AttributeInfoInfoEnum::MethodParameters(m) => AttributeKind::MethodParameters {
            parameters_count: m.parameters_count,
            parameters: m.parameters@,
        },
        AttributeInfoInfoEnum::Module => AttributeKind::Module,
        AttributeInfoInfoEnum::ModulePackages => AttributeKind::ModulePackages,
        AttributeInfoInfoEnum::ModuleMainClass => AttributeKind::ModuleMainClass,
    }
}

impl View for AttributeInfo {
    type V = AttributeView;

    open spec fn view(&self) -> AttributeView {
        attribute_view(*self)
    }
}

impl View for Attributes {
    type V = Seq<AttributeView>;

    open spec fn view(&self) -> Seq<AttributeView> {
        attribute_views(self.attributes@)
    }
}

impl View for Code {
    type V = CodeView;

    open spec fn view(&self) -> CodeView {
        code_view(*self)
    }
}

impl View for Record {
    type V = RecordView;

    open spec fn view(&self) -> RecordView {
        record_view(*self)
    }
}

/// What a reading gives, mapped by `f`, its size kept.
pub open spec fn map_parsed<A, B>(p: Parsed<(A, int)>, f: spec_fn(A) -> B) -> Parsed<(B, int)> {
    match p {
        Parsed::Done((a, n)) => Parsed::Done((f(a), n)),
        Parsed::Fail(e) => Parsed::Fail(e),
        Parsed::Panic => Parsed::Panic,
    }
}

/// The reader of exception-table entries over `s`: eight bytes each, the catch
/// type resolved in the constant pool.
pub open spec fn exception_entry_fn(s: Seq<u8>, cp: PoolView) -> spec_fn(int) -> Parsed<(ExceptionTableEntryView, int)> {
    |q: int|
        if !fits(s, q, 8) {
            Parsed::Panic
        } else {
            match exception_entry_at(s, q, cp) {
                Ok(v) => Parsed::Done((v, 8)),
                Err(e) => Parsed::Fail(e),
            }
        }
}

/// The `Code` attribute whose content starts at `p`, with its size. The bytecode
/// is the `code_length` bytes after the three length fields.
pub open spec fn code_at(s: Seq<u8>, p: int, cp: PoolView) -> Parsed<(CodeView, int)>
    decreases s.len() - p, 0int,
{
    if !fits(s, p, 8) {
        Parsed::Panic
    } else {
        let cl = be_u32_at(s, p + 4);
        let q = p + 8 + cl;
        if !fits(s, q, 2) {
            Parsed::Panic
        } else {
            let etl = be_u16_at(s, q);
            match seq_from(q + 2, etl as int, exception_entry_fn(s, cp)) {
                Parsed::Done((table, end)) => if !fits(s, end, 2) {
                    Parsed::Panic
                } else {
                    proof {
                        lemma_seq_from_end(q + 2, etl as int, exception_entry_fn(s, cp));
                    }
                    match attributes_at(s, end, cp) {
                        Parsed::Done((attrs, n)) => Parsed::Done(
                            (
                                CodeView {
                                    max_stack: be_u16_at(s, p),
                                    max_locals: be_u16_at(s, p + 2),
                                    code_length: cl,
                                    code: s.subrange(p + 8, q),
                                    exception_table: table,
                                    attributes: attrs,
                                },
                                end + n - p,
                            ),
                        ),
                        Parsed::Fail(e) => Parsed::Fail(e),
                        Parsed::Panic => Parsed::Panic,
                    }
                },
                Parsed::Fail(e) => Parsed::Fail(e),
                Parsed::Panic => Parsed::Panic,
            }
        }
    }
}

/// What the attribute named `name` holds when its content starts at `q`, with
/// the content's size. `LocalVariableTypeTable` is read as a local-variable table;
/// a name outside this list is not read.
pub open spec fn attribute_info_at(s: Seq<u8>, q: int, name: Seq<char>, cp: PoolView) -> Parsed<(AttributeKind, int)>
    decreases s.len() - q, 1int,
{
    if name == "Code"@ {
        map_parsed(code_at(s, q, cp), |c: CodeView| AttributeKind::Code(c))
    } else if name == "SourceFile"@ {
        if !fits(s, q, 2) {
            Parsed::Panic
        } else {
            Parsed::Done((AttributeKind::SourceFile(SourceFile { sourcefile_index: be_u16_at(s, q) }), 2))
        }
    } else if name == "LineNumberTable"@ {
        map_parsed(
            line_number_table_at(s, q),
            |t: Seq<LineNumberTableEntry>|
                AttributeKind::LineNumberTable { line_number_table_length: be_u16_at(s, q), line_number_table: t },
        )
    } else if name == "NestHost"@ {
        if !fits(s, q, 2) {
            Parsed::Panic
        } else {
            Parsed::Done((AttributeKind::NestHost(NestHost { host_class_index: be_u16_at(s, q) }), 2))
        }
    } else if name == "NestMembers"@ {
        map_parsed(
            index_table_at(s, q),
            |c: Seq<u16>| AttributeKind::NestMembers { number_of_classes: be_u16_at(s, q), classes: c },
        )
    } else if name == "InnerClasses"@ {
        map_parsed(
            inner_classes_at(s, q, cp),
            |c: Seq<InnerClassesClassView>| AttributeKind::InnerClasses { number_of_classes: be_u16_at(s, q), classes: c },
        )
    } else if name == "Signature"@ {
        if !fits(s, q, 2) {
            Parsed::Panic
        } else {
            Parsed::Done((AttributeKind::Signature(Signature { signature_index: be_u16_at(s, q) }), 2))
        }
    } else if name == "Exceptions"@ {
        map_parsed(index_table_at(s, q), |c: Seq<u16>| AttributeKind::Exceptions { exception_index_table: c })
    } else if name == "RuntimeVisibleAnnotations"@ {
        map_parsed(
            annotations_table_at(s, q, cp),
            |a: Seq<AnnotationView>| AttributeKind::RuntimeVisibleAnnotations { num_annotations: be_u16_at(s, q), annotations: a },
        )
    } else if name == "RuntimeInvisibleAnnotations"@ {
        map_parsed(
            annotations_table_at(s, q, cp),
            |a: Seq<AnnotationView>|
                AttributeKind::RuntimeInvisibleAnnotations { num_annotations: be_u16_at(s, q), annotations: a },
        )
    } else if name == "StackMapTable"@ {
        map_parsed(
            stack_map_table_at(s, q),
            |e: Seq<StackMapFrameView>| AttributeKind::StackMapTable { number_of_entries: be_u16_at(s, q), entries: e },
        )
    } else if name == "LocalVariableTable"@ || name == "LocalVariableTypeTable"@ {
        map_parsed(
            local_variable_table_at(s, q),
            |t: Seq<LocalVariableTableEntry>|
                AttributeKind::LocalVariableTable { local_variable_table_length: be_u16_at(s, q), local_variable_table: t },
        )
    } else if name == "ConstantValue"@ {
        if !fits(s, q, 2) {
            Parsed::Panic
        } else {
            Parsed::Done((AttributeKind::ConstantValue(ConstantValue { constantvalue_index: be_u16_at(s, q) }), 2))
        }
    } else if name == "BootstrapMethods"@ {
        map_parsed(
            bootstrap_methods_at(s, q),
            |b: Seq<BootstrapMethodView>|
                AttributeKind::BootstrapMethods { num_bootstrap_methods: be_u16_at(s, q), bootstrap_methods: b },
        )
    } else if name == "MethodParameters"@ {
        map_parsed(
            method_parameters_at(s, q),
            |ps: Seq<MethodParameter>| AttributeKind::MethodParameters { parameters_count: s[q], parameters: ps },
        )
    } else if name == "EnclosingMethod"@ {
        if !fits(s, q, 4) {
            Parsed::Panic
        } else {
            match enclosing_method_at(s, q, cp) {
                Ok(m) => Parsed::Done((AttributeKind::EnclosingMethod(m), 4)),
                Err(e) => Parsed::Fail(e),
            }
        }
    } else if name == "PermittedSubclasses"@ {
        map_parsed(
            index_table_at(s, q),
            |c: Seq<u16>| AttributeKind::PermittedSubclasses { number_of_classes: be_u16_at(s, q), classes: c },
        )
    } else if name == "Deprecated"@ {
        Parsed::Done((AttributeKind::Deprecated, 0))
    } else if name == "Record"@ {
        map_parsed(record_at(s, q, cp), |r: RecordView| AttributeKind::Record(r))
    } else {
        Parsed::Panic
    }
}

/// The attribute at `p`, with its size: a name index, a length, then the content.
/// The name is resolved in the constant pool; a content whose size differs from
/// the declared length is not accepted.
pub open spec fn attribute_at(s: Seq<u8>, p: int, cp: PoolView) -> Parsed<(AttributeView, int)>
    decreases s.len() - p, 0int,
{
    if !fits(s, p, 6) {
        Parsed::Panic
    } else {
        match cp_name(cp, be_u16_at(s, p)) {
            Err(e) => Parsed::Fail(e),
            Ok(name) => match attribute_info_at(s, p + 6, name, cp) {
                Parsed::Done((info, n)) => if n != be_u32_at(s, p + 2) {
                    Parsed::Panic
                } else {
                    Parsed::Done(
                        (AttributeView { name, name_index: be_u16_at(s, p), length: be_u32_at(s, p + 2), info }, 6 + n),
                    )
                },
                Parsed::Fail(e) => Parsed::Fail(e),
                Parsed::Panic => Parsed::Panic,
            },
        }
    }
}

/// `k` attributes one after the other from `p`, with the position after the last.
pub open spec fn attributes_from(s: Seq<u8>, p: int, k: int, cp: PoolView) -> Parsed<(Seq<AttributeView>, int)>
    decreases s.len() - p, 1int,
{
    if k <= 0 {
        Parsed::Done((Seq::<AttributeView>::empty(), p))
    } else {
        match attribute_at(s, p, cp) {
            Parsed::Done((a, n)) => if 1 <= n && p + n <= s.len() {
                prepend(seq![a], attributes_from(s, p + n, k - 1, cp))
            } else {
                Parsed::Panic
            },
            Parsed::Fail(e) => Parsed::Fail(e),
            Parsed::Panic => Parsed::Panic,
        }
    }
}

/// The attributes at `i` (a count, then that many attributes), with their size.
pub open spec fn attributes_at(s: Seq<u8>, i: int, cp: PoolView) -> Parsed<(Seq<AttributeView>, int)>
    decreases s.len() - i, 0int,
{
    if !fits(s, i, 2) {
        Parsed::Panic
    } else {
        match attributes_from(s, i + 2, be_u16_at(s, i) as int, cp) {
            Parsed::Done((v, end)) => Parsed::Done((v, end - i)),
            Parsed::Fail(e) => Parsed::Fail(e),
            Parsed::Panic => Parsed::Panic,
        }
    }
}

/// The record component at `p`, with its size.
pub open spec fn record_component_at(s: Seq<u8>, p: int, cp: PoolView) -> Parsed<(RecordComponentView, int)>
    decreases s.len() - p, 0int,
{
    if !fits(s, p, 4) {
        Parsed::Panic
    } else {
        match attributes_at(s, p + 4, cp) {
            Parsed::Done((attrs, n)) => Parsed::Done(
                (
                    RecordComponentView {
                        name_index: be_u16_at(s, p),
                        descriptor_index: be_u16_at(s, p + 2),
                        attributes: attrs,
                    },
                    4 + n,
                ),
            ),
            Parsed::Fail(e) => Parsed::Fail(e),
            Parsed::Panic => Parsed::Panic,
        }
    }
}

/// `k` record components one after the other from `p`, with the position after
/// the last.
pub open spec fn record_components_from(s: Seq<u8>, p: int, k: int, cp: PoolView) -> Parsed<(Seq<RecordComponentView>, int)>
    decreases s.len() - p, 1int,
{
    if k <= 0 {
        Parsed::Done((Seq::<RecordComponentView>::empty(), p))
    } else {
        match record_component_at(s, p, cp) {
            Parsed::Done((c, n)) => if 1 <= n && p + n <= s.len() {
                prepend(seq![c], record_components_from(s, p + n, k - 1, cp))
            } else {
                Parsed::Panic
            },
            Parsed::Fail(e) => Parsed::Fail(e),
            Parsed::Panic => Parsed::Panic,
        }
    }
}

/// The `Record` attribute whose content starts at `p`, with its size.
pub open spec fn record_at(s: Seq<u8>, p: int, cp: PoolView) -> Parsed<(RecordView, int)>
    decreases s.len() - p, 0int,
{
    if !fits(s, p, 2) {
        Parsed::Panic
    } else {
        let k = be_u16_at(s, p);
        match record_components_from(s, p + 2, k as int, cp) {
            Parsed::Done((cs, end)) => Parsed::Done((RecordView { components_count: k, components: cs }, end - p)),
            Parsed::Fail(e) => Parsed::Fail(e),
            Parsed::Panic => Parsed::Panic,
        }
    }
}

impl View for RecordComponent {
    type V = RecordComponentView;

    open spec fn view(&self) -> RecordComponentView {
        RecordComponentView {
            name_index: self.name_index,
            descriptor_index: self.descriptor_index,
            attributes: attribute_views(self.attributes.attributes@),
        }
    }
}

/// The contents of a sequence of exception-table entries.
pub open spec fn entry_views(v: Seq<ExceptionTableEntry>) -> Seq<ExceptionTableEntryView> {
    v.map_values(|e: ExceptionTableEntry| e@)
}

impl Code {
    pub fn parse_at(bytes: &[u8], p: usize, cp: &ConstantPool) -> (r: Result<(Code, usize), FormatError>)
        requires
            reads(code_at(bytes@, p as int, cp@)),
        ensures
            match code_at(bytes@, p as int, cp@) {
                Parsed::Done((v, n)) => (r matches Ok((x, m)) && x@ == v && m == n),
                Parsed::Fail(e) => r == Err::<(Code, usize), FormatError>(e),
                Parsed::Panic => false,
            },
            r matches Ok((_x, m)) ==> 1 <= m && p + m <= bytes@.len(),
        decreases bytes@.len() - p, 0int,
    {
        let _len = bytes.len();
        let max_stack = read_u16_at(bytes, p);
        let max_locals = read_u16_at(bytes, p + 2);
        let code_length = read_u32_at(bytes, p + 4);
        let start = p + 8;
        let q = start + code_length as usize;
        let mut code: Vec<u8> = Vec::new();
        let mut k: usize = start;
        while k < q
            invariant
                start <= k <= q,
                q + 2 <= bytes@.len(),
                code@ == bytes@.subrange(start as int, k as int),
            decreases q - k,
        {
            code.push(bytes[k]);
            k = k + 1;
            assert(code@ =~= bytes@.subrange(start as int, k as int));
        }
        let exception_table_length = read_u16_at(bytes, q);
        let ghost f = exception_entry_fn(bytes@, cp@);
        let ghost whole = seq_from(q + 2, exception_table_length as int, f);
        let mut exception_table: Vec<ExceptionTableEntry> = Vec::new();
        let mut index: usize = q + 2;
        let mut j: u16 = 0;
        proof {
            lemma_prepend_empty(whole);
            assert(entry_views(exception_table@) =~= Seq::<ExceptionTableEntryView>::empty());
        }
        while j < exception_table_length
            invariant
                bytes@.len() <= usize::MAX,
                fits(bytes@, p as int, 8),
                q == p + 8 + be_u32_at(bytes@, p + 4),
                fits(bytes@, q as int, 2),
                exception_table_length == be_u16_at(bytes@, q as int),
                j <= exception_table_length,
                q + 2 <= index,
                f == exception_entry_fn(bytes@, cp@),
                whole == seq_from(q + 2, exception_table_length as int, f),
                reads(code_at(bytes@, p as int, cp@)),
                whole == prepend(entry_views(exception_table@), seq_from(index as int, exception_table_length - j, f)),
            decreases exception_table_length - j,
        {
            assert(f(index as int) == exception_entry_fn(bytes@, cp@)(index as int));
            let ghost old_views = entry_views(exception_table@);
            match ExceptionTableEntry::parse_at(bytes, index, cp) {
                Ok(entry) => {
                    proof {
                        lemma_prepend_prepend(old_views, seq![entry@], seq_from(index + 8, exception_table_length - j - 1, f));
                    }
                    let ghost ev = entry@;
                    exception_table.push(entry);
                    assert(entry_views(exception_table@) =~= old_views + seq![ev]);
                    index = index + 8;
                    j = j + 1;
                },
                Err(e) => {
                    return Err(e);
                },
            }
        }
        assert(entry_views(exception_table@) + Seq::<ExceptionTableEntryView>::empty() =~= entry_views(exception_table@));
        let (attributes, n) = Attributes::parse_at(bytes, index, cp)?;
        Ok((Code { max_stack, max_locals, code_length, code, exception_table, attributes }, index + n - p))
    }

    pub fn get_max_locals(&self) -> (r: ju2)
        ensures
            r == self.max_locals,
    {
        self.max_locals
    }

    pub fn _get_attribute(&self, index: usize) -> (r: &AttributeInfo)
        requires
            index < self.attributes.attributes@.len(),
        ensures
            *r == self.attributes.attributes@[index as int],
    {
        self.attributes.get(index)
    }

    pub fn get_code_vec(&self) -> (r: &Vec<ju1>)
        ensures
            r@ == self.code@,
    {
        &self.code
    }
}

/// What the attribute named `name` holds, its content starting at `q`, with the
/// content's size.
fn parse_info(bytes: &[u8], q: usize, name: &str, cp: &ConstantPool) -> (r: Result<(AttributeInfoInfoEnum, usize), FormatError>)
    requires
        q <= bytes@.len(),
        reads(attribute_info_at(bytes@, q as int, name@, cp@)),
    ensures
        match attribute_info_at(bytes@, q as int, name@, cp@) {
            Parsed::Done((k, n)) => (r matches Ok((x, m)) && kind_view(x) == k && m == n),
            Parsed::Fail(e) => r == Err::<(AttributeInfoInfoEnum, usize), FormatError>(e),
            Parsed::Panic => false,
        },
        r matches Ok((_x, m)) ==> q + m <= bytes@.len(),
    decreases bytes@.len() - q, 1int,
{
    if str_eq(name, "Code") {
        let (code, n) = Code::parse_at(bytes, q, cp)?;
        Ok((AttributeInfoInfoEnum::Code(code), n))
    } else if str_eq(name, "SourceFile") {
        let (source_file, n) = SourceFile::parse_at(bytes, q);
        Ok((AttributeInfoInfoEnum::SourceFile(source_file), n))
    } else if str_eq(name, "LineNumberTable") {
        let (table, n) = LineNumberTable::parse_at(bytes, q);
        Ok((AttributeInfoInfoEnum::LineNumberTable(table), n))
    } else if str_eq(name, "NestHost") {
        let (nest_host, n) = NestHost::parse_at(bytes, q);
        Ok((AttributeInfoInfoEnum::NestHost(nest_host), n))
    } else if str_eq(name, "NestMembers") {
        let (nest_members, n) = NestMembers::parse_at(bytes, q);
        Ok((AttributeInfoInfoEnum::NestMembers(nest_members), n))
    } else if str_eq(name, "InnerClasses") {
        let (inner_classes, n) = InnerClasses::parse_at(bytes, q, cp)?;
        Ok((AttributeInfoInfoEnum::InnerClasses(inner_classes), n))
    } else if str_eq(name, "Signature") {
        let (signature, n) = Signature::parse_at(bytes, q);
        Ok((AttributeInfoInfoEnum::Signature(signature), n))
    } else if str_eq(name, "Exceptions") {
        let (exceptions, n) = Exceptions::parse_at(bytes, q);
        Ok((AttributeInfoInfoEnum::Exceptions(exceptions), n))
    } else if str_eq(name, "RuntimeVisibleAnnotations") {
        let (annotations, n) = RuntimeVisibleAnnotations::parse_at(bytes, q, cp)?;
        Ok((AttributeInfoInfoEnum::RuntimeVisibleAnnotations(annotations), n))
    } else if str_eq(name, "RuntimeInvisibleAnnotations") {
        let (annotations, n) = RuntimeInvisibleAnnotations::parse_at(bytes, q, cp)?;
        Ok((AttributeInfoInfoEnum::RuntimeInvisibleAnnotations(annotations), n))
    } else if str_eq(name, "StackMapTable") {
        let (stack_map, n) = StackMapTable::parse_at(bytes, q)?;
        Ok((AttributeInfoInfoEnum::StackMapTable(stack_map), n))
    } else if str_eq(name, "LocalVariableTable") || str_eq(name, "LocalVariableTypeTable") {
        let (table, n) = LocalVariableTable::parse_at(bytes, q);
        Ok((AttributeInfoInfoEnum::LocalVariableTable(table), n))
    } else if str_eq(name, "ConstantValue") {
        let (constant, n) = ConstantValue::parse_at(bytes, q);
        Ok((AttributeInfoInfoEnum::ConstantValue(constant), n))
    } else if str_eq(name, "BootstrapMethods") {
        let (methods, n) = BootstrapMethods::parse_at(bytes, q);
        Ok((AttributeInfoInfoEnum::BootstrapMethods(methods), n))
    } else if str_eq(name, "MethodParameters") {
        let (parameters, n) = MethodParameters::parse_at(bytes, q);
        Ok((AttributeInfoInfoEnum::MethodParameters(parameters), n))
    } else if str_eq(name, "EnclosingMethod") {
        let (method, n) = EnclosingMethod::parse_at(bytes, q, cp)?;
        Ok((AttributeInfoInfoEnum::EnclosingMethod(method), n))
    } else if str_eq(name, "PermittedSubclasses") {
        let (subclasses, n) = PermittedSubclasses::parse_at(bytes, q);
        Ok((AttributeInfoInfoEnum::PermittedSubclasses(subclasses), n))
    } else if str_eq(name, "Deprecated") {
        Ok((AttributeInfoInfoEnum::Deprecated, 0))
    } else if str_eq(name, "Record") {
        let (record, n) = Record::parse_at(bytes, q, cp)?;
        Ok((AttributeInfoInfoEnum::Record(record), n))
    } else {
        vstd::pervasive::unreached()
    }
}

impl AttributeInfo {
    pub fn parse_at(bytes: &[u8], p: usize, cp: &ConstantPool) -> (r: Result<(AttributeInfo, usize), FormatError>)
        requires
            reads(attribute_at(bytes@, p as int, cp@)),
        ensures
            match attribute_at(bytes@, p as int, cp@) {
                Parsed::Done((v, n)) => (r matches Ok((x, m)) && x@ == v && m == n),
                Parsed::Fail(e) => r == Err::<(AttributeInfo, usize), FormatError>(e),
                Parsed::Panic => false,
            },
            r matches Ok((_x, m)) ==> 1 <= m && p + m <= bytes@.len(),
        decreases bytes@.len() - p, 0int,
    {
        let _len = bytes.len();
        let attribute_name_index = read_u16_at(bytes, p);
        let attribute_length = read_u32_at(bytes, p + 2);
        let attribute_name = cp.resolve_name(attribute_name_index)?;
        let (info, n) = parse_info(bytes, p + 6, attribute_name.as_str(), cp)?;
        Ok((AttributeInfo { attribute_name, attribute_name_index, attribute_length, info }, 6 + n))
    }

    /// Reads the attribute at the start of `bytes`.
    pub fn parse(bytes: &[u8], cp: &ConstantPool) -> (r: Result<(AttributeInfo, usize), FormatError>)
        requires
            reads(attribute_at(bytes@, 0, cp@)),
        ensures
            match attribute_at(bytes@, 0, cp@) {
                Parsed::Done((v, n)) => (r matches Ok((x, m)) && x@ == v && m == n),
                Parsed::Fail(e) => r == Err::<(AttributeInfo, usize), FormatError>(e),
                Parsed::Panic => false,
            },
    {
        AttributeInfo::parse_at(bytes, 0, cp)
    }

    pub fn get_name(&self) -> (r: &str)
        ensures
            r@ == self.attribute_name@,
    {
        self.attribute_name.as_str()
    }

    pub fn get_info(&self) -> (r: &AttributeInfoInfoEnum)
        ensures
            *r == self.info,
    {
        &self.info
    }
}

impl Attributes {
    pub fn parse_at(bytes: &[u8], i: usize, cp: &ConstantPool) -> (r: Result<(Attributes, usize), FormatError>)
        requires
            reads(attributes_at(bytes@, i as int, cp@)),
        ensures
            match attributes_at(bytes@, i as int, cp@) {
                Parsed::Done((v, n)) => (r matches Ok((x, m)) && x@ == v && m == n),
                Parsed::Fail(e) => r == Err::<(Attributes, usize), FormatError>(e),
                Parsed::Panic => false,
            },
            r matches Ok((_x, m)) ==> 1 <= m && i + m <= bytes@.len(),
            r matches Ok((x, _m)) ==> x.attributes@.len() == be_u16_at(bytes@, i as int),
        decreases bytes@.len() - i, 0int,
    {
        let _len = bytes.len();
        let n = read_u16_at(bytes, i);
        let ghost whole = attributes_from(bytes@, i + 2, n as int, cp@);
        let mut attributes: Vec<AttributeInfo> = Vec::new();
        let mut index: usize = i + 2;
        let mut k: u16 = 0;
        proof {
            lemma_prepend_empty(whole);
            assert(attribute_views(attributes@) =~= Seq::<AttributeView>::empty());
        }
        while k < n
            invariant
                bytes@.len() <= usize::MAX,
                fits(bytes@, i as int, 2),
                n == be_u16_at(bytes@, i as int),
                k <= n,
                i + 2 <= index <= bytes@.len(),
                whole == attributes_from(bytes@, i + 2, n as int, cp@),
                reads(whole),
                whole == prepend(attribute_views(attributes@), attributes_from(bytes@, index as int, n - k, cp@)),
                attributes@.len() == k,
            decreases n - k,
        {
            let ghost old_views = attribute_views(attributes@);
            match AttributeInfo::parse_at(bytes, index, cp) {
                Ok((a, m)) => {
                    proof {
                        lemma_prepend_prepend(old_views, seq![a@], attributes_from(bytes@, index + m, n - k - 1, cp@));
                    }
                    let ghost av = a@;
                    attributes.push(a);
                    assert(attribute_views(attributes@) =~= old_views + seq![av]);
                    index = index + m;
                    k = k + 1;
                },
                Err(e) => {
                    return Err(e);
                },
            }
        }
        assert(attribute_views(attributes@) + Seq::<AttributeView>::empty() =~= attribute_views(attributes@));
        Ok((Attributes { attributes }, index - i))
    }

    /// Reads the attributes at the start of `bytes`.
    pub fn parse(bytes: &[u8], cp: &ConstantPool) -> (r: Result<(Attributes, usize), FormatError>)
        requires
            reads(attributes_at(bytes@, 0, cp@)),
        ensures
            match attributes_at(bytes@, 0, cp@) {
                Parsed::Done((v, n)) => (r matches Ok((x, m)) && x@ == v && m == n),
                Parsed::Fail(e) => r == Err::<(Attributes, usize), FormatError>(e),
                Parsed::Panic => false,
            },
            r matches Ok((x, _m)) ==> x.attributes@.len() == be_u16_at(bytes@, 0),
    {
        Attributes::parse_at(bytes, 0, cp)
    }

    pub fn new(attributes: Vec<AttributeInfo>) -> (r: Attributes)
        ensures
            r.attributes == attributes,
    {
        Attributes { attributes }
    }

    pub fn empty() -> (r: Attributes)
        ensures
            r.attributes@.len() == 0,
    {
        Attributes { attributes: Vec::new() }
    }

    pub fn len(&self) -> (r: usize)
        ensures
            r == self.attributes@.len(),
    {
        self.attributes.len()
    }

    pub fn get(&self, index: usize) -> (r: &AttributeInfo)
        requires
            index < self.attributes@.len(),
        ensures
            *r == self.attributes@[index as int],
    {
        &self.attributes[index]
    }
}

impl Attributes {
    /// The first `Code` attribute, if there is one.
    pub fn _get_code(&self) -> (r: Option<&Code>)
        ensures
            match r {
                Some(c) => exists|k: int|
                    0 <= k < self.attributes@.len() && #[trigger] self.attributes@[k].info == AttributeInfoInfoEnum::Code(*c)
                        && forall|j: int| 0 <= j < k ==> !(#[trigger] self.attributes@[j].info is Code),
                None => forall|k: int| 0 <= k < self.attributes@.len() ==> !(#[trigger] self.attributes@[k].info is Code),
            },
    {
        let mut k: usize = 0;
        while k < self.attributes.len()
            invariant
                k <= self.attributes@.len(),
                forall|j: int| 0 <= j < k ==> !(#[trigger] self.attributes@[j].info is Code),
            decreases self.attributes@.len() - k,
        {
            match &self.attributes[k].info {
                AttributeInfoInfoEnum::Code(c) => {
                    return Some(c);
                },
                _ => {},
            }
            k = k + 1;
        }
        None
    }

    /// The first `EnclosingMethod` attribute, if there is one.
    pub fn get_enclosing_method(&self) -> (r: Option<&EnclosingMethod>)
        ensures
            match r {
                Some(c) => exists|k: int|
                    0 <= k < self.attributes@.len() && #[trigger] self.attributes@[k].info
                        == AttributeInfoInfoEnum::EnclosingMethod(*c) && forall|j: int|
                        0 <= j < k ==> !(#[trigger] self.attributes@[j].info is EnclosingMethod),
                None => forall|k: int| 0 <= k < self.attributes@.len() ==> !(#[trigger] self.attributes@[k].info is EnclosingMethod),
            },
    {
        let mut k: usize = 0;
        while k < self.attributes.len()
            invariant
                k <= self.attributes@.len(),
                forall|j: int| 0 <= j < k ==> !(#[trigger] self.attributes@[j].info is EnclosingMethod),
            decreases self.attributes@.len() - k,
        {
            match &self.attributes[k].info {
                AttributeInfoInfoEnum::EnclosingMethod(c) => {
                    return Some(c);
                },
                _ => {},
            }
            k = k + 1;
        }
        None
    }

    /// The first `InnerClasses` attribute, if there is one.
    pub fn get_inner_classes(&self) -> (r: Option<&InnerClasses>)
        ensures
            match r {
                Some(c) => exists|k: int|
                    0 <= k < self.attributes@.len() && #[trigger] self.attributes@[k].info == AttributeInfoInfoEnum::InnerClasses(*c)
                        && forall|j: int| 0 <= j < k ==> !(#[trigger] self.attributes@[j].info is InnerClasses),
                None => forall|k: int| 0 <= k < self.attributes@.len() ==> !(#[trigger] self.attributes@[k].info is InnerClasses),
            },
    {
        let mut k: usize = 0;
        while k < self.attributes.len()
            invariant
                k <= self.attributes@.len(),
                forall|j: int| 0 <= j < k ==> !(#[trigger] self.attributes@[j].info is InnerClasses),
            decreases self.attributes@.len() - k,
        {
            match &self.attributes[k].info {
                AttributeInfoInfoEnum::InnerClasses(c) => {
                    return Some(c);
                },
                _ => {},
            }
            k = k + 1;
        }
        None
    }

    /// The first `NestHost` attribute, if there is one.
    pub fn get_nest_host(&self) -> (r: Option<&NestHost>)
        ensures
            match r {
                Some(c) => exists|k: int|
                    0 <= k < self.attributes@.len() && #[trigger] self.attributes@[k].info == AttributeInfoInfoEnum::NestHost(*c)
                        && forall|j: int| 0 <= j < k ==> !(#[trigger] self.attributes@[j].info is NestHost),
                None => forall|k: int| 0 <= k < self.attributes@.len() ==> !(#[trigger] self.attributes@[k].info is NestHost),
            },
    {
        let mut k: usize = 0;
        while k < self.attributes.len()
            invariant
                k <= self.attributes@.len(),
                forall|j: int| 0 <= j < k ==> !(#[trigger] self.attributes@[j].info is NestHost),
            decreases self.attributes@.len() - k,
        {
            match &self.attributes[k].info {
                AttributeInfoInfoEnum::NestHost(c) => {
                    return Some(c);
                },
                _ => {},
            }
            k = k + 1;
        }
        None
    }

    /// The first attribute named `name`; there must be one.
    pub fn get_by_name(&self, name: &str) -> (r: &AttributeInfo)
        requires
            first_named(self.attributes@, name@, 0) is Some,
        ensures
            *r == self.attributes@[first_named(self.attributes@, name@, 0)->0],
    {
        let mut k: usize = 0;
        while k < self.attributes.len()
            invariant
                k <= self.attributes@.len(),
                first_named(self.attributes@, name@, 0) == first_named(self.attributes@, name@, k as int),
                first_named(self.attributes@, name@, 0) is Some,
            decreases self.attributes@.len() - k,
        {
            if str_eq(self.attributes[k].get_name(), name) {
                return &self.attributes[k];
            }
            k = k + 1;
        }
        vstd::pervasive::unreached()
    }
}

/// The position of the first attribute at or after `i` named `name`.
pub open spec fn first_named(attrs: Seq<AttributeInfo>, name: Seq<char>, i: int) -> Option<int>
    decreases attrs.len() - i,
{
    if i < 0 || i >= attrs.len() {
        None
    } else if attrs[i].attribute_name@ == name {
        Some(i)
    } else {
        first_named(attrs, name, i + 1)
    }
}

impl RecordComponent {
    pub fn parse_at(bytes: &[u8], p: usize, cp: &ConstantPool) -> (r: Result<(RecordComponent, usize), FormatError>)
        requires
            reads(record_component_at(bytes@, p as int, cp@)),
        ensures
            match record_component_at(bytes@, p as int, cp@) {
                Parsed::Done((v, n)) => (r matches Ok((x, m)) && x@ == v && m == n),
                Parsed::Fail(e) => r == Err::<(RecordComponent, usize), FormatError>(e),
                Parsed::Panic => false,
            },
            r matches Ok((_x, m)) ==> 1 <= m && p + m <= bytes@.len(),
        decreases bytes@.len() - p, 0int,
    {
        let _len = bytes.len();
        let name_index = read_u16_at(bytes, p);
        let descriptor_index = read_u16_at(bytes, p + 2);
        let (attributes, n) = Attributes::parse_at(bytes, p + 4, cp)?;
        Ok((RecordComponent { name_index, descriptor_index, attributes }, 4 + n))
    }
}

impl Record {
    pub fn parse_at(bytes: &[u8], p: usize, cp: &ConstantPool) -> (r: Result<(Record, usize), FormatError>)
        requires
            reads(record_at(bytes@, p as int, cp@)),
        ensures
            match record_at(bytes@, p as int, cp@) {
                Parsed::Done((v, n)) => (r matches Ok((x, m)) && x@ == v && m == n),
                Parsed::Fail(e) => r == Err::<(Record, usize), FormatError>(e),
                Parsed::Panic => false,
            },
            r matches Ok((_x, m)) ==> 1 <= m && p + m <= bytes@.len(),
        decreases bytes@.len() - p, 0int,
    {
        let _len = bytes.len();
        let components_count = read_u16_at(bytes, p);
        let ghost whole = record_components_from(bytes@, p + 2, components_count as int, cp@);
        let mut components: Vec<RecordComponent> = Vec::new();
        let mut index: usize = p + 2;
        let mut k: u16 = 0;
        proof {
            lemma_prepend_empty(whole);
            assert(record_component_views(components@) =~= Seq::<RecordComponentView>::empty());
        }
        while k < components_count
            invariant
                bytes@.len() <= usize::MAX,
                fits(bytes@, p as int, 2),
                components_count == be_u16_at(bytes@, p as int),
                k <= components_count,
                p + 2 <= index <= bytes@.len(),
                whole == record_components_from(bytes@, p + 2, components_count as int, cp@),
                reads(whole),
                whole == prepend(
                    record_component_views(components@),
                    record_components_from(bytes@, index as int, components_count - k, cp@),
                ),
            decreases components_count - k,
        {
            let ghost old_views = record_component_views(components@);
            match RecordComponent::parse_at(bytes, index, cp) {
                Ok((c, m)) => {
                    proof {
                        lemma_prepend_prepend(
                            old_views,
                            seq![c@],
                            record_components_from(bytes@, index + m, components_count - k - 1, cp@),
                        );
                    }
                    let ghost cv = c@;
                    components.push(c);
                    assert(record_component_views(components@) =~= old_views + seq![cv]);
                    index = index + m;
                    k = k + 1;
                },
                Err(e) => {
                    return Err(e);
                },
            }
        }
        assert(record_component_views(components@) + Seq::<RecordComponentView>::empty() =~= record_component_views(components@));
        Ok((Record { components_count, components }, index - p))
    }
}

} // verus!
