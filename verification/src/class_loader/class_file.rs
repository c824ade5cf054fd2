use vstd::prelude::*;
use vstd::slice::slice_subrange;
use vstd::string::*;

use crate::class_loader::attribute_info::{
    AttributeInfoInfoEnum, AttributeView, Attributes, attributes_at, first_named,
};
use crate::class_loader::attributes::{BootstrapMethod, BootstrapMethods, EnclosingMethod, InnerClasses, NestHost, fits};
use crate::class_loader::constant_pool::{
    ConstantPool, CpInfo, PoolView, constant_pool_at, cp_class_name, cp_field_ref, cp_get, cp_invokedynamic,
    cp_method_handle, cp_method_ref, cp_method_type, cp_name,
};
use crate::class_loader::fields::{ACC_STATIC, FieldInfo, FieldInfoView, Fields, field_views, fields_at};
use crate::class_loader::format::{FormatError, Parsed, reads};
use crate::class_loader::interfaces::{Interfaces, cp_class_entry_name, interfaces_at, texts};
use crate::class_loader::methods::{MethodInfo, MethodInfoView, Methods, first_with_name_index, method_views, methods_at};
use crate::class_loader::static_fields::{StaticFields, lookup, store};
use crate::errors::InternalError;
use crate::instance::{ObjectInstance, same_header, string_texts};
use crate::text::str_eq;
use crate::types::Type;
use crate::utils::{be_u16_at, be_u32_at, default_value_of, get_default_value, ju1, ju2, ju4, read_u16_at, read_u32_at};

verus! {

/// A method handle of the constant pool, resolved: its kind and the class, name
/// and descriptor of the method it designates.
#[derive(Debug)]
pub struct MethodHandleResolved {
    pub ref_kind: ju1,
    pub class_name: String,
    pub method_name: String,
    pub method_type: String,
}

impl MethodHandleResolved {
    pub fn get_ref_kind(&self) -> (r: ju1)
        ensures
            r == self.ref_kind,
    {
        self.ref_kind
    }

    pub fn get_classname(&self) -> (r: &str)
        ensures
            r@ == self.class_name@,
    {
        self.class_name.as_str()
    }

    pub fn get_method_name(&self) -> (r: &str)
        ensures
            r@ == self.method_name@,
    {
        self.method_name.as_str()
    }

    pub fn get_method_type(&self) -> (r: &str)
        ensures
            r@ == self.method_type@,
    {
        self.method_type.as_str()
    }
}

/// An `invokedynamic` call site, resolved: its bootstrap method handle, the
/// static arguments of the bootstrap method, and the name and descriptor of the
/// call site.
#[derive(Debug)]
pub struct InvokeDynamicResolved {
    pub bootstrap: MethodHandleResolved,
    pub bootstrap_arguments: Vec<ju2>,
    pub method_name: String,
    pub method_type: String,
}

impl InvokeDynamicResolved {
    pub fn _get_bootstrap_ref_kind(&self) -> (r: ju1)
        ensures
            r == self.bootstrap.ref_kind,
    {
        self.bootstrap.get_ref_kind()
    }

    pub fn get_bootstrap_class_name(&self) -> (r: &str)
        ensures
            r@ == self.bootstrap.class_name@,
    {
        self.bootstrap.class_name.as_str()
    }

    pub fn get_bootstrap_method_name(&self) -> (r: &str)
        ensures
            r@ == self.bootstrap.method_name@,
    {
        self.bootstrap.method_name.as_str()
    }

    pub fn get_bootstrap_method_type(&self) -> (r: &str)
        ensures
            r@ == self.bootstrap.method_type@,
    {
        self.bootstrap.method_type.as_str()
    }

    pub fn get_method_name(&self) -> (r: &str)
        ensures
            r@ == self.method_name@,
    {
        self.method_name.as_str()
    }

    pub fn get_method_type(&self) -> (r: &str)
        ensures
            r@ == self.method_type@,
    {
        self.method_type.as_str()
    }

    pub fn get_arguments(&self) -> (r: &Vec<ju2>)
        ensures
            r@ == self.bootstrap_arguments@,
    {
        &self.bootstrap_arguments
    }
}

/// A loaded class: what its class file holds, whether it was initialized, the
/// values of its static fields, and the names of the class and of its superclass
/// (empty for a class without one).
#[derive(Debug)]
pub struct ClassFile {
    pub magic: ju4,
    pub minor_version: ju2,
    pub major_version: ju2,
    pub constant_pool: ConstantPool,
    pub access_flags: ju2,
    pub this_class: ju2,
    pub super_class: ju2,
    pub interfaces: Interfaces,
    pub fields: Fields,
    pub methods: Methods,
    pub attributes: Attributes,
    pub is_init: bool,
    pub static_fields: StaticFields,
    pub this_class_name: String,
    pub super_class_name: String,
}

/// The mathematical content of a loaded class.
pub struct ClassFileView {
    pub magic: u32,
    pub minor_version: u16,
    pub major_version: u16,
    pub constant_pool: PoolView,
    pub access_flags: u16,
    pub this_class: u16,
    pub super_class: u16,
    pub interfaces: Seq<Seq<char>>,
    pub fields_count: u16,
    pub fields: Seq<FieldInfoView>,
    pub methods: Seq<MethodInfoView>,
    pub attributes: Seq<AttributeView>,
    pub is_init: bool,
    pub static_fields: Seq<(Seq<char>, Type)>,
    pub this_class_name: Seq<char>,
    pub super_class_name: Seq<char>,
}

impl View for ClassFile {
    type V = ClassFileView;

    open spec fn view(&self) -> ClassFileView {
        ClassFileView {
            magic: self.magic,
            minor_version: self.minor_version,
            major_version: self.major_version,
            constant_pool: self.constant_pool@,
            access_flags: self.access_flags,
            this_class: self.this_class,
            super_class: self.super_class,
            interfaces: texts(self.interfaces.interfaces@),
            fields_count: self.fields.fields_count,
            fields: field_views(self.fields.fields@),
            methods: method_views(self.methods.methods@),
            attributes: self.attributes@,
            is_init: self.is_init,
            static_fields: self.static_fields@,
            this_class_name: self.this_class_name@,
            super_class_name: self.super_class_name@,
        }
    }
}

/// Whether access flags mark a static member.
pub open spec fn is_static_flags(flags: u16) -> bool {
    flags & ACC_STATIC == ACC_STATIC
}

/// Whether every static field among the first `k` has a descriptor with an
/// initial value.
pub open spec fn static_defaults_ok(fs: Seq<FieldInfoView>, k: int) -> bool
    decreases k,
{
    if k <= 0 {
        true
    } else {
        static_defaults_ok(fs, k - 1) && (is_static_flags(fs[k - 1].access_flags) ==> default_value_of(
            fs[k - 1].descriptor,
        ) is Some)
    }
}

/// The static fields of a class after its first `k` fields: each static field,
/// in order, stores its initial value under its name.
pub open spec fn initial_statics(fs: Seq<FieldInfoView>, k: int) -> Seq<(Seq<char>, Type)>
    decreases k,
{
    if k <= 0 {
        Seq::empty()
    } else {
        let acc = initial_statics(fs, k - 1);
        if is_static_flags(fs[k - 1].access_flags) {
            store(acc, fs[k - 1].name, default_value_of(fs[k - 1].descriptor)->0)
        } else {
            acc
        }
    }
}

/// The class that a class file holds: magic and versions, the constant pool
/// (read from byte 8 on), flags, this and super class, interfaces, fields,
/// methods and attributes one after the other; then the initial values of the
/// static fields, and the names of this class and of its superclass.
pub open spec fn class_file_at(s: Seq<u8>) -> Parsed<ClassFileView> {
    if !fits(s, 0, 8) {
        Parsed::Panic
    } else {
        match constant_pool_at(s.subrange(8, s.len() as int)) {
            Parsed::Done((count, entries, n)) => {
                let cp = PoolView { count, entries };
                let q = 8 + n;
                if !fits(s, q, 6) {
                    Parsed::Panic
                } else {
                    let this_class = be_u16_at(s, q + 2);
                    let super_class = be_u16_at(s, q + 4);
                    match interfaces_at(s, q + 6, cp) {
                        Parsed::Done((ifs, n1)) => match fields_at(s, q + 6 + n1, cp) {
                            Parsed::Done((fs, n2)) => match methods_at(s, q + 6 + n1 + n2, cp) {
                                Parsed::Done((ms, n3)) => match attributes_at(s, q + 6 + n1 + n2 + n3, cp) {
                                    Parsed::Done((attrs, _n4)) => if !static_defaults_ok(fs, fs.len() as int) {
                                        Parsed::Panic
                                    } else {
                                        match cp_class_name(cp, this_class) {
                                            Err(e) => Parsed::Fail(e),
                                            Ok(this_name) => match cp_class_name(cp, super_class) {
                                                Err(e) => Parsed::Fail(e),
                                                Ok(super_name) => Parsed::Done(
                                                    ClassFileView {
                                                        magic: be_u32_at(s, 0),
                                                        minor_version: be_u16_at(s, 4),
                                                        major_version: be_u16_at(s, 6),
                                                        constant_pool: cp,
                                                        access_flags: be_u16_at(s, q),
                                                        this_class,
                                                        super_class,
                                                        interfaces: ifs,
                                                        fields_count: be_u16_at(s, q + 6 + n1),
                                                        fields: fs,
                                                        methods: ms,
                                                        attributes: attrs,
                                                        is_init: false,
                                                        static_fields: initial_statics(fs, fs.len() as int),
                                                        this_class_name: this_name,
                                                        super_class_name: super_name,
                                                    },
                                                ),
                                            },
                                        }
                                    },
                                    Parsed::Fail(e) => Parsed::Fail(e),
                                    Parsed::Panic => Parsed::Panic,
                                },
                                Parsed::Fail(e) => Parsed::Fail(e),
                                Parsed::Panic => Parsed::Panic,
                            },
                            Parsed::Fail(e) => Parsed::Fail(e),
                            Parsed::Panic => Parsed::Panic,
                        },
                        Parsed::Fail(e) => Parsed::Fail(e),
                        Parsed::Panic => Parsed::Panic,
                    }
                }
            },
            Parsed::Fail(e) => Parsed::Fail(e),
            Parsed::Panic => Parsed::Panic,
        }
    }
}

/// The initial values of the static fields of `fields`.
fn initial_static_fields(fields: &Fields) -> (r: StaticFields)
    requires
        static_defaults_ok(field_views(fields.fields@), fields.fields@.len() as int),
    ensures
        r@ == initial_statics(field_views(fields.fields@), fields.fields@.len() as int),
{
    let ghost fs = field_views(fields.fields@);
    let mut statics = StaticFields::new();
    let mut k: usize = 0;
    while k < fields.fields.len()
        invariant
            fs == field_views(fields.fields@),
            k <= fs.len(),
            static_defaults_ok(fs, fs.len() as int),
            statics@ == initial_statics(fs, k as int),
        decreases fs.len() - k,
    {
        proof {
            lemma_static_defaults_prefix(fs, k + 1, fs.len() as int);
        }
        let field = &fields.fields[k];
        if field.is_static() {
            let value = get_default_value(field.get_descriptor());
            statics.insert(field.get_name().to_string(), value);
        }
        k = k + 1;
    }
    statics
}

/// `static_defaults_ok` holds of every prefix of a sequence it holds of.
proof fn lemma_static_defaults_prefix(fs: Seq<FieldInfoView>, j: int, k: int)
    requires
        0 <= j <= k,
        static_defaults_ok(fs, k),
    ensures
        static_defaults_ok(fs, j),
    decreases k - j,
{
    if j < k {
        lemma_static_defaults_prefix(fs, j, k - 1);
    }
}

impl ClassFile {
    /// Reads a class from the bytes of its class file.
    #[verifier::rlimit(60)]
    pub fn parse_from_bytes(data: &[u8]) -> (r: Result<ClassFile, FormatError>)
        requires
            reads(class_file_at(data@)),
        ensures
            match class_file_at(data@) {
                Parsed::Done(v) => (r matches Ok(c) && c@ == v),
                Parsed::Fail(e) => r == Err::<ClassFile, FormatError>(e),
                Parsed::Panic => false,
            },
    {
        let len = data.len();
        let magic = read_u32_at(data, 0);
        let minor_version = read_u16_at(data, 4);
        let major_version = read_u16_at(data, 6);
        let (constant_pool, bytes_read) = ConstantPool::parse(slice_subrange(data, 8, len))?;
        let index = 8 + bytes_read;
        let access_flags = read_u16_at(data, index);
        let this_class = read_u16_at(data, index + 2);
        let super_class = read_u16_at(data, index + 4);
        let index = index + 6;
        let (interfaces, n1) = Interfaces::parse_at(data, index, &constant_pool)?;
        let index = index + n1;
        let (fields, n2) = Fields::parse_at(data, index, &constant_pool)?;
        let index = index + n2;
        let (methods, n3) = Methods::parse_at(data, index, &constant_pool)?;
        let index = index + n3;
        let (attributes, _n4) = Attributes::parse_at(data, index, &constant_pool)?;
        let static_fields = initial_static_fields(&fields);
        let this_class_name = constant_pool.resolve_class_name(this_class)?;
        let super_class_name = constant_pool.resolve_class_name(super_class)?;
        Ok(
            ClassFile {
                magic,
                minor_version,
                major_version,
                constant_pool,
                access_flags,
                this_class,
                super_class,
                interfaces,
                fields,
                methods,
                attributes,
                is_init: false,
                static_fields,
                this_class_name,
                super_class_name,
            },
        )
    }
}

/// The interfaces that every array class implements.
pub open spec fn array_interfaces() -> Seq<Seq<char>> {
    seq!["java/lang/Cloneable"@, "java/io/Serializable"@]
}

/// The bit of the access flags that marks an interface.
pub const ACC_INTERFACE: u16 = 0x0200;

/// The bit of the access flags that marks an enum.
pub const ACC_ENUM: u16 = 0x4000;

/// The name of the one static field that every class answers with `false`.
pub const JFR_TRACING: &'static str = "jfrTracing";

impl ClassFile {
    pub fn get_access_flags(&self) -> (r: ju2)
        ensures
            r == self.access_flags,
    {
        self.access_flags
    }

    /// The class of arrays named `array_type`: no constant pool, no members, the
    /// interfaces of arrays, and `java/lang/Object` as superclass.
    pub fn create_array(array_type: String) -> (r: ClassFile)
        ensures
            r.magic == 0 && r.minor_version == 0 && r.major_version == 0,
            r.constant_pool@.count == 0 && r.constant_pool@.entries.len() == 0,
            r.access_flags == 0 && r.this_class == 0 && r.super_class == 0,
            texts(r.interfaces.interfaces@) == array_interfaces(),
            r.fields.fields_count == 0 && r.fields.fields@.len() == 0,
            r.methods.methods@.len() == 0,
            r.attributes.attributes@.len() == 0,
            !r.is_init,
            r.static_fields@.len() == 0,
            r.this_class_name@ == array_type@,
            r.super_class_name@ == "java/lang/Object"@,
    {
        let mut interfaces = Interfaces::empty();
        interfaces.add_interface(String::from_str("java/lang/Cloneable"));
        interfaces.add_interface(String::from_str("java/io/Serializable"));
        assert(texts(interfaces.interfaces@) =~= array_interfaces());
        ClassFile {
            magic: 0,
            minor_version: 0,
            major_version: 0,
            constant_pool: ConstantPool::empty(),
            access_flags: 0,
            this_class: 0,
            super_class: 0,
            interfaces,
            fields: Fields::empty(),
            methods: Methods::empty(),
            attributes: Attributes::empty(),
            is_init: false,
            static_fields: StaticFields::new(),
            this_class_name: array_type,
            super_class_name: String::from_str("java/lang/Object"),
        }
    }

    pub fn get_init(&self) -> (r: bool)
        ensures
            r == self.is_init,
    {
        self.is_init
    }

    /// Marks the class as initialized.
    pub fn init(&mut self)
        ensures
            final(self)@ == (ClassFileView { is_init: true, ..old(self)@ }),
    {
        self.is_init = true;
    }

    pub fn get_interfaces(&self) -> (r: &Vec<String>)
        ensures
            r@ == self.interfaces.interfaces@,
    {
        self.interfaces.get_interfaces()
    }

    /// Whether the class itself declares a method with this name and descriptor.
    pub fn has_function(&self, method_name: &str, type_str: &str) -> (r: bool)
        ensures
            r == exists|k: int|
                0 <= k < self.methods.methods@.len() && #[trigger] self.methods.methods@[k].name@ == method_name@
                    && self.methods.methods@[k].descriptor@ == type_str@,
    {
        let mut i: usize = 0;
        while i < self.methods.len()
            invariant
                i <= self.methods.methods@.len(),
                forall|k: int|
                    0 <= k < i ==> !(#[trigger] self.methods.methods@[k].name@ == method_name@
                        && self.methods.methods@[k].descriptor@ == type_str@),
            decreases self.methods.methods@.len() - i,
        {
            let method = self.methods.get(i);
            if str_eq(method_name, method.get_name()) && str_eq(type_str, method.get_descriptor()) {
                return true;
            }
            i = i + 1;
        }
        false
    }

    pub fn get_fields(&self) -> (r: &Vec<FieldInfo>)
        ensures
            r@ == self.fields.fields@,
    {
        self.fields.get_fields()
    }

    /// The position of the first field named `field_name`.
    pub fn get_field_offset(&self, field_name: &str) -> (r: Result<i64, InternalError>)
        requires
            self.fields.fields@.len() <= i64::MAX,
        ensures
            match r {
                Ok(i) => 0 <= i < self.fields.fields@.len() && self.fields.fields@[i as int].name@ == field_name@
                    && forall|j: int| 0 <= j < i ==> #[trigger] self.fields.fields@[j].name@ != field_name@,
                Err(e) => e == InternalError::FieldNotFound && forall|j: int|
                    0 <= j < self.fields.fields@.len() ==> #[trigger] self.fields.fields@[j].name@ != field_name@,
            },
    {
        let fields = self.get_fields();
        let mut i: usize = 0;
        while i < fields.len()
            invariant
                fields@ == self.fields.fields@,
                fields@.len() <= i64::MAX,
                i <= fields@.len(),
                forall|j: int| 0 <= j < i ==> #[trigger] fields@[j].name@ != field_name@,
            decreases fields@.len() - i,
        {
            if str_eq(fields[i].get_name(), field_name) {
                return Ok(i as i64);
            }
            i = i + 1;
        }
        Err(InternalError::FieldNotFound)
    }

    /// The field at position `offset`.
    pub fn get_field_by_offset(&self, offset: i64) -> (r: Result<&FieldInfo, InternalError>)
        ensures
            (offset as usize) < self.fields.fields@.len() ==> r == Ok::<&FieldInfo, InternalError>(
                &self.fields.fields@[(offset as usize) as int],
            ),
            (offset as usize) >= self.fields.fields@.len() ==> r == Err::<&FieldInfo, InternalError>(
                InternalError::FieldNotFound,
            ),
    {
        let fields = self.get_fields();
        let k = offset as usize;
        if k < fields.len() {
            Ok(&fields[k])
        } else {
            Err(InternalError::FieldNotFound)
        }
    }

    /// The value of the static field `fieldname`; `jfrTracing` is `false` for
    /// every class.
    pub fn get_static_field(&self, fieldname: &str) -> (r: Result<Type, InternalError>)
        ensures
            fieldname@ == JFR_TRACING@ ==> r == Ok::<Type, InternalError>(Type::Boolean(false)),
            fieldname@ != JFR_TRACING@ ==> match lookup(self.static_fields@, fieldname@) {
                Some(t) => r == Ok::<Type, InternalError>(t),
                None => (r matches Err(InternalError::StaticFieldNotFound(n)) && n@ == fieldname@),
            },
    {
        if str_eq(fieldname, JFR_TRACING) {
            return Ok(Type::Boolean(false));
        }
        match self.static_fields.get(fieldname) {
            Some(t) => Ok(*t),
            None => Err(InternalError::StaticFieldNotFound(fieldname.to_string())),
        }
    }

    pub fn _get_method_by_name_index(&self, index: ju2) -> (r: Option<&MethodInfo>)
        ensures
            match first_with_name_index(self.methods.methods@, index, 0) {
                Some(k) => r == Some(&self.methods.methods@[k]),
                None => r is None,
            },
    {
        self.methods._get_by_name_index(index)
    }

    pub fn resolve_index(&self, index: ju2) -> (r: Result<&CpInfo, FormatError>)
        ensures
            match cp_get(self.constant_pool@, index) {
                Ok(e) => (r matches Ok(c) && c.info@ == e),
                Err(e) => r == Err::<&CpInfo, FormatError>(e),
            },
    {
        self.constant_pool.resolve_index(index)
    }

    pub fn resolve_name(&self, index: ju2) -> (r: Result<String, FormatError>)
        ensures
            match cp_name(self.constant_pool@, index) {
                Ok(t) => (r matches Ok(s) && s@ == t),
                Err(e) => r == Err::<String, FormatError>(e),
            },
    {
        self.constant_pool.resolve_name(index)
    }

    /// The name of the class that the `Class` entry at `index` designates.
    pub fn resolve_class_name(&self, index: ju2) -> (r: Result<String, FormatError>)
        ensures
            match cp_class_entry_name(self.constant_pool@, index) {
                Ok(t) => (r matches Ok(s) && s@ == t),
                Err(e) => r == Err::<String, FormatError>(e),
            },
    {
        let class_index = self.constant_pool.resolve_class(index)?;
        self.constant_pool.resolve_name(class_index)
    }

    pub fn resolve_field_ref(&self, index: ju2) -> (r: Result<(String, String, String), FormatError>)
        ensures
            match cp_field_ref(self.constant_pool@, index) {
                Ok((c, n, t)) => (r matches Ok((a, b, d)) && a@ == c && b@ == n && d@ == t),
                Err(e) => r == Err::<(String, String, String), FormatError>(e),
            },
    {
        self.constant_pool.resolve_field_ref(index)
    }

    pub fn resolve_method_ref(&self, index: ju2) -> (r: Result<(String, String, String), FormatError>)
        ensures
            match cp_method_ref(self.constant_pool@, index) {
                Ok((c, n, t)) => (r matches Ok((a, b, d)) && a@ == c && b@ == n && d@ == t),
                Err(e) => r == Err::<(String, String, String), FormatError>(e),
            },
    {
        self.constant_pool.resolve_method_ref(index)
    }

    pub fn resolve_method_handle(&self, index: ju2) -> (r: Result<MethodHandleResolved, FormatError>)
        ensures
            match cp_method_handle(self.constant_pool@, index) {
                Ok((k, c, n, t)) => (r matches Ok(h) && h.ref_kind == k && h.class_name@ == c && h.method_name@ == n
                    && h.method_type@ == t),
                Err(e) => r == Err::<MethodHandleResolved, FormatError>(e),
            },
    {
        let (ref_kind, class_name, method_name, method_type) = self.constant_pool.resolve_method_handle(index)?;
        Ok(MethodHandleResolved { ref_kind, class_name, method_name, method_type })
    }

    pub fn resolve_method_type(&self, index: ju2) -> (r: Result<String, FormatError>)
        ensures
            match cp_method_type(self.constant_pool@, index) {
                Ok(t) => (r matches Ok(s) && s@ == t),
                Err(e) => r == Err::<String, FormatError>(e),
            },
    {
        self.constant_pool.resolve_method_type(index)
    }

    /// Whether the class has a `BootstrapMethods` attribute where its first
    /// attribute of that name stands, with more than `index` methods.
    pub open spec fn has_bootstrap_method(&self, index: int) -> bool {
        &&& first_named(self.attributes.attributes@, "BootstrapMethods"@, 0) matches Some(k)
        &&& self.attributes.attributes@[k].info matches AttributeInfoInfoEnum::BootstrapMethods(b)
        &&& 0 <= index < b.bootstrap_methods@.len()
    }

    /// The bootstrap methods of the class (its first attribute named
    /// `BootstrapMethods`, which must hold them).
    pub fn get_bootstrap_methods(&self) -> (r: &BootstrapMethods)
        requires
            first_named(self.attributes.attributes@, "BootstrapMethods"@, 0) matches Some(k)
                && self.attributes.attributes@[k].info is BootstrapMethods,
        ensures
            self.attributes.attributes@[first_named(self.attributes.attributes@, "BootstrapMethods"@, 0)->0].info
                == AttributeInfoInfoEnum::BootstrapMethods(*r),
    {
        match self.attributes.get_by_name("BootstrapMethods").get_info() {
            AttributeInfoInfoEnum::BootstrapMethods(b) => b,
            _ => vstd::pervasive::unreached(),
        }
    }

    /// The bootstrap method at position `index`.
    pub fn get_bootstrap_method(&self, index: usize) -> (r: &BootstrapMethod)
        requires
            self.has_bootstrap_method(index as int),
        ensures
            self.attributes.attributes@[first_named(self.attributes.attributes@, "BootstrapMethods"@, 0)->0].info
                matches AttributeInfoInfoEnum::BootstrapMethods(b) && *r == b.bootstrap_methods@[index as int],
    {
        self.get_bootstrap_methods().get(index)
    }

    /// The call site at `index`, resolved through the bootstrap method that it
    /// names (which the class must have).
    pub fn resolve_invokedynamic(&self, index: ju2) -> (r: Result<InvokeDynamicResolved, FormatError>)
        requires
            cp_invokedynamic(self.constant_pool@, index) matches Ok((b, _n, _t)) ==> self.has_bootstrap_method(b as int),
        ensures
            match cp_invokedynamic(self.constant_pool@, index) {
                Ok((b, n, t)) => {
                    let k = first_named(self.attributes.attributes@, "BootstrapMethods"@, 0)->0;
                    let bm = self.attributes.attributes@[k].info->BootstrapMethods_0.bootstrap_methods@[b as int];
                    match cp_method_handle(self.constant_pool@, bm.bootstrap_method_ref) {
                        Ok((rk, c, mn, mt)) => (r matches Ok(x) && x.bootstrap.ref_kind == rk && x.bootstrap.class_name@ == c
                            && x.bootstrap.method_name@ == mn && x.bootstrap.method_type@ == mt
                            && x.bootstrap_arguments@ == bm.bootstrap_arguments@ && x.method_name@ == n
                            && x.method_type@ == t),
                        Err(e) => r == Err::<InvokeDynamicResolved, FormatError>(e),
                    }
                },
                Err(e) => r == Err::<InvokeDynamicResolved, FormatError>(e),
            },
    {
        let (bootstrap_index, method_name, method_type) = self.constant_pool.resolve_invokedynamic(index)?;
        let bootstrap_method = self.get_bootstrap_method(bootstrap_index as usize);
        let method_handle_resolved = self.resolve_method_handle(bootstrap_method.get_method_ref())?;
        let bootstrap_arguments = bootstrap_method.get_arguments().clone();
        Ok(InvokeDynamicResolved { bootstrap: method_handle_resolved, bootstrap_arguments, method_name, method_type })
    }

    /// Stores `value` in the static field `name`.
    pub fn put_static_field(&mut self, name: &str, value: Type) -> (r: Result<(), InternalError>)
        ensures
            r is Ok,
            final(self)@ == (ClassFileView { static_fields: store(old(self)@.static_fields, name@, value), ..old(self)@ }),
    {
        self.static_fields.insert(name.to_string(), value);
        Ok(())
    }

    /// Adds a field with no access flags and no attributes.
    pub fn new_field(&mut self, name: &str, descriptor: &str) -> (r: Result<(), InternalError>)
        requires
            old(self).fields.fields_count < u16::MAX,
        ensures
            r is Ok,
            final(self).fields.fields_count == old(self).fields.fields_count + 1,
            final(self).fields.fields@.len() == old(self).fields.fields@.len() + 1,
            final(self).fields.fields@.subrange(0, old(self).fields.fields@.len() as int) == old(self).fields.fields@,
            ({
                let f = final(self).fields.fields@.last();
                f.access_flags == 0 && f.name@ == name@ && f.descriptor@ == descriptor@ && f.attributes.attributes@.len()
                    == 0
            }),
    {
        let field = FieldInfo::new(0, name, descriptor);
        self.fields.put_field(field);
        assert(self.fields.fields@.subrange(0, old(self).fields.fields@.len() as int) =~= old(self).fields.fields@);
        Ok(())
    }

    pub fn get_methods(&self) -> (r: &Vec<MethodInfo>)
        ensures
            r@ == self.methods.methods@,
    {
        self.methods.get_methods()
    }

    pub fn get_name(&self) -> (r: &str)
        ensures
            r@ == self.this_class_name@,
    {
        self.this_class_name.as_str()
    }

    pub fn get_parent_name(&self) -> (r: &str)
        ensures
            r@ == self.super_class_name@,
    {
        self.super_class_name.as_str()
    }

    /// Whether the class has a superclass (its name is not empty).
    pub fn has_parent(&self) -> (r: bool)
        ensures
            r == (self.super_class_name@.len() != 0),
    {
        self.super_class_name.as_str().unicode_len() != 0
    }

    pub fn is_interface(&self) -> (r: bool)
        ensures
            r == (self.access_flags & ACC_INTERFACE != 0),
    {
        self.access_flags & ACC_INTERFACE != 0
    }

    pub fn _is_enum(&self) -> (r: bool)
        ensures
            r == (self.access_flags & ACC_ENUM != 0),
    {
        self.access_flags & ACC_ENUM != 0
    }

    pub fn get_enclosing_method(&self) -> (r: Option<&EnclosingMethod>)
        ensures
            match r {
                Some(c) => exists|k: int|
                    0 <= k < self.attributes.attributes@.len() && #[trigger] self.attributes.attributes@[k].info
                        == AttributeInfoInfoEnum::EnclosingMethod(*c) && forall|j: int|
                        0 <= j < k ==> !(#[trigger] self.attributes.attributes@[j].info is EnclosingMethod),
                None => forall|k: int|
                    0 <= k < self.attributes.attributes@.len() ==> !(#[trigger] self.attributes.attributes@[k].info is EnclosingMethod),
            },
    {
        self.attributes.get_enclosing_method()
    }

    pub fn get_inner_classes(&self) -> (r: Option<&InnerClasses>)
        ensures
            match r {
                Some(c) => exists|k: int|
                    0 <= k < self.attributes.attributes@.len() && #[trigger] self.attributes.attributes@[k].info
                        == AttributeInfoInfoEnum::InnerClasses(*c) && forall|j: int|
                        0 <= j < k ==> !(#[trigger] self.attributes.attributes@[j].info is InnerClasses),
                None => forall|k: int|
                    0 <= k < self.attributes.attributes@.len() ==> !(#[trigger] self.attributes.attributes@[k].info is InnerClasses),
            },
    {
        self.attributes.get_inner_classes()
    }

    pub fn get_nest_host(&self) -> (r: Option<&NestHost>)
        ensures
            match r {
                Some(c) => exists|k: int|
                    0 <= k < self.attributes.attributes@.len() && #[trigger] self.attributes.attributes@[k].info
                        == AttributeInfoInfoEnum::NestHost(*c) && forall|j: int|
                        0 <= j < k ==> !(#[trigger] self.attributes.attributes@[j].info is NestHost),
                None => forall|k: int|
                    0 <= k < self.attributes.attributes@.len() ==> !(#[trigger] self.attributes.attributes@[k].info is NestHost),
            },
    {
        self.attributes.get_nest_host()
    }
}

/// Whether every field that is not static has a descriptor with an initial value.
pub open spec fn instance_defaults_ok(fs: Seq<FieldInfoView>) -> bool {
    forall|i: int| 0 <= i < fs.len() && !is_static_flags(#[trigger] fs[i].access_flags) ==> default_value_of(
        fs[i].descriptor,
    ) is Some
}

/// The field values of an object after the first `k` fields of its class: each
/// field that is not static, in order, stores its initial value under its name.
pub open spec fn instance_fields_after(acc: Seq<(Seq<char>, Type)>, fs: Seq<FieldInfoView>, k: int) -> Seq<
    (Seq<char>, Type),
>
    decreases k,
{
    if k <= 0 {
        acc
    } else {
        let a = instance_fields_after(acc, fs, k - 1);
        if !is_static_flags(fs[k - 1].access_flags) {
            store(a, fs[k - 1].name, default_value_of(fs[k - 1].descriptor)->0)
        } else {
            a
        }
    }
}

impl ClassFile {
    /// Gives a new object of this class its fields (each field that is not
    /// static, at its initial value) and the interfaces of the class.
    pub fn new_obj(&self, new_obj: &mut ObjectInstance) -> (r: Result<(), InternalError>)
        requires
            instance_defaults_ok(self@.fields),
        ensures
            r is Ok,
            final(new_obj).fields@ == instance_fields_after(old(new_obj).fields@, self@.fields, self@.fields.len() as int),
            string_texts(final(new_obj).interfaces@) == string_texts(old(new_obj).interfaces@) + self@.interfaces,
            final(new_obj).classname@ == old(new_obj).classname@,
            final(new_obj).obj_ref == old(new_obj).obj_ref,
            final(new_obj).hash_code == old(new_obj).hash_code,
            final(new_obj).monitor_count == old(new_obj).monitor_count,
            final(new_obj).parent_obj == old(new_obj).parent_obj,
    {
        let ghost fs = self@.fields;
        let ghost start = old(new_obj).fields@;
        let fields = self.get_fields();
        let mut k: usize = 0;
        while k < fields.len()
            invariant
                fs == field_views(fields@),
                fs == self@.fields,
                k <= fs.len(),
                instance_defaults_ok(fs),
                new_obj.fields@ == instance_fields_after(start, fs, k as int),
                string_texts(new_obj.interfaces@) == string_texts(old(new_obj).interfaces@),
                new_obj.classname@ == old(new_obj).classname@,
                new_obj.obj_ref == old(new_obj).obj_ref,
                new_obj.hash_code == old(new_obj).hash_code,
                new_obj.monitor_count == old(new_obj).monitor_count,
                new_obj.parent_obj == old(new_obj).parent_obj,
            decreases fs.len() - k,
        {
            let field = &fields[k];
            assert(fs[k as int] == field@);
            if !field.is_static() {
                assert(!is_static_flags(fs[k as int].access_flags));
                let value = get_default_value(field.get_descriptor());
                let _ = new_obj.new_field(field.get_name(), value);
            }
            k = k + 1;
        }
        let interfaces = self.get_interfaces();
        let mut j: usize = 0;
        while j < interfaces.len()
            invariant
                texts(interfaces@) == self@.interfaces,
                j <= interfaces@.len(),
                new_obj.fields@ == instance_fields_after(start, fs, fs.len() as int),
                string_texts(new_obj.interfaces@) == string_texts(old(new_obj).interfaces@) + self@.interfaces.subrange(
                    0,
                    j as int,
                ),
                new_obj.classname@ == old(new_obj).classname@,
                new_obj.obj_ref == old(new_obj).obj_ref,
                new_obj.hash_code == old(new_obj).hash_code,
                new_obj.monitor_count == old(new_obj).monitor_count,
                new_obj.parent_obj == old(new_obj).parent_obj,
            decreases interfaces@.len() - j,
        {
            new_obj.add_interface(interfaces[j].as_str());
            assert(self@.interfaces.subrange(0, j + 1) =~= self@.interfaces.subrange(0, j as int).push(
                interfaces@[j as int]@,
            ));
            j = j + 1;
        }
        assert(self@.interfaces.subrange(0, j as int) =~= self@.interfaces);
        Ok(())
    }
}

} // verus!
