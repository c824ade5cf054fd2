use jvmcraft::class_loader::class_file::ClassFile;
use jvmcraft::class_loader::loader::ClassLoader;
use jvmcraft::errors::{InternalError, RuntimeError};
use jvmcraft::heap::Heap;
use jvmcraft::frame::Frame;
use jvmcraft::jvm::{Step, StepError, JVM};
use jvmcraft::lambda_forms::LambdaAction;
use jvmcraft::method_handles::direct_call_descriptor;
use jvmcraft::native_calls::Native;
use jvmcraft::natives::NativeRoutine;
use jvmcraft::opcode::OpCode;
use jvmcraft::statics::StaticAccess;
use jvmcraft::types::Type;

/// Writes a class file: its constant pool is built on the way.
struct Builder {
    pool: Vec<Vec<u8>>,
}

impl Builder {
    fn utf8(&mut self, s: &str) -> u16 {
        let mut e = vec![1];
        e.extend_from_slice(&(s.len() as u16).to_be_bytes());
        e.extend_from_slice(s.as_bytes());
        self.pool.push(e);
        self.pool.len() as u16
    }

    fn class(&mut self, name: &str) -> u16 {
        let n = self.utf8(name);
        let mut e = vec![7];
        e.extend_from_slice(&n.to_be_bytes());
        self.pool.push(e);
        self.pool.len() as u16
    }
}

struct Method<'a> {
    name: &'a str,
    desc: &'a str,
    flags: u16,
    code: Option<Vec<u8>>,
}

fn class_bytes(
    name: &str,
    parent: Option<&str>,
    interfaces: &[&str],
    flags: u16,
    fields: &[(&str, &str, u16)],
    methods: &[Method],
) -> Vec<u8> {
    class_bytes_with_refs(name, parent, interfaces, flags, fields, methods, &[], &[]).0
}

/// A class file whose pool also holds the field references `refs` (class,
/// name, descriptor); their pool indices come back with it.
fn class_bytes_with_refs(
    name: &str,
    parent: Option<&str>,
    interfaces: &[&str],
    flags: u16,
    fields: &[(&str, &str, u16)],
    methods: &[Method],
    refs: &[(&str, &str, &str)],
    handlers: &[(u16, u16, u16, &str)],
) -> (Vec<u8>, Vec<u16>) {
    let mut b = Builder { pool: vec![] };
    let this = b.class(name);
    let sup = match parent {
        Some(p) => b.class(p),
        None => 0,
    };
    let ifs: Vec<u16> = interfaces.iter().map(|i| b.class(i)).collect();
    let mut ref_indices = vec![];
    for (c, n, d) in refs {
        let ci = b.class(c);
        let ni = b.utf8(n);
        let di = b.utf8(d);
        let mut nat = vec![12];
        nat.extend_from_slice(&ni.to_be_bytes());
        nat.extend_from_slice(&di.to_be_bytes());
        b.pool.push(nat);
        let nati = b.pool.len() as u16;
        let mut fr = vec![9];
        fr.extend_from_slice(&ci.to_be_bytes());
        fr.extend_from_slice(&nati.to_be_bytes());
        b.pool.push(fr);
        ref_indices.push(b.pool.len() as u16);
    }
    let catches: Vec<(u16, u16, u16, u16)> =
        handlers.iter().map(|(s, e, h, c)| (*s, *e, *h, b.class(c))).collect();
    let code_name = b.utf8("Code");
    let fs: Vec<(u16, u16, u16)> = fields.iter().map(|(n, d, f)| (b.utf8(n), b.utf8(d), *f)).collect();
    let ms: Vec<(u16, u16, u16, &Option<Vec<u8>>)> =
        methods.iter().map(|m| (b.utf8(m.name), b.utf8(m.desc), m.flags, &m.code)).collect();
    let mut out = vec![0xCA, 0xFE, 0xBA, 0xBE, 0, 0, 0, 61];
    out.extend_from_slice(&((b.pool.len() + 1) as u16).to_be_bytes());
    for e in &b.pool {
        out.extend_from_slice(e);
    }
    out.extend_from_slice(&flags.to_be_bytes());
    out.extend_from_slice(&this.to_be_bytes());
    out.extend_from_slice(&sup.to_be_bytes());
    out.extend_from_slice(&(ifs.len() as u16).to_be_bytes());
    for i in ifs {
        out.extend_from_slice(&i.to_be_bytes());
    }
    out.extend_from_slice(&(fs.len() as u16).to_be_bytes());
    for (n, d, f) in fs {
        out.extend_from_slice(&f.to_be_bytes());
        out.extend_from_slice(&n.to_be_bytes());
        out.extend_from_slice(&d.to_be_bytes());
        out.extend_from_slice(&[0, 0]);
    }
    out.extend_from_slice(&(ms.len() as u16).to_be_bytes());
    for (n, d, f, code) in ms {
        out.extend_from_slice(&f.to_be_bytes());
        out.extend_from_slice(&n.to_be_bytes());
        out.extend_from_slice(&d.to_be_bytes());
        match code {
            Some(c) => {
                out.extend_from_slice(&[0, 1]);
                out.extend_from_slice(&code_name.to_be_bytes());
                out.extend_from_slice(&(12 + c.len() as u32 + 8 * catches.len() as u32).to_be_bytes());
                out.extend_from_slice(&[0, 2, 0, 3]);
                out.extend_from_slice(&(c.len() as u32).to_be_bytes());
                out.extend_from_slice(c);
                out.extend_from_slice(&(catches.len() as u16).to_be_bytes());
                for (s, e, h, k) in &catches {
                    for v in [s, e, h, k] {
                        out.extend_from_slice(&v.to_be_bytes());
                    }
                }
                out.extend_from_slice(&[0, 0]);
            }
            None => out.extend_from_slice(&[0, 0]),
        }
    }
    out.extend_from_slice(&[0, 0]);
    (out, ref_indices)
}

const ACC_PUBLIC: u16 = 0x0001;
const ACC_STATIC: u16 = 0x0008;
const ACC_NATIVE: u16 = 0x0100;
const ACC_INTERFACE: u16 = 0x0200;
const ACC_ABSTRACT: u16 = 0x0400;

fn loader() -> ClassLoader {
    let object = class_bytes(
        "java/lang/Object",
        None,
        &[],
        ACC_PUBLIC,
        &[],
        &[
            Method { name: "hashCode", desc: "()I", flags: ACC_PUBLIC | ACC_NATIVE, code: Some(vec![0x03, 0xAC]) },
            Method { name: "toString", desc: "()Ljava/lang/String;", flags: ACC_PUBLIC, code: Some(vec![0x01, 0xB0]) },
        ],
    );
    let shape = class_bytes(
        "Shape",
        Some("java/lang/Object"),
        &[],
        ACC_PUBLIC | ACC_INTERFACE | ACC_ABSTRACT,
        &[],
        &[
            Method { name: "area", desc: "()I", flags: ACC_PUBLIC | ACC_ABSTRACT, code: None },
            Method { name: "sides", desc: "()I", flags: ACC_PUBLIC, code: Some(vec![0x07, 0xAC]) },
        ],
    );
    let base = class_bytes(
        "Base",
        Some("java/lang/Object"),
        &[],
        ACC_PUBLIC,
        &[("count", "I", ACC_STATIC), ("size", "J", 0)],
        &[Method { name: "<init>", desc: "()V", flags: ACC_PUBLIC, code: Some(vec![0xB1]) }],
    );
    let square = class_bytes(
        "Square",
        Some("Base"),
        &["Shape"],
        ACC_PUBLIC,
        &[("side", "I", 0)],
        &[
            Method { name: "area", desc: "()I", flags: ACC_PUBLIC, code: Some(vec![0x05, 0xAC]) },
            Method { name: "make", desc: "()LSquare;", flags: ACC_PUBLIC | ACC_STATIC, code: Some(vec![0x01, 0xB0]) },
        ],
    );
    let string = class_bytes(
        "java/lang/String",
        Some("java/lang/Object"),
        &[],
        ACC_PUBLIC,
        &[("value", "[B", 0), ("hash", "I", 0)],
        &[],
    );
    let integer = class_bytes("java/lang/Integer", Some("java/lang/Object"), &[], ACC_PUBLIC, &[("value", "I", 0)], &[]);
    let mut l = ClassLoader::new();
    for (name, bytes) in [
        ("java/lang/Object", object),
        ("Shape", shape),
        ("Base", base),
        ("Square", square),
        ("java/lang/String", string),
        ("java/lang/Integer", integer),
    ] {
        let c = ClassFile::parse_from_bytes(&bytes).unwrap();
        l.add_class_file(name, c);
    }
    l
}

#[test]
fn classes_are_found_by_binary_or_internal_name() {
    let l = loader();
    assert_eq!(l.get("java.lang.Object").unwrap().get_name(), "java/lang/Object");
    assert_eq!(l.get("Square").unwrap().get_parent_name(), "Base");
    assert!(matches!(l.get("Circle"), Err(InternalError::ClassNotFound(n)) if n == "Circle"));
}

#[test]
fn array_classes_are_made_on_load() {
    let mut l = loader();
    assert!(l.get("[I").is_err());
    l.load_class("[I").unwrap();
    assert_eq!(l.get("[I").unwrap().get_parent_name(), "java/lang/Object");
    assert!(matches!(l.load_class("Circle"), Err(InternalError::ClassNotFound(_))));
}

#[test]
fn methods_are_found_in_the_class_its_interfaces_and_its_parents() {
    let l = loader();
    let (c, m, i) = l.get_method_by_name_with_index("Square", "area", "()I").unwrap();
    assert_eq!((c.as_str(), m.get_name(), i), ("Square", "area", 0));
    // static methods are not numbered
    let (_, _, i) = l.get_method_by_name_with_index("Square", "make", "()LSquare;").unwrap();
    assert_eq!(i, -1);
    // a default method of an interface, numbered after the class's methods
    let (c, m, i) = l.get_method_by_name_with_index("Square", "sides", "()I").unwrap();
    assert_eq!((c.as_str(), m.get_name(), i), ("Shape", "sides", 3));
    // from the parent chain; the numbering starts again in each class
    let (c, _, i) = l.get_method_by_name_with_index("Square", "toString", "()Ljava/lang/String;").unwrap();
    assert_eq!((c.as_str(), i), ("java/lang/Object", 1));
    // constructors are not numbered either
    let (c, _, i) = l.get_method_by_name_with_index("Square", "<init>", "()V").unwrap();
    assert_eq!((c.as_str(), i), ("Base", -1));
}

#[test]
fn abstract_methods_only_when_asked() {
    let l = loader();
    assert!(matches!(
        l.get_method_by_name_with_index("Shape", "area", "()I"),
        Err(InternalError::MethodNotFound(c, _, _)) if c == "java/lang/Object"
    ));
    let (c, m, _) = l.get_any_method_by_name_with_index("Shape", "area", "()I").unwrap();
    assert_eq!((c.as_str(), m.has_code()), ("Shape", false));
}

#[test]
fn method_code_and_locals() {
    let l = loader();
    let (c, code) = l.get_method_code_by_name("Square", "area", "()I").unwrap();
    assert_eq!(c, "Square");
    assert_eq!(code.get_code_vec(), &vec![0x05u8, 0xAC]);
    assert_eq!(l.get_method_max_locals_by_name("Square", "area", "()I").unwrap(), 3);
    assert!(l.is_method_native("Square", "hashCode", "()I").unwrap());
    assert!(!l.is_method_native("Square", "area", "()I").unwrap());
    assert!(l.get_method_code_by_name("Square", "missing", "()V").is_err());
}

#[test]
fn fields_are_found_up_the_chain() {
    let l = loader();
    let (c, f, i) = l.get_field_by_name_with_index("Square", "size", "J").unwrap();
    assert_eq!((c.as_str(), f.get_name(), i), ("Base", "size", 1));
    let (c, _, i) = l.get_field_by_name_with_index("Square", "side", "I").unwrap();
    assert_eq!((c.as_str(), i), ("Square", 0));
    assert!(matches!(l.get_field_by_name_with_index("Square", "side", "J"), Err(InternalError::FieldNotFound)));
}

#[test]
fn static_fields_are_read_up_the_chain() {
    let mut l = loader();
    assert_eq!(l.get_static_field("Square", "count").unwrap(), Type::Integer(0));
    assert_eq!(l.get_static_field("Square", "jfrTracing").unwrap(), Type::Boolean(false));
    assert!(matches!(l.get_static_field("Square", "nothing"), Err(InternalError::StaticFieldNotFound(_))));
    let base = l.get("Base").unwrap();
    let mut updated = ClassFile::parse_from_bytes(&class_bytes(
        "Base",
        Some("java/lang/Object"),
        &[],
        ACC_PUBLIC,
        &[("count", "I", ACC_STATIC)],
        &[],
    ))
    .unwrap();
    assert_eq!(base.get_name(), updated.get_name());
    updated.put_static_field("count", Type::Integer(9)).unwrap();
    l.add_class_file("Base", updated);
    assert_eq!(l.get_static_field("Square", "count").unwrap(), Type::Integer(9));
}

#[test]
fn interfaces_through_parents() {
    let l = loader();
    assert!(l.has_interface("Shape", "Square").unwrap());
    assert!(l.has_interface("Base", "Base").unwrap());
    assert!(!l.has_interface("Shape", "Base").unwrap());
    assert!(l.has_interface("Shape", "Circle").is_err());
}

#[test]
fn constants_resolve_in_the_first_class_that_has_them() {
    let l = loader();
    // index 1 is the Utf8 entry with the class's own name
    assert_eq!(l.resolve_string("Square", 1).unwrap(), "Square");
    // index 200 is past every pool
    assert!(matches!(
        l.resolve_string("Square", 200),
        Err(InternalError::ConstantNotFound(c, 200)) if c == "java/lang/Object"
    ));
    assert!(l.resolve_field_ref("Square", 1).is_err());
}

#[test]
fn a_looping_hierarchy_is_reported() {
    let mut l = ClassLoader::new();
    let a = class_bytes("A", Some("B"), &[], ACC_PUBLIC, &[], &[]);
    let b = class_bytes("B", Some("A"), &[], ACC_PUBLIC, &[], &[]);
    l.add_class_file("A", ClassFile::parse_from_bytes(&a).unwrap());
    l.add_class_file("B", ClassFile::parse_from_bytes(&b).unwrap());
    assert!(matches!(l.get_method_by_name_with_index("A", "m", "()V"), Err(InternalError::ClassCircularity(_))));
    assert!(matches!(l.has_interface("X", "A"), Err(InternalError::ClassCircularity(_))));
}

#[test]
fn objects_carry_the_parts_of_their_superclasses() {
    let l = loader();
    let mut heap = Heap::new();
    let r = heap.alloc_obj(&l, "Square").unwrap();
    assert_eq!(r, Type::ObjectRef(1));
    // Square, then Base, then Object
    assert_eq!(heap.get_curr_obj_ref(), 4);
    let o = heap.get_obj_instance(1).unwrap();
    assert_eq!(o.get_classname(), "Square");
    assert_eq!(o.get_hash_code(), 1);
    assert_eq!(o.get_field("side").unwrap(), Type::Integer(0));
    assert_eq!(o.get_field("size").unwrap(), Type::Long(0));
    assert!(o.get_field("count").is_err());
    assert_eq!(o.get_field("jfrTracing").unwrap(), Type::Boolean(false));
    assert!(o._has_interface("Shape"));
    assert_eq!(o.get_parent().unwrap().get_classname(), "Base");
    let o = heap.get_obj_instance_mut(1).unwrap();
    o.put_field("size", Type::Long(5)).unwrap();
    assert!(o.put_field("nothing", Type::Long(5)).is_err());
    assert_eq!(heap.get_obj_instance(1).unwrap().get_field("size").unwrap(), Type::Long(5));
    assert!(matches!(heap.alloc_obj(&l, "Circle"), Err(InternalError::ClassNotFound(_))));
}

#[test]
fn objects_are_copied_with_their_parts() {
    let l = loader();
    let mut heap = Heap::new();
    heap.alloc_obj(&l, "Base").unwrap();
    heap.get_obj_instance_mut(1).unwrap().put_field("size", Type::Long(9)).unwrap();
    let copy = heap.clone_instance(1).unwrap();
    assert_eq!(copy, Type::ObjectRef(3));
    let c = heap.get_obj_instance(3).unwrap();
    assert_eq!(c.get_ref(), 3);
    assert_eq!(c.get_field("size").unwrap(), Type::Long(9));
    assert_eq!(c.get_parent().unwrap().get_ref(), 4);
}

#[test]
fn strings_are_interned() {
    let l = loader();
    let mut heap = Heap::new();
    let s = heap.alloc_string(&l, "hello").unwrap();
    // the byte array, then the string and its part of java/lang/Object
    assert_eq!(s, Type::ObjectRef(2));
    assert_eq!(heap.get_string(2).unwrap(), "hello");
    assert!(heap.get_obj_instance(2).unwrap().is_string());
    assert_eq!(heap.alloc_string(&l, "hello").unwrap(), s);
    assert_ne!(heap.alloc_string(&l, "world").unwrap(), s);
}

#[test]
fn boxed_integers() {
    let l = loader();
    let mut heap = Heap::new();
    let r = heap.alloc_integer(&l, 42).unwrap();
    let o = heap.get_obj_instance(r.as_ref().unwrap()).unwrap();
    assert_eq!(o.get_field("value").unwrap(), Type::Integer(42));
}

#[test]
fn monitors() {
    let l = loader();
    let mut heap = Heap::new();
    heap.alloc_obj(&l, "java/lang/Object").unwrap();
    let o = heap.get_obj_instance_mut(1).unwrap();
    o.monitorenter();
    o.monitorenter();
    assert_eq!(o.monitor_count, 1);
    o.monitorexit();
    assert_eq!(o.monitor_count, 1);
}

#[test]
fn frames_are_pushed_for_methods_found_by_the_loader() {
    let l = loader();
    let mut jvm = JVM::new();
    jvm.push_frame_from_class(&l, "Square", "area", "()I", vec![]).unwrap();
    let f = jvm.get_current_frame().unwrap();
    assert_eq!(f.get_classname(), "Square");
    assert_eq!(f.get_func_name(), "area");
    assert_eq!(f.locals_len(), 3);
    assert_eq!(f.get_code(), &vec![0x05u8, 0xAC]);
    assert!(matches!(jvm.step().unwrap(), Step::Done(None)));
    assert!(matches!(jvm.step().unwrap(), Step::Done(Some(Type::Integer(2)))));
    assert!(jvm.frames.is_empty());
    // inherited from java/lang/Object: the frame names the class where the method is
    jvm.push_frame_from_class(&l, "Square", "toString", "()Ljava/lang/String;", vec![]).unwrap();
    assert_eq!(jvm.get_current_frame().unwrap().get_classname(), "java/lang/Object");
    assert!(jvm.push_frame_from_class(&l, "Square", "missing", "()V", vec![]).is_err());
    assert_eq!(jvm.frames.len(), 1);
}

/// A machine running `code` as a method of `Square` (whose pool has `Square` at
/// index 2, `Base` at 4 and `Shape` at 6), with `operands` on its stack.
fn square_frame(code: Vec<u8>, operands: &[Type]) -> JVM {
    let mut jvm = JVM::new();
    jvm.push_frame(Frame::new("Square".to_string(), "run".to_string(), "()V".to_string(), code, vec![]));
    for v in operands {
        jvm.push_stack(*v).unwrap();
    }
    jvm
}

/// Runs one instruction that needs the heap.
fn heap_step(jvm: &mut JVM, heap: &mut Heap, l: &ClassLoader) -> Result<Option<Type>, StepError> {
    match jvm.step()? {
        Step::Host(op) => jvm.execute_heap_op(op, heap, l),
        Step::Done(v) => Ok(v),
    }
}

#[test]
fn checkcast_keeps_an_instance_of_a_superclass() {
    let l = loader();
    let mut heap = Heap::new();
    let sq = heap.alloc_obj(&l, "Square").unwrap();
    let mut jvm = square_frame(vec![0xC0, 0, 4, 0xB1], &[sq]);
    assert!(heap_step(&mut jvm, &mut heap, &l).unwrap().is_none());
    assert_eq!(jvm.pop_stack().unwrap(), sq);
    // null passes any cast
    let mut jvm = square_frame(vec![0xC0, 0, 4, 0xB1], &[Type::Null]);
    assert!(heap_step(&mut jvm, &mut heap, &l).is_ok());
    assert_eq!(jvm.pop_stack().unwrap(), Type::Null);
}

#[test]
fn checkcast_needs_a_class_entry() {
    let l = loader();
    let mut heap = Heap::new();
    let sq = heap.alloc_obj(&l, "Square").unwrap();
    let mut jvm = square_frame(vec![0xC0, 0, 1, 0xB1], &[sq]);
    assert!(matches!(heap_step(&mut jvm, &mut heap, &l), Err(StepError::Format(_))));
}

#[test]
fn instanceof_sees_superclasses_and_interfaces() {
    let l = loader();
    let mut heap = Heap::new();
    let sq = heap.alloc_obj(&l, "Square").unwrap();
    let base = heap.alloc_obj(&l, "Base").unwrap();
    for (obj, index, expected) in [(sq, 4u8, 1), (sq, 6, 1), (sq, 2, 1), (base, 2, 0), (base, 6, 0), (Type::Null, 2, 0)] {
        let mut jvm = square_frame(vec![0xC1, 0, index, 0xB1], &[obj]);
        assert!(heap_step(&mut jvm, &mut heap, &l).unwrap().is_none());
        assert_eq!(jvm.pop_stack().unwrap(), Type::Integer(expected));
    }
}

#[test]
fn new_pushes_a_fresh_object_of_the_named_class() {
    let l = loader();
    let mut heap = Heap::new();
    let mut jvm = square_frame(vec![0xBB, 0, 4, 0xB1], &[]);
    assert!(heap_step(&mut jvm, &mut heap, &l).unwrap().is_none());
    let r = jvm.pop_stack().unwrap();
    assert_eq!(r, Type::ObjectRef(1));
    assert_eq!(heap.get_obj_instance(1).unwrap().get_classname(), "Base");
}

#[test]
fn anewarray_and_aastore_check_the_element_class() {
    let l = loader();
    let mut heap = Heap::new();
    let mut jvm = square_frame(vec![0xBD, 0, 4, 0x53, 0x53, 0xB1], &[Type::Integer(2)]);
    assert!(heap_step(&mut jvm, &mut heap, &l).unwrap().is_none());
    let array = jvm.pop_stack().unwrap();
    let x = array.as_ref().unwrap();
    assert_eq!(heap.get_array_instance(x).unwrap().get_classname(), "[LBase;");
    assert_eq!(heap.get_array_instance(x).unwrap().get_elements(), &vec![Type::Null, Type::Null]);
    // a Square may be stored among Bases
    let sq = heap.alloc_obj(&l, "Square").unwrap();
    for v in [array, Type::Integer(1), sq] {
        jvm.push_stack(v).unwrap();
    }
    assert!(heap_step(&mut jvm, &mut heap, &l).unwrap().is_none());
    assert_eq!(heap.get_array_instance(x).unwrap().get(1).unwrap(), &sq);
    // an Integer may not
    let int = heap.alloc_integer(&l, 7).unwrap();
    for v in [array, Type::Integer(0), int] {
        jvm.push_stack(v).unwrap();
    }
    assert!(matches!(
        heap_step(&mut jvm, &mut heap, &l),
        Err(StepError::Internal(InternalError::WrongClass(a, b))) if a == "Base" && b == "java/lang/Integer"
    ));
    assert_eq!(heap.get_array_instance(x).unwrap().get(0).unwrap(), &Type::Null);
}

#[test]
fn aastore_into_a_non_array_is_a_null_pointer() {
    let l = loader();
    let mut heap = Heap::new();
    let mut jvm = square_frame(vec![0x53, 0xB1], &[Type::Null, Type::Integer(0), Type::Null]);
    assert!(matches!(
        heap_step(&mut jvm, &mut heap, &l),
        Err(StepError::Java(jvmcraft::errors::JavaException::NullPointer))
    ));
}

#[test]
fn newarray_makes_arrays_of_primitive_zeros() {
    let l = loader();
    let mut heap = Heap::new();
    let mut jvm = square_frame(vec![0xBC, 10, 0xBC, 8, 0xBC, 3, 0xB1], &[Type::Integer(2), Type::Integer(3), Type::Integer(1)]);
    assert!(heap_step(&mut jvm, &mut heap, &l).unwrap().is_none());
    let a = jvm.pop_stack().unwrap();
    assert_eq!(heap.get_array_instance(a.as_ref().unwrap()).unwrap().get_elements(), &vec![Type::Integer(0)]);
    assert!(heap_step(&mut jvm, &mut heap, &l).unwrap().is_none());
    let b = jvm.pop_stack().unwrap();
    assert_eq!(heap.get_array_instance(b.as_ref().unwrap()).unwrap().get_classname(), "[B");
    assert_eq!(heap.get_array_instance(b.as_ref().unwrap()).unwrap().len(), 3);
    assert!(matches!(
        heap_step(&mut jvm, &mut heap, &l),
        Err(StepError::Internal(InternalError::UnknownArrayType(3)))
    ));
}

#[test]
fn monitor_instructions_run_the_swapped_routines() {
    // `monitorenter` runs the exit routine and `monitorexit` the enter routine
    let l = loader();
    let mut heap = Heap::new();
    let o = heap.alloc_obj(&l, "java/lang/Object").unwrap();
    let mut jvm = square_frame(vec![0xC2, 0xC3, 0xC2, 0xB1], &[o, o]);
    assert!(heap_step(&mut jvm, &mut heap, &l).unwrap().is_none());
    assert_eq!(heap.get_obj_instance(1).unwrap().monitor_count, 0);
    assert!(heap_step(&mut jvm, &mut heap, &l).unwrap().is_none());
    assert_eq!(heap.get_obj_instance(1).unwrap().monitor_count, 1);
    jvm.push_stack(Type::Null).unwrap();
    assert!(matches!(
        heap_step(&mut jvm, &mut heap, &l),
        Err(StepError::Java(jvmcraft::errors::JavaException::NullPointer))
    ));
}

#[test]
fn assignments_between_types() {
    let l = loader();
    assert!(Type::check_type(&l, "Base", "Square").unwrap());
    assert!(!Type::check_type(&l, "Square", "Base").unwrap());
    assert!(Type::check_type(&l, "Shape", "Square").unwrap());
    assert!(Type::check_type(&l, "I", "java/lang/Integer").unwrap());
    assert!(Type::check_type(&l, "[I", "[I").unwrap());
    assert!(Type::check_type(&l, "[LBase;", "[LSquare;").unwrap());
    assert!(!Type::check_type(&l, "[I", "Base").unwrap());
    assert!(Type::check_type(&l, "Base", "Null").unwrap());
    assert!(!Type::check_type(&l, "I", "Base").unwrap());
    assert!(Type::is_subtype(&l, "Base", "Square").unwrap());
    assert!(!Type::is_subtype(&l, "Shape", "Square").unwrap());
    assert!(Type::is_subtype(&l, "LShape;", "Base").unwrap());
    assert!(matches!(Type::is_subtype(&l, "Base", "Circle"), Err(InternalError::ClassNotFound(_))));
    assert!(Type::implements_interface(&l, "Shape", "Square").unwrap());
    assert!(Type::is_class_integer("java/lang/Short"));
    assert!(!Type::is_class_integer("F"));
}

#[test]
fn fields_are_read_and_written_through_references() {
    let mut l = loader();
    let (bytes, refs) = class_bytes_with_refs(
        "Point",
        Some("Base"),
        &[],
        ACC_PUBLIC,
        &[("x", "I", 0), ("label", "Ljava/lang/String;", 0)],
        &[],
        &[("Point", "x", "I"), ("Point", "size", "J"), ("Point", "label", "Ljava/lang/String;"), ("Point", "gone", "I")],
        &[],
    );
    l.add_class_file("Point", ClassFile::parse_from_bytes(&bytes).unwrap());
    let mut heap = Heap::new();
    let p = heap.alloc_obj(&l, "Point").unwrap();
    let run = |code: Vec<u8>, ops: &[Type], heap: &mut Heap| {
        let mut jvm = JVM::new();
        jvm.push_frame(Frame::new("Point".to_string(), "run".to_string(), "()V".to_string(), code, vec![]));
        for v in ops {
            jvm.push_stack(*v).unwrap();
        }
        let r = heap_step(&mut jvm, heap, &l);
        (jvm, r)
    };
    let [x, size, label, gone] = [refs[0], refs[1], refs[2], refs[3]];
    // putfield x = 7, then getfield x
    let (_, r) = run(vec![0xB5, 0, x as u8, 0xB1], &[p, Type::Integer(7)], &mut heap);
    assert!(r.unwrap().is_none());
    let (mut jvm, r) = run(vec![0xB4, 0, x as u8, 0xB1], &[p], &mut heap);
    assert!(r.unwrap().is_none());
    assert_eq!(jvm.pop_stack().unwrap(), Type::Integer(7));
    // a field of the part of the superclass
    let (_, r) = run(vec![0xB5, 0, size as u8, 0xB1], &[p, Type::Long(3)], &mut heap);
    assert!(r.unwrap().is_none());
    assert_eq!(heap.get_obj_instance(p.as_ref().unwrap()).unwrap().get_field("size").unwrap(), Type::Long(3));
    // an object reference into a field of a class type
    let s = heap.alloc_string(&l, "hi").unwrap();
    let (_, r) = run(vec![0xB5, 0, label as u8, 0xB1], &[p, s], &mut heap);
    assert!(r.unwrap().is_none());
    // class types pass the check, arrays do not fit an `int` field
    let (_, r) = run(vec![0xB5, 0, x as u8, 0xB1], &[p, s], &mut heap);
    assert!(r.is_ok());
    let bytes = heap.alloc_array_primitive("B", vec![], 1).unwrap();
    let (_, r) = run(vec![0xB5, 0, x as u8, 0xB1], &[p, bytes], &mut heap);
    assert!(matches!(r, Err(StepError::Internal(InternalError::WrongClass(a, b))) if a == "I" && b == "[B"));
    // a field that no part has
    let (_, r) = run(vec![0xB4, 0, gone as u8, 0xB1], &[p], &mut heap);
    assert!(matches!(r, Err(StepError::Internal(InternalError::FieldNotFound))));
    // null
    let (_, r) = run(vec![0xB4, 0, x as u8, 0xB1], &[Type::Null], &mut heap);
    assert!(matches!(r, Err(StepError::Java(jvmcraft::errors::JavaException::NullPointer))));
}

/// The loader with an exception class, and a class `Thrower` whose method `run`
/// divides by zero at 2, with a handler at 4 for `catch` over 0 to 3.
fn thrower_loader(catch: &str) -> ClassLoader {
    let mut l = loader();
    let exc = class_bytes(
        "java/lang/ArithmeticException",
        Some("java/lang/Object"),
        &[],
        ACC_PUBLIC,
        &[("detailMessage", "Ljava/lang/String;", 0)],
        &[],
    );
    l.add_class_file("java/lang/ArithmeticException", ClassFile::parse_from_bytes(&exc).unwrap());
    let (thrower, _) = class_bytes_with_refs(
        "Thrower",
        Some("java/lang/Object"),
        &[],
        ACC_PUBLIC,
        &[],
        &[Method {
            name: "run",
            desc: "()I",
            flags: ACC_PUBLIC | ACC_STATIC,
            code: Some(vec![0x04, 0x03, 0x6C, 0xAC, 0x57, 0x08, 0xAC]),
        }],
        &[],
        &[(0, 3, 4, catch)],
    );
    l.add_class_file("Thrower", ClassFile::parse_from_bytes(&thrower).unwrap());
    l
}

#[test]
fn a_handler_of_the_method_catches_the_exception() {
    let l = thrower_loader("java/lang/ArithmeticException");
    let mut heap = Heap::new();
    let mut jvm = JVM::new();
    jvm.push_frame_from_class(&l, "Thrower", "run", "()I", vec![]).unwrap();
    assert!(jvm.step().is_ok());
    assert!(jvm.step().is_ok());
    let err = jvm.step().unwrap_err();
    assert!(matches!(err, StepError::Java(jvmcraft::errors::JavaException::Arithmetic)));
    let handled = jvm.handle_step_error(&mut heap, &l, err, 0).unwrap();
    assert_eq!(handled, Some(Type::ObjectRef(1)));
    assert_eq!(heap.get_obj_instance(1).unwrap().get_classname(), "java/lang/ArithmeticException");
    assert_eq!(jvm.get_current_frame().unwrap().get_pc(), 4);
    assert!(jvm.step().is_ok());
    assert!(jvm.step().is_ok());
    assert!(matches!(jvm.step().unwrap(), Step::Done(Some(Type::Integer(5)))));
    assert!(jvm.frames.is_empty());
}

#[test]
fn an_exception_no_handler_catches_unwinds_the_frames() {
    let l = thrower_loader("java/lang/IOException");
    let mut heap = Heap::new();
    // down to the frame at 1: the exception comes back
    let mut jvm = JVM::new();
    jvm.push_frame_from_class(&l, "Thrower", "run", "()I", vec![]).unwrap();
    let _ = jvm.step();
    let _ = jvm.step();
    let err = jvm.step().unwrap_err();
    let r = jvm.handle_step_error(&mut heap, &l, err, 1);
    assert!(matches!(r, Err(StepError::Java(jvmcraft::errors::JavaException::Arithmetic))));
    assert!(jvm.frames.is_empty());
    // down to no frame at all: no frame is left to run
    let mut jvm = JVM::new();
    jvm.push_frame_from_class(&l, "Thrower", "run", "()I", vec![]).unwrap();
    let _ = jvm.step();
    let _ = jvm.step();
    let err = jvm.step().unwrap_err();
    let r = jvm.handle_step_error(&mut heap, &l, err, 0);
    assert!(matches!(r, Err(StepError::Internal(InternalError::FrameNotFound))));
    // a missing frame ends quietly
    assert_eq!(jvm.handle_step_error(&mut heap, &l, StepError::Internal(InternalError::FrameNotFound), 0).unwrap(), None);
}

#[test]
fn exception_tables_are_searched_in_order() {
    let l = thrower_loader("java/lang/ArithmeticException");
    let (_, code) = l.get_method_code_by_name("Thrower", "run", "()I").unwrap();
    assert_eq!(code.check_exception(&l, 3, "java/lang/ArithmeticException").unwrap(), Some(4));
    assert_eq!(code.check_exception(&l, 4, "java/lang/ArithmeticException").unwrap(), None);
    assert_eq!(code.check_exception(&l, 0, "Base").unwrap(), None);
    let entry = &code.exception_table[0];
    assert!(entry.check_exception(&l, 2, "java/lang/ArithmeticException").unwrap());
    assert!(!entry.check_exception(&l, 9, "java/lang/ArithmeticException").unwrap());
}

#[test]
fn athrow_raises_the_exception_of_the_object_class() {
    let l = thrower_loader("java/lang/ArithmeticException");
    let mut heap = Heap::new();
    let e = heap.alloc_obj(&l, "java/lang/ArithmeticException").unwrap();
    let mut jvm = square_frame(vec![0xBF], &[e]);
    let r = heap_step(&mut jvm, &mut heap, &l);
    assert!(matches!(r, Err(StepError::Java(jvmcraft::errors::JavaException::Arithmetic))));
    // not a reference
    let mut jvm = square_frame(vec![0xBF], &[Type::Integer(1)]);
    assert!(matches!(heap_step(&mut jvm, &mut heap, &l), Err(StepError::Internal(InternalError::WrongType(_, _)))));
}

/// A class file with the pool that `b` built, no interface, field or method.
fn finish_class(b: Builder, this: u16, sup: u16) -> Vec<u8> {
    let mut out = vec![0xCA, 0xFE, 0xBA, 0xBE, 0, 0, 0, 61];
    let slots: usize = b.pool.iter().map(|e| if e[0] == 5 || e[0] == 6 { 2 } else { 1 }).sum();
    out.extend_from_slice(&((slots + 1) as u16).to_be_bytes());
    for e in &b.pool {
        out.extend_from_slice(e);
    }
    out.extend_from_slice(&ACC_PUBLIC.to_be_bytes());
    out.extend_from_slice(&this.to_be_bytes());
    out.extend_from_slice(&sup.to_be_bytes());
    out.extend_from_slice(&[0, 0, 0, 0, 0, 0, 0, 0]);
    out
}

#[test]
fn ldc_pushes_numbers_strings_and_class_objects() {
    let mut l = loader();
    let class = class_bytes(
        "java/lang/Class",
        Some("java/lang/Object"),
        &[],
        ACC_PUBLIC,
        &[("classLoader", "Ljava/lang/ClassLoader;", 0)],
        &[],
    );
    l.add_class_file("java/lang/Class", ClassFile::parse_from_bytes(&class).unwrap());
    // Consts: 1 Utf8, 2 Class, 3 Utf8, 4 Class Object, 5 Integer, 6 Utf8 "hi",
    // 7 String, 8 Utf8, 9 Class [I, 10-11 Long, 12 Float
    let mut b = Builder { pool: vec![] };
    let this = b.class("Consts");
    let sup = b.class("java/lang/Object");
    b.pool.push(vec![3, 0, 0, 0, 42]);
    let hi = b.utf8("hi");
    let mut st = vec![8];
    st.extend_from_slice(&hi.to_be_bytes());
    b.pool.push(st);
    assert_eq!(b.class("[I"), 9);
    b.pool.push(vec![5, 0, 0, 0, 1, 0, 0, 0, 2]);
    b.pool.push(vec![4, 0x3F, 0x80, 0, 0]);
    assert_eq!((this, sup), (2, 4));
    l.add_class_file("Consts", ClassFile::parse_from_bytes(&finish_class(b, this, sup)).unwrap());
    let mut heap = Heap::new();
    let run = |code: Vec<u8>, heap: &mut Heap| {
        let mut jvm = JVM::new();
        jvm.push_frame(Frame::new("Consts".to_string(), "run".to_string(), "()V".to_string(), code, vec![]));
        let r = heap_step(&mut jvm, heap, &l);
        (jvm, r)
    };
    let (mut jvm, r) = run(vec![0x12, 5, 0xB1], &mut heap);
    assert!(r.unwrap().is_none());
    assert_eq!(jvm.pop_stack().unwrap(), Type::Integer(42));
    let (mut jvm, r) = run(vec![0x13, 0, 12, 0xB1], &mut heap);
    assert!(r.unwrap().is_none());
    assert_eq!(jvm.pop_stack().unwrap(), Type::Float(1.0f32.to_bits()));
    let (mut jvm, r) = run(vec![0x12, 7, 0xB1], &mut heap);
    assert!(r.unwrap().is_none());
    let s = jvm.pop_stack().unwrap();
    assert_eq!(heap.get_string(s.as_ref().unwrap()).unwrap(), "hi");
    // the same string again is the same object
    let (mut jvm, _) = run(vec![0x12, 7, 0xB1], &mut heap);
    assert_eq!(jvm.pop_stack().unwrap(), s);
    // a long is refused by ldc, and taken by ldc2_w
    let (_, r) = run(vec![0x12, 10, 0xB1], &mut heap);
    assert!(matches!(r, Err(StepError::Internal(InternalError::WideConstant(10)))));
    let (mut jvm, r) = run(vec![0x14, 0, 10, 0xB1], &mut heap);
    assert!(r.unwrap().is_none());
    assert_eq!(jvm.pop_stack().unwrap(), Type::Long((1i64 << 32) + 2));
    // a class constant gives the class object, made once
    let (mut jvm, r) = run(vec![0x12, 9, 0xB1], &mut heap);
    assert!(r.unwrap().is_none());
    let c = jvm.pop_stack().unwrap();
    assert!(matches!(c, Type::ObjectRef(_)));
    let (mut jvm, _) = run(vec![0x12, 9, 0xB1], &mut heap);
    assert_eq!(jvm.pop_stack().unwrap(), c);
    // an index past the pool
    let (_, r) = run(vec![0x12, 60, 0xB1], &mut heap);
    assert!(matches!(r, Err(StepError::Format(_))));
}

#[test]
fn multianewarray_makes_nested_arrays() {
    let mut l = loader();
    let mut b = Builder { pool: vec![] };
    let this = b.class("Multi");
    assert_eq!(b.class("[[I"), 4);
    let sup = b.class("java/lang/Object");
    l.add_class_file("Multi", ClassFile::parse_from_bytes(&finish_class(b, this, sup)).unwrap());
    let mut heap = Heap::new();
    let mut jvm = JVM::new();
    jvm.push_frame(Frame::new("Multi".to_string(), "run".to_string(), "()V".to_string(), vec![0xC5, 0, 4, 2, 0xB1], vec![]));
    jvm.push_stack(Type::Integer(2)).unwrap();
    jvm.push_stack(Type::Integer(3)).unwrap();
    assert!(heap_step(&mut jvm, &mut heap, &l).unwrap().is_none());
    let top = jvm.pop_stack().unwrap();
    let a = heap.get_array_instance(top.as_ref().unwrap()).unwrap();
    assert_eq!(a.get_classname(), "[[I");
    assert_eq!(a.len(), 2);
    let inner = *a.get(1).unwrap();
    let i = heap.get_array_instance(inner.as_ref().unwrap()).unwrap();
    assert_eq!(i.get_classname(), "[I");
    assert_eq!(i.get_elements(), &vec![Type::Integer(0); 3]);
    // a negative dimension is refused
    let mut jvm = JVM::new();
    jvm.push_frame(Frame::new("Multi".to_string(), "run".to_string(), "()V".to_string(), vec![0xC5, 0, 4, 2, 0xB1], vec![]));
    jvm.push_stack(Type::Integer(2)).unwrap();
    jvm.push_stack(Type::Integer(-1)).unwrap();
    assert!(matches!(
        heap_step(&mut jvm, &mut heap, &l),
        Err(StepError::Internal(InternalError::NegativeArraySize(-1)))
    ));
}

/// A machine running `code` as a method of `TestGeneral`, whose pool names
/// `java/lang/String` at the index that comes back with it, with `operand` on
/// its stack; and the loader with that class.
fn test_general_frame(code_at: impl Fn(u16) -> Vec<u8>, operand: Type) -> (JVM, ClassLoader) {
    let (bytes, refs) = class_bytes_with_refs(
        "TestGeneral",
        Some("java/lang/Object"),
        &[],
        ACC_PUBLIC,
        &[],
        &[],
        &[("java/lang/String", "value", "[B")],
        &[],
    );
    let string_class = refs[0] - 4;
    let mut l = loader();
    l.add_class_file("TestGeneral", ClassFile::parse_from_bytes(&bytes).unwrap());
    let mut jvm = JVM::new();
    jvm.push_frame(Frame::new(
        "TestGeneral".to_string(),
        "_instanceof".to_string(),
        "()I".to_string(),
        code_at(string_class),
        vec![],
    ));
    jvm.push_stack(operand).unwrap();
    (jvm, l)
}

#[test]
fn test_exec_instanceof() {
    let code = |i: u16| vec![0xC1, (i >> 8) as u8, i as u8, 0xAC];
    // positive test: a string is an instance of java/lang/String
    {
        let mut heap = Heap::new();
        let l0 = loader();
        let string_obj = heap.alloc_string(&l0, "wow").unwrap();
        let (mut jvm, l) = test_general_frame(code, string_obj);
        assert!(heap_step(&mut jvm, &mut heap, &l).unwrap().is_none());
        let result = jvm.pop_stack().unwrap();
        assert!(result == Type::Integer(1));
    }
    // negative test: an int array is not
    {
        let mut heap = Heap::new();
        let array_obj = heap.alloc_array_primitive("I", vec![], 0).unwrap();
        let (mut jvm, l) = test_general_frame(code, array_obj);
        assert!(heap_step(&mut jvm, &mut heap, &l).unwrap().is_none());
        let result = jvm.pop_stack().unwrap();
        assert!(result == Type::Integer(0));
    }
}

#[test]
fn test_exec_instanceof_inheritance() {
    let l = loader();
    // positive test: an object of a subclass is an instance of its superclass
    {
        let mut heap = Heap::new();
        let local0 = heap.alloc_obj(&l, "Square").unwrap();
        let mut jvm = square_frame(vec![0xC1, 0, 4, 0xAC], &[local0]);
        assert!(heap_step(&mut jvm, &mut heap, &l).unwrap().is_none());
        let result = jvm.pop_stack().unwrap();
        assert!(result == Type::Integer(1));
    }
    // negative test: an object of the superclass is no instance of the subclass
    {
        let mut heap = Heap::new();
        let local1 = heap.alloc_obj(&l, "Base").unwrap();
        let mut jvm = square_frame(vec![0xC1, 0, 2, 0xAC], &[local1]);
        assert!(heap_step(&mut jvm, &mut heap, &l).unwrap().is_none());
        let result = jvm.pop_stack().unwrap();
        assert!(result == Type::Integer(0));
    }
}

/// A machine running `code` as a method of `Reader`, whose pool holds the
/// field reference `Base.count` (its index comes back), and the loader with it.
fn reader_frame(code_at: impl Fn(u16) -> Vec<u8>) -> (JVM, ClassLoader) {
    let (bytes, refs) = class_bytes_with_refs(
        "Reader",
        Some("java/lang/Object"),
        &[],
        ACC_PUBLIC,
        &[],
        &[],
        &[("Base", "count", "I")],
        &[],
    );
    let mut l = loader();
    l.add_class_file("Reader", ClassFile::parse_from_bytes(&bytes).unwrap());
    let mut jvm = JVM::new();
    jvm.push_frame(Frame::new("Reader".to_string(), "run".to_string(), "()V".to_string(), code_at(refs[0]), vec![]));
    (jvm, l)
}

#[test]
fn static_fields_wait_for_their_class_to_be_initialized() {
    let code = |i: u16| vec![0xB2, (i >> 8) as u8, i as u8, 0xB3, (i >> 8) as u8, i as u8, 0xB1];
    let (mut jvm, mut l) = reader_frame(code);
    let heap = Heap::new();
    assert!(matches!(jvm.step(), Ok(Step::Host(OpCode::GETSTATIC))));
    match jvm.exec_getstatic(&heap, &l).unwrap() {
        StaticAccess::Init(c, f) => {
            assert_eq!(c, "Base");
            assert_eq!(f, "count");
        }
        StaticAccess::Done => panic!("the class is not initialized yet"),
    }
    l.mark_init("Base").unwrap();
    assert!(matches!(jvm.finish_getstatic(&heap, &l, "Base", "count"), Ok(StaticAccess::Done)));
    assert_eq!(jvm.pop_stack().unwrap(), Type::Integer(0));
    jvm.push_stack(Type::Integer(5)).unwrap();
    assert!(matches!(jvm.step(), Ok(Step::Host(OpCode::PUTSTATIC))));
    assert!(matches!(jvm.exec_putstatic(&mut l), Ok(StaticAccess::Done)));
    assert_eq!(l.get_static_field("Base", "count").unwrap(), Type::Integer(5));
    // a subclass reads it through its superclass
    assert_eq!(l.get_static_field("Square", "count").unwrap(), Type::Integer(5));
}

#[test]
fn superclasses_are_initialized_first() {
    let mut l = loader();
    let mut order = vec![];
    while let Some(next) = l.next_class_to_init("Square").unwrap() {
        l.mark_init(&next).unwrap();
        order.push(next);
    }
    assert_eq!(order, vec!["java/lang/Object".to_string(), "Base".to_string(), "Square".to_string()]);
    assert_eq!(l.next_class_to_init("Base").unwrap(), None);
    assert!(matches!(l.next_class_to_init("Missing"), Err(InternalError::ClassNotFound(_))));
}

#[test]
fn arraycopy_copies_the_range_into_the_destination() {
    let l = loader();
    let mut heap = Heap::new();
    let src = heap
        .alloc_array_primitive("I", vec![Type::Integer(1), Type::Integer(2), Type::Integer(3), Type::Integer(4)], 4)
        .unwrap();
    let dest = heap.alloc_array_primitive("I", vec![], 5).unwrap();
    let mut jvm = square_frame(vec![0xB1], &[src, Type::Integer(1), dest, Type::Integer(2), Type::Integer(3)]);
    let r = jvm.call_native(&mut heap, &l, "java/lang/System", "arraycopy", "(Ljava/lang/Object;ILjava/lang/Object;II)V");
    assert!(matches!(r, Ok(Native::Done)));
    let d = heap.get_array_instance(dest.as_ref().unwrap()).unwrap();
    assert_eq!(
        d.elements,
        vec![Type::Integer(0), Type::Integer(0), Type::Integer(2), Type::Integer(3), Type::Integer(4)]
    );
    // a range past the end of the source is refused and copies nothing
    let mut jvm = square_frame(vec![0xB1], &[src, Type::Integer(2), dest, Type::Integer(0), Type::Integer(3)]);
    let r = jvm.call_native(&mut heap, &l, "java/lang/System", "arraycopy", "(Ljava/lang/Object;ILjava/lang/Object;II)V");
    assert!(matches!(r, Err(StepError::Internal(InternalError::General(_)))));
    assert_eq!(heap.get_array_instance(dest.as_ref().unwrap()).unwrap().elements[0], Type::Integer(0));
    // a source that is not an array
    let mut jvm = square_frame(vec![0xB1], &[Type::Integer(7), Type::Integer(0), dest, Type::Integer(0), Type::Integer(1)]);
    let r = jvm.call_native(&mut heap, &l, "java/lang/System", "arraycopy", "(Ljava/lang/Object;ILjava/lang/Object;II)V");
    assert!(matches!(r, Err(StepError::Internal(InternalError::WrongType("ArrayRef", Type::Integer(7))))));
}

#[test]
fn native_routines_that_stay_with_the_machine() {
    let l = loader();
    let mut heap = Heap::new();
    let sq = heap.alloc_obj(&l, "Square").unwrap();
    let mut jvm = square_frame(vec![0xB1], &[sq]);
    assert!(matches!(jvm.call_native(&mut heap, &l, "java/lang/Object", "hashCode", "()I"), Ok(Native::Done)));
    assert_eq!(jvm.pop_stack().unwrap(), Type::Integer(sq.as_ref().unwrap() as i32));
    assert!(matches!(jvm.call_native(&mut heap, &l, "Base", "registerNatives", "()V"), Ok(Native::Done)));
    let r = jvm.call_native(&mut heap, &l, "java/lang/Class", "desiredAssertionStatus0", "(Ljava/lang/Class;)Z");
    assert!(matches!(r, Ok(Native::Done)));
    assert_eq!(jvm.pop_stack().unwrap(), Type::Integer(1));
    assert!(matches!(
        jvm.call_native(&mut heap, &l, "java/lang/Runtime", "availableProcessors", "()I"),
        Ok(Native::Host(NativeRoutine::AvailableProcessors))
    ));
    assert!(matches!(
        jvm.call_native(&mut heap, &l, "Base", "nothingLikeThis", "()V"),
        Err(StepError::Runtime(RuntimeError::NotImplementedException))
    ));
}

#[test]
fn array_class_objects_carry_name_loader_and_component() {
    let mut l = loader();
    let class = class_bytes(
        "java/lang/Class",
        Some("java/lang/Object"),
        &[],
        ACC_PUBLIC,
        &[("name", "Ljava/lang/String;", 0), ("classLoader", "Ljava/lang/ClassLoader;", 0), ("componentType", "Ljava/lang/Class;", 0), ("module", "Ljava/lang/Module;", 0)],
        &[],
    );
    l.add_class_file("java/lang/Class", ClassFile::parse_from_bytes(&class).unwrap());
    let mut heap = Heap::new();
    let r = heap.alloc_class_obj(&l, "[I").unwrap();
    let x = r.as_ref().unwrap();
    assert!(heap.has_class_instance("[I"));
    assert!(heap.has_class_instance("I"));
    let o = heap.get_obj_instance(x).unwrap();
    assert_eq!(o.get_classname(), "java/lang/Class");
    assert_eq!(o.get_field("classLoader").unwrap(), Type::Null);
    let name = o.get_field("name").unwrap();
    assert_eq!(heap.get_string(name.as_ref().unwrap()).unwrap(), "[I");
    let component = o.get_field("componentType").unwrap();
    let int_class = heap.alloc_class_obj(&l, "I").unwrap();
    assert_eq!(component, int_class);
    // asking again gives the same object and makes nothing
    let before = heap.get_curr_obj_ref();
    assert_eq!(heap.alloc_class_obj(&l, "[I").unwrap(), r);
    assert_eq!(heap.get_curr_obj_ref(), before);
}

#[test]
fn get_class_gives_the_class_object_of_the_object() {
    let mut l = loader();
    let class = class_bytes(
        "java/lang/Class",
        Some("java/lang/Object"),
        &[],
        ACC_PUBLIC,
        &[("name", "Ljava/lang/String;", 0), ("classLoader", "Ljava/lang/ClassLoader;", 0), ("componentType", "Ljava/lang/Class;", 0)],
        &[],
    );
    l.add_class_file("java/lang/Class", ClassFile::parse_from_bytes(&class).unwrap());
    let mut heap = Heap::new();
    let arr = heap.alloc_array_primitive("I", vec![], 2).unwrap();
    let mut jvm = square_frame(vec![0xB1], &[arr]);
    assert!(matches!(jvm.call_native(&mut heap, &l, "java/lang/Object", "getClass", "()Ljava/lang/Class;"), Ok(Native::Done)));
    let c = jvm.pop_stack().unwrap();
    assert_eq!(heap.alloc_class_obj(&l, "[I").unwrap(), c);
    // the identity hash of an array is its reference
    let mut jvm = square_frame(vec![0xB1], &[arr]);
    assert!(matches!(jvm.call_native(&mut heap, &l, "java/lang/System", "identityHashCode", "(Ljava/lang/Object;)I"), Ok(Native::Done)));
    assert_eq!(jvm.pop_stack().unwrap(), Type::Integer(arr.as_ref().unwrap() as i32));
}

#[test]
fn class_objects_tell_arrays_and_primitives() {
    let mut l = loader();
    let class = class_bytes(
        "java/lang/Class",
        Some("java/lang/Object"),
        &[],
        ACC_PUBLIC,
        &[("name", "Ljava/lang/String;", 0), ("classLoader", "Ljava/lang/ClassLoader;", 0), ("componentType", "Ljava/lang/Class;", 0)],
        &[],
    );
    l.add_class_file("java/lang/Class", ClassFile::parse_from_bytes(&class).unwrap());
    let mut heap = Heap::new();
    let array_class = heap.alloc_class_obj(&l, "[I").unwrap();
    let int_class = heap.alloc_class_obj(&l, "I").unwrap();
    for (c, array, primitive) in [(array_class, true, false), (int_class, false, true)] {
        let mut jvm = square_frame(vec![0xB1], &[c]);
        assert!(matches!(jvm.call_native(&mut heap, &l, "java/lang/Class", "isArray", "()Z"), Ok(Native::Done)));
        assert_eq!(jvm.pop_stack().unwrap(), Type::Boolean(array));
        jvm.push_stack(c).unwrap();
        let r = jvm.call_native(&mut heap, &l, "java/lang/Class", "isPrimitive", "()Z");
        assert!(matches!(r, Ok(Native::Done)));
        assert_eq!(jvm.pop_stack().unwrap(), Type::Boolean(primitive));
    }
    let mut jvm = square_frame(vec![0xB1], &[array_class]);
    let r = jvm.call_native(&mut heap, &l, "jdk/internal/misc/Unsafe", "arrayIndexScale0", "(Ljava/lang/Class;)I");
    assert!(matches!(r, Ok(Native::Done)));
    assert_eq!(jvm.pop_stack().unwrap(), Type::Integer(4));
}

/// A loader with `java/lang/Class`, whose objects name their class.
fn loader_with_class_class() -> ClassLoader {
    let mut l = loader();
    let class = class_bytes(
        "java/lang/Class",
        Some("java/lang/Object"),
        &[],
        ACC_PUBLIC,
        &[("name", "Ljava/lang/String;", 0), ("classLoader", "Ljava/lang/ClassLoader;", 0), ("componentType", "Ljava/lang/Class;", 0)],
        &[],
    );
    l.add_class_file("java/lang/Class", ClassFile::parse_from_bytes(&class).unwrap());
    l
}

#[test]
fn class_reflection_routines() {
    let l = loader_with_class_class();
    let mut heap = Heap::new();
    // getPrimitiveClass("int") gives the Class object of `I`
    let int_name = heap.alloc_string(&l, "int").unwrap();
    let mut jvm = square_frame(vec![0xB1], &[int_name]);
    let r = jvm.call_native(&mut heap, &l, "java/lang/Class", "getPrimitiveClass", "(Ljava/lang/String;)Ljava/lang/Class;");
    assert!(matches!(r, Ok(Native::Done)));
    let int_class = jvm.pop_stack().unwrap();
    assert_eq!(heap.alloc_class_obj(&l, "I").unwrap(), int_class);
    // a Class object whose name is that of a loaded class: its flags and whether it is an interface
    let shape_name = heap.alloc_string(&l, "Shape").unwrap();
    let base_name = heap.alloc_string(&l, "Base").unwrap();
    for (name, flags) in [(shape_name, ACC_PUBLIC | ACC_INTERFACE | ACC_ABSTRACT), (base_name, ACC_PUBLIC)] {
        let c = heap.alloc_obj(&l, "java/lang/Class").unwrap();
        heap.get_obj_instance_mut(c.as_ref().unwrap()).unwrap().put_field("name", name).unwrap();
        let mut jvm = square_frame(vec![0xB1], &[c]);
        assert!(matches!(jvm.call_native(&mut heap, &l, "java/lang/Class", "getModifiers", "()I"), Ok(Native::Done)));
        assert_eq!(jvm.pop_stack().unwrap(), Type::Integer(flags as i32));
        jvm.push_stack(c).unwrap();
        assert!(matches!(jvm.call_native(&mut heap, &l, "java/lang/Class", "isInterface", "()Z"), Ok(Native::Done)));
        assert_eq!(jvm.pop_stack().unwrap(), Type::Boolean(flags & ACC_INTERFACE != 0));
    }
    // the access flags of the class of an object
    let sq = heap.alloc_obj(&l, "Square").unwrap();
    let mut jvm = square_frame(vec![0xB1], &[sq]);
    let r = jvm.call_native(&mut heap, &l, "jdk/internal/reflect/Reflection", "getClassAccessFlags", "(Ljava/lang/Class;)I");
    assert!(matches!(r, Ok(Native::Done)));
    assert_eq!(jvm.pop_stack().unwrap(), Type::Integer(ACC_PUBLIC as i32));
}

#[test]
fn clone_copies_cloneable_objects_only() {
    let l = loader();
    let mut heap = Heap::new();
    // arrays are cloneable when their class says so; `Square` is not
    let sq = heap.alloc_obj(&l, "Square").unwrap();
    let mut jvm = square_frame(vec![0xB1], &[sq]);
    let r = jvm.call_native(&mut heap, &l, "java/lang/Object", "clone", "()Ljava/lang/Object;");
    assert!(matches!(r, Err(StepError::Java(jvmcraft::errors::JavaException::CloneNotSupported(_)))));
    // an object of a class that implements Cloneable is copied with its fields
    let mut l = loader();
    let cloneable = class_bytes("java/lang/Cloneable", Some("java/lang/Object"), &[], ACC_PUBLIC | ACC_INTERFACE | ACC_ABSTRACT, &[], &[]);
    let twin = class_bytes("Twin", Some("java/lang/Object"), &["java/lang/Cloneable"], ACC_PUBLIC, &[("n", "I", 0)], &[]);
    l.add_class_file("java/lang/Cloneable", ClassFile::parse_from_bytes(&cloneable).unwrap());
    l.add_class_file("Twin", ClassFile::parse_from_bytes(&twin).unwrap());
    let t = heap.alloc_obj(&l, "Twin").unwrap();
    heap.get_obj_instance_mut(t.as_ref().unwrap()).unwrap().put_field("n", Type::Integer(9)).unwrap();
    let next = heap.get_curr_obj_ref();
    let mut jvm = square_frame(vec![0xB1], &[t]);
    let r = jvm.call_native(&mut heap, &l, "java/lang/Object", "clone", "()Ljava/lang/Object;");
    assert!(matches!(r, Ok(Native::Done)));
    assert_eq!(jvm.pop_stack().unwrap(), Type::ObjectRef(next));
    let copy = heap.get_obj_instance(next).unwrap();
    assert_eq!(copy.get_classname(), "Twin");
    assert_eq!(copy.get_field("n").unwrap(), Type::Integer(9));
}

#[test]
fn member_vm_info_of_a_method() {
    let mut l = loader_with_class_class();
    let member_name = class_bytes(
        "java/lang/invoke/MemberName",
        Some("java/lang/Object"),
        &[],
        ACC_PUBLIC,
        &[("clazz", "Ljava/lang/Class;", 0), ("name", "Ljava/lang/String;", 0), ("type", "Ljava/lang/Object;", 0), ("flags", "I", 0)],
        &[],
    );
    l.add_class_file("java/lang/invoke/MemberName", ClassFile::parse_from_bytes(&member_name).unwrap());
    let mut heap = Heap::new();
    let clazz = heap.alloc_obj(&l, "java/lang/Class").unwrap();
    let square = heap.alloc_string(&l, "Square").unwrap();
    heap.get_obj_instance_mut(clazz.as_ref().unwrap()).unwrap().put_field("name", square).unwrap();
    let area = heap.alloc_string(&l, "area").unwrap();
    let method_type = heap.alloc_obj(&l, "java/lang/Object").unwrap();
    let m = heap.alloc_obj(&l, "java/lang/invoke/MemberName").unwrap();
    {
        let o = heap.get_obj_instance_mut(m.as_ref().unwrap()).unwrap();
        o.put_field("clazz", clazz).unwrap();
        o.put_field("name", area).unwrap();
        o.put_field("type", method_type).unwrap();
        o.put_field("flags", Type::Integer(0x00010000)).unwrap();
    }
    let mut jvm = square_frame(vec![0xB1], &[m]);
    let r = jvm
        .call_native(&mut heap, &l, "java/lang/invoke/MethodHandleNatives", "getMemberVMInfo", "(Ljava/lang/invoke/MemberName;)Ljava/lang/Object;")
        .unwrap();
    match r {
        Native::DescribeMember { member_name, method_type: t, member_class, member, flags } => {
            assert_eq!(member_name, m.as_ref().unwrap());
            assert_eq!(Type::ObjectRef(t), method_type);
            assert_eq!(member_class, "Square");
            assert_eq!(member, "area");
            assert_eq!(flags, 0x00010000);
        }
        other => panic!("{:?}", other),
    }
    // the host described the method type as "()I"
    let descriptor = heap.alloc_string(&l, "()I").unwrap();
    let r = jvm.finish_member_vm_info(&mut heap, &l, m.as_ref().unwrap(), "Square", "area", 0x00010000, descriptor);
    assert!(matches!(r, Ok(Native::Done)));
    let info = jvm.pop_stack().unwrap();
    let arr = heap.get_array_instance(info.as_ref().unwrap()).unwrap().elements.clone();
    assert_eq!(arr.len(), 2);
    assert_eq!(arr[1], m);
    let slot = heap.get_obj_instance(arr[0].as_ref().unwrap()).unwrap();
    assert_eq!(slot.get_field("value").unwrap(), Type::Integer(0));
    let flags = heap.get_obj_instance(m.as_ref().unwrap()).unwrap().get_field("flags").unwrap();
    assert_eq!(flags, Type::Integer(0x00010000 | ACC_PUBLIC as i32));
}

/// A loader that knows `MemberName`, a direct and a bound method handle, a
/// lambda form, its names and their functions.
fn loader_with_handles() -> ClassLoader {
    let mut l = loader_with_class_class();
    let classes: [(&str, &[(&str, &str, u16)]); 6] = [
        ("java/lang/invoke/MemberName", &[("clazz", "Ljava/lang/Class;", 0), ("name", "Ljava/lang/String;", 0), ("type", "Ljava/lang/Object;", 0), ("flags", "I", 0)]),
        ("java/lang/invoke/DirectMethodHandle", &[("member", "Ljava/lang/invoke/MemberName;", 0), ("type", "Ljava/lang/Object;", 0)]),
        ("java/lang/invoke/BoundMethodHandle", &[("form", "Ljava/lang/Object;", 0), ("argL0", "Ljava/lang/Object;", 0)]),
        ("java/lang/invoke/LambdaForm", &[("names", "[Ljava/lang/Object;", 0), ("arity", "I", 0), ("result", "I", 0)]),
        ("java/lang/invoke/LambdaForm$Name", &[("index", "I", 0), ("arguments", "[Ljava/lang/Object;", 0), ("function", "Ljava/lang/Object;", 0)]),
        ("java/lang/invoke/LambdaForm$NamedFunction", &[("member", "Ljava/lang/invoke/MemberName;", 0)]),
    ];
    for (name, fields) in classes {
        let bytes = class_bytes(name, Some("java/lang/Object"), &[], ACC_PUBLIC, fields, &[]);
        l.add_class_file(name, ClassFile::parse_from_bytes(&bytes).unwrap());
    }
    l
}

/// A `MemberName` of `class_name.name` with `flags`.
fn member(heap: &mut Heap, l: &ClassLoader, class_name: &str, name: &str, flags: i32) -> Type {
    let clazz = heap.alloc_obj(l, "java/lang/Class").unwrap();
    let class_text = heap.alloc_string(l, class_name).unwrap();
    heap.get_obj_instance_mut(clazz.as_ref().unwrap()).unwrap().put_field("name", class_text).unwrap();
    let name_text = heap.alloc_string(l, name).unwrap();
    let method_type = heap.alloc_obj(l, "java/lang/Object").unwrap();
    let m = heap.alloc_obj(l, "java/lang/invoke/MemberName").unwrap();
    let o = heap.get_obj_instance_mut(m.as_ref().unwrap()).unwrap();
    o.put_field("clazz", clazz).unwrap();
    o.put_field("name", name_text).unwrap();
    o.put_field("type", method_type).unwrap();
    o.put_field("flags", Type::Integer(flags)).unwrap();
    m
}

/// A direct method handle on `member`, with the method type `method_type`.
fn direct_handle(heap: &mut Heap, l: &ClassLoader, member: Type, method_type: Type) -> u32 {
    let h = heap.alloc_obj(l, "java/lang/invoke/DirectMethodHandle").unwrap();
    let o = heap.get_obj_instance_mut(h.as_ref().unwrap()).unwrap();
    o.put_field("member", member).unwrap();
    o.put_field("type", method_type).unwrap();
    h.as_ref().unwrap()
}

#[test]
fn direct_method_handles_resolve_their_member() {
    let l = loader_with_handles();
    let mut heap = Heap::new();
    let method_type = heap.alloc_obj(&l, "java/lang/Object").unwrap();
    // a method: the handle leaves the arguments
    let m = member(&mut heap, &l, "Square", "area", 0x00010000);
    let h = direct_handle(&mut heap, &l, m, method_type);
    let call = JVM::call_direct_method_handle(&mut heap, &l, h, vec![Type::ObjectRef(h), Type::Integer(5)]).unwrap();
    assert_eq!(Type::ObjectRef(call.method_type), method_type);
    assert_eq!(call.class, "Square");
    assert_eq!(call.name, "area");
    assert_eq!(call.args, vec![Type::Integer(5)]);
    assert_eq!(call.this, None);
    assert!(!call.constructor);
    let described = heap.alloc_string(&l, "(I)I").unwrap();
    assert_eq!(direct_call_descriptor(&heap, &call, described).unwrap(), "(I)I");
    assert!(matches!(
        direct_call_descriptor(&heap, &call, Type::Integer(3)),
        Err(StepError::Internal(InternalError::WrongType(_, _)))
    ));
    // a constructor: a new object takes the handle's place, and the call returns nothing
    let c = member(&mut heap, &l, "java.lang.Object", "<init>", 0x00020000);
    let h = direct_handle(&mut heap, &l, c, method_type);
    let next = heap.next_obj_ref;
    let call = JVM::call_direct_method_handle(&mut heap, &l, h, vec![Type::ObjectRef(h), Type::Integer(5)]).unwrap();
    assert_eq!(call.class, "java/lang/Object");
    assert_eq!(call.this, Some(Type::ObjectRef(next)));
    assert_eq!(call.args, vec![Type::ObjectRef(next), Type::Integer(5)]);
    assert!(call.constructor);
    assert_eq!(heap.get_obj_instance(next).unwrap().get_classname(), "java/lang/Object");
    let described = heap.alloc_string(&l, "(I)Ljava/lang/Object;").unwrap();
    assert_eq!(direct_call_descriptor(&heap, &call, described).unwrap(), "(I)V");
    // a method reached as newInvokeSpecial makes its object too
    let s = member(&mut heap, &l, "java.lang.Object", "make", 0x00010000 | (8 << 24));
    let h = direct_handle(&mut heap, &l, s, method_type);
    let next = heap.next_obj_ref;
    let call = JVM::call_direct_method_handle(&mut heap, &l, h, vec![Type::ObjectRef(h)]).unwrap();
    assert_eq!(call.this, Some(Type::ObjectRef(next)));
    assert!(!call.constructor);
    // a field is not carried out
    let f = member(&mut heap, &l, "Square", "side", 0x00040000);
    let h = direct_handle(&mut heap, &l, f, method_type);
    assert!(matches!(
        JVM::call_direct_method_handle(&mut heap, &l, h, vec![Type::ObjectRef(h)]),
        Err(StepError::Internal(InternalError::NotImplemented))
    ));
}

/// A name of a lambda form: a parameter (`index`), or a call of `function`
/// with `arguments`.
fn lambda_name(heap: &mut Heap, l: &ClassLoader, index: i32, function: Option<(Type, Vec<Type>)>) -> Type {
    let n = heap.alloc_obj(l, "java/lang/invoke/LambdaForm$Name").unwrap();
    if let Some((member, arguments)) = function {
        let f = heap.alloc_obj(l, "java/lang/invoke/LambdaForm$NamedFunction").unwrap();
        heap.get_obj_instance_mut(f.as_ref().unwrap()).unwrap().put_field("member", member).unwrap();
        let args = heap.alloc_array("java/lang/Object", arguments, 0).unwrap();
        let o = heap.get_obj_instance_mut(n.as_ref().unwrap()).unwrap();
        o.put_field("function", f).unwrap();
        o.put_field("arguments", args).unwrap();
    }
    heap.get_obj_instance_mut(n.as_ref().unwrap()).unwrap().put_field("index", Type::Integer(index)).unwrap();
    n
}

#[test]
fn lambda_forms_are_interpreted_name_by_name() {
    let l = loader_with_handles();
    let mut heap = Heap::new();
    // (handle, x) -> handle.argL0.invokeBasic(x)
    let p0 = lambda_name(&mut heap, &l, 0, None);
    let p1 = lambda_name(&mut heap, &l, 1, None);
    let arg_l0 = member(&mut heap, &l, "java.lang.invoke.BoundMethodHandle", "argL0", 0x00040000);
    let n2 = lambda_name(&mut heap, &l, 2, Some((arg_l0, vec![p0])));
    let invoke = member(&mut heap, &l, "java.lang.invoke.MethodHandle", "invokeBasic", 0x00010000);
    let n2_again = lambda_name(&mut heap, &l, 2, None);
    let n3 = lambda_name(&mut heap, &l, 3, Some((invoke, vec![n2_again, p1])));
    let names = heap.alloc_array("java/lang/Object", vec![p0, p1, n2, n3], 0).unwrap();
    let form = heap.alloc_obj(&l, "java/lang/invoke/LambdaForm").unwrap();
    {
        let o = heap.get_obj_instance_mut(form.as_ref().unwrap()).unwrap();
        o.put_field("names", names).unwrap();
        o.put_field("arity", Type::Integer(2)).unwrap();
        o.put_field("result", Type::Integer(3)).unwrap();
    }
    let target = heap.alloc_obj(&l, "java/lang/Object").unwrap();
    let bound = heap.alloc_obj(&l, "java/lang/invoke/BoundMethodHandle").unwrap();
    {
        let o = heap.get_obj_instance_mut(bound.as_ref().unwrap()).unwrap();
        o.put_field("form", form).unwrap();
        o.put_field("argL0", target).unwrap();
    }
    let mut frame = JVM::lambda_form_start(&heap, bound.as_ref().unwrap(), &vec![bound, Type::Integer(5)]).unwrap();
    assert_eq!(frame.arity, 2);
    assert_eq!(frame.values, vec![bound, Type::Integer(5), Type::Void, Type::Void]);
    // argL0 is read from the handle
    match JVM::lambda_form_next(&heap, &frame, 2).unwrap() {
        LambdaAction::Value(v) => {
            assert_eq!(v, target);
            frame.values[2] = v;
        }
        other => panic!("{:?}", other),
    }
    // invokeBasic becomes a call, typed by all but its first argument
    match JVM::lambda_form_next(&heap, &frame, 3).unwrap() {
        LambdaAction::Invoke { class, name, descriptor, args } => {
            assert_eq!(class, "java/lang/invoke/MethodHandle");
            assert_eq!(name, "invokeBasic");
            assert_eq!(descriptor, "(I)Ljava/lang/Object");
            assert_eq!(args, vec![target, Type::Integer(5)]);
        }
        other => panic!("{:?}", other),
    }
    frame.values[3] = Type::Integer(12);
    assert_eq!(JVM::lambda_form_result(&heap, &frame).unwrap(), Type::Integer(12));
    // a long argument takes two places among the arguments and one among the names
    let mut frame = JVM::lambda_form_start(&heap, bound.as_ref().unwrap(), &vec![bound, Type::Long(7), Type::Long(7)]).unwrap();
    assert_eq!(frame.values, vec![bound, Type::Long(7), Type::Void, Type::Void]);
    frame.values[2] = target;
    match JVM::lambda_form_next(&heap, &frame, 3).unwrap() {
        LambdaAction::Invoke { descriptor, args, .. } => {
            assert_eq!(descriptor, "(J)Ljava/lang/Object");
            assert_eq!(args, vec![target, Type::Long(7), Type::Long(7)]);
        }
        other => panic!("{:?}", other),
    }
}

#[test]
fn routines_on_the_machine_state_alone() {
    let l = loader_with_class_class();
    let mut heap = Heap::new();
    // maxMemory and getCDSConfigStatus push their constants
    let mut jvm = square_frame(vec![0xB1], &[]);
    assert!(matches!(jvm.call_native(&mut heap, &l, "java/lang/Runtime", "maxMemory", "()J"), Ok(Native::Done)));
    assert_eq!(jvm.pop_stack().unwrap(), Type::Long(2000000));
    assert!(matches!(jvm.call_native(&mut heap, &l, "jdk/internal/misc/CDS", "getCDSConfigStatus", "()I"), Ok(Native::Done)));
    assert_eq!(jvm.pop_stack().unwrap(), Type::Integer(0));
    // initializeFromArchive and initialize leave the stack as it is; fillInStackTrace gives its object back
    let o = heap.alloc_obj(&l, "java/lang/Object").unwrap();
    let mut jvm = square_frame(vec![0xB1], &[o]);
    assert!(matches!(
        jvm.call_native(&mut heap, &l, "jdk/internal/misc/CDS", "initializeFromArchive", "(Ljava/lang/Class;)V"),
        Ok(Native::Done)
    ));
    assert!(matches!(jvm.call_native(&mut heap, &l, "jdk/internal/misc/VM", "initialize", "()V"), Ok(Native::Done)));
    assert!(matches!(
        jvm.call_native(&mut heap, &l, "java/lang/Throwable", "fillInStackTrace", "(I)Ljava/lang/Throwable;"),
        Ok(Native::Done)
    ));
    assert_eq!(jvm.pop_stack().unwrap(), o);
    // arrayBaseOffset0 of an array class is 0
    let clazz = heap.alloc_obj(&l, "java/lang/Class").unwrap();
    let name = heap.alloc_string(&l, "[I").unwrap();
    heap.get_obj_instance_mut(clazz.as_ref().unwrap()).unwrap().put_field("name", name).unwrap();
    let mut jvm = square_frame(vec![0xB1], &[clazz]);
    assert!(matches!(
        jvm.call_native(&mut heap, &l, "jdk/internal/misc/Unsafe", "arrayBaseOffset0", "(Ljava/lang/Class;)I"),
        Ok(Native::Done)
    ));
    assert_eq!(jvm.pop_stack().unwrap(), Type::Integer(0));
}

#[test]
fn field_offsets_count_from_the_class_that_declares_the_field() {
    let mut l = loader_with_class_class();
    let sub = class_bytes("Sub", Some("java/lang/Class"), &[], ACC_PUBLIC, &[("x", "I", 0)], &[]);
    l.add_class_file("Sub", ClassFile::parse_from_bytes(&sub).unwrap());
    assert_eq!(l.get_field_offset("java/lang/Class", "componentType").unwrap(), 2);
    assert_eq!(l.get_field_offset("Sub", "x").unwrap(), 0);
    assert_eq!(l.get_field_offset("Sub", "classLoader").unwrap(), 1);
    assert_eq!(l.get_field_offset("java.lang.Class", "name").unwrap(), 0);
    assert!(matches!(l.get_field_offset("Nowhere", "x"), Err(InternalError::ClassNotFound(_))));
    assert_eq!(l.get_field_by_offset("Sub", 0).unwrap().get_name(), "x");
    assert_eq!(l.get_field_by_offset("Sub", 2).unwrap().get_name(), "componentType");
    // Unsafe.objectFieldOffset1 pops the field's name and its class, and pushes the offset
    let mut heap = Heap::new();
    let clazz = heap.alloc_obj(&l, "java/lang/Class").unwrap();
    let class_name = heap.alloc_string(&l, "java.lang.Class").unwrap();
    heap.get_obj_instance_mut(clazz.as_ref().unwrap()).unwrap().put_field("name", class_name).unwrap();
    let field = heap.alloc_string(&l, "componentType").unwrap();
    let mut jvm = square_frame(vec![0xB1], &[clazz, field]);
    assert!(matches!(
        jvm.call_native(&mut heap, &l, "jdk/internal/misc/Unsafe", "objectFieldOffset1", "(Ljava/lang/Class;Ljava/lang/String;)J"),
        Ok(Native::Done)
    ));
    assert_eq!(jvm.pop_stack().unwrap(), Type::Long(2));
}

#[test]
fn system_properties_are_built_on_the_heap() {
    let l = loader_with_class_class();
    let mut heap = Heap::new();
    // platformProperties leaves a place for each of the 39 platform properties
    let mut jvm = square_frame(vec![0xB1], &[]);
    assert!(matches!(
        jvm.call_native(&mut heap, &l, "jdk/internal/util/SystemProps$Raw", "platformProperties", "()[Ljava/lang/String;"),
        Ok(Native::Done)
    ));
    let props = jvm.pop_stack().unwrap();
    let arr = heap.get_array_instance(props.as_ref().unwrap()).unwrap();
    assert_eq!(arr.elements.len(), 39);
    assert!(arr.elements.iter().all(|e| *e == Type::Null));
    // vmProperties is the host's: it reads the paths from the environment
    assert!(matches!(
        jvm.call_native(&mut heap, &l, "jdk/internal/util/SystemProps$Raw", "vmProperties", "()[Ljava/lang/String;"),
        Ok(Native::Host(NativeRoutine::VmProperties))
    ));
    assert!(matches!(
        jvm.vm_properties(&mut heap, &l, "", "/home/u", "/work", "/tmp", "/lib"),
        Err(StepError::Internal(InternalError::General(_)))
    ));
    assert!(matches!(jvm.vm_properties(&mut heap, &l, "/jdk", "/home/u", "/work", "/tmp", "/lib"), Ok(Native::Done)));
    let props = jvm.pop_stack().unwrap();
    let elements = heap.get_array_instance(props.as_ref().unwrap()).unwrap().elements.clone();
    assert_eq!(elements.len(), 42);
    let texts: Vec<String> = elements.iter().map(|e| heap.get_string(e.as_ref().unwrap()).unwrap()).collect();
    assert_eq!(texts[0], "java.vm.version");
    assert_eq!(texts[1], "23");
    assert_eq!(texts[4], "java.home");
    assert_eq!(texts[5], "/jdk");
    assert_eq!(texts[15], "/tmp");
    assert_eq!(texts[32], "sun.boot.library.path");
    assert_eq!(texts[33], "/jdk/lib");
    // equal texts share one string object
    assert_eq!(elements[17], elements[19]);
}

#[test]
fn routines_that_answer_constants() {
    let l = loader_with_class_class();
    let mut heap = Heap::new();
    let mut jvm = square_frame(vec![0xB1], &[]);
    let calls: [(&str, &str, &str, Type); 5] = [
        ("java/lang/ref/Finalizer", "isFinalizationEnabled", "()Z", Type::Boolean(false)),
        ("sun/nio/ch/IOUtil", "iovMax", "()I", Type::Integer(1024)),
        ("sun/nio/ch/IOUtil", "writevMax", "()J", Type::Long(2147483647)),
        ("java/net/InetAddress", "isIPv6Supported", "()Z", Type::Boolean(true)),
        ("java/net/InetAddress", "isIPv4Available", "()Z", Type::Boolean(true)),
    ];
    for (c, n, t, expected) in calls {
        assert!(matches!(jvm.call_native(&mut heap, &l, c, n, t), Ok(Native::Done)));
        assert_eq!(jvm.pop_stack().unwrap(), expected);
    }
    // notifyAll pops its object; the others leave the stack alone
    let o = heap.alloc_obj(&l, "java/lang/Object").unwrap();
    let mut jvm = square_frame(vec![0xB1], &[Type::Integer(9), o]);
    assert!(matches!(jvm.call_native(&mut heap, &l, "java/lang/Object", "notifyAll", "()V"), Ok(Native::Done)));
    assert!(matches!(jvm.call_native(&mut heap, &l, "java/io/FileDescriptor", "initIDs", "()V"), Ok(Native::Done)));
    assert!(matches!(jvm.call_native(&mut heap, &l, "java/net/InetAddress", "init", "()V"), Ok(Native::Done)));
    assert_eq!(jvm.pop_stack().unwrap(), Type::Integer(9));
    let mut jvm = square_frame(vec![0xB1], &[Type::Integer(9)]);
    assert!(matches!(
        jvm.call_native(&mut heap, &l, "java/lang/Object", "notifyAll", "()V"),
        Err(StepError::Internal(InternalError::WrongType(_, _)))
    ));
}

#[test]
fn superclasses_of_class_objects() {
    let mut l = loader();
    let class = class_bytes(
        "java/lang/Class",
        Some("java/lang/Object"),
        &[],
        ACC_PUBLIC,
        &[("name", "Ljava/lang/String;", 0), ("classLoader", "Ljava/lang/ClassLoader;", 0), ("componentType", "Ljava/lang/Class;", 0), ("module", "Ljava/lang/Module;", 0)],
        &[],
    );
    l.add_class_file("java/lang/Class", ClassFile::parse_from_bytes(&class).unwrap());
    l.modulemanager.add(77, false, None, "jrt:/java.base".to_string(), vec!["java/lang/Object".to_string()]);
    let l = l;
    let mut heap = Heap::new();
    let class_obj = |heap: &mut Heap, name: &str| {
        let c = heap.alloc_obj(&l, "java/lang/Class").unwrap();
        let n = heap.alloc_string(&l, name).unwrap();
        heap.get_obj_instance_mut(c.as_ref().unwrap()).unwrap().put_field("name", n).unwrap();
        c
    };
    let class_class = class_obj(&mut heap, "java.lang.Class");
    assert_eq!(heap.get_class_from_class_obj(&l, class_class.as_ref().unwrap()).unwrap().get_name(), "java/lang/Class");
    let object_class = class_obj(&mut heap, "java.lang.Object");
    // Object has no superclass
    let mut jvm = square_frame(vec![0xB1], &[object_class]);
    assert!(matches!(jvm.call_native(&mut heap, &l, "java/lang/Class", "getSuperclass", "()Ljava/lang/Class;"), Ok(Native::Done)));
    assert_eq!(jvm.pop_stack().unwrap(), Type::Null);
    // Class's superclass is Object, whose Class object is made on demand
    let mut jvm = square_frame(vec![0xB1], &[class_class]);
    assert!(matches!(jvm.call_native(&mut heap, &l, "java/lang/Class", "getSuperclass", "()Ljava/lang/Class;"), Ok(Native::Done)));
    let sup = jvm.pop_stack().unwrap();
    assert_eq!(sup, Type::ObjectRef(heap.get_class_instance(&l, "java/lang/Object").unwrap().get_ref()));
    // an unknown class
    let nowhere = class_obj(&mut heap, "Nowhere");
    assert!(matches!(heap.get_class_from_class_obj(&l, nowhere.as_ref().unwrap()), Err(InternalError::ClassNotFound(_))));
}

#[test]
fn assignability_compares_the_classes_of_the_two_objects() {
    let l = loader_with_class_class();
    let mut heap = Heap::new();
    let a = heap.alloc_obj(&l, "java/lang/Class").unwrap();
    let b = heap.alloc_obj(&l, "java/lang/Class").unwrap();
    let mut jvm = square_frame(vec![0xB1], &[a, b]);
    assert!(matches!(jvm.call_native(&mut heap, &l, "java/lang/Class", "isAssignableFrom", "(Ljava/lang/Class;)Z"), Ok(Native::Done)));
    assert_eq!(jvm.pop_stack().unwrap(), Type::Boolean(true));
    // a value that is no object is refused
    let mut jvm = square_frame(vec![0xB1], &[a, Type::Integer(1)]);
    assert!(matches!(
        jvm.call_native(&mut heap, &l, "java/lang/Class", "isAssignableFrom", "(Ljava/lang/Class;)Z"),
        Err(StepError::Internal(InternalError::General(_)))
    ));
}

#[test]
fn init_class_name_names_the_object_by_its_own_class() {
    let l = loader_with_class_class();
    let mut heap = Heap::new();
    let c = heap.alloc_obj(&l, "java/lang/Class").unwrap();
    let mut jvm = square_frame(vec![0xB1], &[c]);
    assert!(matches!(jvm.call_native(&mut heap, &l, "java/lang/Class", "initClassName", "()Ljava/lang/String;"), Ok(Native::Done)));
    let name = jvm.pop_stack().unwrap();
    assert_eq!(heap.get_string(name.as_ref().unwrap()).unwrap(), "java.lang.Class");
    assert_eq!(heap.get_obj_instance(c.as_ref().unwrap()).unwrap().get_field("name").unwrap(), name);
    // the string is interned
    assert_eq!(heap.alloc_string(&l, "java.lang.Class").unwrap(), name);
}
