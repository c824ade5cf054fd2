use jvmcraft::class_loader::class_file::ClassFile;
use jvmcraft::class_loader::attribute_info::Attributes;
use jvmcraft::class_loader::constant_pool::ConstantPool;
use jvmcraft::class_loader::format::FormatError;
use jvmcraft::types::Type;
use jvmcraft::class_loader::attributes::{StackMapFrame, StackMapFrameEnum, VerificationTypeInfoEnum};

fn utf8(out: &mut Vec<u8>, s: &str) {
    out.push(1);
    out.extend_from_slice(&(s.len() as u16).to_be_bytes());
    out.extend_from_slice(s.as_bytes());
}

fn class_entry(out: &mut Vec<u8>, name_index: u16) {
    out.push(7);
    out.extend_from_slice(&name_index.to_be_bytes());
}

/// A class `Foo` extending `java/lang/Object` with a static int field `count`
/// and a static method `main()V` whose code is a single `return`.
fn minimal_class() -> Vec<u8> {
    class_with_super(4)
}

fn class_with_super(super_index: u16) -> Vec<u8> {
    let mut b = vec![0xCA, 0xFE, 0xBA, 0xBE, 0, 0, 0, 52];
    b.extend_from_slice(&10u16.to_be_bytes());
    utf8(&mut b, "Foo"); // 1
    class_entry(&mut b, 1); // 2
    utf8(&mut b, "java/lang/Object"); // 3
    class_entry(&mut b, 3); // 4
    utf8(&mut b, "main"); // 5
    utf8(&mut b, "()V"); // 6
    utf8(&mut b, "Code"); // 7
    utf8(&mut b, "count"); // 8
    utf8(&mut b, "I"); // 9
    b.extend_from_slice(&[0x00, 0x21, 0x00, 0x02]);
    b.extend_from_slice(&super_index.to_be_bytes());
    b.extend_from_slice(&[0x00, 0x00]); // no interfaces
    b.extend_from_slice(&[0x00, 0x01, 0x00, 0x08, 0x00, 0x08, 0x00, 0x09, 0x00, 0x00]); // static int count
    b.extend_from_slice(&[0x00, 0x01]); // one method
    b.extend_from_slice(&[0x00, 0x09, 0x00, 0x05, 0x00, 0x06, 0x00, 0x01]);
    b.extend_from_slice(&[0x00, 0x07, 0x00, 0x00, 0x00, 0x0D]);
    b.extend_from_slice(&[0x00, 0x01, 0x00, 0x02, 0x00, 0x00, 0x00, 0x01, 0xB1, 0x00, 0x00, 0x00, 0x00]);
    b.extend_from_slice(&[0x00, 0x00]); // no class attributes
    b
}

#[test]
fn parse_minimal_class() {
    let class = ClassFile::parse_from_bytes(&minimal_class()).unwrap();
    assert_eq!(class.magic, 0xCAFEBABE);
    assert_eq!(class.major_version, 52);
    assert_eq!(class.get_name(), "Foo");
    assert_eq!(class.get_parent_name(), "java/lang/Object");
    assert!(class.has_parent());
    assert!(!class.is_interface());
    assert_eq!(class.get_access_flags(), 0x21);
    assert!(class.get_interfaces().is_empty());
    let methods = class.get_methods();
    assert_eq!(methods.len(), 1);
    assert_eq!(methods[0].get_name(), "main");
    assert_eq!(methods[0].get_descriptor(), "()V");
    assert!(methods[0].is_static());
    assert!(methods[0].has_code());
    let code = methods[0].get_code().unwrap();
    assert_eq!(code.get_max_locals(), 2);
    assert_eq!(code.get_code_vec(), &vec![0xB1u8]);
    assert!(class.has_function("main", "()V"));
    assert!(!class.has_function("main", "(I)V"));
}

#[test]
fn static_fields_start_at_their_defaults_and_keep_writes() {
    let mut class = ClassFile::parse_from_bytes(&minimal_class()).unwrap();
    assert_eq!(class.get_fields().len(), 1);
    assert_eq!(class.get_static_field("count").unwrap(), Type::Integer(0));
    class.put_static_field("count", Type::Integer(7)).unwrap();
    assert_eq!(class.get_static_field("count").unwrap(), Type::Integer(7));
    assert!(class.get_static_field("missing").is_err());
    assert_eq!(class.get_static_field("jfrTracing").unwrap(), Type::Boolean(false));
    assert_eq!(class.get_field_offset("count").unwrap(), 0);
    assert_eq!(class.get_field_by_offset(0).unwrap().get_name(), "count");
    assert!(class.get_field_offset("other").is_err());
}

#[test]
fn constant_pool_resolution() {
    let class = ClassFile::parse_from_bytes(&minimal_class()).unwrap();
    assert_eq!(class.resolve_name(5).unwrap(), "main");
    assert_eq!(class.resolve_class_name(2).unwrap(), "Foo");
    assert!(class.resolve_class_name(5).is_err());
    assert!(class.resolve_name(0).is_err());
    assert!(class.resolve_name(40).is_err());
}

#[test]
fn wrong_utf8_tag_is_refused() {
    // a pool whose only entry has the unknown tag 99
    let bytes = vec![0x00, 0x02, 99, 0x00, 0x00, 0x00, 0x00, 0x00, 0x00];
    assert!(matches!(ConstantPool::parse(&bytes), Err(FormatError::UnknownConstantTag(99))));
}

#[test]
fn init_marks_the_class() {
    let mut class = ClassFile::parse_from_bytes(&minimal_class()).unwrap();
    assert!(!class.get_init());
    class.init();
    assert!(class.get_init());
}

#[test]
fn array_classes_extend_object() {
    let class = ClassFile::create_array("[I".to_string());
    assert_eq!(class.get_name(), "[I");
    assert_eq!(class.get_parent_name(), "java/lang/Object");
    assert_eq!(
        class.get_interfaces(),
        &vec!["java/lang/Cloneable".to_string(), "java/io/Serializable".to_string()]
    );
}

#[test]
fn super_class_must_name_a_class_entry() {
    // the super class index points at a Utf8 entry
    assert!(ClassFile::parse_from_bytes(&class_with_super(3)).is_err());
}

#[test]
fn append_frames_carry_their_new_locals() {
    let bytes = [252u8, 0x00, 0x05, 0x01];
    let (f, n) = StackMapFrame::parse_at(&bytes, 0).unwrap();
    assert_eq!(n, 4);
    assert_eq!(f.frame_type, 252);
    match f.frame_enum {
        StackMapFrameEnum::AppendFrame { offset_delta, locals } => {
            assert_eq!(offset_delta, 5);
            assert_eq!(locals.len(), 1);
            assert_eq!(locals[0].tag, 1);
            assert!(matches!(locals[0].info, VerificationTypeInfoEnum::Integer));
        }
        other => panic!("not an append frame: {:?}", other),
    }
}

#[test]
fn an_attribute_table_has_as_many_entries_as_its_count() {
    let cp = ConstantPool::parse(&[0, 1]).unwrap().0;
    let (a, n) = Attributes::parse(&[0, 0], &cp).unwrap();
    assert_eq!(a.len(), 0);
    assert_eq!(n, 2);
}
