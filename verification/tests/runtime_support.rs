use jvmcraft::errors::{InternalError, JavaException};
use jvmcraft::frame::Frame;
use jvmcraft::jvm::{Step, StepError, JVM};
use jvmcraft::lambdamanager::LambdaManager;
use jvmcraft::modulemanager::ModuleManager;
use jvmcraft::nativememory::NativeMemory;
use jvmcraft::natives::{native_routine, NativeRoutine};
use jvmcraft::class_loader::static_fields::StaticFields;
use jvmcraft::opcode::OpCode;
use jvmcraft::types::Type;
use jvmcraft::utils::{
    descriptor_to_class_name, get_argument_class_names, get_default_value, get_index_scale,
    get_return_type_descriptor, ju2_from_bytes, ju4_from_bytes, sign_extend16, sign_extend8,
    NonceGenerator,
};

fn jvm_with_code(code: Vec<u8>, locals: usize) -> JVM {
    let mut jvm = JVM::new();
    jvm.push_frame(Frame::new(
        "Main".to_string(),
        "run".to_string(),
        "()I".to_string(),
        code,
        vec![Type::Void; locals],
    ));
    jvm
}

fn top(jvm: &mut JVM) -> &mut Frame {
    jvm.frames.last_mut().unwrap()
}

#[test]
fn sign_extension_of_bytes_and_shorts() {
    assert_eq!(sign_extend8(0x7F), 127);
    assert_eq!(sign_extend8(0x80), -128);
    assert_eq!(sign_extend8(0xFF), -1);
    assert_eq!(sign_extend16(0x7FFF), 32767);
    assert_eq!(sign_extend16(0x8000), -32768);
    assert_eq!(sign_extend16(0xFFFE), -2);
}

#[test]
fn big_endian_reads() {
    assert_eq!(ju2_from_bytes(&[0x12, 0x34]).unwrap(), 0x1234);
    assert_eq!(ju4_from_bytes(&[0xCA, 0xFE, 0xBA, 0xBE]).unwrap(), 0xCAFEBABE);
    assert!(ju2_from_bytes(&[0x12]).is_err());
    assert!(ju4_from_bytes(&[1, 2, 3]).is_err());
}

#[test]
fn descriptors() {
    assert_eq!(get_return_type_descriptor("(II)Ljava/lang/String;"), "java/lang/String");
    assert_eq!(get_return_type_descriptor("()V"), "V");
    assert_eq!(descriptor_to_class_name("Ljava/lang/String;"), "java/lang/String");
    assert_eq!(descriptor_to_class_name("I"), "I");
    assert_eq!(
        get_argument_class_names("(I[JLjava/lang/Object;[[Ljava/lang/String;)V").unwrap(),
        vec!["I", "J", "java/lang/Object", "java/lang/String"]
    );
    assert_eq!(get_argument_class_names("()V").unwrap(), Vec::<String>::new());
}

#[test]
fn index_scales_and_defaults() {
    assert_eq!(get_index_scale("[J"), 8);
    assert_eq!(get_index_scale("[I"), 4);
    assert_eq!(get_index_scale("[B"), 1);
    assert_eq!(get_default_value("I"), Type::Integer(0));
    assert_eq!(get_default_value("J"), Type::Long(0));
    assert_eq!(get_default_value("Z"), Type::Boolean(false));
    assert_eq!(get_default_value("Ljava/lang/Object;"), Type::Null);
}

#[test]
fn nonces_count_up() {
    let mut g = NonceGenerator::new();
    let a = g.generate_nonce();
    let b = g.generate_nonce();
    assert_eq!(b, a + 1);
}

#[test]
fn exception_class_names_round_trip() {
    let e = JavaException::Arithmetic;
    let name = JavaException::convert_java_exception_to_classname(&e);
    assert_eq!(name, "java/lang/ArithmeticException");
    let back = JavaException::convert_classname_to_java_exception(name, String::new());
    assert!(matches!(back, JavaException::Arithmetic));
    let npe = JavaException::convert_classname_to_java_exception("java/lang/NullPointerException", String::new());
    assert!(matches!(npe, JavaException::NullPointer));
}

#[test]
fn lambda_call_sites() {
    assert_eq!(LambdaManager::gen_key("A", "m", 12), "A_m_12");
    let mut lm = LambdaManager::new();
    assert_eq!(lm.get_call_site("A", "m", 12), None);
    lm.add_call_site("A", "m", 12, 7);
    assert_eq!(lm.get_call_site("A", "m", 12), Some(7));
    // a second record for the same site is ignored
    lm.add_call_site("A", "m", 12, 9);
    assert_eq!(lm.get_call_site("A", "m", 12), Some(7));
    assert_eq!(lm.get_call_site("A", "m", 13), None);
}

#[test]
fn native_memory_blocks() {
    let mut mem = NativeMemory::new();
    mem.register(1000, 16);
    assert!(mem.is_valid(1000));
    assert!(mem.is_valid(1015));
    assert_eq!(mem._get(1000).unwrap(), 16);
    assert!(matches!(mem._get(1001), Err(InternalError::SegmentationFault(1001))));
    mem.register(1000, 32);
    assert_eq!(mem._get(1000).unwrap(), 32);
}

#[test]
fn modules_and_packages() {
    let mut mm = ModuleManager::new();
    mm.add(5, true, None, "java.base".to_string(), vec!["java/lang".to_string(), "java/util".to_string()]);
    assert_eq!(mm.get(5).unwrap().get_name(), "java.base");
    assert_eq!(mm.get_module_by_class("java/util").unwrap().get_obj_ref(), 5);
    assert!(mm.get(6).is_err());
    assert!(mm.get_module_by_class("com/example").is_err());
    mm.add(6, false, None, "app".to_string(), vec!["java/util".to_string()]);
    assert_eq!(mm.get_module_by_class("java/util").unwrap().get_obj_ref(), 6);
    assert_eq!(mm.get_module_by_class("java/lang").unwrap().get_obj_ref(), 5);
    let m = mm.get_mut(6).unwrap();
    m.add_read(5);
    m.add_read(5);
    assert_eq!(m.read, vec![5]);
    m.add_export_to_module(5, "java/util".to_string());
    m.add_export_to_module(5, "java/util".to_string());
    assert_eq!(m.exports.len(), 1);
    assert_eq!(m.exports[0].1, vec!["java/util".to_string()]);
}

#[test]
fn static_field_read_after_write() {
    let mut sf = StaticFields::new();
    assert!(sf.get("x").is_none());
    sf.insert("x".to_string(), Type::Integer(1));
    sf.insert("y".to_string(), Type::Long(2));
    sf.insert("x".to_string(), Type::Integer(3));
    assert_eq!(sf.get("x"), Some(&Type::Integer(3)));
    assert_eq!(sf.get("y"), Some(&Type::Long(2)));
}

#[test]
fn long_values_take_two_slots() {
    let mut jvm = jvm_with_code(vec![], 4);
    jvm.push_stack(Type::Long(5)).unwrap();
    assert_eq!(jvm.get_current_frame().unwrap().stack_len(), 2);
    jvm.push_stack(Type::Long(7)).unwrap();
    assert!(jvm.exec_ladd().unwrap().is_none());
    assert_eq!(jvm.pop_loperand().unwrap(), 12);
    assert_eq!(jvm.get_current_frame().unwrap().stack_len(), 0);
}

#[test]
fn long_division_by_zero_is_arithmetic() {
    let mut jvm = jvm_with_code(vec![], 4);
    jvm.push_stack(Type::Long(5)).unwrap();
    jvm.push_stack(Type::Long(0)).unwrap();
    assert!(matches!(jvm.exec_ldiv(), Err(StepError::Java(JavaException::Arithmetic))));
}

#[test]
fn int_division_overflow_wraps() {
    let mut jvm = jvm_with_code(vec![], 1);
    jvm.push_stack(Type::Integer(i32::MIN)).unwrap();
    jvm.push_stack(Type::Integer(-1)).unwrap();
    assert!(jvm.exec_idiv().unwrap().is_none());
    assert_eq!(jvm.pop_ioperand().unwrap(), i32::MIN);
    jvm.push_stack(Type::Integer(-7)).unwrap();
    jvm.push_stack(Type::Integer(2)).unwrap();
    assert!(jvm.exec_irem().unwrap().is_none());
    assert_eq!(jvm.pop_ioperand().unwrap(), -1);
}

#[test]
fn long_compare() {
    for (a, b, expected) in [(1i64, 2i64, -1), (2, 2, 0), (3, 2, 1)] {
        let mut jvm = jvm_with_code(vec![], 1);
        jvm.push_stack(Type::Long(a)).unwrap();
        jvm.push_stack(Type::Long(b)).unwrap();
        assert!(jvm.exec_lcmp().unwrap().is_none());
        assert_eq!(jvm.pop_ioperand().unwrap(), expected);
    }
}

#[test]
fn dup_variants() {
    let mut jvm = jvm_with_code(vec![], 1);
    jvm.push_stack(Type::Integer(1)).unwrap();
    jvm.push_stack(Type::Integer(2)).unwrap();
    assert!(jvm.exec_dupx1().unwrap().is_none());
    assert_eq!(jvm.pop_ioperand().unwrap(), 2);
    assert_eq!(jvm.pop_ioperand().unwrap(), 1);
    assert_eq!(jvm.pop_ioperand().unwrap(), 2);
    jvm.push_stack(Type::Integer(3)).unwrap();
    assert!(jvm.exec_dup().unwrap().is_none());
    assert_eq!(jvm.get_current_frame().unwrap().stack_len(), 2);
}

#[test]
fn empty_stack_pop_fails() {
    let mut jvm = jvm_with_code(vec![], 1);
    assert!(matches!(jvm.pop_stack(), Err(StepError::Internal(InternalError::EmptyStack))));
    let mut empty = JVM::new();
    assert!(matches!(empty.pop_stack(), Err(StepError::Internal(InternalError::FrameNotFound))));
}

#[test]
fn step_runs_a_small_method() {
    // iconst_2; iconst_3; iadd; ireturn
    let mut jvm = jvm_with_code(vec![0x05, 0x06, 0x60, 0xAC], 0);
    jvm.push_frame(Frame::new("Main".to_string(), "add".to_string(), "()I".to_string(), vec![0x05, 0x06, 0x60, 0xAC], vec![]));
    assert!(matches!(jvm.step().unwrap(), Step::Done(None)));
    assert!(matches!(jvm.step().unwrap(), Step::Done(None)));
    assert!(matches!(jvm.step().unwrap(), Step::Done(None)));
    assert!(matches!(jvm.step().unwrap(), Step::Done(Some(Type::Integer(5)))));
    assert_eq!(jvm.counter, 4);
    assert_eq!(jvm.frames.len(), 1);
    assert_eq!(top(&mut jvm).pop_stack().unwrap(), Type::Integer(5));
}

#[test]
fn step_hands_heap_work_to_the_host() {
    // new #1
    let mut jvm = jvm_with_code(vec![0xBB, 0x00, 0x01], 0);
    assert!(matches!(jvm.step().unwrap(), Step::Host(OpCode::NEW)));
    assert_eq!(jvm.get_current_frame().unwrap().get_pc(), 1);
}

#[test]
fn branch_back_and_forth() {
    // goto +3; nop; nop
    let mut jvm = jvm_with_code(vec![0xA7, 0x00, 0x03, 0x00, 0x00], 0);
    assert!(matches!(jvm.step().unwrap(), Step::Done(None)));
    assert_eq!(jvm.get_current_frame().unwrap().get_pc(), 3);
}

#[test]
fn native_methods_are_dispatched_by_class_name_and_descriptor() {
    assert_eq!(native_routine("java/lang/Object", "hashCode", "()I"), Some(NativeRoutine::HashCode));
    assert_eq!(native_routine("java/lang/Object", "hashCode", "()J"), None);
    // entries that leave the class and the descriptor open
    assert_eq!(native_routine("any/Class", "registerNatives", "()V"), Some(NativeRoutine::RegisterNatives));
    assert_eq!(native_routine("java/lang/Object", "getClass", "()Ljava/lang/Class;"), Some(NativeRoutine::GetClass));
    assert_eq!(
        native_routine("java/lang/System", "arraycopy", "(Ljava/lang/Object;ILjava/lang/Object;II)V"),
        Some(NativeRoutine::Arraycopy)
    );
    assert_eq!(native_routine("java/lang/Object", "clone", "()Ljava/lang/Object;"), Some(NativeRoutine::Clone));
    assert_eq!(native_routine("com/example/Foo", "bar", "()V"), None);
}
