use jvmcraft::errors::InternalError;
use jvmcraft::frame::Frame;
use jvmcraft::jvm::{Step, StepError, JVM};
use jvmcraft::types::Type;

fn machine(code: Vec<u8>, locals: Vec<Type>) -> JVM {
    let mut jvm = JVM::new();
    jvm.push_frame(Frame::new("F".to_string(), "run".to_string(), "()F".to_string(), code, locals));
    jvm
}

#[test]
fn float_constants_go_through_locals_and_back() {
    // fconst_1, fstore_0, fload_0, freturn
    let mut jvm = machine(vec![0x0C, 0x43, 0x22, 0xAE], vec![Type::Void]);
    for _ in 0..3 {
        assert!(matches!(jvm.step().unwrap(), Step::Done(None)));
    }
    assert!(matches!(jvm.step().unwrap(), Step::Done(Some(Type::Float(b))) if b == 1.0f32.to_bits()));
    assert!(jvm.frames.is_empty());
}

#[test]
fn float_and_double_constant_bits() {
    let mut jvm = machine(vec![0x0B, 0x0D, 0x0E, 0x0F], vec![]);
    for _ in 0..4 {
        jvm.step().unwrap();
    }
    assert_eq!(jvm.pop_stack().unwrap(), Type::Double(1.0f64.to_bits()));
    assert_eq!(jvm.pop_stack().unwrap(), Type::Double(0.0f64.to_bits()));
    assert_eq!(jvm.pop_stack().unwrap(), Type::Float(2.0f32.to_bits()));
    assert_eq!(jvm.pop_stack().unwrap(), Type::Float(0.0f32.to_bits()));
}

#[test]
fn loads_check_the_kind_of_the_local() {
    let mut jvm = machine(vec![0x26, 0x22], vec![Type::Double(7), Type::Integer(1)]);
    assert!(jvm.step().is_ok());
    assert_eq!(jvm.pop_stack().unwrap(), Type::Double(7));
    let mut jvm = machine(vec![0x22], vec![Type::Integer(1)]);
    assert!(matches!(jvm.step(), Err(StepError::Internal(InternalError::WrongType("Float", Type::Integer(1))))));
    // fstore takes only floats
    let mut jvm = machine(vec![0x43], vec![Type::Void]);
    jvm.push_stack(Type::Integer(3)).unwrap();
    assert!(matches!(jvm.step(), Err(StepError::Internal(InternalError::WrongType("Number", Type::Integer(3))))));
}
