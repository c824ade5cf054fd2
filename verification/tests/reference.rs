use jvmcraft::frame::Frame;
use jvmcraft::jvm::JVM;
use jvmcraft::opcode::OpCode;
use jvmcraft::types::Type;

fn jvm_with(method: &str, code: Vec<u8>) -> JVM {
    let mut jvm = JVM::new();
    jvm.push_frame(Frame::new(
        "TestReference".to_string(),
        method.to_string(),
        "()V".to_string(),
        code,
        vec![Type::Void; 8],
    ));
    jvm
}

fn top(jvm: &mut JVM) -> &mut Frame {
    jvm.frames.last_mut().unwrap()
}

#[test]
fn test_exec_aconstnull() {
    let mut jvm = jvm_with("aconstnull", vec![]);
    assert!(jvm.exec_aconstnull().unwrap().is_none());
    let null = top(&mut jvm).pop_stack().unwrap();
    assert!(null == Type::Null);
}

#[test]
fn test_exec_aload() {
    let mut jvm = jvm_with("aload", vec![]);
    let makers: [fn(u32) -> Type; 3] = [|i| Type::ObjectRef(i), |i| Type::ArrayRef(i), |_i| Type::Null];
    for make in makers {
        for i in 0..5u32 {
            let test = make(23 + i);
            top(&mut jvm).set_local(i as usize, test);
            assert!(jvm.exec_aload(i as usize).unwrap().is_none());
            let check = top(&mut jvm).pop_stack().unwrap();
            assert!(test == check);
        }
    }
    top(&mut jvm).set_local(0, Type::Long(23));
    assert!(jvm.exec_aload(0).is_err())
}

#[test]
fn test_exec_astore() {
    let mut jvm = jvm_with("astore", vec![]);
    let makers: [fn(u32) -> Type; 3] = [|i| Type::ObjectRef(i), |i| Type::ArrayRef(i), |_i| Type::Null];
    for make in makers {
        for i in 0..5u32 {
            let test = make(23 + i);
            top(&mut jvm).push_stack(test);
            assert!(jvm.exec_astore(i as usize).unwrap().is_none());
            let local = jvm.get_current_frame().unwrap().get_local(i as usize).unwrap();
            assert!(test == *local);
        }
    }
    for i in 0..5 {
        top(&mut jvm).push_stack(Type::Long(23 + i));
        assert!(jvm.exec_astore(i as usize).is_err());
    }
}

#[test]
fn test_exec_if_acmp() {
    let posjump = 4;
    let negjump = 3;
    let values = vec![
        (Type::Null, Type::Null),
        (Type::Null, Type::ObjectRef(23)),
        (Type::ObjectRef(23), Type::Null),
        (Type::Null, Type::ArrayRef(23)),
        (Type::ArrayRef(23), Type::Null),
        (Type::ObjectRef(23), Type::ObjectRef(23)),
        (Type::ObjectRef(23), Type::ObjectRef(46)),
        (Type::ArrayRef(23), Type::ArrayRef(23)),
        (Type::ArrayRef(23), Type::ArrayRef(46)),
        (Type::ObjectRef(23), Type::ArrayRef(23)),
        (Type::ArrayRef(23), Type::ObjectRef(23)),
    ];
    let opcodes = vec![OpCode::IFACMPEQ, OpCode::IFACMPNE];
    for (v1, v2) in values {
        for opcode in &opcodes {
            let mut code = vec![0u8; 6];
            code.push(opcode.to_byte().unwrap());
            code.extend_from_slice(&[0, 4, 0, 0, 0, 0, 0, 0]);
            let mut jvm = jvm_with("if_acmp", code);
            top(&mut jvm).push_stack(v1);
            top(&mut jvm).push_stack(v2);
            for _ in 0..7 {
                assert!(top(&mut jvm).read_ju1().is_ok());
            }
            let prev_pc = jvm.get_current_frame().unwrap().get_pc() - 1;
            top(&mut jvm)._set_last_opcode_pc(prev_pc);
            assert!(jvm.exec_if_acmp(*opcode).unwrap().is_none());
            let pc = jvm.get_current_frame().unwrap().get_pc();
            if *opcode == OpCode::IFACMPEQ {
                if v1 == v2 {
                    assert!(pc == prev_pc + posjump);
                } else {
                    assert!(pc == prev_pc + negjump);
                }
            }
            if *opcode == OpCode::IFACMPNE {
                if v1 != v2 {
                    assert!(pc == prev_pc + posjump);
                } else {
                    assert!(pc == prev_pc + negjump);
                }
            }
        }
    }
}

#[test]
fn test_exec_areturn() {
    let mut jvm = jvm_with("areturn", vec![]);
    jvm.push_frame(Frame::new(
        "TestReference".to_string(),
        "if_acmp".to_string(),
        "()V".to_string(),
        vec![],
        vec![],
    ));
    let v1 = 23;
    top(&mut jvm).push_stack(Type::ObjectRef(v1));
    assert!(jvm.get_current_frame().unwrap().get_classname() == "TestReference");
    assert!(jvm.get_current_frame().unwrap().get_func_name() == "if_acmp");
    assert!(Some(Type::ObjectRef(v1)) == jvm.exec_areturn().unwrap());
    assert!(jvm.get_current_frame().unwrap().get_classname() == "TestReference");
    assert!(jvm.get_current_frame().unwrap().get_func_name() == "areturn");
    let res = top(&mut jvm).pop_stack().unwrap();
    assert!(res == Type::ObjectRef(v1));
}
