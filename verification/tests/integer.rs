use jvmcraft::frame::Frame;
use jvmcraft::heap::Heap;
use jvmcraft::jvm::JVM;
use jvmcraft::opcode::OpCode;
use jvmcraft::types::Type;

/// Code of a method whose seventh byte is a branch instruction with offset 4.
fn branch_code(opcode: OpCode) -> Vec<u8> {
    let mut code = vec![0u8; 6];
    code.push(opcode.to_byte().unwrap());
    code.push(0);
    code.push(4);
    code.extend_from_slice(&[0u8; 11]);
    code
}

/// Code of a method whose fifth byte starts the operands of `iinc 0 2`.
fn iinc_code() -> Vec<u8> {
    vec![0, 0, 0, 0, 0, 2, 177, 0, 0, 0]
}

fn jvm_with(method: &str, code: Vec<u8>) -> JVM {
    let mut jvm = JVM::new();
    jvm.push_frame(Frame::new(
        "TestInteger".to_string(),
        method.to_string(),
        "()V".to_string(),
        code,
        vec![Type::Void; 8],
    ));
    jvm
}

fn top(jvm: &mut JVM) -> &mut Frame {
    jvm.frames.last_mut().unwrap()
}

#[test]
fn test_exec_pop_ioperand_integer() {
    let mut jvm = jvm_with("pop_ioperand", vec![]);
    let test = Type::Integer(23);
    top(&mut jvm).push_stack(test);
    let local = jvm.pop_ioperand().unwrap();
    assert!(test == Type::Integer(local));
}

#[test]
fn test_exec_pop_ioperand_short() {
    let mut jvm = jvm_with("pop_ioperand", vec![]);
    let test = Type::Short(23);
    top(&mut jvm).push_stack(test);
    let local = jvm.pop_ioperand().unwrap();
    assert!(test == Type::Short(local as i16));
}

#[test]
fn test_exec_pop_ioperand_byte() {
    let mut jvm = jvm_with("pop_ioperand", vec![]);
    let test = Type::Byte(23);
    top(&mut jvm).push_stack(test);
    let local = jvm.pop_ioperand().unwrap();
    assert!(test == Type::Byte(local as i8));
}

#[test]
fn test_exec_pop_ioperand_character() {
    let mut jvm = jvm_with("pop_ioperand", vec![]);
    let test = Type::Character(23);
    top(&mut jvm).push_stack(test);
    let local = jvm.pop_ioperand().unwrap();
    assert!(test == Type::Character(local as i8));
}

#[test]
fn test_exec_pop_ioperand_boolean() {
    let mut jvm = jvm_with("pop_ioperand", vec![]);
    let test = Type::Boolean(true);
    top(&mut jvm).push_stack(test);
    let local = jvm.pop_ioperand().unwrap();
    assert!(test == Type::Boolean(local != 0));
}

#[test]
fn test_exec_pop_ioperand_null() {
    let mut jvm = jvm_with("pop_ioperand", vec![]);
    top(&mut jvm).push_stack(Type::Null);
    assert!(jvm.pop_ioperand().is_err());
}

#[test]
fn test_exec_pop_ioperands() {
    let mut jvm = jvm_with("pop_ioperand", vec![]);
    let v1 = 23;
    let v2 = 24;
    top(&mut jvm).push_stack(Type::Integer(v1));
    top(&mut jvm).push_stack(Type::Integer(v2));
    let (rv1, rv2) = jvm.pop_ioperands().unwrap();
    assert!(rv1 == v1);
    assert!(rv2 == v2);
}

fn check_iload(make: fn(i32) -> Type) {
    let mut jvm = jvm_with("iload", vec![]);
    for i in 0..5 {
        let test = make(23 + i);
        top(&mut jvm).set_local(i as usize, test);
        assert!(jvm.exec_iload(i as usize).unwrap().is_none());
        let check = top(&mut jvm).pop_stack().unwrap();
        assert!(test == check);
    }
}

#[test]
fn test_exec_iload_integer() {
    check_iload(|v| Type::Integer(v));
}

#[test]
fn test_exec_iload_short() {
    check_iload(|v| Type::Short(v as i16));
}

#[test]
fn test_exec_iload_byte() {
    check_iload(|v| Type::Byte(v as i8));
}

#[test]
fn test_exec_iload_character() {
    check_iload(|v| Type::Character(v as i8));
}

#[test]
fn test_exec_iload_long() {
    let mut jvm = jvm_with("iload", vec![]);
    top(&mut jvm).set_local(0, Type::Long(23));
    assert!(jvm.exec_iload(0).is_err())
}

fn check_istore(jvm: &mut JVM, make: fn(i32) -> Type) {
    for i in 0..5 {
        let test = make(23 + i);
        top(jvm).push_stack(test);
        assert!(jvm.exec_istore(i as usize).unwrap().is_none());
        let local = jvm.get_current_frame().unwrap().get_local(i as usize).unwrap();
        assert!(test == *local);
    }
}

#[test]
fn test_exec_istore() {
    let mut jvm = jvm_with("istore", vec![]);
    check_istore(&mut jvm, |v| Type::Integer(v));
    check_istore(&mut jvm, |v| Type::Short(v as i16));
    check_istore(&mut jvm, |v| Type::Byte(v as i8));
    for i in 0..5 {
        top(&mut jvm).push_stack(Type::Long(23 + i));
        assert!(jvm.exec_istore(i as usize).is_err());
    }
}

#[test]
fn test_exec_istore_integer() {
    let mut jvm = jvm_with("istore", vec![]);
    check_istore(&mut jvm, |v| Type::Integer(v));
}

#[test]
fn test_exec_istore_short() {
    let mut jvm = jvm_with("istore", vec![]);
    check_istore(&mut jvm, |v| Type::Short(v as i16));
}

#[test]
fn test_exec_istore_byte() {
    let mut jvm = jvm_with("istore", vec![]);
    check_istore(&mut jvm, |v| Type::Byte(v as i8));
}

#[test]
fn test_exec_istore_character() {
    let mut jvm = jvm_with("istore", vec![]);
    check_istore(&mut jvm, |v| Type::Character(v as i8));
}

#[test]
fn test_exec_istore_long() {
    let mut jvm = jvm_with("istore", vec![]);
    for i in 0..5 {
        top(&mut jvm).push_stack(Type::Long(23 + i));
        assert!(jvm.exec_istore(i as usize).is_err());
    }
}

#[test]
fn test_exec_istore_null() {
    let mut jvm = jvm_with("istore", vec![]);
    for i in 0..5 {
        top(&mut jvm).push_stack(Type::Null);
        assert!(jvm.exec_istore(i as usize).is_err());
    }
}

#[test]
fn test_exec_iconst() {
    let mut jvm = jvm_with("iconst", vec![]);
    for i in 0..5 {
        assert!(jvm.exec_iconst(i).unwrap().is_none());
        let local = top(&mut jvm).pop_stack().unwrap();
        assert!(Type::Integer(i) == local);
    }
}

fn binary(method: &str, v1: i32, v2: i32, op: fn(&mut JVM) -> Option<Type>) -> Type {
    let mut jvm = jvm_with(method, vec![]);
    top(&mut jvm).push_stack(Type::Integer(v1));
    top(&mut jvm).push_stack(Type::Integer(v2));
    assert!(op(&mut jvm).is_none());
    top(&mut jvm).pop_stack().unwrap()
}

#[test]
fn test_exec_iushr() {
    let (v1, v2) = (23, 24);
    let res = binary("iushr", v1, v2, |j| j.exec_iushr().unwrap());
    assert!(res == Type::Integer(v1 >> (v2 & 0x1F)))
}

#[test]
fn test_exec_ishl() {
    let (v1, v2) = (23, 24);
    let res = binary("ishl", v1, v2, |j| j.exec_ishl().unwrap());
    assert!(res == Type::Integer(v1 << (v2 & 0x1F)))
}

#[test]
fn test_exec_ishr() {
    let (v1, v2) = (23, 24);
    let res = binary("ishr", v1, v2, |j| j.exec_ishr().unwrap());
    assert!(res == Type::Integer(v1 >> (v2 & 0x1F)))
}

fn unary(v1: i32, op: fn(&mut JVM) -> Option<Type>) -> Type {
    let mut jvm = jvm_with("i2", vec![]);
    top(&mut jvm).push_stack(Type::Integer(v1));
    assert!(op(&mut jvm).is_none());
    top(&mut jvm).pop_stack().unwrap()
}

#[test]
fn test_exec_i2l() {
    let v1 = 23;
    assert!(unary(v1, |j| j.exec_i2l().unwrap()) == Type::Long(v1 as i64));
}

#[test]
fn test_exec_i2s() {
    let v1 = 23;
    assert!(unary(v1, |j| j.exec_i2s().unwrap()) == Type::Short(v1 as i16));
}

#[test]
fn test_exec_i2c() {
    let v1 = 23;
    assert!(unary(v1, |j| j.exec_i2c().unwrap()) == Type::Character(v1 as i8));
}

#[test]
fn test_exec_i2b() {
    let v1 = 23;
    assert!(unary(v1, |j| j.exec_i2b().unwrap()) == Type::Byte(v1 as i8));
}

/// A machine positioned on the branch instruction of `branch_code`.
fn at_branch(class: &str, method: &str, opcode: OpCode) -> (JVM, usize) {
    let mut jvm = JVM::new();
    jvm.push_frame(Frame::new(class.to_string(), method.to_string(), "()V".to_string(), branch_code(opcode), vec![]));
    for _ in 0..7 {
        assert!(top(&mut jvm).read_ju1().is_ok());
    }
    let prev_pc = jvm.get_current_frame().unwrap().get_pc() - 1;
    top(&mut jvm)._set_last_opcode_pc(prev_pc);
    (jvm, prev_pc)
}

#[test]
fn test_exec_if() {
    let offset = 4;
    let values = vec![-23, 0, 23];
    let opcodes = vec![OpCode::IFEQ, OpCode::IFNE, OpCode::IFLT, OpCode::IFLE, OpCode::IFGT, OpCode::IFGE];
    for opcode in opcodes {
        for value in &values {
            let (mut jvm, prev_pc) = at_branch("TestInteger", "_if", opcode);
            top(&mut jvm).push_stack(Type::Integer(*value));
            assert!(jvm.exec_if(opcode).unwrap().is_none());
            if (opcode == OpCode::IFEQ && *value == 0)
                || (opcode == OpCode::IFNE && *value != 0)
                || (opcode == OpCode::IFLT && *value < 0)
                || (opcode == OpCode::IFLE && *value <= 0)
                || (opcode == OpCode::IFGT && *value > 0)
                || (opcode == OpCode::IFGE && *value >= 0)
            {
                assert!(jvm.get_current_frame().unwrap().get_pc() == prev_pc + offset);
            } else {
                assert!(jvm.get_current_frame().unwrap().get_pc() == prev_pc + 3);
            }
        }
    }
}

#[test]
fn test_exec_if_icmp() {
    let offset = 4;
    let values1 = vec![-10, 23, 7, 3, 8, 42];
    let values2 = vec![-10, 3, 7, 5, 3, 23];
    assert!(values1.len() == values2.len());
    let opcodes = vec![
        OpCode::IFICMPEQ,
        OpCode::IFICMPNE,
        OpCode::IFICMPLT,
        OpCode::IFICMPLE,
        OpCode::IFICMPGT,
        OpCode::IFICMPGE,
    ];
    for opcode in opcodes {
        for i in 0..values1.len() {
            let (mut jvm, prev_pc) = at_branch("TestInteger", "_if", opcode);
            top(&mut jvm).push_stack(Type::Integer(values1[i]));
            top(&mut jvm).push_stack(Type::Integer(values2[i]));
            assert!(jvm.exec_if_icmp(opcode).unwrap().is_none());
            if (opcode == OpCode::IFICMPEQ && values1[i] == values2[i])
                || (opcode == OpCode::IFICMPNE && values1[i] != values2[i])
                || (opcode == OpCode::IFICMPLT && values1[i] < values2[i])
                || (opcode == OpCode::IFICMPLE && values1[i] <= values2[i])
                || (opcode == OpCode::IFICMPGT && values1[i] > values2[i])
                || (opcode == OpCode::IFICMPGE && values1[i] >= values2[i])
            {
                assert!(jvm.get_current_frame().unwrap().get_pc() == prev_pc + offset);
            } else {
                assert!(jvm.get_current_frame().unwrap().get_pc() == prev_pc + 3);
            }
        }
    }
}

fn binary_null_fails(op: fn(&mut JVM) -> bool) {
    let mut jvm = jvm_with("arithmetic", vec![]);
    top(&mut jvm).push_stack(Type::Null);
    top(&mut jvm).push_stack(Type::Null);
    assert!(op(&mut jvm));
}

#[test]
fn test_exec_iadd() {
    let (v1, v2) = (23, 25);
    assert!(binary("arithmetic", v1, v2, |j| j.exec_iadd().unwrap()) == Type::Integer(v1 + v2));
}

#[test]
fn test_exec_iadd_null() {
    binary_null_fails(|j| j.exec_iadd().is_err());
}

#[test]
fn test_exec_isub() {
    let (v1, v2) = (23, 25);
    assert!(binary("arithmetic", v1, v2, |j| j.exec_isub().unwrap()) == Type::Integer(v1 - v2));
}

#[test]
fn test_exec_isub_null() {
    binary_null_fails(|j| j.exec_isub().is_err());
}

#[test]
fn test_exec_idiv() {
    let (v1, v2) = (23, 25);
    assert!(binary("arithmetic", v1, v2, |j| j.exec_idiv().unwrap()) == Type::Integer(v1 / v2));
}

#[test]
fn test_exec_idiv_null() {
    binary_null_fails(|j| j.exec_idiv().is_err());
}

#[test]
fn test_exec_idiv_zero_division() {
    let mut jvm = jvm_with("arithmetic", vec![]);
    top(&mut jvm).push_stack(Type::Integer(23));
    top(&mut jvm).push_stack(Type::Integer(0));
    assert!(jvm.exec_idiv().is_err());
}

#[test]
fn test_exec_irem() {
    let (v1, v2) = (23, 25);
    assert!(binary("arithmetic", v1, v2, |j| j.exec_irem().unwrap()) == Type::Integer(v1 % v2));
}

#[test]
fn test_exec_irem_null() {
    binary_null_fails(|j| j.exec_irem().is_err());
}

#[test]
fn test_exec_irem_zero_division() {
    let mut jvm = jvm_with("arithmetic", vec![]);
    top(&mut jvm).push_stack(Type::Integer(23));
    top(&mut jvm).push_stack(Type::Integer(0));
    assert!(jvm.exec_irem().is_err());
}

#[test]
fn test_exec_imul() {
    let (v1, v2) = (23, 25);
    assert!(binary("arithmetic", v1, v2, |j| j.exec_imul().unwrap()) == Type::Integer(v1 * v2));
}

#[test]
fn test_exec_imul_null() {
    binary_null_fails(|j| j.exec_imul().is_err());
}

#[test]
fn test_exec_ineg() {
    let mut jvm = jvm_with("arithmetic", vec![]);
    let v1 = 23;
    top(&mut jvm).push_stack(Type::Integer(v1));
    assert!(jvm.exec_ineg().unwrap().is_none());
    assert!(top(&mut jvm).pop_stack().unwrap() == Type::Integer(-v1));
}

#[test]
fn test_exec_ineg_null() {
    let mut jvm = jvm_with("arithmetic", vec![]);
    top(&mut jvm).push_stack(Type::Null);
    assert!(jvm.exec_ineg().is_err());
}

#[test]
fn test_exec_iinc() {
    let mut jvm = jvm_with("arithmetic", iinc_code());
    for _ in 0..4 {
        assert!(top(&mut jvm).read_ju1().is_ok());
    }
    let v1 = 23;
    top(&mut jvm).set_local(0, Type::Integer(v1));
    assert!(jvm.exec_iinc().unwrap().is_none());
    let local0 = jvm.get_current_frame().unwrap().get_local(0).unwrap();
    assert!(local0 == &Type::Integer(v1 + 2));
}

#[test]
fn test_exec_iinc_null() {
    let mut jvm = jvm_with("arithmetic", iinc_code());
    for _ in 0..4 {
        assert!(top(&mut jvm).read_ju1().is_ok());
    }
    top(&mut jvm).set_local(0, Type::Null);
    assert!(jvm.exec_iinc().is_err());
}

#[test]
fn test_exec_ixor() {
    let (v1, v2) = (23, 25);
    assert!(binary("arithmetic", v1, v2, |j| j.exec_ixor().unwrap()) == Type::Integer(v1 ^ v2));
}

#[test]
fn test_exec_ixor_null() {
    binary_null_fails(|j| j.exec_ixor().is_err());
}

#[test]
fn test_exec_ior() {
    let (v1, v2) = (23, 25);
    assert!(binary("arithmetic", v1, v2, |j| j.exec_ior().unwrap()) == Type::Integer(v1 | v2));
}

#[test]
fn test_exec_ior_null() {
    binary_null_fails(|j| j.exec_ior().is_err());
}

#[test]
fn test_exec_iand() {
    let (v1, v2) = (23, 25);
    assert!(binary("arithmetic", v1, v2, |j| j.exec_iand().unwrap()) == Type::Integer(v1 & v2));
}

#[test]
fn test_exec_iand_null() {
    binary_null_fails(|j| j.exec_iand().is_err());
}

fn two_frames() -> JVM {
    let mut jvm = jvm_with("ireturn", vec![]);
    jvm.push_frame(Frame::new(
        "TestInteger".to_string(),
        "arithmetic".to_string(),
        "()V".to_string(),
        vec![],
        vec![],
    ));
    jvm
}

#[test]
fn test_exec_ireturn() {
    let mut jvm = two_frames();
    let v1 = 23;
    top(&mut jvm).push_stack(Type::Integer(v1));
    assert!(jvm.get_current_frame().unwrap().get_classname() == "TestInteger");
    assert!(jvm.get_current_frame().unwrap().get_func_name() == "arithmetic");
    assert!(Some(Type::Integer(v1)) == jvm.exec_ireturn().unwrap());
    assert!(jvm.get_current_frame().unwrap().get_classname() == "TestInteger");
    assert!(jvm.get_current_frame().unwrap().get_func_name() == "ireturn");
    let res = top(&mut jvm).pop_stack().unwrap();
    assert!(res == Type::Integer(v1));
}

#[test]
fn test_exec_ireturn_wrong_type() {
    let mut jvm = two_frames();
    let v1: f32 = 23.0;
    top(&mut jvm).push_stack(Type::Float(v1.to_bits()));
    assert!(jvm.get_current_frame().unwrap().get_classname() == "TestInteger");
    assert!(jvm.get_current_frame().unwrap().get_func_name() == "arithmetic");
    assert!(jvm.exec_ireturn().is_err());
}

#[test]
fn test_exec_iaload() {
    let mut jvm = jvm_with("arithmetic", vec![]);
    let mut heap = Heap::new();
    let elements = vec![Type::Integer(23), Type::Integer(46)];
    let array = heap.alloc_array_primitive("I", elements.clone(), 0).unwrap();
    let index = 0;
    top(&mut jvm).push_stack(array);
    top(&mut jvm).push_stack(Type::Integer(index));
    assert!(jvm.exec_iaload(&heap).unwrap().is_none());
    let check_value = jvm.pop_stack().unwrap();
    assert!(elements[index as usize] == check_value);
}

#[test]
fn test_exec_iaload_not_array() {
    let mut jvm = jvm_with("arithmetic", vec![]);
    let heap = Heap::new();
    let index = 0;
    top(&mut jvm).push_stack(Type::Null);
    top(&mut jvm).push_stack(Type::Integer(index));
    assert!(jvm.exec_iaload(&heap).is_err());
}

#[test]
fn test_exec_iaload_wrong_type() {
    let mut jvm = jvm_with("arithmetic", vec![]);
    let mut heap = Heap::new();
    let elements = vec![Type::Float(23.0f32.to_bits()), Type::Float(46.0f32.to_bits())];
    let array = heap.alloc_array_primitive("F", elements.clone(), 0).unwrap();
    let index = 0;
    top(&mut jvm).push_stack(array);
    top(&mut jvm).push_stack(Type::Integer(index));
    assert!(jvm.exec_iaload(&heap).is_err());
}

#[test]
fn test_exec_iastore() {
    let mut jvm = jvm_with("arithmetic", vec![]);
    let mut heap = Heap::new();
    let array_ref = heap.alloc_array_primitive("I", vec![], 6).unwrap();
    let index = Type::Integer(0);
    let value = Type::Integer(23);
    top(&mut jvm).push_stack(array_ref);
    top(&mut jvm).push_stack(index);
    top(&mut jvm).push_stack(value);
    assert!(jvm.exec_iastore(&mut heap).unwrap().is_none());
    let array = heap.get_array_instance(array_ref.as_ref().unwrap()).unwrap();
    assert!(*array.get(0).unwrap() == value);
}

#[test]
fn test_exec_iastore_not_array() {
    let mut jvm = jvm_with("arithmetic", vec![]);
    let mut heap = Heap::new();
    let index = Type::Integer(0);
    let value = Type::Integer(23);
    top(&mut jvm).push_stack(Type::Null);
    top(&mut jvm).push_stack(index);
    top(&mut jvm).push_stack(value);
    assert!(jvm.exec_iastore(&mut heap).is_err());
}

#[test]
fn test_exec_iastore_wrong_type() {
    let mut jvm = jvm_with("arithmetic", vec![]);
    let mut heap = Heap::new();
    let array_ref = heap.alloc_array_primitive("F", vec![], 6).unwrap();
    let index = Type::Integer(0);
    let value = Type::Float(23.0f32.to_bits());
    top(&mut jvm).push_stack(array_ref);
    top(&mut jvm).push_stack(index);
    top(&mut jvm).push_stack(value);
    assert!(jvm.exec_iastore(&mut heap).is_err());
}

#[test]
fn integer_array_index_out_of_bounds_is_a_java_exception() {
    let mut jvm = jvm_with("arithmetic", vec![]);
    let mut heap = Heap::new();
    let array = heap.alloc_array_primitive("I", vec![], 2).unwrap();
    top(&mut jvm).push_stack(array);
    top(&mut jvm).push_stack(Type::Integer(2));
    assert!(jvm.exec_iaload(&heap).is_err());
}

#[test]
fn arraylength_pushes_the_number_of_elements() {
    let mut jvm = jvm_with("arithmetic", vec![]);
    let mut heap = Heap::new();
    let array = heap.alloc_array_primitive("I", vec![], 5).unwrap();
    top(&mut jvm).push_stack(array);
    assert!(jvm.exec_arraylength(&heap).unwrap().is_none());
    assert_eq!(jvm.pop_stack().unwrap(), Type::Integer(5));
}

#[test]
fn long_arrays_store_then_load() {
    let mut jvm = jvm_with("arithmetic", vec![]);
    let mut heap = Heap::new();
    let array = heap.alloc_array_primitive("J", vec![], 3).unwrap();
    top(&mut jvm).push_stack(array);
    top(&mut jvm).push_stack(Type::Integer(2));
    jvm.push_stack(Type::Long(1 << 40)).unwrap();
    assert!(jvm.exec_lastore(&mut heap).unwrap().is_none());
    top(&mut jvm).push_stack(array);
    jvm.push_stack(Type::Long(2)).unwrap();
    assert!(jvm.exec_laload(&heap).unwrap().is_none());
    assert_eq!(jvm.pop_stack().unwrap(), Type::Long(1 << 40));
}

#[test]
fn byte_char_and_short_arrays_load_and_store() {
    let mut heap = Heap::new();
    let mut jvm = jvm_with("arithmetic", vec![]);
    let b = heap.alloc_array_primitive("B", vec![], 2).unwrap();
    top(&mut jvm).push_stack(b);
    top(&mut jvm).push_stack(Type::Integer(1));
    top(&mut jvm).push_stack(Type::Integer(300));
    assert!(jvm.exec_bastore(&mut heap).unwrap().is_none());
    top(&mut jvm).push_stack(b);
    top(&mut jvm).push_stack(Type::Integer(1));
    assert!(jvm.exec_baload(&heap).unwrap().is_none());
    assert_eq!(jvm.pop_stack().unwrap(), Type::Byte(44));

    let c = heap.alloc_array_primitive("C", vec![], 1).unwrap();
    top(&mut jvm).push_stack(c);
    top(&mut jvm).push_stack(Type::Integer(0));
    top(&mut jvm).push_stack(Type::Integer(65));
    assert!(jvm.exec_castore(&mut heap).unwrap().is_none());
    top(&mut jvm).push_stack(c);
    top(&mut jvm).push_stack(Type::Integer(0));
    assert!(jvm.exec_caload(&heap).unwrap().is_none());
    assert_eq!(jvm.pop_stack().unwrap(), Type::Character(65));

    let s = heap.alloc_array_primitive("S", vec![], 1).unwrap();
    top(&mut jvm).push_stack(s);
    top(&mut jvm).push_stack(Type::Integer(0));
    top(&mut jvm).push_stack(Type::Integer(70000));
    assert!(jvm.exec_sastore(&mut heap).unwrap().is_none());
    top(&mut jvm).push_stack(s);
    top(&mut jvm).push_stack(Type::Integer(0));
    assert!(jvm.exec_saload(&heap).unwrap().is_none());
    assert_eq!(jvm.pop_stack().unwrap(), Type::Short(70000i32 as i16));

    // a store into an array of another element type fails
    top(&mut jvm).push_stack(s);
    top(&mut jvm).push_stack(Type::Integer(0));
    top(&mut jvm).push_stack(Type::Integer(1));
    assert!(jvm.exec_bastore(&mut heap).is_err());
}

#[test]
fn saload_takes_an_int_index_only() {
    let mut heap = Heap::new();
    let mut jvm = jvm_with("arithmetic", vec![]);
    let s = heap.alloc_array_primitive("S", vec![], 1).unwrap();
    top(&mut jvm).push_stack(s);
    top(&mut jvm).push_stack(Type::Short(0));
    assert!(jvm.exec_saload(&heap).is_err());
}

#[test]
fn aaload_reads_references() {
    let mut heap = Heap::new();
    let mut jvm = jvm_with("arithmetic", vec![]);
    let inner = heap.alloc_array_primitive("I", vec![], 1).unwrap();
    let outer = heap.alloc_array("[I", vec![inner, Type::Null], 0).unwrap();
    top(&mut jvm).push_stack(outer);
    top(&mut jvm).push_stack(Type::Integer(0));
    assert!(jvm.exec_aaload(&heap).unwrap().is_none());
    assert_eq!(jvm.pop_stack().unwrap(), inner);
    top(&mut jvm).push_stack(outer);
    top(&mut jvm).push_stack(Type::Integer(5));
    assert!(jvm.exec_aaload(&heap).is_err());
}
