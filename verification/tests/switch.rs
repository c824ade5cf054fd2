use jvmcraft::errors::InternalError;
use jvmcraft::frame::Frame;
use jvmcraft::jvm::{JVM, Step, StepError};
use jvmcraft::types::Type;

fn word(v: i32) -> [u8; 4] {
    v.to_be_bytes()
}

/// `tableswitch` at the start of the code, with the given default, bounds and
/// jump table, followed by zero bytes up to 40 bytes.
fn tableswitch_code(default: i32, low: i32, high: i32, table: &[i32]) -> Vec<u8> {
    let mut code = vec![170u8, 0, 0, 0];
    code.extend_from_slice(&word(default));
    code.extend_from_slice(&word(low));
    code.extend_from_slice(&word(high));
    for t in table {
        code.extend_from_slice(&word(*t));
    }
    code.resize(40, 0);
    code
}

/// `lookupswitch` at the start of the code, with the given default and pairs,
/// followed by zero bytes up to 40 bytes.
fn lookupswitch_code(default: i32, npairs: i32, pairs: &[(i32, i32)]) -> Vec<u8> {
    let mut code = vec![171u8, 0, 0, 0];
    code.extend_from_slice(&word(default));
    code.extend_from_slice(&word(npairs));
    for (m, o) in pairs {
        code.extend_from_slice(&word(*m));
        code.extend_from_slice(&word(*o));
    }
    code.resize(40, 0);
    code
}

fn run_with(code: Vec<u8>, operand: i32) -> (JVM, Result<Step, StepError>) {
    let mut jvm = JVM::new();
    jvm.push_frame(Frame::new("Switch".to_string(), "run".to_string(), "()V".to_string(), code, vec![]));
    jvm.push_stack(Type::Integer(operand)).unwrap();
    let r = jvm.step();
    (jvm, r)
}

fn pc(jvm: &JVM) -> usize {
    jvm.frames.last().unwrap().get_pc()
}

#[test]
fn tableswitch_takes_the_entry_of_the_index() {
    let (jvm, r) = run_with(tableswitch_code(32, 1, 3, &[20, 24, 28]), 2);
    assert!(matches!(r, Ok(Step::Done(None))));
    assert_eq!(pc(&jvm), 24);
    assert_eq!(jvm.frames.last().unwrap().stack_len(), 0);
}

#[test]
fn tableswitch_bounds_are_inclusive() {
    let (jvm, _) = run_with(tableswitch_code(32, 1, 3, &[20, 24, 28]), 1);
    assert_eq!(pc(&jvm), 20);
    let (jvm, _) = run_with(tableswitch_code(32, 1, 3, &[20, 24, 28]), 3);
    assert_eq!(pc(&jvm), 28);
}

#[test]
fn tableswitch_out_of_bounds_takes_the_default() {
    let (jvm, r) = run_with(tableswitch_code(32, 1, 3, &[20, 24, 28]), 5);
    assert!(matches!(r, Ok(Step::Done(None))));
    assert_eq!(pc(&jvm), 32);
    let (jvm, _) = run_with(tableswitch_code(32, 1, 3, &[20, 24, 28]), 0);
    assert_eq!(pc(&jvm), 32);
}

#[test]
fn tableswitch_needs_low_below_high() {
    let (_, r) = run_with(tableswitch_code(32, 3, 3, &[20]), 3);
    assert!(matches!(r, Err(StepError::Internal(InternalError::SwitchBounds(3, 3)))));
}

#[test]
fn tableswitch_with_a_truncated_table_fails() {
    let (_, r) = run_with(tableswitch_code(32, 0, 9, &[]), 3);
    assert!(matches!(r, Err(StepError::Internal(InternalError::EndOfCode))));
}

#[test]
fn lookupswitch_takes_the_first_matching_pair() {
    let code = lookupswitch_code(32, 3, &[(10, 20), (-1, 24), (10, 28)]);
    let (jvm, r) = run_with(code.clone(), 10);
    assert!(matches!(r, Ok(Step::Done(None))));
    assert_eq!(pc(&jvm), 20);
    let (jvm, _) = run_with(code.clone(), -1);
    assert_eq!(pc(&jvm), 24);
    let (jvm, _) = run_with(code, 7);
    assert_eq!(pc(&jvm), 32);
}

#[test]
fn lookupswitch_needs_a_nonnegative_pair_count() {
    let (_, r) = run_with(lookupswitch_code(32, -2, &[]), 7);
    assert!(matches!(r, Err(StepError::Internal(InternalError::NegativePairCount(-2)))));
}

#[test]
fn switch_padding_depends_on_the_opcode_position() {
    // A `nop` first: the switch opcode is at 1 and its operands start at 4.
    let mut code = vec![0u8, 171, 0, 0];
    code.extend_from_slice(&word(30));
    code.extend_from_slice(&word(0));
    code.resize(40, 0);
    let mut jvm = JVM::new();
    jvm.push_frame(Frame::new("Switch".to_string(), "run".to_string(), "()V".to_string(), code, vec![]));
    jvm.push_stack(Type::Integer(1)).unwrap();
    assert!(matches!(jvm.step(), Ok(Step::Done(None))));
    assert!(matches!(jvm.step(), Ok(Step::Done(None))));
    assert_eq!(pc(&jvm), 31);
}
