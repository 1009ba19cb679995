use nova::err::RuntimeErr;
use nova::intern::calc_hash;
use nova::ops::{Chunk, Inst, Value};
use nova::stack::VecStack;
use nova::vm::VM;

#[test]
fn string_aware_add() {
    let mut chunk = Chunk::new();
    let idx = chunk.add_constant(Value::ObjString("hi".to_string()), 1);
    let idx2 = chunk.add_constant(Value::ObjString("hello".to_string()), 1);
    chunk.write_op(Inst::OpConstant(idx), 1);
    chunk.write_op(Inst::OpConstant(idx2), 1);
    chunk.write_op(Inst::OpAdd, 1);
    chunk.write_op(Inst::OpReturn, 1);

    let mut vm = VM::new();
    let res = vm.run(chunk, true).unwrap();
    assert_eq!(res.render(), "hihello");
}

#[test]
fn add_type_mismatch_names_the_culprit() {
    let mut chunk = Chunk::new();
    let idx = chunk.add_constant(Value::Number(1), 1);
    let idx2 = chunk.add_constant(Value::ObjString("hello".to_string()), 1);
    chunk.write_op(Inst::OpConstant(idx), 1);
    chunk.write_op(Inst::OpConstant(idx2), 1);
    chunk.write_op(Inst::OpAdd, 1);

    let mut vm = VM::new();
    let e = vm.run(chunk, true).unwrap_err();
    assert!(matches!(e, RuntimeErr::TypeMismatch(_)));
    assert_eq!(e.render(), "Expected number or string but got: hello");
}

#[test]
fn global_lifecycle() {
    let mut vm = VM::new();

    let mut c1 = Chunk::new();
    let idx = c1.add_constant(Value::Number(7), 1);
    c1.write_op(Inst::OpConstant(idx), 1);
    c1.write_op(Inst::OpSetGlobal("x".to_string()), 1);
    vm.run(c1, true).unwrap();

    // A later run on the same VM still sees the global.
    let mut c2 = Chunk::new();
    c2.write_op(Inst::OpGetGlobal(calc_hash("x")), 3);
    c2.write_op(Inst::OpReturn, 3);
    let res = vm.run(c2, true).unwrap();
    assert_eq!(res.render(), "7");
    assert_eq!(vm.get_global_value("x").unwrap().render(), "7");

    // An unset name fails and reports the instruction's source line.
    let mut c3 = Chunk::new();
    c3.write_op(Inst::OpGetGlobal(calc_hash("y")), 9);
    let e = vm.run(c3, true).unwrap_err();
    assert!(matches!(e, RuntimeErr::UndefinedVariable(9)));
    assert_eq!(e.render(), "[line 9] Variable is not defined.");
    assert!(vm.get_global_value("y").is_none());

    // Rebinding overwrites.
    let mut c4 = Chunk::new();
    let idx = c4.add_constant(Value::Number(8), 1);
    c4.write_op(Inst::OpConstant(idx), 1);
    c4.write_op(Inst::OpSetGlobal("x".to_string()), 1);
    vm.run(c4, true).unwrap();
    assert_eq!(vm.get_global_value("x").unwrap().render(), "8");
}

#[test]
fn stack_discipline() {
    let mut st: VecStack<Value> = VecStack::new(2);
    assert!(matches!(st.pop(), Err(RuntimeErr::StackUnderflow)));

    st.push(Value::Number(1)).unwrap();
    st.push(Value::Number(2)).unwrap();
    assert_eq!(st.len(), 2);

    // A push at capacity fails and the count stays put.
    assert!(matches!(st.push(Value::Number(3)), Err(RuntimeErr::StackOverflow)));
    assert_eq!(st.len(), 2);

    st.clear();
    assert_eq!(st.len(), 0);
    assert!(matches!(st.pop(), Err(RuntimeErr::StackUnderflow)));
}

#[test]
fn return_on_empty_stack_underflows() {
    let mut chunk = Chunk::new();
    chunk.write_op(Inst::OpReturn, 1);
    let mut vm = VM::new();
    let e = vm.run(chunk, true).unwrap_err();
    assert!(matches!(e, RuntimeErr::StackUnderflow));
    assert_eq!(e.render(), "Stack underflow");
}

#[test]
fn division_by_zero_is_an_error() {
    let mut chunk = Chunk::new();
    let idx = chunk.add_constant(Value::Number(5), 1);
    let idx2 = chunk.add_constant(Value::Number(0), 1);
    chunk.write_op(Inst::OpConstant(idx), 1);
    chunk.write_op(Inst::OpConstant(idx2), 1);
    chunk.write_op(Inst::OpDiv, 1);

    let mut vm = VM::new();
    let e = vm.run(chunk, true).unwrap_err();
    assert!(matches!(e, RuntimeErr::ArithmeticErr));
    assert_eq!(e.render(), "Arithmetic error");
}

#[test]
fn division_truncates_toward_zero() {
    let mut chunk = Chunk::new();
    let idx = chunk.add_constant(Value::Number(-7), 1);
    let idx2 = chunk.add_constant(Value::Number(2), 1);
    chunk.write_op(Inst::OpConstant(idx), 1);
    chunk.write_op(Inst::OpConstant(idx2), 1);
    chunk.write_op(Inst::OpDiv, 1);
    chunk.write_op(Inst::OpReturn, 1);

    let mut vm = VM::new();
    let res = vm.run(chunk, true).unwrap();
    assert_eq!(res.render(), "-3");
}

#[test]
fn negating_the_smallest_number_is_an_error() {
    let mut chunk = Chunk::new();
    let idx = chunk.add_constant(Value::Number(i64::MIN), 1);
    chunk.write_op(Inst::OpConstant(idx), 1);
    chunk.write_op(Inst::OpNegate, 1);

    let mut vm = VM::new();
    let e = vm.run(chunk, true).unwrap_err();
    assert!(matches!(e, RuntimeErr::ArithmeticErr));
}

#[test]
fn invalid_constant_index_is_reported() {
    let mut chunk = Chunk::new();
    chunk.write_op(Inst::OpConstant(5), 1);
    let mut vm = VM::new();
    let e = vm.run(chunk, true).unwrap_err();
    assert!(matches!(e, RuntimeErr::InvalidConstantIndex(5)));
    assert_eq!(e.render(), "Invalid index for constant:5");
}

#[test]
fn stack_overflow_during_run() {
    // A chunk that pushes more values than the operand stack can hold.
    let mut chunk = Chunk::new();
    let idx = chunk.add_constant(Value::Number(1), 1);
    for _ in 0..2001 {
        chunk.write_op(Inst::OpConstant(idx), 1);
    }
    let mut vm = VM::new();
    let e = vm.run(chunk, true).unwrap_err();
    assert!(matches!(e, RuntimeErr::StackOverflow));
    assert_eq!(e.render(), "Stack overflow");
}

#[test]
fn falling_off_the_end_yields_unit() {
    let chunk = Chunk::new();
    let mut vm = VM::new();
    let res = vm.run(chunk, true).unwrap();
    assert_eq!(res.render(), "()");
}

#[test]
fn run_without_reset_keeps_stack_and_pointer() {
    let mut vm = VM::new();

    // First run leaves one value on the stack and the pointer at 1.
    let mut c1 = Chunk::new();
    let idx = c1.add_constant(Value::Number(2), 1);
    c1.write_op(Inst::OpConstant(idx), 1);
    vm.run(c1, true).unwrap();

    // Without a reset, the next run starts at instruction 1 of the new
    // chunk and still sees the leftover operand.
    let mut c2 = Chunk::new();
    let idx = c2.add_constant(Value::Number(99), 1);
    c2.write_op(Inst::OpConstant(idx), 1);
    c2.write_op(Inst::OpReturn, 1);
    let res = vm.run(c2, false).unwrap();
    assert_eq!(res.render(), "2");
}

#[test]
fn interner_idempotence() {
    let mut vm = VM::new();
    let h1 = vm.add_string("abc".to_string());
    let count = vm.num_interned();
    let h2 = vm.add_string("abc".to_string());
    assert_eq!(h1, h2);
    assert_eq!(vm.num_interned(), count);
    assert_eq!(vm.get_string(h1).unwrap().as_str(), "abc");

    let h3 = vm.add_string("abd".to_string());
    assert_ne!(h1, h3);
    assert_eq!(vm.num_interned(), count + 1);
}

#[test]
fn hashing_is_deterministic() {
    assert_eq!(calc_hash("x"), calc_hash("x"));
    assert_ne!(calc_hash("x"), calc_hash("y"));
    assert_eq!(calc_hash(""), 0xcbf2_9ce4_8422_2325);
}
