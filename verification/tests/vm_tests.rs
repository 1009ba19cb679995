use nova::ops::{Chunk, Inst, Value};
use nova::vm::VM;

#[test]
fn test_stack_ops() {
    let mut c2 = Chunk::new();

    let idx = c2.add_constant(Value::Number(2), 1);
    let idx2 = c2.add_constant(Value::Number(3), 1);
    let idx3 = c2.add_constant(Value::Number(5), 1);

    c2.write_op(Inst::OpConstant(idx), 1);
    c2.write_op(Inst::OpConstant(idx2), 1);
    c2.write_op(Inst::OpAdd, 1); // 2+3

    c2.write_op(Inst::OpConstant(idx3), 1);
    c2.write_op(Inst::OpDiv, 1); // 5/5 = 1

    c2.write_op(Inst::OpNegate, 1); // -1

    c2.write_op(Inst::OpConstant(idx3), 1);
    c2.write_op(Inst::OpMul, 1); // -1*5=-5

    c2.write_op(Inst::OpReturn, 1);

    println!("{}", c2.render());

    let mut vm = VM::new();
    let res = vm.run(c2, true).unwrap();

    assert_eq!(res.render(), "-5");
}

#[test]
fn test_concat() {
    let mut c2 = Chunk::new();

    let string1 = "hi".to_string();
    let string2 = "hello".to_string();

    let idx = c2.add_constant(Value::ObjString(string1), 1);
    let idx2 = c2.add_constant(Value::ObjString(string2), 1);

    c2.write_op(Inst::OpConstant(idx), 1);
    c2.write_op(Inst::OpConstant(idx2), 1);

    c2.write_op(Inst::OpConcat, 1);
    c2.write_op(Inst::OpReturn, 1);

    let mut vm = VM::new();
    let res = vm.run(c2, true).unwrap();

    assert_eq!(res.render(), "hihello");

    let mut c3 = Chunk::new();
    let idx = c3.add_constant(Value::Bool(true), 1);
    c3.write_op(Inst::OpConstant(idx), 1);
    c3.write_op(Inst::OpReturn, 2);

    let res = vm.run(c3, true).unwrap(); // re-use possible
    assert_eq!(res.render(), "true");
}

#[test]
fn test() {
    let mut chunk = Chunk::new();
    chunk.write_constant(Value::Number(1), 1);
    chunk.write_constant(Value::Number(2), 1);

    chunk.write_op(Inst::OpReturn, 1);

    let mut vm = VM::new();
    let res = vm.run(chunk, true);

    println!("{:?}", res);
}
