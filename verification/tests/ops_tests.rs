use nova::ops::{Chunk, Inst, Lines, Value};

#[test]
fn test_lines() {
    let mut lines = Lines::new();
    assert_eq!(None, lines.get_line(0));

    lines.add_line(12);
    lines.add_line(12);

    lines.add_line(14);
    lines.add_line(14);
    lines.add_line(14);

    lines.add_line(15);

    assert_eq!(Some(12), lines.get_line(0));
    assert_eq!(Some(14), lines.get_line(2));
    assert_eq!(Some(14), lines.get_line(4));
    assert_eq!(Some(15), lines.get_line(5));
    assert_eq!(None, lines.get_line(6));
}

#[test]
fn lines_non_adjacent_runs_are_kept_apart() {
    let mut lines = Lines::new();
    lines.add_line(3);
    lines.add_line(7);
    lines.add_line(3);
    assert_eq!(Some(3), lines.get_line(0));
    assert_eq!(Some(7), lines.get_line(1));
    assert_eq!(Some(3), lines.get_line(2));
    assert_eq!(None, lines.get_line(3));
}

#[test]
fn value_rendering() {
    assert_eq!(Value::Number(0).render(), "0");
    assert_eq!(Value::Number(1234567).render(), "1234567");
    assert_eq!(Value::Number(-123).render(), "-123");
    assert_eq!(Value::Number(i64::MIN).render(), "-9223372036854775808");
    assert_eq!(Value::Bool(true).render(), "true");
    assert_eq!(Value::Bool(false).render(), "false");
    assert_eq!(Value::ObjString("raw text".to_string()).render(), "raw text");
    assert_eq!(Value::Unit.render(), "()");
}

#[test]
fn inst_rendering() {
    assert_eq!(Inst::OpReturn.render(), "OpReturn");
    assert_eq!(Inst::OpConstant(3).render(), "OpConstant(3)");
    assert_eq!(Inst::OpSetGlobal("x".to_string()).render(), "OpSetGlobal(x)");
    assert_eq!(Inst::OpGetGlobal(42).render(), "OpGetGlobal(42)");
}

#[test]
fn chunk_listing() {
    let mut chunk = Chunk::new();
    let idx = chunk.add_constant(Value::Number(2), 1);
    chunk.write_op(Inst::OpConstant(idx), 1);
    chunk.write_op(Inst::OpReturn, 2);
    assert_eq!(
        chunk.render(),
        "Ops:\nOpConstant(0) (line 1)\nOpReturn (line 2)\n\n\nConstants:\n2 (line 1)\n"
    );
}

#[test]
fn constant_indices_count_up() {
    let mut chunk = Chunk::new();
    assert_eq!(chunk.add_constant(Value::Number(1), 1), 0);
    assert_eq!(chunk.add_constant(Value::Number(2), 1), 1);
    assert_eq!(chunk.add_constant(Value::Number(3), 2), 2);
    assert_eq!(chunk.get_line_of_op(0), None);
    chunk.write_op(Inst::OpReturn, 9);
    assert_eq!(chunk.get_line_of_op(0), Some(9));
    assert_eq!(chunk.num_ops(), 1);
}
