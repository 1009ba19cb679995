//! The bytecode container: instructions, runtime values, run-length line
//! tables, and the chunk that binds them together with a constant pool.
use vstd::prelude::*;

use crate::render::{bool_chars, bool_to_string, dec_int, dec_nat, i64_to_string, u64_to_string,
    usize_to_string};

verus! {

/// One bytecode instruction. Some instructions carry an operand: a
/// constant-pool index, an identifier to bind, or an interned name hash.
#[derive(Debug)]
pub enum Inst {
    /// Pop the top of stack and yield it as the chunk's result.
    OpReturn,
    /// Push a clone of the constant at the given pool index.
    OpConstant(usize),
    /// Pop a number and push its arithmetic negation.
    OpNegate,
    /// Pop right then left; add numbers or concatenate strings.
    OpAdd,
    /// Pop right then left, both numbers; push their difference.
    OpSub,
    /// Pop right then left, both numbers; push their product.
    OpMul,
    /// Pop right then left, both numbers; push their quotient.
    OpDiv,
    /// Pop a string and append it to the string popped beneath it.
    OpConcat,
    /// Pop a value and bind it to the named global, interning the name.
    OpSetGlobal(String),
    /// Push a clone of the global bound to the given interned name hash.
    OpGetGlobal(u64),
}

/// The rendered form of an instruction: its name, with its operand in
/// parentheses where it carries one.
pub open spec fn inst_chars(i: Inst) -> Seq<char> {
    match i {
        Inst::OpReturn => "OpReturn"@,
        Inst::OpConstant(idx) => "OpConstant("@ + dec_nat(idx as nat) + ")"@,
        Inst::OpNegate => "OpNegate"@,
        Inst::OpAdd => "OpAdd"@,
        Inst::OpSub => "OpSub"@,
        Inst::OpMul => "OpMul"@,
        Inst::OpDiv => "OpDiv"@,
        Inst::OpConcat => "OpConcat"@,
        Inst::OpSetGlobal(name) => "OpSetGlobal("@ + name@ + ")"@,
        Inst::OpGetGlobal(h) => "OpGetGlobal("@ + dec_nat(h as nat) + ")"@,
    }
}

impl Inst {
    /// The textual rendering of this instruction.
    pub fn render(&self) -> (s: String)
        ensures
            s@ == inst_chars(*self),
    {
        match self {
            Inst::OpReturn => String::from_str("OpReturn"),
            Inst::OpConstant(idx) => {
                let mut s = String::from_str("OpConstant(");
                let digits = usize_to_string(*idx);
                s.append(digits.as_str());
                s.append(")");
                proof {
                    assert(s@ =~= inst_chars(*self));
                }
                s
            },
            Inst::OpNegate => String::from_str("OpNegate"),
            Inst::OpAdd => String::from_str("OpAdd"),
            Inst::OpSub => String::from_str("OpSub"),
            Inst::OpMul => String::from_str("OpMul"),
            Inst::OpDiv => String::from_str("OpDiv"),
            Inst::OpConcat => String::from_str("OpConcat"),
            Inst::OpSetGlobal(name) => {
                let mut s = String::from_str("OpSetGlobal(");
                s.append(name.as_str());
                s.append(")");
                proof {
                    assert(s@ =~= inst_chars(*self));
                }
                s
            },
            Inst::OpGetGlobal(h) => {
                let mut s = String::from_str("OpGetGlobal(");
                let digits = u64_to_string(*h);
                s.append(digits.as_str());
                s.append(")");
                proof {
                    assert(s@ =~= inst_chars(*self));
                }
                s
            },
        }
    }
}

/// A runtime value: the closed tagged union the stack and globals hold.
#[derive(Debug)]
pub enum Value {
    /// A signed integer.
    Number(i64),
    /// A boolean.
    Bool(bool),
    /// An owned string, duplicated on clone and never shared by reference.
    ObjString(String),
    /// The sentinel yielded when execution falls off the end of a chunk.
    Unit,
}

/// The mathematical shadow of a runtime value: what a value is, free of
/// how it is stored. Two `Value`s with equal content have the same shadow,
/// so contracts phrased over it do not distinguish separately allocated
/// copies of one string.
pub enum AbsValue {
    Num(int),
    Bool(bool),
    Str(Seq<char>),
    Unit,
}

/// The shadow of a runtime value.
pub open spec fn value_model(v: Value) -> AbsValue {
    match v {
        Value::Number(n) => AbsValue::Num(n as int),
        Value::Bool(b) => AbsValue::Bool(b),
        Value::ObjString(s) => AbsValue::Str(s@),
        Value::Unit => AbsValue::Unit,
    }
}

/// The rendered form of a value: decimal digits for numbers, `true`/`false`
/// for booleans, the raw content for strings, and `()` for the sentinel.
pub open spec fn value_chars(v: Value) -> Seq<char> {
    match v {
        Value::Number(n) => dec_int(n as int),
        Value::Bool(b) => bool_chars(b),
        Value::ObjString(s) => s@,
        Value::Unit => "()"@,
    }
}

impl Value {
    /// Wrap an integer as a stack value.
    pub fn num(n: i64) -> (v: Value)
        ensures
            v == Value::Number(n),
    {
        Value::Number(n)
    }

    /// The textual rendering of this value.
    pub fn render(&self) -> (s: String)
        ensures
            s@ == value_chars(*self),
    {
        match self {
            Value::Number(n) => i64_to_string(*n),
            Value::Bool(b) => bool_to_string(*b),
            Value::ObjString(s) => s.clone(),
            Value::Unit => String::from_str("()"),
        }
    }
}

impl Clone for Value {
    /// Cloning duplicates the backing text of a string value.
    fn clone(&self) -> (v: Value)
        ensures
            v == *self,
    {
        match self {
            Value::Number(n) => Value::Number(*n),
            Value::Bool(b) => Value::Bool(*b),
            Value::ObjString(s) => Value::ObjString(s.clone()),
            Value::Unit => Value::Unit,
        }
    }
}

/// One run of the run-length encoding: a source line number paired with how
/// many consecutive entries were recorded at that line.
#[derive(Debug, Clone, Copy)]
struct LineEncoding(usize, usize);

/// The entries one run stands for: its line number, repeated.
spec fn line_run(le: LineEncoding) -> Seq<usize> {
    Seq::new(le.1 as nat, |i: int| le.0)
}

/// The line sequence a whole encoding stands for, one line number per
/// recorded entry, in recording order.
spec fn expand(entries: Seq<LineEncoding>) -> Seq<usize>
    decreases entries.len(),
{
    if entries.len() == 0 {
        Seq::empty()
    } else {
        expand(entries.drop_last()) + line_run(entries.last())
    }
}

proof fn lemma_expand_take_succ(entries: Seq<LineEncoding>, i: int)
    requires
        0 <= i < entries.len(),
    ensures
        expand(entries.take(i + 1)) == expand(entries.take(i)) + line_run(entries[i]),
{
    let t = entries.take(i + 1);
    assert(t.drop_last() =~= entries.take(i));
    assert(t.last() == entries[i]);
}

proof fn lemma_expand_prefix(entries: Seq<LineEncoding>, i: int)
    requires
        0 <= i <= entries.len(),
    ensures
        expand(entries.take(i)).len() <= expand(entries).len(),
        forall|k: int|
            0 <= k < expand(entries.take(i)).len() ==> expand(entries)[k] == expand(
                entries.take(i),
            )[k],
    decreases entries.len() - i,
{
    if i == entries.len() {
        assert(entries.take(i) =~= entries);
    } else {
        lemma_expand_take_succ(entries, i);
        lemma_expand_prefix(entries, i + 1);
    }
}

/// A run-length-encoded mapping from entry index to source line, appended to
/// as instructions or constants are recorded and scanned for diagnostics.
/// Its view is the uncompressed sequence of line numbers.
#[derive(Debug)]
pub struct Lines {
    lines: Vec<LineEncoding>,
}

impl View for Lines {
    type V = Seq<usize>;

    closed spec fn view(&self) -> Seq<usize> {
        expand(self.lines@)
    }
}

impl Lines {
    /// An empty table.
    pub fn new() -> (r: Lines)
        ensures
            r@ == Seq::<usize>::empty(),
    {
        let r = Lines { lines: Vec::new() };
        proof {
            assert(r@ =~= Seq::<usize>::empty());
        }
        r
    }

    /// Record that the next entry sits at the given source line, extending
    /// the last run when the line repeats.
    pub fn add_line(&mut self, line_num: usize)
        ensures
            final(self)@ == old(self)@.push(line_num),
    {
        let ghost before = self.lines@;
        let popped = self.lines.pop();
        match popped {
            Some(le) => {
                if le.0 == line_num && le.1 < usize::MAX {
                    self.lines.push(LineEncoding(le.0, le.1 + 1));
                    proof {
                        let after = self.lines@;
                        assert(after.drop_last() =~= before.drop_last());
                        assert(line_run(after.last()) =~= line_run(le).push(line_num));
                        assert(expand(after) =~= expand(before).push(line_num));
                    }
                } else {
                    self.lines.push(le);
                    self.lines.push(LineEncoding(line_num, 1));
                    proof {
                        let after = self.lines@;
                        assert(after.drop_last() =~= before);
                        assert(after.len() > 0);
                        assert(expand(after) == expand(after.drop_last()) + line_run(after.last()));
                        assert(expand(after.drop_last()) == expand(before));
                        assert(line_run(after.last()) =~= seq![line_num]);
                        assert(expand(after) =~= expand(before) + seq![line_num]);
                        assert(expand(before) + seq![line_num] =~= expand(before).push(line_num));
                    }
                }
            },
            None => {
                self.lines.push(LineEncoding(line_num, 1));
                proof {
                    let after = self.lines@;
                    assert(after.len() > 0);
                    assert(expand(after) == expand(after.drop_last()) + line_run(after.last()));
                    assert(after.drop_last() =~= before);
                    assert(expand(before).len() == 0);
                    assert(line_run(after.last()) =~= seq![line_num]);
                    assert(expand(after) =~= expand(before).push(line_num));
                }
            },
        }
    }

    /// The line recorded for the entry at `idx`, found by accumulating run
    /// lengths until they cover `idx`; `None` past the recorded entries.
    pub fn get_line(&self, idx: usize) -> (r: Option<usize>)
        ensures
            r == if idx < self@.len() {
                Some(self@[idx as int])
            } else {
                None::<usize>
            },
    {
        let ghost entries = self.lines@;
        let mut start: usize = 0;
        let mut i: usize = 0;
        while i < self.lines.len()
            invariant
                i <= self.lines.len(),
                self.lines@ == entries,
                start as nat == expand(entries.take(i as int)).len(),
                start <= idx,
            decreases self.lines.len() - i,
        {
            let le = self.lines[i];
            proof {
                lemma_expand_take_succ(entries, i as int);
            }
            if idx - start < le.1 {
                proof {
                    lemma_expand_prefix(entries, i as int + 1);
                    assert(line_run(le)[idx - start] == le.0);
                    assert(expand(entries.take(i as int + 1))[idx as int] == le.0);
                }
                return Some(le.0);
            }
            start = start + le.1;
            i = i + 1;
        }
        proof {
            assert(entries.take(i as int) =~= entries);
        }
        None
    }
}

/// One line of a chunk listing: the rendered item and its source line.
pub open spec fn listing_entry(item: Seq<char>, line: usize) -> Seq<char> {
    item + " (line "@ + dec_nat(line as nat) + ")\n"@
}

/// A chunk listing section: one line per item, in order.
pub open spec fn listing(items: Seq<Seq<char>>, lines: Seq<usize>) -> Seq<char>
    recommends
        items.len() == lines.len(),
    decreases items.len(),
{
    if items.len() == 0 {
        Seq::empty()
    } else {
        listing(items.drop_last(), lines.drop_last()) + listing_entry(items.last(), lines.last())
    }
}

proof fn lemma_listing_take_succ(items: Seq<Seq<char>>, lines: Seq<usize>, i: int)
    requires
        items.len() == lines.len(),
        0 <= i < items.len(),
    ensures
        listing(items.take(i + 1), lines.take(i + 1)) == listing(items.take(i), lines.take(i))
            + listing_entry(items[i], lines[i]),
{
    let t = items.take(i + 1);
    let u = lines.take(i + 1);
    assert(t.len() > 0);
    assert(listing(t, u) == listing(t.drop_last(), u.drop_last()) + listing_entry(
        t.last(),
        u.last(),
    ));
    assert(t.drop_last() =~= items.take(i));
    assert(u.drop_last() =~= lines.take(i));
}

/// A series of bytecode instructions with its constant pool. Instructions
/// and constants are indexed independently, so each carries its own line
/// table. A chunk is built by a compiler through the append operations and
/// is only read during execution.
#[derive(Debug)]
pub struct Chunk {
    ops: Vec<Inst>,
    constants: Vec<Value>,
    op_lines: Lines,
    constant_lines: Lines,
}

impl Chunk {
    /// The instruction sequence.
    pub closed spec fn ops_seq(&self) -> Seq<Inst> {
        self.ops@
    }

    /// The constant pool.
    pub closed spec fn constants_seq(&self) -> Seq<Value> {
        self.constants@
    }

    /// The source line of each instruction, in instruction order.
    pub closed spec fn op_lines_seq(&self) -> Seq<usize> {
        self.op_lines@
    }

    /// The source line of each constant, in pool order.
    pub closed spec fn constant_lines_seq(&self) -> Seq<usize> {
        self.constant_lines@
    }

    /// Each instruction and each constant has a recorded source line.
    pub open spec fn wf(&self) -> bool {
        &&& self.op_lines_seq().len() == self.ops_seq().len()
        &&& self.constant_lines_seq().len() == self.constants_seq().len()
    }

    /// An empty chunk.
    pub fn new() -> (c: Chunk)
        ensures
            c.wf(),
            c.ops_seq() == Seq::<Inst>::empty(),
            c.constants_seq() == Seq::<Value>::empty(),
            c.op_lines_seq() == Seq::<usize>::empty(),
            c.constant_lines_seq() == Seq::<usize>::empty(),
    {
        Chunk {
            ops: Vec::new(),
            constants: Vec::new(),
            op_lines: Lines::new(),
            constant_lines: Lines::new(),
        }
    }

    /// How many instructions the chunk holds.
    pub fn num_ops(&self) -> (n: usize)
        ensures
            n as nat == self.ops_seq().len(),
    {
        self.ops.len()
    }

    /// The instruction at `idx`, or `None` past the end of the sequence.
    pub fn get_op(&self, idx: usize) -> (r: Option<&Inst>)
        ensures
            match r {
                Some(op) => idx < self.ops_seq().len() && *op == self.ops_seq()[idx as int],
                None => idx >= self.ops_seq().len(),
            },
    {
        broadcast use vstd::slice::axiom_slice_get_usize;

        self.ops.as_slice().get(idx)
    }

    /// Append an instruction, recording its source line.
    pub fn write_op(&mut self, op: Inst, line: usize)
        requires
            old(self).wf(),
        ensures
            final(self).wf(),
            final(self).ops_seq() == old(self).ops_seq().push(op),
            final(self).op_lines_seq() == old(self).op_lines_seq().push(line),
            final(self).constants_seq() == old(self).constants_seq(),
            final(self).constant_lines_seq() == old(self).constant_lines_seq(),
    {
        self.ops.push(op);
        self.op_lines.add_line(line);
    }

    /// A clone of the constant at `idx`, or `None` past the end of the pool.
    /// Cloning decouples the caller's value from the chunk's storage.
    pub fn get_constant(&self, idx: usize) -> (r: Option<Value>)
        ensures
            match r {
                Some(v) => idx < self.constants_seq().len() && v == self.constants_seq()[idx as int],
                None => idx >= self.constants_seq().len(),
            },
    {
        broadcast use vstd::slice::axiom_slice_get_usize;

        match self.constants.as_slice().get(idx) {
            Some(v) => Some(v.clone()),
            None => None,
        }
    }

    /// Append a constant to the pool, recording its source line; returns the
    /// index where it was added.
    pub fn add_constant(&mut self, value: Value, line: usize) -> (idx: usize)
        requires
            old(self).wf(),
        ensures
            final(self).wf(),
            idx as nat == old(self).constants_seq().len(),
            final(self).constants_seq() == old(self).constants_seq().push(value),
            final(self).constant_lines_seq() == old(self).constant_lines_seq().push(line),
            final(self).ops_seq() == old(self).ops_seq(),
            final(self).op_lines_seq() == old(self).op_lines_seq(),
    {
        self.constants.push(value);
        self.constant_lines.add_line(line);
        self.constants.len() - 1
    }

    /// Append a constant and the instruction that pushes it, both at the
    /// given source line.
    pub fn write_constant(&mut self, value: Value, line: usize)
        requires
            old(self).wf(),
        ensures
            final(self).wf(),
            final(self).constants_seq() == old(self).constants_seq().push(value),
            final(self).constant_lines_seq() == old(self).constant_lines_seq().push(line),
            final(self).ops_seq() == old(self).ops_seq().push(
                Inst::OpConstant(old(self).constants_seq().len() as usize),
            ),
            final(self).op_lines_seq() == old(self).op_lines_seq().push(line),
    {
        let idx = self.add_constant(value, line);
        self.write_op(Inst::OpConstant(idx), line);
    }

    /// The full listing of the chunk: every instruction and every constant,
    /// each with its recorded source line.
    pub fn render(&self) -> (s: String)
        requires
            self.wf(),
        ensures
            s@ == "Ops:\n"@ + listing(
                self.ops_seq().map_values(|op: Inst| inst_chars(op)),
                self.op_lines_seq(),
            ) + "\n\nConstants:\n"@ + listing(
                self.constants_seq().map_values(|v: Value| value_chars(v)),
                self.constant_lines_seq(),
            ),
    {
        broadcast use vstd::slice::axiom_slice_get_usize;

        let ghost op_items = self.ops_seq().map_values(|op: Inst| inst_chars(op));
        let ghost const_items = self.constants_seq().map_values(|v: Value| value_chars(v));
        let mut s = String::from_str("Ops:\n");
        let n = self.ops.len();
        let mut i: usize = 0;
        while i < n
            invariant
                self.wf(),
                n as nat == self.ops_seq().len(),
                op_items == self.ops_seq().map_values(|op: Inst| inst_chars(op)),
                i <= n,
                s@ == "Ops:\n"@ + listing(op_items.take(i as int), self.op_lines_seq().take(i as int)),
            decreases n - i,
        {
            let op = self.ops.as_slice().get(i).unwrap();
            let rendered = op.render();
            s.append(rendered.as_str());
            s.append(" (line ");
            let line = self.op_lines.get_line(i).unwrap();
            let digits = usize_to_string(line);
            s.append(digits.as_str());
            s.append(")\n");
            proof {
                lemma_listing_take_succ(op_items, self.op_lines_seq(), i as int);
                assert(s@ =~= "Ops:\n"@ + listing(
                    op_items.take(i as int + 1),
                    self.op_lines_seq().take(i as int + 1),
                ));
            }
            i = i + 1;
        }
        proof {
            assert(op_items.take(n as int) =~= op_items);
            assert(self.op_lines_seq().take(n as int) =~= self.op_lines_seq());
        }
        s.append("\n\nConstants:\n");
        let ghost prefix = s@;
        let m = self.constants.len();
        let mut j: usize = 0;
        while j < m
            invariant
                self.wf(),
                m as nat == self.constants_seq().len(),
                const_items == self.constants_seq().map_values(|v: Value| value_chars(v)),
                j <= m,
                s@ == prefix + listing(
                    const_items.take(j as int),
                    self.constant_lines_seq().take(j as int),
                ),
            decreases m - j,
        {
            let c = self.constants.as_slice().get(j).unwrap();
            let rendered = c.render();
            s.append(rendered.as_str());
            s.append(" (line ");
            let line = self.constant_lines.get_line(j).unwrap();
            let digits = usize_to_string(line);
            s.append(digits.as_str());
            s.append(")\n");
            proof {
                lemma_listing_take_succ(const_items, self.constant_lines_seq(), j as int);
                assert(s@ =~= prefix + listing(
                    const_items.take(j as int + 1),
                    self.constant_lines_seq().take(j as int + 1),
                ));
            }
            j = j + 1;
        }
        proof {
            assert(const_items.take(m as int) =~= const_items);
            assert(self.constant_lines_seq().take(m as int) =~= self.constant_lines_seq());
        }
        s
    }

    /// The source line recorded for the instruction at `idx`.
    pub fn get_line_of_op(&self, idx: usize) -> (r: Option<usize>)
        ensures
            r == if idx < self.op_lines_seq().len() {
                Some(self.op_lines_seq()[idx as int])
            } else {
                None::<usize>
            },
    {
        self.op_lines.get_line(idx)
    }
}

} // verus!
