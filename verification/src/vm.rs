//! The virtual machine: an instruction pointer, the operand stack, the
//! global-variable table and the string interner, driven by a
//! fetch-decode-execute loop over a borrowed chunk.
//!
//! The meaning of execution is given once, by the spec-level machine
//! (`spec_run` over `MachineState`); `run` is proved to return exactly the
//! result of that machine and to leave the VM in exactly its final state.
use vstd::prelude::*;

use std::collections::HashMap;

use crate::err::AbsErr;
use crate::err::RuntimeErr;
use crate::err::result_model;
use crate::intern::calc_hash;
use crate::intern::str_hash;
use crate::ops::AbsValue;
use crate::ops::Chunk;
use crate::ops::Inst;
use crate::ops::Value;
use crate::ops::value_model;
use crate::stack::VecStack;

verus! {

broadcast use vstd::std_specs::hash::group_hash_axioms;

/// The fixed capacity of the operand stack.
pub const VAL_STACK_MAX: usize = 2000;

/// The mathematical state of the machine: instruction pointer, operand
/// stack, global table and interner, all as their shadows.
#[verifier::ext_equal]
pub struct MachineState {
    pub ip: int,
    pub stack: Seq<AbsValue>,
    pub globals: Map<u64, AbsValue>,
    pub strings: Map<u64, Seq<char>>,
}

/// What one `run` call amounts to: its result and the machine state it
/// leaves behind.
#[verifier::ext_equal]
pub struct RunOutcome {
    pub result: Result<AbsValue, AbsErr>,
    pub state: MachineState,
}

/// What executing one instruction does: carry on in a new state, or halt
/// with a final result and the state at the halt.
pub enum StepRes {
    Next(MachineState),
    Halt(Result<AbsValue, AbsErr>, MachineState),
}

/// The shadow of an operand stack.
pub open spec fn stack_model(s: Seq<Value>) -> Seq<AbsValue> {
    s.map_values(|v: Value| value_model(v))
}

/// The shadow of the global-variable table.
pub open spec fn globals_model(m: Map<u64, Value>) -> Map<u64, AbsValue> {
    m.map_values(|v: Value| value_model(v))
}

/// The shadow of the string interner.
pub open spec fn strings_model(m: Map<u64, String>) -> Map<u64, Seq<char>> {
    m.map_values(|s: String| s@)
}

/// Interning: record the content under its hash unless the hash is already
/// taken (insertion is idempotent and never replaces a stored string).
pub open spec fn intern_model(strings: Map<u64, Seq<char>>, content: Seq<char>) -> Map<
    u64,
    Seq<char>,
> {
    if strings.contains_key(str_hash(content)) {
        strings
    } else {
        strings.insert(str_hash(content), content)
    }
}

/// Interning is idempotent. The hash is a pure function of the content, so
/// a second interning of the same content computes the same hash; and it
/// leaves the interner exactly as the first left it, so the count of stored
/// strings does not grow. The first interning of a new content stores
/// exactly one new string.
pub proof fn lemma_intern_idempotent(strings: Map<u64, Seq<char>>, content: Seq<char>)
    requires
        strings.dom().finite(),
    ensures
        intern_model(intern_model(strings, content), content) == intern_model(strings, content),
        intern_model(strings, content).contains_key(str_hash(content)),
        strings.contains_key(str_hash(content)) ==> intern_model(strings, content) == strings,
        !strings.contains_key(str_hash(content)) ==> intern_model(strings, content).dom().len()
            == strings.dom().len() + 1,
{
    if !strings.contains_key(str_hash(content)) {
        let h = str_hash(content);
        assert(intern_model(strings, content).dom() =~= strings.dom().insert(h));
        vstd::set::axiom_set_insert_len(strings.dom(), h);
    }
}

/// Push within the fixed capacity; at capacity the push fails and the state
/// is unchanged.
pub open spec fn spec_push(st: MachineState, v: AbsValue) -> Result<MachineState, AbsErr> {
    if st.stack.len() < VAL_STACK_MAX {
        Ok(MachineState { stack: st.stack.push(v), ..st })
    } else {
        Err(AbsErr::StackOverflow)
    }
}

/// Pop the top of the stack; on an empty stack the pop fails.
pub open spec fn spec_pop(st: MachineState) -> Result<(AbsValue, MachineState), AbsErr> {
    if st.stack.len() > 0 {
        Ok((st.stack.last(), MachineState { stack: st.stack.drop_last(), ..st }))
    } else {
        Err(AbsErr::StackUnderflow)
    }
}

/// Pop a value that must be a number; a wrong kind is a type mismatch
/// carrying the value actually found, reported in the state after the pop.
pub open spec fn spec_pop_num(st: MachineState) -> Result<(int, MachineState), (AbsErr, MachineState)> {
    match spec_pop(st) {
        Ok((v, st1)) => match v {
            AbsValue::Num(n) => Ok((n, st1)),
            _ => Err((AbsErr::TypeMismatch(v), st1)),
        },
        Err(e) => Err((e, st)),
    }
}

/// Continue with the pushed value, or halt on overflow.
pub open spec fn spec_push_step(st: MachineState, v: AbsValue) -> StepRes {
    match spec_push(st, v) {
        Ok(st1) => StepRes::Next(st1),
        Err(e) => StepRes::Halt(Err(e), st),
    }
}

/// Division truncated toward zero, as the hardware divide behaves.
pub open spec fn div_trunc(l: int, r: int) -> int
    recommends
        r != 0,
{
    if l == 0 {
        0
    } else if l > 0 && r > 0 {
        l / r
    } else if l < 0 && r < 0 {
        (l * -1) / (r * -1)
    } else if l < 0 {
        ((l * -1) / r) * -1
    } else {
        (l / (r * -1)) * -1
    }
}

/// The semantics of the instruction under the instruction pointer: what it
/// pops, what it checks, what it pushes or binds, and how it fails.
pub open spec fn spec_step(chunk: Chunk, st: MachineState) -> StepRes
    recommends
        0 <= st.ip < chunk.ops_seq().len(),
{
    match chunk.ops_seq()[st.ip] {
        Inst::OpReturn => match spec_pop(st) {
            Ok((v, st1)) => StepRes::Halt(Ok(v), st1),
            Err(e) => StepRes::Halt(Err(e), st),
        },
        Inst::OpConstant(idx) => {
            if (idx as int) < chunk.constants_seq().len() {
                spec_push_step(st, value_model(chunk.constants_seq()[idx as int]))
            } else {
                StepRes::Halt(Err(AbsErr::InvalidConstantIndex(idx as int)), st)
            }
        },
        Inst::OpNegate => match spec_pop(st) {
            Ok((v, st1)) => match v {
                AbsValue::Num(n) => {
                    if i64::MIN <= -n <= i64::MAX {
                        spec_push_step(st1, AbsValue::Num(-n))
                    } else {
                        StepRes::Halt(Err(AbsErr::ArithmeticErr), st1)
                    }
                },
                _ => StepRes::Halt(Err(AbsErr::TypeMismatch(v)), st1),
            },
            Err(e) => StepRes::Halt(Err(e), st),
        },
        Inst::OpAdd => match spec_pop(st) {
            Ok((rv, st1)) => match spec_pop(st1) {
                Ok((lv, st2)) => match (lv, rv) {
                    (AbsValue::Num(l), AbsValue::Num(r)) => {
                        if i64::MIN <= l + r <= i64::MAX {
                            spec_push_step(st2, AbsValue::Num(l + r))
                        } else {
                            StepRes::Halt(Err(AbsErr::ArithmeticErr), st2)
                        }
                    },
                    (AbsValue::Num(l), _) => StepRes::Halt(Err(AbsErr::TypeMismatch(rv)), st2),
                    (AbsValue::Str(l), AbsValue::Str(r)) => spec_push_step(
                        st2,
                        AbsValue::Str(l + r),
                    ),
                    (AbsValue::Str(l), _) => StepRes::Halt(Err(AbsErr::TypeMismatch(rv)), st2),
                    _ => StepRes::Halt(Err(AbsErr::TypeMismatch(lv)), st2),
                },
                Err(e) => StepRes::Halt(Err(e), st1),
            },
            Err(e) => StepRes::Halt(Err(e), st),
        },
        Inst::OpSub => match spec_pop_num(st) {
            Ok((r, st1)) => match spec_pop_num(st1) {
                Ok((l, st2)) => {
                    if i64::MIN <= l - r <= i64::MAX {
                        spec_push_step(st2, AbsValue::Num(l - r))
                    } else {
                        StepRes::Halt(Err(AbsErr::ArithmeticErr), st2)
                    }
                },
                Err((e, st2)) => StepRes::Halt(Err(e), st2),
            },
            Err((e, st1)) => StepRes::Halt(Err(e), st1),
        },
        Inst::OpMul => match spec_pop_num(st) {
            Ok((r, st1)) => match spec_pop_num(st1) {
                Ok((l, st2)) => {
                    if i64::MIN <= l * r <= i64::MAX {
                        spec_push_step(st2, AbsValue::Num(l * r))
                    } else {
                        StepRes::Halt(Err(AbsErr::ArithmeticErr), st2)
                    }
                },
                Err((e, st2)) => StepRes::Halt(Err(e), st2),
            },
            Err((e, st1)) => StepRes::Halt(Err(e), st1),
        },
        Inst::OpDiv => match spec_pop_num(st) {
            Ok((r, st1)) => match spec_pop_num(st1) {
                Ok((l, st2)) => {
                    if r == 0 {
                        StepRes::Halt(Err(AbsErr::ArithmeticErr), st2)
                    } else {
                        if i64::MIN <= div_trunc(l, r) <= i64::MAX {
                            spec_push_step(st2, AbsValue::Num(div_trunc(l, r)))
                        } else {
                            StepRes::Halt(Err(AbsErr::ArithmeticErr), st2)
                        }
                    }
                },
                Err((e, st2)) => StepRes::Halt(Err(e), st2),
            },
            Err((e, st1)) => StepRes::Halt(Err(e), st1),
        },
        Inst::OpConcat => match spec_pop(st) {
            Ok((rv, st1)) => match rv {
                AbsValue::Str(r) => match spec_pop(st1) {
                    Ok((lv, st2)) => match lv {
                        AbsValue::Str(l) => spec_push_step(st2, AbsValue::Str(l + r)),
                        _ => StepRes::Halt(Err(AbsErr::TypeMismatch(lv)), st2),
                    },
                    Err(e) => StepRes::Halt(Err(e), st1),
                },
                _ => StepRes::Halt(Err(AbsErr::TypeMismatch(rv)), st1),
            },
            Err(e) => StepRes::Halt(Err(e), st),
        },
        Inst::OpSetGlobal(name) => match spec_pop(st) {
            Ok((v, st1)) => StepRes::Next(
                MachineState {
                    globals: st1.globals.insert(str_hash(name@), v),
                    strings: intern_model(st1.strings, name@),
                    ..st1
                },
            ),
            Err(e) => StepRes::Halt(Err(e), st),
        },
        Inst::OpGetGlobal(h) => {
            if st.globals.contains_key(h) {
                spec_push_step(st, st.globals[h])
            } else {
                StepRes::Halt(
                    Err(AbsErr::UndefinedVariable(chunk.op_lines_seq()[st.ip] as int)),
                    st,
                )
            }
        },
    }
}

/// The whole execution: step until the pointer falls off the end of the
/// instruction sequence (yielding the `Unit` sentinel) or a step halts.
/// The pointer strictly increases, so execution always terminates.
pub open spec fn spec_run(chunk: Chunk, st: MachineState) -> RunOutcome
    decreases chunk.ops_seq().len() - st.ip,
{
    if st.ip < 0 || st.ip >= chunk.ops_seq().len() {
        RunOutcome { result: Ok(AbsValue::Unit), state: st }
    } else {
        match spec_step(chunk, st) {
            StepRes::Next(st1) => spec_run(chunk, MachineState { ip: st.ip + 1, ..st1 }),
            StepRes::Halt(res, st1) => RunOutcome { result: res, state: st1 },
        }
    }
}

proof fn lemma_model_push(s: Seq<Value>, v: Value)
    ensures
        stack_model(s.push(v)) == stack_model(s).push(value_model(v)),
        stack_model(s).len() == s.len(),
{
    assert(stack_model(s.push(v)) =~= stack_model(s).push(value_model(v)));
}

proof fn lemma_model_drop_last(s: Seq<Value>)
    requires
        s.len() > 0,
    ensures
        stack_model(s.drop_last()) == stack_model(s).drop_last(),
        stack_model(s).last() == value_model(s.last()),
        stack_model(s).len() == s.len(),
{
    assert(stack_model(s.drop_last()) =~= stack_model(s).drop_last());
}

/// The virtual machine. The operand stack is cleared on a reset `run`; the
/// global table and the interner persist for the VM's whole lifetime, so
/// successive top-level executions share global state.
#[derive(Debug)]
pub struct VM {
    ip: usize,
    value_stack: VecStack<Value>,
    globals: HashMap<u64, Value>,
    strings: HashMap<u64, String>,
}

impl VM {
    /// The machine state this VM currently embodies.
    pub closed spec fn state(&self) -> MachineState {
        MachineState {
            ip: self.ip as int,
            stack: stack_model(self.value_stack@),
            globals: globals_model(self.globals@),
            strings: strings_model(self.strings@),
        }
    }

    /// The operand stack sits within its fixed capacity.
    pub closed spec fn wf(&self) -> bool {
        self.value_stack.wf() && self.value_stack.cap() == VAL_STACK_MAX
    }

    /// A fresh machine: pointer at the start, everything empty.
    pub fn new() -> (vm: VM)
        ensures
            vm.wf(),
            vm.state() == (MachineState {
                ip: 0,
                stack: Seq::<AbsValue>::empty(),
                globals: Map::<u64, AbsValue>::empty(),
                strings: Map::<u64, Seq<char>>::empty(),
            }),
    {
        let vm = VM {
            ip: 0,
            value_stack: VecStack::new(VAL_STACK_MAX),
            globals: HashMap::new(),
            strings: HashMap::new(),
        };
        proof {
            assert(stack_model(vm.value_stack@) =~= Seq::<AbsValue>::empty());
            assert(globals_model(vm.globals@) =~= Map::<u64, AbsValue>::empty());
            assert(strings_model(vm.strings@) =~= Map::<u64, Seq<char>>::empty());
            assert(vm.state() =~= (MachineState {
                ip: 0,
                stack: Seq::<AbsValue>::empty(),
                globals: Map::<u64, AbsValue>::empty(),
                strings: Map::<u64, Seq<char>>::empty(),
            }));
        }
        vm
    }

    /// Zero the instruction pointer and clear the operand stack; globals and
    /// interned strings are untouched.
    fn reset(&mut self)
        requires
            old(self).wf(),
        ensures
            final(self).wf(),
            final(self).state() == (MachineState {
                ip: 0,
                stack: Seq::<AbsValue>::empty(),
                globals: old(self).state().globals,
                strings: old(self).state().strings,
            }),
    {
        self.ip = 0;
        self.value_stack.clear();
        proof {
            assert(stack_model(self.value_stack@) =~= Seq::<AbsValue>::empty());
            assert(final(self).state() =~= (MachineState {
                ip: 0,
                stack: Seq::<AbsValue>::empty(),
                globals: old(self).state().globals,
                strings: old(self).state().strings,
            }));
        }
    }

    /// Pop the top of the operand stack, exactly as the spec-level machine
    /// pops it.
    fn pop_value(&mut self) -> (r: Result<Value, RuntimeErr>)
        requires
            old(self).wf(),
        ensures
            final(self).wf(),
            match r {
                Ok(v) => spec_pop(old(self).state()) == Ok::<(AbsValue, MachineState), AbsErr>(
                    (value_model(v), final(self).state()),
                ),
                Err(e) => spec_pop(old(self).state()) == Err::<(AbsValue, MachineState), AbsErr>(
                    AbsErr::StackUnderflow,
                ) && final(self).state() == old(self).state() && e == RuntimeErr::StackUnderflow,
            },
    {
        let r = self.value_stack.pop();
        proof {
            if old(self).value_stack@.len() > 0 {
                lemma_model_drop_last(old(self).value_stack@);
                assert(self.state() =~= (MachineState {
                    stack: old(self).state().stack.drop_last(),
                    ..old(self).state()
                }));
            } else {
                assert(stack_model(old(self).value_stack@).len() == 0);
            }
        }
        r
    }

    /// Push onto the operand stack, exactly as the spec-level machine
    /// pushes.
    fn push_value(&mut self, v: Value) -> (r: Result<(), RuntimeErr>)
        requires
            old(self).wf(),
        ensures
            final(self).wf(),
            match r {
                Ok(u) => spec_push(old(self).state(), value_model(v)) == Ok::<MachineState, AbsErr>(
                    final(self).state(),
                ),
                Err(e) => spec_push(old(self).state(), value_model(v)) == Err::<
                    MachineState,
                    AbsErr,
                >(AbsErr::StackOverflow) && final(self).state() == old(self).state() && e
                    == RuntimeErr::StackOverflow,
            },
    {
        proof {
            lemma_model_push(old(self).value_stack@, v);
        }
        let r = self.value_stack.push(v);
        proof {
            if old(self).value_stack@.len() < VAL_STACK_MAX {
                assert(self.state() =~= (MachineState {
                    stack: old(self).state().stack.push(value_model(v)),
                    ..old(self).state()
                }));
            }
        }
        r
    }

    /// Intern a string: hash its content, store the string under the hash
    /// if the hash is new, and return the hash either way.
    pub fn add_string(&mut self, string: String) -> (h: u64)
        requires
            old(self).wf(),
        ensures
            final(self).wf(),
            h == str_hash(string@),
            final(self).state() == (MachineState {
                strings: intern_model(old(self).state().strings, string@),
                ..old(self).state()
            }),
    {
        let hash = calc_hash(string.as_str());
        if !self.strings.contains_key(&hash) {
            let ghost before = self.strings@;
            self.strings.insert(hash, string);
            proof {
                assert(strings_model(self.strings@) =~= strings_model(before).insert(
                    hash,
                    string@,
                ));
                assert(final(self).state() =~= (MachineState {
                    strings: intern_model(old(self).state().strings, string@),
                    ..old(self).state()
                }));
            }
        } else {
            proof {
                assert(final(self).state() =~= (MachineState {
                    strings: intern_model(old(self).state().strings, string@),
                    ..old(self).state()
                }));
            }
        }
        hash
    }

    /// Bind a value to the named global, interning the identifier so the
    /// binding is addressed by its content hash.
    fn add_global(&mut self, identifier: String, value: Value)
        requires
            old(self).wf(),
        ensures
            final(self).wf(),
            final(self).state() == (MachineState {
                globals: old(self).state().globals.insert(
                    str_hash(identifier@),
                    value_model(value),
                ),
                strings: intern_model(old(self).state().strings, identifier@),
                ..old(self).state()
            }),
    {
        let ghost mid_strings = intern_model(old(self).state().strings, identifier@);
        let hash = self.add_string(identifier);
        let ghost before = self.globals@;
        self.globals.insert(hash, value);
        proof {
            assert(globals_model(self.globals@) =~= globals_model(before).insert(
                hash,
                value_model(value),
            ));
            assert(final(self).state() =~= (MachineState {
                globals: old(self).state().globals.insert(
                    str_hash(identifier@),
                    value_model(value),
                ),
                strings: mid_strings,
                ..old(self).state()
            }));
        }
    }

    /// The canonical stored string for a hash, if one was interned.
    pub fn get_string(&mut self, hash: u64) -> (r: Option<&String>)
        ensures
            *final(self) == *old(self),
            match r {
                Some(s) => old(self).state().strings.contains_key(hash) && s@ == old(
                    self,
                ).state().strings[hash],
                None => !old(self).state().strings.contains_key(hash),
            },
    {
        self.strings.get(&hash)
    }

    /// Execute a chunk: fetch, decode and execute instructions until the
    /// pointer falls off the end (yielding `Unit`), a `return` pops the
    /// result, or an instruction fails. With `reset`, the pointer is zeroed
    /// and the operand stack cleared first; the global table and interner
    /// always persist. The result and the machine left behind are exactly
    /// those of the spec-level machine run from the same state.
    #[verifier::loop_isolation(false)]
    pub fn run(&mut self, chunk: Chunk, reset: bool) -> (r: Result<Value, RuntimeErr>)
        requires
            old(self).wf(),
            chunk.wf(),
        ensures
            final(self).wf(),
            ({
                let start = if reset {
                    MachineState {
                        ip: 0,
                        stack: Seq::<AbsValue>::empty(),
                        globals: old(self).state().globals,
                        strings: old(self).state().strings,
                    }
                } else {
                    old(self).state()
                };
                let out = spec_run(chunk, start);
                result_model(r) == out.result && final(self).state() == out.state
            }),
    {
        if reset {
            self.reset();
        }
        let ghost start = self.state();
        let ghost out = spec_run(chunk, start);
        let n_ops = chunk.num_ops();
        loop
            invariant
                self.wf(),
                chunk.wf(),
                n_ops as nat == chunk.ops_seq().len(),
                spec_run(chunk, self.state()) == out,
            decreases n_ops - self.ip,
        {
            let ghost st0 = self.state();
            let curr = chunk.get_op(self.ip);
            match curr {
                None => {
                    return Ok(Value::Unit);
                },
                Some(inst) => {
                    proof {
                        assert(0 <= st0.ip < chunk.ops_seq().len());
                        assert(chunk.ops_seq()[st0.ip] == *inst);
                    }
                    match inst {
                        Inst::OpReturn => {
                            let res = match self.pop_value() {
                                Ok(v) => v,
                                Err(e) => return Err(e),
                            };
                            return Ok(res);
                        },
                        Inst::OpConstant(idx) => {
                            let i = *idx;
                            match chunk.get_constant(i) {
                                Some(v) => match self.push_value(v) {
                                    Ok(u) => {},
                                    Err(e) => return Err(e),
                                },
                                None => {
                                    return Err(RuntimeErr::InvalidConstantIndex(i));
                                },
                            }
                        },
                        Inst::OpNegate => {
                            let v = match self.pop_value() {
                                Ok(v) => v,
                                Err(e) => return Err(e),
                            };
                            let n = match v {
                                Value::Number(n) => n,
                                other => return Err(RuntimeErr::TypeMismatch(other)),
                            };
                            if n == i64::MIN {
                                return Err(RuntimeErr::ArithmeticErr);
                            }
                            match self.push_value(Value::Number(-n)) {
                                Ok(u) => {},
                                Err(e) => return Err(e),
                            }
                        },
                        Inst::OpAdd => {
                            let rv = match self.pop_value() {
                                Ok(v) => v,
                                Err(e) => return Err(e),
                            };
                            let lv = match self.pop_value() {
                                Ok(v) => v,
                                Err(e) => return Err(e),
                            };
                            match lv {
                                Value::Number(l) => {
                                    let r = match rv {
                                        Value::Number(r) => r,
                                        other => return Err(RuntimeErr::TypeMismatch(other)),
                                    };
                                    let x = match l.checked_add(r) {
                                        Some(x) => x,
                                        None => return Err(RuntimeErr::ArithmeticErr),
                                    };
                                    match self.push_value(Value::Number(x)) {
                                        Ok(u) => {},
                                        Err(e) => return Err(e),
                                    }
                                },
                                Value::ObjString(l) => {
                                    let r = match rv {
                                        Value::ObjString(r) => r,
                                        other => return Err(RuntimeErr::TypeMismatch(other)),
                                    };
                                    let joined = l.concat(r.as_str());
                                    match self.push_value(Value::ObjString(joined)) {
                                        Ok(u) => {},
                                        Err(e) => return Err(e),
                                    }
                                },
                                other => {
                                    return Err(RuntimeErr::TypeMismatch(other));
                                },
                            }
                        },
                        Inst::OpSub => {
                            let rv = match self.pop_value() {
                                Ok(v) => v,
                                Err(e) => return Err(e),
                            };
                            let r = match rv {
                                Value::Number(n) => n,
                                other => return Err(RuntimeErr::TypeMismatch(other)),
                            };
                            let lv = match self.pop_value() {
                                Ok(v) => v,
                                Err(e) => return Err(e),
                            };
                            let l = match lv {
                                Value::Number(n) => n,
                                other => return Err(RuntimeErr::TypeMismatch(other)),
                            };
                            let x = match l.checked_sub(r) {
                                Some(x) => x,
                                None => return Err(RuntimeErr::ArithmeticErr),
                            };
                            match self.push_value(Value::Number(x)) {
                                Ok(u) => {},
                                Err(e) => return Err(e),
                            }
                        },
                        Inst::OpMul => {
                            let rv = match self.pop_value() {
                                Ok(v) => v,
                                Err(e) => return Err(e),
                            };
                            let r = match rv {
                                Value::Number(n) => n,
                                other => return Err(RuntimeErr::TypeMismatch(other)),
                            };
                            let lv = match self.pop_value() {
                                Ok(v) => v,
                                Err(e) => return Err(e),
                            };
                            let l = match lv {
                                Value::Number(n) => n,
                                other => return Err(RuntimeErr::TypeMismatch(other)),
                            };
                            let x = match l.checked_mul(r) {
                                Some(x) => x,
                                None => return Err(RuntimeErr::ArithmeticErr),
                            };
                            match self.push_value(Value::Number(x)) {
                                Ok(u) => {},
                                Err(e) => return Err(e),
                            }
                        },
                        Inst::OpDiv => {
                            let rv = match self.pop_value() {
                                Ok(v) => v,
                                Err(e) => return Err(e),
                            };
                            let r = match rv {
                                Value::Number(n) => n,
                                other => return Err(RuntimeErr::TypeMismatch(other)),
                            };
                            let lv = match self.pop_value() {
                                Ok(v) => v,
                                Err(e) => return Err(e),
                            };
                            let l = match lv {
                                Value::Number(n) => n,
                                other => return Err(RuntimeErr::TypeMismatch(other)),
                            };
                            let x = match l.checked_div(r) {
                                Some(x) => x,
                                None => return Err(RuntimeErr::ArithmeticErr),
                            };
                            match self.push_value(Value::Number(x)) {
                                Ok(u) => {},
                                Err(e) => return Err(e),
                            }
                        },
                        Inst::OpConcat => {
                            let rv = match self.pop_value() {
                                Ok(v) => v,
                                Err(e) => return Err(e),
                            };
                            let r = match rv {
                                Value::ObjString(s) => s,
                                other => return Err(RuntimeErr::TypeMismatch(other)),
                            };
                            let lv = match self.pop_value() {
                                Ok(v) => v,
                                Err(e) => return Err(e),
                            };
                            let l = match lv {
                                Value::ObjString(s) => s,
                                other => return Err(RuntimeErr::TypeMismatch(other)),
                            };
                            let joined = l.concat(r.as_str());
                            match self.push_value(Value::ObjString(joined)) {
                                Ok(u) => {},
                                Err(e) => return Err(e),
                            }
                        },
                        Inst::OpSetGlobal(identifier) => {
                            let value = match self.pop_value() {
                                Ok(v) => v,
                                Err(e) => return Err(e),
                            };
                            let name = identifier.clone();
                            self.add_global(name, value);
                        },
                        Inst::OpGetGlobal(hash) => {
                            let hv = *hash;
                            match self.globals.get(&hv) {
                                Some(val) => {
                                    let v = val.clone();
                                    match self.push_value(v) {
                                        Ok(u) => {},
                                        Err(e) => return Err(e),
                                    }
                                },
                                None => {
                                    let line = chunk.get_line_of_op(self.ip).unwrap();
                                    return Err(RuntimeErr::UndefinedVariable(line));
                                },
                            }
                        },
                    }
                    self.ip = self.ip + 1;
                },
            }
        }
    }

    /// How many distinct strings the interner currently stores.
    pub fn num_interned(&self) -> (n: usize)
        ensures
            n as nat == self.state().strings.dom().len(),
    {
        proof {
            assert(self.state().strings.dom() =~= self.strings@.dom());
        }
        self.strings.len()
    }

    /// The current value of the global with the given name, if the name is
    /// bound.
    pub fn get_global_value(&self, name: &str) -> (r: Option<&Value>)
        ensures
            match r {
                Some(v) => self.state().globals.contains_key(str_hash(name@)) && value_model(*v)
                    == self.state().globals[str_hash(name@)],
                None => !self.state().globals.contains_key(str_hash(name@)),
            },
    {
        let hash = calc_hash(name);
        self.globals.get(&hash)
    }
}

} // verus!
