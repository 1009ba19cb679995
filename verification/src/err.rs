//! Structured runtime errors reported by the virtual machine and its
//! components. Every failure is terminal for the `run` call that raised it
//! and carries the data a host needs to render a diagnostic.
use vstd::prelude::*;

use crate::ops::AbsValue;
use crate::ops::Value;
use crate::ops::value_chars;
use crate::ops::value_model;
use crate::render::dec_nat;
use crate::render::usize_to_string;

verus! {

/// The closed set of runtime failures.
#[derive(Debug)]
pub enum RuntimeErr {
    /// A push was attempted on a full operand stack.
    StackOverflow,
    /// A pop was attempted on an empty operand stack.
    StackUnderflow,
    /// An instruction referenced a constant-pool slot that does not exist;
    /// carries the offending index.
    InvalidConstantIndex(usize),
    /// An operator received an operand of the wrong kind; carries the value
    /// actually encountered so it can be rendered in the diagnostic.
    TypeMismatch(Value),
    /// Division by zero or another numerically undefined operation.
    ArithmeticErr,
    /// A global lookup found no binding; carries the source line of the
    /// offending instruction.
    UndefinedVariable(usize),
}

/// The diagnostic text of a runtime error. An error that knows its source
/// line renders as `[line N] message`; the others render as their message
/// alone.
pub open spec fn err_chars(e: RuntimeErr) -> Seq<char> {
    match e {
        RuntimeErr::StackOverflow => "Stack overflow"@,
        RuntimeErr::StackUnderflow => "Stack underflow"@,
        RuntimeErr::InvalidConstantIndex(i) => "Invalid index for constant:"@ + dec_nat(i as nat),
        RuntimeErr::TypeMismatch(v) => "Expected number or string but got: "@ + value_chars(v),
        RuntimeErr::ArithmeticErr => "Arithmetic error"@,
        RuntimeErr::UndefinedVariable(line) => "[line "@ + dec_nat(line as nat)
            + "] Variable is not defined."@,
    }
}

impl RuntimeErr {
    /// Render the error as its diagnostic text.
    pub fn render(&self) -> (s: String)
        ensures
            s@ == err_chars(*self),
    {
        match self {
            RuntimeErr::StackOverflow => String::from_str("Stack overflow"),
            RuntimeErr::StackUnderflow => String::from_str("Stack underflow"),
            RuntimeErr::InvalidConstantIndex(i) => {
                let mut s = String::from_str("Invalid index for constant:");
                let digits = usize_to_string(*i);
                s.append(digits.as_str());
                s
            },
            RuntimeErr::TypeMismatch(v) => {
                let mut s = String::from_str("Expected number or string but got: ");
                let val = v.render();
                s.append(val.as_str());
                s
            },
            RuntimeErr::ArithmeticErr => String::from_str("Arithmetic error"),
            RuntimeErr::UndefinedVariable(line) => {
                let mut s = String::from_str("[line ");
                let digits = usize_to_string(*line);
                s.append(digits.as_str());
                s.append("] Variable is not defined.");
                proof {
                    assert(s@ =~= err_chars(*self));
                }
                s
            },
        }
    }
}

/// The mathematical shadow of a runtime error: the same taxonomy with the
/// carried value reduced to its own shadow.
pub enum AbsErr {
    StackOverflow,
    StackUnderflow,
    InvalidConstantIndex(int),
    TypeMismatch(AbsValue),
    ArithmeticErr,
    UndefinedVariable(int),
}

/// The shadow of a runtime error.
pub open spec fn err_model(e: RuntimeErr) -> AbsErr {
    match e {
        RuntimeErr::StackOverflow => AbsErr::StackOverflow,
        RuntimeErr::StackUnderflow => AbsErr::StackUnderflow,
        RuntimeErr::InvalidConstantIndex(i) => AbsErr::InvalidConstantIndex(i as int),
        RuntimeErr::TypeMismatch(v) => AbsErr::TypeMismatch(value_model(v)),
        RuntimeErr::ArithmeticErr => AbsErr::ArithmeticErr,
        RuntimeErr::UndefinedVariable(line) => AbsErr::UndefinedVariable(line as int),
    }
}

/// The shadow of a `run` result.
pub open spec fn result_model(r: Result<Value, RuntimeErr>) -> Result<AbsValue, AbsErr> {
    match r {
        Ok(v) => Ok(value_model(v)),
        Err(e) => Err(err_model(e)),
    }
}

} // verus!
