//! Execution core of the Nova scripting language: the value model, the
//! bytecode chunk with its run-length line tables, the fixed-capacity
//! operand stack, the string interner, and the stack-based virtual machine
//! that executes a chunk and yields a value or a structured runtime error.
pub mod err;
pub mod intern;
pub mod ops;
pub mod render;
pub mod stack;
pub mod tokens;
pub mod vm;
