//! A minimal stack-based bytecode virtual machine.
//!
//! The machine executes a closed catalogue of instructions ([`bytecode::Opcode`])
//! against an operand stack of signed 32-bit values and per-activation local
//! storage ([`frame::StackFrame`]), with subroutine call and return through an
//! explicit frame stack. A static verifier ([`frame::StackFrame::verify`])
//! checks operand counts, local-index bounds and stack-depth balance of
//! straight-line programs before execution; the engine
//! ([`interpreter::Interpreter`]) runs a fetch-decode-execute loop whose every
//! failure is a typed trap, never a panic.

pub mod bytecode;
pub mod frame;
pub mod interpreter;
pub mod laws;
