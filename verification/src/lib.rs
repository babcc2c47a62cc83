//! Execution-trace recorder for an instrumented WebAssembly interpreter.
//!
//! Every executed instruction is turned into one immutable, totally ordered
//! record holding the operand and context state a downstream verifier needs to
//! check that instruction without re-running the interpreter. The event table
//! owns global sequence-id allocation, keeps its entries append-only, and
//! exposes the verifier-facing record format.

use vstd::prelude::*;

pub mod etable;
pub mod itable;
pub mod mtable;
pub mod step;
pub mod value;

verus! {

/// Maximum addressable depth of the interpreter's value stack. Used only in
/// the stack-depth transform when an entry is converted to the verifier-facing
/// record format.
pub const DEFAULT_VALUE_STACK_LIMIT: usize = 1024;

} // verus!
