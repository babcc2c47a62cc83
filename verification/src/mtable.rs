//! Tags describing memory accesses: operand width classes for loads and
//! stores, and the variable-type tag used by generic unary operations.

use vstd::prelude::*;

verus! {

/// Width and sign-extension class of a memory load.
#[derive(Clone, Copy, Debug, PartialEq, Eq, Structural)]
pub enum MemoryReadSize {
    U8,
    S8,
    U16,
    S16,
    U32,
    S32,
    I64,
}

/// Width class of a memory store.
#[derive(Clone, Copy, Debug, PartialEq, Eq, Structural)]
pub enum MemoryStoreSize {
    Byte8,
    Byte16,
    Byte32,
    Byte64,
}

/// Variable-type tag attached to operands whose width is not fixed by the
/// opcode alone.
#[derive(Clone, Copy, Debug, PartialEq, Eq, Structural)]
pub enum VarType {
    I64,
    I32,
}

} // verus!
