//! Instruction identity: which instruction of which function of which module
//! instance executed, and at which program-counter position.

use vstd::prelude::*;

verus! {

/// Decoded operation code of an executed instruction. The recorder never
/// interprets it; it is carried inside the instruction identity so that the
/// verifier can reproduce the instruction's semantics downstream.
#[derive(Clone, Copy, Debug, PartialEq, Eq, Structural)]
pub struct Opcode(pub u64);

/// Identity of one executed instruction: module instance, function,
/// program-counter position (bounded to a 16-bit range) and decoded opcode.
/// Immutable once constructed; owned by the event entry that embeds it.
#[derive(Clone, Copy, Debug, PartialEq, Eq, Structural)]
pub struct IEntry {
    pub module_instance_index: u16,
    pub func_index: u16,
    pub pc: u16,
    pub opcode: Opcode,
}

} // verus!
