//! The finalized step descriptor: the interpreter-produced semantic record of
//! an instruction's execution. The recorder treats it as an opaque payload,
//! carried through unchanged into the verifier-facing record.

use vstd::prelude::*;

verus! {

/// Opaque, externally defined step descriptor payload. The recorder never
/// reads it; it only stores it with the entry and hands it back verbatim.
#[derive(Clone, Copy, Debug, PartialEq, Eq, Structural)]
pub struct StepInfo(pub u64);

} // verus!
