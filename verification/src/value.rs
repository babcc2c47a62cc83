//! Runtime value representations observed by the recorder: the value-type tag
//! of the interpreter's type system and the raw internal value encoding.

use vstd::prelude::*;

verus! {

/// Value-type tag of an operand or storage slot. The floating-point tags name
/// a class only; the recorder holds every runtime value as raw bits.
#[derive(Clone, Copy, Debug, PartialEq, Eq, Structural)]
pub enum ValueType {
    I32,
    I64,
    F32,
    F64,
}

/// A runtime value as the interpreter holds it internally: untyped raw bits,
/// reinterpreted downstream according to the accompanying type tag.
#[derive(Clone, Copy, Debug, PartialEq, Eq, Structural)]
pub struct ValueInternal(pub u64);

} // verus!
