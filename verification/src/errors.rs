//! The ways in which an invocation, or the replay of a delta, can fail.

use vstd::prelude::*;

verus! {

/// Why a host call, the end of an invocation or the replay of a delta
/// failed. A failed host call ends the invocation, which then has no result;
/// the one exception is a text to print that is no UTF-8.
#[derive(Debug, Clone, Copy, PartialEq, Eq, Structural)]
pub enum RuntimeError {
    /// A host call came with too few arguments, or with one that is no
    /// 32-bit integer.
    ArgumentError,
    /// An address and a length given by the guest leave its memory.
    MemoryAccessError,
    /// Bytes that the guest gave as a string are no UTF-8.
    Utf8Error,
    /// A value has no JSON text, or none whose length the guest can be told.
    SerializationError,
    /// Bytes that the guest gave as a value are no JSON text.
    DeserializationError,
    /// No delta could be made for the invocation.
    DeltaGenerationError,
    /// A delta does not fit the state it was applied to.
    DeltaApplicationError,
}

} // verus!
