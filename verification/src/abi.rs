//! The numbered host calls that a guest can make, and what a call hands back
//! to the sandbox.

use vstd::prelude::*;

verus! {

/// Index of the call that sets the return value of the invocation.
pub const RET_FUNC: usize = 0;

/// Index of the call that writes a key of the state.
pub const WRITE_STATE_FUNC: usize = 1;

/// Index of the call that reads a key of the state into scratch memory.
pub const READ_STATE_FUNC: usize = 2;

/// Index of the call that copies a staged value out of scratch memory.
pub const FROM_MEM_FUNC: usize = 3;

/// Index of the call that emits a diagnostic text.
pub const EPRINT_FUNC: usize = 4;

/// The host calls. The table is fixed: a guest is compiled against these
/// indexes.
#[derive(Debug, Clone, Copy, PartialEq, Eq, Structural)]
pub enum HostCall {
    /// Sets the result payload of the invocation.
    Ret,
    /// Writes a key of the state.
    WriteState,
    /// Reads a key of the state into scratch memory.
    ReadState,
    /// Copies a staged value out of scratch memory.
    FromMemory,
    /// Emits a diagnostic text.
    Eprint,
}

impl HostCall {
    /// The call with the given index, if there is one.
    pub open spec fn of_index(index: usize) -> Option<HostCall> {
        if index == RET_FUNC {
            Some(HostCall::Ret)
        } else if index == WRITE_STATE_FUNC {
            Some(HostCall::WriteState)
        } else if index == READ_STATE_FUNC {
            Some(HostCall::ReadState)
        } else if index == FROM_MEM_FUNC {
            Some(HostCall::FromMemory)
        } else if index == EPRINT_FUNC {
            Some(HostCall::Eprint)
        } else {
            None
        }
    }

    /// The call with the given index, if there is one.
    pub fn from_index(index: usize) -> (r: Option<HostCall>)
        ensures
            r == HostCall::of_index(index),
    {
        if index == RET_FUNC {
            Some(HostCall::Ret)
        } else if index == WRITE_STATE_FUNC {
            Some(HostCall::WriteState)
        } else if index == READ_STATE_FUNC {
            Some(HostCall::ReadState)
        } else if index == FROM_MEM_FUNC {
            Some(HostCall::FromMemory)
        } else if index == EPRINT_FUNC {
            Some(HostCall::Eprint)
        } else {
            None
        }
    }

    /// The index under which the guest makes the call.
    pub fn index(&self) -> (r: usize)
        ensures
            HostCall::of_index(r) == Some(*self),
    {
        match self {
            HostCall::Ret => RET_FUNC,
            HostCall::WriteState => WRITE_STATE_FUNC,
            HostCall::ReadState => READ_STATE_FUNC,
            HostCall::FromMemory => FROM_MEM_FUNC,
            HostCall::Eprint => EPRINT_FUNC,
        }
    }
}

/// What a host call that did not fail hands back.
#[derive(Debug, PartialEq)]
pub enum HostReturn {
    /// No value.
    Nothing,
    /// One integer: the length of what a state read left in scratch memory.
    Value(i32),
    /// No value, and a text for the diagnostic sink.
    Diagnostic(String),
    /// No value, and nothing for the diagnostic sink: what the guest gave to
    /// print was no UTF-8, which does not end the invocation.
    NoDiagnostic,
}

} // verus!
