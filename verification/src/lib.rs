//! Host side of a confidential contract runtime: the state document of a
//! contract, the delta between two documents, and the execution context that
//! serves the host calls of one invocation over the guest's linear memory.
//! An invocation ends in a result with the delta of the state, or, once a
//! host call has failed, in nothing but that failure.

pub mod abi;
pub mod delta;
pub mod delta_laws;
pub mod enclave;
pub mod errors;
pub mod guest;
pub mod json;
pub mod runtime;
pub mod state;
pub mod store;
