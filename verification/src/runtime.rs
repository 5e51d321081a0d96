//! The execution context of one invocation: it serves the guest's host calls
//! over the guest's linear memory and the contract's state, and at the end
//! gives the result of the invocation with the delta of the state.

use vstd::prelude::*;
use vstd::utf8::*;
use crate::abi::{HostCall, HostReturn};
use crate::delta::{apply_ops, delta_fits, diff_ops, generate_delta, StatePatch};
use crate::delta_laws::{
    extends, lemma_delta_round_trip_in_order, lemma_extension_keeps_order, lemma_write_extends,
    same_members,
};
use crate::errors::RuntimeError;
use crate::guest::{
    decode_text, first_four, first_two, four_words, in_bounds, loaded, memory_bytes, memory_get,
    memory_set, stored, two_words,
};
use crate::json::{encodable, json_parsed, json_text, null_text, value_from_slice, value_to_vec};
use crate::state::{
    doc_read, doc_wf, doc_write, has_key, lemma_read_after_write, ContractState, Document,
};

verus! {

/// What an invocation leaves: the bytes that the guest returned, the state
/// after it, and the delta that leads there from the state before it. A
/// finished invocation has all three.
#[derive(Debug, Clone, PartialEq)]
pub struct RuntimeResult {
    pub state_delta: Option<StatePatch>,
    pub updated_state: Option<ContractState>,
    pub result: Vec<u8>,
}

/// The execution context of one invocation: the guest's linear memory, the
/// argument bytes, the result payload so far, the state at the start, which
/// no host call changes, the current state, and the failure that ended the
/// invocation, if one did. Both states belong to one contract. An
/// invocation that has failed stays failed: it serves no further host call
/// and has no result.
pub struct Runtime {
    memory: wasmi::MemoryRef,
    args: Vec<u8>,
    result: Vec<u8>,
    init_state: ContractState,
    current_state: ContractState,
    failure: Option<RuntimeError>,
}

/// The JSON text that reading `key` from `doc` gives: that of the value
/// under the key, or that of null where the document has none.
pub open spec fn read_text(doc: Document, key: Seq<char>) -> Seq<u8> {
    match doc_read(doc, key) {
        Some(value) => json_text(value)->Some_0,
        None => null_text(),
    }
}

/// Whether `post` differs from `pre` in nothing but the guest's memory and
/// the result payload.
pub open spec fn states_kept(pre: Runtime, post: Runtime) -> bool {
    &&& post.input() == pre.input()
    &&& post.initial().same_as(pre.initial())
    &&& post.current().same_as(pre.current())
}

/// Whether `post` differs from `pre` in nothing but, at most, in having
/// failed.
pub open spec fn all_kept(pre: Runtime, post: Runtime) -> bool {
    &&& states_kept(pre, post)
    &&& post.memory() == pre.memory()
    &&& post.result() == pre.result()
}

/// Whether a host call failed with `error` and changed nothing.
pub open spec fn refused<T>(
    pre: Runtime,
    post: Runtime,
    r: Result<T, RuntimeError>,
    error: RuntimeError,
) -> bool {
    r == Err::<T, RuntimeError>(error) && all_kept(pre, post)
}

/// What a host call does, given in `outcome` what it does in an invocation
/// that has not failed and where it does not fail itself: an invocation that
/// has failed gets its failure back and nothing changes, and a call that
/// fails leaves the invocation failed.
pub open spec fn host_call_effect<T>(
    pre: Runtime,
    post: Runtime,
    r: Result<T, RuntimeError>,
    outcome: bool,
) -> bool {
    match pre.failure() {
        Some(e) => refused(pre, post, r, e) && post.failure() == pre.failure(),
        None => outcome && post.failure() == match r {
            Ok(_) => None,
            Err(e) => Some(e),
        },
    }
}

/// What `Runtime::ret` does in an invocation that has not failed: with an
/// address and a length that lie within the memory, the bytes there become
/// the result payload; otherwise the call fails and changes nothing.
pub open spec fn ret_outcome(
    pre: Runtime,
    args: wasmi::RuntimeArgs,
    post: Runtime,
    r: Result<(), RuntimeError>,
) -> bool {
    match two_words(args) {
        None => refused(pre, post, r, RuntimeError::ArgumentError),
        Some((ptr, len)) => if !in_bounds(pre.memory(), ptr as int, len as int) {
            refused(pre, post, r, RuntimeError::MemoryAccessError)
        } else {
            &&& r is Ok
            &&& states_kept(pre, post)
            &&& post.memory() == pre.memory()
            &&& post.result() == loaded(pre.memory(), ptr as int, len as int)
        },
    }
}

/// What `Runtime::from_memory` does in an invocation that has not failed:
/// with a length that lies within the memory from address 0 and from the
/// target address, the bytes from address 0 are copied to the target address
/// and become the result payload; otherwise the call fails and changes
/// nothing.
pub open spec fn from_memory_outcome(
    pre: Runtime,
    args: wasmi::RuntimeArgs,
    post: Runtime,
    r: Result<(), RuntimeError>,
) -> bool {
    match two_words(args) {
        None => refused(pre, post, r, RuntimeError::ArgumentError),
        Some((value, len)) => {
            let staged = loaded(pre.memory(), 0, len as int);
            if !in_bounds(pre.memory(), 0, len as int) || !in_bounds(
                pre.memory(),
                value as int,
                len as int,
            ) {
                refused(pre, post, r, RuntimeError::MemoryAccessError)
            } else {
                &&& r is Ok
                &&& states_kept(pre, post)
                &&& post.memory() == stored(pre.memory(), value as int, staged)
                &&& post.result() == staged
            }
        },
    }
}

/// What `Runtime::read_state` does in an invocation that has not failed:
/// with a key that lies within the memory and is UTF-8, the JSON text of the
/// value under it (of null where there is none) is written at address 0 and
/// its length is returned; otherwise the call fails and changes nothing. It
/// also fails where the text is longer than an `i32` can tell or than the
/// memory can hold.
pub open spec fn read_state_outcome(
    pre: Runtime,
    args: wasmi::RuntimeArgs,
    post: Runtime,
    r: Result<i32, RuntimeError>,
) -> bool {
    match two_words(args) {
        None => refused(pre, post, r, RuntimeError::ArgumentError),
        Some((key, key_len)) => {
            let key_bytes = loaded(pre.memory(), key as int, key_len as int);
            let text = read_text(pre.current()@, decode_utf8(key_bytes));
            if !in_bounds(pre.memory(), key as int, key_len as int) {
                refused(pre, post, r, RuntimeError::MemoryAccessError)
            } else if !valid_utf8(key_bytes) {
                refused(pre, post, r, RuntimeError::Utf8Error)
            } else if text.len() > i32::MAX {
                refused(pre, post, r, RuntimeError::SerializationError)
            } else if !in_bounds(pre.memory(), 0, text.len() as int) {
                refused(pre, post, r, RuntimeError::MemoryAccessError)
            } else {
                &&& r == Ok::<i32, RuntimeError>(text.len() as i32)
                &&& states_kept(pre, post)
                &&& post.result() == pre.result()
                &&& post.memory() == stored(pre.memory(), 0, text)
            }
        },
    }
}

/// What `Runtime::write_state` does in an invocation that has not failed:
/// with a key and a value that lie within the memory, a key that is UTF-8
/// and a value that is JSON text, the value is written under the key in the
/// current state; otherwise the call fails and changes nothing.
pub open spec fn write_state_outcome(
    pre: Runtime,
    args: wasmi::RuntimeArgs,
    post: Runtime,
    r: Result<(), RuntimeError>,
) -> bool {
    match four_words(args) {
        None => refused(pre, post, r, RuntimeError::ArgumentError),
        Some((key, key_len, value, value_len)) => {
            let key_bytes = loaded(pre.memory(), key as int, key_len as int);
            let value_bytes = loaded(pre.memory(), value as int, value_len as int);
            if !in_bounds(pre.memory(), key as int, key_len as int) || !in_bounds(
                pre.memory(),
                value as int,
                value_len as int,
            ) {
                refused(pre, post, r, RuntimeError::MemoryAccessError)
            } else if !valid_utf8(key_bytes) {
                refused(pre, post, r, RuntimeError::Utf8Error)
            } else if json_parsed(value_bytes) is None {
                refused(pre, post, r, RuntimeError::DeserializationError)
            } else if !encodable(json_parsed(value_bytes)->Some_0) {
                refused(pre, post, r, RuntimeError::SerializationError)
            } else {
                &&& r is Ok
                &&& post.input() == pre.input()
                &&& post.memory() == pre.memory()
                &&& post.result() == pre.result()
                &&& post.initial().same_as(pre.initial())
                &&& post.current().address() == pre.current().address()
                &&& post.current().index() == pre.current().index()
                &&& post.current()@ == doc_write(
                    pre.current()@,
                    decode_utf8(key_bytes),
                    json_parsed(value_bytes)->Some_0,
                )
            }
        },
    }
}

/// What `Runtime::eprint` gives in an invocation that has not failed: with
/// a text that lies within the memory and is UTF-8, that text; otherwise an
/// error.
pub open spec fn eprint_outcome(
    context: Runtime,
    args: wasmi::RuntimeArgs,
    r: Result<String, RuntimeError>,
) -> bool {
    match two_words(args) {
        None => r == Err::<String, RuntimeError>(RuntimeError::ArgumentError),
        Some((ptr, len)) => {
            let bytes = loaded(context.memory(), ptr as int, len as int);
            if !in_bounds(context.memory(), ptr as int, len as int) {
                r == Err::<String, RuntimeError>(RuntimeError::MemoryAccessError)
            } else if !valid_utf8(bytes) {
                r == Err::<String, RuntimeError>(RuntimeError::Utf8Error)
            } else {
                r matches Ok(text) && text@ == decode_utf8(bytes)
            }
        },
    }
}

/// What `Runtime::ret` does.
pub open spec fn ret_effect(
    pre: Runtime,
    args: wasmi::RuntimeArgs,
    post: Runtime,
    r: Result<(), RuntimeError>,
) -> bool {
    host_call_effect(pre, post, r, ret_outcome(pre, args, post, r))
}

/// What `Runtime::from_memory` does.
pub open spec fn from_memory_effect(
    pre: Runtime,
    args: wasmi::RuntimeArgs,
    post: Runtime,
    r: Result<(), RuntimeError>,
) -> bool {
    host_call_effect(pre, post, r, from_memory_outcome(pre, args, post, r))
}

/// What `Runtime::read_state` does.
pub open spec fn read_state_effect(
    pre: Runtime,
    args: wasmi::RuntimeArgs,
    post: Runtime,
    r: Result<i32, RuntimeError>,
) -> bool {
    host_call_effect(pre, post, r, read_state_outcome(pre, args, post, r))
}

/// What `Runtime::write_state` does.
pub open spec fn write_state_effect(
    pre: Runtime,
    args: wasmi::RuntimeArgs,
    post: Runtime,
    r: Result<(), RuntimeError>,
) -> bool {
    host_call_effect(pre, post, r, write_state_outcome(pre, args, post, r))
}

/// What `Runtime::eprint` does: it changes nothing, and a failure of it
/// leaves the invocation failed, unless the failure is that the text is no
/// UTF-8.
pub open spec fn eprint_effect(
    pre: Runtime,
    args: wasmi::RuntimeArgs,
    post: Runtime,
    r: Result<String, RuntimeError>,
) -> bool {
    match pre.failure() {
        Some(e) => refused(pre, post, r, e) && post.failure() == pre.failure(),
        None => eprint_outcome(pre, args, r) && all_kept(pre, post) && post.failure() == match r {
            Ok(_) => None,
            Err(e) => if e == RuntimeError::Utf8Error {
                None
            } else {
                Some(e)
            },
        },
    }
}

/// What the end of an invocation gives: the result payload, the current
/// state with the next sequence index, and under that index the delta from
/// the initial state to the current one. An invocation that has failed gives
/// its failure and nothing else; beyond that the end fails only where there
/// is no next sequence index.
pub open spec fn into_result_outcome(
    context: Runtime,
    r: Result<RuntimeResult, RuntimeError>,
) -> bool {
    match context.failure() {
        Some(first) => r matches Err(e) && e == first,
        None => if context.initial().index() == u32::MAX {
            r matches Err(e) && e == RuntimeError::DeltaGenerationError
        } else {
            &&& r matches Ok(outcome)
            &&& outcome.result@ == context.result()
            &&& outcome.updated_state matches Some(state)
            &&& state@ == context.current()@
            &&& state.address() == context.current().address()
            &&& state.index() == context.initial().index() + 1
            &&& outcome.state_delta matches Some(delta)
            &&& delta.contract_id@ == context.initial().address()
            &&& delta.index == context.initial().index() + 1
            &&& delta.operations() == diff_ops(context.initial()@, context.current()@)
        },
    }
}

/// What serving the host call `call` does: what the method of that call
/// does, its result handed back as the sandbox expects it. A text to print
/// that is no UTF-8 is no failure of the invocation.
pub open spec fn dispatch_effect(
    pre: Runtime,
    call: HostCall,
    args: wasmi::RuntimeArgs,
    post: Runtime,
    r: Result<HostReturn, RuntimeError>,
) -> bool {
    match call {
        HostCall::Ret => match r {
            Ok(HostReturn::Nothing) => ret_effect(pre, args, post, Ok(())),
            Err(e) => ret_effect(pre, args, post, Err(e)),
            _ => false,
        },
        HostCall::WriteState => match r {
            Ok(HostReturn::Nothing) => write_state_effect(pre, args, post, Ok(())),
            Err(e) => write_state_effect(pre, args, post, Err(e)),
            _ => false,
        },
        HostCall::ReadState => match r {
            Ok(HostReturn::Value(len)) => read_state_effect(pre, args, post, Ok(len)),
            Err(e) => read_state_effect(pre, args, post, Err(e)),
            _ => false,
        },
        HostCall::FromMemory => match r {
            Ok(HostReturn::Nothing) => from_memory_effect(pre, args, post, Ok(())),
            Err(e) => from_memory_effect(pre, args, post, Err(e)),
            _ => false,
        },
        HostCall::Eprint => match r {
            Ok(HostReturn::Diagnostic(text)) => eprint_effect(pre, args, post, Ok(text)),
            Ok(HostReturn::NoDiagnostic) => eprint_effect(
                pre,
                args,
                post,
                Err(RuntimeError::Utf8Error),
            ) && pre.failure() is None,
            Err(e) => eprint_effect(pre, args, post, Err(e)) && post.failure() is Some,
            _ => false,
        },
    }
}

/// The length of `text` as a host call returns it to the guest. A text
/// longer than an `i32` can tell is refused.
pub fn reply_length(text: &[u8]) -> (r: Result<i32, RuntimeError>)
    ensures
        text@.len() <= i32::MAX ==> r == Ok::<i32, RuntimeError>(text@.len() as i32),
        text@.len() > i32::MAX ==> r == Err::<i32, RuntimeError>(
            RuntimeError::SerializationError,
        ),
{
    if text.len() > i32::MAX as usize {
        Err(RuntimeError::SerializationError)
    } else {
        Ok(text.len() as i32)
    }
}

impl Runtime {
    /// The guest's linear memory.
    pub closed spec fn memory(&self) -> Seq<u8> {
        memory_bytes(self.memory)
    }

    /// The argument bytes of the invocation.
    pub closed spec fn input(&self) -> Seq<u8> {
        self.args@
    }

    /// The result payload so far.
    pub closed spec fn result(&self) -> Seq<u8> {
        self.result@
    }

    /// The failure that ended the invocation, if one did.
    pub closed spec fn failure(&self) -> Option<RuntimeError> {
        self.failure
    }

    /// The state at the start of the invocation.
    pub closed spec fn initial(&self) -> ContractState {
        self.init_state
    }

    /// The state as the host calls so far have left it.
    pub closed spec fn current(&self) -> ContractState {
        self.current_state
    }

    /// What holds of every context: both states belong to one contract and
    /// are well formed, and the current state extends the initial one, as
    /// host calls write keys and never remove or move one.
    pub open spec fn coherent(&self) -> bool {
        &&& self.initial().address() == self.current().address()
        &&& doc_wf(self.initial()@)
        &&& doc_wf(self.current()@)
        &&& extends(self.initial()@, self.current()@)
    }

    #[verifier::type_invariant]
    spec fn grown_from_initial(self) -> bool {
        &&& self.init_state.address() == self.current_state.address()
        &&& extends(self.init_state@, self.current_state@)
    }

    /// Every context is coherent: a call makes that known of a context that
    /// came from elsewhere.
    pub fn coherence(&self)
        ensures
            self.coherent(),
    {
        proof {
            use_type_invariant(self);
            use_type_invariant(&self.init_state);
            use_type_invariant(&self.current_state);
        }
    }

    /// The context of the first invocation of a contract: both states are
    /// empty.
    pub fn new(memory: wasmi::MemoryRef, args: Vec<u8>, contract_id: [u8; 32]) -> (r: Runtime)
        ensures
            r.memory() == memory_bytes(memory),
            r.input() == args@,
            r.result() == Seq::<u8>::empty(),
            r.failure() is None,
            r.initial().address() == contract_id@,
            r.initial().index() == 0,
            r.initial()@ == Seq::<(Seq<char>, serde_json::Value)>::empty(),
            r.current().same_as(r.initial()),
            r.coherent(),
    {
        let init_state = ContractState::new(contract_id);
        let current_state = ContractState::new(contract_id);
        let r = Runtime {
            memory,
            args,
            result: Vec::new(),
            init_state,
            current_state,
            failure: None,
        };
        r.coherence();
        r
    }

    /// The context of an invocation that starts from `state`: the initial
    /// state is a copy of it, the current state is `state` itself.
    pub fn new_with_state(memory: wasmi::MemoryRef, args: Vec<u8>, state: ContractState) -> (r:
        Runtime)
        ensures
            r.memory() == memory_bytes(memory),
            r.input() == args@,
            r.result() == Seq::<u8>::empty(),
            r.failure() is None,
            r.initial().same_as(state),
            r.current().same_as(state),
            r.coherent(),
    {
        let init_state = state.clone();
        let r = Runtime {
            memory,
            args,
            result: Vec::new(),
            init_state,
            current_state: state,
            failure: None,
        };
        r.coherence();
        r
    }

    /// The argument bytes of the invocation.
    pub fn args(&self) -> (r: &Vec<u8>)
        ensures
            r@ == self.input(),
    {
        &self.args
    }

    /// The state at the start of the invocation.
    pub fn initial_state(&self) -> (r: &ContractState)
        ensures
            *r == self.initial(),
    {
        &self.init_state
    }

    /// The state as the host calls so far have left it.
    pub fn current_state(&self) -> (r: &ContractState)
        ensures
            *r == self.current(),
    {
        &self.current_state
    }

    /// The result payload so far.
    pub fn staged_result(&self) -> (r: &Vec<u8>)
        ensures
            r@ == self.result(),
    {
        &self.result
    }

    /// The address of the contract that runs: that of the initial state, and
    /// of the current state as well.
    pub fn contract_id(&self) -> (r: [u8; 32])
        ensures
            r@ == self.initial().address(),
            r@ == self.current().address(),
    {
        proof {
            use_type_invariant(self);
        }
        self.current_state.contract_id()
    }

    /// The `len` bytes of the guest's memory from `offset` on.
    fn load(&self, offset: u32, len: u32) -> (r: Result<Vec<u8>, RuntimeError>)
        ensures
            in_bounds(self.memory(), offset as int, len as int) ==> {
                &&& r matches Ok(bytes)
                &&& bytes@ == loaded(self.memory(), offset as int, len as int)
            },
            !in_bounds(self.memory(), offset as int, len as int) ==> r == Err::<
                Vec<u8>,
                RuntimeError,
            >(RuntimeError::MemoryAccessError),
    {
        match memory_get(&self.memory, offset, len as usize) {
            Ok(bytes) => Ok(bytes),
            Err(_) => Err(RuntimeError::MemoryAccessError),
        }
    }

    /// The failure that ended the invocation, if one did.
    pub fn failed(&self) -> (r: Option<RuntimeError>)
        ensures
            r == self.failure(),
    {
        self.failure
    }

    /// Leaves the invocation failed where `r` is a failure.
    fn settle<T>(&mut self, r: Result<T, RuntimeError>) -> (out: Result<T, RuntimeError>)
        requires
            old(self).failure() is None,
        ensures
            out == r,
            all_kept(*old(self), *final(self)),
            final(self).current() == old(self).current(),
            final(self).failure() == match r {
                Ok(_) => None,
                Err(e) => Some(e),
            },
    {
        proof {
            use_type_invariant(&*self);
        }
        if let Err(e) = &r {
            self.failure = Some(*e);
        }
        r
    }

    /// Host call: takes the `len` bytes at address `ptr` of the guest's
    /// memory as the result payload, in place of what was staged before.
    /// The arguments are `ptr` and `len`.
    pub fn ret(&mut self, args: wasmi::RuntimeArgs) -> (r: Result<(), RuntimeError>)
        ensures
            ret_effect(*old(self), args, *final(self), r),
    {
        if let Some(e) = self.failure {
            return Err(e);
        }
        let r = self.do_ret(args);
        self.settle(r)
    }

    fn do_ret(&mut self, args: wasmi::RuntimeArgs) -> (r: Result<(), RuntimeError>)
        ensures
            ret_outcome(*old(self), args, *final(self), r),
            final(self).failure() == old(self).failure(),
    {
        proof {
            use_type_invariant(&*self);
        }
        let (ptr, len) = match first_two(&args) {
            Some(words) => words,
            None => {
                return Err(RuntimeError::ArgumentError);
            },
        };
        self.result = self.load(ptr, len)?;
        Ok(())
    }

    /// Host call: copies the `value_len` bytes at address 0 of the guest's
    /// memory to address `value`, and stages them as the result payload.
    /// The arguments are `value` and `value_len`.
    pub fn from_memory(&mut self, args: wasmi::RuntimeArgs) -> (r: Result<(), RuntimeError>)
        ensures
            from_memory_effect(*old(self), args, *final(self), r),
    {
        if let Some(e) = self.failure {
            return Err(e);
        }
        let r = self.do_from_memory(args);
        self.settle(r)
    }

    fn do_from_memory(&mut self, args: wasmi::RuntimeArgs) -> (r: Result<(), RuntimeError>)
        ensures
            from_memory_outcome(*old(self), args, *final(self), r),
            final(self).failure() == old(self).failure(),
    {
        proof {
            use_type_invariant(&*self);
        }
        let (value, value_len) = match first_two(&args) {
            Some(words) => words,
            None => {
                return Err(RuntimeError::ArgumentError);
            },
        };
        let staged = self.load(0, value_len)?;
        match memory_set(&mut self.memory, value, staged.as_slice()) {
            Ok(()) => {
                self.result = staged;
                Ok(())
            },
            Err(_) => Err(RuntimeError::MemoryAccessError),
        }
    }

    /// Host call: reads the key of `key_len` bytes at address `key` of the
    /// guest's memory, writes the JSON text of the value under it (of null
    /// where the state has none) at address 0, and returns the length of
    /// that text. The arguments are `key` and `key_len`.
    pub fn read_state(&mut self, args: wasmi::RuntimeArgs) -> (r: Result<i32, RuntimeError>)
        ensures
            read_state_effect(*old(self), args, *final(self), r),
    {
        if let Some(e) = self.failure {
            return Err(e);
        }
        let r = self.do_read_state(args);
        self.settle(r)
    }

    fn do_read_state(&mut self, args: wasmi::RuntimeArgs) -> (r: Result<i32, RuntimeError>)
        ensures
            read_state_outcome(*old(self), args, *final(self), r),
            final(self).failure() == old(self).failure(),
    {
        proof {
            use_type_invariant(&*self);
        }
        let (key, key_len) = match first_two(&args) {
            Some(words) => words,
            None => {
                return Err(RuntimeError::ArgumentError);
            },
        };
        let key_bytes = self.load(key, key_len)?;
        let key_text = match decode_text(key_bytes.as_slice()) {
            Some(text) => text,
            None => {
                return Err(RuntimeError::Utf8Error);
            },
        };
        let value = self.current_state.read(key_text.as_str());
        let text = match value_to_vec(&value) {
            Ok(bytes) => bytes,
            Err(_) => {
                return Err(RuntimeError::SerializationError);
            },
        };
        let len = reply_length(text.as_slice())?;
        match memory_set(&mut self.memory, 0, text.as_slice()) {
            Ok(()) => Ok(len),
            Err(_) => Err(RuntimeError::MemoryAccessError),
        }
    }

    /// Host call: reads the key of `key_len` bytes at address `key` and the
    /// JSON text of `value_len` bytes at address `value` of the guest's
    /// memory, and writes the value under the key in the current state. The
    /// arguments are `key`, `key_len`, `value` and `value_len`.
    pub fn write_state(&mut self, args: wasmi::RuntimeArgs) -> (r: Result<(), RuntimeError>)
        ensures
            write_state_effect(*old(self), args, *final(self), r),
    {
        if let Some(e) = self.failure {
            return Err(e);
        }
        let r = self.do_write_state(args);
        self.settle(r)
    }

    fn do_write_state(&mut self, args: wasmi::RuntimeArgs) -> (r: Result<(), RuntimeError>)
        ensures
            write_state_outcome(*old(self), args, *final(self), r),
            final(self).failure() == old(self).failure(),
    {
        proof {
            use_type_invariant(&*self);
        }
        let (key, key_len, value, value_len) = match first_four(&args) {
            Some(words) => words,
            None => {
                return Err(RuntimeError::ArgumentError);
            },
        };
        let key_bytes = self.load(key, key_len)?;
        let value_bytes = self.load(value, value_len)?;
        let key_text = match decode_text(key_bytes.as_slice()) {
            Some(text) => text,
            None => {
                return Err(RuntimeError::Utf8Error);
            },
        };
        let parsed = match value_from_slice(value_bytes.as_slice()) {
            Ok(parsed) => parsed,
            Err(_) => {
                return Err(RuntimeError::DeserializationError);
            },
        };
        // The state is written outside the context, where empty states of
        // the same contract stand in for both states meanwhile.
        let contract_id = self.current_state.contract_id();
        let mut initial = ContractState::new(contract_id);
        let mut current = ContractState::new(contract_id);
        core::mem::swap(&mut self.init_state, &mut initial);
        core::mem::swap(&mut self.current_state, &mut current);
        proof {
            lemma_write_extends(initial@, current@, key_text@, parsed);
        }
        let written = current.write(key_text.as_str(), parsed);
        core::mem::swap(&mut self.current_state, &mut current);
        core::mem::swap(&mut self.init_state, &mut initial);
        written
    }

    /// Host call: reads the `len` bytes at address `ptr` of the guest's
    /// memory as a text for the diagnostic sink. Nothing else of the context
    /// changes, and a text that is no UTF-8 does not end the invocation.
    /// The arguments are `ptr` and `len`.
    pub fn eprint(&mut self, args: wasmi::RuntimeArgs) -> (r: Result<String, RuntimeError>)
        ensures
            eprint_effect(*old(self), args, *final(self), r),
    {
        proof {
            use_type_invariant(&*self);
        }
        if let Some(e) = self.failure {
            return Err(e);
        }
        let r = self.do_eprint(args);
        match r {
            Ok(text) => Ok(text),
            Err(RuntimeError::Utf8Error) => Err(RuntimeError::Utf8Error),
            Err(e) => {
                self.failure = Some(e);
                Err(e)
            },
        }
    }

    fn do_eprint(&self, args: wasmi::RuntimeArgs) -> (r: Result<String, RuntimeError>)
        ensures
            eprint_outcome(*self, args, r),
    {
        let (ptr, len) = match first_two(&args) {
            Some(words) => words,
            None => {
                return Err(RuntimeError::ArgumentError);
            },
        };
        let bytes = self.load(ptr, len)?;
        match decode_text(bytes.as_slice()) {
            Some(text) => Ok(text),
            None => Err(RuntimeError::Utf8Error),
        }
    }

    /// Ends the invocation. The context is used up: an invocation has one
    /// result. An invocation that has failed has none.
    pub fn into_result(self) -> (r: Result<RuntimeResult, RuntimeError>)
        ensures
            self.coherent(),
            into_result_outcome(self, r),
    {
        self.coherence();
        if let Some(e) = self.failure {
            return Err(e);
        }
        let last = self.init_state.delta_index();
        if last == u32::MAX {
            return Err(RuntimeError::DeltaGenerationError);
        }
        let index = last + 1;
        let delta = generate_delta(&self.init_state, &self.current_state, index)?;
        let mut updated = self.current_state;
        updated.set_delta_index(index);
        Ok(
            RuntimeResult {
                state_delta: Some(delta),
                updated_state: Some(updated),
                result: self.result,
            },
        )
    }

    /// Serves one host call.
    pub fn dispatch(&mut self, call: HostCall, args: wasmi::RuntimeArgs) -> (r: Result<
        HostReturn,
        RuntimeError,
    >)
        ensures
            dispatch_effect(*old(self), call, args, *final(self), r),
    {
        match call {
            HostCall::Ret => match self.ret(args) {
                Ok(()) => Ok(HostReturn::Nothing),
                Err(e) => Err(e),
            },
            HostCall::WriteState => match self.write_state(args) {
                Ok(()) => Ok(HostReturn::Nothing),
                Err(e) => Err(e),
            },
            HostCall::ReadState => match self.read_state(args) {
                Ok(len) => Ok(HostReturn::Value(len)),
                Err(e) => Err(e),
            },
            HostCall::FromMemory => match self.from_memory(args) {
                Ok(()) => Ok(HostReturn::Nothing),
                Err(e) => Err(e),
            },
            HostCall::Eprint => {
                let healthy = self.failure.is_none();
                match self.eprint(args) {
                    Ok(text) => Ok(HostReturn::Diagnostic(text)),
                    Err(RuntimeError::Utf8Error) => if healthy {
                        Ok(HostReturn::NoDiagnostic)
                    } else {
                        Err(RuntimeError::Utf8Error)
                    },
                    Err(e) => Err(e),
                }
            },
        }
    }

    /// Serves the host call that the guest made under `index`. An index
    /// outside the table of host calls is no input of this function.
    pub fn invoke_index(&mut self, index: usize, args: wasmi::RuntimeArgs) -> (r: Result<
        HostReturn,
        RuntimeError,
    >)
        requires
            HostCall::of_index(index) is Some,
        ensures
            dispatch_effect(*old(self), HostCall::of_index(index)->Some_0, args, *final(self), r),
    {
        match HostCall::from_index(index) {
            Some(call) => self.dispatch(call, args),
            None => Err(RuntimeError::ArgumentError),
        }
    }
}

/// Reading a key that the state lacks is no failure: where the invocation
/// has not failed, the key lies within the memory and is UTF-8, and the
/// memory has room for it, the call writes the text of null, and returns its
/// length.
pub proof fn lemma_read_state_of_absent_key(
    pre: Runtime,
    args: wasmi::RuntimeArgs,
    post: Runtime,
    r: Result<i32, RuntimeError>,
)
    requires
        read_state_effect(pre, args, post, r),
        pre.failure() is None,
        two_words(args) matches Some((key, key_len)) && {
            let key_bytes = loaded(pre.memory(), key as int, key_len as int);
            &&& in_bounds(pre.memory(), key as int, key_len as int)
            &&& valid_utf8(key_bytes)
            &&& !has_key(pre.current()@, decode_utf8(key_bytes))
        },
        pre.memory().len() >= 4,
    ensures
        r == Ok::<i32, RuntimeError>(4),
        post.memory() == stored(pre.memory(), 0, null_text()),
{
}

/// A value that one host call wrote under a key is the value that a later
/// host call reads under it: where `write_state` succeeded, a `read_state`
/// of the same key writes the JSON text of the written value and returns
/// its length, or fails because that text is longer than an `i32` can tell
/// or than the memory can hold.
pub proof fn lemma_read_state_after_write_state(
    pre: Runtime,
    write_args: wasmi::RuntimeArgs,
    mid: Runtime,
    read_args: wasmi::RuntimeArgs,
    post: Runtime,
    r: Result<i32, RuntimeError>,
)
    requires
        pre.coherent(),
        write_state_effect(pre, write_args, mid, Ok(())),
        read_state_effect(mid, read_args, post, r),
        two_words(read_args) == two_words(write_args),
    ensures
        four_words(write_args) matches Some((key, key_len, value, value_len)) && {
            let written = json_parsed(loaded(pre.memory(), value as int, value_len as int))->Some_0;
            let text = json_text(written)->Some_0;
            if text.len() <= i32::MAX && text.len() <= pre.memory().len() {
                &&& r == Ok::<i32, RuntimeError>(text.len() as i32)
                &&& post.memory() == stored(pre.memory(), 0, text)
            } else {
                r is Err
            }
        },
{
    let (key, key_len, value, value_len) = four_words(write_args)->Some_0;
    lemma_read_after_write(
        pre.current()@,
        decode_utf8(loaded(pre.memory(), key as int, key_len as int)),
        json_parsed(loaded(pre.memory(), value as int, value_len as int))->Some_0,
        decode_utf8(loaded(pre.memory(), key as int, key_len as int)),
    );
}

/// A failure is final: a host call that fails, or that is made after one
/// failed, leaves the invocation failed, and an invocation that has failed
/// has no result. A host call that is made after one failed changes
/// nothing, and gives the first failure back.
pub proof fn lemma_failure_is_final(
    pre: Runtime,
    call: HostCall,
    args: wasmi::RuntimeArgs,
    post: Runtime,
    r: Result<HostReturn, RuntimeError>,
    end: Result<RuntimeResult, RuntimeError>,
)
    requires
        dispatch_effect(pre, call, args, post, r),
        into_result_outcome(post, end),
        pre.failure() is Some || r is Err,
    ensures
        post.failure() is Some,
        end is Err,
        pre.failure() matches Some(first) ==> {
            &&& r matches Err(e)
            &&& e == first
            &&& post.failure() == Some(first)
            &&& all_kept(pre, post)
        },
{
}

/// The delta of a finished invocation leads from the state before it to the
/// state after it: it is the next delta of the initial state, all its steps
/// fit that state, and applied to it in order they give the updated state
/// back member by member.
pub proof fn lemma_result_replays(context: Runtime, outcome: RuntimeResult)
    requires
        context.coherent(),
        into_result_outcome(context, Ok(outcome)),
    ensures
        outcome.state_delta matches Some(delta) && outcome.updated_state matches Some(state) && {
            &&& delta_fits(
                context.initial().address(),
                context.initial().index(),
                context.initial()@,
                delta,
            )
            &&& same_members(apply_ops(context.initial()@, delta.operations())->Some_0, state@)
            &&& state.index() == delta.index
        },
{
    lemma_extension_keeps_order(context.initial()@, context.current()@);
    lemma_delta_round_trip_in_order(context.initial()@, context.current()@);
}

} // verus!
