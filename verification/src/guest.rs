//! What a host call gets from the sandbox: the guest's linear memory and the
//! arguments of the call, both as `wasmi` hands them over, and the decoding of
//! guest bytes as text.

use vstd::prelude::*;
use vstd::string::*;
use vstd::utf8::*;

verus! {

/// `wasmi::MemoryRef`, the handle to the guest's linear memory. What is
/// known of it is `memory_bytes`.
#[verifier::external_type_specification]
#[verifier::external_body]
pub struct ExMemoryRef(wasmi::MemoryRef);

/// `wasmi::Error`, the failure of a memory access.
#[verifier::external_type_specification]
#[verifier::external_body]
pub struct ExMemoryError(wasmi::Error);

/// `wasmi::RuntimeArgs`, the arguments of a host call. What is known of
/// them is `arg_words`.
#[verifier::external_type_specification]
#[verifier::external_body]
pub struct ExRuntimeArgs<'a>(wasmi::RuntimeArgs<'a>);

/// `wasmi::Trap`, the failure to take an argument.
#[verifier::external_type_specification]
#[verifier::external_body]
pub struct ExTrap(wasmi::Trap);

/// `core::str::Utf8Error`, the failure to read bytes as text.
#[verifier::external_type_specification]
#[verifier::external_body]
pub struct ExUtf8Error(core::str::Utf8Error);

/// The bytes of the linear memory behind a handle, from address 0 to its
/// current size; a byte that was never written is 0. The sandbox owns the
/// memory and runs the guest only between host calls, so within one host
/// call the bytes change through that call alone.
pub uninterp spec fn memory_bytes(memory: wasmi::MemoryRef) -> Seq<u8>;

/// The arguments of a host call by position: `Some` of the 32 bits of an
/// argument that is a 32-bit integer, `None` for an argument of another type.
pub uninterp spec fn arg_words(args: wasmi::RuntimeArgs) -> Seq<Option<u32>>;

/// Whether the `len` bytes from `offset` on lie within `mem`.
pub open spec fn in_bounds(mem: Seq<u8>, offset: int, len: int) -> bool {
    0 <= offset && 0 <= len && offset + len <= mem.len()
}

/// The `len` bytes of `mem` from `offset` on.
pub open spec fn loaded(mem: Seq<u8>, offset: int, len: int) -> Seq<u8> {
    mem.subrange(offset, offset + len)
}

/// `mem` with `data` in place of the bytes from `offset` on.
pub open spec fn stored(mem: Seq<u8>, offset: int, data: Seq<u8>) -> Seq<u8> {
    mem.subrange(0, offset) + data + mem.subrange(offset + data.len(), mem.len() as int)
}

/// The argument at position `i` as a 32-bit word, if there is one.
pub open spec fn word(args: wasmi::RuntimeArgs, i: int) -> Option<u32> {
    if 0 <= i < arg_words(args).len() {
        arg_words(args)[i]
    } else {
        None
    }
}

/// The first two arguments as 32-bit words, if both are there.
pub open spec fn two_words(args: wasmi::RuntimeArgs) -> Option<(u32, u32)> {
    match (word(args, 0), word(args, 1)) {
        (Some(a), Some(b)) => Some((a, b)),
        _ => None,
    }
}

/// The first four arguments as 32-bit words, if all are there.
pub open spec fn four_words(args: wasmi::RuntimeArgs) -> Option<(u32, u32, u32, u32)> {
    match (two_words(args), word(args, 2), word(args, 3)) {
        (Some((a, b)), Some(c), Some(d)) => Some((a, b, c, d)),
        _ => None,
    }
}

/// Calls `MemoryInstance::get`. Trusted: it gives a copy of the `size` bytes
/// from `offset` on where they lie within the memory, and an error where
/// they do not.
#[verifier::external_body]
pub(crate) fn memory_get(memory: &wasmi::MemoryRef, offset: u32, size: usize) -> (r: Result<
    Vec<u8>,
    wasmi::Error,
>)
    ensures
        r is Ok <==> in_bounds(memory_bytes(*memory), offset as int, size as int),
        r is Ok ==> r->Ok_0@ == loaded(memory_bytes(*memory), offset as int, size as int),
{
    memory.get(offset, size)
}

/// Calls `MemoryInstance::set`. Trusted: it copies `value` into the memory
/// from `offset` on where that range lies within the memory; where it does
/// not, it gives an error and leaves the memory as it was. It does not
/// panic, as nothing else holds the memory while a host call runs. The
/// handle is taken `&mut` because the bytes behind it change.
#[verifier::external_body]
pub(crate) fn memory_set(memory: &mut wasmi::MemoryRef, offset: u32, value: &[u8]) -> (r: Result<
    (),
    wasmi::Error,
>)
    ensures
        r is Ok <==> in_bounds(memory_bytes(*old(memory)), offset as int, value@.len() as int),
        r is Ok ==> memory_bytes(*final(memory)) == stored(
            memory_bytes(*old(memory)),
            offset as int,
            value@,
        ),
        r is Err ==> memory_bytes(*final(memory)) == memory_bytes(*old(memory)),
    no_unwind
{
    memory.set(offset, value)
}

/// Calls `RuntimeArgs::nth_checked` for a `u32`. Trusted: it gives the
/// argument at `idx` where there is one and it is a 32-bit integer, and an
/// error otherwise.
#[verifier::external_body]
pub(crate) fn arg_u32(args: &wasmi::RuntimeArgs, idx: usize) -> (r: Result<u32, wasmi::Trap>)
    ensures
        r is Ok <==> (idx < arg_words(*args).len() && arg_words(*args)[idx as int] is Some),
        r is Ok ==> Some(r->Ok_0) == arg_words(*args)[idx as int],
{
    args.nth_checked(idx)
}

/// The first two arguments of a host call, each an address or a length.
pub fn first_two(args: &wasmi::RuntimeArgs) -> (r: Option<(u32, u32)>)
    ensures
        r == two_words(*args),
{
    match (arg_u32(args, 0), arg_u32(args, 1)) {
        (Ok(a), Ok(b)) => Some((a, b)),
        _ => None,
    }
}

/// The first four arguments of a host call, each an address or a length.
pub fn first_four(args: &wasmi::RuntimeArgs) -> (r: Option<(u32, u32, u32, u32)>)
    ensures
        r == four_words(*args),
{
    match (first_two(args), arg_u32(args, 2), arg_u32(args, 3)) {
        (Some((a, b)), Ok(c), Ok(d)) => Some((a, b, c, d)),
        _ => None,
    }
}

/// Calls `core::str::from_utf8`. Trusted: it accepts exactly the byte strings
/// that are UTF-8, and the string it gives has those bytes.
#[verifier::external_body]
pub(crate) fn str_from_utf8(bytes: &[u8]) -> (r: Result<&str, core::str::Utf8Error>)
    ensures
        r is Ok <==> valid_utf8(bytes@),
        r is Ok ==> r->Ok_0.spec_bytes() == bytes@,
{
    core::str::from_utf8(bytes)
}

/// The text that `bytes` hold, where they are UTF-8.
pub fn decode_text(bytes: &[u8]) -> (r: Option<String>)
    ensures
        r is Some <==> valid_utf8(bytes@),
        r matches Some(text) ==> text@ == decode_utf8(bytes@),
{
    match str_from_utf8(bytes) {
        Ok(text) => {
            proof {
                encode_utf8_decode_utf8(text@);
            }
            Some(text.to_owned())
        },
        Err(_) => None,
    }
}

} // verus!
