//! What the host does with the answers of the enclave's key-exchange calls:
//! telling a call that went through from one that failed, and cutting a reply
//! into contract addresses.

use vstd::prelude::*;

verus! {

/// The address of a contract.
pub type ContractAddress = [u8; 32];

/// The key under which a contract's state is encrypted.
pub type StateKey = [u8; 32];

/// A public key of a user.
pub type PubKey = [u8; 64];

/// The status word of a call into the enclave that went through.
pub const SGX_SUCCESS: u32 = 0;

/// The return code with which the enclave reports success.
pub const ENCLAVE_SUCCESS: u32 = 0;

/// A call into the enclave that failed: the return code of the enclave and
/// the status word of the call.
#[derive(Debug, Clone, Copy, PartialEq, Eq, Structural)]
pub struct EnclaveFailError {
    pub err: u32,
    pub status: u32,
}

/// Whether a call into the enclave succeeded: both the return code of the
/// enclave and the status word of the call have to say so. A failure keeps
/// both.
pub fn check_enclave_call(ret: u32, status: u32) -> (r: Result<(), EnclaveFailError>)
    ensures
        (ret == ENCLAVE_SUCCESS && status == SGX_SUCCESS) ==> r is Ok,
        !(ret == ENCLAVE_SUCCESS && status == SGX_SUCCESS) ==> r == Err::<(), EnclaveFailError>(
            EnclaveFailError { err: ret, status },
        ),
{
    if ret != ENCLAVE_SUCCESS || status != SGX_SUCCESS {
        Err(EnclaveFailError { err: ret, status })
    } else {
        Ok(())
    }
}

/// The number of bytes that `count` addresses take, or `None` where that
/// number is more than a `usize` can tell.
pub fn addresses_byte_len(count: usize) -> (r: Option<usize>)
    ensures
        count * 32 <= usize::MAX ==> r == Some((count * 32) as usize),
        count * 32 > usize::MAX ==> r is None,
{
    if count > usize::MAX / 32 {
        None
    } else {
        Some(count * 32)
    }
}

/// The addresses that `bytes` hold one after the other, or `None` where the
/// bytes are no whole number of addresses.
pub fn split_addresses(bytes: &[u8]) -> (r: Option<Vec<ContractAddress>>)
    ensures
        r is Some <==> bytes@.len() % 32 == 0,
        r matches Some(addresses) ==> {
            &&& addresses@.len() * 32 == bytes@.len()
            &&& forall|i: int|
                0 <= i < addresses@.len() ==> (#[trigger] addresses@[i])@ == bytes@.subrange(
                    32 * i,
                    32 * i + 32,
                )
        },
{
    if bytes.len() % 32 != 0 {
        return None;
    }
    let count = bytes.len() / 32;
    let mut addresses: Vec<ContractAddress> = Vec::new();
    let mut i: usize = 0;
    while i < count
        invariant
            i <= count,
            count * 32 == bytes@.len(),
            bytes@.len() <= usize::MAX,
            addresses@.len() == i,
            forall|j: int|
                0 <= j < i ==> (#[trigger] addresses@[j])@ == bytes@.subrange(32 * j, 32 * j + 32),
        decreases count - i,
    {
        let mut address: ContractAddress = [0u8; 32];
        let mut k: usize = 0;
        while k < 32
            invariant
                k <= 32,
                i < count,
                count * 32 == bytes@.len(),
                bytes@.len() <= usize::MAX,
                forall|j: int| 0 <= j < k ==> address@[j] == bytes@[32 * i + j],
            decreases 32 - k,
        {
            address[k] = bytes[32 * i + k];
            k += 1;
        }
        addresses.push(address);
        i += 1;
    }
    Some(addresses)
}

} // verus!
