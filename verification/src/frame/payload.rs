//! Payload bytes inside the fixed data array of a wire struct.

use crate::sys::zeros;
use vstd::prelude::*;

verus! {

/// A payload followed by as many zero bytes as fill `len` bytes.
pub open spec fn zero_padded(payload: Seq<u8>, len: nat) -> Seq<u8>
    recommends
        payload.len() <= len,
{
    payload + zeros((len - payload.len()) as nat)
}

/// The first `n` bytes of a zero padded payload are the payload where `n`
/// is its length, and the payload followed by zeros where `n` is larger.
pub proof fn lemma_zero_padded_prefix(payload: Seq<u8>, len: nat, n: nat)
    requires
        payload.len() <= n <= len,
    ensures
        zero_padded(payload, len).len() == len,
        zero_padded(payload, len).subrange(0, n as int) == zero_padded(payload, n),
        zero_padded(payload, payload.len()) == payload,
{
    assert(zero_padded(payload, len).subrange(0, n as int) =~= zero_padded(payload, n));
    assert(zero_padded(payload, payload.len()) =~= payload);
}

/// A data array of eight bytes that starts with `payload` and is zero
/// behind it.
pub fn padded_8(payload: &[u8]) -> (data: [u8; 8])
    requires
        payload@.len() <= 8,
    ensures
        data@ == zero_padded(payload@, 8),
{
    let mut data = [0u8; 8];
    let n = payload.len();
    let mut i: usize = 0;
    while i < n
        invariant
            i <= n,
            n == payload@.len(),
            n <= 8,
            forall|j: int| 0 <= j < i ==> data@[j] == payload@[j],
            forall|j: int| i <= j < 8 ==> data@[j] == 0,
        decreases n - i,
    {
        data[i] = payload[i];
        i += 1;
    }
    assert(data@ =~= zero_padded(payload@, 8));
    data
}

/// A data array of 64 bytes that starts with `payload` and is zero behind
/// it.
pub fn padded_64(payload: &[u8]) -> (data: [u8; 64])
    requires
        payload@.len() <= 64,
    ensures
        data@ == zero_padded(payload@, 64),
{
    let mut data = [0u8; 64];
    let n = payload.len();
    let mut i: usize = 0;
    while i < n
        invariant
            i <= n,
            n == payload@.len(),
            n <= 64,
            forall|j: int| 0 <= j < i ==> data@[j] == payload@[j],
            forall|j: int| i <= j < 64 ==> data@[j] == 0,
        decreases n - i,
    {
        data[i] = payload[i];
        i += 1;
    }
    assert(data@ =~= zero_padded(payload@, 64));
    data
}

} // verus!
