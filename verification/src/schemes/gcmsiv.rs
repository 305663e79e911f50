//! The AES-256-GCM-SIV key shared by `dgcmsiv` and `pgcmsiv`.

use crate::format::{gcm_siv_key, gcmsiv_info};
use crate::key::Key;
use crate::primitives::hkdf_expand;
use vstd::prelude::*;

verus! {

broadcast use crate::key::lemma_key_len;

/// HKDF-Expand the 64-byte master into the 32-byte AES-256-GCM-SIV key:
/// `HKDF-Expand(PRK = master, info = "gcmsiv", L = 32)` over HMAC-SHA-256.
/// Extract is skipped: the master is already a uniform pseudorandom key.
pub(crate) fn derive_key(key: &Key) -> (res: [u8; 32])
    ensures
        res@ == gcm_siv_key(key@),
{
    let info: [u8; 6] = [103u8, 99u8, 109u8, 115u8, 105u8, 118u8];
    assert(info@ =~= gcmsiv_info());
    hkdf_expand(key.as_bytes().as_slice(), info.as_slice())
}

/// Copies the first 12 bytes of `bytes` into a nonce array.
pub(crate) fn nonce_12(bytes: &[u8]) -> (res: [u8; 12])
    requires
        bytes@.len() >= 12,
    ensures
        res@ == bytes@.take(12),
{
    let mut arr = [0u8; 12];
    let mut i: usize = 0;
    while i < 12
        invariant
            bytes@.len() >= 12,
            i <= 12,
            arr@.len() == 12,
            forall|j: int| 0 <= j < i ==> arr@[j] == bytes@[j],
        decreases 12 - i,
    {
        arr[i] = bytes[i];
        i = i + 1;
    }
    assert(arr@ =~= bytes@.take(12));
    arr
}

} // verus!
