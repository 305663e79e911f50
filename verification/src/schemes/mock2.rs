//! `mock2`: byte reversal. Testing only; performs no encryption.

use crate::error::Error;
use crate::format::{
    append_result, appended_result, appends_to, bytes_result, decrypt_spec, decrypted_length, encrypt_allows,
    inverts_encryption, is_output_of, sealed,
};
use crate::key::Key;
use crate::scheme::Scheme;
use vstd::prelude::*;

verus! {

/// The bytes of `s` in reverse order.
fn reversed(s: &[u8]) -> (res: Vec<u8>)
    ensures
        res@ == s@.reverse(),
{
    let n = s.len();
    let mut out: Vec<u8> = Vec::new();
    let mut i: usize = 0;
    while i < n
        invariant
            n == s@.len(),
            i <= n,
            out@.len() == i,
            forall|j: int| 0 <= j < i ==> out@[j] == s@[n - 1 - j],
        decreases n - i,
    {
        out.push(s[n - 1 - i]);
        i = i + 1;
    }
    assert(out@ =~= s@.reverse());
    out
}

/// Reversing twice gives back the original bytes.
proof fn lemma_reverse_involutive(s: Seq<u8>)
    ensures
        s.reverse().reverse() == s,
{
    assert(s.reverse().reverse() =~= s);
}

/// Return `plaintext` reversed in a fresh vector.
pub fn encrypt(plaintext: &[u8], key: &Key) -> (res: Result<Vec<u8>, Error>)
    ensures
        encrypt_allows(Scheme::Mock2, key@, plaintext@, bytes_result(res)),
{
    if plaintext.len() == 0 {
        return Err(Error::EmptyPlaintext);
    }
    let out = reversed(plaintext);
    assert(out@ == sealed(Scheme::Mock2, key@, Seq::empty(), plaintext@));
    Ok(out)
}

/// Append `plaintext` reversed to `out`.
pub fn encrypt_into(plaintext: &[u8], key: &Key, out: &mut Vec<u8>) -> (res: Result<(), Error>)
    ensures
        appends_to(old(out)@, final(out)@, res),
        encrypt_allows(Scheme::Mock2, key@, plaintext@, appended_result(old(out)@, final(out)@, res)),
{
    append_result(encrypt(plaintext, key), out)
}

/// Return `ciphertext` reversed in a fresh vector, which recovers the
/// plaintext.
pub fn decrypt(ciphertext: &[u8], key: &Key) -> (res: Result<Vec<u8>, Error>)
    ensures
        bytes_result(res) == decrypt_spec(Scheme::Mock2, key@, ciphertext@),
        inverts_encryption(Scheme::Mock2, key@, ciphertext@, bytes_result(res)),
        decrypted_length(Scheme::Mock2, ciphertext@, bytes_result(res)),
{
    if ciphertext.len() == 0 {
        return Err(Error::EmptyPayload);
    }
    let out = reversed(ciphertext);
    assert forall|pt: Seq<u8>| #[trigger] is_output_of(Scheme::Mock2, key@, pt, ciphertext@) implies out@ == pt by {
        let n = choose|n: Seq<u8>|
            n.len() == 0 && ciphertext@ == #[trigger] sealed(Scheme::Mock2, key@, n, pt);
        lemma_reverse_involutive(pt);
    }
    Ok(out)
}

/// Append `ciphertext` reversed to `out`.
pub fn decrypt_into(ciphertext: &[u8], key: &Key, out: &mut Vec<u8>) -> (res: Result<(), Error>)
    ensures
        appends_to(old(out)@, final(out)@, res),
        appended_result(old(out)@, final(out)@, res) == decrypt_spec(Scheme::Mock2, key@, ciphertext@),
        inverts_encryption(Scheme::Mock2, key@, ciphertext@, appended_result(old(out)@, final(out)@, res)),
        decrypted_length(Scheme::Mock2, ciphertext@, appended_result(old(out)@, final(out)@, res)),
{
    append_result(decrypt(ciphertext, key), out)
}

} // verus!
