//! `mock1`: identity. Testing only; performs no encryption.

use crate::error::Error;
use crate::format::{
    append_result, appended_result, appends_to, bytes_result, decrypt_spec, decrypted_length, encrypt_allows,
    inverts_encryption, sealed,
};
use crate::key::Key;
use crate::scheme::Scheme;
use vstd::prelude::*;
use vstd::slice::slice_to_vec;

verus! {

/// Return `plaintext` unchanged in a fresh vector.
pub fn encrypt(plaintext: &[u8], key: &Key) -> (res: Result<Vec<u8>, Error>)
    ensures
        encrypt_allows(Scheme::Mock1, key@, plaintext@, bytes_result(res)),
{
    if plaintext.len() == 0 {
        return Err(Error::EmptyPlaintext);
    }
    let out = slice_to_vec(plaintext);
    assert(out@ == sealed(Scheme::Mock1, key@, Seq::empty(), plaintext@));
    Ok(out)
}

/// Append `plaintext` unchanged to `out`.
pub fn encrypt_into(plaintext: &[u8], key: &Key, out: &mut Vec<u8>) -> (res: Result<(), Error>)
    ensures
        appends_to(old(out)@, final(out)@, res),
        encrypt_allows(Scheme::Mock1, key@, plaintext@, appended_result(old(out)@, final(out)@, res)),
{
    append_result(encrypt(plaintext, key), out)
}

/// Return `ciphertext` unchanged in a fresh vector.
pub fn decrypt(ciphertext: &[u8], key: &Key) -> (res: Result<Vec<u8>, Error>)
    ensures
        bytes_result(res) == decrypt_spec(Scheme::Mock1, key@, ciphertext@),
        inverts_encryption(Scheme::Mock1, key@, ciphertext@, bytes_result(res)),
        decrypted_length(Scheme::Mock1, ciphertext@, bytes_result(res)),
{
    if ciphertext.len() == 0 {
        return Err(Error::EmptyPayload);
    }
    Ok(slice_to_vec(ciphertext))
}

/// Append `ciphertext` unchanged to `out`.
pub fn decrypt_into(ciphertext: &[u8], key: &Key, out: &mut Vec<u8>) -> (res: Result<(), Error>)
    ensures
        appends_to(old(out)@, final(out)@, res),
        appended_result(old(out)@, final(out)@, res) == decrypt_spec(Scheme::Mock1, key@, ciphertext@),
        inverts_encryption(Scheme::Mock1, key@, ciphertext@, appended_result(old(out)@, final(out)@, res)),
        decrypted_length(Scheme::Mock1, ciphertext@, appended_result(old(out)@, final(out)@, res)),
{
    append_result(decrypt(ciphertext, key), out)
}

} // verus!
