//! `dgcmsiv`: deterministic AES-256-GCM-SIV under the HKDF-derived key,
//! with the fixed all-zero 12-byte nonce and empty associated data.
//! Output: ciphertext followed by the 16-byte tag.

use super::gcmsiv::derive_key;
use crate::error::Error;
use crate::format::{
    append_result, appended_result, appends_to, bytes_result, decrypt_spec, decrypted_length, encrypt_allows,
    inverts_encryption, is_output_of, opened_result, sealed, sealed_result, zero_nonce,
};
use crate::key::Key;
use crate::primitives::{gcm_siv_decrypt, gcm_siv_encrypt, wipe};
use crate::scheme::Scheme;
use vstd::prelude::*;

verus! {

broadcast use crate::key::lemma_key_len;

/// Encrypt `plaintext`, returning `ciphertext || tag`.
pub fn encrypt(plaintext: &[u8], key: &Key) -> (res: Result<Vec<u8>, Error>)
    ensures
        encrypt_allows(Scheme::Dgcmsiv, key@, plaintext@, bytes_result(res)),
{
    if plaintext.len() == 0 {
        return Err(Error::EmptyPlaintext);
    }
    let mut subkey = derive_key(key);
    let nonce = [0u8; 12];
    assert(nonce@ =~= zero_nonce());
    let r = gcm_siv_encrypt(&subkey, &nonce, plaintext);
    wipe(&mut subkey);
    assert(r is Ok ==> r->Ok_0@ == sealed(Scheme::Dgcmsiv, key@, Seq::empty(), plaintext@));
    sealed_result(r)
}

/// Encrypt `plaintext` and append `ciphertext || tag` to `out`.
pub fn encrypt_into(plaintext: &[u8], key: &Key, out: &mut Vec<u8>) -> (res: Result<(), Error>)
    ensures
        appends_to(old(out)@, final(out)@, res),
        encrypt_allows(Scheme::Dgcmsiv, key@, plaintext@, appended_result(old(out)@, final(out)@, res)),
{
    append_result(encrypt(plaintext, key), out)
}

/// Decrypt `ciphertext` (= `ciphertext || tag`), returning the plaintext.
pub fn decrypt(ciphertext: &[u8], key: &Key) -> (res: Result<Vec<u8>, Error>)
    ensures
        bytes_result(res) == decrypt_spec(Scheme::Dgcmsiv, key@, ciphertext@),
        inverts_encryption(Scheme::Dgcmsiv, key@, ciphertext@, bytes_result(res)),
        decrypted_length(Scheme::Dgcmsiv, ciphertext@, bytes_result(res)),
{
    if ciphertext.len() < 17 {
        return Err(Error::PayloadTooShort);
    }
    let mut subkey = derive_key(key);
    let nonce = [0u8; 12];
    assert(nonce@ =~= zero_nonce());
    let r = gcm_siv_decrypt(&subkey, &nonce, ciphertext);
    wipe(&mut subkey);
    assert forall|pt: Seq<u8>|
        #[trigger] is_output_of(Scheme::Dgcmsiv, key@, pt, ciphertext@) && pt.len() <= 0x10_0000_0000
            implies r is Ok && r->Ok_0@ == pt by {
        let n = choose|n: Seq<u8>|
            n.len() == 0 && ciphertext@ == #[trigger] sealed(Scheme::Dgcmsiv, key@, n, pt);
    }
    opened_result(r)
}

/// Decrypt `ciphertext` and append the plaintext to `out`.
pub fn decrypt_into(ciphertext: &[u8], key: &Key, out: &mut Vec<u8>) -> (res: Result<(), Error>)
    ensures
        appends_to(old(out)@, final(out)@, res),
        appended_result(old(out)@, final(out)@, res) == decrypt_spec(Scheme::Dgcmsiv, key@, ciphertext@),
        inverts_encryption(Scheme::Dgcmsiv, key@, ciphertext@, appended_result(old(out)@, final(out)@, res)),
        decrypted_length(Scheme::Dgcmsiv, ciphertext@, appended_result(old(out)@, final(out)@, res)),
{
    append_result(decrypt(ciphertext, key), out)
}

} // verus!
