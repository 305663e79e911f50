//! `pgcmsiv`: probabilistic AES-256-GCM-SIV under the HKDF-derived key
//! (shared with `dgcmsiv`), with empty associated data. A fresh 12-byte
//! nonce is drawn per call and prepended. Output:
//! `nonce(12) || ciphertext || tag(16)`.

use super::gcmsiv::{derive_key, nonce_12};
use crate::error::Error;
use crate::format::{
    append_result, appended_result, appends_to, bytes_result, decrypt_spec, encrypt_with_nonce_spec, decrypted_length, encrypt_allows,
    gcm_siv_key, inverts_encryption, is_output_of, opened_result, prefixed, sealed, sealed_result,
};
use crate::key::Key;
use crate::primitives::{aes_gcm_siv_seal, fill_random, gcm_siv_decrypt, gcm_siv_encrypt, wipe};
use crate::scheme::Scheme;
use vstd::prelude::*;
use vstd::slice::slice_subrange;

verus! {

broadcast use crate::key::lemma_key_len;

/// Encrypt `plaintext` under the given 12-byte `nonce`, returning
/// `nonce || ciphertext || tag`.
pub fn encrypt_with_nonce(plaintext: &[u8], key: &Key, nonce: &[u8; 12]) -> (res: Result<Vec<u8>, Error>)
    ensures
        bytes_result(res) == encrypt_with_nonce_spec(Scheme::Pgcmsiv, key@, nonce@, plaintext@),
        encrypt_allows(Scheme::Pgcmsiv, key@, plaintext@, bytes_result(res)),
{
    if plaintext.len() == 0 {
        return Err(Error::EmptyPlaintext);
    }
    let mut subkey = derive_key(key);
    let r = gcm_siv_encrypt(&subkey, nonce, plaintext);
    wipe(&mut subkey);
    match sealed_result(r) {
        Ok(ct) => {
            let out = prefixed(nonce.as_slice(), ct);
            assert(out@ == sealed(Scheme::Pgcmsiv, key@, nonce@, plaintext@));
            Ok(out)
        },
        Err(e) => Err(e),
    }
}

/// Encrypt `plaintext` under a fresh random nonce, returning
/// `nonce || ciphertext || tag`.
pub fn encrypt(plaintext: &[u8], key: &Key) -> (res: Result<Vec<u8>, Error>)
    ensures
        encrypt_allows(Scheme::Pgcmsiv, key@, plaintext@, bytes_result(res)),
{
    if plaintext.len() == 0 {
        return Err(Error::EmptyPlaintext);
    }
    let mut nonce = [0u8; 12];
    fill_random(&mut nonce);
    encrypt_with_nonce(plaintext, key, &nonce)
}

/// Encrypt `plaintext` and append `nonce || ciphertext || tag` to `out`.
pub fn encrypt_into(plaintext: &[u8], key: &Key, out: &mut Vec<u8>) -> (res: Result<(), Error>)
    ensures
        appends_to(old(out)@, final(out)@, res),
        encrypt_allows(Scheme::Pgcmsiv, key@, plaintext@, appended_result(old(out)@, final(out)@, res)),
{
    append_result(encrypt(plaintext, key), out)
}

/// Decrypt `ciphertext` (= `nonce(12) || ciphertext || tag`), returning the
/// plaintext.
pub fn decrypt(ciphertext: &[u8], key: &Key) -> (res: Result<Vec<u8>, Error>)
    ensures
        bytes_result(res) == decrypt_spec(Scheme::Pgcmsiv, key@, ciphertext@),
        inverts_encryption(Scheme::Pgcmsiv, key@, ciphertext@, bytes_result(res)),
        decrypted_length(Scheme::Pgcmsiv, ciphertext@, bytes_result(res)),
{
    if ciphertext.len() < 29 {
        return Err(Error::PayloadTooShort);
    }
    let nonce = nonce_12(ciphertext);
    let body = slice_subrange(ciphertext, 12, ciphertext.len());
    assert(body@ =~= ciphertext@.skip(12));
    let mut subkey = derive_key(key);
    let r = gcm_siv_decrypt(&subkey, &nonce, body);
    wipe(&mut subkey);
    assert forall|pt: Seq<u8>|
        #[trigger] is_output_of(Scheme::Pgcmsiv, key@, pt, ciphertext@) && pt.len()
            <= 0x10_0000_0000 implies r is Ok && r->Ok_0@ == pt by {
        let n = choose|n: Seq<u8>|
            n.len() == 12 && ciphertext@ == #[trigger] sealed(Scheme::Pgcmsiv, key@, n, pt);
        assert(ciphertext@.take(12) =~= n);
        assert(ciphertext@.skip(12) =~= aes_gcm_siv_seal(gcm_siv_key(key@), n, pt));
    }
    opened_result(r)
}

/// Decrypt `ciphertext` and append the plaintext to `out`.
pub fn decrypt_into(ciphertext: &[u8], key: &Key, out: &mut Vec<u8>) -> (res: Result<(), Error>)
    ensures
        appends_to(old(out)@, final(out)@, res),
        appended_result(old(out)@, final(out)@, res) == decrypt_spec(Scheme::Pgcmsiv, key@, ciphertext@),
        inverts_encryption(Scheme::Pgcmsiv, key@, ciphertext@, appended_result(old(out)@, final(out)@, res)),
        decrypted_length(Scheme::Pgcmsiv, ciphertext@, appended_result(old(out)@, final(out)@, res)),
{
    append_result(decrypt(ciphertext, key), out)
}

} // verus!
