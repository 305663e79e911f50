//! `psiv`: probabilistic AES-SIV over the full 64-byte master key. A fresh
//! 16-byte nonce is drawn per call, passed as the single associated-data
//! header and prepended. Output: `nonce(16) || tag(16) || ciphertext`.

use crate::error::Error;
use crate::format::{
    append_result, appended_result, appends_to, bytes_result, decrypt_spec, encrypt_with_nonce_spec, decrypted_length, encrypt_allows,
    inverts_encryption, is_output_of, opened_result, prefixed, sealed, sealed_result,
};
use crate::key::Key;
use crate::primitives::{fill_random, siv_decrypt, siv_encrypt};
use crate::scheme::Scheme;
use vstd::prelude::*;
use vstd::slice::{slice_subrange, slice_to_vec};

verus! {

broadcast use crate::key::lemma_key_len;

/// The header list holding just `nonce`.
fn nonce_headers(nonce: &[u8]) -> (res: Vec<Vec<u8>>)
    ensures
        res@.len() == 1,
        res.deep_view() == seq![nonce@],
{
    let mut headers: Vec<Vec<u8>> = Vec::new();
    headers.push(slice_to_vec(nonce));
    assert(headers.deep_view()[0] =~= nonce@);
    assert(headers.deep_view() =~= seq![nonce@]);
    headers
}

/// Encrypt `plaintext` under the given 16-byte `nonce`, returning
/// `nonce || tag || ciphertext`.
pub fn encrypt_with_nonce(plaintext: &[u8], key: &Key, nonce: &[u8; 16]) -> (res: Result<Vec<u8>, Error>)
    ensures
        bytes_result(res) == encrypt_with_nonce_spec(Scheme::Psiv, key@, nonce@, plaintext@),
        encrypt_allows(Scheme::Psiv, key@, plaintext@, bytes_result(res)),
{
    if plaintext.len() == 0 {
        return Err(Error::EmptyPlaintext);
    }
    let headers = nonce_headers(nonce.as_slice());
    match sealed_result(siv_encrypt(key.as_bytes(), &headers, plaintext)) {
        Ok(ct) => {
            let out = prefixed(nonce.as_slice(), ct);
            assert(out@ == sealed(Scheme::Psiv, key@, nonce@, plaintext@));
            Ok(out)
        },
        Err(e) => Err(e),
    }
}

/// Encrypt `plaintext` under a fresh random nonce, returning
/// `nonce || tag || ciphertext`.
pub fn encrypt(plaintext: &[u8], key: &Key) -> (res: Result<Vec<u8>, Error>)
    ensures
        encrypt_allows(Scheme::Psiv, key@, plaintext@, bytes_result(res)),
{
    if plaintext.len() == 0 {
        return Err(Error::EmptyPlaintext);
    }
    let mut nonce = [0u8; 16];
    fill_random(&mut nonce);
    encrypt_with_nonce(plaintext, key, &nonce)
}

/// Encrypt `plaintext` and append `nonce || tag || ciphertext` to `out`.
pub fn encrypt_into(plaintext: &[u8], key: &Key, out: &mut Vec<u8>) -> (res: Result<(), Error>)
    ensures
        appends_to(old(out)@, final(out)@, res),
        encrypt_allows(Scheme::Psiv, key@, plaintext@, appended_result(old(out)@, final(out)@, res)),
{
    append_result(encrypt(plaintext, key), out)
}

/// Decrypt `ciphertext` (= `nonce(16) || tag || ciphertext`), returning the
/// plaintext.
pub fn decrypt(ciphertext: &[u8], key: &Key) -> (res: Result<Vec<u8>, Error>)
    ensures
        bytes_result(res) == decrypt_spec(Scheme::Psiv, key@, ciphertext@),
        inverts_encryption(Scheme::Psiv, key@, ciphertext@, bytes_result(res)),
        decrypted_length(Scheme::Psiv, ciphertext@, bytes_result(res)),
{
    if ciphertext.len() < 33 {
        return Err(Error::PayloadTooShort);
    }
    let nonce = slice_subrange(ciphertext, 0, 16);
    let body = slice_subrange(ciphertext, 16, ciphertext.len());
    assert(nonce@ =~= ciphertext@.take(16));
    assert(body@ =~= ciphertext@.skip(16));
    let headers = nonce_headers(nonce);
    let r = siv_decrypt(key.as_bytes(), &headers, body);
    assert forall|pt: Seq<u8>|
        #[trigger] is_output_of(Scheme::Psiv, key@, pt, ciphertext@) implies r is Ok && r->Ok_0@
        == pt by {
        let n = choose|n: Seq<u8>|
            n.len() == 16 && ciphertext@ == #[trigger] sealed(Scheme::Psiv, key@, n, pt);
        assert(ciphertext@.take(16) =~= n);
        assert(ciphertext@.skip(16) =~= crate::primitives::aes_siv_seal(key@, seq![n], pt));
    }
    opened_result(r)
}

/// Decrypt `ciphertext` and append the plaintext to `out`.
pub fn decrypt_into(ciphertext: &[u8], key: &Key, out: &mut Vec<u8>) -> (res: Result<(), Error>)
    ensures
        appends_to(old(out)@, final(out)@, res),
        appended_result(old(out)@, final(out)@, res) == decrypt_spec(Scheme::Psiv, key@, ciphertext@),
        inverts_encryption(Scheme::Psiv, key@, ciphertext@, appended_result(old(out)@, final(out)@, res)),
        decrypted_length(Scheme::Psiv, ciphertext@, appended_result(old(out)@, final(out)@, res)),
{
    append_result(decrypt(ciphertext, key), out)
}

} // verus!
