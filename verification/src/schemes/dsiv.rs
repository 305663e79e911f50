//! `dsiv`: deterministic AES-SIV over the full 64-byte master key, with no
//! associated data. Output: the 16-byte SIV tag followed by the
//! ciphertext.

use crate::error::Error;
use crate::format::{
    append_result, appended_result, appends_to, bytes_result, decrypt_spec, decrypted_length, encrypt_allows,
    inverts_encryption, is_output_of, opened_result, sealed, sealed_result,
};
use crate::key::Key;
use crate::primitives::{siv_decrypt, siv_encrypt};
use crate::scheme::Scheme;
use vstd::prelude::*;

verus! {

broadcast use crate::key::lemma_key_len;

/// Encrypt `plaintext`, returning `tag || ciphertext`.
pub fn encrypt(plaintext: &[u8], key: &Key) -> (res: Result<Vec<u8>, Error>)
    ensures
        encrypt_allows(Scheme::Dsiv, key@, plaintext@, bytes_result(res)),
{
    if plaintext.len() == 0 {
        return Err(Error::EmptyPlaintext);
    }
    let headers: Vec<Vec<u8>> = Vec::new();
    assert(headers.deep_view() =~= Seq::<Seq<u8>>::empty());
    let r = siv_encrypt(key.as_bytes(), &headers, plaintext);
    assert(r is Ok ==> r->Ok_0@ == sealed(Scheme::Dsiv, key@, Seq::empty(), plaintext@));
    sealed_result(r)
}

/// Encrypt `plaintext` and append `tag || ciphertext` to `out`.
pub fn encrypt_into(plaintext: &[u8], key: &Key, out: &mut Vec<u8>) -> (res: Result<(), Error>)
    ensures
        appends_to(old(out)@, final(out)@, res),
        encrypt_allows(Scheme::Dsiv, key@, plaintext@, appended_result(old(out)@, final(out)@, res)),
{
    append_result(encrypt(plaintext, key), out)
}

/// Decrypt `ciphertext` (= `tag || ciphertext`), returning the plaintext.
pub fn decrypt(ciphertext: &[u8], key: &Key) -> (res: Result<Vec<u8>, Error>)
    ensures
        bytes_result(res) == decrypt_spec(Scheme::Dsiv, key@, ciphertext@),
        inverts_encryption(Scheme::Dsiv, key@, ciphertext@, bytes_result(res)),
        decrypted_length(Scheme::Dsiv, ciphertext@, bytes_result(res)),
{
    if ciphertext.len() < 17 {
        return Err(Error::PayloadTooShort);
    }
    let headers: Vec<Vec<u8>> = Vec::new();
    assert(headers.deep_view() =~= Seq::<Seq<u8>>::empty());
    let r = siv_decrypt(key.as_bytes(), &headers, ciphertext);
    assert forall|pt: Seq<u8>|
        #[trigger] is_output_of(Scheme::Dsiv, key@, pt, ciphertext@) implies r is Ok && r->Ok_0@ == pt by {
        let n = choose|n: Seq<u8>|
            n.len() == 0 && ciphertext@ == #[trigger] sealed(Scheme::Dsiv, key@, n, pt);
    }
    opened_result(r)
}

/// Decrypt `ciphertext` and append the plaintext to `out`.
pub fn decrypt_into(ciphertext: &[u8], key: &Key, out: &mut Vec<u8>) -> (res: Result<(), Error>)
    ensures
        appends_to(old(out)@, final(out)@, res),
        appended_result(old(out)@, final(out)@, res) == decrypt_spec(Scheme::Dsiv, key@, ciphertext@),
        inverts_encryption(Scheme::Dsiv, key@, ciphertext@, appended_result(old(out)@, final(out)@, res)),
        decrypted_length(Scheme::Dsiv, ciphertext@, appended_result(old(out)@, final(out)@, res)),
{
    append_result(decrypt(ciphertext, key), out)
}

} // verus!
