//! Bytes-in / bytes-out authenticated encryption core.
//!
//! A 64-byte master [`Key`] and a [`Scheme`] select one of four AEAD
//! constructions (AES-SIV or AES-GCM-SIV, deterministic or
//! probabilistic), plus two testing-only schemes that perform no
//! encryption. The output carries no scheme marker: the caller supplies
//! the scheme to both [`encrypt`] and [`decrypt`], and decrypting under
//! the wrong scheme fails the authentication check.
//!
//! Each operation has an owned form, which returns a fresh `Vec<u8>`, and
//! an `_into` form, which appends to a caller's buffer and leaves it as it
//! was on error.

pub mod by_name;
pub mod error;
pub mod format;
pub mod key;
pub mod keygen;
pub mod laws;
pub mod primitives;
pub mod scheme;
pub mod schemes;

pub use error::Error;
pub use key::Key;
pub use keygen::generate_key;
pub use scheme::Scheme;

use format::{
    appended_result, appends_to, bytes_result, decrypt_spec, decrypted_length, encrypt_allows, inverts_encryption,
};
use vstd::prelude::*;

verus! {

/// Encrypt `plaintext` under `scheme`, returning the scheme output bytes.
///
/// Fails with `EmptyPlaintext` on an empty plaintext and with
/// `EncryptionFailed` where the AEAD primitive refuses the input.
pub fn encrypt(plaintext: &[u8], scheme: Scheme, key: &Key) -> (res: Result<Vec<u8>, Error>)
    ensures
        encrypt_allows(scheme, key@, plaintext@, bytes_result(res)),
{
    let mut out: Vec<u8> = Vec::new();
    let r = encrypt_into(plaintext, scheme, key, &mut out);
    assert(out@.skip(0) =~= out@);
    match r {
        Ok(()) => Ok(out),
        Err(e) => Err(e),
    }
}

/// Encrypt `plaintext` under `scheme`, appending the output to `out`.
/// `out` is appended to, not cleared, and is unchanged on error.
pub fn encrypt_into(plaintext: &[u8], scheme: Scheme, key: &Key, out: &mut Vec<u8>) -> (res: Result<(), Error>)
    ensures
        appends_to(old(out)@, final(out)@, res),
        encrypt_allows(scheme, key@, plaintext@, appended_result(old(out)@, final(out)@, res)),
{
    match scheme {
        Scheme::Dgcmsiv => schemes::dgcmsiv::encrypt_into(plaintext, key, out),
        Scheme::Pgcmsiv => schemes::pgcmsiv::encrypt_into(plaintext, key, out),
        Scheme::Dsiv => schemes::dsiv::encrypt_into(plaintext, key, out),
        Scheme::Psiv => schemes::psiv::encrypt_into(plaintext, key, out),
        Scheme::Mock1 => schemes::mock1::encrypt_into(plaintext, key, out),
        Scheme::Mock2 => schemes::mock2::encrypt_into(plaintext, key, out),
    }
}

/// Decrypt `scheme_output` under `scheme`, returning the plaintext.
///
/// Fails with `PayloadTooShort` on an input shorter than the scheme's
/// minimum layout and with `DecryptionFailed` where the tag check fails.
/// Every output that encryption of a plaintext under the same scheme and
/// key could have produced decrypts back to that plaintext.
pub fn decrypt(scheme_output: &[u8], scheme: Scheme, key: &Key) -> (res: Result<Vec<u8>, Error>)
    ensures
        bytes_result(res) == decrypt_spec(scheme, key@, scheme_output@),
        inverts_encryption(scheme, key@, scheme_output@, bytes_result(res)),
        decrypted_length(scheme, scheme_output@, bytes_result(res)),
{
    let mut out: Vec<u8> = Vec::new();
    let r = decrypt_into(scheme_output, scheme, key, &mut out);
    assert(out@.skip(0) =~= out@);
    match r {
        Ok(()) => Ok(out),
        Err(e) => Err(e),
    }
}

/// Decrypt `scheme_output` under `scheme`, appending the plaintext to
/// `out`. `out` is appended to, not cleared, and is unchanged on error.
pub fn decrypt_into(scheme_output: &[u8], scheme: Scheme, key: &Key, out: &mut Vec<u8>) -> (res: Result<(), Error>)
    ensures
        appends_to(old(out)@, final(out)@, res),
        appended_result(old(out)@, final(out)@, res) == decrypt_spec(scheme, key@, scheme_output@),
        inverts_encryption(scheme, key@, scheme_output@, appended_result(old(out)@, final(out)@, res)),
        decrypted_length(scheme, scheme_output@, appended_result(old(out)@, final(out)@, res)),
{
    match scheme {
        Scheme::Dgcmsiv => schemes::dgcmsiv::decrypt_into(scheme_output, key, out),
        Scheme::Pgcmsiv => schemes::pgcmsiv::decrypt_into(scheme_output, key, out),
        Scheme::Dsiv => schemes::dsiv::decrypt_into(scheme_output, key, out),
        Scheme::Psiv => schemes::psiv::decrypt_into(scheme_output, key, out),
        Scheme::Mock1 => schemes::mock1::decrypt_into(scheme_output, key, out),
        Scheme::Mock2 => schemes::mock2::decrypt_into(scheme_output, key, out),
    }
}

} // verus!
