//! Operations that take the scheme by name and the key as raw bytes or as
//! hex text, the way foreign-language bindings receive them, and the
//! status codes that a C ABI reports for their outcomes.

use crate::error::Error;
use crate::format::{bytes_result, decrypt_spec, decrypted_length, encrypt_allows, inverts_encryption};
use crate::key::{key_from_hex_spec, Key};
use crate::primitives::hex_encode_spec;
use crate::scheme::{parse_scheme_spec, Scheme};
use vstd::prelude::*;
use vstd::string::*;

verus! {

broadcast use crate::key::lemma_key_len;

/// Success.
pub const OBCRYPT_OK: i32 = 0;
/// A required pointer argument was null (with a nonzero length).
pub const OBCRYPT_ERR_NULL_ARG: i32 = -1;
/// The scheme name was not valid UTF-8.
pub const OBCRYPT_ERR_UTF8: i32 = -2;
/// The scheme name is not a scheme this build supports.
pub const OBCRYPT_ERR_BAD_SCHEME: i32 = -3;
/// A panic was caught at the ABI boundary.
pub const OBCRYPT_ERR_PANIC: i32 = -4;
/// The library rejected the operation.
pub const OBCRYPT_ERR_OBCRYPT: i32 = 1;
/// Generation of the C ABI; bumps only on an incompatible change to it.
pub const OBCRYPT_ABI_VERSION: u32 = 1;

/// The status code reported for an error of a by-name operation: an
/// unknown scheme name has its own code, every other error is a library
/// error.
pub fn status_code(e: Error) -> (res: i32)
    ensures
        res == (if e == Error::UnknownScheme { OBCRYPT_ERR_BAD_SCHEME } else { OBCRYPT_ERR_OBCRYPT }),
{
    match e {
        Error::UnknownScheme => OBCRYPT_ERR_BAD_SCHEME,
        _ => OBCRYPT_ERR_OBCRYPT,
    }
}

/// What encryption by name may return, given the scheme name's bytes and
/// the key as it was parsed (`None` where parsing failed with `key_error`).
pub open spec fn named_encrypt_allows(
    name: Seq<u8>,
    key: Option<Seq<u8>>,
    key_error: Error,
    pt: Seq<u8>,
    r: Result<Seq<u8>, Error>,
) -> bool {
    match parse_scheme_spec(name) {
        None => r == Err::<Seq<u8>, Error>(Error::UnknownScheme),
        Some(s) => match key {
            None => r == Err::<Seq<u8>, Error>(key_error),
            Some(k) => encrypt_allows(s, k, pt, r),
        },
    }
}

/// What decryption by name returns, given the scheme name's bytes and the
/// key as it was parsed (`None` where parsing failed with `key_error`).
pub open spec fn named_decrypt_spec(name: Seq<u8>, key: Option<Seq<u8>>, key_error: Error, out: Seq<u8>) -> Result<Seq<u8>, Error> {
    match parse_scheme_spec(name) {
        None => Err(Error::UnknownScheme),
        Some(s) => match key {
            None => Err(key_error),
            Some(k) => decrypt_spec(s, k, out),
        },
    }
}

/// Decryption by name gives back every plaintext whose encryption under
/// the named scheme and the parsed key could have produced `out`.
pub open spec fn named_inverts_encryption(name: Seq<u8>, key: Option<Seq<u8>>, out: Seq<u8>, r: Result<Seq<u8>, Error>) -> bool {
    match (parse_scheme_spec(name), key) {
        (Some(s), Some(k)) => inverts_encryption(s, k, out, r),
        _ => true,
    }
}

/// A plaintext that decryption by name gives back is the named scheme's
/// overhead shorter than the payload.
pub open spec fn named_decrypted_length(name: Seq<u8>, out: Seq<u8>, r: Result<Seq<u8>, Error>) -> bool {
    match parse_scheme_spec(name) {
        Some(s) => decrypted_length(s, out, r),
        None => r is Err,
    }
}

/// The key that a raw byte slice stands for: exactly 64 bytes.
pub open spec fn raw_key_spec(bytes: Seq<u8>) -> Option<Seq<u8>> {
    if bytes.len() == 64 {
        Some(bytes)
    } else {
        None
    }
}

/// A hex key and the raw bytes it decodes to select the same behaviour:
/// decrypting by name gives the same result through either key form, and
/// the same outputs are allowed for encryption.
pub proof fn lemma_hex_and_raw_keys_agree(name: Seq<u8>, hex: Seq<u8>, raw: Seq<u8>, pt: Seq<u8>, out: Seq<u8>, r: Result<Seq<u8>, Error>)
    requires
        key_from_hex_spec(hex) == Some(raw),
    ensures
        named_decrypt_spec(name, key_from_hex_spec(hex), Error::InvalidHex, out)
            == named_decrypt_spec(name, raw_key_spec(raw), Error::InvalidKeyLength, out),
        named_encrypt_allows(name, key_from_hex_spec(hex), Error::InvalidHex, pt, r)
            == named_encrypt_allows(name, raw_key_spec(raw), Error::InvalidKeyLength, pt, r),
{
    assert(raw.len() == 64);
}

/// Encrypt under the scheme named `scheme` (case-insensitive) with a raw
/// 64-byte `key`. The scheme is parsed before the key.
pub fn encrypt_with_key_bytes(plaintext: &[u8], scheme: &str, key: &[u8]) -> (res: Result<Vec<u8>, Error>)
    ensures
        named_encrypt_allows(scheme.spec_bytes(), raw_key_spec(key@), Error::InvalidKeyLength, plaintext@, bytes_result(res)),
{
    let s = Scheme::parse(scheme)?;
    let k = Key::from_slice(key)?;
    crate::encrypt(plaintext, s, &k)
}

/// Decrypt under the scheme named `scheme` (case-insensitive) with a raw
/// 64-byte `key`. The scheme is parsed before the key.
pub fn decrypt_with_key_bytes(payload: &[u8], scheme: &str, key: &[u8]) -> (res: Result<Vec<u8>, Error>)
    ensures
        bytes_result(res) == named_decrypt_spec(scheme.spec_bytes(), raw_key_spec(key@), Error::InvalidKeyLength, payload@),
        named_inverts_encryption(scheme.spec_bytes(), raw_key_spec(key@), payload@, bytes_result(res)),
        named_decrypted_length(scheme.spec_bytes(), payload@, bytes_result(res)),
{
    let s = Scheme::parse(scheme)?;
    let k = Key::from_slice(key)?;
    crate::decrypt(payload, s, &k)
}

/// Encrypt under the scheme named `scheme` (case-insensitive) with the key
/// in its canonical text form, 128 lowercase hex characters. The scheme is
/// parsed before the key.
pub fn encrypt_with_key_hex(plaintext: &[u8], scheme: &str, key_hex: &str) -> (res: Result<Vec<u8>, Error>)
    ensures
        named_encrypt_allows(scheme.spec_bytes(), key_from_hex_spec(key_hex.spec_bytes()), Error::InvalidHex, plaintext@, bytes_result(res)),
{
    let s = Scheme::parse(scheme)?;
    let k = Key::from_hex(key_hex)?;
    crate::encrypt(plaintext, s, &k)
}

/// Decrypt under the scheme named `scheme` (case-insensitive) with the key
/// in its canonical text form, 128 lowercase hex characters. The scheme is
/// parsed before the key.
pub fn decrypt_with_key_hex(payload: &[u8], scheme: &str, key_hex: &str) -> (res: Result<Vec<u8>, Error>)
    ensures
        bytes_result(res) == named_decrypt_spec(scheme.spec_bytes(), key_from_hex_spec(key_hex.spec_bytes()), Error::InvalidHex, payload@),
        named_inverts_encryption(scheme.spec_bytes(), key_from_hex_spec(key_hex.spec_bytes()), payload@, bytes_result(res)),
        named_decrypted_length(scheme.spec_bytes(), payload@, bytes_result(res)),
{
    let s = Scheme::parse(scheme)?;
    let k = Key::from_hex(key_hex)?;
    crate::decrypt(payload, s, &k)
}

/// A fresh random key in its canonical text form: 128 lowercase hex
/// characters.
pub fn generate_key_hex() -> (res: String)
    ensures
        res@.len() == 128,
        exists|k: Seq<u8>| k.len() == 64 && res@ == hex_encode_spec(k),
{
    let key = crate::keygen::generate_key();
    let res = key.to_hex();
    assert(key@.len() == 64 && res@ == hex_encode_spec(key@));
    res
}

/// A fresh random key as its 64 raw bytes.
pub fn generate_key_bytes() -> (res: Vec<u8>)
    ensures
        res@.len() == 64,
{
    let k = crate::keygen::generate_key();
    vstd::slice::slice_to_vec(k.as_bytes().as_slice())
}

} // verus!
