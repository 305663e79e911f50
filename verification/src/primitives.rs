//! The calls this library makes into outside crates, each with the
//! contract that the library relies on. Nothing in this file is proved:
//! every item states what the outside crate's source shows, and the rest
//! of the library is verified against these statements.

use aead::Error as AeadError;
use aes_gcm_siv::aead::{Aead, KeyInit};
use aes_gcm_siv::Aes256GcmSiv;
use aes_siv::siv::Aes256Siv;
use hkdf::Hkdf;
use rand::RngCore;
use sha2::Sha256;
use zeroize::Zeroize;
use vstd::prelude::*;

verus! {

/// The value of one ASCII hexadecimal digit, either case.
pub open spec fn hex_digit_value(c: u8) -> u8 {
    if 48 <= c <= 57 {
        (c - 48) as u8
    } else if 97 <= c <= 102 {
        (c - 87) as u8
    } else if 65 <= c <= 70 {
        (c - 55) as u8
    } else {
        0
    }
}

/// `c` is an ASCII hexadecimal digit, either case.
pub open spec fn is_hex_digit(c: u8) -> bool {
    (48 <= c <= 57) || (97 <= c <= 102) || (65 <= c <= 70)
}

/// The bytes that a string of hexadecimal digits stands for: each pair of
/// digits, high nibble first, gives one byte.
pub open spec fn hex_decode_spec(digits: Seq<u8>) -> Seq<u8> {
    Seq::new(
        digits.len() / 2,
        |i: int| (hex_digit_value(digits[2 * i]) * 16 + hex_digit_value(digits[2 * i + 1])) as u8,
    )
}

/// The lowercase hexadecimal digit for a value below 16.
pub open spec fn lower_hex_char(v: u8) -> char {
    if v < 10 {
        (48 + v) as char
    } else {
        (87 + v) as char
    }
}

/// The lowercase hexadecimal encoding of a byte string, high nibble first.
pub open spec fn hex_encode_spec(bytes: Seq<u8>) -> Seq<char> {
    Seq::new(
        2 * bytes.len(),
        |i: int|
            if i % 2 == 0 {
                lower_hex_char(bytes[i / 2] / 16)
            } else {
                lower_hex_char(bytes[i / 2] % 16)
            },
    )
}

/// The error that `hex::decode` reports.
#[verifier::external_type_specification]
#[verifier::external_body]
pub struct ExFromHexError(hex::FromHexError);

/// Calls `hex::decode`. Its source accepts exactly the inputs of even
/// length made of ASCII hexadecimal digits (either case) and decodes each
/// pair of digits, high nibble first, into one byte.
#[verifier::external_body]
pub(crate) fn hex_decode(digits: &[u8]) -> (res: Result<Vec<u8>, hex::FromHexError>)
    ensures
        res is Ok <==> (digits@.len() % 2 == 0 && forall|i: int|
            0 <= i < digits@.len() ==> is_hex_digit(#[trigger] digits@[i])),
        res matches Ok(v) ==> v@ == hex_decode_spec(digits@),
{
    hex::decode(digits)
}

/// Calls `hex::encode`, which writes each byte as two lowercase
/// hexadecimal digits, high nibble first.
#[verifier::external_body]
pub(crate) fn hex_encode(bytes: &[u8]) -> (res: String)
    ensures
        res@ == hex_encode_spec(bytes@),
{
    hex::encode(bytes)
}

/// Fills `buf` from `rand::thread_rng()` through `RngCore::fill_bytes`.
/// Nothing is stated of the bytes that come out: they are random.
#[verifier::external_body]
pub(crate) fn fill_random<const N: usize>(buf: &mut [u8; N]) {
    rand::thread_rng().fill_bytes(buf)
}

/// The largest plaintext, in bytes, that AES-GCM-SIV accepts (RFC 8452,
/// section 6): 2^36.
pub open spec fn gcm_siv_max_plaintext() -> int {
    0x10_0000_0000
}

/// The output of AES-256-SIV (RFC 5297) under a 64-byte key, with the
/// given associated-data headers: the 16-byte synthetic IV followed by the
/// ciphertext.
pub uninterp spec fn aes_siv_seal(key: Seq<u8>, headers: Seq<Seq<u8>>, plaintext: Seq<u8>) -> Seq<u8>;

/// What AES-256-SIV decryption under a 64-byte key and the given headers
/// gives back: the plaintext, or nothing where authentication fails.
pub uninterp spec fn aes_siv_open(key: Seq<u8>, headers: Seq<Seq<u8>>, ciphertext: Seq<u8>) -> Option<Seq<u8>>;

/// The output of AES-256-GCM-SIV (RFC 8452) under a 32-byte key and a
/// 12-byte nonce, with empty associated data: ciphertext followed by the
/// 16-byte tag.
pub uninterp spec fn aes_gcm_siv_seal(key: Seq<u8>, nonce: Seq<u8>, plaintext: Seq<u8>) -> Seq<u8>;

/// What AES-256-GCM-SIV decryption under a 32-byte key and a 12-byte
/// nonce, with empty associated data, gives back: the plaintext, or nothing
/// where authentication fails.
pub uninterp spec fn aes_gcm_siv_open(key: Seq<u8>, nonce: Seq<u8>, ciphertext: Seq<u8>) -> Option<Seq<u8>>;

/// HKDF-Expand (RFC 5869) over HMAC-SHA-256 with the given pseudorandom
/// key and info, producing `len` bytes.
pub uninterp spec fn hkdf_sha256_expand(prk: Seq<u8>, info: Seq<u8>, len: nat) -> Seq<u8>;

/// The opaque error that the AEAD primitives report.
#[verifier::external_type_specification]
#[verifier::external_body]
pub struct ExAeadError(AeadError);

/// Calls `Aes256Siv::encrypt` (`aes-siv`) under `key` with `headers` as
/// associated data. Its source fails only when there are more than 126
/// headers; otherwise the output is the 16-byte SIV tag followed by the
/// ciphertext, which is as long as the plaintext.
#[verifier::external_body]
pub(crate) fn siv_encrypt(key: &[u8; 64], headers: &Vec<Vec<u8>>, plaintext: &[u8]) -> (res: Result<Vec<u8>, AeadError>)
    ensures
        res is Ok <==> headers@.len() <= 126,
        res matches Ok(c) ==> c@ == aes_siv_seal(key@, headers.deep_view(), plaintext@),
        res matches Ok(c) ==> c@.len() == plaintext@.len() + 16,
{
    Aes256Siv::new(key.into()).encrypt(headers, plaintext)
}

/// Calls `Aes256Siv::decrypt` (`aes-siv`) under `key` with `headers` as
/// associated data. The result is the one that `aes_siv_open` names; its
/// source fails on more than 126 headers and on inputs shorter than the
/// 16-byte tag, a plaintext it gives back is 16 bytes shorter than its
/// input, and, as AES-SIV decryption inverts AES-SIV encryption under
/// the same key and headers, it gives back the plaintext of any output of
/// `Aes256Siv::encrypt`.
#[verifier::external_body]
pub(crate) fn siv_decrypt(key: &[u8; 64], headers: &Vec<Vec<u8>>, ciphertext: &[u8]) -> (res: Result<Vec<u8>, AeadError>)
    ensures
        res is Ok <==> aes_siv_open(key@, headers.deep_view(), ciphertext@) is Some,
        res matches Ok(p) ==> aes_siv_open(key@, headers.deep_view(), ciphertext@) == Some(p@),
        res matches Ok(p) ==> p@.len() + 16 == ciphertext@.len(),
        headers@.len() > 126 || ciphertext@.len() < 16 ==> res is Err,
        forall|m: Seq<u8>|
            headers@.len() <= 126 && #[trigger] aes_siv_seal(key@, headers.deep_view(), m) == ciphertext@
                ==> res is Ok && res->Ok_0@ == m,
{
    Aes256Siv::new(key.into()).decrypt(headers, ciphertext)
}

/// Calls `Aead::encrypt` of `Aes256GcmSiv` (`aes-gcm-siv`) under `key` and
/// `nonce`, with empty associated data. Its source fails only on
/// plaintexts longer than 2^36 bytes; otherwise the output is the
/// ciphertext, as long as the plaintext, followed by the 16-byte tag.
#[verifier::external_body]
pub(crate) fn gcm_siv_encrypt(key: &[u8; 32], nonce: &[u8; 12], plaintext: &[u8]) -> (res: Result<Vec<u8>, AeadError>)
    ensures
        res is Ok <==> plaintext@.len() <= gcm_siv_max_plaintext(),
        res matches Ok(c) ==> c@ == aes_gcm_siv_seal(key@, nonce@, plaintext@),
        res matches Ok(c) ==> c@.len() == plaintext@.len() + 16,
{
    Aes256GcmSiv::new(key.into()).encrypt(nonce.into(), plaintext)
}

/// Calls `Aead::decrypt` of `Aes256GcmSiv` (`aes-gcm-siv`) under `key` and
/// `nonce`, with empty associated data. The result is the one that
/// `aes_gcm_siv_open` names; its source fails on inputs shorter than the
/// 16-byte tag, a plaintext it gives back is 16 bytes shorter than its
/// input, and, as AES-GCM-SIV decryption inverts AES-GCM-SIV
/// encryption under the same key and nonce, it gives back the plaintext of
/// any output of `Aead::encrypt`.
#[verifier::external_body]
pub(crate) fn gcm_siv_decrypt(key: &[u8; 32], nonce: &[u8; 12], ciphertext: &[u8]) -> (res: Result<Vec<u8>, AeadError>)
    ensures
        res is Ok <==> aes_gcm_siv_open(key@, nonce@, ciphertext@) is Some,
        res matches Ok(p) ==> aes_gcm_siv_open(key@, nonce@, ciphertext@) == Some(p@),
        res matches Ok(p) ==> p@.len() + 16 == ciphertext@.len(),
        ciphertext@.len() < 16 ==> res is Err,
        forall|m: Seq<u8>|
            m.len() <= gcm_siv_max_plaintext() && #[trigger] aes_gcm_siv_seal(key@, nonce@, m) == ciphertext@
                ==> res is Ok && res->Ok_0@ == m,
{
    Aes256GcmSiv::new(key.into()).decrypt(nonce.into(), ciphertext)
}

/// Calls `Hkdf::<Sha256>::from_prk` and then `Hkdf::expand` (`hkdf`),
/// returning 32 bytes of HKDF-Expand output. The source rejects a
/// pseudorandom key shorter than the 32-byte SHA-256 output, which
/// `requires` leaves out; 32 output bytes are within its length bound.
#[verifier::external_body]
pub(crate) fn hkdf_expand(prk: &[u8], info: &[u8]) -> (okm: [u8; 32])
    requires
        prk@.len() >= 32,
    ensures
        okm@ == hkdf_sha256_expand(prk@, info@, 32),
{
    let mut okm = [0u8; 32];
    let hk = Hkdf::<Sha256>::from_prk(prk).expect("prk holds at least 32 bytes");
    hk.expand(info, &mut okm).expect("32 bytes are within the HKDF-Expand bound");
    okm
}

/// Calls `Zeroize::zeroize` (`zeroize`) on a byte array, which overwrites
/// every byte with zero.
#[verifier::external_body]
pub(crate) fn wipe<const N: usize>(buf: &mut [u8; N])
    ensures
        forall|i: int| 0 <= i < N ==> #[trigger] final(buf)@[i] == 0u8,
{
    buf.zeroize()
}

} // verus!
