//! The 64-byte symmetric master key.

use crate::error::Error;
use crate::primitives::{
    fill_random, hex_decode, wipe, hex_decode_spec, hex_digit_value, hex_encode, hex_encode_spec,
    lower_hex_char,
};
use vstd::prelude::*;
use vstd::string::*;
use vstd::utf8::*;

verus! {

/// 64-byte symmetric master key.
///
/// The AES-SIV schemes use all 64 bytes directly; the AES-GCM-SIV schemes
/// derive their 32-byte key from it with HKDF-Expand. The canonical text
/// form of a key is 128 lowercase hexadecimal characters.
#[derive(Clone)]
pub struct Key {
    bytes: [u8; 64],
}

impl View for Key {
    type V = Seq<u8>;

    closed spec fn view(&self) -> Seq<u8> {
        self.bytes@
    }
}

/// A key always holds exactly 64 bytes.
pub broadcast proof fn lemma_key_len(k: Key)
    ensures
        #[trigger] k@.len() == 64,
{
}

/// `c` is a lowercase ASCII hexadecimal digit.
pub open spec fn is_lower_hex_digit(c: u8) -> bool {
    (48 <= c <= 57) || (97 <= c <= 102)
}

/// The key that a hex string stands for: exactly 128 lowercase hex digits,
/// decoded pairwise, high nibble first.
pub open spec fn key_from_hex_spec(digits: Seq<u8>) -> Option<Seq<u8>> {
    if digits.len() == 128 && forall|i: int|
        0 <= i < digits.len() ==> is_lower_hex_digit(#[trigger] digits[i]) {
        Some(hex_decode_spec(digits))
    } else {
        None
    }
}

/// Reading back the canonical text form of a key gives the same key: the
/// UTF-8 bytes of `hex_encode_spec(k)` are accepted by `key_from_hex_spec`
/// and decode to `k`.
pub proof fn lemma_hex_roundtrip(k: Seq<u8>)
    requires
        k.len() == 64,
    ensures
        key_from_hex_spec(encode_utf8(hex_encode_spec(k))) == Some(k),
{
    let c = hex_encode_spec(k);
    assert forall|i: int| 0 <= i < c.len() implies '\0' <= #[trigger] c[i] <= '\u{7f}' by {
        let v: u8 = if i % 2 == 0 { k[i / 2] / 16 } else { k[i / 2] % 16 };
        assert(v < 16);
    }
    assert(is_ascii_chars(c));
    is_ascii_chars_encode_utf8(c);
    let d = encode_utf8(c);
    assert(d.len() == 128);
    assert forall|i: int| 0 <= i < d.len() implies is_lower_hex_digit(#[trigger] d[i]) && (
        hex_digit_value(d[i]) == if i % 2 == 0 { k[i / 2] / 16 } else { k[i / 2] % 16 }) by {
        assert(d[i] == c[i] as u8);
        let v: u8 = if i % 2 == 0 { k[i / 2] / 16 } else { k[i / 2] % 16 };
        assert(v < 16);
        assert(c[i] == lower_hex_char(v));
    }
    assert forall|j: int| 0 <= j < 64 implies #[trigger] hex_decode_spec(d)[j] == k[j] by {
        assert(hex_digit_value(d[2 * j]) == k[j] / 16) by {
            assert((2 * j) % 2 == 0);
            assert((2 * j) / 2 == j);
        }
        assert(hex_digit_value(d[2 * j + 1]) == k[j] % 16) by {
            assert((2 * j + 1) % 2 == 1);
            assert((2 * j + 1) / 2 == j);
        }
    }
    assert(hex_decode_spec(d) =~= k);
}

/// Copies a 64-byte sequence into an array.
fn array_64_from(src: &[u8]) -> (res: [u8; 64])
    requires
        src@.len() == 64,
    ensures
        res@ == src@,
{
    let mut arr = [0u8; 64];
    let mut i: usize = 0;
    while i < 64
        invariant
            src@.len() == 64,
            i <= 64,
            arr@.len() == 64,
            forall|j: int| 0 <= j < i ==> arr@[j] == src@[j],
        decreases 64 - i,
    {
        arr[i] = src[i];
        i = i + 1;
    }
    assert(arr@ =~= src@);
    arr
}

/// Checks that every byte is a lowercase hexadecimal digit.
fn all_lower_hex(digits: &[u8]) -> (res: bool)
    ensures
        res == forall|i: int| 0 <= i < digits@.len() ==> is_lower_hex_digit(#[trigger] digits@[i]),
{
    let n = digits.len();
    let mut i: usize = 0;
    while i < n
        invariant
            n == digits@.len(),
            i <= n,
            forall|j: int| 0 <= j < i ==> is_lower_hex_digit(#[trigger] digits@[j]),
        decreases n - i,
    {
        let c = digits[i];
        if !((48 <= c && c <= 57) || (97 <= c && c <= 102)) {
            assert(!is_lower_hex_digit(digits@[i as int]));
            return false;
        }
        i = i + 1;
    }
    true
}

impl Key {
    /// Construct a key from 64 raw bytes.
    pub fn from_bytes(bytes: [u8; 64]) -> (res: Key)
        ensures
            res@ == bytes@,
    {
        Key { bytes }
    }

    /// Construct a key from a byte slice, which must hold exactly 64 bytes.
    pub fn from_slice(bytes: &[u8]) -> (res: Result<Key, Error>)
        ensures
            bytes@.len() == 64 <==> res is Ok,
            res matches Ok(k) ==> k@ == bytes@,
            res matches Err(e) ==> e == Error::InvalidKeyLength,
    {
        if bytes.len() != 64 {
            return Err(Error::InvalidKeyLength);
        }
        Ok(Key { bytes: array_64_from(bytes) })
    }

    /// Generate a fresh random key from the thread-local RNG.
    ///
    /// Panics if the OS RNG fails (extremely rare; it would also break the
    /// probabilistic schemes).
    pub fn random() -> (res: Key) {
        let mut bytes = [0u8; 64];
        fill_random(&mut bytes);
        Key { bytes }
    }

    /// Borrow the underlying 64 bytes.
    pub fn as_bytes(&self) -> (res: &[u8; 64])
        ensures
            res@ == self@,
    {
        &self.bytes
    }

    /// Construct a key from its canonical text form: exactly 128 lowercase
    /// hexadecimal characters, no prefix. Uppercase digits are rejected.
    pub fn from_hex(s: &str) -> (res: Result<Key, Error>)
        ensures
            res is Ok <==> key_from_hex_spec(s.spec_bytes()) is Some,
            res matches Ok(k) ==> key_from_hex_spec(s.spec_bytes()) == Some(k@),
            res matches Err(e) ==> e == Error::InvalidHex,
    {
        let digits = s.as_bytes();
        if digits.len() != 128 || !all_lower_hex(digits) {
            return Err(Error::InvalidHex);
        }
        match hex_decode(digits) {
            Ok(v) => {
                assert(v@.len() == 64);
                Ok(Key { bytes: array_64_from(v.as_slice()) })
            },
            Err(_) => {
                assert(false);
                Err(Error::InvalidHex)
            },
        }
    }

    /// Overwrite the key material with zeros.
    pub fn zeroize(&mut self)
        ensures
            final(self)@ == Seq::new(64, |i: int| 0u8),
    {
        wipe(&mut self.bytes);
        assert(self.bytes@ =~= Seq::new(64, |i: int| 0u8));
    }

    /// The canonical text form: 128 lowercase hexadecimal characters.
    pub fn to_hex(&self) -> (res: String)
        ensures
            res@ == hex_encode_spec(self@),
            res@.len() == 128,
    {
        hex_encode(self.bytes.as_slice())
    }
}

} // verus!
