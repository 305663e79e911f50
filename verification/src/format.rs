//! What each scheme's output is, stated over the named results of the
//! AEAD primitives, and what decryption gives back.

use aead::Error as AeadError;
use crate::error::Error;
use crate::primitives::{
    aes_gcm_siv_open, aes_gcm_siv_seal, aes_siv_open, aes_siv_seal, gcm_siv_max_plaintext,
    hkdf_sha256_expand,
};
use crate::scheme::{is_deterministic_scheme, Scheme};
use vstd::prelude::*;

verus! {

/// The HKDF info string shared by both AES-GCM-SIV schemes: ASCII `gcmsiv`.
pub open spec fn gcmsiv_info() -> Seq<u8> {
    seq![103u8, 99u8, 109u8, 115u8, 105u8, 118u8]
}

/// The 32-byte AES-256-GCM-SIV key derived from a master key:
/// `HKDF-Expand(PRK = master, info = "gcmsiv", L = 32)` over HMAC-SHA-256.
pub open spec fn gcm_siv_key(master: Seq<u8>) -> Seq<u8> {
    hkdf_sha256_expand(master, gcmsiv_info(), 32)
}

/// The fixed all-zero 12-byte nonce of the deterministic GCM-SIV scheme.
pub open spec fn zero_nonce() -> Seq<u8> {
    Seq::new(12, |i: int| 0u8)
}

/// Bytes that a scheme adds to the plaintext: nonce plus tag.
pub open spec fn overhead(s: Scheme) -> nat {
    match s {
        Scheme::Dgcmsiv => 16,
        Scheme::Pgcmsiv => 28,
        Scheme::Dsiv => 16,
        Scheme::Psiv => 32,
        Scheme::Mock1 => 0,
        Scheme::Mock2 => 0,
    }
}

/// The shortest output a scheme can produce (a one-byte plaintext);
/// shorter inputs to decryption are rejected before any AEAD work.
pub open spec fn min_output_len(s: Scheme) -> nat {
    overhead(s) + 1
}

/// Whether encryption of `pt` under `s` succeeds: the plaintext must be
/// non-empty, and AES-GCM-SIV caps its length at 2^36 bytes.
pub open spec fn encryption_succeeds(s: Scheme, pt: Seq<u8>) -> bool {
    &&& pt.len() > 0
    &&& (s is Dgcmsiv || s is Pgcmsiv) ==> pt.len() <= gcm_siv_max_plaintext()
}

/// The output of encrypting `pt` under a deterministic scheme, or, for a
/// probabilistic scheme, the output for the given nonce.
pub open spec fn sealed(s: Scheme, key: Seq<u8>, nonce: Seq<u8>, pt: Seq<u8>) -> Seq<u8> {
    match s {
        Scheme::Dsiv => aes_siv_seal(key, seq![], pt),
        Scheme::Psiv => nonce + aes_siv_seal(key, seq![nonce], pt),
        Scheme::Dgcmsiv => aes_gcm_siv_seal(gcm_siv_key(key), zero_nonce(), pt),
        Scheme::Pgcmsiv => nonce + aes_gcm_siv_seal(gcm_siv_key(key), nonce, pt),
        Scheme::Mock1 => pt,
        Scheme::Mock2 => pt.reverse(),
    }
}

/// The length of the nonce that a scheme draws per call (zero for the
/// deterministic schemes).
pub open spec fn nonce_len(s: Scheme) -> nat {
    match s {
        Scheme::Psiv => 16,
        Scheme::Pgcmsiv => 12,
        _ => 0,
    }
}

/// `out` is a possible output of encrypting `pt` under scheme `s` with the
/// master key `key`: the sealed form for some nonce of the scheme's nonce
/// length (so exactly one output for a deterministic scheme), which is
/// `overhead(s)` bytes longer than the plaintext.
pub open spec fn is_output_of(s: Scheme, key: Seq<u8>, pt: Seq<u8>, out: Seq<u8>) -> bool {
    &&& exists|n: Seq<u8>| n.len() == nonce_len(s) && out == #[trigger] sealed(s, key, n, pt)
    &&& out.len() == pt.len() + overhead(s)
}

/// What encryption may return: `EmptyPlaintext` for an empty plaintext,
/// `EncryptionFailed` where the primitive refuses the input, and otherwise
/// an output of the scheme.
pub open spec fn encrypt_allows(s: Scheme, key: Seq<u8>, pt: Seq<u8>, r: Result<Seq<u8>, Error>) -> bool {
    if pt.len() == 0 {
        r == Err::<Seq<u8>, Error>(Error::EmptyPlaintext)
    } else if !encryption_succeeds(s, pt) {
        r == Err::<Seq<u8>, Error>(Error::EncryptionFailed)
    } else {
        r is Ok && is_output_of(s, key, pt, r->Ok_0)
    }
}

/// A deterministic scheme has exactly one output for a given key and
/// plaintext: two encryptions of the same plaintext under the same key give
/// the same bytes.
pub proof fn lemma_deterministic_output_unique(s: Scheme, key: Seq<u8>, pt: Seq<u8>, o1: Seq<u8>, o2: Seq<u8>)
    requires
        is_deterministic_scheme(s),
        is_output_of(s, key, pt, o1),
        is_output_of(s, key, pt, o2),
    ensures
        o1 == o2,
{
    let n1 = choose|n: Seq<u8>| n.len() == nonce_len(s) && o1 == #[trigger] sealed(s, key, n, pt);
    let n2 = choose|n: Seq<u8>| n.len() == nonce_len(s) && o2 == #[trigger] sealed(s, key, n, pt);
    assert(n1 =~= n2);
}

/// Every output of a successful encryption is at least as long as the
/// scheme's minimum layout, so decryption never rejects it as too short;
/// a probabilistic output starts with the nonce it was sealed under.
pub proof fn lemma_output_layout(s: Scheme, key: Seq<u8>, pt: Seq<u8>, out: Seq<u8>)
    requires
        encryption_succeeds(s, pt),
        is_output_of(s, key, pt, out),
    ensures
        out.len() >= min_output_len(s),
        out.len() > 0,
        !is_deterministic_scheme(s) ==> exists|n: Seq<u8>|
            n.len() == nonce_len(s) && out.take(nonce_len(s) as int) == n && out == #[trigger] sealed(s, key, n, pt),
{
    if !is_deterministic_scheme(s) {
        let n = choose|n: Seq<u8>| n.len() == nonce_len(s) && out == #[trigger] sealed(s, key, n, pt);
        assert(out.take(nonce_len(s) as int) =~= n);
    }
}

/// What encryption returns once the nonce is fixed: the sealed form under
/// that nonce, or the error for an empty or refused plaintext.
pub open spec fn encrypt_with_nonce_spec(s: Scheme, key: Seq<u8>, nonce: Seq<u8>, pt: Seq<u8>) -> Result<Seq<u8>, Error> {
    if pt.len() == 0 {
        Err(Error::EmptyPlaintext)
    } else if !encryption_succeeds(s, pt) {
        Err(Error::EncryptionFailed)
    } else {
        Ok(sealed(s, key, nonce, pt))
    }
}

/// Maps the outcome of an AEAD decryption to the library's result.
pub open spec fn opened(r: Option<Seq<u8>>) -> Result<Seq<u8>, Error> {
    match r {
        Some(p) => Ok(p),
        None => Err(Error::DecryptionFailed),
    }
}

/// What decrypting `out` under scheme `s` with master key `key` returns.
pub open spec fn decrypt_spec(s: Scheme, key: Seq<u8>, out: Seq<u8>) -> Result<Seq<u8>, Error> {
    if (s is Mock1 || s is Mock2) && out.len() == 0 {
        Err(Error::EmptyPayload)
    } else if out.len() < min_output_len(s) {
        Err(Error::PayloadTooShort)
    } else {
        match s {
            Scheme::Dsiv => opened(aes_siv_open(key, seq![], out)),
            Scheme::Psiv => opened(
                aes_siv_open(key, seq![out.take(16)], out.skip(16)),
            ),
            Scheme::Dgcmsiv => opened(aes_gcm_siv_open(gcm_siv_key(key), zero_nonce(), out)),
            Scheme::Pgcmsiv => opened(
                aes_gcm_siv_open(gcm_siv_key(key), out.take(12), out.skip(12)),
            ),
            Scheme::Mock1 => Ok(out),
            Scheme::Mock2 => Ok(out.reverse()),
        }
    }
}

/// Decryption gives back the plaintext of every output that encryption of
/// that plaintext could have produced under the same scheme and key.
pub open spec fn inverts_encryption(s: Scheme, key: Seq<u8>, out: Seq<u8>, r: Result<Seq<u8>, Error>) -> bool {
    forall|pt: Seq<u8>|
        #[trigger] is_output_of(s, key, pt, out) && encryption_succeeds(s, pt) ==> r == Ok::<Seq<u8>, Error>(pt)
}

/// A plaintext that decryption gives back is `overhead(s)` bytes shorter
/// than the scheme output it came from.
pub open spec fn decrypted_length(s: Scheme, out: Seq<u8>, r: Result<Seq<u8>, Error>) -> bool {
    r is Ok ==> r->Ok_0.len() + overhead(s) == out.len()
}

/// The byte contents of a result.
pub open spec fn bytes_result(r: Result<Vec<u8>, Error>) -> Result<Seq<u8>, Error> {
    match r {
        Ok(v) => Ok(v@),
        Err(e) => Err(e),
    }
}

/// `after` is `before` with bytes appended, and unchanged on failure.
pub open spec fn appends_to(before: Seq<u8>, after: Seq<u8>, r: Result<(), Error>) -> bool {
    &&& before.len() <= after.len()
    &&& after.take(before.len() as int) == before
    &&& r is Err ==> after == before
}

/// The result of an appending operation seen as the bytes it appended.
pub open spec fn appended_result(before: Seq<u8>, after: Seq<u8>, r: Result<(), Error>) -> Result<Seq<u8>, Error> {
    match r {
        Ok(_) => Ok(after.skip(before.len() as int)),
        Err(e) => Err(e),
    }
}

/// The library's result for the outcome of an AEAD encryption: the sealed
/// bytes, or `EncryptionFailed` where the primitive refused the input.
pub fn sealed_result(r: Result<Vec<u8>, AeadError>) -> (res: Result<Vec<u8>, Error>)
    ensures
        bytes_result(res) == (match r {
            Ok(c) => Ok(c@),
            Err(_) => Err(Error::EncryptionFailed),
        }),
{
    match r {
        Ok(c) => Ok(c),
        Err(_) => Err(Error::EncryptionFailed),
    }
}

/// The library's result for the outcome of an AEAD decryption: the
/// plaintext, or `DecryptionFailed` where authentication failed.
pub fn opened_result(r: Result<Vec<u8>, AeadError>) -> (res: Result<Vec<u8>, Error>)
    ensures
        bytes_result(res) == (match r {
            Ok(p) => Ok(p@),
            Err(_) => Err(Error::DecryptionFailed),
        }),
{
    match r {
        Ok(p) => Ok(p),
        Err(_) => Err(Error::DecryptionFailed),
    }
}

/// The output layout of the probabilistic schemes: `nonce || sealed`.
pub fn prefixed(nonce: &[u8], sealed: Vec<u8>) -> (res: Vec<u8>)
    ensures
        res@ == nonce@ + sealed@,
{
    let mut out = vstd::slice::slice_to_vec(nonce);
    push_all(&mut out, sealed.as_slice());
    out
}

/// Appends every byte of `v` to `out`.
pub(crate) fn push_all(out: &mut Vec<u8>, v: &[u8])
    ensures
        final(out)@ == old(out)@ + v@,
        final(out)@.take(old(out)@.len() as int) == old(out)@,
        final(out)@.skip(old(out)@.len() as int) == v@,
{
    let n = v.len();
    let mut i: usize = 0;
    while i < n
        invariant
            n == v@.len(),
            i <= n,
            out@ == old(out)@ + v@.take(i as int),
        decreases n - i,
    {
        out.push(v[i]);
        i = i + 1;
        assert(out@ =~= old(out)@ + v@.take(i as int));
    }
    assert(v@.take(n as int) =~= v@);
    assert(out@.take(old(out)@.len() as int) =~= old(out)@);
    assert(out@.skip(old(out)@.len() as int) =~= v@);
}

/// Appends the bytes of a successful result to `out`; on error `out` is
/// left as it was.
pub(crate) fn append_result(r: Result<Vec<u8>, Error>, out: &mut Vec<u8>) -> (res: Result<(), Error>)
    ensures
        appends_to(old(out)@, final(out)@, res),
        appended_result(old(out)@, final(out)@, res) == bytes_result(r),
{
    let (res, bytes) = match r {
        Ok(v) => (Ok(()), v),
        Err(e) => (Err(e), Vec::new()),
    };
    push_all(out, bytes.as_slice());
    res
}

} // verus!
