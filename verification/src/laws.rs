//! Laws that tie what the schemes do to the AEAD and HKDF primitives
//! themselves: which primitive, which key, which nonce and which
//! associated data each scheme uses, for encryption and for decryption.
//!
//! Each statement is written over the primitives' named results and
//! literal constants (the HKDF info is ASCII `gcmsiv`, the deterministic
//! GCM-SIV nonce is twelve zero bytes), so it pins down the scheme
//! definitions in `format` rather than repeating them.

use crate::error::Error;
use crate::format::{decrypt_spec, encrypt_with_nonce_spec, is_output_of, sealed};
use crate::primitives::{
    aes_gcm_siv_open, aes_gcm_siv_seal, aes_siv_open, aes_siv_seal, hkdf_sha256_expand,
};
use crate::scheme::Scheme;
use vstd::prelude::*;

verus! {

/// Every output of encryption is made by the scheme's AEAD primitive under
/// the scheme's key, nonce and associated data:
/// - `dsiv`: AES-SIV under the master key with no headers;
/// - `psiv`: the 16-byte nonce, then AES-SIV under the master key with the
///   nonce as the one and only header;
/// - `dgcmsiv`: AES-GCM-SIV under `HKDF-Expand(master, "gcmsiv", 32)` with
///   twelve zero bytes as nonce;
/// - `pgcmsiv`: the 12-byte nonce, then AES-GCM-SIV under the same
///   HKDF-derived key with that nonce;
/// - `mock1` returns the plaintext, `mock2` its bytes in reverse order.
pub proof fn lemma_output_is_primitive_output(s: Scheme, key: Seq<u8>, pt: Seq<u8>, out: Seq<u8>)
    requires
        is_output_of(s, key, pt, out),
    ensures
        s is Dsiv ==> out == aes_siv_seal(key, Seq::<Seq<u8>>::empty(), pt),
        s is Psiv ==> out.len() >= 16 && out.skip(16) == aes_siv_seal(key, seq![out.take(16)], pt),
        s is Dgcmsiv ==> out == aes_gcm_siv_seal(
            hkdf_sha256_expand(key, seq![103u8, 99u8, 109u8, 115u8, 105u8, 118u8], 32),
            Seq::new(12, |i: int| 0u8),
            pt,
        ),
        s is Pgcmsiv ==> out.len() >= 12 && out.skip(12) == aes_gcm_siv_seal(
            hkdf_sha256_expand(key, seq![103u8, 99u8, 109u8, 115u8, 105u8, 118u8], 32),
            out.take(12),
            pt,
        ),
        s is Mock1 ==> out == pt,
        s is Mock2 ==> out.len() == pt.len() && forall|i: int|
            0 <= i < pt.len() ==> #[trigger] out[i] == pt[pt.len() - 1 - i],
{
    let n = choose|n: Seq<u8>|
        n.len() == crate::format::nonce_len(s) && out == #[trigger] sealed(s, key, n, pt);
    assert(seq![103u8, 99u8, 109u8, 115u8, 105u8, 118u8] =~= crate::format::gcmsiv_info());
    assert(Seq::new(12, |i: int| 0u8) =~= crate::format::zero_nonce());
    if s is Psiv {
        assert(out.take(16) =~= n);
        assert(out.skip(16) =~= aes_siv_seal(key, seq![n], pt));
    }
    if s is Pgcmsiv {
        assert(out.take(12) =~= n);
        assert(out.skip(12) =~= aes_gcm_siv_seal(crate::format::gcm_siv_key(key), n, pt));
    }
    if s is Dsiv {
        assert(Seq::<Seq<u8>>::empty() =~= seq![]);
    }
}

/// Encryption under a caller-given nonce puts exactly that nonce in front
/// of the primitive's output for exactly that nonce: `psiv` with the nonce
/// as the single AES-SIV header, `pgcmsiv` with the nonce as the
/// AES-GCM-SIV nonce under the key derived with info `gcmsiv`.
pub proof fn lemma_nonce_output_is_primitive_output(key: Seq<u8>, nonce: Seq<u8>, pt: Seq<u8>)
    ensures
        encrypt_with_nonce_spec(Scheme::Psiv, key, nonce, pt) matches Ok(out) ==> out
            == nonce + aes_siv_seal(key, seq![nonce], pt),
        encrypt_with_nonce_spec(Scheme::Pgcmsiv, key, nonce, pt) matches Ok(out) ==> out
            == nonce + aes_gcm_siv_seal(
            hkdf_sha256_expand(key, seq![103u8, 99u8, 109u8, 115u8, 105u8, 118u8], 32),
            nonce,
            pt,
        ),
        pt.len() == 0 ==> encrypt_with_nonce_spec(Scheme::Psiv, key, nonce, pt) == Err::<Seq<u8>, Error>(Error::EmptyPlaintext),
        pt.len() > 0 ==> encrypt_with_nonce_spec(Scheme::Psiv, key, nonce, pt) is Ok,
{
    assert(seq![103u8, 99u8, 109u8, 115u8, 105u8, 118u8] =~= crate::format::gcmsiv_info());
}

/// The two AES-GCM-SIV schemes share one derived key: the `pgcmsiv` output
/// under the all-zero nonce is twelve zero bytes followed by the `dgcmsiv`
/// output, and decrypting a `dgcmsiv` output with twelve zero bytes in
/// front under `pgcmsiv` gives what `dgcmsiv` gives for it.
pub proof fn lemma_gcm_siv_schemes_share_key(key: Seq<u8>, pt: Seq<u8>, n: Seq<u8>, c: Seq<u8>)
    ensures
        sealed(Scheme::Pgcmsiv, key, Seq::new(12, |i: int| 0u8), pt) == Seq::new(12, |i: int| 0u8)
            + sealed(Scheme::Dgcmsiv, key, n, pt),
        c.len() >= 17 ==> decrypt_spec(Scheme::Pgcmsiv, key, Seq::new(12, |i: int| 0u8) + c)
            == decrypt_spec(Scheme::Dgcmsiv, key, c),
{
    let z = Seq::new(12, |i: int| 0u8);
    assert(z =~= crate::format::zero_nonce());
    assert((z + c).take(12) =~= z);
    assert((z + c).skip(12) =~= c);
}

/// Decryption succeeds only where the scheme's AEAD primitive
/// authenticates the input under the scheme's key, nonce and associated
/// data, and then gives exactly the primitive's plaintext; where the
/// primitive rejects the input, decryption fails with `DecryptionFailed`.
/// An input below the scheme's minimum length is `PayloadTooShort`.
/// So an output of one scheme is accepted by another only if that other
/// scheme's own primitive authenticates it.
pub proof fn lemma_decrypt_is_primitive_open(key: Seq<u8>, out: Seq<u8>)
    ensures
        out.len() < 17 ==> decrypt_spec(Scheme::Dsiv, key, out) == Err::<Seq<u8>, Error>(Error::PayloadTooShort),
        out.len() >= 17 ==> decrypt_spec(Scheme::Dsiv, key, out) == match aes_siv_open(key, Seq::<Seq<u8>>::empty(), out) {
            Some(p) => Ok::<Seq<u8>, Error>(p),
            None => Err(Error::DecryptionFailed),
        },
        out.len() < 33 ==> decrypt_spec(Scheme::Psiv, key, out) == Err::<Seq<u8>, Error>(Error::PayloadTooShort),
        out.len() >= 33 ==> decrypt_spec(Scheme::Psiv, key, out) == match aes_siv_open(key, seq![out.take(16)], out.skip(16)) {
            Some(p) => Ok::<Seq<u8>, Error>(p),
            None => Err(Error::DecryptionFailed),
        },
        out.len() < 17 ==> decrypt_spec(Scheme::Dgcmsiv, key, out) == Err::<Seq<u8>, Error>(Error::PayloadTooShort),
        out.len() >= 17 ==> decrypt_spec(Scheme::Dgcmsiv, key, out) == match aes_gcm_siv_open(
            hkdf_sha256_expand(key, seq![103u8, 99u8, 109u8, 115u8, 105u8, 118u8], 32),
            Seq::new(12, |i: int| 0u8),
            out,
        ) {
            Some(p) => Ok::<Seq<u8>, Error>(p),
            None => Err(Error::DecryptionFailed),
        },
        out.len() < 29 ==> decrypt_spec(Scheme::Pgcmsiv, key, out) == Err::<Seq<u8>, Error>(Error::PayloadTooShort),
        out.len() >= 29 ==> decrypt_spec(Scheme::Pgcmsiv, key, out) == match aes_gcm_siv_open(
            hkdf_sha256_expand(key, seq![103u8, 99u8, 109u8, 115u8, 105u8, 118u8], 32),
            out.take(12),
            out.skip(12),
        ) {
            Some(p) => Ok::<Seq<u8>, Error>(p),
            None => Err(Error::DecryptionFailed),
        },
{
    assert(seq![103u8, 99u8, 109u8, 115u8, 105u8, 118u8] =~= crate::format::gcmsiv_info());
    assert(Seq::new(12, |i: int| 0u8) =~= crate::format::zero_nonce());
    assert(Seq::<Seq<u8>>::empty() =~= seq![]);
}

} // verus!
