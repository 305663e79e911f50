//! Scenarios for the scheme table, keys, error texts, output layouts and
//! the by-name operations used by foreign-language bindings.

use obcrypt::by_name::{
    decrypt_with_key_bytes, decrypt_with_key_hex, encrypt_with_key_bytes, encrypt_with_key_hex,
    generate_key_bytes, generate_key_hex, status_code, OBCRYPT_ERR_BAD_SCHEME, OBCRYPT_ERR_OBCRYPT,
};
use obcrypt::format::{opened_result, prefixed, sealed_result};
use obcrypt::schemes::{dgcmsiv, dsiv, mock1, mock2, pgcmsiv, psiv};
use obcrypt::{decrypt, decrypt_into, encrypt, encrypt_into, generate_key, Error, Key, Scheme};

const KEY_HEX: &str = "0123456789abcdef0123456789abcdef0123456789abcdef0123456789abcdef\
                       0123456789abcdef0123456789abcdef0123456789abcdef0123456789abcdef";

fn key_hex_bytes() -> Vec<u8> {
    (0..8)
        .flat_map(|_| [0x01, 0x23, 0x45, 0x67, 0x89, 0xab, 0xcd, 0xef])
        .collect()
}

fn seven_key() -> Key {
    Key::from_bytes([7u8; 64])
}

#[test]
fn scheme_names_and_properties() {
    let table = [
        (Scheme::Dgcmsiv, "dgcmsiv", true),
        (Scheme::Pgcmsiv, "pgcmsiv", false),
        (Scheme::Dsiv, "dsiv", true),
        (Scheme::Psiv, "psiv", false),
        (Scheme::Mock1, "mock1", true),
        (Scheme::Mock2, "mock2", true),
    ];
    for (s, name, det) in table {
        assert_eq!(s.as_str(), name);
        assert_eq!(s.is_deterministic(), det);
        assert_eq!(s.is_probabilistic(), !det);
    }
}

#[test]
fn scheme_parse_ignores_ascii_case() {
    assert_eq!("DSIV".parse::<Scheme>(), Ok(Scheme::Dsiv));
    assert_eq!("PgCmSiV".parse::<Scheme>(), Ok(Scheme::Pgcmsiv));
    assert_eq!(Scheme::parse("Psiv"), Ok(Scheme::Psiv));
    assert_eq!(Scheme::parse("dgcmsiv"), Ok(Scheme::Dgcmsiv));
    assert_eq!(Scheme::parse("dsiv "), Err(Error::UnknownScheme));
    assert_eq!(Scheme::parse(""), Err(Error::UnknownScheme));
    assert_eq!(Scheme::parse("MOCK1"), Err(Error::UnknownScheme));
}

#[test]
fn error_messages() {
    assert_eq!(Error::InvalidKeyLength.message(), "key must be 64 bytes");
    assert_eq!(
        Error::InvalidHex.message(),
        "invalid hex key (expected 128 hex characters)"
    );
    assert_eq!(Error::UnknownScheme.message(), "unknown scheme");
    assert_eq!(Error::EncryptionFailed.message(), "encryption failed");
    assert_eq!(
        Error::EmptyPlaintext.message(),
        "encryption failed: empty plaintext"
    );
    assert_eq!(Error::DecryptionFailed.message(), "decryption failed");
    assert_eq!(
        Error::EmptyPayload.message(),
        "decryption failed: empty payload"
    );
    assert_eq!(
        Error::PayloadTooShort.message(),
        "decryption failed: payload too short"
    );
}

#[test]
fn key_from_slice_checks_length() {
    let raw = vec![9u8; 64];
    let key = Key::from_slice(&raw).unwrap();
    assert_eq!(key.as_bytes(), &[9u8; 64]);
    assert!(matches!(
        Key::from_slice(&[0u8; 32]),
        Err(Error::InvalidKeyLength)
    ));
    assert!(matches!(
        Key::from_slice(&[0u8; 65]),
        Err(Error::InvalidKeyLength)
    ));
    assert!(matches!(Key::from_slice(&[]), Err(Error::InvalidKeyLength)));
}

#[test]
fn key_hex_exact_values() {
    let key = Key::from_hex(KEY_HEX).unwrap();
    assert_eq!(key.as_bytes().to_vec(), key_hex_bytes());
    assert_eq!(key.to_hex(), KEY_HEX);
    let zero = Key::from_bytes([0u8; 64]);
    assert_eq!(zero.to_hex(), "0".repeat(128));
    let ff = Key::from_bytes([0xffu8; 64]);
    assert_eq!(ff.to_hex(), "f".repeat(128));
    assert!(matches!(
        Key::from_hex(&"g".repeat(128)),
        Err(Error::InvalidHex)
    ));
}

#[test]
fn generated_keys_have_canonical_forms() {
    let k = generate_key();
    assert_eq!(k.as_bytes().len(), 64);
    assert_eq!(Key::random().to_hex().len(), 128);
    assert_eq!(generate_key_bytes().len(), 64);
    let h = generate_key_hex();
    assert_eq!(h.len(), 128);
    assert!(h.bytes().all(|c| c.is_ascii_digit() || (b'a'..=b'f').contains(&c)));
    assert!(Key::from_hex(&h).is_ok());
}

#[test]
fn output_lengths_per_scheme() {
    let key = seven_key();
    let cases = [
        (Scheme::Dgcmsiv, 16usize),
        (Scheme::Pgcmsiv, 28),
        (Scheme::Dsiv, 16),
        (Scheme::Psiv, 32),
        (Scheme::Mock1, 0),
        (Scheme::Mock2, 0),
    ];
    for (s, overhead) in cases {
        for pt in [&b"x"[..], &b"hello world"[..]] {
            let out = encrypt(pt, s, &key).unwrap();
            assert_eq!(out.len(), pt.len() + overhead, "{s:?}");
        }
    }
}

#[test]
fn minimum_lengths_are_enforced() {
    let key = seven_key();
    assert_eq!(dsiv::decrypt(&[0u8; 16], &key), Err(Error::PayloadTooShort));
    assert_eq!(dgcmsiv::decrypt(&[0u8; 16], &key), Err(Error::PayloadTooShort));
    assert_eq!(psiv::decrypt(&[0u8; 32], &key), Err(Error::PayloadTooShort));
    assert_eq!(pgcmsiv::decrypt(&[0u8; 28], &key), Err(Error::PayloadTooShort));
    assert_eq!(dsiv::decrypt(&[0u8; 17], &key), Err(Error::DecryptionFailed));
    assert_eq!(dgcmsiv::decrypt(&[0u8; 17], &key), Err(Error::DecryptionFailed));
    assert_eq!(psiv::decrypt(&[0u8; 33], &key), Err(Error::DecryptionFailed));
    assert_eq!(pgcmsiv::decrypt(&[0u8; 29], &key), Err(Error::DecryptionFailed));
}

#[test]
fn mock_schemes_exact_outputs() {
    let key = seven_key();
    assert_eq!(mock1::encrypt(b"abc", &key).unwrap(), b"abc");
    assert_eq!(mock2::encrypt(b"abc", &key).unwrap(), b"cba");
    assert_eq!(mock2::decrypt(b"cba", &key).unwrap(), b"abc");
    assert_eq!(mock1::decrypt(b"", &key), Err(Error::EmptyPayload));
    assert_eq!(mock2::decrypt(b"", &key), Err(Error::EmptyPayload));
    assert_eq!(mock1::encrypt(b"", &key), Err(Error::EmptyPlaintext));
    let mut buf = b"ab".to_vec();
    mock2::encrypt_into(b"xyz", &key, &mut buf).unwrap();
    assert_eq!(buf, b"abzyx");
}

#[test]
fn scheme_modules_match_dispatch() {
    let key = seven_key();
    assert_eq!(dsiv::encrypt(b"m", &key), encrypt(b"m", Scheme::Dsiv, &key));
    assert_eq!(
        dgcmsiv::encrypt(b"m", &key),
        encrypt(b"m", Scheme::Dgcmsiv, &key)
    );
    let p = psiv::encrypt(b"m", &key).unwrap();
    assert_eq!(decrypt(&p, Scheme::Psiv, &key).unwrap(), b"m");
    let g = pgcmsiv::encrypt(b"m", &key).unwrap();
    assert_eq!(pgcmsiv::decrypt(&g, &key).unwrap(), b"m");
}

#[test]
fn failed_encrypt_into_leaves_buffer_unchanged() {
    let key = seven_key();
    for s in [
        Scheme::Dgcmsiv,
        Scheme::Pgcmsiv,
        Scheme::Dsiv,
        Scheme::Psiv,
        Scheme::Mock1,
        Scheme::Mock2,
    ] {
        let mut buf = b"keep".to_vec();
        assert_eq!(
            encrypt_into(b"", s, &key, &mut buf),
            Err(Error::EmptyPlaintext)
        );
        assert_eq!(buf, b"keep");
        let bad: &[u8] = if matches!(s, Scheme::Mock1 | Scheme::Mock2) { &[] } else { &[1u8] };
        assert!(decrypt_into(bad, s, &key, &mut buf).is_err());
        assert_eq!(buf, b"keep");
    }
}

#[test]
fn psiv_output_starts_with_its_nonce() {
    let key = seven_key();
    let out = encrypt(b"nonce layout", Scheme::Psiv, &key).unwrap();
    let nonce = &out[..16];
    let again = {
        let mut v = nonce.to_vec();
        v.extend_from_slice(&out[16..]);
        v
    };
    assert_eq!(decrypt(&again, Scheme::Psiv, &key).unwrap(), b"nonce layout");
}

#[test]
fn round_trip_arbitrary_bytes() {
    let key = [7u8; 64];
    let pt: &[u8] = b"binary \x00 payload \xff end";
    let payload = encrypt_with_key_bytes(pt, "psiv", &key).unwrap();
    assert_eq!(decrypt_with_key_bytes(&payload, "psiv", &key).unwrap(), pt);
}

#[test]
fn bad_key_length_is_an_obcrypt_error() {
    let short_key = [0u8; 16];
    let e = encrypt_with_key_bytes(b"x", "psiv", &short_key).unwrap_err();
    assert_eq!(e, Error::InvalidKeyLength);
    assert_eq!(status_code(e), OBCRYPT_ERR_OBCRYPT);
}

#[test]
fn unknown_scheme_is_reported() {
    let key = [7u8; 64];
    let e = encrypt_with_key_bytes(b"x", "nope", &key).unwrap_err();
    assert_eq!(e, Error::UnknownScheme);
    assert_eq!(status_code(e), OBCRYPT_ERR_BAD_SCHEME);
    // The scheme is checked before the key.
    let e = encrypt_with_key_bytes(b"x", "nope", &[0u8; 3]).unwrap_err();
    assert_eq!(status_code(e), OBCRYPT_ERR_BAD_SCHEME);
}

#[test]
fn hex_key_roundtrips() {
    let pt: &[u8] = b"hex key path \x00 with NUL";
    let payload = encrypt_with_key_hex(pt, "psiv", KEY_HEX).unwrap();
    assert_eq!(decrypt_with_key_hex(&payload, "psiv", KEY_HEX).unwrap(), pt);
}

#[test]
fn hex_key_and_raw_key_agree() {
    let pt: &[u8] = b"same key, two forms";
    let a = encrypt_with_key_bytes(pt, "dgcmsiv", &key_hex_bytes()).unwrap();
    let b = encrypt_with_key_hex(pt, "dgcmsiv", KEY_HEX).unwrap();
    assert_eq!(a, b);
}

#[test]
fn bad_hex_key_is_an_obcrypt_error() {
    let e = encrypt_with_key_hex(b"x", "psiv", "not-hex").unwrap_err();
    assert_eq!(e, Error::InvalidHex);
    assert_eq!(status_code(e), OBCRYPT_ERR_OBCRYPT);
}

#[test]
fn abi_output_matches_core() {
    let key_bytes = [7u8; 64];
    let pt: &[u8] = b"determinism check";
    let core = encrypt(pt, Scheme::Dsiv, &Key::from_bytes(key_bytes)).unwrap();
    assert_eq!(encrypt_with_key_bytes(pt, "dsiv", &key_bytes).unwrap(), core);
}

#[test]
fn aead_outcomes_map_to_library_results() {
    assert_eq!(sealed_result(Err(aead::Error)), Err(Error::EncryptionFailed));
    assert_eq!(opened_result(Err(aead::Error)), Err(Error::DecryptionFailed));
    assert_eq!(sealed_result(Ok(vec![1, 2])), Ok(vec![1, 2]));
    assert_eq!(opened_result(Ok(vec![3])), Ok(vec![3]));
    assert_eq!(prefixed(&[9, 8], vec![1]), vec![9, 8, 1]);
}

#[test]
fn zeroize_clears_key_material() {
    let mut k = seven_key();
    k.zeroize();
    assert_eq!(k.as_bytes(), &[0u8; 64]);
}

#[test]
fn decrypt_into_appends_for_every_scheme() {
    let key = seven_key();
    for s in [
        Scheme::Dgcmsiv,
        Scheme::Pgcmsiv,
        Scheme::Dsiv,
        Scheme::Psiv,
        Scheme::Mock1,
        Scheme::Mock2,
    ] {
        let mut sealed = b"head".to_vec();
        encrypt_into(b"body", s, &key, &mut sealed).unwrap();
        assert!(sealed.starts_with(b"head"));
        let mut buf = b"pre:".to_vec();
        decrypt_into(&sealed[4..], s, &key, &mut buf).unwrap();
        assert_eq!(buf, b"pre:body", "{s:?}");
    }
}

#[test]
fn probabilistic_output_starts_with_given_nonce() {
    let key = seven_key();
    let n1 = [1u8; 16];
    let n2 = [2u8; 16];
    let a = psiv::encrypt_with_nonce(b"same", &key, &n1).unwrap();
    let b = psiv::encrypt_with_nonce(b"same", &key, &n2).unwrap();
    assert_eq!(&a[..16], &n1);
    assert_eq!(&b[..16], &n2);
    assert_ne!(a, b);
    assert_eq!(a, psiv::encrypt_with_nonce(b"same", &key, &n1).unwrap());
    assert_eq!(psiv::decrypt(&a, &key).unwrap(), b"same");
    assert_eq!(
        psiv::encrypt_with_nonce(b"", &key, &n1),
        Err(Error::EmptyPlaintext)
    );

    let g1 = [3u8; 12];
    let g = pgcmsiv::encrypt_with_nonce(b"same", &key, &g1).unwrap();
    assert_eq!(&g[..12], &g1);
    assert_eq!(g.len(), 4 + 28);
    assert_eq!(pgcmsiv::decrypt(&g, &key).unwrap(), b"same");
}

#[test]
fn decrypted_length_is_output_minus_overhead() {
    let key = seven_key();
    for (s, overhead) in [
        (Scheme::Dgcmsiv, 16usize),
        (Scheme::Pgcmsiv, 28),
        (Scheme::Dsiv, 16),
        (Scheme::Psiv, 32),
        (Scheme::Mock1, 0),
        (Scheme::Mock2, 0),
    ] {
        let out = encrypt(b"twelve bytes", s, &key).unwrap();
        let pt = decrypt(&out, s, &key).unwrap();
        assert_eq!(pt.len() + overhead, out.len());
    }
}
