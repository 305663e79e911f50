//! Error values returned by every operation of the library.

use vstd::prelude::*;

verus! {

/// All errors that can occur in the library's operations.
#[derive(Debug, Clone, Copy, PartialEq, Eq, Structural)]
pub enum Error {
    /// `Key::from_slice` was called with a slice whose length isn't 64.
    InvalidKeyLength,
    /// `Key::from_hex` was called with a string that isn't 128 lowercase
    /// hex characters.
    InvalidHex,
    /// A scheme name did not match any core scheme.
    UnknownScheme,
    /// The underlying AEAD primitive reported an encryption failure.
    EncryptionFailed,
    /// Encryption was asked for an empty plaintext.
    EmptyPlaintext,
    /// The AEAD tag check failed: wrong key, wrong scheme, or tampering.
    DecryptionFailed,
    /// A mock scheme was asked to decrypt an empty payload.
    EmptyPayload,
    /// The scheme output is shorter than the scheme's minimum layout.
    PayloadTooShort,
}

/// The human-readable description of each error.
pub open spec fn error_message(e: Error) -> Seq<char> {
    match e {
        Error::InvalidKeyLength => "key must be 64 bytes"@,
        Error::InvalidHex => "invalid hex key (expected 128 hex characters)"@,
        Error::UnknownScheme => "unknown scheme"@,
        Error::EncryptionFailed => "encryption failed"@,
        Error::EmptyPlaintext => "encryption failed: empty plaintext"@,
        Error::DecryptionFailed => "decryption failed"@,
        Error::EmptyPayload => "decryption failed: empty payload"@,
        Error::PayloadTooShort => "decryption failed: payload too short"@,
    }
}

impl Error {
    /// The human-readable description of this error.
    pub fn message(&self) -> (res: &'static str)
        ensures
            res@ == error_message(*self),
    {
        match self {
            Error::InvalidKeyLength => "key must be 64 bytes",
            Error::InvalidHex => "invalid hex key (expected 128 hex characters)",
            Error::UnknownScheme => "unknown scheme",
            Error::EncryptionFailed => "encryption failed",
            Error::EmptyPlaintext => "encryption failed: empty plaintext",
            Error::DecryptionFailed => "decryption failed",
            Error::EmptyPayload => "decryption failed: empty payload",
            Error::PayloadTooShort => "decryption failed: payload too short",
        }
    }
}

} // verus!
