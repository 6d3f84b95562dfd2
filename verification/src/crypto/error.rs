//! Cryptography error kinds.
use vstd::prelude::*;
use crate::text::{push_str, to_string};

verus! {

#[derive(Debug)]
pub enum CryptoError {
    InvalidKey,
    EncryptionFailed(String),
    DecryptionFailed(String),
    SignatureFailed,
}

impl CryptoError {
    /// The error's message.
    pub fn message(&self) -> (r: String)
        ensures
            r@ == match self {
                CryptoError::InvalidKey => "Invalid key"@,
                CryptoError::EncryptionFailed(s) => "Encryption failed: "@ + s@,
                CryptoError::DecryptionFailed(s) => "Decryption failed: "@ + s@,
                CryptoError::SignatureFailed => "Signature verification failed"@,
            },
    {
        match self {
            CryptoError::InvalidKey => to_string("Invalid key"),
            CryptoError::EncryptionFailed(s) => {
                let mut r = to_string("Encryption failed: ");
                push_str(&mut r, s.as_str());
                r
            },
            CryptoError::DecryptionFailed(s) => {
                let mut r = to_string("Decryption failed: ");
                push_str(&mut r, s.as_str());
                r
            },
            CryptoError::SignatureFailed => to_string("Signature verification failed"),
        }
    }
}

} // verus!
