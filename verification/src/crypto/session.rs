//! Session key derived from a shared secret, with AES-256-GCM sealing.
use vstd::prelude::*;
use crate::crypto::primitives::{
    aes_gcm_open, aes_gcm_seal, sha256, spec_aes_gcm_open, spec_aes_gcm_seal, spec_sha256,
    AES_GCM_P_MAX,
};
use crate::text::to_string;

verus! {

/// A 256-bit session key.
#[derive(Clone)]
pub struct SessionKey {
    pub key: [u8; 32],
}

impl SessionKey {
    /// The key is the SHA-256 digest of the shared secret.
    pub fn from_shared_secret(secret: &[u8; 32]) -> (r: Self)
        ensures
            r.key@ == spec_sha256(secret@),
    {
        SessionKey { key: sha256(secret) }
    }

    /// Seals `plaintext` under the key and `nonce`; refused ("aead::Error")
    /// for plaintexts longer than 2^36 bytes.
    pub fn encrypt(&self, nonce: &[u8; 12], plaintext: &[u8]) -> (r: Result<Vec<u8>, String>)
        ensures
            r is Err <==> plaintext@.len() > AES_GCM_P_MAX,
            r matches Err(m) ==> m@ == "aead::Error"@,
            r matches Ok(c) ==> c@ == spec_aes_gcm_seal(self.key@, nonce@, plaintext@),
            r matches Ok(c) ==> spec_aes_gcm_open(self.key@, nonce@, c@) == Some(plaintext@),
    {
        match aes_gcm_seal(&self.key, nonce, plaintext) {
            Ok(c) => Ok(c),
            Err(_) => Err(to_string("aead::Error")),
        }
    }

    /// Opens `ciphertext` under the key and `nonce`; "aead::Error" when it
    /// does not authenticate.
    pub fn decrypt(&self, nonce: &[u8; 12], ciphertext: &[u8]) -> (r: Result<Vec<u8>, String>)
        ensures
            r is Ok <==> spec_aes_gcm_open(self.key@, nonce@, ciphertext@) is Some,
            r matches Ok(p) ==> spec_aes_gcm_open(self.key@, nonce@, ciphertext@) == Some(p@),
            r matches Err(m) ==> m@ == "aead::Error"@,
    {
        match aes_gcm_open(&self.key, nonce, ciphertext) {
            Ok(p) => Ok(p),
            Err(_) => Err(to_string("aead::Error")),
        }
    }
}

} // verus!
