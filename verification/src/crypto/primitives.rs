//! The calls into the hashing, AEAD, key-exchange and randomness crates.
//! Each function here is trusted: its contract restates what the called
//! crate documents, and names what it computes where that takes pages.
use vstd::prelude::*;
use aes_gcm::aead::Aead;
use aes_gcm::KeyInit;
use rand::Rng;
use sha2::Digest;
use ed25519_dalek::Verifier;

verus! {

/// SHA-256 digest of a byte sequence.
pub uninterp spec fn spec_sha256(data: Seq<u8>) -> Seq<u8>;

/// AES-256-GCM encryption with empty associated data: ciphertext followed by
/// the 16-byte tag.
pub uninterp spec fn spec_aes_gcm_seal(key: Seq<u8>, nonce: Seq<u8>, plaintext: Seq<u8>) -> Seq<u8>;

/// AES-256-GCM decryption with empty associated data: the plaintext when the
/// tag at the end of `ciphertext` authenticates it, otherwise nothing.
pub uninterp spec fn spec_aes_gcm_open(key: Seq<u8>, nonce: Seq<u8>, ciphertext: Seq<u8>) -> Option<Seq<u8>>;

/// X25519 scalar multiplication of the (clamped) secret with a public point.
pub uninterp spec fn spec_x25519(secret: Seq<u8>, public: Seq<u8>) -> Seq<u8>;

/// Longest plaintext AES-GCM accepts, in bytes.
pub const AES_GCM_P_MAX: u64 = 0x10_0000_0000;

/// `aes_gcm::Error`, the opaque error of the AEAD calls.
#[verifier::external_type_specification]
#[verifier::external_body]
pub struct ExAeadError(aes_gcm::Error);

/// `sha2::Sha256::digest`: the 32-byte SHA-256 digest of `data`, named `spec_sha256`.
#[verifier::external_body]
pub(crate) fn sha256(data: &[u8]) -> (r: [u8; 32])
    ensures
        r@ == spec_sha256(data@),
{
    sha2::Sha256::digest(data).into()
}

/// `Aead::encrypt` of `aes_gcm::Aes256Gcm` with no associated data. The crate
/// refuses plaintexts longer than 2^36 bytes and otherwise returns the
/// ciphertext and tag, named `spec_aes_gcm_seal`; decrypting that output with
/// the same key and nonce gives back the plaintext.
#[verifier::external_body]
pub(crate) fn aes_gcm_seal(key: &[u8; 32], nonce: &[u8; 12], plaintext: &[u8]) -> (r: Result<Vec<u8>, aes_gcm::Error>)
    ensures
        r is Err <==> plaintext@.len() > AES_GCM_P_MAX,
        r matches Ok(c) ==> c@ == spec_aes_gcm_seal(key@, nonce@, plaintext@),
        r matches Ok(c) ==> c@.len() == plaintext@.len() + 16,
        r matches Ok(c) ==> spec_aes_gcm_open(key@, nonce@, c@) == Some(plaintext@),
{
    let cipher = aes_gcm::Aes256Gcm::new(generic_array::GenericArray::from_slice(key));
    cipher.encrypt(generic_array::GenericArray::from_slice(nonce), plaintext)
}

/// `Aead::decrypt` of `aes_gcm::Aes256Gcm` with no associated data: `Ok` with
/// the plaintext exactly when `spec_aes_gcm_open` gives one.
#[verifier::external_body]
pub(crate) fn aes_gcm_open(key: &[u8; 32], nonce: &[u8; 12], ciphertext: &[u8]) -> (r: Result<Vec<u8>, aes_gcm::Error>)
    ensures
        r is Ok <==> spec_aes_gcm_open(key@, nonce@, ciphertext@) is Some,
        r matches Ok(p) ==> spec_aes_gcm_open(key@, nonce@, ciphertext@) == Some(p@),
{
    let cipher = aes_gcm::Aes256Gcm::new(generic_array::GenericArray::from_slice(key));
    cipher.decrypt(generic_array::GenericArray::from_slice(nonce), ciphertext)
}

/// `x25519_dalek::StaticSecret::diffie_hellman` on byte arrays: the shared
/// secret of `secret` with the public key `public`, named `spec_x25519`.
#[verifier::external_body]
pub(crate) fn x25519(secret: &[u8; 32], public: &[u8; 32]) -> (r: [u8; 32])
    ensures
        r@ == spec_x25519(secret@, public@),
{
    let s = x25519_dalek::StaticSecret::from(*secret);
    s.diffie_hellman(&x25519_dalek::PublicKey::from(*public)).to_bytes()
}

/// X25519 public key of a 32-byte secret.
pub uninterp spec fn spec_x25519_public(secret: Seq<u8>) -> Seq<u8>;

/// Diffie-Hellman agreement: each side's secret with the other's public key
/// gives the same shared secret.
pub open spec fn x25519_agrees(a: Seq<u8>, b: Seq<u8>) -> bool {
    spec_x25519(a, spec_x25519_public(b)) == spec_x25519(b, spec_x25519_public(a))
}

/// `x25519_dalek::PublicKey::from(&StaticSecret::from(secret))`: the public
/// key, named `spec_x25519_public`. As the crate documents, the shared
/// secret of this key's owner with any other 32-byte secret's public key is
/// the one that secret computes with this key.
#[verifier::external_body]
pub(crate) fn x25519_public_key(secret: &[u8; 32]) -> (r: [u8; 32])
    ensures
        r@ == spec_x25519_public(secret@),
        forall|other: Seq<u8>| other.len() == 32 ==> #[trigger] spec_x25519(other, r@) == spec_x25519(secret@, spec_x25519_public(other)),
{
    x25519_dalek::PublicKey::from(&x25519_dalek::StaticSecret::from(*secret)).to_bytes()
}

/// `rand::Rng::gen_range(0..n)` on the thread-local generator: some value below `n`.
#[verifier::external_body]
pub(crate) fn random_below(n: u32) -> (r: u32)
    requires
        n > 0,
    ensures
        r < n,
{
    rand::thread_rng().gen_range(0..n)
}

/// `rand::Rng::fill` of twelve bytes from the thread-local generator.
#[verifier::external_body]
pub(crate) fn random_bytes_12() -> (r: [u8; 12]) {
    let mut id = [0u8; 12];
    rand::thread_rng().fill(&mut id);
    id
}

/// `rand::Rng::fill` of 32 bytes from the operating system's generator (`OsRng`).
#[verifier::external_body]
pub(crate) fn os_random_bytes_32() -> (r: [u8; 32]) {
    let mut bytes = [0u8; 32];
    rand::rngs::OsRng.fill(&mut bytes);
    bytes
}

} // verus!

verus! {

/// Ed25519 signature check: `None` when `public` is not a valid verifying
/// key, otherwise whether `signature` signs `message` under it.
pub uninterp spec fn spec_ed25519_check(public: Seq<u8>, message: Seq<u8>, signature: Seq<u8>) -> Option<bool>;

/// `ed25519_dalek::VerifyingKey::from_bytes` then `Verifier::verify`: `None`
/// when the key bytes are rejected, else whether the signature verifies; the
/// outcome is named `spec_ed25519_check`.
#[verifier::external_body]
pub(crate) fn ed25519_verify(public: &[u8; 32], message: &[u8], signature: &[u8; 64]) -> (r: Option<bool>)
    ensures
        r == spec_ed25519_check(public@, message@, signature@),
{
    match ed25519_dalek::VerifyingKey::from_bytes(public) {
        Ok(key) => Some(key.verify(message, &ed25519_dalek::Signature::from_bytes(signature)).is_ok()),
        Err(_) => None,
    }
}

/// Ed25519 verifying key derived from a 32-byte secret key.
pub uninterp spec fn spec_ed25519_public(secret: Seq<u8>) -> Seq<u8>;

/// Ed25519 signature of `message` under a 32-byte secret key.
pub uninterp spec fn spec_ed25519_sign(secret: Seq<u8>, message: Seq<u8>) -> Seq<u8>;

/// `ed25519_dalek::SigningKey::from_bytes(secret).verifying_key().to_bytes()`:
/// the public key of a secret key, named `spec_ed25519_public`.
#[verifier::external_body]
pub(crate) fn ed25519_public_key(secret: &[u8; 32]) -> (r: [u8; 32])
    ensures
        r@ == spec_ed25519_public(secret@),
{
    ed25519_dalek::SigningKey::from_bytes(secret).verifying_key().to_bytes()
}

/// `ed25519_dalek::SigningKey::from_bytes(secret)` then `Signer::sign`: the
/// deterministic Ed25519 signature, named `spec_ed25519_sign`. As the crate
/// documents, a signature made this way verifies under the key's own
/// verifying key.
#[verifier::external_body]
pub(crate) fn ed25519_sign(secret: &[u8; 32], message: &[u8]) -> (r: [u8; 64])
    ensures
        r@ == spec_ed25519_sign(secret@, message@),
        spec_ed25519_check(spec_ed25519_public(secret@), message@, r@) == Some(true),
{
    ed25519_dalek::Signer::sign(&ed25519_dalek::SigningKey::from_bytes(secret), message).to_bytes()
}

} // verus!
