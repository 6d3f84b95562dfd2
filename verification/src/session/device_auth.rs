//! Device authentication with Ed25519 signatures and X25519 key agreement.
use vstd::prelude::*;
use vstd::string::StringSliceAdditionalSpecFns;
use crate::crypto::primitives::{
    ed25519_verify, os_random_bytes_32, sha256, spec_ed25519_check, spec_sha256, spec_x25519, x25519,
};
use crate::crypto::keypair::DeviceKeys;
use crate::crypto::session::SessionKey;
use crate::text::to_string;
use crate::wire::{le64, push_le64, push_slice};

verus! {

/// Outcome of device authentication.
#[derive(Clone)]
pub enum AuthResult {
    Success { device_id: String, session_key: SessionKey, remote_public_key: [u8; 32] },
    InvalidSignature,
    Expired,
    UnknownDevice,
}

/// The bytes of "atlas-challenge".
pub open spec fn challenge_label() -> Seq<u8> {
    seq![0x61u8, 0x74, 0x6c, 0x61, 0x73, 0x2d, 0x63, 0x68, 0x61, 0x6c, 0x6c, 0x65, 0x6e, 0x67, 0x65]
}

/// Authenticates a device: its signature over `challenge` must verify under
/// `remote_pub_key`; then a fresh X25519 secret is combined with that key
/// and hashed into the session key. The local keys take no part.
pub fn verify_device(
    local_keys: &DeviceKeys,
    remote_pub_key: &[u8; 32],
    device_id: &str,
    signature: &[u8; 64],
    challenge: &[u8],
) -> (r: AuthResult)
    ensures
        spec_ed25519_check(remote_pub_key@, challenge@, signature@) != Some(true) ==> r
            is InvalidSignature,
        spec_ed25519_check(remote_pub_key@, challenge@, signature@) == Some(true) ==> (r matches AuthResult::Success { device_id: id, session_key, remote_public_key }
            && id@ == device_id@ && remote_public_key == *remote_pub_key && exists|secret: Seq<u8>|
            session_key.key@ == spec_sha256(#[trigger] spec_x25519(secret, remote_pub_key@))),
{
    match ed25519_verify(remote_pub_key, challenge, signature) {
        Some(true) => {},
        _ => {
            return AuthResult::InvalidSignature;
        },
    }
    let local_secret = os_random_bytes_32();
    let shared = x25519(&local_secret, remote_pub_key);
    let session_key = SessionKey::from_shared_secret(&shared);
    AuthResult::Success { device_id: to_string(device_id), session_key, remote_public_key: *remote_pub_key }
}

/// Authentication challenge: SHA-256(device_id || timestamp little-endian || "atlas-challenge").
pub fn generate_challenge(device_id: &str, timestamp: u64) -> (r: Vec<u8>)
    ensures
        r@ == spec_sha256(device_id.spec_bytes() + le64(timestamp) + challenge_label()),
{
    let mut input: Vec<u8> = Vec::new();
    push_slice(&mut input, device_id.as_bytes());
    push_le64(&mut input, timestamp);
    let label: [u8; 15] = [0x61u8, 0x74, 0x6c, 0x61, 0x73, 0x2d, 0x63, 0x68, 0x61, 0x6c, 0x6c, 0x65, 0x6e, 0x67, 0x65];
    push_slice(&mut input, label.as_slice());
    assert(input@ =~= device_id.spec_bytes() + le64(timestamp) + challenge_label());
    let digest = sha256(input.as_slice());
    let mut out: Vec<u8> = Vec::new();
    push_slice(&mut out, digest.as_slice());
    out
}

} // verus!
