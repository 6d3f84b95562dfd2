//! Device key pairs (Ed25519 signing, X25519 exchange) and the key
//! rotation schedule.
use vstd::prelude::*;
use crate::clock::now_ms;
use crate::crypto::primitives::{
    ed25519_public_key, ed25519_sign, ed25519_verify, os_random_bytes_32, spec_ed25519_check,
    spec_ed25519_public, spec_ed25519_sign, spec_x25519, x25519,
};

verus! {

/// The long-term keys of a device.
#[derive(Debug, Clone)]
pub struct DeviceKeys {
    pub signing_key: [u8; 32],
    pub verifying_key: [u8; 32],
    pub exchange_secret: [u8; 32],
}

impl DeviceKeys {
    /// The verifying key belongs to the signing key.
    pub open spec fn matched(&self) -> bool {
        self.verifying_key@ == spec_ed25519_public(self.signing_key@)
    }

    /// A fresh Ed25519 key pair from the operating system's generator; the
    /// exchange secret is left zero, a fresh one being drawn for each exchange.
    pub fn generate() -> (r: Self)
        ensures
            r.matched(),
            r.exchange_secret@ == Seq::new(32, |i: int| 0u8),
    {
        let signing_key = os_random_bytes_32();
        let verifying_key = ed25519_public_key(&signing_key);
        let r = DeviceKeys { signing_key, verifying_key, exchange_secret: [0u8; 32] };
        assert(r.exchange_secret@ =~= Seq::new(32, |i: int| 0u8));
        r
    }

    /// A fresh X25519 secret from the operating system's generator.
    pub fn exchange_secret(&self) -> (r: [u8; 32]) {
        os_random_bytes_32()
    }

    /// The Ed25519 signature of `message`; with matched keys it verifies
    /// under the device's own verifying key.
    pub fn sign(&self, message: &[u8]) -> (r: [u8; 64])
        ensures
            r@ == spec_ed25519_sign(self.signing_key@, message@),
            self.matched() ==> spec_ed25519_check(self.verifying_key@, message@, r@) == Some(true),
    {
        ed25519_sign(&self.signing_key, message)
    }

    /// Whether `sig` signs `message` under the verifying key, which must be
    /// a valid Ed25519 point.
    pub fn verify(&self, message: &[u8], sig: &[u8; 64]) -> (r: bool)
        requires
            spec_ed25519_check(self.verifying_key@, message@, sig@) is Some,
        ensures
            spec_ed25519_check(self.verifying_key@, message@, sig@) == Some(r),
    {
        match ed25519_verify(&self.verifying_key, message, sig) {
            Some(ok) => ok,
            None => false,
        }
    }

    /// `None` when the verifying key is not a valid Ed25519 point, else
    /// whether `sig` signs `message` under it.
    pub fn try_verify(&self, message: &[u8], sig: &[u8; 64]) -> (r: Option<bool>)
        ensures
            r == spec_ed25519_check(self.verifying_key@, message@, sig@),
    {
        match ed25519_verify(&self.verifying_key, message, sig) {
            Some(_) => Some(self.verify(message, sig)),
            None => None,
        }
    }

    /// Shared secret with `remote` under a fresh X25519 secret drawn for
    /// this exchange.
    pub fn diffie_hellman(&self, remote: &[u8; 32]) -> (r: [u8; 32])
        ensures
            exists|secret: Seq<u8>| secret.len() == 32 && r@ == spec_x25519(secret, remote@),
    {
        let secret = os_random_bytes_32();
        let r = x25519(&secret, remote);
        assert(secret@.len() == 32 && r@ == spec_x25519(secret@, remote@));
        r
    }
}

/// Key rotation manager.
#[derive(Debug, Clone)]
pub struct KeyRotation {
    pub current_key_id: u64,
    pub rotation_interval_seconds: u64,
    pub max_keys: usize,
}

impl Default for KeyRotation {
    /// Key 0, one-hour interval, at most ten keys.
    fn default() -> (r: Self)
        ensures
            r.current_key_id == 0,
            r.rotation_interval_seconds == 3600,
            r.max_keys == 10,
    {
        KeyRotation { current_key_id: 0, rotation_interval_seconds: 3600, max_keys: 10 }
    }
}

impl KeyRotation {
    /// Whether a rotation is due now, the last one having happened at
    /// `last_rotation` (seconds since the epoch).
    pub fn should_rotate(&self, last_rotation: u64) -> (r: bool)
        ensures
            exists|now: u64| r == #[trigger] self.rotation_due(last_rotation, now),
    {
        let now = now_ms() / 1000;
        let r = self.should_rotate_at(last_rotation, now);
        assert(r == self.rotation_due(last_rotation, now));
        r
    }

    pub open spec fn rotation_due(&self, last_rotation: u64, now: u64) -> bool {
        last_rotation <= now && now - last_rotation >= self.rotation_interval_seconds
    }

    /// Whether a rotation is due at time `now` (seconds since the epoch): at
    /// least the interval has passed since `last_rotation`. A last rotation
    /// in the future is not due.
    pub fn should_rotate_at(&self, last_rotation: u64, now: u64) -> (r: bool)
        ensures
            r == self.rotation_due(last_rotation, now),
    {
        last_rotation <= now && now - last_rotation >= self.rotation_interval_seconds
    }

    /// The id of the next key.
    pub fn next_key_id(&self) -> (r: u64)
        requires
            self.current_key_id < u64::MAX,
        ensures
            r == self.current_key_id + 1,
    {
        self.current_key_id + 1
    }
}

} // verus!
