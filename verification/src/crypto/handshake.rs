//! X25519 key exchange and the AES-GCM session it yields.
use vstd::prelude::*;
use crate::crypto::primitives::{
    aes_gcm_open, aes_gcm_seal, sha256, spec_aes_gcm_open, spec_aes_gcm_seal, spec_sha256,
    spec_x25519, spec_x25519_public, x25519, x25519_agrees, x25519_public_key, AES_GCM_P_MAX,
};
use crate::text::to_string;
use crate::wire::{be32, lemma_be32_roundtrip, push_slice};

verus! {

/// Big-endian encoding of a 64-bit value.
pub open spec fn be64(x: u64) -> Seq<u8> {
    be32((x / 0x1_0000_0000) as u32) + be32((x % 0x1_0000_0000) as u32)
}

/// Nonce for message number `counter`: the counter big-endian in the first
/// eight bytes, then four zero bytes.
pub open spec fn counter_nonce(counter: u64) -> Seq<u8> {
    be64(counter) + seq![0u8, 0u8, 0u8, 0u8]
}

/// Distinct message numbers get distinct nonces: since `next_nonce` hands
/// out the counter and then advances it, no two nonces of one session are
/// equal.
pub proof fn counter_nonce_injective(a: u64, b: u64)
    ensures
        counter_nonce(a) == counter_nonce(b) ==> a == b,
{
    if counter_nonce(a) == counter_nonce(b) {
        let (ha, la) = ((a / 0x1_0000_0000) as u32, (a % 0x1_0000_0000) as u32);
        let (hb, lb) = ((b / 0x1_0000_0000) as u32, (b % 0x1_0000_0000) as u32);
        assert(be32(ha) =~= counter_nonce(a).subrange(0, 4));
        assert(be32(hb) =~= counter_nonce(b).subrange(0, 4));
        assert(be32(la) =~= counter_nonce(a).subrange(4, 8));
        assert(be32(lb) =~= counter_nonce(b).subrange(4, 8));
        lemma_be32_roundtrip(ha);
        lemma_be32_roundtrip(hb);
        lemma_be32_roundtrip(la);
        lemma_be32_roundtrip(lb);
        assert(ha == hb && la == lb);
        assert(a == ha * 0x1_0000_0000 + la);
        assert(b == hb * 0x1_0000_0000 + lb);
    }
}

/// The bytes of "atlas-session-key".
pub open spec fn session_label() -> Seq<u8> {
    seq![
        0x61u8, 0x74, 0x6c, 0x61, 0x73, 0x2d, 0x73, 0x65, 0x73, 0x73, 0x69, 0x6f, 0x6e, 0x2d, 0x6b,
        0x65, 0x79,
    ]
}

/// The session key for a shared secret: SHA-256(secret || "atlas-session-key").
pub open spec fn session_key_for(shared_secret: Seq<u8>) -> Seq<u8> {
    spec_sha256(shared_secret + session_label())
}

/// Writes `counter` big-endian into the first eight bytes of a zero nonce.
pub fn make_counter_nonce(counter: u64) -> (r: [u8; 12])
    ensures
        r@ == counter_nonce(counter),
{
    let mut r = [0u8; 12];
    let hi = (counter / 0x1_0000_0000) as u32;
    let lo = (counter % 0x1_0000_0000) as u32;
    r[0] = (hi / 0x1000000) as u8;
    r[1] = ((hi / 0x10000) % 0x100) as u8;
    r[2] = ((hi / 0x100) % 0x100) as u8;
    r[3] = (hi % 0x100) as u8;
    r[4] = (lo / 0x1000000) as u8;
    r[5] = ((lo / 0x10000) % 0x100) as u8;
    r[6] = ((lo / 0x100) % 0x100) as u8;
    r[7] = (lo % 0x100) as u8;
    assert(r@ =~= counter_nonce(counter));
    r
}

/// Session encryption context.
#[derive(Clone)]
pub struct EncryptedSession {
    pub remote_public_key: [u8; 32],
    pub shared_secret: [u8; 32],
    pub session_key: [u8; 32],
    pub nonce_counter: u64,
}

impl EncryptedSession {
    /// A session whose key is SHA-256(shared_secret || "atlas-session-key").
    pub fn new(remote_public_key: [u8; 32], shared_secret: [u8; 32]) -> (s: Self)
        ensures
            s.remote_public_key == remote_public_key,
            s.shared_secret == shared_secret,
            s.session_key@ == session_key_for(shared_secret@),
            s.nonce_counter == 0,
    {
        let mut input: Vec<u8> = Vec::new();
        push_slice(&mut input, shared_secret.as_slice());
        let label: [u8; 17] = [
            0x61u8, 0x74, 0x6c, 0x61, 0x73, 0x2d, 0x73, 0x65, 0x73, 0x73, 0x69, 0x6f, 0x6e, 0x2d,
            0x6b, 0x65, 0x79,
        ];
        push_slice(&mut input, label.as_slice());
        assert(input@ =~= shared_secret@ + session_label());
        let key = sha256(input.as_slice());
        EncryptedSession { remote_public_key, shared_secret, session_key: key, nonce_counter: 0 }
    }

    /// The nonce for the current counter; the counter then advances.
    pub fn next_nonce(&mut self) -> (r: [u8; 12])
        requires
            old(self).nonce_counter < u64::MAX,
        ensures
            r@ == counter_nonce(old(self).nonce_counter),
            final(self).nonce_counter == old(self).nonce_counter + 1,
            final(self).session_key == old(self).session_key,
            final(self).shared_secret == old(self).shared_secret,
            final(self).remote_public_key == old(self).remote_public_key,
    {
        let nonce = make_counter_nonce(self.nonce_counter);
        self.nonce_counter = self.nonce_counter + 1;
        nonce
    }

    /// Seals `plaintext` under the session key and the next counter nonce.
    pub fn encrypt(&mut self, plaintext: &[u8]) -> (r: Result<Vec<u8>, String>)
        requires
            old(self).nonce_counter < u64::MAX,
        ensures
            final(self).nonce_counter == old(self).nonce_counter + 1,
            final(self).session_key == old(self).session_key,
            r is Err <==> plaintext@.len() > AES_GCM_P_MAX,
            r matches Err(m) ==> m@ == "Encryption failed: aead::Error"@,
            r matches Ok(c) ==> c@ == spec_aes_gcm_seal(
                old(self).session_key@,
                counter_nonce(old(self).nonce_counter),
                plaintext@,
            ),
            old(self).nonce_counter == 0 ==> (r matches Ok(c) ==> spec_aes_gcm_open(
                old(self).session_key@,
                Seq::new(12, |i: int| 0u8),
                c@,
            ) == Some(plaintext@)),
    {
        assert(counter_nonce(0) =~= Seq::new(12, |i: int| 0u8));
        let nonce = self.next_nonce();
        match aes_gcm_seal(&self.session_key, &nonce, plaintext) {
            Ok(c) => Ok(c),
            Err(_) => Err(to_string("Encryption failed: aead::Error")),
        }
    }

    /// Opens `ciphertext` under the session key with the all-zero nonce.
    pub fn decrypt(&self, ciphertext: &[u8]) -> (r: Result<Vec<u8>, String>)
        ensures
            r is Ok <==> spec_aes_gcm_open(self.session_key@, Seq::new(12, |i: int| 0u8), ciphertext@) is Some,
            r matches Ok(p) ==> spec_aes_gcm_open(self.session_key@, Seq::new(12, |i: int| 0u8), ciphertext@)
                == Some(p@),
            r matches Err(m) ==> m@ == "Decryption failed: aead::Error"@,
    {
        let nonce = [0u8; 12];
        assert(nonce@ =~= Seq::new(12, |i: int| 0u8));
        match aes_gcm_open(&self.session_key, &nonce, ciphertext) {
            Ok(p) => Ok(p),
            Err(_) => Err(to_string("Decryption failed: aead::Error")),
        }
    }
}

/// Handshake message types.
#[derive(Debug, Clone)]
pub enum HandshakeMessage {
    Hello { public_key: [u8; 32] },
    HelloResponse { public_key: [u8; 32], signature: Vec<u8> },
    Ack,
}

/// Key exchange: the shared secret of `local_secret` with `remote_public`
/// seeds a new session.
pub fn perform_handshake(local_secret: &[u8; 32], remote_public: &[u8; 32]) -> (r: Result<EncryptedSession, String>)
    ensures
        r matches Ok(s) && s.remote_public_key == *remote_public && s.shared_secret@ == spec_x25519(
            local_secret@,
            remote_public@,
        ) && s.session_key@ == session_key_for(spec_x25519(local_secret@, remote_public@))
            && s.nonce_counter == 0,
{
    let shared = x25519(local_secret, remote_public);
    Ok(EncryptedSession::new(*remote_public, shared))
}

/// The opening message of a handshake: the X25519 public key of
/// `local_secret`. Any peer's secret combined with this key gives the
/// shared secret this side computes with the peer's key.
pub fn hello_message(local_secret: &[u8; 32]) -> (r: HandshakeMessage)
    ensures
        r matches HandshakeMessage::Hello { public_key } && public_key@ == spec_x25519_public(local_secret@),
        forall|other: Seq<u8>| other.len() == 32 ==> #[trigger] x25519_agrees(local_secret@, other),
{
    let public_key = x25519_public_key(local_secret);
    assert forall|other: Seq<u8>| other.len() == 32 implies #[trigger] x25519_agrees(local_secret@, other) by {
        assert(spec_x25519(other, public_key@) == spec_x25519(local_secret@, spec_x25519_public(other)));
    }
    HandshakeMessage::Hello { public_key }
}

/// Two peers that each complete the handshake with the other's hello key
/// hold sessions with the same key, so each opens what the other seals.
pub proof fn handshake_keys_agree(a: Seq<u8>, b: Seq<u8>, sa: EncryptedSession, sb: EncryptedSession)
    requires
        x25519_agrees(a, b),
        sa.session_key@ == session_key_for(spec_x25519(a, spec_x25519_public(b))),
        sb.session_key@ == session_key_for(spec_x25519(b, spec_x25519_public(a))),
    ensures
        sa.session_key@ == sb.session_key@,
{
}

} // verus!
