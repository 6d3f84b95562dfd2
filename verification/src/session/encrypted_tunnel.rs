//! Encryption state of the tunnel carrying video and control data: separate
//! send and receive keys, a per-direction message counter, nonce-prefixed packets.
use vstd::prelude::*;
use crate::crypto::handshake::{counter_nonce, make_counter_nonce};
use crate::crypto::primitives::{
    aes_gcm_open, aes_gcm_seal, sha256, spec_aes_gcm_open, spec_aes_gcm_seal, spec_sha256,
    AES_GCM_P_MAX,
};
use crate::text::to_string;
use crate::wire::push_slice;

verus! {

pub const NONCE_SIZE: usize = 12;

pub const TAG_SIZE: usize = 16;

/// The bytes of "atlas-encrypt-key".
pub open spec fn encrypt_label() -> Seq<u8> {
    seq![0x61u8, 0x74, 0x6c, 0x61, 0x73, 0x2d, 0x65, 0x6e, 0x63, 0x72, 0x79, 0x70, 0x74, 0x2d, 0x6b, 0x65, 0x79]
}

/// The bytes of "atlas-decrypt-key".
pub open spec fn decrypt_label() -> Seq<u8> {
    seq![0x61u8, 0x74, 0x6c, 0x61, 0x73, 0x2d, 0x64, 0x65, 0x63, 0x72, 0x79, 0x70, 0x74, 0x2d, 0x6b, 0x65, 0x79]
}

/// Tunnel cipher state.
pub struct TunnelCipher {
    pub encrypt_key: [u8; 32],
    pub decrypt_key: [u8; 32],
    pub encrypt_nonce: u64,
    pub decrypt_nonce: u64,
}

impl TunnelCipher {
    /// Keys SHA-256(secret || "atlas-encrypt-key") for sending and
    /// SHA-256(secret || "atlas-decrypt-key") for receiving; counters at zero.
    pub fn new(shared_secret: &[u8; 32]) -> (t: Self)
        ensures
            t.encrypt_key@ == spec_sha256(shared_secret@ + encrypt_label()),
            t.decrypt_key@ == spec_sha256(shared_secret@ + decrypt_label()),
            t.encrypt_nonce == 0 && t.decrypt_nonce == 0,
    {
        let mut enc: Vec<u8> = Vec::new();
        push_slice(&mut enc, shared_secret.as_slice());
        let el: [u8; 17] = [0x61u8, 0x74, 0x6c, 0x61, 0x73, 0x2d, 0x65, 0x6e, 0x63, 0x72, 0x79, 0x70, 0x74, 0x2d, 0x6b, 0x65, 0x79];
        push_slice(&mut enc, el.as_slice());
        assert(enc@ =~= shared_secret@ + encrypt_label());
        let mut dec: Vec<u8> = Vec::new();
        push_slice(&mut dec, shared_secret.as_slice());
        let dl: [u8; 17] = [0x61u8, 0x74, 0x6c, 0x61, 0x73, 0x2d, 0x64, 0x65, 0x63, 0x72, 0x79, 0x70, 0x74, 0x2d, 0x6b, 0x65, 0x79];
        push_slice(&mut dec, dl.as_slice());
        assert(dec@ =~= shared_secret@ + decrypt_label());
        TunnelCipher { encrypt_key: sha256(enc.as_slice()), decrypt_key: sha256(dec.as_slice()), encrypt_nonce: 0, decrypt_nonce: 0 }
    }

    /// The nonce for message number `counter`.
    pub fn make_nonce(&self, counter: u64) -> (r: [u8; NONCE_SIZE])
        ensures
            r@ == counter_nonce(counter),
    {
        make_counter_nonce(counter)
    }

    /// Encrypts `data` under the send key and the next nonce; the packet is
    /// the nonce followed by ciphertext and tag. The counter advances even
    /// when encryption is refused ("aead::Error", data over 2^36 bytes).
    pub fn seal(&mut self, data: &[u8]) -> (r: Result<Vec<u8>, String>)
        requires
            old(self).encrypt_nonce < u64::MAX,
        ensures
            final(self).encrypt_nonce == old(self).encrypt_nonce + 1,
            final(self).decrypt_nonce == old(self).decrypt_nonce,
            final(self).encrypt_key == old(self).encrypt_key,
            final(self).decrypt_key == old(self).decrypt_key,
            r is Err <==> data@.len() > AES_GCM_P_MAX,
            r matches Err(m) ==> m@ == "aead::Error"@,
            r matches Ok(p) ==> p@ == counter_nonce(old(self).encrypt_nonce) + spec_aes_gcm_seal(
                old(self).encrypt_key@,
                counter_nonce(old(self).encrypt_nonce),
                data@,
            ),
            r matches Ok(p) ==> spec_aes_gcm_open(
                old(self).encrypt_key@,
                p@.subrange(0, NONCE_SIZE as int),
                p@.subrange(NONCE_SIZE as int, p@.len() as int),
            ) == Some(data@),
    {
        let nonce = self.make_nonce(self.encrypt_nonce);
        self.encrypt_nonce = self.encrypt_nonce + 1;
        match aes_gcm_seal(&self.encrypt_key, &nonce, data) {
            Ok(c) => {
                let mut packet: Vec<u8> = Vec::new();
                push_slice(&mut packet, nonce.as_slice());
                push_slice(&mut packet, c.as_slice());
                assert(packet@.subrange(0, NONCE_SIZE as int) =~= nonce@);
                assert(packet@.subrange(NONCE_SIZE as int, packet@.len() as int) =~= c@);
                Ok(packet)
            },
            Err(_) => Err(to_string("aead::Error")),
        }
    }

    /// Decrypts a received ciphertext under the receive key and the nonce
    /// that preceded it; "aead::Error" when it does not authenticate.
    pub fn open(&self, nonce: &[u8; NONCE_SIZE], ciphertext: &[u8]) -> (r: Result<Vec<u8>, String>)
        ensures
            r is Ok <==> spec_aes_gcm_open(self.decrypt_key@, nonce@, ciphertext@) is Some,
            r matches Ok(p) ==> spec_aes_gcm_open(self.decrypt_key@, nonce@, ciphertext@) == Some(p@),
            r matches Err(m) ==> m@ == "aead::Error"@,
    {
        match aes_gcm_open(&self.decrypt_key, nonce, ciphertext) {
            Ok(p) => Ok(p),
            Err(_) => Err(to_string("aead::Error")),
        }
    }
}

/// Distinct message counters give distinct nonces.
pub proof fn nonces_distinct(a: u64, b: u64)
    requires
        a != b,
    ensures
        counter_nonce(a) != counter_nonce(b),
{
    let na = counter_nonce(a);
    let nb = counter_nonce(b);
    if na == nb {
        let ha = (a / 0x1_0000_0000) as u32;
        let la = (a % 0x1_0000_0000) as u32;
        let hb = (b / 0x1_0000_0000) as u32;
        let lb = (b % 0x1_0000_0000) as u32;
        crate::wire::lemma_be32_roundtrip(ha);
        crate::wire::lemma_be32_roundtrip(la);
        crate::wire::lemma_be32_roundtrip(hb);
        crate::wire::lemma_be32_roundtrip(lb);
        assert(na[0] == nb[0] && na[1] == nb[1] && na[2] == nb[2] && na[3] == nb[3]);
        assert(na[4] == nb[4] && na[5] == nb[5] && na[6] == nb[6] && na[7] == nb[7]);
        assert(ha == hb);
        assert(la == lb);
    }
}

/// Connection metrics.
#[derive(Debug, Clone)]
pub struct TunnelMetrics {
    pub bytes_encrypted: u64,
    pub packets_encrypted: u64,
    pub bytes_decrypted: u64,
    pub packets_decrypted: u64,
    pub errors: u64,
}

impl Default for TunnelMetrics {
    fn default() -> (r: Self)
        ensures
            r.bytes_encrypted == 0 && r.packets_encrypted == 0,
            r.bytes_decrypted == 0 && r.packets_decrypted == 0,
            r.errors == 0,
    {
        TunnelMetrics { bytes_encrypted: 0, packets_encrypted: 0, bytes_decrypted: 0, packets_decrypted: 0, errors: 0 }
    }
}

impl TunnelMetrics {
    pub fn record_encrypt(&mut self, bytes: usize)
        requires
            old(self).bytes_encrypted + bytes <= u64::MAX,
            old(self).packets_encrypted < u64::MAX,
        ensures
            final(self).bytes_encrypted == old(self).bytes_encrypted + bytes,
            final(self).packets_encrypted == old(self).packets_encrypted + 1,
            final(self).bytes_decrypted == old(self).bytes_decrypted,
            final(self).packets_decrypted == old(self).packets_decrypted,
            final(self).errors == old(self).errors,
    {
        self.bytes_encrypted = self.bytes_encrypted + bytes as u64;
        self.packets_encrypted = self.packets_encrypted + 1;
    }

    pub fn record_decrypt(&mut self, bytes: usize)
        requires
            old(self).bytes_decrypted + bytes <= u64::MAX,
            old(self).packets_decrypted < u64::MAX,
        ensures
            final(self).bytes_decrypted == old(self).bytes_decrypted + bytes,
            final(self).packets_decrypted == old(self).packets_decrypted + 1,
            final(self).bytes_encrypted == old(self).bytes_encrypted,
            final(self).packets_encrypted == old(self).packets_encrypted,
            final(self).errors == old(self).errors,
    {
        self.bytes_decrypted = self.bytes_decrypted + bytes as u64;
        self.packets_decrypted = self.packets_decrypted + 1;
    }

    pub fn record_error(&mut self)
        requires
            old(self).errors < u64::MAX,
        ensures
            final(self).errors == old(self).errors + 1,
            final(self).bytes_encrypted == old(self).bytes_encrypted,
            final(self).packets_encrypted == old(self).packets_encrypted,
            final(self).bytes_decrypted == old(self).bytes_decrypted,
            final(self).packets_decrypted == old(self).packets_decrypted,
    {
        self.errors = self.errors + 1;
    }
}

} // verus!
