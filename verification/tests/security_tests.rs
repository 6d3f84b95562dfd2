use atlas_remote::auth::{generate_pairing_hash, AccessCredential, AuthSession, DeviceId, PinCode};
use atlas_remote::crypto::handshake::{hello_message, make_counter_nonce};
use atlas_remote::crypto::{perform_handshake, CryptoError, DeviceKeys, EncryptedSession, HandshakeMessage, KeyRotation, SessionKey};
use atlas_remote::session::device_auth::{generate_challenge, verify_device, AuthResult};
use atlas_remote::session::{PairCode, PairedConnection, PairingStore, TunnelCipher, TunnelMetrics};

#[test]
fn test_device_id_generation() {
    let id = DeviceId::generate();
    assert_eq!(id.0.len(), 8);
    assert!(id.is_valid());
}

#[test]
fn test_pin_generation() {
    let pin = PinCode::generate();
    assert_eq!(pin.0.len(), 4);
    assert!(pin.is_valid());
}

#[test]
fn test_pairing_hash() {
    let hash = generate_pairing_hash("ABCD1234", "5678");
    assert_eq!(hash.len(), 64); // SHA-256 hex
}

#[test]
fn pairing_hash_is_sha256_hex() {
    // SHA-256 of the empty input.
    assert_eq!(generate_pairing_hash("", ""), "e3b0c44298fc1c149afbf4c8996fb92427ae41e4649b934ca495991b7852b855");
    assert_eq!(generate_pairing_hash("ab", "c"), generate_pairing_hash("a", "bc"));
}

#[test]
fn id_and_pin_validity() {
    assert!(!DeviceId("abcd1234".to_string()).is_valid());
    assert!(DeviceId("ABCD2345".to_string()).is_valid());
    assert!(!DeviceId("ABCD1234".to_string()).is_valid());
    assert!(!DeviceId("ABCD123".to_string()).is_valid());
    assert!(!PinCode("12a4".to_string()).is_valid());
    assert!(PinCode("0000".to_string()).is_valid());
}

#[test]
fn session_expiry_and_pin_check() {
    let s = AuthSession {
        device_id: DeviceId("ABCD1234".to_string()),
        pin: PinCode("1234".to_string()),
        session_key: vec![],
        created_at: 0,
        expires_at: 1000,
    };
    assert!(!s.is_expired_at(1000));
    assert!(s.is_expired_at(1001));
    let c = AccessCredential {
        device_id: DeviceId("ABCD1234".to_string()),
        access_pin: PinCode("1234".to_string()),
        allowed: true,
        created_at: 0,
    };
    assert!(c.verify_pin(&PinCode("1234".to_string())));
    assert!(!c.verify_pin(&PinCode("4321".to_string())));
}

#[test]
fn test_key_rotation() {
    let rotation = KeyRotation::default();
    let recent_time = std::time::SystemTime::now().duration_since(std::time::UNIX_EPOCH).unwrap().as_secs();
    assert!(!rotation.should_rotate(recent_time));
    let old_time = recent_time - 7200; // 2 hours ago
    assert!(rotation.should_rotate(old_time));
    let next_id = rotation.next_key_id();
    assert_eq!(next_id, 1);
}

#[test]
fn key_rotation_boundaries() {
    let r = KeyRotation::default();
    assert!(r.should_rotate_at(0, 3600));
    assert!(!r.should_rotate_at(0, 3599));
    assert!(!r.should_rotate_at(10, 5));
}

#[test]
fn test_key_generation() {
    let keys = DeviceKeys::generate();
    assert_eq!(keys.signing_key.len(), 32);
    assert_eq!(keys.verifying_key.len(), 32);
}

#[test]
fn device_keys_sign_and_verify() {
    let keys = DeviceKeys::generate();
    let sig = keys.sign(b"challenge");
    assert!(keys.verify(b"challenge", &sig));
    assert!(!keys.verify(b"other", &sig));
    assert_eq!(keys.try_verify(b"challenge", &sig), Some(true));
    assert_eq!(keys.sign(b"challenge"), sig);
    let other = DeviceKeys::generate();
    assert_ne!(keys.diffie_hellman(&other.verifying_key), [0u8; 32]);
}

#[test]
fn test_session_key() {
    let secret = [42u8; 32];
    let key = SessionKey::from_shared_secret(&secret);
    let nonce: [u8; 12] = [0; 12];
    let plain = b"test data";
    let cipher = key.encrypt(&nonce, plain).unwrap();
    let dec = key.decrypt(&nonce, &cipher).unwrap();
    assert_eq!(dec, plain);
}

#[test]
fn session_key_rejects_tampering() {
    let key = SessionKey::from_shared_secret(&[7u8; 32]);
    let nonce = [1u8; 12];
    let mut c = key.encrypt(&nonce, b"payload").unwrap();
    assert_eq!(c.len(), 7 + 16);
    c[0] ^= 1;
    assert_eq!(key.decrypt(&nonce, &c), Err("aead::Error".to_string()));
}

#[test]
fn test_encrypted_session() {
    let local_secret = [3u8; 32];
    let remote_secret = [9u8; 32];
    let local_public = match hello_message(&local_secret) {
        HandshakeMessage::Hello { public_key } => public_key,
        _ => unreachable!(),
    };
    let remote_public = match hello_message(&remote_secret) {
        HandshakeMessage::Hello { public_key } => public_key,
        _ => unreachable!(),
    };
    let local = perform_handshake(&local_secret, &remote_public).unwrap();
    let remote = perform_handshake(&remote_secret, &local_public).unwrap();
    assert_eq!(local.shared_secret, remote.shared_secret);

    let mut session = EncryptedSession::new(remote_public, local.shared_secret);
    let plaintext = b"Hello, Atlas!";
    let ciphertext = session.encrypt(plaintext).unwrap();
    assert_ne!(ciphertext, plaintext.to_vec());
}

#[test]
fn first_session_message_decrypts() {
    let mut s = EncryptedSession::new([0u8; 32], [5u8; 32]);
    let c = s.encrypt(b"first").unwrap();
    assert_eq!(s.nonce_counter, 1);
    assert_eq!(s.decrypt(&c).unwrap(), b"first".to_vec());
    let c2 = s.encrypt(b"second").unwrap();
    assert!(s.decrypt(&c2).is_err());
}

#[test]
fn counter_nonces() {
    assert_eq!(make_counter_nonce(1), [0, 0, 0, 0, 0, 0, 0, 1, 0, 0, 0, 0]);
    assert_eq!(make_counter_nonce(0x0102030405060708), [1, 2, 3, 4, 5, 6, 7, 8, 0, 0, 0, 0]);
}

#[test]
fn crypto_error_messages() {
    assert_eq!(CryptoError::InvalidKey.message(), "Invalid key");
    assert_eq!(CryptoError::DecryptionFailed("x".to_string()).message(), "Decryption failed: x");
}

#[test]
fn test_challenge_generation() {
    let c1 = generate_challenge("device-1", 1000);
    let c2 = generate_challenge("device-1", 1000);
    let c3 = generate_challenge("device-2", 1000);
    assert_eq!(c1, c2);
    assert_ne!(c1, c3);
}

#[test]
fn verify_device_checks_signature() {
    let keys = DeviceKeys::generate();
    let challenge = generate_challenge("device-1", 1000);
    let sig = keys.sign(&challenge);
    let local = DeviceKeys::generate();
    match verify_device(&local, &keys.verifying_key, "device-1", &sig, &challenge) {
        AuthResult::Success { device_id, .. } => assert_eq!(device_id, "device-1"),
        _ => panic!("signature should verify"),
    }
    let mut bad = sig;
    bad[0] ^= 1;
    assert!(matches!(verify_device(&local, &keys.verifying_key, "device-1", &bad, &challenge), AuthResult::InvalidSignature));
}

#[test]
fn test_nonce_generation() {
    let enc = TunnelCipher::new(&[0u8; 32]);
    let n1 = enc.make_nonce(0);
    let n2 = enc.make_nonce(1);
    assert_ne!(n1, n2);
}

#[test]
fn tunnel_cipher_and_metrics() {
    let mut a = TunnelCipher::new(&[1u8; 32]);
    let sealed = a.seal(b"data").unwrap();
    assert_eq!(a.encrypt_nonce, 1);
    assert_eq!(sealed.len(), 12 + 4 + 16);
    let nonce: [u8; 12] = sealed[..12].try_into().unwrap();
    assert_eq!(nonce, a.make_nonce(0));
    // A peer whose receive key is this side's send key opens the packet.
    let peer = TunnelCipher { encrypt_key: a.decrypt_key, decrypt_key: a.encrypt_key, encrypt_nonce: 0, decrypt_nonce: 0 };
    assert_eq!(peer.open(&nonce, &sealed[12..]).unwrap(), b"data".to_vec());
    assert!(a.open(&nonce, &sealed[12..]).is_err());
    let mut m = TunnelMetrics::default();
    m.record_encrypt(10);
    m.record_decrypt(4);
    m.record_error();
    assert_eq!((m.bytes_encrypted, m.packets_encrypted, m.bytes_decrypted, m.errors), (10, 1, 4, 1));
}

#[test]
fn test_generate() {
    let code = PairCode::generate();
    assert_eq!(code.0.len(), 6);
    assert!(code.is_valid());
}

#[test]
fn test_format() {
    let code = PairCode("123456".to_string());
    assert_eq!(code.display(), "123-456");
}

#[test]
fn test_invalid() {
    assert!(!PairCode("12345".to_string()).is_valid());
    assert!(!PairCode("1234567".to_string()).is_valid());
    assert!(!PairCode("1234ab".to_string()).is_valid());
}

#[test]
fn pair_code_expiry() {
    let code = PairCode("123456".to_string());
    assert!(!code.is_expired_at(0, 299_999));
    assert!(code.is_expired_at(0, 300_000));
}

#[test]
fn test_pairing_code_generation() {
    let mut store = PairingStore::new();
    let code = store.generate_code("test-device");
    assert_eq!(code.len(), 6);
    assert!(code.chars().all(|c| c.is_ascii_digit()));
}

#[test]
fn test_pairing_code_verification() {
    let mut store = PairingStore::new();
    let code = store.generate_code("device-1");

    let result = store.verify_code(&code, "device-1");
    assert!(result.is_some());
    assert_eq!(result.unwrap(), "device-1");

    let result = store.verify_code(&code, "device-2");
    assert!(result.is_none());
}

#[test]
fn pairing_code_verifies_once_and_expires() {
    let mut store = PairingStore::new();
    store.register_code(PairCode("111111".to_string()), "dev", 1_000);
    assert!(store.is_valid_at("111111", 2_000));
    assert_eq!(store.verify_code_at("111111", "other", 2_000), None);
    assert_eq!(store.verify_code_at("111111", "dev", 2_000), Some("dev".to_string()));
    assert_eq!(store.verify_code_at("111111", "dev", 2_001), None);
    assert!(!store.is_valid_at("111111", 2_002));

    store.register_code(PairCode("222222".to_string()), "dev", 1_000);
    assert_eq!(store.verify_code_at("222222", "dev", 301_001), None);
    assert!(!store.is_valid_at("222222", 1_500));
    store.register_code(PairCode("333333".to_string()), "dev", 1_000);
    store.cleanup_at(400_000);
    assert!(!store.is_valid_at("333333", 1_000));
}

#[test]
fn paired_connection_expiry() {
    let c = PairedConnection { device_id: "d".to_string(), session_key: vec![], remote_public_key: [0; 32], paired_at: 0 };
    assert!(!c.is_expired_at(61 * 60_000 - 1));
    assert!(c.is_expired_at(61 * 60_000));
}
