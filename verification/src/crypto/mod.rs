//! Cryptography: hashing, AES-256-GCM sessions, X25519 key exchange, key rotation.
pub mod primitives;
pub mod error;
pub mod keypair;
pub mod session;
pub mod handshake;

pub use error::CryptoError;
pub use keypair::{DeviceKeys, KeyRotation};
pub use session::SessionKey;
pub use handshake::{EncryptedSession, perform_handshake, HandshakeMessage};
