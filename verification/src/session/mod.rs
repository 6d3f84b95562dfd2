//! Pairing codes, device authentication and the encrypted tunnel.
pub mod pair_code;
pub mod device_auth;
pub mod encrypted_tunnel;
pub mod pairing_store;

pub use pair_code::PairCode;
pub use device_auth::{AuthResult, verify_device, generate_challenge};
pub use encrypted_tunnel::{TunnelCipher, TunnelMetrics};
pub use pairing_store::{PairingStore, PairingSession, PairedConnection};
