//! Network configuration, LAN discovery bookkeeping, STUN message handling,
//! QUIC settings.
pub mod discovery;
pub mod stun;
pub mod quic;

pub use discovery::{DiscoveredDevice, DiscoveryManager};
pub use stun::NatType;
pub use quic::{QuicClient, QuicConfig};

use vstd::prelude::*;
use crate::text::to_string;

verus! {

/// Network configuration.
#[derive(Debug, Clone)]
pub struct NetworkConfig {
    pub stun_servers: Vec<String>,
    pub turn_server: Option<String>,
    pub relay_enabled: bool,
    pub preferred_transport: String,
}

impl Default for NetworkConfig {
    /// Two STUN servers, no TURN server, relay enabled, QUIC preferred.
    fn default() -> (r: Self)
        ensures
            r.stun_servers@.len() == 2,
            r.stun_servers@[0]@ == "198.199.101.193:19302"@,
            r.stun_servers@[1]@ == "stun.l.google.com:19302"@,
            r.turn_server is None,
            r.relay_enabled,
            r.preferred_transport@ == "quic"@,
    {
        let mut stun_servers: Vec<String> = Vec::new();
        stun_servers.push(to_string("198.199.101.193:19302"));
        stun_servers.push(to_string("stun.l.google.com:19302"));
        NetworkConfig { stun_servers, turn_server: None, relay_enabled: true, preferred_transport: to_string("quic") }
    }
}

} // verus!
