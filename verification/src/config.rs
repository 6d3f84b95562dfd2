//! Host configuration: transport, video, security and logging settings,
//! with the defaults used when no configuration file is given.
use vstd::prelude::*;
use crate::text::to_string;

verus! {

/// The whole configuration.
#[derive(Debug, Clone)]
pub struct Config {
    pub network: NetworkConfig,
    pub video: VideoConfig,
    pub security: SecurityConfig,
    pub logging: LoggingConfig,
}

/// Transport settings.
#[derive(Debug, Clone)]
pub struct NetworkConfig {
    pub preferred_transport: String,
    pub allow_relay: bool,
    pub stun_servers: Vec<String>,
    pub relay_enabled: bool,
}

/// Video settings.
#[derive(Debug, Clone)]
pub struct VideoConfig {
    pub max_fps: u32,
    pub codec: String,
    pub resolution_width: u32,
    pub resolution_height: u32,
    pub max_bitrate: u32,
}

/// Security settings.
#[derive(Debug, Clone)]
pub struct SecurityConfig {
    pub require_pair: bool,
    pub key_rotation_hours: u32,
}

/// Logging settings.
#[derive(Debug, Clone)]
pub struct LoggingConfig {
    pub level: String,
    pub filter_sensitive: bool,
}

/// The settings of the default configuration.
pub open spec fn is_default_config(c: Config) -> bool {
    &&& c.network.preferred_transport@ == "quic"@
    &&& c.network.allow_relay
    &&& c.network.stun_servers@.len() == 1
    &&& c.network.stun_servers@[0]@ == "stun.l.google.com:19302"@
    &&& c.network.relay_enabled
    &&& c.video.max_fps == 60
    &&& c.video.codec@ == "auto"@
    &&& c.video.resolution_width == 1920
    &&& c.video.resolution_height == 1080
    &&& c.video.max_bitrate == 8_000_000
    &&& c.security.require_pair
    &&& c.security.key_rotation_hours == 24
    &&& c.logging.level@ == "info"@
    &&& c.logging.filter_sensitive
}

impl Default for Config {
    /// QUIC preferred with relay allowed and one Google STUN server; 1080p at
    /// 60 fps, codec chosen automatically, 8 Mbit/s at most; pairing
    /// required, keys rotated daily; `info` logging with sensitive data
    /// filtered.
    fn default() -> (r: Self)
        ensures
            is_default_config(r),
    {
        let mut stun_servers: Vec<String> = Vec::new();
        stun_servers.push(to_string("stun.l.google.com:19302"));
        Config {
            network: NetworkConfig {
                preferred_transport: to_string("quic"),
                allow_relay: true,
                stun_servers,
                relay_enabled: true,
            },
            video: VideoConfig {
                max_fps: 60,
                codec: to_string("auto"),
                resolution_width: 1920,
                resolution_height: 1080,
                max_bitrate: 8_000_000,
            },
            security: SecurityConfig { require_pair: true, key_rotation_hours: 24 },
            logging: LoggingConfig { level: to_string("info"), filter_sensitive: true },
        }
    }
}

} // verus!
