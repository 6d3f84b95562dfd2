//! QUIC transport settings.
use vstd::prelude::*;

verus! {

/// QUIC connection configuration.
#[derive(Debug, Clone, Copy)]
pub struct QuicConfig {
    /// Idle timeout, in seconds.
    pub max_idle_timeout_secs: u64,
    pub max_streams_bidi: u32,
    pub max_streams_uni: u32,
    pub initial_window: u64,
    pub max_window: u64,
}

impl Default for QuicConfig {
    /// 30 s idle timeout, 100 streams each way, 1 MiB initial and 10 MiB maximum window.
    fn default() -> (r: Self)
        ensures
            r.max_idle_timeout_secs == 30,
            r.max_streams_bidi == 100 && r.max_streams_uni == 100,
            r.initial_window == 1_048_576 && r.max_window == 10_485_760,
    {
        QuicConfig {
            max_idle_timeout_secs: 30,
            max_streams_bidi: 100,
            max_streams_uni: 100,
            initial_window: 1_048_576,
            max_window: 10_485_760,
        }
    }
}

/// QUIC client settings.
pub struct QuicClient {
    pub config: QuicConfig,
}

impl QuicClient {
    pub fn new(config: QuicConfig) -> (r: Self)
        ensures
            r.config == config,
    {
        QuicClient { config }
    }
}

} // verus!
