//! Connection quality status as shown to the user.
use vstd::prelude::*;

verus! {

/// Connection quality status.
#[derive(Debug, Clone, Copy, PartialEq, Eq, Structural)]
pub enum ConnectionStatus {
    Disconnected,
    Connecting,
    Connected,
    /// High latency or packet loss.
    Degraded,
    /// Frequent quality changes.
    Unstable,
}

impl ConnectionStatus {
    /// The text shown for the status.
    pub fn label(&self) -> (r: &'static str)
        ensures
            r@ == match *self {
                ConnectionStatus::Disconnected => "Disconnected"@,
                ConnectionStatus::Connecting => "Connecting..."@,
                ConnectionStatus::Connected => "Connected"@,
                ConnectionStatus::Degraded => "Degraded"@,
                ConnectionStatus::Unstable => "Unstable"@,
            },
    {
        match self {
            ConnectionStatus::Disconnected => "Disconnected",
            ConnectionStatus::Connecting => "Connecting...",
            ConnectionStatus::Connected => "Connected",
            ConnectionStatus::Degraded => "Degraded",
            ConnectionStatus::Unstable => "Unstable",
        }
    }
}

} // verus!
