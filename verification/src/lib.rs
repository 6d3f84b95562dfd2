//! AtlasRemote core library: wire protocol, pairing, session crypto and
//! the bookkeeping logic of the remote-desktop host, with verified contracts.

pub mod clock;
pub mod wire;
pub mod text;
pub mod keyed;
pub mod frame;
pub mod protocol;
pub mod abr;
pub mod capture;
pub mod crypto;
pub mod auth;
pub mod session;
pub mod device;
pub mod network;
pub mod file_transfer;
pub mod input;
pub mod config;
pub mod relay;
pub mod codec;
pub mod telemetry;
pub mod error;
