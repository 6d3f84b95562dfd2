//! Capture-side state: privacy black screen, monitor selection, frame queue.
pub mod black_screen;
pub mod multi_monitor;
pub mod frame_queue;

pub use frame_queue::{FrameQueue, MAX_QUEUED_FRAMES};
