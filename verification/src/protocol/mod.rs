//! ATLS wire protocol: frame packets, input packets and their checksum.
pub mod crc;
pub mod packet;
pub mod frame;
pub mod hid;

pub use crc::crc32;
pub use packet::{ATLS_MAGIC, ATLS_VERSION, HEADER_SIZE, PacketType, FrameType};
pub use frame::{
    FramePacket, InputPacket, InputType, ProtocolError, has_enough_data_for_header, peek_payload_length,
    total_packet_size, now_ms, FULL_HEADER_SIZE, INPUT_HEADER_SIZE, INPUT_MAGIC, INPUT_VERSION,
    CODEC_SIZE, CRC_SIZE,
};
