//! Packet kinds, frame codecs and header constants of the ATLS protocol.
use vstd::prelude::*;

verus! {

/// Packet kinds carried in the ATLS header.
#[derive(Debug, Clone, Copy, PartialEq, Eq, Structural, Hash)]
pub enum PacketType {
    Frame,
    Input,
    Control,
    PairRequest,
    PairResponse,
    Ping,
    Pong,
}

/// Wire code of each packet kind.
pub open spec fn packet_code(t: PacketType) -> u16 {
    match t {
        PacketType::Frame => 1,
        PacketType::Input => 2,
        PacketType::Control => 3,
        PacketType::PairRequest => 4,
        PacketType::PairResponse => 5,
        PacketType::Ping => 6,
        PacketType::Pong => 7,
    }
}

/// The packet kind with wire code `v`, if any.
pub open spec fn packet_from_code(v: u16) -> Option<PacketType> {
    if v == 1 {
        Some(PacketType::Frame)
    } else if v == 2 {
        Some(PacketType::Input)
    } else if v == 3 {
        Some(PacketType::Control)
    } else if v == 4 {
        Some(PacketType::PairRequest)
    } else if v == 5 {
        Some(PacketType::PairResponse)
    } else if v == 6 {
        Some(PacketType::Ping)
    } else if v == 7 {
        Some(PacketType::Pong)
    } else {
        None
    }
}

impl PacketType {
    pub fn from_u16(v: u16) -> (r: Option<Self>)
        ensures
            r == packet_from_code(v),
    {
        match v {
            1 => Some(PacketType::Frame),
            2 => Some(PacketType::Input),
            3 => Some(PacketType::Control),
            4 => Some(PacketType::PairRequest),
            5 => Some(PacketType::PairResponse),
            6 => Some(PacketType::Ping),
            7 => Some(PacketType::Pong),
            _ => None,
        }
    }

    pub fn to_u16(self) -> (r: u16)
        ensures
            r == packet_code(self),
    {
        match self {
            PacketType::Frame => 1,
            PacketType::Input => 2,
            PacketType::Control => 3,
            PacketType::PairRequest => 4,
            PacketType::PairResponse => 5,
            PacketType::Ping => 6,
            PacketType::Pong => 7,
        }
    }
}

/// Every packet kind is read back from its own wire code, and no other code
/// names it.
pub proof fn packet_code_roundtrip(t: PacketType, v: u16)
    ensures
        packet_from_code(packet_code(t)) == Some(t),
        packet_from_code(v) == Some(t) ==> v == packet_code(t),
{
}

pub const ATLS_MAGIC: [u8; 4] = [0x41, 0x54, 0x4C, 0x53];

pub const ATLS_VERSION: u16 = 1;

/// Bytes of the header before the codec and checksum fields:
/// magic(4) + version(2) + type(2) + length(4) + width(4) + height(4) + timestamp(4).
pub const HEADER_SIZE: usize = 24;

/// Frame codecs.
#[derive(Debug, Clone, Copy, PartialEq, Eq, Structural, Hash)]
pub enum FrameType {
    Bgra,
    H264,
    H265,
}

/// Code written for each frame codec.
pub open spec fn frame_type_code(t: FrameType) -> u16 {
    match t {
        FrameType::Bgra => 0,
        FrameType::H264 => 2,
        FrameType::H265 => 3,
    }
}

/// Codec read back from a code.
pub open spec fn frame_type_from_code(v: u16) -> Option<FrameType> {
    if v == 1 {
        Some(FrameType::Bgra)
    } else if v == 2 {
        Some(FrameType::H264)
    } else if v == 3 {
        Some(FrameType::H265)
    } else {
        None
    }
}

impl FrameType {
    pub fn from_u16(v: u16) -> (r: Option<Self>)
        ensures
            r == frame_type_from_code(v),
    {
        match v {
            1 => Some(FrameType::Bgra),
            2 => Some(FrameType::H264),
            3 => Some(FrameType::H265),
            _ => None,
        }
    }

    pub fn to_u16(self) -> (r: u16)
        ensures
            r == frame_type_code(self),
    {
        match self {
            FrameType::Bgra => 0,
            FrameType::H264 => 2,
            FrameType::H265 => 3,
        }
    }
}

/// The compressed codecs are read back from their own code.
pub proof fn frame_type_code_roundtrip(t: FrameType)
    requires
        t != FrameType::Bgra,
    ensures
        frame_type_from_code(frame_type_code(t)) == Some(t),
{
}

} // verus!
