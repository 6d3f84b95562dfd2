//! Frame packets (video, keepalive) and input packets (mouse, keyboard, clipboard).
use vstd::prelude::*;
use vstd::string::StringSliceAdditionalSpecFns;
use crate::frame::PixelFormat;
use crate::protocol::crc::{crc32, spec_crc32};
use crate::protocol::packet::{
    frame_type_code, frame_type_from_code, FrameType, packet_code, packet_code_roundtrip, packet_from_code, PacketType, ATLS_VERSION, ATLS_MAGIC, HEADER_SIZE,
};
use crate::wire::{
    be16, be32, le16, le32, le64, from_be16, from_be32, from_le16, from_le64, push_be16, push_be32,
    push_le16, push_le32, push_le64, push_slice, copy_range, read_be16, read_be32, read_le16,
    read_le64, lemma_be16_roundtrip, lemma_be32_roundtrip, lemma_le16_roundtrip, lemma_le64_roundtrip,
};

verus! {

pub const CODEC_SIZE: usize = 2;

pub const CRC_SIZE: usize = 4;

/// Full frame header: HEADER_SIZE + codec(2) + crc(4).
pub const FULL_HEADER_SIZE: usize = 30;

/// Magic of input packets: "INPT".
pub const INPUT_MAGIC: [u8; 4] = [0x49, 0x4E, 0x50, 0x54];

pub const INPUT_VERSION: u8 = 1;

/// Input header: magic(4) + version(1) + type(1) + length(2) + timestamp(8).
pub const INPUT_HEADER_SIZE: usize = 16;

/// Largest payload a frame packet may carry.
pub const MAX_FRAME_PAYLOAD: u32 = 50_000_000;

/// Errors of frame packet construction and decoding.
#[derive(Debug)]
pub enum ProtocolError {
    HeaderTooShort { expected: usize, got: usize },
    MagicMismatch([u8; 4]),
    UnsupportedVersion(u16),
    InvalidPacketType(u16),
    CrcMismatch { expected: u32, actual: u32 },
    PayloadTooLarge(usize, usize),
    /// The byte stream ended before a full header could be read.
    Io,
    TruncatedPayload { expected: usize, got: usize },
}

pub open spec fn magic_bytes() -> Seq<u8> {
    seq![0x41u8, 0x54u8, 0x4Cu8, 0x53u8]
}

pub open spec fn magic_array(s: Seq<u8>) -> [u8; 4] {
    [s[0], s[1], s[2], s[3]]
}

} // verus!

verus! {

/// The 26 header bytes that precede the checksum: magic, version, type,
/// payload length, width, height, timestamp and codec, all big-endian.
pub open spec fn frame_header_bytes(
    version: u16,
    type_code: u16,
    payload_length: u32,
    width: u32,
    height: u32,
    timestamp: u32,
    codec: u16,
) -> Seq<u8> {
    magic_bytes() + be16(version) + be16(type_code) + be32(payload_length) + be32(width) + be32(
        height,
    ) + be32(timestamp) + be16(codec)
}

/// Header fields as read from a byte sequence of at least FULL_HEADER_SIZE bytes.
pub open spec fn dec_version(s: Seq<u8>) -> u16 {
    from_be16(s[4], s[5])
}

pub open spec fn dec_type_code(s: Seq<u8>) -> u16 {
    from_be16(s[6], s[7])
}

pub open spec fn dec_payload_length(s: Seq<u8>) -> u32 {
    from_be32(s[8], s[9], s[10], s[11])
}

pub open spec fn dec_width(s: Seq<u8>) -> u32 {
    from_be32(s[12], s[13], s[14], s[15])
}

pub open spec fn dec_height(s: Seq<u8>) -> u32 {
    from_be32(s[16], s[17], s[18], s[19])
}

pub open spec fn dec_timestamp(s: Seq<u8>) -> u32 {
    from_be32(s[20], s[21], s[22], s[23])
}

pub open spec fn dec_codec(s: Seq<u8>) -> u16 {
    from_be16(s[24], s[25])
}

pub open spec fn dec_crc(s: Seq<u8>) -> u32 {
    from_be32(s[26], s[27], s[28], s[29])
}

/// Number of bytes a frame packet with the header at the front of `s` occupies.
pub open spec fn dec_total(s: Seq<u8>) -> int {
    FULL_HEADER_SIZE + dec_payload_length(s)
}

/// The checksum the sender should have written for the packet at the front of `s`.
pub open spec fn dec_expected_crc(s: Seq<u8>) -> u32 {
    spec_crc32(
        frame_header_bytes(
            dec_version(s),
            dec_type_code(s),
            dec_payload_length(s),
            dec_width(s),
            dec_height(s),
            dec_timestamp(s),
            dec_codec(s),
        ) + s.subrange(FULL_HEADER_SIZE as int, dec_total(s)),
    )
}

/// The error decoding `s` as a frame packet yields, checked in order:
/// length, magic, version, packet type, payload length, checksum.
pub open spec fn frame_decode_error(s: Seq<u8>) -> Option<ProtocolError> {
    if s.len() < FULL_HEADER_SIZE {
        Some(ProtocolError::HeaderTooShort { expected: FULL_HEADER_SIZE, got: s.len() as usize })
    } else if s.subrange(0, 4) != magic_bytes() {
        Some(ProtocolError::MagicMismatch(magic_array(s)))
    } else if dec_version(s) != ATLS_VERSION {
        Some(ProtocolError::UnsupportedVersion(dec_version(s)))
    } else if packet_from_code(dec_type_code(s)) is None {
        Some(ProtocolError::InvalidPacketType(dec_type_code(s)))
    } else if s.len() < dec_total(s) {
        Some(
            ProtocolError::TruncatedPayload {
                expected: if dec_total(s) > usize::MAX { usize::MAX } else { dec_total(s) as usize },
                got: s.len() as usize,
            },
        )
    } else if dec_expected_crc(s) != dec_crc(s) {
        Some(ProtocolError::CrcMismatch { expected: dec_expected_crc(s), actual: dec_crc(s) })
    } else {
        None
    }
}

/// A frame packet of the ATLS protocol.
#[derive(Debug, Clone)]
pub struct FramePacket {
    pub version: u16,
    pub packet_type: PacketType,
    pub payload_length: u32,
    pub width: u32,
    pub height: u32,
    pub timestamp: u32,
    pub codec: u16,
    pub payload: Vec<u8>,
    pub crc: u32,
}

/// Codec number written for each pixel format.
pub open spec fn codec_of(f: PixelFormat) -> u16 {
    match f {
        PixelFormat::Bgra32 | PixelFormat::Rgba32 | PixelFormat::Rgb24 => 0,
        PixelFormat::H264 => 2,
        PixelFormat::H265 => 3,
        PixelFormat::Jpeg => 4,
    }
}

/// The codec field of a frame names the stream it carries, in the codes of
/// the frame-type table (`FrameType`): read back through that table, a
/// frame's field is H.264 exactly when its pixels are H.264 and H.265
/// exactly when they are H.265, and those two formats are written with the
/// table's own codes for them.
pub proof fn frame_codec_law(f: PixelFormat)
    ensures
        frame_type_from_code(codec_of(f)) == Some(FrameType::H264) <==> f == PixelFormat::H264,
        frame_type_from_code(codec_of(f)) == Some(FrameType::H265) <==> f == PixelFormat::H265,
        f == PixelFormat::H264 ==> codec_of(f) == frame_type_code(FrameType::H264),
        f == PixelFormat::H265 ==> codec_of(f) == frame_type_code(FrameType::H265),
{
}

impl FramePacket {
    /// The bytes the checksum covers: the header without the checksum, then the payload.
    pub open spec fn crc_input(&self) -> Seq<u8> {
        frame_header_bytes(
            self.version,
            packet_code(self.packet_type),
            self.payload_length,
            self.width,
            self.height,
            self.timestamp,
            self.codec,
        ) + self.payload@
    }

    /// The serialized packet: header, checksum, payload.
    pub open spec fn wire_bytes(&self) -> Seq<u8> {
        frame_header_bytes(
            self.version,
            packet_code(self.packet_type),
            self.payload_length,
            self.width,
            self.height,
            self.timestamp,
            self.codec,
        ) + be32(self.crc) + self.payload@
    }

    /// A packet whose version, length field and checksum agree with its contents.
    pub open spec fn well_formed(&self) -> bool {
        &&& self.version == ATLS_VERSION
        &&& self.payload_length == self.payload@.len()
        &&& self.crc == spec_crc32(self.crc_input())
    }

    /// `self` holds the fields decoded from `s`.
    pub open spec fn decoded_from(&self, s: Seq<u8>) -> bool {
        &&& self.version == dec_version(s)
        &&& packet_from_code(dec_type_code(s)) == Some(self.packet_type)
        &&& self.payload_length == dec_payload_length(s)
        &&& self.width == dec_width(s)
        &&& self.height == dec_height(s)
        &&& self.timestamp == dec_timestamp(s)
        &&& self.codec == dec_codec(s)
        &&& self.payload@ == s.subrange(FULL_HEADER_SIZE as int, dec_total(s))
        &&& self.crc == dec_crc(s)
    }

    pub fn total_size(&self) -> (r: usize)
        requires
            self.payload@.len() + FULL_HEADER_SIZE <= usize::MAX,
        ensures
            r == FULL_HEADER_SIZE + self.payload@.len(),
    {
        FULL_HEADER_SIZE + self.payload.len()
    }

    fn push_header(&self, buf: &mut Vec<u8>)
        ensures
            final(buf)@ == old(buf)@ + frame_header_bytes(
                self.version,
                packet_code(self.packet_type),
                self.payload_length,
                self.width,
                self.height,
                self.timestamp,
                self.codec,
            ),
    {
        let ghost start = buf@;
        buf.push(0x41u8);
        buf.push(0x54u8);
        buf.push(0x4Cu8);
        buf.push(0x53u8);
        assert(buf@ =~= start + magic_bytes());
        push_be16(buf, self.version);
        push_be16(buf, self.packet_type.to_u16());
        push_be32(buf, self.payload_length);
        push_be32(buf, self.width);
        push_be32(buf, self.height);
        push_be32(buf, self.timestamp);
        push_be16(buf, self.codec);
        assert(buf@ =~= start + frame_header_bytes(
            self.version,
            packet_code(self.packet_type),
            self.payload_length,
            self.width,
            self.height,
            self.timestamp,
            self.codec,
        ));
    }

    /// CRC-32 over the header fields (checksum excluded) and the payload.
    pub fn compute_crc(&self) -> (r: u32)
        ensures
            r == spec_crc32(self.crc_input()),
    {
        let mut buf: Vec<u8> = Vec::new();
        self.push_header(&mut buf);
        push_slice(&mut buf, self.payload.as_slice());
        assert(buf@ =~= self.crc_input());
        crc32(buf.as_slice())
    }

    pub fn validate_crc(&self) -> (r: bool)
        ensures
            r == (spec_crc32(self.crc_input()) == self.crc),
    {
        self.compute_crc() == self.crc
    }

    /// A video frame packet; the payload may hold at most 50 000 000 bytes
    /// (its length is taken modulo 2^32, as the length field holds 32 bits).
    pub fn new_frame(
        width: u32,
        height: u32,
        timestamp_ms: u32,
        pixel_format: PixelFormat,
        payload: Vec<u8>,
    ) -> (r: Result<Self, ProtocolError>)
        ensures
            (payload@.len() as u32) > MAX_FRAME_PAYLOAD <==> r is Err,
            r matches Err(e) ==> e == ProtocolError::PayloadTooLarge(
                (payload@.len() as u32) as usize,
                MAX_FRAME_PAYLOAD as usize,
            ),
            r matches Ok(p) ==> {
                &&& p.version == ATLS_VERSION
                &&& p.packet_type == PacketType::Frame
                &&& p.payload_length == payload@.len() as u32
                &&& p.width == width
                &&& p.height == height
                &&& p.timestamp == timestamp_ms
                &&& p.codec == codec_of(pixel_format)
                &&& p.payload@ == payload@
                &&& p.crc == spec_crc32(p.crc_input())
            },
    {
        #[verifier::truncate]
        let payload_length = payload.len() as u32;
        if payload_length > MAX_FRAME_PAYLOAD {
            return Err(ProtocolError::PayloadTooLarge(payload_length as usize, MAX_FRAME_PAYLOAD as usize));
        }
        let codec: u16 = match pixel_format {
            PixelFormat::Bgra32 | PixelFormat::Rgba32 | PixelFormat::Rgb24 => 0u16,
            PixelFormat::H264 => 2,
            PixelFormat::H265 => 3,
            PixelFormat::Jpeg => 4,
        };
        let mut p = FramePacket {
            version: ATLS_VERSION,
            packet_type: PacketType::Frame,
            payload_length,
            width,
            height,
            timestamp: timestamp_ms,
            codec,
            payload,
            crc: 0,
        };
        let crc = p.compute_crc();
        p.crc = crc;
        Ok(p)
    }

    /// A keepalive request with no payload.
    pub fn new_ping() -> (p: Self)
        ensures
            p.version == ATLS_VERSION,
            p.packet_type == PacketType::Ping,
            p.payload_length == 0,
            p.width == 0 && p.height == 0 && p.timestamp == 0 && p.codec == 0,
            p.payload@.len() == 0,
            p.crc == spec_crc32(p.crc_input()),
    {
        let mut p = FramePacket {
            version: ATLS_VERSION,
            packet_type: PacketType::Ping,
            payload_length: 0,
            width: 0,
            height: 0,
            timestamp: 0,
            codec: 0,
            payload: Vec::new(),
            crc: 0,
        };
        let crc = p.compute_crc();
        p.crc = crc;
        p
    }

    /// A keepalive answer echoing `timestamp_ms`, also as a 4-byte big-endian payload.
    pub fn new_pong(timestamp_ms: u32) -> (p: Self)
        ensures
            p.version == ATLS_VERSION,
            p.packet_type == PacketType::Pong,
            p.payload_length == 4,
            p.width == 0 && p.height == 0 && p.codec == 0,
            p.timestamp == timestamp_ms,
            p.payload@ == be32(timestamp_ms),
            p.crc == spec_crc32(p.crc_input()),
    {
        let mut payload: Vec<u8> = Vec::new();
        push_be32(&mut payload, timestamp_ms);
        assert(payload@ =~= be32(timestamp_ms));
        let mut p = FramePacket {
            version: ATLS_VERSION,
            packet_type: PacketType::Pong,
            payload_length: 4,
            width: 0,
            height: 0,
            timestamp: timestamp_ms,
            codec: 0,
            payload,
            crc: 0,
        };
        let crc = p.compute_crc();
        p.crc = crc;
        p
    }

    /// Header, checksum and payload, as sent on the wire.
    pub fn serialize(&self) -> (r: Vec<u8>)
        ensures
            r@ == self.wire_bytes(),
    {
        let mut buf: Vec<u8> = Vec::new();
        self.push_header(&mut buf);
        push_be32(&mut buf, self.crc);
        push_slice(&mut buf, self.payload.as_slice());
        assert(buf@ =~= self.wire_bytes());
        buf
    }

    /// Appends the serialized packet to `writer`.
    pub fn write_to(&self, writer: &mut Vec<u8>) -> (r: Result<(), ProtocolError>)
        ensures
            r is Ok,
            final(writer)@ == old(writer)@ + self.wire_bytes(),
    {
        let bytes = self.serialize();
        push_slice(writer, bytes.as_slice());
        Ok(())
    }

    /// Decodes the frame packet at the front of `bytes`, returning it and the
    /// number of bytes it occupies.
    pub fn deserialize(bytes: &[u8]) -> (r: Result<(FramePacket, usize), ProtocolError>)
        ensures
            r is Err <==> frame_decode_error(bytes@) is Some,
            r matches Err(e) ==> frame_decode_error(bytes@) == Some(e),
            r matches Ok((p, n)) ==> p.decoded_from(bytes@) && n == dec_total(bytes@),
    {
        let s = Ghost(bytes@);
        if bytes.len() < FULL_HEADER_SIZE {
            return Err(ProtocolError::HeaderTooShort { expected: FULL_HEADER_SIZE, got: bytes.len() });
        }
        let magic: [u8; 4] = [bytes[0], bytes[1], bytes[2], bytes[3]];
        if !(bytes[0] == 0x41u8 && bytes[1] == 0x54u8 && bytes[2] == 0x4Cu8 && bytes[3] == 0x53u8) {
            proof {
                assert(bytes@.subrange(0, 4) != magic_bytes()) by {
                    if bytes@.subrange(0, 4) == magic_bytes() {
                        assert(bytes@.subrange(0, 4)[0] == bytes@[0]);
                        assert(bytes@.subrange(0, 4)[1] == bytes@[1]);
                        assert(bytes@.subrange(0, 4)[2] == bytes@[2]);
                        assert(bytes@.subrange(0, 4)[3] == bytes@[3]);
                    }
                }
            }
            return Err(ProtocolError::MagicMismatch(magic));
        }
        assert(bytes@.subrange(0, 4) =~= magic_bytes());
        let version = read_be16(bytes, 4);
        if version != ATLS_VERSION {
            return Err(ProtocolError::UnsupportedVersion(version));
        }
        let type_code = read_be16(bytes, 6);
        let packet_type = match PacketType::from_u16(type_code) {
            Some(t) => t,
            None => {
                return Err(ProtocolError::InvalidPacketType(type_code));
            },
        };
        let payload_length = read_be32(bytes, 8);
        let width = read_be32(bytes, 12);
        let height = read_be32(bytes, 16);
        let timestamp = read_be32(bytes, 20);
        let codec = read_be16(bytes, 24);
        let crc = read_be32(bytes, 26);
        if bytes.len() - FULL_HEADER_SIZE < payload_length as usize {
            let expected = if payload_length as usize > usize::MAX - FULL_HEADER_SIZE {
                usize::MAX
            } else {
                FULL_HEADER_SIZE + payload_length as usize
            };
            return Err(ProtocolError::TruncatedPayload { expected, got: bytes.len() });
        }
        let total = FULL_HEADER_SIZE + payload_length as usize;
        let payload = copy_range(bytes, FULL_HEADER_SIZE, total);
        let tmp = FramePacket {
            version,
            packet_type,
            payload_length,
            width,
            height,
            timestamp,
            codec,
            payload,
            crc: 0,
        };
        let expected_crc = tmp.compute_crc();
        proof {
            packet_code_roundtrip(packet_type, type_code);
        }
        if expected_crc != crc {
            return Err(ProtocolError::CrcMismatch { expected: expected_crc, actual: crc });
        }
        let mut p = tmp;
        p.crc = crc;
        Ok((p, total))
    }

    /// Reads a packet from a byte stream: a full header, then, when the header
    /// announces a payload, every remaining byte of the stream as the payload.
    /// Only the packet type and the checksum are checked.
    pub fn read_from(reader: &[u8]) -> (r: Result<FramePacket, ProtocolError>)
        ensures
            reader@.len() < FULL_HEADER_SIZE ==> r == Err::<FramePacket, ProtocolError>(ProtocolError::Io),
            reader@.len() >= FULL_HEADER_SIZE ==> {
                let s = reader@;
                let payload = if dec_payload_length(s) > 0 {
                    s.subrange(FULL_HEADER_SIZE as int, s.len() as int)
                } else {
                    Seq::<u8>::empty()
                };
                let expected = spec_crc32(
                    frame_header_bytes(
                        dec_version(s),
                        dec_type_code(s),
                        dec_payload_length(s),
                        dec_width(s),
                        dec_height(s),
                        dec_timestamp(s),
                        dec_codec(s),
                    ) + payload,
                );
                &&& packet_from_code(dec_type_code(s)) is None ==> r
                    == Err::<FramePacket, ProtocolError>(ProtocolError::InvalidPacketType(dec_type_code(s)))
                &&& packet_from_code(dec_type_code(s)) is Some && expected != dec_crc(s) ==> r
                    == Err::<FramePacket, ProtocolError>(ProtocolError::CrcMismatch { expected, actual: dec_crc(s) })
                &&& packet_from_code(dec_type_code(s)) is Some && expected == dec_crc(s) ==> (r matches Ok(p) && {
                    &&& p.version == dec_version(s)
                    &&& packet_from_code(dec_type_code(s)) == Some(p.packet_type)
                    &&& p.payload_length == dec_payload_length(s)
                    &&& p.width == dec_width(s)
                    &&& p.height == dec_height(s)
                    &&& p.timestamp == dec_timestamp(s)
                    &&& p.codec == dec_codec(s)
                    &&& p.payload@ == payload
                    &&& p.crc == dec_crc(s)
                })
            },
    {
        if reader.len() < FULL_HEADER_SIZE {
            return Err(ProtocolError::Io);
        }
        let payload_length = read_be32(reader, 8);
        let payload = if payload_length > 0 {
            copy_range(reader, FULL_HEADER_SIZE, reader.len())
        } else {
            Vec::new()
        };
        let type_code = read_be16(reader, 6);
        let packet_type = match PacketType::from_u16(type_code) {
            Some(t) => t,
            None => {
                return Err(ProtocolError::InvalidPacketType(type_code));
            },
        };
        proof {
            packet_code_roundtrip(packet_type, type_code);
        }
        let tmp = FramePacket {
            version: read_be16(reader, 4),
            packet_type,
            payload_length,
            width: read_be32(reader, 12),
            height: read_be32(reader, 16),
            timestamp: read_be32(reader, 20),
            codec: read_be16(reader, 24),
            payload,
            crc: read_be32(reader, 26),
        };
        let expected_crc = tmp.compute_crc();
        if expected_crc != tmp.crc {
            return Err(ProtocolError::CrcMismatch { expected: expected_crc, actual: tmp.crc });
        }
        Ok(tmp)
    }
}

/// Serializing a well-formed frame packet and decoding the bytes gives back the
/// same fields and consumes exactly the serialized bytes.
pub proof fn frame_packet_roundtrip(p: FramePacket)
    requires
        p.well_formed(),
    ensures
        frame_decode_error(p.wire_bytes()) is None,
        p.decoded_from(p.wire_bytes()),
        dec_total(p.wire_bytes()) == p.wire_bytes().len(),
{
    let s = p.wire_bytes();
    let h = frame_header_bytes(
        p.version,
        packet_code(p.packet_type),
        p.payload_length,
        p.width,
        p.height,
        p.timestamp,
        p.codec,
    );
    lemma_be16_roundtrip(p.version);
    lemma_be16_roundtrip(packet_code(p.packet_type));
    lemma_be32_roundtrip(p.payload_length);
    lemma_be32_roundtrip(p.width);
    lemma_be32_roundtrip(p.height);
    lemma_be32_roundtrip(p.timestamp);
    lemma_be16_roundtrip(p.codec);
    lemma_be32_roundtrip(p.crc);
    assert(h.len() == 26);
    assert(s[4] == be16(p.version)[0] && s[5] == be16(p.version)[1]);
    assert(s[6] == be16(packet_code(p.packet_type))[0] && s[7] == be16(packet_code(p.packet_type))[1]);
    assert(s[8] == be32(p.payload_length)[0] && s[9] == be32(p.payload_length)[1]);
    assert(s[10] == be32(p.payload_length)[2] && s[11] == be32(p.payload_length)[3]);
    assert(s[12] == be32(p.width)[0] && s[13] == be32(p.width)[1]);
    assert(s[14] == be32(p.width)[2] && s[15] == be32(p.width)[3]);
    assert(s[16] == be32(p.height)[0] && s[17] == be32(p.height)[1]);
    assert(s[18] == be32(p.height)[2] && s[19] == be32(p.height)[3]);
    assert(s[20] == be32(p.timestamp)[0] && s[21] == be32(p.timestamp)[1]);
    assert(s[22] == be32(p.timestamp)[2] && s[23] == be32(p.timestamp)[3]);
    assert(s[24] == be16(p.codec)[0] && s[25] == be16(p.codec)[1]);
    assert(s[26] == be32(p.crc)[0] && s[27] == be32(p.crc)[1]);
    assert(s[28] == be32(p.crc)[2] && s[29] == be32(p.crc)[3]);
    assert(s.subrange(0, 4) =~= magic_bytes());
    packet_code_roundtrip(p.packet_type, 0);
    assert(s.subrange(FULL_HEADER_SIZE as int, dec_total(s)) =~= p.payload@);
}

pub open spec fn is_valid_header_len(len: nat) -> bool {
    len >= FULL_HEADER_SIZE
}

pub fn has_enough_data_for_header(buf: &[u8]) -> (r: bool)
    ensures
        r == (buf@.len() >= FULL_HEADER_SIZE),
{
    buf.len() >= FULL_HEADER_SIZE
}

/// The payload length announced by the frame header at the front of `buf`.
pub fn peek_payload_length(buf: &[u8]) -> (r: Option<usize>)
    ensures
        buf@.len() < FULL_HEADER_SIZE ==> r is None,
        buf@.len() >= FULL_HEADER_SIZE ==> r == Some(dec_payload_length(buf@) as usize),
{
    if buf.len() < FULL_HEADER_SIZE {
        return None;
    }
    Some(read_be32(buf, 8) as usize)
}

pub fn total_packet_size(payload_len: usize) -> (r: usize)
    requires
        payload_len + FULL_HEADER_SIZE <= usize::MAX,
    ensures
        r == FULL_HEADER_SIZE + payload_len,
{
    FULL_HEADER_SIZE + payload_len
}

/// Milliseconds since the Unix epoch (0 if the clock reads before it).
pub fn now_ms() -> u64 {
    crate::clock::now_ms()
}

} // verus!

verus! {

/// Kinds of input events.
#[derive(Debug, Clone, Copy, PartialEq, Eq, Structural, Hash)]
pub enum InputType {
    MouseMove,
    MouseButton,
    MouseWheel,
    KeyPress,
    Clipboard,
}

/// Wire code of each input kind.
pub open spec fn input_code(t: InputType) -> u8 {
    match t {
        InputType::MouseMove => 0x01,
        InputType::MouseButton => 0x02,
        InputType::MouseWheel => 0x03,
        InputType::KeyPress => 0x04,
        InputType::Clipboard => 0x05,
    }
}

/// The input kind with wire code `v`, if any.
pub open spec fn input_from_code(v: u8) -> Option<InputType> {
    if v == 0x01 {
        Some(InputType::MouseMove)
    } else if v == 0x02 {
        Some(InputType::MouseButton)
    } else if v == 0x03 {
        Some(InputType::MouseWheel)
    } else if v == 0x04 {
        Some(InputType::KeyPress)
    } else if v == 0x05 {
        Some(InputType::Clipboard)
    } else {
        None
    }
}

impl InputType {
    pub fn from_u8(v: u8) -> (r: Option<Self>)
        ensures
            r == input_from_code(v),
    {
        match v {
            0x01 => Some(InputType::MouseMove),
            0x02 => Some(InputType::MouseButton),
            0x03 => Some(InputType::MouseWheel),
            0x04 => Some(InputType::KeyPress),
            0x05 => Some(InputType::Clipboard),
            _ => None,
        }
    }

    pub fn to_u8(self) -> (r: u8)
        ensures
            r == input_code(self),
    {
        match self {
            InputType::MouseMove => 0x01,
            InputType::MouseButton => 0x02,
            InputType::MouseWheel => 0x03,
            InputType::KeyPress => 0x04,
            InputType::Clipboard => 0x05,
        }
    }
}

/// Every input kind is read back from its own wire code, and no other code names it.
pub proof fn input_code_roundtrip(t: InputType, v: u8)
    ensures
        input_from_code(input_code(t)) == Some(t),
        input_from_code(v) == Some(t) ==> v == input_code(t),
{
}

/// An input event packet.
#[derive(Debug, Clone)]
pub struct InputPacket {
    pub version: u8,
    pub input_type: InputType,
    pub timestamp_ms: u64,
    pub payload: Vec<u8>,
}

pub open spec fn input_magic_bytes() -> Seq<u8> {
    seq![0x49u8, 0x4Eu8, 0x50u8, 0x54u8]
}

/// The flag byte for a press (1) or release (0).
pub open spec fn flag_byte(down: bool) -> u8 {
    if down {
        1
    } else {
        0
    }
}

/// Input header fields as read from at least INPUT_HEADER_SIZE bytes.
pub open spec fn dec_input_length(s: Seq<u8>) -> u16 {
    from_le16(s[6], s[7])
}

pub open spec fn dec_input_timestamp(s: Seq<u8>) -> u64 {
    from_le64(s.subrange(8, 16))
}

/// Whether `s` starts with a complete input packet.
pub open spec fn input_decodes(s: Seq<u8>) -> bool {
    &&& s.len() >= INPUT_HEADER_SIZE
    &&& s.subrange(0, 4) == input_magic_bytes()
    &&& input_from_code(s[5]) is Some
    &&& s.len() >= INPUT_HEADER_SIZE + dec_input_length(s)
}

impl InputPacket {
    /// The serialized packet: magic, version, kind, payload length (16-bit,
    /// little-endian, taken modulo 2^16), timestamp (64-bit little-endian), payload.
    pub open spec fn wire_bytes(&self) -> Seq<u8> {
        input_magic_bytes() + seq![self.version, input_code(self.input_type)] + le16(
            (self.payload@.len() as u16),
        ) + le64(self.timestamp_ms) + self.payload@
    }

    /// `self` holds the packet decoded from the front of `s`.
    pub open spec fn decoded_from(&self, s: Seq<u8>) -> bool {
        &&& self.version == s[4]
        &&& input_from_code(s[5]) == Some(self.input_type)
        &&& self.timestamp_ms == dec_input_timestamp(s)
        &&& self.payload@ == s.subrange(INPUT_HEADER_SIZE as int, INPUT_HEADER_SIZE + dec_input_length(s))
    }

    /// Mouse move to the absolute position whose coordinates have the IEEE-754
    /// bit patterns `x_bits` and `y_bits`; the payload is both, little-endian.
    pub fn mouse_move_bits(x_bits: u32, y_bits: u32, timestamp_ms: u64) -> (p: Self)
        ensures
            p.version == INPUT_VERSION,
            p.input_type == InputType::MouseMove,
            p.timestamp_ms == timestamp_ms,
            p.payload@ == le32(x_bits) + le32(y_bits),
    {
        let mut payload: Vec<u8> = Vec::with_capacity(8);
        push_le32(&mut payload, x_bits);
        push_le32(&mut payload, y_bits);
        assert(payload@ =~= le32(x_bits) + le32(y_bits));
        InputPacket { version: INPUT_VERSION, input_type: InputType::MouseMove, timestamp_ms, payload }
    }

    pub fn mouse_button(button: u8, down: bool, timestamp_ms: u64) -> (p: Self)
        ensures
            p.version == INPUT_VERSION,
            p.input_type == InputType::MouseButton,
            p.timestamp_ms == timestamp_ms,
            p.payload@ == seq![button, flag_byte(down)],
    {
        let mut payload: Vec<u8> = Vec::with_capacity(2);
        payload.push(button);
        payload.push(if down { 1 } else { 0 });
        assert(payload@ =~= seq![button, flag_byte(down)]);
        InputPacket { version: INPUT_VERSION, input_type: InputType::MouseButton, timestamp_ms, payload }
    }

    /// Wheel scroll by `delta` clicks; the payload is `delta` in two's
    /// complement, little-endian.
    pub fn mouse_wheel(delta: i32, timestamp_ms: u64) -> (p: Self)
        ensures
            p.version == INPUT_VERSION,
            p.input_type == InputType::MouseWheel,
            p.timestamp_ms == timestamp_ms,
            p.payload@ == le32(delta as u32),
    {
        let mut payload: Vec<u8> = Vec::with_capacity(4);
        #[verifier::truncate]
        let bits = delta as u32;
        push_le32(&mut payload, bits);
        assert(payload@ =~= le32(delta as u32));
        InputPacket { version: INPUT_VERSION, input_type: InputType::MouseWheel, timestamp_ms, payload }
    }

    pub fn key_press(hid_code: u16, down: bool, timestamp_ms: u64) -> (p: Self)
        ensures
            p.version == INPUT_VERSION,
            p.input_type == InputType::KeyPress,
            p.timestamp_ms == timestamp_ms,
            p.payload@ == le16(hid_code) + seq![flag_byte(down)],
    {
        let mut payload: Vec<u8> = Vec::with_capacity(3);
        push_le16(&mut payload, hid_code);
        payload.push(if down { 1 } else { 0 });
        assert(payload@ =~= le16(hid_code) + seq![flag_byte(down)]);
        InputPacket { version: INPUT_VERSION, input_type: InputType::KeyPress, timestamp_ms, payload }
    }

    /// Clipboard text; the payload is its UTF-8 encoding.
    pub fn clipboard(text: &str, timestamp_ms: u64) -> (p: Self)
        ensures
            p.version == INPUT_VERSION,
            p.input_type == InputType::Clipboard,
            p.timestamp_ms == timestamp_ms,
            p.payload@ == text.spec_bytes(),
    {
        let mut payload: Vec<u8> = Vec::new();
        push_slice(&mut payload, text.as_bytes());
        InputPacket { version: INPUT_VERSION, input_type: InputType::Clipboard, timestamp_ms, payload }
    }

    pub fn serialize(&self) -> (r: Vec<u8>)
        ensures
            r@ == self.wire_bytes(),
    {
        let mut buf: Vec<u8> = Vec::new();
        buf.push(0x49u8);
        buf.push(0x4Eu8);
        buf.push(0x50u8);
        buf.push(0x54u8);
        buf.push(self.version);
        buf.push(self.input_type.to_u8());
        #[verifier::truncate]
        let len16 = self.payload.len() as u16;
        push_le16(&mut buf, len16);
        push_le64(&mut buf, self.timestamp_ms);
        push_slice(&mut buf, self.payload.as_slice());
        assert(buf@ =~= self.wire_bytes());
        buf
    }

    /// Decodes the input packet at the front of `bytes`, returning it and the
    /// number of bytes it occupies; `None` when the bytes are too short, the
    /// magic differs, or the kind is unknown.
    pub fn deserialize(bytes: &[u8]) -> (r: Option<(InputPacket, usize)>)
        ensures
            r is Some <==> input_decodes(bytes@),
            r matches Some((p, n)) ==> p.decoded_from(bytes@) && n == INPUT_HEADER_SIZE
                + dec_input_length(bytes@),
    {
        if bytes.len() < INPUT_HEADER_SIZE {
            return None;
        }
        if !(bytes[0] == 0x49u8 && bytes[1] == 0x4Eu8 && bytes[2] == 0x50u8 && bytes[3] == 0x54u8) {
            proof {
                if bytes@.subrange(0, 4) == input_magic_bytes() {
                    assert(bytes@.subrange(0, 4)[0] == bytes@[0]);
                    assert(bytes@.subrange(0, 4)[1] == bytes@[1]);
                    assert(bytes@.subrange(0, 4)[2] == bytes@[2]);
                    assert(bytes@.subrange(0, 4)[3] == bytes@[3]);
                }
            }
            return None;
        }
        assert(bytes@.subrange(0, 4) =~= input_magic_bytes());
        let version = bytes[4];
        let input_type = match InputType::from_u8(bytes[5]) {
            Some(t) => t,
            None => {
                return None;
            },
        };
        let length = read_le16(bytes, 6) as usize;
        let timestamp_ms = read_le64(bytes, 8);
        if bytes.len() - INPUT_HEADER_SIZE < length {
            return None;
        }
        let payload = copy_range(bytes, INPUT_HEADER_SIZE, INPUT_HEADER_SIZE + length);
        Some((InputPacket { version, input_type, timestamp_ms, payload }, INPUT_HEADER_SIZE + length))
    }
}

/// Serializing an input packet whose payload fits the 16-bit length field and
/// decoding the bytes gives back the same packet and consumes every byte.
pub proof fn input_packet_roundtrip(p: InputPacket)
    requires
        p.payload@.len() <= 0xFFFF,
    ensures
        input_decodes(p.wire_bytes()),
        p.decoded_from(p.wire_bytes()),
        INPUT_HEADER_SIZE + dec_input_length(p.wire_bytes()) == p.wire_bytes().len(),
{
    let s = p.wire_bytes();
    let len16 = p.payload@.len() as u16;
    lemma_le16_roundtrip(len16);
    lemma_le64_roundtrip(p.timestamp_ms);
    input_code_roundtrip(p.input_type, 0);
    assert(s[6] == le16(len16)[0] && s[7] == le16(len16)[1]);
    assert(s.subrange(8, 16) =~= le64(p.timestamp_ms));
    assert(s.subrange(0, 4) =~= input_magic_bytes());
    assert(s.subrange(INPUT_HEADER_SIZE as int, INPUT_HEADER_SIZE + dec_input_length(s)) =~= p.payload@);
}

} // verus!
