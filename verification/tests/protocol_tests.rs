use atlas_remote::frame::PixelFormat;
use atlas_remote::protocol::hid;
use atlas_remote::protocol::{
    crc32, has_enough_data_for_header, peek_payload_length, total_packet_size, FramePacket, InputPacket,
    InputType, PacketType, ProtocolError, ATLS_MAGIC, ATLS_VERSION, FULL_HEADER_SIZE, HEADER_SIZE,
    INPUT_HEADER_SIZE, INPUT_MAGIC, INPUT_VERSION,
};

#[test]
fn test_minimal_frame_serialize() {
    let packet = FramePacket::new_frame(1, 1, 0, PixelFormat::Bgra32, vec![]).unwrap();
    let bytes = packet.serialize();
    assert_eq!(&bytes[0..4], &ATLS_MAGIC);
    assert_eq!(u16::from_be_bytes([bytes[4], bytes[5]]), ATLS_VERSION);
    assert_eq!(u16::from_be_bytes([bytes[6], bytes[7]]), PacketType::Frame.to_u16());
    assert_eq!(u32::from_be_bytes([bytes[8], bytes[9], bytes[10], bytes[11]]), 0);
    assert_eq!(u32::from_be_bytes([bytes[12], bytes[13], bytes[14], bytes[15]]), 1);
    assert_eq!(u32::from_be_bytes([bytes[16], bytes[17], bytes[18], bytes[19]]), 1);
    assert_eq!(u32::from_be_bytes([bytes[20], bytes[21], bytes[22], bytes[23]]), 0);
    assert_eq!(bytes.len(), FULL_HEADER_SIZE);
}

#[test]
fn test_full_frame_roundtrip() {
    let data = vec![0u8; 1920 * 1080 * 4];
    let packet = FramePacket::new_frame(1920, 1080, 1700000000, PixelFormat::Bgra32, data.clone()).unwrap();
    let bytes = packet.serialize();
    let (decoded, consumed) = FramePacket::deserialize(&bytes).unwrap();
    assert_eq!(consumed, bytes.len());
    assert_eq!(decoded.width, 1920);
    assert_eq!(decoded.height, 1080);
    assert_eq!(decoded.timestamp, 1700000000);
    assert_eq!(decoded.payload, data);
}

#[test]
fn test_h264_payload() {
    let h264_data = vec![
        0x00, 0x00, 0x00, 0x01, 0x67, 0x42, 0x00, 0x28, 0x00, 0x00, 0x00, 0x01, 0x68, 0xce, 0x3c, 0x80, 0x00,
        0x00, 0x00, 0x01, 0x61,
    ];
    let packet = FramePacket::new_frame(1920, 1080, 42, PixelFormat::H264, h264_data.clone()).unwrap();
    let bytes = packet.serialize();
    let (decoded, _) = FramePacket::deserialize(&bytes).unwrap();
    assert_eq!(decoded.payload, h264_data);
    assert_eq!(decoded.packet_type, PacketType::Frame);
}

#[test]
fn test_all_packet_types_roundtrip() {
    let types = [
        PacketType::Frame,
        PacketType::Input,
        PacketType::Control,
        PacketType::PairRequest,
        PacketType::PairResponse,
        PacketType::Ping,
        PacketType::Pong,
    ];
    for t in types {
        let payload = match t {
            PacketType::Ping => vec![],
            PacketType::Pong => 12345u32.to_be_bytes().to_vec(),
            _ => vec![0x01, 0x02, 0x03],
        };
        let wh = if matches!(t, PacketType::Frame) { (1920u32, 1080u32) } else { (0, 0) };
        let packet = FramePacket {
            version: ATLS_VERSION,
            packet_type: t,
            payload_length: payload.len() as u32,
            width: wh.0,
            height: wh.1,
            timestamp: 0,
            codec: 0,
            payload: payload.clone(),
            crc: 0,
        };
        let crc = packet.compute_crc();
        let bytes = FramePacket { crc, ..packet }.serialize();
        let (decoded, _) = FramePacket::deserialize(&bytes).unwrap();
        assert_eq!(decoded.packet_type, t, "type {:?}", t);
    }
}

#[test]
fn test_crc_validates_correctly() {
    let packet = FramePacket::new_frame(640, 480, 0, PixelFormat::Bgra32, vec![1, 2, 3]).unwrap();
    assert!(packet.validate_crc());
    let mut bytes = packet.serialize();
    bytes[26] ^= 0x01;
    let result = FramePacket::deserialize(&bytes);
    assert!(result.is_err());
}

#[test]
fn test_crc_alone_matches() {
    let payload = vec![0xAB, 0xCD, 0xEF];
    let packet = FramePacket::new_frame(1, 1, 0, PixelFormat::Bgra32, payload).unwrap();
    assert_eq!(packet.crc, packet.compute_crc());
}

#[test]
fn test_too_short_header() {
    assert!(FramePacket::deserialize(&[]).is_err());
    assert!(FramePacket::deserialize(&[0x41, 0x54, 0x4C]).is_err());
    assert!(FramePacket::deserialize(&[0x41, 0x54, 0x4C, 0x53]).is_err());
}

#[test]
fn test_magic_wrong() {
    let packet = FramePacket::new_frame(1, 1, 0, PixelFormat::Bgra32, vec![]).unwrap();
    let mut bytes = packet.serialize();
    bytes[0] = 0x00;
    assert!(FramePacket::deserialize(&bytes).is_err());
}

#[test]
fn test_payload_truncated() {
    let packet = FramePacket::new_frame(1, 1, 0, PixelFormat::Bgra32, vec![1, 2, 3, 4, 5]).unwrap();
    let bytes = packet.serialize();
    let truncated = &bytes[..bytes.len() - 3];
    assert!(FramePacket::deserialize(truncated).is_err());
}

#[test]
fn test_payload_too_large() {
    let huge = vec![0u8; 50_000_001];
    assert!(FramePacket::new_frame(1, 1, 0, PixelFormat::Bgra32, huge).is_err());
}

#[test]
fn test_version_mismatch() {
    let packet = FramePacket::new_frame(1, 1, 0, PixelFormat::Bgra32, vec![1]).unwrap();
    let mut bytes = packet.serialize();
    bytes[4] = 99;
    assert!(FramePacket::deserialize(&bytes).is_err());
}

#[test]
fn test_stream_read_write() {
    let packet = FramePacket::new_frame(320, 240, 555, PixelFormat::Bgra32, vec![0x1, 0x2]).unwrap();
    let mut buf = Vec::new();
    packet.write_to(&mut buf).unwrap();
    let decoded = FramePacket::read_from(&buf).unwrap();
    assert_eq!(decoded.width, 320);
    assert_eq!(decoded.height, 240);
    assert_eq!(decoded.payload, vec![0x1, 0x2]);
}

#[test]
fn test_peek_payload_length() {
    let packet = FramePacket::new_frame(1920, 1080, 0, PixelFormat::H264, vec![0u8; 1000]).unwrap();
    let bytes = packet.serialize();
    assert_eq!(peek_payload_length(&bytes), Some(1000));
    assert_eq!(peek_payload_length(&bytes[..20]), None);
}

#[test]
fn test_total_packet_size() {
    assert_eq!(total_packet_size(0), FULL_HEADER_SIZE);
    assert_eq!(total_packet_size(500), FULL_HEADER_SIZE + 500);
    assert_eq!(total_packet_size(1_000_000), FULL_HEADER_SIZE + 1_000_000);
}

#[test]
fn test_has_enough_data() {
    assert!(!has_enough_data_for_header(&[1, 2, 3]));
    assert!(!has_enough_data_for_header(&[1; 24]));
    assert!(has_enough_data_for_header(&[1; 30]));
    assert!(has_enough_data_for_header(&[1; 100]));
}

#[test]
fn test_frame_roundtrip() {
    let packet = FramePacket::new_frame(640, 480, 12345, PixelFormat::Bgra32, vec![1, 2, 3]).unwrap();
    let bytes = packet.serialize();
    let (decoded, _) = FramePacket::deserialize(&bytes).unwrap();
    assert_eq!(decoded.width, 640);
    assert_eq!(decoded.height, 480);
    assert_eq!(decoded.payload, vec![1, 2, 3]);
}

#[test]
fn test_input_packet_mouse_move() {
    let p = InputPacket::mouse_move_bits(0.5f32.to_bits(), 0.3f32.to_bits(), 12345678);
    let bytes = p.serialize();
    assert_eq!(bytes.len(), INPUT_HEADER_SIZE + 8);
    assert_eq!(&bytes[0..4], &INPUT_MAGIC);
    assert_eq!(bytes[4], INPUT_VERSION);
    assert_eq!(bytes[5], InputType::MouseMove.to_u8());
    let (decoded, _) = InputPacket::deserialize(&bytes).unwrap();
    assert_eq!(decoded.input_type, InputType::MouseMove);
}

#[test]
fn test_input_packet_key() {
    let p = InputPacket::key_press(hid::KEY_A, true, 100);
    assert_eq!(p.serialize().len(), INPUT_HEADER_SIZE + 3);
    let (decoded, _) = InputPacket::deserialize(&p.serialize()).unwrap();
    assert_eq!(decoded.input_type, InputType::KeyPress);
    assert_eq!(u16::from_le_bytes([decoded.payload[0], decoded.payload[1]]), hid::KEY_A);
}

#[test]
fn test_input_deserialize_missing() {
    assert!(InputPacket::deserialize(&[0x49, 0x4E]).is_none());
    assert!(InputPacket::deserialize(&[0x41, 0x54, 0x4C, 0x53]).is_none());
}

#[test]
fn crc32_check_value() {
    // The standard CRC-32 check value of "123456789".
    assert_eq!(crc32(b"123456789"), 0xCBF43926);
    assert_eq!(crc32(&[]), 0);
}

#[test]
fn header_sizes() {
    assert_eq!(HEADER_SIZE, 24);
    assert_eq!(FULL_HEADER_SIZE, 30);
    assert_eq!(INPUT_HEADER_SIZE, 16);
}

#[test]
fn ping_pong_roundtrip() {
    let ping = FramePacket::new_ping();
    let (decoded, used) = FramePacket::deserialize(&ping.serialize()).unwrap();
    assert_eq!(decoded.packet_type, PacketType::Ping);
    assert_eq!(used, FULL_HEADER_SIZE);
    let pong = FramePacket::new_pong(12345);
    let (decoded, _) = FramePacket::deserialize(&pong.serialize()).unwrap();
    assert_eq!(decoded.packet_type, PacketType::Pong);
    assert_eq!(decoded.payload, 12345u32.to_be_bytes().to_vec());
}

#[test]
fn bad_packet_type_is_reported() {
    let packet = FramePacket::new_frame(1, 1, 0, PixelFormat::Bgra32, vec![]).unwrap();
    let mut bytes = packet.serialize();
    bytes[6] = 0x7F;
    bytes[7] = 0x7F;
    assert!(matches!(FramePacket::deserialize(&bytes), Err(ProtocolError::InvalidPacketType(0x7F7F))));
}

#[test]
fn packet_codes_roundtrip() {
    for t in [PacketType::Frame, PacketType::Input, PacketType::Ping, PacketType::Pong] {
        assert_eq!(PacketType::from_u16(t.to_u16()), Some(t));
    }
    for t in [InputType::MouseMove, InputType::MouseButton, InputType::MouseWheel, InputType::KeyPress] {
        assert_eq!(InputType::from_u8(t.to_u8()), Some(t));
    }
    assert_eq!(PacketType::from_u16(0xFFFF), None);
}

#[test]
fn input_packet_wheel_and_clipboard_roundtrip() {
    let p = InputPacket::mouse_wheel(-3, 7);
    let (d, used) = InputPacket::deserialize(&p.serialize()).unwrap();
    assert_eq!(d.input_type, InputType::MouseWheel);
    assert_eq!(d.payload, p.payload);
    assert_eq!(used, p.serialize().len());
    let c = InputPacket::clipboard("hello", 9);
    let (d, _) = InputPacket::deserialize(&c.serialize()).unwrap();
    assert_eq!(d.payload, b"hello".to_vec());
    assert_eq!(d.timestamp_ms, 9);
}

#[test]
fn protocol_key_names() {
    assert_eq!(hid::key_name_to_hid("ENTER"), Some(0x0D));
    assert_eq!(hid::key_name_to_hid("a"), Some(0x1E));
    assert_eq!(hid::key_name_to_hid("nothing"), None);
}
