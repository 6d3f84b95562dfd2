use atlas_remote::input::{
    char_to_hid, key_name_to_hid, now_ms, virtual_key, wheel_data, InputGuard, KeyAction, MouseButton,
};
use atlas_remote::network::discovery::trusted_in;
use atlas_remote::network::stun::{
    build_binding_request, generate_transaction_id, parse_mapped_address, parse_xor_mapped_address,
    response_address, MappedAddress, NatTestCase, STUN_CLASS_REQUEST, STUN_TRANSACTION_ID_LEN,
};
use atlas_remote::network::{DiscoveredDevice, DiscoveryManager, NatType, NetworkConfig, QuicClient, QuicConfig};
use atlas_remote::relay::{
    classify_connection, client_entry_id, forward_targets, host_command, host_entry_id, pair_request_line,
    split_relay_buffer, web_command, HostCommand, RelayChunk, RelayRole, WebInput,
};

#[test]
fn test_discovery_manager() {
    let mut manager = DiscoveryManager::new();
    assert!(manager.get_devices().is_empty());

    let device = DiscoveredDevice::new("Y700P-RTX3050", "192.168.1.100", 8080, "device-1", &[1, 2, 3]);
    manager.add_device(device.clone());
    assert_eq!(manager.get_devices().len(), 1);
    assert_eq!(manager.get_devices()[0].name, "Y700P-RTX3050");
}

#[test]
fn test_remove_device() {
    let mut manager = DiscoveryManager::new();
    let device = DiscoveredDevice::new("test", "127.0.0.1", 8080, "dev-1", &[1]);
    manager.add_device(device);
    manager.remove_device("dev-1");
    assert!(manager.get_devices().is_empty());
}

#[test]
fn discovery_replaces_same_id() {
    let mut m = DiscoveryManager::new();
    m.add_device(DiscoveredDevice::new("a", "1.1.1.1", 1, "x", &[]));
    m.add_device(DiscoveredDevice::new("b", "2.2.2.2", 2, "x", &[]));
    let d = m.get_devices();
    assert_eq!(d.len(), 1);
    assert_eq!(d[0].name, "b");
    assert_eq!(d[0].port, 2);
}

#[test]
fn trust_file_lookup() {
    let m = DiscoveryManager::new();
    let text = r#"[{"device_id": "abc"}, {"name": "no id"}, {"device_id": 5}]"#;
    assert!(m.is_trusted(Some(text), "abc"));
    assert!(!m.is_trusted(Some(text), "ab"));
    assert!(!m.is_trusted(Some("not json"), "abc"));
    assert!(!m.is_trusted(Some(r#"{"device_id": "abc"}"#), "abc"));
    assert!(!m.is_trusted(None, "abc"));
    assert!(trusted_in(&vec![None, Some("q".to_string())], "q"));
}

#[test]
fn test_network_config() {
    let config = NetworkConfig::default();
    assert!(!config.stun_servers.is_empty());
    assert_eq!(config.preferred_transport, "quic");
}

#[test]
fn quic_defaults() {
    let c = QuicConfig::default();
    assert_eq!(c.max_idle_timeout_secs, 30);
    assert_eq!(QuicClient::new(c).config.max_streams_bidi, 100);
}

#[test]
fn test_transaction_id_length() {
    let id = generate_transaction_id();
    assert_eq!(id.len(), STUN_TRANSACTION_ID_LEN);
}

#[test]
fn test_build_request() {
    let tid = [0u8; STUN_TRANSACTION_ID_LEN];
    let request = build_binding_request(&tid);
    assert_eq!(request.len(), 28);
    assert_eq!(u16::from_be_bytes([request[0], request[1]]), STUN_CLASS_REQUEST);
}

fn binding_response(attrs: &[u8]) -> Vec<u8> {
    let mut r = vec![0x01, 0x01];
    r.extend_from_slice(&(attrs.len() as u16).to_be_bytes());
    r.extend_from_slice(&[0u8; 16]);
    r.extend_from_slice(attrs);
    r
}

#[test]
fn stun_mapped_address_parsing() {
    // An unknown attribute of 3 bytes (padded to 4), then MAPPED-ADDRESS.
    let attrs = [
        0x80, 0x22, 0x00, 0x03, 0xAA, 0xBB, 0xCC, 0x00, // padded attribute
        0x00, 0x01, 0x00, 0x08, 0x00, 0x01, 0x1F, 0x90, 192, 168, 1, 2,
    ];
    let resp = binding_response(&attrs);
    let a = parse_mapped_address(&resp).unwrap();
    assert_eq!(a, MappedAddress { ip: [192, 168, 1, 2], port: 0x1F90 });
    let mut not_response = resp.clone();
    not_response[0] = 0x00;
    assert_eq!(parse_mapped_address(&not_response), None);
    assert_eq!(parse_mapped_address(&resp[..10]), None);
}

#[test]
fn stun_xor_mapped_address_parsing() {
    let tid = [7, 6, 5, 4, 3, 2, 1, 0, 9, 9, 9, 9];
    let attrs = [
        0x00, 0x20, 0x00, 0x08, 0x00, 0x01, 0x1F ^ 0x21, 0x90 ^ 0x12, 10 ^ 0x21, 0x12, 0xA4, 1 ^ 0x42,
    ];
    let resp = binding_response(&attrs);
    let a = parse_xor_mapped_address(&resp, &tid).unwrap();
    assert_eq!(a, MappedAddress { ip: [10, 0, 0, 1], port: 0x1F90 });
    assert_eq!(response_address(&resp, &tid), Some(a));
    assert_eq!(parse_xor_mapped_address(&[0u8; 19], &tid), None);
}

#[test]
fn stun_mapped_address_rfc_layout() {
    let r = [
        0x01, 0x01, 0x00, 0x0C, 0x21, 0x12, 0xA4, 0x42, 0, 0, 0, 0, 0, 0, 0, 0, 0, 0, 0, 0, 0x00, 0x01,
        0x00, 0x08, 0x00, 0x01, 0x1F, 0x90, 127, 0, 0, 1,
    ];
    assert_eq!(parse_mapped_address(&r), Some(MappedAddress { ip: [127, 0, 0, 1], port: 8080 }));
    // An IPv6 family is not reported as an IPv4 address.
    let mut v6 = r;
    v6[25] = 0x02;
    assert_eq!(parse_mapped_address(&v6), None);
}

#[test]
fn stun_xor_mapped_address_ignores_non_ipv4_family() {
    let tid = [0u8; 12];
    let attrs = [0x00, 0x20, 0x00, 0x08, 0x00, 0x02, 0x3E, 0x82, 0x5E, 0x12, 0xA4, 0x43];
    let resp = binding_response(&attrs);
    assert_eq!(parse_xor_mapped_address(&resp, &tid), None);
}

#[test]
fn nat_detection() {
    let a = Some(MappedAddress { ip: [1, 2, 3, 4], port: 5 });
    let b = Some(MappedAddress { ip: [1, 2, 3, 4], port: 6 });
    let same = [NatTestCase { response_addr: a, expected_same: true }, NatTestCase { response_addr: a, expected_same: true }];
    let diff = [NatTestCase { response_addr: a, expected_same: true }, NatTestCase { response_addr: b, expected_same: true }];
    assert_eq!(NatType::detect(&same), NatType::FullCone);
    assert_eq!(NatType::detect(&diff), NatType::Symmetric);
    assert_eq!(NatType::detect(&same[..1]), NatType::Unknown);
}

#[test]
fn test_char_to_hid() {
    assert_eq!(char_to_hid('a'), Some(0x1E));
    assert_eq!(char_to_hid('A'), Some(0x1E));
    assert_eq!(char_to_hid('0'), Some(0x22));
    assert_eq!(char_to_hid(' '), Some(0x39));
    assert_eq!(char_to_hid('z'), Some(0x1D));
}

#[test]
fn char_codes_of_controls() {
    assert_eq!(char_to_hid('\n'), Some(0x28));
    assert_eq!(char_to_hid('\t'), Some(0x0F));
    assert_eq!(char_to_hid('9'), Some(0x19));
    assert_eq!(char_to_hid('é'), None);
}

#[test]
fn test_key_name_to_hid() {
    assert_eq!(key_name_to_hid("enter"), Some(0x28));
    assert_eq!(key_name_to_hid("escape"), Some(0x29));
    assert_eq!(key_name_to_hid("backspace"), Some(0x0E));
    assert_eq!(key_name_to_hid("up"), Some(0x52));
    assert_eq!(key_name_to_hid("f1"), Some(0x3A));
    assert!(key_name_to_hid("unknownkey").is_none());
}

#[test]
fn key_names_ignore_case() {
    assert_eq!(key_name_to_hid("PgDn"), Some(0x51));
    assert_eq!(key_name_to_hid("F12"), Some(0x45));
}

#[test]
fn test_now_ms() {
    let ms = now_ms();
    assert!(ms > 0);
}

#[test]
fn test_mouse_button_enum() {
    assert_eq!(format!("{:?}", MouseButton::Left), "Left");
    assert_eq!(format!("{:?}", MouseButton::Right), "Right");
}

#[test]
fn test_key_action_enum() {
    assert_eq!(format!("{:?}", KeyAction::Press), "Press");
    assert_eq!(format!("{:?}", KeyAction::Release), "Release");
}

#[test]
fn button_and_action_codes() {
    assert_eq!(MouseButton::from_code(2), MouseButton::Right);
    assert_eq!(MouseButton::from_code(3), MouseButton::Middle);
    assert_eq!(MouseButton::from_code(9), MouseButton::Left);
    assert_eq!(KeyAction::from_name("down"), KeyAction::Press);
    assert_eq!(KeyAction::from_name("up"), KeyAction::Release);
    assert_eq!(wheel_data(-2), -240);
    assert_eq!(virtual_key("a"), Some(0x41));
    assert_eq!(virtual_key("7"), Some(0x37));
    assert_eq!(virtual_key("pagedown"), Some(0x22));
    assert_eq!(virtual_key("A"), None);
}

#[test]
fn test_input_replay_protection() {
    let now = std::time::SystemTime::now().duration_since(std::time::UNIX_EPOCH).unwrap().as_millis() as u64;
    let mut guard = InputGuard::new();

    // First input should succeed
    assert!(guard.is_input_allowed("device1", 1, now));

    // Replay same sequence should fail
    assert!(!guard.is_input_allowed("device1", 1, now));

    // Old timestamp should fail
    assert!(!guard.is_input_allowed("device1", 2, now.saturating_sub(6000)));
}

#[test]
fn test_inject_key_unknown() {
    let mut guard = InputGuard::new();
    let result = guard.prepare_key("device1", "unknownkey", "down", 1, 0);
    assert!(result.is_err());
}

#[test]
fn guard_decisions_at_fixed_times() {
    let mut g = InputGuard::new();
    assert!(g.is_input_allowed_at("d", 5, 10_000, 15_000));
    assert!(!g.is_input_allowed_at("d", 6, 9_000, 15_000));
    assert!(g.is_input_allowed_at("d", 6, 14_000, 15_000));
    assert!(g.is_input_allowed_at("e", 1, 15_000, 15_000));
    assert!(!g.is_input_allowed_at("d", 6, 15_000, 15_000));
    assert_eq!(g.prepare_key_at("d", "enter", "down", 7, 15_000, 15_000), Ok((0x0D, true)));
    assert_eq!(g.prepare_key_at("d", "f13", "up", 8, 15_000, 15_000), Err("Unsupported key: f13".to_string()));
    assert_eq!(g.prepare_key_at("d", "a", "up", 8, 15_000, 15_000), Err("Input rejected: not allowed".to_string()));
}

#[test]
fn relay_connection_roles() {
    assert_eq!(classify_connection("HOST"), RelayRole::Host);
    assert_eq!(classify_connection("CLIENT:phone-7"), RelayRole::Client("phone-7".to_string()));
    assert_eq!(classify_connection("TURN:Allocate"), RelayRole::Turn("TURN:Allocate".to_string()));
    assert_eq!(classify_connection("hello"), RelayRole::Host);
    assert_eq!(host_entry_id(1234), "host_1234");
    assert_eq!(client_entry_id("phone-7"), "client_phone-7");
}

#[test]
fn relay_forwarding_targets() {
    let keys = vec!["host_1".to_string(), "client_a".to_string(), "client_b".to_string(), "host_2".to_string()];
    assert_eq!(forward_targets(&keys, "host_1", "client_"), vec![1, 2]);
    assert_eq!(forward_targets(&keys, "client_a", "host_"), vec![0, 3]);
    assert_eq!(forward_targets(&keys, "host_1", "host_"), vec![3]);
}

#[test]
fn relay_buffer_cutting() {
    let mut frame = vec![0x41, 0x54, 0x4C, 0x53, 0, 1, 0, 1, 0, 0, 0, 2];
    frame.extend_from_slice(&[0u8; 24]);
    frame.extend_from_slice(&[7, 8]);
    let mut input = vec![0x49, 0x4E, 0x50, 0x54, 1, 4, 1, 0];
    input.extend_from_slice(&[0u8; 5]);
    input.push(9);
    let mut buf = Vec::new();
    buf.extend_from_slice(&frame);
    buf.extend_from_slice(&input);
    let mut line = b"status ok\n".to_vec();
    line.extend_from_slice(&[b'x'; 30]);
    buf.extend_from_slice(&line);
    buf.extend_from_slice(&[b'y'; 12]);
    let chunks = split_relay_buffer(&mut buf);
    // The frame is cut, the input packet dropped, the text line cut; the 42
    // bytes left hold no newline and wait for more.
    assert_eq!(chunks, vec![RelayChunk::Frame(frame.clone()), RelayChunk::Text(b"status ok".to_vec())]);
    let mut rest = vec![b'x'; 30];
    rest.extend_from_slice(&[b'y'; 12]);
    assert_eq!(buf, rest);
}

#[test]
fn relay_buffer_waits_for_more() {
    let mut short = vec![0x41, 0x54, 0x4C, 0x53];
    assert!(split_relay_buffer(&mut short).is_empty());
    assert_eq!(short.len(), 4);
    let mut partial = vec![0x41, 0x54, 0x4C, 0x53, 0, 1, 0, 1, 0, 0, 1, 0];
    partial.extend_from_slice(&[1u8; 30]);
    let before = partial.clone();
    assert!(split_relay_buffer(&mut partial).is_empty());
    assert_eq!(partial, before);
}

#[test]
fn relay_text_lines() {
    let mut buf = b"first line\nsecond line that is long enough\n".to_vec();
    let chunks = split_relay_buffer(&mut buf);
    assert_eq!(chunks, vec![RelayChunk::Text(b"first line".to_vec())]);
    assert_eq!(buf, b"second line that is long enough\n".to_vec());
}

#[test]
fn browser_input_commands() {
    let blank = WebInput { msg_type: None, button: None, pressed: None, delta: None, code: None };
    let with = |t: &str| WebInput { msg_type: Some(t.to_string()), ..blank.clone() };
    assert_eq!(host_command(&with("mouse_move")), HostCommand::MouseMove);
    assert_eq!(host_command(&with("mouse_click")), HostCommand::Line("MOUSE_CLICK:1:DOWN".to_string()));
    let right_up = WebInput { button: Some("right".to_string()), pressed: Some(false), ..with("mouse_click") };
    assert_eq!(host_command(&right_up), HostCommand::Line("MOUSE_CLICK:2:UP".to_string()));
    let wheel = WebInput { delta: Some(-3), ..with("wheel") };
    assert_eq!(host_command(&wheel), HostCommand::Line("SCROLL:-3".to_string()));
    assert_eq!(host_command(&with("wheel")), HostCommand::Line("SCROLL:0".to_string()));
    let min = WebInput { delta: Some(i64::MIN), ..with("wheel") };
    assert_eq!(host_command(&min), HostCommand::Line(format!("SCROLL:{}", i64::MIN)));
    let key = WebInput { code: Some("KeyA".to_string()), pressed: Some(false), ..with("key") };
    assert_eq!(host_command(&key), HostCommand::Line("KEY_UP:KeyA".to_string()));
    assert_eq!(host_command(&with("double_click")), HostCommand::Line("DOUBLE_CLICK".to_string()));
    let accept = WebInput { code: Some("123456".to_string()), ..with("pair_accept") };
    assert_eq!(host_command(&accept), HostCommand::Line("PAIR_ACCEPT:123456".to_string()));
    assert_eq!(host_command(&blank), HostCommand::Ignore);
    assert_eq!(pair_request_line("dev", "42"), "PAIR:dev:42\n");
}

#[test]
fn web_messages_to_host_commands() {
    assert_eq!(web_command(""), Some(HostCommand::Ignore));
    assert_eq!(web_command(" \t\n "), Some(HostCommand::Ignore));
    assert_eq!(web_command("not json"), None);
    assert_eq!(web_command("{\"type\": \"mouse_move\", \"x\": 0.5, \"y\": 0.25}"), Some(HostCommand::MouseMove));
    assert_eq!(
        web_command("  {\"type\": \"mouse_click\", \"button\": \"right\", \"pressed\": false}\n"),
        Some(HostCommand::Line("MOUSE_CLICK:2:UP".to_string()))
    );
    assert_eq!(web_command("{\"type\": \"wheel\", \"delta\": -120}"), Some(HostCommand::Line("SCROLL:-120".to_string())));
    assert_eq!(
        web_command("{\"type\": \"key\", \"code\": \"KeyB\"}"),
        Some(HostCommand::Line("KEY_DOWN:KeyB".to_string()))
    );
    // A field of another JSON type counts as missing.
    assert_eq!(
        web_command("{\"type\": \"pair_accept\", \"code\": 123456}"),
        Some(HostCommand::Line("PAIR_ACCEPT:".to_string()))
    );
    assert_eq!(web_command("{\"type\": \"teleport\"}"), Some(HostCommand::Ignore));
    assert_eq!(web_command("[1, 2]"), Some(HostCommand::Ignore));
}
