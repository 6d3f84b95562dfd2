use atlas_remote::abr::{AbcController, NetworkConditions, QualityLevel};
use atlas_remote::capture::black_screen::{BlackScreenManager, BlackScreenMode};
use atlas_remote::capture::multi_monitor::{scan_monitors, MonitorInfo, MultiMonitorManager};
use atlas_remote::capture::{FrameQueue, MAX_QUEUED_FRAMES};
use atlas_remote::codec::{bitstream_buffer_size, codec_output, stub_frame, stub_parameter_sets, StubEncoder};
use atlas_remote::config::Config;
use atlas_remote::device::{DeviceInfo, DeviceStore};
use atlas_remote::error::{AtlasError, IntoAtlasError};
use atlas_remote::file_transfer::{
    validate_transfer_request, TransferCommand, TransferDirection, TransferManager, TransferStatus, MAX_FILE_SIZE,
};
use atlas_remote::frame::{Frame, PixelFormat};
use atlas_remote::telemetry::ConnectionStatus;

#[test]
fn test_quality_levels() {
    assert_eq!(QualityLevel::High.resolution(), (1920, 1080));
    assert_eq!(QualityLevel::High.target_fps(), 55);
    assert_eq!(QualityLevel::High.target_bitrate(), 4_000_000);
}

#[test]
fn test_upgrade_downgrade() {
    let q = QualityLevel::Medium;
    assert_eq!(q.upgrade(), QualityLevel::High);
    assert_eq!(q.degrade(), QualityLevel::Low);
}

#[test]
fn quality_ends_are_fixed_points() {
    assert_eq!(QualityLevel::Ultra.upgrade(), QualityLevel::Ultra);
    assert_eq!(QualityLevel::UltraLow.degrade(), QualityLevel::UltraLow);
    assert_eq!(QualityLevel::Low.upgrade().degrade(), QualityLevel::Low);
}

#[test]
fn abr_adjusts_after_cooldown_only() {
    let mut c = AbcController::new_at(0);
    let bad = NetworkConditions {
        rtt_us: 300_000,
        bandwidth_bps: 5_000_000,
        jitter_us: 0,
        loss_below_upgrade_limit: false,
        loss_above_downgrade_limit: false,
    };
    c.update_metrics_at(bad, 5_000);
    assert_eq!(c.current_quality(), QualityLevel::High);
    c.update_metrics_at(bad, 10_000);
    assert_eq!(c.current_quality(), QualityLevel::Medium);
    let good = NetworkConditions {
        rtt_us: 10_000,
        bandwidth_bps: 10_000_000,
        jitter_us: 0,
        loss_below_upgrade_limit: true,
        loss_above_downgrade_limit: false,
    };
    c.update_metrics_at(good, 20_000);
    assert_eq!(c.current_quality(), QualityLevel::High);
    assert_eq!(c.metrics().rtt_us, 10_000);
}

#[test]
fn test_black_screen_toggle() {
    let mut manager = BlackScreenManager::new();
    assert!(!manager.is_active());

    manager.toggle_at(1_000_000).unwrap();
    assert!(manager.is_active());

    manager.toggle_at(1_002_000).unwrap();
    assert!(!manager.is_active());
}

#[test]
fn test_toggle_cooldown() {
    let mut manager = BlackScreenManager::new();
    manager.toggle().unwrap();

    // Should fail due to cooldown
    let result = manager.toggle();
    assert!(result.is_err());
}

#[test]
fn black_screen_cooldown_message_and_modes() {
    let mut m = BlackScreenManager::new();
    assert_eq!(m.toggle_at(5_000), Ok(BlackScreenMode::On));
    assert_eq!(m.toggle_at(5_500), Err("Toggle cooldown active".to_string()));
    assert_eq!(*m.mode(), BlackScreenMode::On);
    m.set_mode_at(BlackScreenMode::Minimized, 9_000);
    assert!(m.is_active());
    assert_eq!(m.toggle_at(10_000), Ok(BlackScreenMode::On));
}

#[test]
fn black_screen_cooldown_law_on_values() {
    let mut m = BlackScreenManager::new();
    assert_eq!(m.toggle_at(1_000), Ok(BlackScreenMode::On));
    assert!(m.toggle_at(1_999).is_err());
    assert_eq!(*m.mode(), BlackScreenMode::On);
    assert_eq!(m.toggle_at(2_000), Ok(BlackScreenMode::Off));
    m.set_mode_at(BlackScreenMode::On, 3_000);
    assert!(m.toggle_at(3_999).is_err());
    assert_eq!(*m.mode(), BlackScreenMode::On);
}

#[test]
fn encoder_buffer_size() {
    // 6 Mbps at 60 fps: four frames are 50_000 bytes, below the 512 KiB floor.
    assert_eq!(bitstream_buffer_size(6_000_000, 60), 524_288);
    // 100 Mbps at 1 fps: four frames are 50_000_000 bytes.
    assert_eq!(bitstream_buffer_size(100_000_000, 1), 50_000_000);
    assert_eq!(bitstream_buffer_size(u32::MAX, 1), (u32::MAX / 8) * 4);
}

#[test]
fn codec_passes_raw_bytes_without_encoder() {
    let mut frame = Frame::empty_at(2, 1, PixelFormat::Bgra32, 7);
    frame.data = vec![1, 2, 3, 4, 5, 6, 7, 8];
    assert_eq!(codec_output(&frame, None), Ok(vec![1, 2, 3, 4, 5, 6, 7, 8]));
    assert_eq!(codec_output(&frame, Some(Ok(vec![9]))), Ok(vec![9]));
    assert_eq!(codec_output(&frame, Some(Err("busy".to_string()))), Err("busy".to_string()));
}

#[test]
fn test_multi_monitor() {
    let mut manager = MultiMonitorManager::new();

    manager.add_monitor(MonitorInfo {
        index: 0,
        name: "Monitor 1".to_string(),
        width: 1920,
        height: 1080,
        is_primary: true,
    });

    manager.add_monitor(MonitorInfo {
        index: 1,
        name: "Monitor 2".to_string(),
        width: 1280,
        height: 720,
        is_primary: false,
    });

    assert_eq!(manager.count(), 2);
    assert!(manager.selected().is_some());

    manager.select(1).unwrap();
    assert_eq!(manager.selected().unwrap().index, 1);
}

#[test]
fn test_invalid_select() {
    let mut manager = MultiMonitorManager::new();
    assert!(manager.select(99).is_err());
}

#[test]
fn monitor_selection_wraps_and_finds_primary() {
    let mut m = MultiMonitorManager::new();
    assert_eq!(m.select(99), Err("Invalid monitor index: 99".to_string()));
    for (i, primary) in [(0u32, false), (1, true), (2, false)] {
        m.add_monitor(MonitorInfo { index: i, name: format!("M{}", i), width: 800, height: 600, is_primary: primary });
    }
    m.select_primary().unwrap();
    assert_eq!(m.selected().unwrap().index, 1);
    m.next();
    assert_eq!(m.selected().unwrap().index, 2);
    m.next();
    assert_eq!(m.selected().unwrap().index, 0);
    let scanned = scan_monitors();
    assert_eq!(scanned.len(), 1);
    assert!(scanned[0].is_primary);
}

#[test]
fn frame_queue_keeps_newest_three() {
    let mut q = FrameQueue::new();
    assert!(q.recv().is_none());
    for i in 0..5u64 {
        let mut f = Frame::empty_at(1, 1, PixelFormat::Bgra32, i);
        f.frame_id = i;
        q.push(f);
    }
    assert_eq!(q.peek_frame().unwrap().frame_id, 4);
    let mut got = Vec::new();
    while let Some(f) = q.recv() {
        got.push(f.frame_id);
    }
    assert_eq!(got.len(), MAX_QUEUED_FRAMES);
    assert_eq!(got, vec![2, 3, 4]);
}

#[test]
fn test_frame_creation() {
    let frame = Frame::test_frame(1920, 1080);
    assert_eq!(frame.width, 1920);
    assert_eq!(frame.height, 1080);
    assert_eq!(frame.format, PixelFormat::Bgra32);
}

#[test]
fn test_empty_frame() {
    let frame = Frame::empty(1920, 1080, PixelFormat::Bgra32);
    assert!(frame.is_empty());
}

#[test]
fn frame_sizes() {
    let f = Frame::empty(4, 2, PixelFormat::Rgb24);
    assert_eq!(f.uncompressed_size(), 24);
    assert_eq!(PixelFormat::H264.name(), "H264");
}

#[test]
fn test_default_config() {
    let config = Config::default();
    assert_eq!(config.network.preferred_transport, "quic");
    assert_eq!(config.video.max_fps, 60);
    assert!(config.network.allow_relay);
}

#[test]
fn default_config_other_fields() {
    let c = Config::default();
    assert_eq!(c.network.stun_servers, vec!["stun.l.google.com:19302".to_string()]);
    assert_eq!(c.video.codec, "auto");
    assert_eq!((c.video.resolution_width, c.video.resolution_height), (1920, 1080));
    assert_eq!(c.video.max_bitrate, 8_000_000);
    assert!(c.security.require_pair);
    assert_eq!(c.security.key_rotation_hours, 24);
    assert_eq!(c.logging.level, "info");
    assert!(c.logging.filter_sensitive);
}

#[test]
fn test_device_store() {
    let mut store = DeviceStore::new();
    let device = DeviceInfo {
        id: "test-1".to_string(),
        name: "Test Device".to_string(),
        platform: "windows".to_string(),
        public_key: vec![1, 2, 3],
        paired_with: vec![],
        last_connected: None,
    };
    store.register(device);
    assert!(store.get("test-1").is_some());
    assert!(!store.is_trusted("test-1"));
    store.add_trusted("test-1");
    assert!(store.is_trusted("test-1"));
}

#[test]
fn device_store_replaces_and_trusts_once() {
    let mut store = DeviceStore::default();
    let mk = |name: &str| DeviceInfo {
        id: "d".to_string(),
        name: name.to_string(),
        platform: "android".to_string(),
        public_key: vec![],
        paired_with: vec![],
        last_connected: None,
    };
    store.register(mk("first"));
    store.register(mk("second"));
    assert_eq!(store.get("d").unwrap().name, "second");
    assert!(store.get("other").is_none());
    store.add_trusted("d");
    store.add_trusted("d");
    assert!(store.is_trusted("d"));
    assert!(!store.is_trusted("x"));
}

#[test]
fn test_validate_filename() {
    assert!(validate_transfer_request("test.txt", 1024).is_ok());
    assert!(validate_transfer_request("test<bad>.txt", 1024).is_err());
}

#[test]
fn test_validate_size() {
    assert!(validate_transfer_request("test.txt", 1024).is_ok());
    assert!(validate_transfer_request("test.txt", MAX_FILE_SIZE + 1).is_err());
}

#[test]
fn transfer_request_errors() {
    let long = "a".repeat(256);
    assert_eq!(validate_transfer_request(&long, 1), Err("Filename too long (max 255 characters)".to_string()));
    assert!(validate_transfer_request(&"a".repeat(255), 1).is_ok());
    assert_eq!(validate_transfer_request("x", MAX_FILE_SIZE + 1), Err("File too large (max 10.74 GB)".to_string()));
    assert!(validate_transfer_request("x", MAX_FILE_SIZE).is_ok());
    assert_eq!(validate_transfer_request("a?b", 1), Err("Filename contains invalid characters".to_string()));
}

#[test]
fn transfer_status_completion() {
    let mut status = TransferStatus {
        filename: "test.txt".to_string(),
        direction: TransferDirection::Upload,
        bytes_transferred: 500,
        total_bytes: 1000,
        started_at_ms: 0,
        completed_at_ms: None,
        error: None,
    };
    assert!(!status.is_complete());
    assert_eq!(status.speed_bps_at(500), 0);
    assert_eq!(status.speed_bps_at(2_000), 2000);
    status.bytes_transferred = 1000;
    assert!(status.is_complete());
}

#[test]
fn transfer_manager_lifecycle() {
    let mut m = TransferManager::new("/tmp/downloads");
    assert_eq!(m.download_dir(), "/tmp/downloads");
    for name in ["a", "b", "c"] {
        m.start_transfer_at(TransferCommand::SendFile { filename: name.to_string(), size: 10, path: name.to_string() }, 100)
            .unwrap();
    }
    let refused = m.start_transfer_at(TransferCommand::SendFile { filename: "d".to_string(), size: 1, path: "d".to_string() }, 100);
    assert_eq!(refused, Err("Maximum concurrent transfers reached".to_string()));
    assert!(m.start_transfer_at(TransferCommand::Cancel { filename: "a".to_string(), reason: "x".to_string() }, 100).is_ok());
    assert_eq!(m.get_all_statuses().len(), 3);
    let b = m.get_status("b").unwrap();
    assert_eq!(b.total_bytes, 10);
    assert_eq!(b.started_at_ms, 100);
    assert_eq!(b.direction, TransferDirection::Upload);
    assert!(m.get_status("zzz").is_none());
    m.complete_transfer_at("a", 1_000).unwrap();
    m.error_transfer_at("b", "disk full", 2_000).unwrap();
    assert_eq!(m.get_status("b").unwrap().error, Some("disk full".to_string()));
    m.cleanup_completed_at(1_500, 3_000);
    let left: Vec<String> = m.get_all_statuses().into_iter().map(|s| s.filename).collect();
    assert_eq!(left, vec!["b".to_string(), "c".to_string()]);
}

#[test]
fn connection_status_labels() {
    assert_eq!(ConnectionStatus::Connecting.label(), "Connecting...");
    assert_eq!(ConnectionStatus::Degraded.label(), "Degraded");
}

#[test]
fn stub_stream_shape() {
    let (sps, pps) = stub_parameter_sets();
    assert_eq!(sps.len(), 35);
    assert_eq!(pps.len(), 12);
    let key = stub_frame(&sps, &pps, 4_000_000, 30, 30);
    assert_eq!(key.len(), 4_000_000 / 8 / 30);
    assert_eq!(&key[..35], &sps[..]);
    assert_eq!(key[35 + 12 + 4], 0x65);
    let p = stub_frame(&sps, &pps, 4_000_000, 30, 1);
    assert_eq!(&p[..5], &[0, 0, 0, 1, 0x61]);
    // First payload byte: seed (1 * 2654435761) mod 65536, stepped once.
    let seed0 = (2654435761u64 & 0xFFFF) as u16;
    let seed1 = seed0.wrapping_mul(11035).wrapping_add(12345);
    assert_eq!(p[5], (seed1 >> 8) as u8);
    let tiny = stub_frame(&sps, &pps, 8, 1, 2);
    assert_eq!(tiny.len(), 5);
}

#[test]
fn stub_encoder_counts_frames() {
    let mut enc = StubEncoder::new(640, 480, 30, 2_400_000);
    let f = Frame::empty(640, 480, PixelFormat::Bgra32);
    let a = enc.encode(&f);
    assert_eq!(enc.frame_count(), 1);
    assert_eq!(a.len(), 10_000);
    assert_eq!(enc.target_bitrate(), 2_400_000);
    assert_eq!(enc.name(), "NVENC(stub)");
    let (sps, pps) = enc.get_sps_pps();
    assert_eq!(a, stub_frame(&sps, &pps, 2_400_000, 30, 1));
}

#[test]
fn atlas_error_messages() {
    assert_eq!(AtlasError::Network("down".to_string()).message(), "Network error: down");
    assert_eq!(AtlasError::Permission("no".to_string()).message(), "Permission denied: no");
    let io = AtlasError::Io(std::io::Error::new(std::io::ErrorKind::Other, "boom"));
    assert!(io.message().starts_with("IO error: "));
    let failed: Result<u8, AtlasError> = Err(AtlasError::Config("bad".to_string()));
    assert_eq!(failed.into_atlas_error().message(), "Configuration error: bad");
}
