use hik_mvs_sdk::camera::{user_set_default, user_set_load, user_set_save};
use hik_mvs_sdk::params::{bool_from_abi, bool_to_abi};
use hik_mvs_sdk::sdk::{decode_action_results, decode_devices};
use hik_mvs_sdk::sys::{
    HikActionResult, HikDeviceInfo, HikEvent, HikFrame, HikIntValue, HikNetworkStats,
    ACTION_RESULT_CAPACITY, HIK_OK,
};
use hik_mvs_sdk::{
    check, cstring, empty_frame, text, ActionResult, CameraEvent, CameraOp, CameraState,
    DeviceInfo, Error, ExceptionEvent, FlipDirection, Frame, ImageFormat, IntValue,
    Ipv4Address, NetworkStats, NodeWrite, OutputFormat, OwnedFrame, Rotation, SdkVersion,
    ShutdownStep, Transport,
};

fn buffer(text: &str, size: usize) -> Vec<u8> {
    let mut v = text.as_bytes().to_vec();
    v.resize(size, 0);
    v
}

fn sample_frame() -> HikFrame {
    HikFrame {
        width: 1440,
        height: 1080,
        stride: 4320,
        pixel_format: 0x0218_0015,
        frame_number: 42,
        timestamp: 0x0000_0001_0000_0002,
        gain_bits: 1.5f32.to_bits(),
        exposure_time_bits: 5000.0f32.to_bits(),
        average_brightness: 128,
        lost_packets: 3,
        chunk_width: 1440,
        chunk_height: 1080,
        unparsed_chunk_count: 2,
        data: vec![1, 2, 3, 4, 5],
    }
}

#[test]
fn check_accepts_ok_status() {
    assert!(check(HIK_OK, None).is_ok());
    assert!(check(0, Some("ignored".to_string())).is_ok());
}

#[test]
fn check_reports_code_and_native_message() {
    match check(-2147483645, Some("device busy".to_string())) {
        Err(Error::Sdk { code, message }) => {
            assert_eq!(code, -2147483645);
            assert_eq!(message, "device busy");
        }
        other => panic!("unexpected {:?}", other),
    }
}

#[test]
fn check_without_native_message_says_unknown_error() {
    match check(1, None) {
        Err(Error::Sdk { code, message }) => {
            assert_eq!(code, 1);
            assert_eq!(message, "unknown error");
        }
        other => panic!("unexpected {:?}", other),
    }
}

#[test]
fn sdk_error_text_shows_eight_hex_digits() {
    let e = Error::Sdk { code: -2147483645, message: "device busy".to_string() };
    assert_eq!(e.to_string(), "device busy (MVS/wrapper code 0x80000003)");
    let e = Error::Sdk { code: 0x1f, message: String::new() };
    assert_eq!(e.to_string(), " (MVS/wrapper code 0x0000001F)");
    let e = Error::Sdk { code: -1, message: "x".to_string() };
    assert_eq!(e.to_string(), "x (MVS/wrapper code 0xFFFFFFFF)");
}

#[test]
fn interior_nul_error_text() {
    let e = Error::InteriorNul { field: "serial" };
    assert_eq!(e.to_string(), "serial contains an interior NUL byte");
}

#[test]
fn cstring_appends_terminator() {
    assert_eq!(cstring("Gain", "parameter name").unwrap(), b"Gain\0".to_vec());
    assert_eq!(cstring("", "serial").unwrap(), vec![0u8]);
    assert_eq!(cstring("Ü", "serial").unwrap(), vec![0xC3, 0x9C, 0]);
}

#[test]
fn cstring_rejects_interior_nul() {
    match cstring("ab\0cd", "image path") {
        Err(Error::InteriorNul { field }) => assert_eq!(field, "image path"),
        other => panic!("unexpected {:?}", other),
    }
}

#[test]
fn cstring_then_text_round_trip() {
    for s in ["DA1234567", "", "Ünïcödé camera", "TriggerMode"] {
        let bytes = cstring(s, "value").unwrap();
        assert_eq!(text(&bytes), s);
    }
}

#[test]
fn text_stops_at_first_nul() {
    assert_eq!(text(b"MV-CS016-10GC\0garbage"), "MV-CS016-10GC");
    assert_eq!(text(&buffer("abc", 64)), "abc");
    assert_eq!(text(b"\0abc"), "");
    assert_eq!(text(b""), "");
}

#[test]
fn text_without_terminator_uses_whole_buffer() {
    assert_eq!(text(b"abc"), "abc");
}

#[test]
fn text_replaces_invalid_utf8() {
    assert_eq!(text(&[b'a', 0xFF, b'b', 0]), "a\u{FFFD}b");
}

#[test]
fn sdk_version_splits_bytes() {
    let v = SdkVersion::from_raw(0x0404_0103);
    assert_eq!((v.major, v.minor, v.patch, v.build, v.raw), (4, 4, 1, 3, 0x0404_0103));
    let v = SdkVersion::from_raw(0xFF00_7F80);
    assert_eq!((v.major, v.minor, v.patch, v.build), (255, 0, 127, 128));
}

#[test]
fn sdk_version_components_repack() {
    for raw in [0u32, 1, 0x0404_0103, 0xFFFF_FFFF, 0x1234_5678] {
        let v = SdkVersion::from_raw(raw);
        let packed = (v.major as u32) << 24 | (v.minor as u32) << 16 | (v.patch as u32) << 8
            | v.build as u32;
        assert_eq!(packed, raw);
    }
}

#[test]
fn sdk_version_text() {
    assert_eq!(SdkVersion::from_raw(0x0404_0103).to_string(), "4.4.1.3");
    assert_eq!(SdkVersion::from_raw(0xFF0A_6400).to_string(), "255.10.100.0");
}

#[test]
fn transport_codes() {
    assert_eq!(Transport::from_raw(1), Transport::GigE);
    assert_eq!(Transport::from_raw(2), Transport::Usb3);
    assert_eq!(Transport::from_raw(0), Transport::Unknown);
    assert_eq!(Transport::from_raw(4), Transport::Unknown);
}

#[test]
fn ipv4_address_round_trip() {
    let a = Ipv4Address::from_bits(0xC0A8_0164);
    assert_eq!(a.octets, [192, 168, 1, 100]);
    assert_eq!(a.to_bits(), 0xC0A8_0164);
    let b = Ipv4Address { octets: [169, 254, 183, 48] };
    assert_eq!(Ipv4Address::from_bits(b.to_bits()), b);
    assert_eq!(b.to_bits(), 0xA9FE_B730);
}

#[test]
fn device_info_decodes_record() {
    let raw = HikDeviceInfo {
        transport: 1,
        ip: 0xC0A8_0164,
        model: buffer("MV-CS016-10GC", 64),
        serial: buffer("DA1234567", 64),
        user_name: buffer("left", 64),
    };
    let d = DeviceInfo::from_raw(&raw);
    assert_eq!(d.transport, Transport::GigE);
    assert_eq!(d.ip, Some(Ipv4Address { octets: [192, 168, 1, 100] }));
    assert_eq!(d.model, "MV-CS016-10GC");
    assert_eq!(d.serial, "DA1234567");
    assert_eq!(d.user_name, "left");
}

#[test]
fn device_without_address() {
    let raw = HikDeviceInfo {
        transport: 2,
        ip: 0,
        model: buffer("MV-CA013-21UC", 64),
        serial: buffer("U1", 64),
        user_name: buffer("", 64),
    };
    let d = DeviceInfo::from_raw(&raw);
    assert_eq!(d.transport, Transport::Usb3);
    assert_eq!(d.ip, None);
    assert_eq!(d.user_name, "");
}

#[test]
fn decode_devices_truncates_to_reported_count() {
    let raw: Vec<HikDeviceInfo> = (0..3)
        .map(|i| HikDeviceInfo {
            transport: 1,
            ip: i + 1,
            model: buffer("M", 64),
            serial: buffer(&format!("S{}", i), 64),
            user_name: buffer("", 64),
        })
        .collect();
    let two = decode_devices(&raw, 2);
    assert_eq!(two.len(), 2);
    assert_eq!(two[0].serial, "S0");
    assert_eq!(two[1].serial, "S1");
    assert_eq!(decode_devices(&raw, 10).len(), 3);
    assert_eq!(decode_devices(&raw, 0).len(), 0);
}

#[test]
fn action_results_decode_and_truncate() {
    assert_eq!(ACTION_RESULT_CAPACITY, 256);
    let raw = vec![
        HikActionResult { device_address: buffer("192.168.1.100", 16), status: 0 },
        HikActionResult { device_address: buffer("192.168.1.101", 16), status: -1 },
        HikActionResult { device_address: buffer("unused", 16), status: 7 },
    ];
    let r = decode_action_results(&raw, 2);
    assert_eq!(r.len(), 2);
    assert_eq!(r[0].device_address, "192.168.1.100");
    assert_eq!(r[0].status, 0);
    assert_eq!(r[1].device_address, "192.168.1.101");
    assert_eq!(r[1].status, -1);
    assert_eq!(decode_action_results(&raw, 300).len(), 3);
    let one = ActionResult::from_raw(&raw[2]);
    assert_eq!((one.device_address.as_str(), one.status), ("unused", 7));
}

#[test]
fn output_format_codes() {
    assert_eq!(OutputFormat::Raw.code(), 0);
    assert_eq!(OutputFormat::Mono8.code(), 1);
    assert_eq!(OutputFormat::Bgr8.code(), 2);
}

#[test]
fn imaging_codes() {
    assert_eq!(ImageFormat::Bmp.code(), 1);
    assert_eq!(ImageFormat::Jpeg.code(), 2);
    assert_eq!(ImageFormat::Png.code(), 3);
    assert_eq!(ImageFormat::Tiff.code(), 4);
    assert_eq!(Rotation::Degrees90.code(), 1);
    assert_eq!(Rotation::Degrees180.code(), 2);
    assert_eq!(Rotation::Degrees270.code(), 3);
    assert_eq!(FlipDirection::Vertical.code(), 1);
    assert_eq!(FlipDirection::Horizontal.code(), 2);
}

#[test]
fn frame_getters_report_descriptor() {
    let f = Frame::from_raw(sample_frame());
    assert_eq!(f.width(), 1440);
    assert_eq!(f.height(), 1080);
    assert_eq!(f.stride(), 4320);
    assert_eq!(f.pixel_format(), 0x0218_0015);
    assert_eq!(f.frame_number(), 42);
    assert_eq!(f.timestamp(), 0x0000_0001_0000_0002);
    assert_eq!(f.data(), &[1, 2, 3, 4, 5]);
}

#[test]
fn frame_chunk_metadata() {
    let c = Frame::from_raw(sample_frame()).chunk();
    assert_eq!(f32::from_bits(c.gain_bits), 1.5);
    assert_eq!(f32::from_bits(c.exposure_time_bits), 5000.0);
    assert_eq!(c.average_brightness, 128);
    assert_eq!(c.lost_packets, 3);
    assert_eq!((c.width, c.height), (1440, 1080));
    assert_eq!(c.unparsed_count, 2);
}

#[test]
fn empty_frame_is_zero() {
    let e = empty_frame();
    let f = Frame::from_raw(e);
    assert_eq!(
        (f.width(), f.height(), f.stride(), f.pixel_format(), f.frame_number(), f.timestamp()),
        (0, 0, 0, 0, 0, 0)
    );
    assert_eq!(f.chunk(), Default::default());
    assert!(f.data().is_empty());
}

#[test]
fn owned_frame_keeps_fields_and_bytes() {
    let o = OwnedFrame::from_raw(sample_frame());
    assert_eq!((o.width, o.height, o.stride), (1440, 1080, 4320));
    assert_eq!(o.pixel_format, 0x0218_0015);
    assert_eq!((o.frame_number, o.timestamp), (42, 0x0000_0001_0000_0002));
    assert_eq!(o.data, vec![1, 2, 3, 4, 5]);
}

#[test]
fn exception_classification() {
    assert_eq!(ExceptionEvent::from_message_type(0x8001), ExceptionEvent::Disconnected);
    assert_eq!(ExceptionEvent::from_message_type(0x8002), ExceptionEvent::Other(0x8002));
    assert_eq!(ExceptionEvent::from_message_type(0), ExceptionEvent::Other(0));
}

#[test]
fn camera_event_decodes_name() {
    let raw = HikEvent {
        name: buffer("ExposureEnd", 128),
        event_id: 0x9001,
        stream_channel: 0,
        block_id: 77,
        timestamp: 123456,
    };
    let e = CameraEvent::from_raw(&raw);
    assert_eq!(e.name, "ExposureEnd");
    assert_eq!((e.event_id, e.stream_channel, e.block_id, e.timestamp), (0x9001, 0, 77, 123456));
}

#[test]
fn network_stats_copy() {
    let raw = HikNetworkStats {
        received_bytes: 1_000_000,
        lost_packets: 4,
        lost_frames: 1,
        received_frames: 30,
        requested_resend_packets: 6,
        resent_packets: 5,
    };
    let s = NetworkStats::from_raw(&raw);
    assert_eq!(
        s,
        NetworkStats {
            received_bytes: 1_000_000,
            lost_packets: 4,
            lost_frames: 1,
            received_frames: 30,
            requested_resend_packets: 6,
            resent_packets: 5,
        }
    );
}

#[test]
fn int_value_copy() {
    let v = IntValue::from_raw(&HikIntValue { current: 1440, minimum: 32, maximum: 1440, increment: 8 });
    assert_eq!(v, IntValue { current: 1440, minimum: 32, maximum: 1440, increment: 8 });
}

#[test]
fn bool_abi_round_trip() {
    assert_eq!(bool_to_abi(true), 1);
    assert_eq!(bool_to_abi(false), 0);
    assert!(bool_from_abi(1));
    assert!(bool_from_abi(0xFF));
    assert!(!bool_from_abi(0));
    for b in [true, false] {
        assert_eq!(bool_from_abi(bool_to_abi(b)), b);
    }
}

#[test]
fn fresh_camera_only_closes() {
    let s = CameraState::opened();
    assert_eq!(s.shutdown_plan(), vec![ShutdownStep::Close]);
}

#[test]
fn shutdown_order_recording_before_stop_before_close() {
    let mut s = CameraState::opened();
    s.apply(CameraOp::Start, true);
    s.apply(CameraOp::RecordStart, true);
    assert_eq!(
        s.shutdown_plan(),
        vec![ShutdownStep::StopRecording, ShutdownStep::StopAcquisition, ShutdownStep::Close]
    );
}

#[test]
fn failed_operations_change_nothing() {
    let mut s = CameraState::opened();
    s.apply(CameraOp::Start, false);
    s.apply(CameraOp::RecordStart, false);
    assert_eq!(s, CameraState::opened());
    s.apply(CameraOp::Start, true);
    s.apply(CameraOp::Stop, false);
    assert!(s.started);
}

#[test]
fn completed_stops_are_not_repeated() {
    let mut s = CameraState::opened();
    s.apply(CameraOp::Start, true);
    s.apply(CameraOp::RecordStart, true);
    s.apply(CameraOp::RecordStop, true);
    assert_eq!(s.shutdown_plan(), vec![ShutdownStep::StopAcquisition, ShutdownStep::Close]);
    s.apply(CameraOp::Stop, true);
    assert_eq!(s.shutdown_plan(), vec![ShutdownStep::Close]);
}

fn describe(w: &NodeWrite) -> (String, String, String) {
    match w {
        NodeWrite::SetEnum { name, value } => ("enum".into(), name.to_string(), value.clone()),
        NodeWrite::Command { name } => ("command".into(), name.to_string(), String::new()),
    }
}

#[test]
fn user_set_node_writes() {
    let save: Vec<_> = user_set_save("UserSet1").iter().map(describe).collect();
    assert_eq!(
        save,
        vec![
            ("enum".into(), "UserSetSelector".into(), "UserSet1".into()),
            ("command".into(), "UserSetSave".into(), String::new()),
        ]
    );
    let load: Vec<_> = user_set_load("Default").iter().map(describe).collect();
    assert_eq!(
        load,
        vec![
            ("enum".into(), "UserSetSelector".into(), "Default".into()),
            ("command".into(), "UserSetLoad".into(), String::new()),
        ]
    );
    let default: Vec<_> = user_set_default("UserSet2").iter().map(describe).collect();
    assert_eq!(default, vec![("enum".into(), "UserSetDefault".into(), "UserSet2".into())]);
}
