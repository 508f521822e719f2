use moments_core::models::{
    AuthDetails, CompressWebpToSizeArgs, ConvertJpegToWebpArgs, Moment,
    NotificationPermissionStatus, PermissionState, Preferences, SetRegionArgs,
};
use moments_core::wire::{copy_bytes, WireErrorKind, WireField, WireValue};

fn text(key: &str, value: &str) -> WireField {
    WireField { key: key.to_string(), value: WireValue::Text(value.to_string()) }
}

fn keys(rec: &[WireField]) -> Vec<String> {
    rec.iter().map(|f| f.key.clone()).collect()
}

fn sample_moment() -> Moment {
    Moment {
        id: "m1".to_string(),
        region: "us".to_string(),
        start_date: "2024-01-01".to_string(),
        end_date: "2024-01-02".to_string(),
    }
}

#[test]
fn moment_round_trip_keeps_fields() {
    let m = sample_moment();
    let back = Moment::from_wire(&m.to_wire()).unwrap();
    assert_eq!(back.id, "m1");
    assert_eq!(back.region, "us");
    assert_eq!(back.start_date, "2024-01-01");
    assert_eq!(back.end_date, "2024-01-02");
}

#[test]
fn moment_wire_uses_camel_case_keys() {
    let rec = sample_moment().to_wire();
    assert_eq!(keys(&rec), vec!["id", "region", "startDate", "endDate"]);
    match &rec[2].value {
        WireValue::Text(s) => assert_eq!(s, "2024-01-01"),
        _ => panic!("startDate is not text"),
    }
    match &rec[3].value {
        WireValue::Text(s) => assert_eq!(s, "2024-01-02"),
        _ => panic!("endDate is not text"),
    }
}

#[test]
fn auth_details_round_trip_and_keys() {
    let a = AuthDetails {
        device_id: "dev-7".to_string(),
        access_token: "SECRET-REDACTED".to_string(),
        refresh_token: "refresh-2".to_string(),
    };
    let rec = a.to_wire();
    assert_eq!(keys(&rec), vec!["deviceId", "accessToken", "refreshToken"]);
    let back = AuthDetails::from_wire(&rec).unwrap();
    assert_eq!(back.device_id, "dev-7");
    assert_eq!(back.access_token, "SECRET-REDACTED");
    assert_eq!(back.refresh_token, "refresh-2");
}

#[test]
fn preferences_round_trip_and_keys() {
    let p = Preferences { region: "eu".to_string() };
    let rec = p.to_wire();
    assert_eq!(keys(&rec), vec!["region"]);
    assert_eq!(Preferences::from_wire(&rec).unwrap().region, "eu");
}

#[test]
fn set_region_args_round_trip_and_keys() {
    let s = SetRegionArgs { region: "apac".to_string() };
    let rec = s.to_wire();
    assert_eq!(keys(&rec), vec!["region"]);
    assert_eq!(SetRegionArgs::from_wire(&rec).unwrap().region, "apac");
}

#[test]
fn convert_jpeg_args_round_trip_and_keys() {
    let c = ConvertJpegToWebpArgs { jpeg: vec![0xff, 0xd8, 0xff, 0xe0, 0] };
    let rec = c.to_wire();
    assert_eq!(keys(&rec), vec!["jpeg"]);
    let back = ConvertJpegToWebpArgs::from_wire(&rec).unwrap();
    assert_eq!(back.jpeg, vec![0xff, 0xd8, 0xff, 0xe0, 0]);
}

#[test]
fn compress_webp_args_round_trip_and_keys() {
    let c = CompressWebpToSizeArgs { webp: vec![b'R', b'I', b'F', b'F'], max_size: 40_000 };
    let rec = c.to_wire();
    assert_eq!(keys(&rec), vec!["webp", "maxSize"]);
    match &rec[1].value {
        WireValue::Unsigned(n) => assert_eq!(*n, 40_000),
        _ => panic!("maxSize is not an integer"),
    }
    let back = CompressWebpToSizeArgs::from_wire(&rec).unwrap();
    assert_eq!(back.webp, b"RIFF".to_vec());
    assert_eq!(back.max_size, 40_000);
}

#[test]
fn compress_webp_args_largest_size() {
    let c = CompressWebpToSizeArgs { webp: Vec::new(), max_size: usize::MAX };
    let back = CompressWebpToSizeArgs::from_wire(&c.to_wire()).unwrap();
    assert!(back.webp.is_empty());
    assert_eq!(back.max_size, usize::MAX);
}

#[test]
fn notification_status_round_trip_and_keys() {
    let n = NotificationPermissionStatus { status: "denied".to_string() };
    let rec = n.to_wire();
    assert_eq!(keys(&rec), vec!["status"]);
    assert_eq!(NotificationPermissionStatus::from_wire(&rec).unwrap().status, "denied");
}

#[test]
fn empty_strings_round_trip() {
    let m = Moment::default();
    let back = Moment::from_wire(&m.to_wire()).unwrap();
    assert_eq!(back.id, "");
    assert_eq!(back.end_date, "");
}

#[test]
fn defaults_are_empty() {
    let a = AuthDetails::default();
    assert!(a.device_id.is_empty() && a.access_token.is_empty() && a.refresh_token.is_empty());
    assert!(Preferences::default().region.is_empty());
    let m = Moment::default();
    assert!(m.id.is_empty() && m.region.is_empty());
    assert!(m.start_date.is_empty() && m.end_date.is_empty());
}

#[test]
fn decode_ignores_order_and_unknown_fields() {
    let rec = vec![
        text("endDate", "2024-01-02"),
        text("note", "ignored"),
        text("startDate", "2024-01-01"),
        text("region", "us"),
        text("id", "m1"),
    ];
    let m = Moment::from_wire(&rec).unwrap();
    assert_eq!(m.id, "m1");
    assert_eq!(m.region, "us");
    assert_eq!(m.start_date, "2024-01-01");
    assert_eq!(m.end_date, "2024-01-02");
}

#[test]
fn decode_reports_missing_field() {
    let rec = vec![text("id", "m1"), text("region", "us"), text("endDate", "2024-01-02")];
    let e = Moment::from_wire(&rec).unwrap_err();
    assert_eq!(e.kind, WireErrorKind::MissingField);
    assert_eq!(e.field, "startDate");
}

#[test]
fn decode_empty_record_reports_first_field() {
    let e = AuthDetails::from_wire(&Vec::new()).unwrap_err();
    assert_eq!(e.kind, WireErrorKind::MissingField);
    assert_eq!(e.field, "deviceId");
}

#[test]
fn decode_reports_duplicate_field() {
    let rec = vec![text("region", "us"), text("region", "eu")];
    let e = Preferences::from_wire(&rec).unwrap_err();
    assert_eq!(e.kind, WireErrorKind::DuplicateField);
    assert_eq!(e.field, "region");
}

#[test]
fn decode_reports_invalid_type() {
    let rec = vec![
        WireField { key: "webp".to_string(), value: WireValue::Bytes(vec![1, 2]) },
        text("maxSize", "1024"),
    ];
    let e = CompressWebpToSizeArgs::from_wire(&rec).unwrap_err();
    assert_eq!(e.kind, WireErrorKind::InvalidType);
    assert_eq!(e.field, "maxSize");
}

#[test]
fn decode_is_case_sensitive() {
    let rec = vec![text("device_id", "d"), text("accessToken", "a"), text("refreshToken", "r")];
    let e = AuthDetails::from_wire(&rec).unwrap_err();
    assert_eq!(e.kind, WireErrorKind::MissingField);
    assert_eq!(e.field, "deviceId");
}

#[test]
fn copy_bytes_keeps_content() {
    let b = vec![9u8, 8, 7];
    assert_eq!(copy_bytes(&b), vec![9u8, 8, 7]);
}

#[test]
fn permission_state_names() {
    assert_eq!(PermissionState::Prompt.as_str(), "prompt");
    assert_eq!(PermissionState::Denied.as_str(), "denied");
    assert_eq!(PermissionState::Granted.as_str(), "granted");
}

#[test]
fn permission_status_from_state_reads_back() {
    for s in [PermissionState::Prompt, PermissionState::Denied, PermissionState::Granted] {
        let n = NotificationPermissionStatus::from_state(s);
        assert_eq!(n.status, s.as_str());
        assert_eq!(n.state(), Some(s));
    }
}

#[test]
fn permission_status_outside_the_three_has_no_state() {
    for bad in ["", "Granted", "allowed", "prompt "] {
        let n = NotificationPermissionStatus { status: bad.to_string() };
        assert_eq!(n.state(), None);
    }
    let n = NotificationPermissionStatus { status: "granted".to_string() };
    assert_eq!(n.state(), Some(PermissionState::Granted));
}
