use ear_battery::decode::{
    battery_level, decode, is_recharging, read_command, DecodeError, DeviceInfo, BATTERY_STATUS_2,
};
use ear_battery::device::DeviceType;

fn report(count: u8, entries: &[u8]) -> Vec<u8> {
    let mut buf = vec![0x55u8, 0x60, 0x01, 0x07, 0x40, 0x00, 0x00, 0x00, count];
    buf.extend_from_slice(entries);
    buf
}

#[test]
fn classify_known_codes() {
    assert_eq!(DeviceType::from(2u8), DeviceType::LeftEar);
    assert_eq!(DeviceType::from(3u8), DeviceType::RightEar);
    assert_eq!(DeviceType::from(4u8), DeviceType::Case);
}

#[test]
fn classify_other_codes_unknown() {
    for code in 0u16..=255 {
        let code = code as u8;
        if code < 2 || code > 4 {
            assert_eq!(DeviceType::from(code), DeviceType::Unknown);
        }
    }
}

#[test]
fn device_names() {
    assert_eq!(DeviceType::LeftEar.name(), "LeftEar");
    assert_eq!(DeviceType::RightEar.name(), "RightEar");
    assert_eq!(DeviceType::Case.name(), "Case");
    assert_eq!(DeviceType::Unknown.name(), "Unknown");
}

#[test]
fn status_byte_full_and_charging() {
    assert_eq!(battery_level(0xFF), 0x7F);
    assert!(is_recharging(0xFF));
}

#[test]
fn status_byte_half_not_charging() {
    assert_eq!(battery_level(0x32), 0x32);
    assert!(!is_recharging(0x32));
}

#[test]
fn command_code_is_little_endian() {
    let buf = report(0, &[]);
    assert_eq!(read_command(&buf), BATTERY_STATUS_2);
    assert_eq!(read_command(&[0, 0, 0, 0x40, 0x07]), 0x0740);
}

#[test]
fn decode_is_deterministic() {
    let buf = report(2, &[2, 0x64, 3, 0x85]);
    assert_eq!(decode(&buf), decode(&buf.clone()));
}

#[test]
fn all_zero_buffer_is_unexpected() {
    let buf = [0u8; 17];
    assert_eq!(decode(&buf), Err(DecodeError::UnexpectedResponse));
}

#[test]
fn wrong_code_is_unexpected_whatever_follows() {
    let mut buf = report(3, &[2, 0x32, 3, 0xAA, 4, 0x00]);
    buf[4] = 0x41;
    assert_eq!(decode(&buf), Err(DecodeError::UnexpectedResponse));
    let short = [0u8, 0, 0, 0x08, 0x40];
    assert_eq!(decode(&short), Err(DecodeError::UnexpectedResponse));
}

#[test]
fn three_unit_report() {
    let mut buf = report(3, &[2, 0x32, 3, 0xAA, 4, 0x00]);
    buf.extend_from_slice(&[0, 0]);
    assert_eq!(buf.len(), 17);
    let expected = vec![
        DeviceInfo { device_type: DeviceType::LeftEar, battery_level: 50, recharging: false },
        DeviceInfo { device_type: DeviceType::RightEar, battery_level: 0x2A, recharging: true },
        DeviceInfo { device_type: DeviceType::Case, battery_level: 0, recharging: false },
    ];
    assert_eq!(decode(&buf), Ok(expected));
}

#[test]
fn earbuds_only_report() {
    let buf = report(2, &[3, 0xE4, 2, 0x10]);
    assert_eq!(buf.len(), 13);
    let expected = vec![
        DeviceInfo { device_type: DeviceType::RightEar, battery_level: 100, recharging: true },
        DeviceInfo { device_type: DeviceType::LeftEar, battery_level: 16, recharging: false },
    ];
    assert_eq!(decode(&buf), Ok(expected));
}

#[test]
fn unknown_role_is_kept() {
    let buf = report(1, &[9, 0x05]);
    let expected = vec![DeviceInfo {
        device_type: DeviceType::Unknown,
        battery_level: 5,
        recharging: false,
    }];
    assert_eq!(decode(&buf), Ok(expected));
}

#[test]
fn empty_report_is_not_an_error() {
    let mut buf = report(0, &[]);
    buf.extend_from_slice(&[7u8; 8]);
    assert_eq!(decode(&buf), Ok(vec![]));
}

#[test]
fn report_shorter_than_announced() {
    let buf = report(3, &[2, 0x32, 3, 0xAA]);
    assert_eq!(decode(&buf), Err(DecodeError::ShortResponse));
}

#[test]
fn response_without_count_is_short() {
    let buf = [0u8, 0, 0, 0x07, 0x40, 0, 0];
    assert_eq!(decode(&buf), Err(DecodeError::ShortResponse));
    assert_eq!(decode(&[0x07, 0x40]), Err(DecodeError::ShortResponse));
    assert_eq!(decode(&[]), Err(DecodeError::ShortResponse));
}
