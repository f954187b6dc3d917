use flower_care::device::{battery_level, firmware_version};
use flower_care::error::FlowerError;

#[test]
fn battery_is_first_byte() {
    assert_eq!(battery_level(&[87, 21, b'3', b'.', b'2']), Ok(87));
    assert_eq!(battery_level(&[255]), Ok(255));
}

#[test]
fn battery_of_empty_value_fails() {
    assert_eq!(battery_level(&[]), Err(FlowerError::DecodeError));
}

#[test]
fn version_skips_two_header_bytes() {
    let value = [100u8, 21, b'3', b'.', b'2', b'.', b'1'];
    assert_eq!(firmware_version(&value), Ok("3.2.1".to_string()));
}

#[test]
fn version_of_header_only_is_empty() {
    assert_eq!(firmware_version(&[1, 2]), Ok(String::new()));
}

#[test]
fn version_keeps_multibyte_text() {
    let mut value = vec![0u8, 0];
    value.extend_from_slice("v\u{e9}".as_bytes());
    assert_eq!(firmware_version(&value), Ok("v\u{e9}".to_string()));
}

#[test]
fn version_with_invalid_utf8_fails() {
    assert_eq!(firmware_version(&[0, 0, b'3', 0xFF]), Err(FlowerError::DecodeError));
    assert_eq!(firmware_version(&[0, 0, 0xC3]), Err(FlowerError::DecodeError));
}

#[test]
fn version_shorter_than_header_fails() {
    assert_eq!(firmware_version(&[]), Err(FlowerError::DecodeError));
    assert_eq!(firmware_version(&[42]), Err(FlowerError::DecodeError));
}

#[test]
fn version_header_bytes_are_not_text() {
    // invalid UTF-8 in the header is skipped
    assert_eq!(firmware_version(&[0xFF, 0xFE, b'1']), Ok("1".to_string()));
}
