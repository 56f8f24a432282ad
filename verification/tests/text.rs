use telepath::common::protocol::SessionError;
use telepath::common::text::{append_decimal, is_all_digits, parse_u16_decimal};

#[test]
fn decimal_numbers() {
    let mut s = String::from("n=");
    append_decimal(&mut s, 0);
    assert_eq!(s, "n=0");
    let mut s = String::new();
    append_decimal(&mut s, 48000);
    assert_eq!(s, "48000");
    let mut s = String::new();
    append_decimal(&mut s, u64::MAX);
    assert_eq!(s, u64::MAX.to_string());
}

#[test]
fn port_parsing_follows_u16_from_str() {
    for text in ["7271", "0", "65535", "65536", "", "+", "+80", "-1", "12a", " 1", "00007", "99999999999"] {
        assert_eq!(parse_u16_decimal(text), text.parse::<u16>().ok(), "{text:?}");
    }
}

#[test]
fn digit_check() {
    assert!(is_all_digits(""));
    assert!(is_all_digits("0123456789"));
    assert!(!is_all_digits("12 3"));
    assert!(!is_all_digits("+1"));
    assert!(!is_all_digits("٣"));
}

#[test]
fn session_error_messages() {
    assert_eq!(
        SessionError::VersionMismatch { got: 2, expected: 1 }.message(),
        "protocol version mismatch: got 2, expected 1"
    );
    assert_eq!(SessionError::DeviceUnavailable.message(), "audio device unavailable");
    assert_eq!(
        SessionError::SampleRateMismatch { got: 44100, expected: 48000 }.message(),
        "sample rate mismatch: device 44100 Hz, DAW 48000 Hz"
    );
    assert_eq!(SessionError::Internal("boom".to_string()).message(), "internal error: boom");
}
