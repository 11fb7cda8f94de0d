use eg4_bridge::serial::SerialError;
use eg4_bridge::Serial;

#[test]
fn serial_parses_ten_bytes_and_prints_back() {
    let s = Serial::from_str("AB12345678").unwrap();
    assert_eq!(s.bytes, *b"AB12345678");
    assert_eq!(s.to_string(), "AB12345678");
}

#[test]
fn serial_refuses_wrong_length() {
    assert!(matches!(Serial::from_str("short"), Err(SerialError::WrongLength)));
    assert!(matches!(Serial::from_str("ELEVENCHARS"), Err(SerialError::WrongLength)));
    assert!(matches!(Serial::from_str(""), Err(SerialError::WrongLength)));
}

#[test]
fn serial_equality_compares_bytes() {
    let a = Serial::from_str("AB12345678").unwrap();
    let b = Serial::new(*b"AB12345678");
    let c = Serial::new(*b"AB12345679");
    assert!(a == b);
    assert!(a != c);
}

#[test]
fn serial_with_invalid_utf8_prints_replacement() {
    let s = Serial::new([0xff, b'1', b'2', b'3', b'4', b'5', b'6', b'7', b'8', b'9']);
    assert_eq!(s.to_string(), "\u{fffd}123456789");
}
