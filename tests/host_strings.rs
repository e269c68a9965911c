use pystr_bridge::error::BridgeError;
use pystr_bridge::host::{has_terminator, posix_text_request, terminated_buffer, wide_native_bytes};

#[test]
fn terminator_found_anywhere() {
    assert!(!has_terminator(b""));
    assert!(!has_terminator(b"abc"));
    assert!(has_terminator(b"\0"));
    assert!(has_terminator(b"ab\0c"));
    assert!(has_terminator(b"abc\0"));
}

#[test]
fn terminated_buffer_appends_one_terminator() {
    assert_eq!(terminated_buffer(b"abc"), Ok(b"abc\0".to_vec()));
    assert_eq!(terminated_buffer(b""), Ok(vec![0u8]));
}

#[test]
fn terminated_buffer_rejects_embedded_terminator() {
    assert_eq!(terminated_buffer(b"a\0b"), Err(BridgeError::InvalidHostString));
    assert_eq!(terminated_buffer(b"\0"), Err(BridgeError::InvalidHostString));
}

#[test]
fn utf8_text_bytes_handed_over_unchanged() {
    let bytes = [b'c', b'a', b'f', 0xC3, 0xA9];
    let req = posix_text_request(&bytes).unwrap();
    assert_eq!(req.buffer, vec![b'c', b'a', b'f', 0xC3, 0xA9, 0]);
    assert_eq!(req.len, 5);
    assert_eq!(&req.buffer[..req.len], &bytes[..]);
}

#[test]
fn lone_invalid_byte_handed_over_unchanged() {
    let req = posix_text_request(&[0xFF]).unwrap();
    assert_eq!(req.buffer, vec![0xFF, 0]);
    assert_eq!(req.len, 1);
}

#[test]
fn text_request_asks_for_escaping_mode() {
    let req = posix_text_request(b"x").unwrap();
    assert_eq!(req.errors, b"surrogateescape\0".to_vec());
}

#[test]
fn text_request_rejects_embedded_terminator() {
    assert!(matches!(
        posix_text_request(b"ab\0"),
        Err(BridgeError::InvalidHostString)
    ));
}

#[test]
fn wide_bytes_are_low_byte_first_pairs() {
    assert_eq!(
        wide_native_bytes(&[0x0041, 0x00E9, 0x1234]),
        vec![0x41, 0x00, 0xE9, 0x00, 0x34, 0x12]
    );
}

#[test]
fn wide_bytes_keep_unpaired_surrogates_and_terminators() {
    let units = [0xD800u16, 0x0000, 0xDFFF];
    let bytes = wide_native_bytes(&units);
    assert_eq!(bytes.len(), 2 * units.len());
    assert_eq!(bytes, vec![0x00, 0xD8, 0x00, 0x00, 0xFF, 0xDF]);
}

#[test]
fn wide_bytes_of_empty_string() {
    assert_eq!(wide_native_bytes(&[]), Vec::<u8>::new());
}

#[test]
fn wide_bytes_match_native_layout() {
    let units: Vec<u16> = "h\u{e9}llo \u{1F600}".encode_utf16().collect();
    let expected: Vec<u8> = units.iter().flat_map(|u| u.to_le_bytes()).collect();
    assert_eq!(wide_native_bytes(&units), expected);
}
