use background_loader::text::bytes_to_string;

#[test]
fn valid_utf8_decodes_unchanged() {
    assert_eq!(bytes_to_string(&b"hello".to_vec()), "hello");
}

#[test]
fn invalid_utf8_becomes_replacement_character() {
    assert_eq!(bytes_to_string(&vec![0xFF]), "\u{FFFD}");
    assert_eq!(bytes_to_string(&vec![b'a', 0xC0, b'b']), "a\u{FFFD}b");
}

#[test]
fn empty_bytes_decode_to_empty_string() {
    assert_eq!(bytes_to_string(&Vec::new()), "");
}
