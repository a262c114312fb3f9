use imageboard::text::{read_field, same_text};

#[test]
fn field_is_trimmed_at_both_ends() {
    assert_eq!(read_field(b"  hello world \t\r\n"), "hello world");
    assert_eq!(read_field(b"a"), "a");
    assert_eq!(read_field(b"\n a b \n"), "a b");
}

#[test]
fn blank_field_is_empty() {
    assert_eq!(read_field(b""), "");
    assert_eq!(read_field(b"   "), "");
    assert_eq!(read_field(b" \t\r\n\x0b\x0c"), "");
}

#[test]
fn unicode_white_space_is_trimmed() {
    let text = "\u{00A0}\u{2003}\u{3000}x\u{1680}\u{2028}\u{205F}\u{0085}";
    assert_eq!(read_field(text.as_bytes()), "x");
}

#[test]
fn characters_next_to_white_space_are_kept() {
    // U+200B (zero width space) and U+001F are not white space.
    let text = "\u{200B}x\u{001F}";
    assert_eq!(read_field(text.as_bytes()), text);
}

#[test]
fn ill_formed_bytes_are_replaced() {
    assert_eq!(read_field(&[0xff]), "\u{FFFD}");
    assert_eq!(read_field(&[b'a', 0xff, b'b']), "a\u{FFFD}b");
    assert_eq!(read_field(&[b' ', 0xc3, b' ']), "\u{FFFD}");
}

#[test]
fn well_formed_text_is_decoded() {
    assert_eq!(read_field("h\u{e9}llo \u{4e16}\u{754c}".as_bytes()), "h\u{e9}llo \u{4e16}\u{754c}");
}

#[test]
fn same_text_compares_whole_texts() {
    assert!(same_text("file", "file"));
    assert!(same_text("", ""));
    assert!(!same_text("file", "File"));
    assert!(!same_text("file", "files"));
    assert!(!same_text("name", "body"));
}
