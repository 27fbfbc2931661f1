use parang::cos_helpers::{decode_text_string, hex_digit, name_to_string};

#[test]
fn test_name_to_string_simple() {
    assert_eq!(name_to_string(b"Helvetica"), "Helvetica");
}

#[test]
fn test_name_to_string_hex_encoded() {
    // #20 is space
    assert_eq!(name_to_string(b"My#20Font"), "My Font");
}

#[test]
fn test_name_to_string_hex_encoded_sharp() {
    // #23 is '#'
    assert_eq!(name_to_string(b"A#23B"), "A#B");
}

#[test]
fn test_decode_text_string_latin1() {
    assert_eq!(decode_text_string(b"Hello"), "Hello");
}

#[test]
fn test_decode_text_string_utf16be() {
    // FE FF = BOM, then 'H' 'i' in UTF-16BE
    let bytes = [0xFE, 0xFF, 0x00, 0x48, 0x00, 0x69];
    assert_eq!(decode_text_string(&bytes), "Hi");
}

#[test]
fn test_decode_text_string_utf8_bom() {
    let bytes = [0xEF, 0xBB, 0xBF, b'H', b'e', b'l', b'l', b'o'];
    assert_eq!(decode_text_string(&bytes), "Hello");
}

#[test]
fn name_with_incomplete_escape_keeps_sharp() {
    assert_eq!(name_to_string(b"A#2"), "A#2");
    assert_eq!(name_to_string(b"A#zz"), "A#zz");
}

#[test]
fn name_with_invalid_utf8_is_lossy() {
    assert_eq!(name_to_string(b"A#FF"), "A\u{FFFD}");
}

#[test]
fn latin1_bytes_map_to_same_code_points() {
    assert_eq!(decode_text_string(&[0x41, 0xE9]), "A\u{E9}");
}

#[test]
fn utf16_with_unpaired_surrogate_is_replaced() {
    let bytes = [0xFE, 0xFF, 0xD8, 0x00, 0x00, 0x41];
    assert_eq!(decode_text_string(&bytes), "\u{FFFD}A");
}

#[test]
fn utf16_surrogate_pair_decodes() {
    let bytes = [0xFE, 0xFF, 0xD8, 0x3D, 0xDE, 0x00];
    assert_eq!(decode_text_string(&bytes), "\u{1F600}");
}

#[test]
fn hex_digit_values() {
    assert_eq!(hex_digit(b'0'), Some(0));
    assert_eq!(hex_digit(b'a'), Some(10));
    assert_eq!(hex_digit(b'F'), Some(15));
    assert_eq!(hex_digit(b'g'), None);
}

#[test]
fn bytes_without_mark_are_pdf_doc_encoding() {
    assert_eq!(decode_text_string(&[0x80]), "\u{2022}");
    assert_eq!(decode_text_string(&[0x18, 0x93, 0xA0]), "\u{02D8}\u{FB01}\u{20AC}");
    assert_eq!(decode_text_string(&[0x7F, 0xAD]), "\u{FFFD}\u{FFFD}");
    assert_eq!(decode_text_string(&[0xE9, 0xA1]), "\u{E9}\u{A1}");
}
