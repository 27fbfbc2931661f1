use parang::basic_text::{basic_page_text, collect_text_from_operand};
use parang::content_parser::{parse_content_stream, Operand};
use parang::engine::extract_text;

#[test]
fn shown_strings_are_collected_in_order() {
    let ops = parse_content_stream(b"BT /F1 12 Tf (Hel) Tj [(lo) -200 <2021>] TJ 0 0 (x) \" (y) ' ET");
    assert_eq!(basic_page_text(&ops), "Hello !xy");
}

#[test]
fn other_operators_show_nothing() {
    let ops = parse_content_stream(b"(a) Tf (b) Do");
    assert_eq!(basic_page_text(&ops), "");
}

#[test]
fn bytes_read_as_latin1() {
    let ops = parse_content_stream(b"<e9ff> Tj");
    assert_eq!(basic_page_text(&ops), "\u{e9}\u{ff}");
}

#[test]
fn nested_arrays_are_walked() {
    let op = Operand::Array(vec![
        Operand::LiteralString(b"a".to_vec()),
        Operand::Array(vec![Operand::HexString(vec![0x62])]),
        Operand::Integer(5),
    ]);
    let mut out = String::from(">");
    collect_text_from_operand(&op, &mut out);
    assert_eq!(out, ">ab");
}

#[test]
fn pages_of_basic_text_join_with_newlines() {
    let pages: Vec<String> = [&b"(one) Tj"[..], b"", b"(two) Tj"]
        .iter()
        .map(|c| basic_page_text(&parse_content_stream(c)))
        .collect();
    assert_eq!(extract_text(&pages), "one\ntwo");
}
