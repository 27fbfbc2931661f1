use parang::content_parser::{
    hex_val, is_regular, is_ws_byte, parse_content_stream, parse_literal_string, skip_ws, Operand, RealNumber,
};

fn op_names(data: &[u8]) -> Vec<String> {
    parse_content_stream(data)
        .iter()
        .map(|o| String::from_utf8(o.operator.clone()).unwrap())
        .collect()
}

#[test]
fn text_object_operators_in_order() {
    assert_eq!(
        op_names(b"BT /F1 12 Tf 100 700 Td (Hello) Tj ET"),
        vec!["BT", "Tf", "Td", "Tj", "ET"]
    );
}

#[test]
fn operands_are_collected_until_the_operator() {
    let ops = parse_content_stream(b"/F1 12 Tf");
    assert_eq!(ops.len(), 1);
    assert_eq!(ops[0].operator, b"Tf".to_vec());
    assert_eq!(ops[0].operands.len(), 2);
    assert!(matches!(&ops[0].operands[0], Operand::Name(n) if n == b"F1"));
    assert!(matches!(ops[0].operands[1], Operand::Integer(12)));
}

#[test]
fn reals_keep_their_digits() {
    let ops = parse_content_stream(b"-1.25 .5 3. cm");
    let expect = [
        RealNumber { negative: true, int_value: 1, frac_value: 25, frac_digits: 2 },
        RealNumber { negative: false, int_value: 0, frac_value: 5, frac_digits: 1 },
        RealNumber { negative: false, int_value: 3, frac_value: 0, frac_digits: 0 },
    ];
    assert_eq!(ops[0].operands.len(), 3);
    for (o, e) in ops[0].operands.iter().zip(expect.iter()) {
        assert!(matches!(o, Operand::Real(r) if r == e));
    }
}

#[test]
fn stray_sign_reads_as_zero() {
    let ops = parse_content_stream(b"- + Tc");
    assert_eq!(ops[0].operands.len(), 2);
    assert!(matches!(ops[0].operands[0], Operand::Integer(0)));
    assert!(matches!(ops[0].operands[1], Operand::Integer(0)));
}

#[test]
fn literal_strings_handle_escapes_and_nesting() {
    let ops = parse_content_stream(b"(a\\(b\\) (c) \\101\\n) Tj");
    assert!(matches!(&ops[0].operands[0], Operand::LiteralString(s) if s == b"a(b) (c) A\n"));
}

#[test]
fn hex_strings_pad_odd_digits() {
    let ops = parse_content_stream(b"<48 65 6c6C 6> Tj");
    assert!(matches!(&ops[0].operands[0], Operand::HexString(s) if s == &vec![0x48, 0x65, 0x6c, 0x6c, 0x60]));
}

#[test]
fn arrays_and_dictionaries() {
    let ops = parse_content_stream(b"[(A) -120 (B)] TJ /Span <</ActualText (x) /MCID 3 /MCID 4>> BDC");
    assert_eq!(ops.len(), 2);
    match &ops[0].operands[0] {
        Operand::Array(items) => {
            assert_eq!(items.len(), 3);
            assert!(matches!(items[1], Operand::Integer(-120)));
        }
        _ => panic!("expected an array"),
    }
    match &ops[1].operands[1] {
        Operand::Dictionary(entries) => {
            assert_eq!(entries.len(), 2);
            assert_eq!(entries[0].0, b"ActualText".to_vec());
            assert_eq!(entries[1].0, b"MCID".to_vec());
            assert!(matches!(entries[1].1, Operand::Integer(4)));
        }
        _ => panic!("expected a dictionary"),
    }
}

#[test]
fn keywords_are_operands() {
    let ops = parse_content_stream(b"true false null xx");
    assert_eq!(ops.len(), 1);
    assert!(matches!(ops[0].operands[0], Operand::Boolean(true)));
    assert!(matches!(ops[0].operands[1], Operand::Boolean(false)));
    assert!(matches!(ops[0].operands[2], Operand::Null));
}

#[test]
fn inline_images_are_skipped_with_their_operands() {
    assert_eq!(
        op_names(b"q 1 BI /W 1 /H 1 ID \x00\xff\x12 EI Q"),
        vec!["q", "Q"]
    );
}

#[test]
fn comments_nul_bytes_and_stray_bytes_are_skipped() {
    assert_eq!(op_names(b"% comment BT\nq\x00\x00) } Q"), vec!["q", "Q"]);
    assert_eq!(op_names(b"T* ' \""), vec!["T*", "'", "\""]);
}

#[test]
fn names_decode_escapes() {
    let ops = parse_content_stream(b"/A#20B Do");
    assert!(matches!(&ops[0].operands[0], Operand::Name(n) if n == b"A B"));
}

#[test]
fn empty_stream_has_no_operations() {
    assert!(parse_content_stream(b"").is_empty());
    assert!(parse_content_stream(b"  1 2 3 ").is_empty());
}

#[test]
fn byte_classes() {
    assert!(is_ws_byte(b' '));
    assert!(is_ws_byte(0));
    assert!(!is_ws_byte(b'a'));
    assert!(is_regular(b'a'));
    assert!(!is_regular(b'/'));
    assert_eq!(hex_val(b'c'), Some(12));
    assert_eq!(hex_val(b'x'), None);
    assert_eq!(skip_ws(b"  % c\n x", 0), 7);
}

#[test]
fn literal_string_from_the_first_byte() {
    assert_eq!(parse_literal_string(b"a(b)c\\)d) rest", 0), (b"a(b)c)d".to_vec(), 9));
    assert_eq!(parse_literal_string(b"x\\101\\0537\\\ny\r\nz)", 0), (b"xA+7y\nz".to_vec(), 17));
}

#[test]
fn skip_ws_past_the_end_is_unchanged() {
    assert_eq!(skip_ws(b"ab", 5), 5);
    assert_eq!(skip_ws(b"ab", 2), 2);
}
