use parang::cmap::CMap;
use parang::content_parser::{parse_content_stream, Operand};
use parang::engine::{
    bytes_equal, content_chunks, decode_actual_text, decode_glyphs, extract_actual_text,
    extract_text, find_ei, join_page_texts, remove_soft_hyphens, strip_unparseable_content,
    MarkedContent,
};
use parang::font::{PdfFont, Type0Font};
use parang::glyph_list::GlyphList;
use parang::widths::CidWidths;

#[test]
fn find_ei_returns_position_after_ei() {
    assert_eq!(find_ei(b"BI /W 1 ID xx EI Q"), Some(16));
    assert_eq!(find_ei(b"BI ID xyz"), Some(9));
    assert_eq!(find_ei(b"BI no id here"), None);
    assert_eq!(find_ei(b"BI"), None);
}

#[test]
fn strip_removes_inline_images_and_nul_bytes() {
    assert_eq!(strip_unparseable_content(b"q BI /W 1 ID xx EI Q"), b"q Q".to_vec());
    assert_eq!(strip_unparseable_content(b"a\x00b(\x00)\x00"), b"ab(\x00)".to_vec());
    assert_eq!(strip_unparseable_content(b"(\\)\x00) \x00"), b"(\\)\x00) ".to_vec());
    assert_eq!(strip_unparseable_content(b""), Vec::<u8>::new());
}

#[test]
fn chunks_split_at_runs_of_three_nul_bytes() {
    assert_eq!(content_chunks(b"\x00ab\x00\x00c\x00\x00\x00de"), vec![(1, 6), (9, 11)]);
    assert_eq!(content_chunks(b"\x00\x00\x00"), Vec::<(usize, usize)>::new());
    assert_eq!(content_chunks(b"abc"), vec![(0, 3)]);
}

#[test]
fn soft_hyphens_are_removed() {
    assert_eq!(remove_soft_hyphens("co\u{AD}op\u{AD}"), "coop");
    assert_eq!(remove_soft_hyphens(&remove_soft_hyphens("a\u{AD}b")), "ab");
}

#[test]
fn actual_text_decoding() {
    assert_eq!(decode_actual_text(b"caf\xe9"), Some("caf\u{e9}".to_string()));
    assert_eq!(decode_actual_text(&[0xFE, 0xFF, 0x00, 0x48, 0x00, 0x69]), Some("Hi".to_string()));
    assert_eq!(decode_actual_text(&[0xFE, 0xFF, 0xD8, 0x00]), None);
    assert_eq!(decode_actual_text(&[0xFE, 0xFF, 0x00, 0x41, 0x42]), Some("A\u{0}".to_string()));
}

#[test]
fn actual_text_of_bdc_operands() {
    let ops = parse_content_stream(b"/Span <</ActualText (fi)>> BDC");
    assert_eq!(extract_actual_text(&ops[0].operands), Some("fi".to_string()));
    let hex = parse_content_stream(b"/Span <</Lang (en) /ActualText <FEFF00410042>>> BDC");
    assert_eq!(extract_actual_text(&hex[0].operands), Some("AB".to_string()));
    let named = vec![Operand::Name(b"Span".to_vec()), Operand::Name(b"P0".to_vec())];
    assert_eq!(extract_actual_text(&named), None);
    let short = vec![Operand::Name(b"Span".to_vec())];
    assert_eq!(extract_actual_text(&short), None);
    let none = parse_content_stream(b"/Span <</MCID 0>> BDC");
    assert_eq!(extract_actual_text(&none[0].operands), None);
}

#[test]
fn marked_content_replacement_goes_to_first_glyph() {
    let mut mc = MarkedContent::new();
    assert_eq!(mc.take_replacement(), None);
    mc.begin("Span".to_string(), Some("fi\u{AD}".to_string()));
    assert_eq!(mc.take_replacement(), Some("fi".to_string()));
    assert_eq!(mc.take_replacement(), Some(String::new()));
    mc.begin("Inner".to_string(), None);
    mc.end();
    assert_eq!(mc.take_replacement(), Some(String::new()));
    mc.end();
    assert_eq!(mc.take_replacement(), None);
    mc.end();
    assert_eq!(mc.take_replacement(), None);
}

#[test]
fn glyphs_without_font_are_single_bytes() {
    let mut mc = MarkedContent::new();
    let gl = GlyphList::new();
    let glyphs = decode_glyphs::<f32>(None, b"Hi", &gl, &gl, &mut mc);
    assert_eq!(glyphs.len(), 2);
    assert_eq!((glyphs[0].code, glyphs[0].code_length, glyphs[0].unicode.as_str()), (0x48, 1, "H"));
    assert_eq!(glyphs[1].unicode, "i");
}

#[test]
fn glyphs_take_actual_text() {
    let mut mc = MarkedContent::new();
    mc.begin("Span".to_string(), Some("X".to_string()));
    let gl = GlyphList::new();
    let glyphs = decode_glyphs::<f32>(None, b"ab", &gl, &gl, &mut mc);
    assert_eq!(glyphs[0].unicode, "X");
    assert_eq!(glyphs[1].unicode, "");
    let more = decode_glyphs::<f32>(None, b"c", &gl, &gl, &mut mc);
    assert_eq!(more[0].unicode, "");
}

#[test]
fn glyphs_of_a_two_byte_font() {
    let mut enc = CMap::new();
    enc.add_codespace_range(parang::cmap::CodespaceRange::new(vec![0x00, 0x00], vec![0xFF, 0xFF]));
    let mut tu = CMap::new();
    tu.add_char_mapping(0xAC00, 2, "\u{AC00}".to_string());
    let font = PdfFont::Type0(Type0Font::new("K", enc, false, Some(tu), None, false, 1000.0f32, CidWidths::new()));
    let gl = GlyphList::new();
    let mut mc = MarkedContent::new();
    let glyphs = decode_glyphs(Some(&font), &[0xAC, 0x00, 0x00], &gl, &gl, &mut mc);
    assert_eq!(glyphs.len(), 2);
    assert_eq!((glyphs[0].code, glyphs[0].code_length), (0xAC00, 2));
    assert_eq!(glyphs[0].unicode, "\u{AC00}");
    assert_eq!((glyphs[1].code, glyphs[1].code_length), (0x00, 1));
}

#[test]
fn page_texts_join_with_newlines_skipping_empty_pages() {
    let pages = vec!["one".to_string(), String::new(), "three".to_string()];
    assert_eq!(extract_text(&pages), "one\nthree");
    assert_eq!(extract_text(&vec![String::new(), String::new()]), "");
    assert_eq!(join_page_texts(&pages, "\u{c}"), "one\u{c}three");
}

#[test]
fn byte_slices_compare() {
    assert!(bytes_equal(b"abc", b"abc"));
    assert!(!bytes_equal(b"abc", b"abd"));
    assert!(!bytes_equal(b"ab", b"abc"));
}

#[test]
fn clean_content_passes_unchanged() {
    let data = b"BT /F1 12 Tf (a\\)b) Tj [(x)] TJ ET";
    assert_eq!(strip_unparseable_content(data), data.to_vec());
}

#[test]
fn chunks_are_ordered_and_start_with_content() {
    let data = b"\x00q\x00\x00\x00\x00Q\x00\x00\x00BT";
    let chunks = content_chunks(data);
    assert_eq!(chunks, vec![(1, 2), (6, 7), (10, 12)]);
    for w in chunks.windows(2) {
        assert!(w[0].1 <= w[1].0);
    }
}
