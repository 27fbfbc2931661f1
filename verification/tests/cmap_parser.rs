use parang::cmap_lexer::{bytes_to_u32, hex_bytes_to_unicode, u32_to_unicode};
use parang::cmap_parser::parse_cmap;
use parang::glyph_list::GlyphList;

fn no_glyphs() -> GlyphList {
    GlyphList::new()
}

#[test]
fn test_parse_simple_bfchar() {
    let cmap_data = br#"
/CIDInit /ProcSet findresource begin
12 dict begin
begincmap
/CMapName /TestCMap def
/CMapType 2 def
1 begincodespacerange
<0000> <FFFF>
endcodespacerange
3 beginbfchar
<0041> <0041>
<0042> <0042>
<AC00> <AC00>
endbfchar
endcmap
"#;
    let cmap = parse_cmap(cmap_data, &no_glyphs());
    assert_eq!(cmap.name, "TestCMap");
    assert_eq!(cmap.to_unicode(0x0041, 2), Some("A"));
    assert_eq!(cmap.to_unicode(0x0042, 2), Some("B"));
    assert_eq!(cmap.to_unicode(0xAC00, 2), Some("\u{AC00}")); // Korean 가
}

#[test]
fn test_parse_bfrange_sequential() {
    let cmap_data = br#"
1 begincodespacerange
<00> <FF>
endcodespacerange
1 beginbfrange
<41> <5A> <0041>
endbfrange
endcmap
"#;
    let cmap = parse_cmap(cmap_data, &no_glyphs());
    assert_eq!(cmap.to_unicode(0x41, 1), Some("A"));
    assert_eq!(cmap.to_unicode(0x42, 1), Some("B"));
    assert_eq!(cmap.to_unicode(0x5A, 1), Some("Z"));
    assert_eq!(cmap.to_unicode(0x5B, 1), None);
}

#[test]
fn test_parse_bfrange_array() {
    let cmap_data = br#"
1 begincodespacerange
<00> <FF>
endcodespacerange
1 beginbfrange
<01> <03> [<0041> <0042> <0043>]
endbfrange
endcmap
"#;
    let cmap = parse_cmap(cmap_data, &no_glyphs());
    assert_eq!(cmap.to_unicode(0x01, 1), Some("A"));
    assert_eq!(cmap.to_unicode(0x02, 1), Some("B"));
    assert_eq!(cmap.to_unicode(0x03, 1), Some("C"));
}

#[test]
fn test_parse_cidrange() {
    let cmap_data = br#"
1 begincodespacerange
<0000> <FFFF>
endcodespacerange
1 begincidrange
<0000> <00FF> 0
endcidrange
endcmap
"#;
    let cmap = parse_cmap(cmap_data, &no_glyphs());
    assert_eq!(cmap.to_cid(0x0000, 2), Some(0));
    assert_eq!(cmap.to_cid(0x0041, 2), Some(0x41));
    assert_eq!(cmap.to_cid(0x00FF, 2), Some(0xFF));
}

#[test]
fn test_parse_cidchar() {
    let cmap_data = br#"
1 begincodespacerange
<0000> <FFFF>
endcodespacerange
2 begincidchar
<0041> 100
<0042> 200
endcidchar
endcmap
"#;
    let cmap = parse_cmap(cmap_data, &no_glyphs());
    assert_eq!(cmap.to_cid(0x0041, 2), Some(100));
    assert_eq!(cmap.to_cid(0x0042, 2), Some(200));
}

#[test]
fn cmap_parser_test_codespace_range() {
    let cmap_data = br#"
2 begincodespacerange
<00> <80>
<8140> <9FFC>
endcodespacerange
endcmap
"#;
    let cmap = parse_cmap(cmap_data, &no_glyphs());
    let ranges = cmap.codespace_ranges();
    assert_eq!(ranges.len(), 2);
    assert_eq!(ranges[0].code_length, 1);
    assert_eq!(ranges[1].code_length, 2);
    assert_eq!(cmap.min_code_length(), 1);
    assert_eq!(cmap.max_code_length(), 2);
}

#[test]
fn test_wmode() {
    let cmap_data = br#"
/WMode 1 def
endcmap
"#;
    let cmap = parse_cmap(cmap_data, &no_glyphs());
    assert_eq!(cmap.wmode, 1);
}

#[test]
fn test_hex_bytes_to_unicode() {
    assert_eq!(hex_bytes_to_unicode(&[0x00, 0x41]), "A");
    assert_eq!(hex_bytes_to_unicode(&[0xAC, 0x00]), "\u{AC00}");
    assert_eq!(hex_bytes_to_unicode(&[0x00, 0x48, 0x00, 0x69]), "Hi");
}

#[test]
fn test_bytes_to_u32() {
    assert_eq!(bytes_to_u32(&[0x41]), 0x41);
    assert_eq!(bytes_to_u32(&[0x00, 0x41]), 0x41);
    assert_eq!(bytes_to_u32(&[0xAC, 0x00]), 0xAC00);
}

#[test]
fn test_comments_are_skipped() {
    let cmap_data = br#"
% This is a comment
1 begincodespacerange
<00> <FF>
endcodespacerange
% Another comment
1 beginbfchar
<41> <0041>
endbfchar
endcmap
"#;
    let cmap = parse_cmap(cmap_data, &no_glyphs());
    assert_eq!(cmap.to_unicode(0x41, 1), Some("A"));
}

#[test]
fn bfchar_with_glyph_name_uses_glyph_list() {
    let mut glyphs = GlyphList::new();
    glyphs.load_from_str("A;0041\nspace;0020\n");
    let cmap_data = br#"
3 beginbfchar
<01> /space
<02> /A
<03> /unknownglyph
endbfchar
"#;
    let cmap = parse_cmap(cmap_data, &glyphs);
    assert_eq!(cmap.to_unicode(0x01, 1), Some(" "));
    assert_eq!(cmap.to_unicode(0x02, 1), Some("A"));
    assert_eq!(cmap.to_unicode(0x03, 1), None);
}

#[test]
fn bytes_to_u32_keeps_last_four_bytes() {
    assert_eq!(bytes_to_u32(&[]), 0);
    assert_eq!(bytes_to_u32(&[0x01, 0x02, 0x03, 0x04, 0x05]), 0x02030405);
}

#[test]
fn hex_bytes_single_byte_is_latin1() {
    assert_eq!(hex_bytes_to_unicode(&[0x41]), "A");
    assert_eq!(hex_bytes_to_unicode(&[]), "");
}

#[test]
fn u32_to_unicode_widths() {
    assert_eq!(u32_to_unicode(0x41, 1), "A");
    assert_eq!(u32_to_unicode(0x0042, 2), "B");
}

#[test]
fn cid_ranges_out_of_order_are_sorted() {
    let cmap_data = br#"
2 begincidrange
<0100> <01FF> 1000
<0000> <00FF> 0
endcidrange
"#;
    let cmap = parse_cmap(cmap_data, &no_glyphs());
    assert_eq!(cmap.to_cid(0x0005, 2), Some(5));
    assert_eq!(cmap.to_cid(0x0105, 2), Some(1005));
    assert_eq!(cmap.to_cid(0x0205, 2), None);
}

#[test]
fn usecmap_and_unknown_operators_are_ignored() {
    let cmap_data = br#"
/Adobe-Japan1-UCS2 usecmap
1 beginbfchar
<20> <0020>
endbfchar
"#;
    let cmap = parse_cmap(cmap_data, &no_glyphs());
    assert_eq!(cmap.to_unicode(0x20, 1), Some(" "));
}
