use parang::cmap::CMap;
use parang::dictionary::EncodingEntry;
use parang::font::{
    font_kind, is_cjk_collection, is_symbolic_flags, read_encoding, read_to_unicode, FontKind,
    PdfFont, SimpleFont, Type0Font, Type3Font,
};
use parang::glyph_list::GlyphList;
use parang::widths::CidWidths;

/// Entries of the Adobe Glyph List that the tests below need.
fn glyphs() -> GlyphList {
    let mut gl = GlyphList::new();
    gl.load_from_str("A;0041\nspace;0020\nB;0042\n");
    gl
}

fn dingbats() -> GlyphList {
    let mut gl = GlyphList::new();
    gl.load_from_str("a1;2701\n");
    gl
}

fn helvetica(widths: Vec<f32>) -> SimpleFont<f32> {
    let enc = EncodingEntry::Name(b"WinAnsiEncoding".to_vec());
    SimpleFont::new("Type1", "Helvetica", Some(&enc), false, None, widths, 32, 0.0)
}

fn wide_widths() -> Vec<f32> {
    (0..224).map(|i| (500 + i) as f32).collect()
}

#[test]
fn test_simple_font_creation() {
    let font = helvetica(wide_widths());
    assert_eq!(font.base_font(), "Helvetica");
    assert_eq!(font.subtype(), "Type1");
}

#[test]
fn test_to_unicode_via_encoding() {
    let font = helvetica(wide_widths());
    // 65 = 'A' in WinAnsiEncoding
    assert_eq!(font.to_unicode(65, &glyphs(), &dingbats()), Some("A".to_string()));
    // 32 = 'space' in WinAnsiEncoding
    assert_eq!(font.to_unicode(32, &glyphs(), &dingbats()), Some(" ".to_string()));
}

#[test]
fn test_get_width() {
    let font = helvetica(wide_widths());
    // FirstChar=32, so code 32 → index 0 → width 500
    assert_eq!(font.get_width(32), 500.0);
    // code 65 → index 33 → width 533
    assert_eq!(font.get_width(65), 533.0);
}

#[test]
fn test_missing_width() {
    let font = helvetica((0..10).map(|i| (600 + i) as f32).collect());
    // Code 32 (first_char) → index 0 → 600
    assert_eq!(font.get_width(32), 600.0);
    // Code 100 → index 68, out of widths range → missing_width (0.0 by default)
    assert_eq!(font.get_width(100), 0.0);
}

#[test]
fn test_notdef_returns_none() {
    let font = helvetica(wide_widths());
    // Code 0 is not mapped in WinAnsiEncoding
    assert_eq!(font.to_unicode(0, &glyphs(), &dingbats()), None);
}

#[test]
fn test_standard_encoding_default() {
    let font: SimpleFont<f32> = SimpleFont::new("Type1", "SomeFont", None, false, None, Vec::new(), 0, 0.0);
    // Without explicit encoding, should default to StandardEncoding
    // code 65 = 'A' in StandardEncoding
    assert_eq!(font.to_unicode(65, &glyphs(), &dingbats()), Some("A".to_string()));
}

#[test]
fn test_type3_font_creation() {
    let enc = EncodingEntry::Name(b"WinAnsiEncoding".to_vec());
    let widths: Vec<f32> = (0..96).map(|i| (500 + i) as f32).collect();
    let font = Type3Font::new("CustomType3", Some(&enc), None, widths, 32, 0.0);

    assert_eq!(font.base_font(), "CustomType3");
    assert_eq!(font.to_unicode(65, &glyphs()), Some("A".to_string()));
    assert_eq!(font.get_width(32), 500.0);
    assert_eq!(font.get_width(65), 533.0);
}

fn test_type0(to_unicode: Option<CMap>, widths: CidWidths<f32>) -> Type0Font<f32> {
    Type0Font::new("TestFont", CMap::new(), false, to_unicode, None, false, 1000.0, widths)
}

#[test]
fn test_code_to_cid_identity() {
    // With an empty encoding CMap, code_to_cid should return the code itself
    let font = test_type0(None, CidWidths::new());
    assert_eq!(font.code_to_cid(0x41), 0x41);
}

#[test]
fn test_to_unicode_via_tounicode_cmap() {
    let mut tounicode = CMap::new();
    tounicode.add_char_mapping(0x0041, 2, "A".to_string());
    tounicode.add_char_mapping(0xAC00, 2, "\u{AC00}".to_string()); // Korean 가

    let font = test_type0(Some(tounicode), CidWidths::new());

    assert_eq!(font.to_unicode(0x0041), Some("A".to_string()));
    assert_eq!(font.to_unicode(0xAC00), Some("\u{AC00}".to_string()));
}

#[test]
fn test_width_lookup() {
    let mut widths = CidWidths::new();
    widths.insert_individual(100, 500.0);
    widths.insert_individual(101, 600.0);

    let font = test_type0(None, widths);

    // Identity CMap: code = CID
    assert_eq!(font.get_width(100), 500.0);
    assert_eq!(font.get_width(101), 600.0);
    assert_eq!(font.get_width(200), 1000.0); // default
}

#[test]
fn tounicode_cmap_comes_before_encoding() {
    let mut cmap = CMap::new();
    cmap.add_char_mapping(65, 1, "Z".to_string());
    let enc = EncodingEntry::Name(b"WinAnsiEncoding".to_vec());
    let font: SimpleFont<f32> =
        SimpleFont::new("TrueType", "Arial", Some(&enc), false, Some(cmap), Vec::new(), 0, 250.0);
    assert_eq!(font.to_unicode(65, &glyphs(), &dingbats()), Some("Z".to_string()));
    assert_eq!(font.to_unicode(66, &glyphs(), &dingbats()), Some("B".to_string()));
    assert_eq!(font.get_width(66), 250.0);
}

#[test]
fn dingbats_fonts_use_their_glyph_list_and_encoding() {
    let font: SimpleFont<f32> =
        SimpleFont::new("Type1", "ZapfDingbats", None, false, None, Vec::new(), 0, 0.0);
    assert_eq!(font.to_unicode(33, &glyphs(), &dingbats()), Some("\u{2701}".to_string()));
}

#[test]
fn symbol_font_without_encoding_uses_symbol_encoding() {
    let enc = read_encoding(None, false, "Symbol");
    assert_eq!(enc.get_name(65), Some("Alpha"));
    let plain = read_encoding(None, false, "Times");
    assert_eq!(plain.get_name(65), Some("A"));
}

#[test]
fn symbolic_flag_is_bit_three() {
    assert!(is_symbolic_flags(4));
    assert!(is_symbolic_flags(32 + 4));
    assert!(!is_symbolic_flags(32));
    assert!(!is_symbolic_flags(0));
}

#[test]
fn font_kinds_by_subtype() {
    assert_eq!(font_kind("Type0"), FontKind::Type0);
    assert_eq!(font_kind("Type3"), FontKind::Type3);
    assert_eq!(font_kind("TrueType"), FontKind::Simple);
    assert_eq!(font_kind("Whatever"), FontKind::Simple);
}

#[test]
fn cjk_collections() {
    assert!(is_cjk_collection("Adobe", "Korea1"));
    assert!(is_cjk_collection("Adobe", "Japan1"));
    assert!(!is_cjk_collection("Adobe", "Identity"));
}

#[test]
fn tounicode_stream_without_mappings_is_dropped() {
    let data = b"1 begincodespacerange\n<00> <FF>\nendcodespacerange\n";
    assert!(read_to_unicode(data, &glyphs()).is_none());
    let data = b"1 beginbfchar\n<41> <0041>\nendbfchar\n";
    let cmap = read_to_unicode(data, &glyphs()).unwrap();
    assert_eq!(cmap.to_unicode(0x41, 1), Some("A"));
}

#[test]
fn pdf_font_dispatches_to_its_kind() {
    let font = PdfFont::Simple(helvetica(wide_widths()));
    assert_eq!(font.to_unicode(65, &glyphs(), &dingbats()), Some("A".to_string()));
    assert_eq!(font.get_width(65), 533.0);
    assert_eq!(font.read_code(&[0x41, 0x42], 1), (0x42, 1));
    assert_eq!(font.base_font_name(), "Helvetica");
    let t0 = PdfFont::Type0(test_type0(None, CidWidths::new()));
    assert_eq!(t0.get_width(5), 1000.0);
}
