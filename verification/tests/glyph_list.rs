use parang::glyph_data::default_glyph_list;
use parang::glyph_list::{is_unicode_whitespace, GlyphList};

/// Lines in the format of the Adobe Glyph List.
fn sample_list() -> GlyphList {
    let mut gl = GlyphList::new();
    gl.load_from_str(
        "# Name;Unicode\nA;0041\nspace;0020\nfi;FB01\nAdieresis;00C4\nf_f;0066 0066\n",
    );
    gl
}

#[test]
fn test_default_glyph_list_loaded() {
    let gl = default_glyph_list();
    assert!(gl.len() > 4000, "should have 4000+ entries, got {}", gl.len());
}

#[test]
fn test_basic_lookup() {
    let gl = default_glyph_list();
    assert_eq!(gl.to_unicode("A"), Some("A".to_string()));
    assert_eq!(gl.to_unicode("space"), Some(" ".to_string()));
    assert_eq!(gl.to_unicode("fi"), Some("\u{FB01}".to_string()));
}

#[test]
fn test_notdef() {
    let gl = default_glyph_list();
    assert_eq!(gl.to_unicode(".notdef"), None);
    assert_eq!(gl.to_unicode(""), None);
}

#[test]
fn test_uni_format() {
    let gl = default_glyph_list();
    assert_eq!(gl.to_unicode("uni0041"), Some("A".to_string()));
    assert_eq!(gl.to_unicode("uniAC00"), Some("\u{AC00}".to_string())); // Korean '가'
}

#[test]
fn test_u_format() {
    let gl = default_glyph_list();
    assert_eq!(gl.to_unicode("u0041"), Some("A".to_string()));
    assert_eq!(gl.to_unicode("uAC00"), Some("\u{AC00}".to_string()));
}

#[test]
fn test_dot_suffix() {
    let gl = default_glyph_list();
    // "A.swash" should resolve via base name "A"
    assert_eq!(gl.to_unicode("A.swash"), Some("A".to_string()));
}

#[test]
fn glyph_list_test_reverse_lookup() {
    let gl = default_glyph_list();
    assert_eq!(gl.code_point_to_name(0x0041), Some("A"));
    assert_eq!(gl.code_point_to_name(0x0020), Some("space"));
}

#[test]
fn multi_code_point_entries_and_sequences() {
    let gl = sample_list();
    assert_eq!(gl.to_unicode("f_f"), Some("ff".to_string()));
    assert_eq!(gl.sequence_to_name("ff"), Some("f_f"));
    assert_eq!(gl.sequence_to_name("zz"), None);
}

#[test]
fn uni_sequences_of_several_code_points() {
    let gl = sample_list();
    assert_eq!(gl.to_unicode("uni00410042"), Some("AB".to_string()));
    assert_eq!(gl.to_unicode("uni0041004"), None);
    assert_eq!(gl.to_unicode("uniD800"), None);
}

#[test]
fn u_format_with_five_or_six_digits() {
    let gl = sample_list();
    assert_eq!(gl.to_unicode("u1F600"), Some("\u{1F600}".to_string()));
    assert_eq!(gl.to_unicode("u12"), None);
    assert_eq!(gl.to_unicode("uZZZZ"), None);
}

#[test]
fn first_entry_for_a_name_wins() {
    let mut gl = GlyphList::new();
    gl.load_from_str("A;0041\nA;0042\nB;0041\n");
    assert_eq!(gl.to_unicode("A"), Some("A".to_string()));
    assert_eq!(gl.code_point_to_name(0x41), Some("A"));
    assert_eq!(gl.len(), 2);
    assert!(!gl.is_empty());
}

#[test]
fn comments_blank_and_malformed_lines_are_skipped() {
    let mut gl = GlyphList::new();
    gl.load_from_str("# comment\n\n   \nnosemicolon\nbad;ZZZZ\n  C;0043  \n");
    assert_eq!(gl.len(), 1);
    assert_eq!(gl.to_unicode("C"), Some("C".to_string()));
    assert_eq!(gl.to_unicode("bad"), None);
}

#[test]
fn hex_to_string_skips_invalid_words() {
    assert_eq!(GlyphList::hex_to_string("0041 0042"), "AB");
    assert_eq!(GlyphList::hex_to_string("0041 zz D800 0043"), "AC");
    assert_eq!(GlyphList::hex_to_string(""), "");
}

#[test]
fn unknown_names_have_no_text() {
    let gl = sample_list();
    assert_eq!(gl.to_unicode("nosuchglyph"), None);
    assert_eq!(gl.code_point_to_name(0xD800), None);
    assert!(GlyphList::new().is_empty());
}

#[test]
fn whitespace_classification() {
    assert!(is_unicode_whitespace(' '));
    assert!(is_unicode_whitespace('\u{3000}'));
    assert!(!is_unicode_whitespace('a'));
}
