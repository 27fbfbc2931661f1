use parang::cmap_manager::{get_predefined_cmap, has_predefined_cmap, identity_h};
use parang::glyph_list::GlyphList;

/// A small registry of predefined CMaps: the two identity CMaps and an
/// excerpt of the Korean UCS2 CMap.
fn registry() -> Vec<(String, Vec<u8>)> {
    let identity_h = b"/CIDInit /ProcSet findresource begin
12 dict begin
begincmap
/CMapName /Identity-H def
/CMapType 1 def
/WMode 0 def
1 begincodespacerange
<0000> <FFFF>
endcodespacerange
1 begincidrange
<0000> <FFFF> 0
endcidrange
endcmap
"
    .to_vec();
    let identity_v = b"/CMapName /Identity-V def
/WMode 1 def
1 begincodespacerange
<0000> <FFFF>
endcodespacerange
1 begincidrange
<0000> <FFFF> 0
endcidrange
endcmap
"
    .to_vec();
    let korea_ucs2 = b"/CMapName /Adobe-Korea1-UCS2 def
1 begincodespacerange
<0000> <FFFF>
endcodespacerange
2 beginbfchar
<0001> <0020>
<0022> <0041>
endbfchar
endcmap
"
    .to_vec();
    vec![
        ("Identity-H".to_string(), identity_h),
        ("Identity-V".to_string(), identity_v),
        ("Adobe-Korea1-UCS2".to_string(), korea_ucs2),
    ]
}

#[test]
fn test_identity_h() {
    let reg = registry();
    let cmap = get_predefined_cmap(&reg, "Identity-H", &GlyphList::new());
    assert!(cmap.is_some(), "Identity-H should be available");
    let cmap = cmap.unwrap();
    assert!(
        cmap.codespace_ranges().len() > 0,
        "Identity-H should have codespace ranges"
    );
}

#[test]
fn test_korea_ucs2() {
    let reg = registry();
    let cmap = get_predefined_cmap(&reg, "Adobe-Korea1-UCS2", &GlyphList::new());
    assert!(cmap.is_some(), "Adobe-Korea1-UCS2 should be available");
    let cmap = cmap.unwrap();
    assert!(
        cmap.unicode_mapping_count() > 0,
        "Adobe-Korea1-UCS2 should have Unicode mappings"
    );
}

#[test]
fn test_nonexistent() {
    let reg = registry();
    assert!(get_predefined_cmap(&reg, "NoSuchCMap", &GlyphList::new()).is_none());
}

#[test]
fn test_cache_works() {
    let reg = registry();
    let glyphs = GlyphList::new();
    let cmap1 = get_predefined_cmap(&reg, "Identity-V", &glyphs);
    assert!(cmap1.is_some());
    let cmap2 = get_predefined_cmap(&reg, "Identity-V", &glyphs);
    assert!(cmap2.is_some());
}

#[test]
fn test_has_predefined() {
    let reg = registry();
    assert!(has_predefined_cmap(&reg, "Identity-H"));
    assert!(has_predefined_cmap(&reg, "Adobe-Korea1-UCS2"));
    assert!(!has_predefined_cmap(&reg, "FakeCMap"));
}

#[test]
fn identity_cmap_maps_code_to_same_cid() {
    let reg = registry();
    let cmap = identity_h(&reg, &GlyphList::new());
    assert_eq!(cmap.name, "Identity-H");
    assert_eq!(cmap.to_cid(0x1234, 2), Some(0x1234));
    let v = get_predefined_cmap(&reg, "Identity-V", &GlyphList::new()).unwrap();
    assert_eq!(v.wmode, 1);
}

#[test]
fn identity_h_without_registry_entry_is_empty_and_named() {
    let cmap = identity_h(&Vec::new(), &GlyphList::new());
    assert_eq!(cmap.name, "Identity-H");
    assert_eq!(cmap.codespace_ranges().len(), 0);
    assert_eq!(cmap.to_cid(5, 2), None);
}
