use parang::cmap::{CMap, CidRange, CodespaceRange};

#[test]
fn test_new_cmap() {
    let cmap = CMap::new();
    assert_eq!(cmap.wmode, 0);
    assert_eq!(cmap.unicode_mapping_count(), 0);
    assert_eq!(cmap.cid_mapping_count(), 0);
}

#[test]
fn test_unicode_mapping() {
    let mut cmap = CMap::new();
    cmap.add_char_mapping(0x0041, 2, "A".to_string());
    cmap.add_char_mapping(0x0042, 2, "B".to_string());

    assert_eq!(cmap.to_unicode(0x0041, 2), Some("A"));
    assert_eq!(cmap.to_unicode(0x0042, 2), Some("B"));
    assert_eq!(cmap.to_unicode(0x0043, 2), None);
}

#[test]
fn test_cid_direct_mapping() {
    let mut cmap = CMap::new();
    cmap.add_cid_mapping(0x0041, 2, 100);
    assert_eq!(cmap.to_cid(0x0041, 2), Some(100));
    assert_eq!(cmap.to_cid(0x0042, 2), None);
}

#[test]
fn test_cid_range_mapping() {
    let mut cmap = CMap::new();
    cmap.add_cid_range(CidRange {
        from: 0x0041,
        to: 0x005A,
        cid_start: 100,
        code_length: 2,
    });

    assert_eq!(cmap.to_cid(0x0041, 2), Some(100)); // A
    assert_eq!(cmap.to_cid(0x0042, 2), Some(101)); // B
    assert_eq!(cmap.to_cid(0x005A, 2), Some(125)); // Z
    assert_eq!(cmap.to_cid(0x005B, 2), None); // out of range
}

#[test]
fn cmap_test_codespace_range() {
    let range = CodespaceRange::new(vec![0x00, 0x00], vec![0xFF, 0xFF]);
    assert!(range.matches(&[0x00, 0x41]));
    assert!(range.matches(&[0xFF, 0xFF]));
    assert!(!range.matches(&[0x00])); // wrong length
}

#[test]
fn cmap_test_reverse_lookup() {
    let mut cmap = CMap::new();
    cmap.add_char_mapping(0x0041, 2, "A".to_string());

    let code = cmap.get_codes_from_unicode("A");
    assert_eq!(code, Some([0x00, 0x41].as_slice()));
}

#[test]
fn test_merge() {
    let mut cmap1 = CMap::new();
    cmap1.add_char_mapping(0x41, 1, "A".to_string());

    let mut cmap2 = CMap::new();
    cmap2.add_char_mapping(0x42, 1, "B".to_string());

    cmap1.merge(&cmap2);
    assert_eq!(cmap1.to_unicode(0x41, 1), Some("A"));
    assert_eq!(cmap1.to_unicode(0x42, 1), Some("B"));
}

#[test]
fn later_mapping_of_a_code_wins() {
    let mut cmap = CMap::new();
    cmap.add_char_mapping(0x41, 1, "A".to_string());
    cmap.add_char_mapping(0x41, 1, "Z".to_string());
    assert_eq!(cmap.to_unicode(0x41, 1), Some("Z"));
    assert_eq!(cmap.unicode_mapping_count(), 1);
}

#[test]
fn mappings_of_other_lengths_are_separate() {
    let mut cmap = CMap::new();
    cmap.add_char_mapping(0x41, 1, "A".to_string());
    cmap.add_char_mapping(0x41, 2, "B".to_string());
    assert_eq!(cmap.to_unicode(0x41, 1), Some("A"));
    assert_eq!(cmap.to_unicode(0x41, 2), Some("B"));
    assert_eq!(cmap.to_unicode(0x41, 3), None);
}

#[test]
fn reverse_lookup_keeps_first_code() {
    let mut cmap = CMap::new();
    cmap.add_char_mapping(0x41, 1, "A".to_string());
    cmap.add_char_mapping(0x0061, 2, "A".to_string());
    assert_eq!(cmap.get_codes_from_unicode("A"), Some([0x41].as_slice()));
}

#[test]
fn to_unicode_any_tries_lengths_in_order() {
    let mut cmap = CMap::new();
    cmap.add_char_mapping(0x41, 2, "B".to_string());
    assert_eq!(cmap.to_unicode_any(0x41), Some("B"));
    cmap.add_char_mapping(0x41, 1, "A".to_string());
    assert_eq!(cmap.to_unicode_any(0x41), Some("A"));
    assert_eq!(cmap.to_unicode_any(0x42), None);
}

#[test]
fn direct_cid_mapping_comes_before_ranges() {
    let mut cmap = CMap::new();
    cmap.add_cid_range(CidRange { from: 0x10, to: 0x20, cid_start: 1, code_length: 1 });
    cmap.add_cid_mapping(0x11, 1, 500);
    assert_eq!(cmap.to_cid(0x11, 1), Some(500));
    assert_eq!(cmap.to_cid(0x12, 1), Some(3));
}

#[test]
fn codespace_ranges_set_code_lengths() {
    let mut cmap = CMap::new();
    cmap.add_codespace_range(CodespaceRange::new(vec![0x81, 0x40], vec![0x9F, 0xFC]));
    cmap.add_codespace_range(CodespaceRange::new(vec![0x00], vec![0x80]));
    assert_eq!(cmap.min_code_length(), 1);
    assert_eq!(cmap.max_code_length(), 2);
    assert!(cmap.matches_codespace(&[0x81, 0x40]));
    assert!(!cmap.matches_codespace(&[0x81]));
    assert_eq!(cmap.codespace_ranges().len(), 2);
}

#[test]
fn name_and_writing_mode_setters() {
    let mut cmap = CMap::new();
    assert!(!cmap.has_unicode_mappings());
    cmap.set_name("Test".to_string());
    cmap.set_wmode(1);
    assert_eq!(cmap.cmap_name(), "Test");
    assert_eq!(cmap.wmode, 1);
    cmap.add_char_mapping(1, 1, "x".to_string());
    assert!(cmap.has_unicode_mappings());
}

#[test]
fn default_cmap_is_empty() {
    let cmap = CMap::default();
    assert_eq!(cmap.name, "");
    assert_eq!(cmap.min_code_length(), 4);
    assert_eq!(cmap.max_code_length(), 0);
    assert_eq!(cmap.unicode_mapping_count(), 0);
}
