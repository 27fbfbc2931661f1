use parang::dictionary::{apply_differences, build_encoding, default_base_encoding, DiffItem, EncodingEntry};
use parang::encoding::Encoding;
use parang::predefined::get_encoding;

#[test]
fn test_win_ansi() {
    let enc = get_encoding("WinAnsiEncoding").unwrap();
    assert_eq!(enc.get_name(65), Some("A"));
    assert_eq!(enc.get_name(32), Some("space"));
    assert_eq!(enc.get_name(128), Some("Euro"));
    // Unmapped codes > 32 should map to bullet
    assert_eq!(enc.get_name(129), Some("bullet"));
}

#[test]
fn test_standard() {
    let enc = get_encoding("StandardEncoding").unwrap();
    assert_eq!(enc.get_name(65), Some("A"));
    assert_eq!(enc.get_name(32), Some("space"));
    // Code 128 is not mapped in StandardEncoding
    assert_eq!(enc.get_name(128), None);
}

#[test]
fn test_mac_roman() {
    let enc = get_encoding("MacRomanEncoding").unwrap();
    assert_eq!(enc.get_name(65), Some("A"));
    assert_eq!(enc.get_name(128), Some("Adieresis"));
}

#[test]
fn test_get_encoding() {
    assert!(get_encoding("WinAnsiEncoding").is_some());
    assert!(get_encoding("StandardEncoding").is_some());
    assert!(get_encoding("MacRomanEncoding").is_some());
    assert!(get_encoding("Unknown").is_none());
}

#[test]
fn test_name_encoding() {
    let entry = EncodingEntry::Name(b"WinAnsiEncoding".to_vec());
    let enc = build_encoding(&entry, false);
    assert_eq!(enc.get_name(65), Some("A"));
    assert_eq!(enc.get_name(32), Some("space"));
}

#[test]
fn test_dictionary_encoding_with_differences() {
    let entry = EncodingEntry::Dictionary {
        base_encoding: Some(b"WinAnsiEncoding".to_vec()),
        differences: Some(vec![
            DiffItem::Code(65),
            DiffItem::Name(b"Aspecial".to_vec()),
            DiffItem::Name(b"Bspecial".to_vec()),
            DiffItem::Code(200),
            DiffItem::Name(b"myGlyph".to_vec()),
        ]),
    };
    let enc = build_encoding(&entry, false);

    // Differences override
    assert_eq!(enc.get_name(65), Some("Aspecial"));
    assert_eq!(enc.get_name(66), Some("Bspecial")); // auto-incremented
    assert_eq!(enc.get_name(200), Some("myGlyph"));

    // Non-overridden entries from base
    assert_eq!(enc.get_name(32), Some("space"));
    assert_eq!(enc.get_name(67), Some("C")); // from WinAnsi
}

#[test]
fn test_empty_differences() {
    let entry = EncodingEntry::Dictionary {
        base_encoding: Some(b"StandardEncoding".to_vec()),
        differences: None,
    };
    let enc = build_encoding(&entry, false);
    assert_eq!(enc.get_name(65), Some("A"));
}

#[test]
fn test_no_base_encoding_nonsymbolic() {
    let entry = EncodingEntry::Dictionary {
        base_encoding: None,
        differences: Some(vec![DiffItem::Code(65), DiffItem::Name(b"CustomA".to_vec())]),
    };
    let enc = build_encoding(&entry, false);

    // Should default to StandardEncoding, then apply differences
    assert_eq!(enc.get_name(65), Some("CustomA"));
    assert_eq!(enc.get_name(32), Some("space")); // from StandardEncoding
}

#[test]
fn test_symbolic_no_base() {
    let entry = EncodingEntry::Dictionary {
        base_encoding: None,
        differences: Some(vec![
            DiffItem::Code(1),
            DiffItem::Name(b"sym1".to_vec()),
            DiffItem::Name(b"sym2".to_vec()),
        ]),
    };
    let enc = build_encoding(&entry, true);

    // Symbolic fonts start with empty base
    assert_eq!(enc.get_name(1), Some("sym1"));
    assert_eq!(enc.get_name(2), Some("sym2"));
    assert_eq!(enc.get_name(32), None); // no base encoding
}

#[test]
fn unknown_names_and_other_entries_give_empty_encodings() {
    let enc = build_encoding(&EncodingEntry::Name(b"NoSuchEncoding".to_vec()), false);
    assert!(enc.is_empty());
    assert_eq!(enc.name(), "NoSuchEncoding");
    let other = build_encoding(&EncodingEntry::Other, false);
    assert!(other.is_empty());
    assert_eq!(other.name(), "Unknown");
    let unknown_base = build_encoding(
        &EncodingEntry::Dictionary { base_encoding: Some(b"Nope".to_vec()), differences: None },
        false,
    );
    assert!(unknown_base.is_empty());
    assert_eq!(unknown_base.name(), "DictionaryEncoding");
}

#[test]
fn encoding_add_and_lookup() {
    let mut enc = Encoding::new("Custom");
    assert!(enc.is_empty());
    enc.add(65, "A");
    enc.add(66, "A");
    enc.add(65, "Alpha");
    assert_eq!(enc.name(), "Custom");
    assert_eq!(enc.len(), 2);
    assert!(enc.has_code(66));
    assert!(!enc.has_code(67));
    assert_eq!(enc.get_name(65), Some("Alpha"));
    assert_eq!(enc.get_code("A"), Some(66));
    assert_eq!(enc.get_code("Alpha"), Some(65));
    assert_eq!(enc.get_code("B"), None);
    let mut pairs = enc.iter();
    pairs.sort();
    assert_eq!(pairs, vec![(65, "Alpha".to_string()), (66, "A".to_string())]);
}

#[test]
fn differences_skip_other_items_and_escape_names() {
    let mut enc = Encoding::new("Custom");
    apply_differences(
        &mut enc,
        &vec![
            DiffItem::Code(10),
            DiffItem::Other,
            DiffItem::Name(b"a#20b".to_vec()),
            DiffItem::Name(b"c".to_vec()),
        ],
    );
    assert_eq!(enc.get_name(10), Some("a b"));
    assert_eq!(enc.get_name(11), Some("c"));
}

#[test]
fn differences_before_any_code_start_at_zero() {
    let mut enc = Encoding::new("Custom");
    apply_differences(&mut enc, &vec![DiffItem::Name(b"zero".to_vec())]);
    assert_eq!(enc.get_name(0), Some("zero"));
}

#[test]
fn default_base_depends_on_symbolic_flag() {
    assert!(default_base_encoding(true).is_empty());
    assert_eq!(default_base_encoding(false).get_name(65), Some("A"));
}

#[test]
fn other_predefined_encodings() {
    let sym = get_encoding("SymbolEncoding").unwrap();
    assert_eq!(sym.get_name(65), Some("Alpha"));
    let zapf = get_encoding("ZapfDingbatsEncoding").unwrap();
    assert_eq!(zapf.get_name(33), Some("a1"));
    let mac_expert = get_encoding("MacExpertEncoding");
    assert!(mac_expert.is_some());
}

#[test]
fn standard_encoding_lslash_and_oslash() {
    let enc = get_encoding("StandardEncoding").unwrap();
    assert_eq!(enc.get_name(248), Some("lslash"));
    assert_eq!(enc.get_name(249), Some("oslash"));
}

#[test]
fn iter_yields_one_pair_per_code() {
    for name in ["WinAnsiEncoding", "StandardEncoding", "MacRomanEncoding", "SymbolEncoding"] {
        let enc = get_encoding(name).unwrap();
        let pairs = enc.iter();
        assert_eq!(pairs.len(), enc.len());
        for (code, glyph) in &pairs {
            assert_eq!(enc.get_name(*code), Some(glyph.as_str()));
        }
    }
}
