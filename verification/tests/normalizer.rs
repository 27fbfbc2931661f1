use parang::normalizer::{is_combining_mark, merge_diacritics, merge_diacritics_in_place, normalize_text};

#[test]
fn test_normalize_basic() {
    assert_eq!(normalize_text("Hello"), "Hello");
    assert_eq!(normalize_text(""), "");
}

#[test]
fn test_ligature_decomposition() {
    // fi ligature → "fi"
    assert_eq!(normalize_text("\u{FB01}nd"), "find");
    // fl ligature → "fl"
    assert_eq!(normalize_text("\u{FB02}ow"), "flow");
    // ff ligature → "ff"
    assert_eq!(normalize_text("\u{FB00}ice"), "ffice");
    // ffi ligature → "ffi"
    assert_eq!(normalize_text("o\u{FB03}ce"), "office");
    // ffl ligature → "ffl"
    assert_eq!(normalize_text("ba\u{FB04}e"), "baffle");
}

#[test]
fn test_nfc_normalization() {
    // e + combining acute accent → é
    let input = "e\u{0301}";
    let result = normalize_text(input);
    assert_eq!(result, "é");
}

#[test]
fn test_merge_diacritics() {
    let mut values = vec![
        "e".to_string(),
        "\u{0301}".to_string(), // combining acute accent
        "s".to_string(),
    ];
    let merged = merge_diacritics(&mut values);
    assert!(merged);
    assert_eq!(values[0], "é");
    assert_eq!(values[1], ""); // Cleared
    assert_eq!(values[2], "s");
}

#[test]
fn test_merge_diacritics_no_combining() {
    let mut values = vec!["a".to_string(), "b".to_string(), "c".to_string()];
    let merged = merge_diacritics(&mut values);
    assert!(!merged);
    assert_eq!(values, vec!["a", "b", "c"]);
}

#[test]
fn test_is_combining_mark() {
    assert!(is_combining_mark("\u{0300}")); // Combining grave accent
    assert!(is_combining_mark("\u{0301}")); // Combining acute accent
    assert!(is_combining_mark("\u{0308}")); // Combining diaeresis
    assert!(!is_combining_mark("a"));
    assert!(!is_combining_mark(""));
    assert!(!is_combining_mark("ab"));
}

#[test]
fn test_korean_text_unchanged() {
    // Korean text should pass through unchanged
    assert_eq!(normalize_text("안녕하세요"), "안녕하세요");
}

#[test]
fn test_merge_multiple_diacritics() {
    let mut values = vec![
        "o".to_string(),
        "\u{0308}".to_string(), // combining diaeresis → ö
        "u".to_string(),
        "\u{0308}".to_string(), // combining diaeresis → ü
    ];
    let merged = merge_diacritics(&mut values);
    assert!(merged);
    assert_eq!(values[0], "ö");
    assert_eq!(values[2], "ü");
}

#[test]
fn ligatures_decompose_once() {
    let once = normalize_text("\u{FB03}\u{FB05}\u{FB06}");
    assert_eq!(once, "ffistst");
    assert_eq!(normalize_text(&once), once);
}

#[test]
fn mark_after_empty_value_is_kept() {
    let mut values = vec!["".to_string(), "\u{0301}".to_string()];
    let merged = merge_diacritics(&mut values);
    assert!(!merged);
    assert_eq!(values, vec!["", "\u{0301}"]);
}

#[test]
fn merge_in_place_drops_emptied_values() {
    let mut values = vec![
        "e".to_string(),
        "\u{0301}".to_string(),
        "".to_string(),
        "s".to_string(),
    ];
    let kept = merge_diacritics_in_place(&mut values);
    assert_eq!(kept, Some(vec![0, 3]));
    assert_eq!(values, vec!["é", "s"]);
}

#[test]
fn merge_in_place_without_marks_changes_nothing() {
    let mut values = vec!["a".to_string(), "".to_string()];
    assert_eq!(merge_diacritics_in_place(&mut values), None);
    assert_eq!(values, vec!["a", ""]);
    let mut single = vec!["\u{0301}".to_string()];
    assert_eq!(merge_diacritics_in_place(&mut single), None);
    assert_eq!(single, vec!["\u{0301}"]);
}
