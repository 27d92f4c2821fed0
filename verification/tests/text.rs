//! Texts, character by character.

use citadel_internal_service::text::{
    contains, decimal_text, lists, parse_u16, parse_u64, split, starts_with, to_ascii_lowercase,
    trim,
};

#[test]
fn numerals_read_back() {
    for n in [0, 7, 10, 65_535, 65_536, u64::MAX - 1, u64::MAX] {
        assert_eq!(decimal_text(n), n.to_string());
        assert_eq!(parse_u64(&decimal_text(n)), Some(n));
        assert_eq!(
            parse_u16(&decimal_text(n)),
            n.to_string().parse::<u16>().ok()
        );
    }
    for s in ["", "+", "+3", "-3", "3x", "18446744073709551616"] {
        assert_eq!(parse_u64(s), s.parse::<u64>().ok(), "{s}");
    }
}

#[test]
fn texts_are_taken_apart_as_the_standard_library_does() {
    for s in ["", " a ", "\u{2003}x\t", "a,b,,c", ",", "A\u{c4}z"] {
        assert_eq!(trim(s), s.trim());
        assert_eq!(to_ascii_lowercase(s), s.to_ascii_lowercase());
        assert_eq!(split(s, ','), s.split(',').collect::<Vec<_>>());
        for part in ["", "a", ",,", "b,"] {
            assert_eq!(contains(s, part), s.contains(part));
            assert_eq!(starts_with(s, part), s.starts_with(part));
        }
    }
    let entries = vec!["a".to_string(), "b".to_string()];
    assert!(lists(&entries, "b"));
    assert!(!lists(&entries, "ab"));
}
