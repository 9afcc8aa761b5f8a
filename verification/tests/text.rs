use failure_kit::text::{
    contains_char, join_strings, parse_u16_str, split_whitespace, to_ascii_lowercase,
    trim_end_str, trim_str, trimmed_nonempty, truncate_chars, u64_to_decimal,
};
use failure_kit::tool::{from_utf8_lossy, truncate, MAX_OUTPUT_CHARS};

#[test]
fn parse_u16_matches_str_parse() {
    for s in ["0", "8080", "+8080", "65535", "65536", "", "+", "-1", "8o80", " 80", "007"] {
        assert_eq!(parse_u16_str(s), s.parse::<u16>().ok(), "input {s:?}");
    }
}

#[test]
fn decimal_rendering() {
    for n in [0u64, 7, 10, 2420, u64::MAX] {
        assert_eq!(u64_to_decimal(n), n.to_string());
    }
}

#[test]
fn whitespace_helpers_match_std() {
    for s in ["", "  a b\t\nc  ", "\u{3000}x\u{a0}", "word"] {
        assert_eq!(trim_str(s), s.trim());
        assert_eq!(trim_end_str(s), s.trim_end());
        let words: Vec<String> = s.split_whitespace().map(|w| w.to_owned()).collect();
        assert_eq!(split_whitespace(s), words);
    }
}

#[test]
fn small_string_helpers() {
    assert_eq!(to_ascii_lowercase("StArT Ä"), "start Ä");
    assert!(contains_char("a\nb", '\n'));
    assert!(!contains_char("ab", '\n'));
    assert_eq!(join_strings(&vec!["a".to_owned(), "b".to_owned()], "/"), "a/b");
    assert_eq!(join_strings(&Vec::new(), "/"), "");
    assert_eq!(trimmed_nonempty(&Some("  x ".to_owned())).as_deref(), Some("x"));
    assert_eq!(trimmed_nonempty(&Some("   ".to_owned())), None);
    assert_eq!(trimmed_nonempty(&None), None);
    assert_eq!(truncate_chars("héllo".to_owned(), 2), "hé\n... [truncated]");
    assert_eq!(truncate_chars("hi".to_owned(), 5), "hi");
}

#[test]
fn tool_output_truncation_and_decoding() {
    assert_eq!(MAX_OUTPUT_CHARS, 20_000);
    let s = "a".repeat(20_001);
    assert_eq!(truncate(s), format!("{}\n... [truncated]", "a".repeat(20_000)));
    assert_eq!(from_utf8_lossy("héllo".as_bytes()), "héllo");
    assert_eq!(from_utf8_lossy(&[0x66, 0x80, 0x6f]), "f\u{fffd}o");
}
