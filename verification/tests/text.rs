use codex_shim::text::{
    ends_with, eq_ignore_ascii_case, is_blank, parse_u64, same_text, strip_prefix, u64_text,
};

#[test]
fn same_text_compares_characters() {
    assert!(same_text("codex", "codex"));
    assert!(!same_text("codex", "Codex"));
    assert!(!same_text("codex", "codex "));
}

#[test]
fn ascii_case_is_ignored_and_other_case_is_not() {
    assert!(eq_ignore_ascii_case("Accept", "aCCEPT"));
    assert!(eq_ignore_ascii_case("", ""));
    assert!(!eq_ignore_ascii_case("accept", "accepts"));
    assert!(!eq_ignore_ascii_case("\u{c4}", "\u{e4}"));
}

#[test]
fn blank_text_is_empty_or_white_space() {
    assert!(is_blank(""));
    assert!(is_blank(" \t\r\n\u{b}\u{c}"));
    assert!(is_blank("\u{85}\u{a0}\u{1680}\u{2003}\u{2028}\u{2029}\u{202f}\u{205f}\u{3000}"));
    assert!(!is_blank(" x "));
    assert!(!is_blank("\u{200b}"));
}

#[test]
fn blank_text_is_what_trim_leaves_nothing_of() {
    for code in 0u32..0x11_0000 {
        if let Some(c) = char::from_u32(code) {
            let text: String = c.to_string();
            assert_eq!(is_blank(&text), text.trim().is_empty(), "U+{:04X}", code);
        }
    }
}

#[test]
fn suffixes_and_prefixes() {
    assert!(ends_with("execCommand/requestApproval", "/requestApproval"));
    assert!(!ends_with("requestApproval", "/requestApproval"));
    assert!(ends_with("\u{e4}\u{f6}", "\u{f6}"));
    assert_eq!(strip_prefix("--log-level=warn", "--log-level="), Some("warn"));
    assert_eq!(strip_prefix("--log-level=", "--log-level="), Some(""));
    assert_eq!(strip_prefix("--log-level", "--log-level="), None);
}

#[test]
fn numbers_are_read_as_the_standard_library_reads_them() {
    let texts = [
        "0", "7", "42", "+42", "007", "18446744073709551615", "18446744073709551616", "", "+", "-1", "++1", "1 ",
        " 1", "1.0", "1e3", "99999999999999999999999", "\u{663}",
    ];
    for text in texts {
        assert_eq!(parse_u64(text), text.parse::<u64>().ok(), "{}", text);
    }
}

#[test]
fn numbers_are_written_in_decimal_and_read_back() {
    for n in [0u64, 9, 10, 99, 100, 1_700_000_000, u64::MAX] {
        assert_eq!(u64_text(n), n.to_string());
        assert_eq!(parse_u64(&u64_text(n)), Some(n));
    }
}
