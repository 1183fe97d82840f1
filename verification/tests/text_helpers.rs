use vertica::text::{
    decimal_text, decimal_text_i64, decimal_text_u64, hex_lower_text, text_equals, text_less,
    trimmed,
};

#[test]
fn trimming_removes_unicode_white_space_on_both_sides() {
    assert_eq!(trimmed("  Vertica  "), "Vertica");
    assert_eq!(trimmed("\u{3000}\t Vertica Desktop\u{a0}\n"), "Vertica Desktop");
    assert_eq!(trimmed(" \t\n "), "");
    assert_eq!(trimmed(""), "");
    assert_eq!(trimmed("a b"), "a b");
}

#[test]
fn trimming_twice_changes_nothing() {
    let once = trimmed("\u{2003} project \u{2028}");
    assert_eq!(trimmed(&once), once);
}

#[test]
fn writes_decimal_numbers() {
    assert_eq!(decimal_text(0), "0");
    assert_eq!(decimal_text(7), "7");
    assert_eq!(decimal_text(42), "42");
    assert_eq!(decimal_text(255), "255");
    assert_eq!(decimal_text_u64(0), "0");
    assert_eq!(decimal_text_u64(1234567890), "1234567890");
    assert_eq!(decimal_text_u64(u64::MAX), "18446744073709551615");
    assert_eq!(decimal_text_i64(-45), "-45");
    assert_eq!(decimal_text_i64(i64::MIN), "-9223372036854775808");
    assert_eq!(decimal_text_i64(3), "3");
}

#[test]
fn writes_lower_case_hexadecimal() {
    assert_eq!(hex_lower_text(&vec![0x00, 0x0f, 0xab, 0xff]), "000fabff");
    assert_eq!(hex_lower_text(&vec![]), "");
}

#[test]
fn compares_texts() {
    assert!(text_equals("pt-BR", "pt-BR"));
    assert!(!text_equals("pt-BR", "pt-br"));
    assert!(text_less("2026-07-19", "2026-07-20"));
    assert!(!text_less("2026-07-20", "2026-07-19"));
    assert!(!text_less("2026-07-19", "2026-07-19"));
    assert!(text_less("abc", "abcd"));
}
