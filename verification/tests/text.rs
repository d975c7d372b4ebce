use alfalfa::text::{decimal_text, replace_all, signed_decimal_text, trim};

#[test]
fn replace_every_occurrence() {
    assert_eq!(replace_all("a{{X}}b{{X}}", "{{X}}", "1"), "a1b1");
}

#[test]
fn replace_without_overlap() {
    assert_eq!(replace_all("aaa", "aa", "b"), "aaa".replace("aa", "b"));
    assert_eq!(replace_all("aaa", "aa", "b"), "ba");
}

#[test]
fn replace_with_no_occurrence_is_identity() {
    assert_eq!(replace_all("hello", "xyz", "q"), "hello");
}

#[test]
fn trim_removes_unicode_white_space() {
    assert_eq!(trim("\u{3000} x y \u{2009}\n"), "x y");
    assert_eq!(trim("   "), "");
    assert_eq!(trim(""), "");
    assert_eq!(trim("\u{85}a\u{a0}"), "a");
}

#[test]
fn trim_agrees_with_std() {
    for s in ["\t\nabc\r\n", "\u{1680}z", "q\u{205f}", "mid dle"] {
        assert_eq!(trim(s), s.trim());
    }
}

#[test]
fn decimal_forms() {
    assert_eq!(decimal_text(0), "0");
    assert_eq!(decimal_text(10), "10");
    assert_eq!(decimal_text(u64::MAX), u64::MAX.to_string());
    assert_eq!(signed_decimal_text(-45), "-45");
    assert_eq!(signed_decimal_text(i32::MIN), i32::MIN.to_string());
}
