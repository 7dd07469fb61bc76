use jso_protector::text::{decimal_string, prefix_chars, trim};

#[test]
fn trim_removes_unicode_white_space_only() {
    assert_eq!(trim("  a b \t\n"), "a b");
    assert_eq!(trim("\u{00a0}\u{2003}x\u{3000}"), "x");
    assert_eq!(trim("\u{200b}x"), "\u{200b}x");
    assert_eq!(trim("   "), "");
    assert_eq!(trim(""), "");
}

#[test]
fn decimal_rendering() {
    assert_eq!(decimal_string(0), "0");
    assert_eq!(decimal_string(7), "7");
    assert_eq!(decimal_string(200), "200");
    assert_eq!(decimal_string(65535), "65535");
}

#[test]
fn prefix_counts_characters() {
    assert_eq!(prefix_chars("héllo", 2), "hé");
    assert_eq!(prefix_chars("hi", 5), "hi");
    assert_eq!(prefix_chars("", 0), "");
}
