use ui_primitives::bool_attr;
use ui_primitives::cn;
use ui_primitives::data_state_open;
use ui_primitives::key_is_enter;
use ui_primitives::key_is_escape;
use ui_primitives::key_is_tab;
use ui_primitives::str_eq;
use ui_primitives::trim_str;
use ui_primitives::u64_to_dec;

#[test]
fn cn_joins_present_parts_with_spaces() {
    assert_eq!(cn(vec![Some("a"), Some("b"), Some("c")]), "a b c");
}

#[test]
fn cn_drops_absent_parts() {
    assert_eq!(cn(vec![Some("a"), None, Some("c")]), "a c");
}

#[test]
fn cn_trims_each_part() {
    assert_eq!(cn(vec![Some("  a "), Some("\tb\n")]), "a b");
}

#[test]
fn cn_drops_blank_parts() {
    assert_eq!(cn(vec![Some("a"), Some("   "), Some(""), Some("b")]), "a b");
}

#[test]
fn cn_of_nothing_is_empty() {
    assert_eq!(cn(vec![]), "");
    assert_eq!(cn(vec![None, None]), "");
    assert_eq!(cn(vec![Some("  "), None]), "");
}

#[test]
fn cn_single_part_has_no_separator() {
    assert_eq!(cn(vec![Some(" solo ")]), "solo");
}

#[test]
fn cn_keeps_inner_whitespace() {
    assert_eq!(cn(vec![Some(" a  b ")]), "a  b");
}

#[test]
fn trim_str_strips_both_ends() {
    assert_eq!(trim_str("  x  "), "x");
    assert_eq!(trim_str("x"), "x");
    assert_eq!(trim_str("   "), "");
    assert_eq!(trim_str(""), "");
    assert_eq!(trim_str("\r\n a b \t"), "a b");
}

#[test]
fn trim_str_strips_unicode_whitespace() {
    // vertical tab, form feed, no-break space, em space, ideographic space
    assert_eq!(trim_str("\u{0B}\u{0C}x\u{A0}"), "x");
    assert_eq!(trim_str("\u{2003}y\u{3000}"), "y");
    assert_eq!(trim_str("  a\u{A0}b  "), "a\u{A0}b");
    assert_eq!(cn(vec![Some("\u{A0}a\u{A0}"), Some("\u{2028}")]), "a");
}

#[test]
fn str_eq_compares_contents() {
    assert!(str_eq("abc", "abc"));
    assert!(!str_eq("abc", "abd"));
    assert!(!str_eq("abc", "ab"));
    assert!(str_eq("", ""));
}

#[test]
fn u64_to_dec_renders_decimal() {
    assert_eq!(u64_to_dec(0), "0");
    assert_eq!(u64_to_dec(7), "7");
    assert_eq!(u64_to_dec(10), "10");
    assert_eq!(u64_to_dec(12345), "12345");
    assert_eq!(u64_to_dec(u64::MAX), "18446744073709551615");
}

#[test]
fn bool_attr_values() {
    assert_eq!(bool_attr(true), "true");
    assert_eq!(bool_attr(false), "false");
}

#[test]
fn data_state_values() {
    assert_eq!(data_state_open(true), "open");
    assert_eq!(data_state_open(false), "closed");
}

#[test]
fn key_decisions() {
    assert!(key_is_enter("Enter"));
    assert!(!key_is_enter("Escape"));
    assert!(key_is_escape("Escape"));
    assert!(!key_is_escape("Tab"));
    assert!(key_is_tab("Tab"));
    assert!(!key_is_tab("a"));
}
