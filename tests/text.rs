use pcr_util::classify::has_label_with_prefix;
use pcr_util::issue_metadata::contains_str;
use pcr_util::markdown::{push_date, push_inline_code_list, working_groups};
use pcr_util::text::{push_decimal, push_zero_padded, starts_with, text_eq};
use pcr_util::timestamp::Timestamp;

fn strings(items: &[&str]) -> Vec<String> {
    items.iter().map(|s| s.to_string()).collect()
}

#[test]
fn decimal_numerals() {
    let mut buf = String::from("#");
    push_decimal(&mut buf, 0);
    assert_eq!(buf, "#0");
    let mut buf = String::new();
    push_decimal(&mut buf, 132673);
    assert_eq!(buf, "132673");
    let mut buf = String::new();
    push_decimal(&mut buf, u64::MAX);
    assert_eq!(buf, "18446744073709551615");
}

#[test]
fn zero_padded_numerals() {
    let mut buf = String::new();
    push_zero_padded(&mut buf, 7, 2);
    push_zero_padded(&mut buf, 12, 2);
    push_zero_padded(&mut buf, 5, 4);
    push_zero_padded(&mut buf, 12345, 4);
    assert_eq!(buf, "0712000512345");
}

#[test]
fn negative_year_date() {
    let t = Timestamp {
        year: -44,
        month: 12,
        day: 31,
        hour: 0,
        minute: 0,
        second: 0,
        nanosecond: 0,
        offset_seconds: 0,
    };
    let mut buf = String::new();
    push_date(&mut buf, &t);
    assert_eq!(buf, "-0044-12-31");
}

#[test]
fn prefixes_and_equality() {
    assert!(starts_with("T-compiler", "T-"));
    assert!(!starts_with("T", "T-"));
    assert!(!starts_with("P-high", "T-"));
    assert!(starts_with("abc", ""));
    assert!(text_eq("T-compiler", "T-compiler"));
    assert!(!text_eq("T-compiler", "T-compile"));
    assert!(has_label_with_prefix(&strings(&["A-x", "WG-llvm"]), "WG-"));
    assert!(!has_label_with_prefix(&strings(&["A-x", "wg-debugging"]), "WG-"));
    assert!(contains_str(&strings(&["P-high", "T-compiler"]), "T-compiler"));
    assert!(!contains_str(&strings(&["P-high", "T-compiler-x"]), "T-compiler"));
}

#[test]
fn inline_code_lists() {
    let mut buf = String::from("Labels: ");
    push_inline_code_list(&mut buf, &Vec::new());
    assert_eq!(buf, "Labels: ");
    let mut buf = String::new();
    push_inline_code_list(&mut buf, &strings(&["a"]));
    assert_eq!(buf, "`a`");
    let mut buf = String::new();
    push_inline_code_list(&mut buf, &strings(&["a", "b", "c"]));
    assert_eq!(buf, "`a`, `b`, `c`");
}

#[test]
fn working_group_labels() {
    let wg = working_groups(&strings(&["WG-async", "T-compiler", "WG-llvm", "wg-debugging"]));
    assert_eq!(wg, strings(&["WG-async", "WG-llvm"]));
}
