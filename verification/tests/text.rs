use zeroclaw_cluster::text::{host_port, joined, prefix, push_decimal, same_text, split};

#[test]
fn decimal_numbers() {
    for n in [0u64, 9, 10, 100, 65535, u64::MAX] {
        let mut s = "n=".to_string();
        push_decimal(&mut s, n);
        assert_eq!(s, format!("n={}", n));
    }
}

#[test]
fn fields_between_separators() {
    assert_eq!(split("", '|'), vec!["".to_string()]);
    for text in ["a", "|", "a|b", "a||b|", "\u{e9}|\u{1f600}"] {
        let expected: Vec<String> = text.split('|').map(|p| p.to_string()).collect();
        assert_eq!(split(text, '|'), expected);
    }
}

#[test]
fn small_texts() {
    assert_eq!(host_port("::1", 80), "::1:80");
    assert_eq!(joined("a", "b"), "ab");
    assert_eq!(prefix("\u{e9}bc", 2), "\u{e9}b");
    assert!(same_text("a", "a"));
    assert!(!same_text("a", "A"));
}
