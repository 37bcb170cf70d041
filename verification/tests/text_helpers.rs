use agent_ui::decimal::decimal_string;
use agent_ui::lines::{count_lines, locate, NEWLINE};
use agent_ui::suffix::ends_with;

#[test]
fn test_decimal_string() {
    assert_eq!(decimal_string(0), "0");
    assert_eq!(decimal_string(7), "7");
    assert_eq!(decimal_string(10), "10");
    assert_eq!(decimal_string(43), "43");
    assert_eq!(decimal_string(1000), "1000");
    assert_eq!(decimal_string(1234567890), "1234567890");
    assert_eq!(decimal_string(u64::MAX), "18446744073709551615");
}

#[test]
fn test_decimal_string_agrees_with_std() {
    for n in 0..=2000u64 {
        assert_eq!(decimal_string(n), n.to_string());
    }
    for shift in 0..64u32 {
        let n = 1u64 << shift;
        assert_eq!(decimal_string(n), n.to_string());
        assert_eq!(decimal_string(n - 1), (n - 1).to_string());
    }
}

#[test]
fn test_ends_with() {
    assert!(ends_with("src/main.rs", ".rs"));
    assert!(ends_with(".rs", ".rs"));
    assert!(ends_with("anything", ""));
    assert!(ends_with("", ""));
    assert!(!ends_with("rs", ".rs"));
    assert!(!ends_with("", ".rs"));
    assert!(!ends_with("main.rs ", ".rs"));
    assert!(!ends_with("main.rS", ".rs"));
}

#[test]
fn test_ends_with_agrees_with_std() {
    let texts = ["", "a", ".c", "a.c", "a.cc", "x.tsx", "x.ts", "é", "aé", "€.rs", "日本語", "本語"];
    for text in texts {
        for suffix in texts {
            assert_eq!(ends_with(text, suffix), text.ends_with(suffix));
        }
    }
}

#[test]
fn test_count_lines() {
    assert_eq!(NEWLINE, b'\n');
    assert_eq!(count_lines(b""), 0);
    assert_eq!(count_lines(b"a"), 1);
    assert_eq!(count_lines(b"a\n"), 1);
    assert_eq!(count_lines(b"a\nb"), 2);
    assert_eq!(count_lines(b"\n\n\n"), 3);
    assert_eq!(count_lines(b"\n\n\nx"), 4);
}

#[test]
fn test_locate() {
    let text = b"ab\ncd\n\nef";
    assert_eq!(locate(text, 0), (0, 0));
    assert_eq!(locate(text, 2), (0, 2));
    assert_eq!(locate(text, 3), (1, 0));
    assert_eq!(locate(text, 6), (2, 0));
    assert_eq!(locate(text, 7), (3, 0));
    assert_eq!(locate(text, 9), (3, 2));
    assert_eq!(locate(b"", 0), (0, 0));
}
