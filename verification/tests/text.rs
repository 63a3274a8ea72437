use wand_control::text::{joined, decimal, same_text, to_chars};

#[test]
fn decimal_writes_numbers_as_usual() {
    assert_eq!(decimal(0), "0");
    assert_eq!(decimal(7), "7");
    assert_eq!(decimal(10), "10");
    assert_eq!(decimal(255), "255");
    assert_eq!(decimal(1_000_000), "1000000");
    assert_eq!(decimal(u64::MAX), "18446744073709551615");
    for n in 0..2000u64 {
        assert_eq!(decimal(n), format!("{}", n));
    }
}

#[test]
fn same_text_compares_characters() {
    assert!(same_text("", ""));
    assert!(same_text("wifi", "wifi"));
    assert!(same_text("°C", "°C"));
    assert!(!same_text("wifi", "wif"));
    assert!(!same_text("wifi", "wifI"));
    assert!(!same_text("", " "));
    assert!(!same_text("é", "e"));
}

#[test]
fn to_chars_lists_the_characters() {
    assert_eq!(to_chars(""), Vec::<char>::new());
    assert_eq!(to_chars("a;b"), vec!['a', ';', 'b']);
    assert_eq!(to_chars("h°"), vec!['h', '°']);
}

#[test]
fn joined_puts_one_text_behind_the_other() {
    assert_eq!(joined("", ""), "");
    assert_eq!(joined("ab", "cd"), "abcd");
}
