use disk_watchdog::text::{decimal_text, digit_text, join, starts_with};

#[test]
fn starts_with_accepts_a_prefix() {
    assert!(starts_with("/mnt/data/videos", "/mnt/data"));
    assert!(starts_with("/mnt/data", "/mnt/data"));
    assert!(starts_with("/mnt/data", "/"));
    assert!(starts_with("/mnt/data", ""));
    assert!(starts_with("", ""));
}

#[test]
fn starts_with_rejects_what_is_no_prefix() {
    assert!(!starts_with("/mnt/data", "/mnt/data/videos"));
    assert!(!starts_with("/mnt/data", "/mnx"));
    assert!(!starts_with("/mnt/data", "mnt"));
    assert!(!starts_with("", "/"));
    assert!(!starts_with("C:\\data", "c:\\"));
}

#[test]
fn starts_with_compares_whole_characters() {
    assert!(starts_with("/données/films", "/données"));
    assert!(!starts_with("/données/films", "/donnees"));
    assert!(starts_with("日本語/フォルダ", "日本"));
    assert!(!starts_with("日本語", "日本人"));
}

#[test]
fn starts_with_agrees_with_std() {
    let samples = ["", "/", "/a", "/a/b", "/ab", "a", "/é", "/e", "é/"];
    for text in samples {
        for prefix in samples {
            assert_eq!(starts_with(text, prefix), text.starts_with(prefix));
        }
    }
}

#[test]
fn join_appends() {
    assert_eq!(join("Deleting folder: ", "/a/b"), "Deleting folder: /a/b");
    assert_eq!(join("", "x"), "x");
    assert_eq!(join("x", ""), "x");
    assert_eq!(join("", ""), "");
}

#[test]
fn digit_text_names_each_digit() {
    let expected = ["0", "1", "2", "3", "4", "5", "6", "7", "8", "9"];
    for value in 0u8..10 {
        assert_eq!(digit_text(value), expected[value as usize]);
    }
    assert_eq!(digit_text(10), "0");
    assert_eq!(digit_text(255), "0");
}

#[test]
fn decimal_text_writes_base_ten() {
    assert_eq!(decimal_text(0), "0");
    assert_eq!(decimal_text(7), "7");
    assert_eq!(decimal_text(10), "10");
    assert_eq!(decimal_text(120), "120");
    assert_eq!(decimal_text(604_800), "604800");
    assert_eq!(decimal_text(u128::MAX), "340282366920938463463374607431768211455");
}

#[test]
fn decimal_text_agrees_with_std() {
    for value in 0u128..2_000 {
        assert_eq!(decimal_text(value), value.to_string());
    }
}
