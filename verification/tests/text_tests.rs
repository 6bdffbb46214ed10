use taskmanager_iced::text::{bytes_eq, chars_of, decimal_string, replace_all, replace_first, str_eq, string_of, trim};

#[test]
fn equality_helpers() {
    assert!(bytes_eq(b"abc", b"abc"));
    assert!(!bytes_eq(b"abc", b"abd"));
    assert!(!bytes_eq(b"abc", b"ab"));
    assert!(str_eq("中文", "中文"));
    assert!(!str_eq("a", "b"));
}

#[test]
fn decimal_spelling() {
    assert_eq!(decimal_string(0), "0");
    assert_eq!(decimal_string(7), "7");
    assert_eq!(decimal_string(1234567890), "1234567890");
    assert_eq!(decimal_string(u64::MAX), "18446744073709551615");
}

#[test]
fn replacement_scans_left_to_right() {
    assert_eq!(replace_all("{count} of {count}", "{count}", "3"), "3 of 3");
    assert_eq!(replace_all("aaa", "aa", "b"), "ba");
    assert_eq!(replace_all("none here", "{x}", "y"), "none here");
    assert_eq!(replace_first("{} and {}", "{}", "2"), "2 and {}");
    assert_eq!(replace_first("nothing", "{}", "2"), "nothing");
}

#[test]
fn trimming_and_chars() {
    assert_eq!(trim("  hello \t\n"), "hello");
    assert_eq!(trim("\u{3000}全角\u{3000}"), "全角");
    assert_eq!(trim("   "), "");
    assert_eq!(chars_of("añb"), vec!['a', 'ñ', 'b']);
    assert_eq!(string_of("copy"), "copy");
}
