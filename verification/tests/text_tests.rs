use music_presence::text::{find_first, has_prefix, replace_first, str_eq};

#[test]
fn str_eq_cases() {
    assert!(str_eq("", ""));
    assert!(str_eq("abc", "abc"));
    assert!(!str_eq("abc", "abd"));
    assert!(!str_eq("abc", "ab"));
    assert!(str_eq("äöü", "äöü"));
}

#[test]
fn has_prefix_cases() {
    assert!(has_prefix("file:///tmp/x.jpg", "file://"));
    assert!(!has_prefix("https://x", "file://"));
    assert!(has_prefix("abc", ""));
    assert!(!has_prefix("ab", "abc"));
}

#[test]
fn find_first_cases() {
    assert_eq!(find_first("12x34", "x"), Some(2));
    assert_eq!(find_first("xx", "x"), Some(0));
    assert_eq!(find_first("abc", "z"), None);
    assert_eq!(find_first("abc", ""), Some(0));
    assert_eq!(find_first("ababc", "abc"), Some(2));
}

#[test]
fn replace_first_replaces_only_the_first() {
    assert_eq!(
        replace_first("https://tmpfiles.org/123/a.jpg", "https://tmpfiles.org/", "https://tmpfiles.org/dl/"),
        "https://tmpfiles.org/dl/123/a.jpg"
    );
    assert_eq!(replace_first("aXbXc", "X", "-"), "a-bXc");
    assert_eq!(replace_first("abc", "z", "-"), "abc");
    assert_eq!(
        replace_first("aXb", "X", "-"),
        "aXb".replacen("X", "-", 1)
    );
}
