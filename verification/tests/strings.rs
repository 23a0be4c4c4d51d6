use lgtui::text::{
    blank, chars_of, contains, decimal_string, ends_with, find_from_exec, join_path_exec,
    push_padded, push_signed_decimal, starts_with, str_eq, string_of, trim_str,
};

#[test]
fn trim_removes_surrounding_whitespace() {
    assert_eq!(trim_str("  a b \t\n"), "a b");
    assert_eq!(trim_str("\u{3000}wide\u{2003}"), "wide");
    assert_eq!(trim_str("   "), "");
    assert_eq!(trim_str(""), "");
}

#[test]
fn blank_means_only_whitespace() {
    assert!(blank(""));
    assert!(blank(" \t\n"));
    assert!(!blank(" x "));
}

#[test]
fn join_path_agrees_with_path_join() {
    let cases = [
        ("/home/u", "x"),
        ("/home/u/", "x"),
        ("/home/u", "/abs/path"),
        ("", "rel"),
        ("a", ""),
        ("/home/u", ".local/share/lgtui"),
    ];
    for (a, b) in cases {
        let expected = std::path::PathBuf::from(a).join(b).to_string_lossy().to_string();
        assert_eq!(join_path_exec(a, b), expected, "joining {:?} and {:?}", a, b);
    }
}

#[test]
fn numbers_are_written_in_decimal() {
    assert_eq!(decimal_string(0), "0");
    assert_eq!(decimal_string(1234567890), "1234567890");
    assert_eq!(decimal_string(u64::MAX), u64::MAX.to_string());
    let mut s = String::from("x");
    push_padded(&mut s, 7, 3);
    assert_eq!(s, "x007");
    let mut t = String::new();
    push_padded(&mut t, 12345, 2);
    assert_eq!(t, "12345");
    let mut u = String::new();
    push_signed_decimal(&mut u, -42);
    push_signed_decimal(&mut u, i64::MIN);
    assert_eq!(u, format!("-42{}", i64::MIN));
}

#[test]
fn searching_finds_the_first_occurrence() {
    let s = chars_of("abcabc");
    let p = chars_of("bc");
    assert_eq!(find_from_exec(&s, &p, 0), Some(1));
    assert_eq!(find_from_exec(&s, &p, 2), Some(4));
    assert_eq!(find_from_exec(&s, &p, 5), None);
    assert!(starts_with(&s, "abc"));
    assert!(ends_with(&s, "cabc"));
    assert!(contains(&s, "ca"));
    assert!(!contains(&s, "cb"));
    assert!(contains(&s, ""));
}

#[test]
fn strings_compare_and_concatenate() {
    assert!(str_eq("héllo", "héllo"));
    assert!(!str_eq("hello", "hellO"));
    assert_eq!(lgtui::text::concat("ab", "cd"), "abcd");
    let cs = chars_of("héllo");
    assert_eq!(string_of(&cs, 1, 4), "éll");
}
