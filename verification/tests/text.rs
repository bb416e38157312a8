use string_conversions::text::{join, less, replace, same, to_chars};

#[test]
fn to_chars_gives_the_characters() {
    assert_eq!(to_chars("a\u{e9}z"), vec!['a', '\u{e9}', 'z']);
    assert!(to_chars("").is_empty());
}

#[test]
fn replace_every_occurrence() {
    assert_eq!(replace("a{}b{}c", "{}", "XY"), "aXYbXYc");
    assert_eq!(replace("Path::new({})", "{}", "input"), "Path::new(input)");
    assert_eq!(replace("no placeholder", "{}", "x"), "no placeholder");
    assert_eq!(replace("", "{}", "x"), "");
}

#[test]
fn replace_is_from_the_left_and_does_not_overlap() {
    assert_eq!(replace("aaa", "aa", "b"), "ba");
    assert_eq!(replace("a   b", "  ", " "), "a  b");
    assert_eq!(replace("a    b", "  ", " "), "a  b");
    assert_eq!(replace("{{}}", "{}", "{}"), "{{}}");
}

#[test]
fn replace_does_not_look_into_what_it_put_in() {
    assert_eq!(replace("x{}x", "{}", "{}{}"), "x{}{}x");
}

#[test]
fn replace_of_the_empty_pattern() {
    assert_eq!(replace("abc", "", "-"), "-a-b-c-");
    assert_eq!(replace("", "", "-"), "-");
}

#[test]
fn replace_agrees_with_std() {
    let cases = [
        ("Result<&str, Utf8Error>", "<", "&lt;"),
        ("one\ntwo\n\nthree", "\n", " "),
        ("a  b   c    d", "  ", " "),
        ("abcabcab", "abc", ""),
        ("short", "longer than the text", "x"),
        ("\u{e9}t\u{e9}", "\u{e9}", "e"),
    ];
    for (text, pat, with) in cases {
        assert_eq!(replace(text, pat, with), text.replace(pat, with));
    }
}

#[test]
fn less_is_the_order_of_std() {
    let words = ["", "a", "ab", "b", "B", "std::ffi::CStr", "std::ffi::{CStr, CString}", "\u{e9}", "z"];
    for a in words {
        for b in words {
            assert_eq!(less(a, b), a < b, "{:?} {:?}", a, b);
            assert_eq!(same(a, b), a == b, "{:?} {:?}", a, b);
        }
    }
}

#[test]
fn a_proper_prefix_comes_first() {
    assert!(less("std::ffi::OsStr", "std::ffi::OsString"));
    assert!(!less("std::ffi::OsString", "std::ffi::OsStr"));
    assert!(!less("same", "same"));
}

#[test]
fn join_puts_the_separator_between() {
    let parts = vec!["a".to_string(), "b".to_string(), "c".to_string()];
    assert_eq!(join(&parts, ", "), "a, b, c");
    assert_eq!(join(&parts, ""), "abc");
    assert_eq!(join(&vec!["only".to_string()], "\n"), "only");
    assert_eq!(join(&Vec::new(), "\n"), "");
    assert_eq!(join(&vec![String::new(), String::new()], "-"), "-");
}
