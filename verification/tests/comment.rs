use string_conversions::comment::{Comment, WIDTH};
use string_conversions::kind::Type;

#[test]
fn an_empty_comment_has_no_text() {
    assert_eq!(Comment::new().format(), "");
    assert!(Comment::new().0.is_empty());
}

#[test]
fn the_width_is_72() {
    assert_eq!(WIDTH, 72);
}

#[test]
fn a_short_paragraph_is_one_line() {
    let mut c = Comment::new();
    c.add_paragraph("Returns None if the input is not valid UTF-8.");
    assert_eq!(c.0, vec!["Returns None if the input is not valid UTF-8."]);
    assert_eq!(c.format(), "// Returns None if the input is not valid UTF-8.\n");
}

#[test]
fn a_long_paragraph_is_wrapped_anew() {
    let mut c = Comment::new();
    c.add_paragraph(Type::CowStr.return_comment().unwrap());
    assert_eq!(
        c.format(),
        "// This never fails, but invalid UTF-8 sequences will be replaced with\n\
         // \"\u{fffd}\". This returns a `Cow<str>`; call `to_string()` to convert it to\n\
         // a `String`.\n"
    );
    for line in c.0[0].lines() {
        assert!(line.chars().count() <= 72);
    }
}

#[test]
fn line_breaks_of_the_source_do_not_matter() {
    let mut a = Comment::new();
    a.add_paragraph("one two\nthree  four");
    let mut b = Comment::new();
    b.add_paragraph("one\ntwo three\nfour");
    assert_eq!(a.0, vec!["one two three four"]);
    assert_eq!(a.0, b.0);
}

#[test]
fn an_empty_line_inside_a_paragraph_is_lost() {
    let mut c = Comment::new();
    c.add_paragraph("first part.\n\nsecond part.");
    assert_eq!(c.0, vec!["first part. second part."]);
}

#[test]
fn paragraphs_are_parted_by_an_empty_comment_line() {
    let mut c = Comment::new();
    c.add_paragraph("This conversion is only allowed on Unix.");
    c.add_paragraph(Type::ResultCStrOrFromBytesWithNulError.return_comment().unwrap());
    assert_eq!(
        c.format(),
        "// This conversion is only allowed on Unix.\n\
         // \n\
         // A FromBytesWithNulError will be returned if the input is not nul-\n\
         // terminated or contains any interior nul bytes. If your input is not nul-\n\
         // terminated then a conversion without allocation is not possible, convert\n\
         // to a CString instead.\n"
    );
}

#[test]
fn push_wrapped_takes_the_paragraph_as_it_is() {
    let mut c = Comment::new();
    c.push_wrapped("a\nb".to_string());
    c.push_wrapped("c".to_string());
    assert_eq!(c.0, vec!["a\nb", "c"]);
    assert_eq!(c.format(), "// a\n// b\n// \n// c\n");
}

#[test]
fn format_follows_the_lines_of_std() {
    for text in ["a\r\nb", "a\r", "a\n", "\n", "a\n\n", "\r\n", "a\rb\nc", ""] {
        let mut c = Comment::new();
        c.push_wrapped(text.to_string());
        let mut expected = String::new();
        for line in text.lines() {
            expected.push_str("// ");
            expected.push_str(line);
            expected.push('\n');
        }
        assert_eq!(c.format(), expected, "{:?}", text);
    }
}

#[test]
fn a_short_line_loses_only_the_spaces_at_its_end() {
    let mut c = Comment::new();
    c.add_paragraph("This conversion is only allowed on Unix.");
    c.add_paragraph("short text   ");
    c.add_paragraph(" kept at the front");
    assert_eq!(
        c.0,
        vec!["This conversion is only allowed on Unix.", "short text", " kept at the front"]
    );
}
