use string_conversions::chains::{conversion_chain, conversion_chains, find_chains};
use string_conversions::kind::Type;
use string_conversions::transform::{direct_conversion, find_conversion, mkconv, Conversion};

#[test]
fn anchors_are_ten_in_order() {
    let anchors = Type::anchors();
    assert_eq!(
        anchors,
        vec![
            Type::Str,
            Type::String,
            Type::U8Slice,
            Type::U8Vec,
            Type::Path,
            Type::PathBuf,
            Type::OsStr,
            Type::OsString,
            Type::CStr,
            Type::CString,
        ]
    );
}

#[test]
fn type_strings() {
    assert_eq!(Type::Str.type_str(), "&str");
    assert_eq!(Type::U8Vec.type_str(), "Vec<u8>");
    assert_eq!(Type::CowStr.type_str(), "Cow<str>");
    assert_eq!(
        Type::ResultCStrOrFromBytesWithNulError.type_str(),
        "Result<&CStr, FromBytesWithNulError>"
    );
}

#[test]
fn html_type_strings_escape_angle_brackets() {
    assert_eq!(Type::U8Vec.html_type_str(), "Vec&lt;u8&gt;");
    assert_eq!(Type::Str.html_type_str(), "&str");
    assert_eq!(Type::OptionStr.html_type_str(), "Option&lt;&str&gt;");
}

#[test]
fn short_names_of_anchors() {
    let names: Vec<&str> = Type::anchors().iter().map(|t| t.short_name()).collect();
    assert_eq!(
        names,
        vec![
            "str", "string", "u8_slice", "u8_vec", "path", "path_buf", "os_str", "os_string",
            "c_str", "c_string",
        ]
    );
}

#[test]
fn uses_of_kinds() {
    assert!(Type::Str.uses().is_empty());
    assert_eq!(Type::Path.uses(), vec!["std::path::Path"]);
    assert_eq!(
        Type::ResultCStringOrFromBytesWithNulError.uses(),
        vec!["std::ffi::CString", "std::ffi::FromBytesWithNulError"]
    );
}

#[test]
fn return_comments() {
    assert_eq!(
        Type::OptionStr.return_comment(),
        Some("Returns None if the input is not valid UTF-8.")
    );
    assert_eq!(Type::OptionString.return_comment(), Type::OptionStr.return_comment());
    assert!(Type::CowStr.return_comment().unwrap().contains("\u{fffd}"));
    assert_eq!(Type::String.return_comment(), None);
}

#[test]
fn every_pair_of_anchors_has_a_chain() {
    let anchors = Type::anchors();
    for a in &anchors {
        for b in &anchors {
            let found = find_chains(*a, *b);
            if a == b {
                assert!(found.is_none());
            } else {
                let chains = conversion_chains(*a, *b);
                assert!(!chains.is_empty() && chains.len() <= 2);
                assert_eq!(found, Some(chains));
            }
        }
    }
}

#[test]
fn no_chain_from_a_helper_kind() {
    assert!(find_chains(Type::StringRef, Type::Str).is_none());
    assert!(find_chains(Type::Str, Type::CowStr).is_none());
}

#[test]
fn every_step_of_every_chain_is_registered() {
    let anchors = Type::anchors();
    for a in &anchors {
        for b in &anchors {
            if a == b {
                continue;
            }
            for chain in conversion_chains(*a, *b) {
                assert!(!chain.is_empty());
                for step in chain.windows(2) {
                    assert!(find_conversion(step[0], step[1]).is_some());
                }
            }
        }
    }
}

#[test]
fn bytes_to_string_has_a_strict_and_a_lossy_chain() {
    let chains = conversion_chains(Type::U8Slice, Type::String);
    assert_eq!(
        chains,
        vec![
            vec![Type::U8Slice, Type::ResultStringOrFromUtf8Error],
            vec![Type::U8Slice, Type::CowStr],
        ]
    );
}

#[test]
fn direct_conversion_templates() {
    let conv = direct_conversion(Type::Str, Type::String);
    assert_eq!(conv.format, "{}.to_string()");
    assert!(!conv.unix_only());
    assert!(conv.uses().is_empty());

    let conv = direct_conversion(Type::U8Slice, Type::OsStr);
    assert_eq!(conv.format, "OsStr::from_bytes({})");
    assert!(conv.unix_only());
    assert_eq!(conv.uses(), vec!["std::os::unix::ffi::OsStrExt"]);

    let conv = direct_conversion(Type::OsString, Type::U8Vec);
    assert!(conv.unix_only());
    assert_eq!(conv.uses(), vec!["std::os::unix::ffi::OsStringExt"]);

    assert!(find_conversion(Type::Str, Type::U8Vec).is_none());
    assert!(find_conversion(Type::Str, Type::Str).is_none());
    assert_eq!(
        find_conversion(Type::Str, Type::String).map(|c| c.format),
        Some("{}.to_string()")
    );
}

#[test]
fn format_expr_fills_the_placeholder() {
    let conv = direct_conversion(Type::Path, Type::OptionString);
    assert_eq!(
        conv.format_expr("input".to_string()),
        "input.to_str().map(|s| s.to_string())"
    );
    let conv = direct_conversion(Type::U8Slice, Type::ResultStringOrFromUtf8Error);
    assert_eq!(conv.format_expr("x.y()".to_string()), "String::from_utf8(x.y().to_vec())");
}

#[test]
fn every_template_has_one_placeholder() {
    let kinds = [
        Type::Str,
        Type::String,
        Type::U8Slice,
        Type::U8Vec,
        Type::Path,
        Type::PathBuf,
        Type::OsStr,
        Type::OsString,
        Type::CStr,
        Type::CString,
        Type::StringRef,
        Type::U8VecRef,
        Type::OsStringRef,
        Type::PathBufRef,
        Type::CStringRef,
        Type::CowStr,
        Type::OptionStr,
        Type::OptionString,
        Type::ResultStrOrUtf8Error,
        Type::ResultStringOrUtf8Error,
        Type::ResultStringOrFromUtf8Error,
        Type::ResultStringOrOsString,
        Type::ResultCStrOrFromBytesWithNulError,
        Type::ResultCStringOrFromBytesWithNulError,
        Type::ResultStringOrIntoStringError,
    ];
    let mut registered = 0;
    for a in kinds {
        for b in kinds {
            if let Some(conv) = find_conversion(a, b) {
                registered += 1;
                assert_eq!(direct_conversion(a, b).format, conv.format);
                assert_eq!(conv.format.matches("{}").count(), 1);
                assert_eq!(conv.format.matches('{').count(), 1);
                assert_eq!(conv.uses().is_empty(), !conv.unix_only());
            }
        }
    }
    assert_eq!(registered, 55);
}

#[test]
fn only_the_first_ten_kinds_are_anchors() {
    assert!(Type::Str.is_anchor());
    assert!(Type::CString.is_anchor());
    assert!(!Type::StringRef.is_anchor());
    assert!(!Type::CowStr.is_anchor());
    assert!(!Type::ResultStringOrIntoStringError.is_anchor());
    assert_eq!(Type::anchors().iter().filter(|t| t.is_anchor()).count(), 10);
}

#[test]
fn the_primary_chain_is_the_first_of_the_catalog() {
    assert_eq!(
        conversion_chain(Type::U8Slice, Type::String),
        vec![Type::U8Slice, Type::ResultStringOrFromUtf8Error]
    );
    assert_eq!(
        conversion_chain(Type::Path, Type::U8Vec),
        vec![Type::Path, Type::OsStr, Type::U8Slice, Type::U8Vec]
    );
    for a in Type::anchors() {
        for b in Type::anchors() {
            if a != b {
                assert_eq!(conversion_chain(a, b), conversion_chains(a, b)[0]);
            }
        }
    }
}

#[test]
fn default_conversion_is_empty() {
    let conv = Conversion::default();
    assert_eq!(conv.format, "");
    assert!(!conv.unix_only());
    assert_eq!(mkconv("x{}").format, "x{}");
    assert!(mkconv("{}").use_os_str_bytes().os_str_bytes);
    assert!(!mkconv("{}").use_os_str_bytes().os_string_bytes);
    assert!(mkconv("{}").use_os_string_bytes().os_string_bytes);
    assert_eq!(
        mkconv("{}").use_os_str_bytes().use_os_string_bytes().uses(),
        vec!["std::os::unix::ffi::OsStrExt", "std::os::unix::ffi::OsStringExt"]
    );
}
