use string_conversions::code::Code;

fn code_with(uses: &[&'static str], functions: &str) -> Code {
    let mut code = Code::default();
    code.uses.extend(&uses.to_vec());
    code.functions.push_str(functions);
    code
}

#[test]
fn default_code_is_empty() {
    let code = Code::default();
    assert_eq!(code.uses.len(), 0);
    assert_eq!(code.functions, "");
    assert_eq!(code.gen(), "\n\n");
}

#[test]
fn siblings_are_grouped() {
    let code = code_with(
        &["std::path::PathBuf", "std::ffi::OsStr", "std::path::Path", "std::ffi::OsString"],
        "",
    );
    assert_eq!(
        code.combine_uses().to_vec(),
        vec!["std::ffi::{OsStr, OsString}", "std::path::{Path, PathBuf}"]
    );
}

#[test]
fn a_lone_sibling_stays_as_it_is() {
    let code = code_with(&["std::ffi::CString", "std::ffi::OsStr", "std::path::PathBuf"], "");
    assert_eq!(
        code.combine_uses().to_vec(),
        vec!["std::ffi::CString", "std::ffi::OsStr", "std::path::PathBuf"]
    );
}

#[test]
fn grouping_leaves_other_imports_alone() {
    let code = code_with(
        &[
            "std::str::Utf8Error",
            "std::ffi::CStr",
            "std::ffi::FromBytesWithNulError",
            "std::ffi::CString",
            "std::os::unix::ffi::OsStrExt",
        ],
        "",
    );
    assert_eq!(
        code.combine_uses().to_vec(),
        vec![
            "std::ffi::FromBytesWithNulError",
            "std::ffi::{CStr, CString}",
            "std::os::unix::ffi::OsStrExt",
            "std::str::Utf8Error",
        ]
    );
}

#[test]
fn combine_uses_does_not_change_the_code() {
    let code = code_with(&["std::path::PathBuf", "std::path::Path"], "");
    let _ = code.combine_uses();
    assert_eq!(code.uses.to_vec(), vec!["std::path::Path", "std::path::PathBuf"]);
}

#[test]
fn gen_gives_imports_then_functions() {
    let code = code_with(
        &["std::path::Path", "std::borrow::Cow", "std::path::PathBuf"],
        "pub fn f() {}\n\n",
    );
    assert_eq!(
        code.gen(),
        "use std::borrow::Cow;\nuse std::path::{Path, PathBuf};\n\npub fn f() {}\n\n"
    );
}

#[test]
fn gen_has_no_import_twice() {
    let code = code_with(&["a::B", "a::B", "a::A", "a::B"], "");
    assert_eq!(code.gen(), "use a::A;\nuse a::B;\n\n");
}
