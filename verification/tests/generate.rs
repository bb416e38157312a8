use string_conversions::chains::conversion_chains;
use string_conversions::code::Code;
use string_conversions::generate::{
    compose, gen_code, gen_lib_code, gen_one_conversion, gen_sources, synthesize, GenError,
};
use string_conversions::kind::Type;
use string_conversions::transform::{direct_conversion, find_conversion};

fn generate_pair(a: Type, b: Type) -> Code {
    let mut code = Code::default();
    for chain in conversion_chains(a, b) {
        gen_one_conversion(a, b, &chain, &mut code);
    }
    code
}

#[test]
fn compose_of_one_kind_is_the_parameter() {
    let c = compose(&vec![Type::Str]).unwrap();
    assert_eq!(c.expr, "input");
    assert_eq!(c.input, Type::Str);
    assert_eq!(c.output, Type::Str);
    assert!(!c.unix_only);
    assert_eq!(c.uses.len(), 0);
}

#[test]
fn compose_folds_from_the_left() {
    let c = compose(&vec![Type::Path, Type::OsStr, Type::U8Slice, Type::U8Vec]).unwrap();
    assert_eq!(c.expr, "input.as_os_str().as_bytes().to_vec()");
    assert_eq!(c.input, Type::Path);
    assert_eq!(c.output, Type::U8Vec);
    assert!(c.unix_only);
    assert_eq!(
        c.uses.to_vec(),
        vec!["std::ffi::OsStr", "std::os::unix::ffi::OsStrExt", "std::path::Path"]
    );
}

#[test]
fn compose_nests_templates_that_wrap() {
    let c = compose(&vec![Type::CStr, Type::U8Slice, Type::OsStr, Type::Path, Type::PathBuf])
        .unwrap();
    assert_eq!(c.expr, "Path::new(OsStr::from_bytes(input.to_bytes())).to_path_buf()");
}

#[test]
fn compose_stops_at_the_first_dangling_step() {
    let r = compose(&vec![Type::Str, Type::U8Slice, Type::Path, Type::Str, Type::Str]);
    assert_eq!(
        r.err(),
        Some(GenError::MissingTransform { from: Type::U8Slice, to: Type::Path })
    );
}

#[test]
fn one_direct_step_from_str_to_string() {
    let chains = conversion_chains(Type::Str, Type::String);
    assert_eq!(chains, vec![vec![Type::Str, Type::String]]);
    let code = generate_pair(Type::Str, Type::String);
    assert_eq!(
        code.functions,
        "pub fn str_to_string(input: &str) -> String {\n    input.to_string()\n}\n\n"
    );
    assert_eq!(code.uses.len(), 0);
    let direct = direct_conversion(Type::Str, Type::String);
    assert_eq!(direct.format_expr("input".to_string()), "input.to_string()");
}

#[test]
fn bytes_to_string_strict_and_lossy() {
    let code = generate_pair(Type::U8Slice, Type::String);
    assert_eq!(
        code.functions,
        "pub fn u8_slice_to_string(input: &[u8]) -> Result<String, FromUtf8Error> {\n    \
         String::from_utf8(input.to_vec())\n}\n\n\
         // This never fails, but invalid UTF-8 sequences will be replaced with\n\
         // \"\u{fffd}\". This returns a `Cow<str>`; call `to_string()` to convert it to\n\
         // a `String`.\n\
         pub fn u8_slice_to_string_lossy(input: &[u8]) -> Cow<str> {\n    \
         String::from_utf8_lossy(input)\n}\n\n"
    );
    assert_eq!(code.uses.to_vec(), vec!["std::borrow::Cow", "std::string::FromUtf8Error"]);
}

#[test]
fn os_string_to_str_goes_through_a_reference_and_gives_an_option() {
    let chains = conversion_chains(Type::OsString, Type::Str);
    assert_eq!(chains, vec![vec![Type::OsStringRef, Type::OptionStr]]);
    let code = generate_pair(Type::OsString, Type::Str);
    assert_eq!(
        code.functions,
        "// Returns None if the input is not valid UTF-8.\n\
         pub fn os_string_to_str(input: &OsString) -> Option<&str> {\n    input.to_str()\n}\n\n"
    );
}

#[test]
fn one_restricted_step_marks_the_whole_function() {
    let chain = vec![Type::CString, Type::U8Vec, Type::OsString, Type::PathBuf];
    let restricted: Vec<bool> = chain
        .windows(2)
        .map(|s| direct_conversion(s[0], s[1]).unix_only())
        .collect();
    assert_eq!(restricted, vec![false, true, false]);
    let composed = compose(&chain).unwrap();
    assert!(composed.unix_only);
    let f = synthesize(Type::CString, Type::PathBuf, &composed);
    assert!(f.unix_only);
    assert_eq!(f.name, "c_string_to_path_buf_unix");
    assert_eq!(f.comment.0, vec!["This conversion is only allowed on Unix."]);
    assert_eq!(f.body, "PathBuf::from(OsString::from_vec(input.into_bytes()))");
    assert_eq!(
        f.render(),
        "// This conversion is only allowed on Unix.\n\
         pub fn c_string_to_path_buf_unix(input: CString) -> PathBuf {\n    \
         PathBuf::from(OsString::from_vec(input.into_bytes()))\n}"
    );
}

#[test]
fn an_unrestricted_chain_has_no_mark() {
    let composed = compose(&vec![Type::PathBufRef, Type::Path, Type::OptionStr]).unwrap();
    assert!(!composed.unix_only);
    let f = synthesize(Type::PathBuf, Type::Str, &composed);
    assert!(!f.unix_only);
    assert_eq!(f.name, "path_buf_to_str");
    assert_eq!(f.input_type, "&PathBuf");
    assert_eq!(f.output_type, "Option<&str>");
    assert_eq!(f.body, "input.as_path().to_str()");
    assert_eq!(f.comment.0, vec!["Returns None if the input is not valid UTF-8."]);
}

#[test]
fn the_marks_of_every_generated_function_follow_its_chain() {
    let anchors = Type::anchors();
    for a in &anchors {
        for b in &anchors {
            if a == b {
                continue;
            }
            for chain in conversion_chains(*a, *b) {
                let any = chain
                    .windows(2)
                    .any(|s| direct_conversion(s[0], s[1]).unix_only());
                let f = synthesize(*a, *b, &compose(&chain).unwrap());
                let mut name = format!("{}_to_{}", a.short_name(), b.short_name());
                if any {
                    name.push_str("_unix");
                }
                if *chain.last().unwrap() == Type::CowStr {
                    name.push_str("_lossy");
                }
                assert_eq!(f.name, name);
                assert_eq!(f.unix_only, any);
                assert_eq!(
                    f.comment.0.first().map(|p| p.as_str())
                        == Some("This conversion is only allowed on Unix."),
                    any
                );
                assert_eq!(f.input_type, chain[0].type_str());
                assert_eq!(f.output_type, chain[chain.len() - 1].type_str());
            }
        }
    }
}

#[test]
fn a_dangling_step_is_found_before_anything_is_generated() {
    let chain = vec![Type::Str, Type::OsStr, Type::CString];
    assert!(find_conversion(Type::Str, Type::OsStr).is_some());
    assert!(find_conversion(Type::OsStr, Type::CString).is_none());
    assert_eq!(
        compose(&chain).err(),
        Some(GenError::MissingTransform { from: Type::OsStr, to: Type::CString })
    );
    let mut code = Code::default();
    let valid = vec![Type::Str, Type::Path];
    assert!(compose(&valid).is_ok());
    gen_one_conversion(Type::Str, Type::Path, &valid, &mut code);
    assert_eq!(
        code.functions,
        "pub fn str_to_path(input: &str) -> &Path {\n    Path::new(input)\n}\n\n"
    );
    assert_eq!(code.uses.to_vec(), vec!["std::path::Path"]);
}

#[test]
fn a_pair_without_a_chain_stops_the_pass() {
    assert_eq!(
        gen_code(Type::StringRef).err(),
        Some(GenError::MissingChain { from: Type::StringRef, to: Type::Str })
    );
    assert_eq!(
        gen_code(Type::CowStr).err(),
        Some(GenError::MissingChain { from: Type::CowStr, to: Type::Str })
    );
}

#[test]
fn the_pass_for_str() {
    let code = gen_code(Type::Str).unwrap();
    let note = "// A FromBytesWithNulError will be returned if the input is not nul-\n\
                // terminated or contains any interior nul bytes. If your input is not nul-\n\
                // terminated then a conversion without allocation is not possible, convert\n\
                // to a CString instead.\n";
    let expected = [
        "use std::ffi::FromBytesWithNulError;\n",
        "use std::ffi::{CStr, CString};\n",
        "use std::ffi::{OsStr, OsString};\n",
        "use std::path::{Path, PathBuf};\n",
        "\n",
        "pub fn str_to_string(input: &str) -> String {\n    input.to_string()\n}\n\n",
        "pub fn str_to_u8_slice(input: &str) -> &[u8] {\n    input.as_bytes()\n}\n\n",
        "pub fn str_to_u8_vec(input: &str) -> Vec<u8> {\n    input.as_bytes().to_vec()\n}\n\n",
        "pub fn str_to_path(input: &str) -> &Path {\n    Path::new(input)\n}\n\n",
        "pub fn str_to_path_buf(input: &str) -> PathBuf {\n    PathBuf::from(input)\n}\n\n",
        "pub fn str_to_os_str(input: &str) -> &OsStr {\n    OsStr::new(input)\n}\n\n",
        "pub fn str_to_os_string(input: &str) -> OsString {\n    OsString::from(input)\n}\n\n",
        note,
        "pub fn str_to_c_str(input: &str) -> Result<&CStr, FromBytesWithNulError> {\n    ",
        "CStr::from_bytes_with_nul(input.as_bytes())\n}\n\n",
        "pub fn str_to_c_string(input: &str) -> Result<CString, FromBytesWithNulError> {\n    ",
        "CStr::from_bytes_with_nul(input.as_bytes()).map(CString::from)\n}\n\n",
    ]
    .concat();
    assert_eq!(code.gen(), expected);
}

#[test]
fn a_pass_generates_a_function_for_every_chain_to_every_other_anchor() {
    let anchors = Type::anchors();
    for a in &anchors {
        let code = gen_code(*a).unwrap();
        let mut expected = Code::default();
        for b in &anchors {
            if a == b {
                continue;
            }
            let chains = conversion_chains(*a, *b);
            assert!(!chains.is_empty());
            for chain in chains {
                gen_one_conversion(*a, *b, &chain, &mut expected);
            }
            let name = format!("pub fn {}_to_{}", a.short_name(), b.short_name());
            assert!(code.functions.contains(&name));
        }
        assert_eq!(code.functions, expected.functions);
        assert_eq!(code.uses.to_vec(), expected.uses.to_vec());
    }
}

#[test]
fn the_imports_of_a_pass_are_complete_and_single() {
    let anchors = Type::anchors();
    for a in &anchors {
        let code = gen_code(*a).unwrap();
        for b in &anchors {
            if a == b {
                continue;
            }
            for chain in conversion_chains(*a, *b) {
                for step in chain.windows(2) {
                    let conv = direct_conversion(step[0], step[1]);
                    for path in step[0].uses().iter().chain(&step[1].uses()).chain(&conv.uses()) {
                        assert!(code.uses.contains(path));
                    }
                }
            }
        }
        let grouped = code.combine_uses().to_vec();
        for (i, use_) in grouped.iter().enumerate() {
            assert!(!grouped[i + 1..].contains(use_));
        }
        for path in code.uses.to_vec() {
            let (module, item) = path.rsplit_once("::").unwrap();
            let provided = grouped.iter().any(|g| {
                *g == path
                    || (g.starts_with(&format!("{}::{{", module))
                        && g[module.len() + 3..g.len() - 1].split(", ").any(|n| n == item))
            });
            assert!(provided, "{}", path);
        }
    }
}

#[test]
fn two_runs_give_the_same_files() {
    let first = gen_sources().unwrap();
    let second = gen_sources().unwrap();
    assert_eq!(first.len(), 10);
    assert_eq!(second.len(), 10);
    for (a, b) in first.iter().zip(&second) {
        assert_eq!(a.anchor, b.anchor);
        assert_eq!(a.mod_name, b.mod_name);
        assert_eq!(a.text.as_bytes(), b.text.as_bytes());
    }
}

#[test]
fn the_files_are_those_of_the_anchors() {
    let files = gen_sources().unwrap();
    let anchors = Type::anchors();
    for (file, anchor) in files.iter().zip(&anchors) {
        assert_eq!(file.anchor, *anchor);
        assert_eq!(file.mod_name, format!("from_{}", anchor.short_name()));
        assert_eq!(file.text, gen_code(*anchor).unwrap().gen());
    }
    assert_eq!(files[2].mod_name, "from_u8_slice");
}

#[test]
fn the_root_file_declares_the_modules() {
    let names = vec!["from_str".to_string(), "from_string".to_string()];
    assert_eq!(
        gen_lib_code(&names),
        "\n// The conversion functions use some argument types that you don't\n\
         // ordinarly see, such as `&String`. The types are normally implicit,\n\
         // for example `String::as_str` takes a `&String`. Since all of our\n\
         // conversions are in separate functions, we have to explicitly use\n\
         // these types.\n\
         #![allow(clippy::ptr_arg)]\n\n\
         pub mod from_str;\npub mod from_string;\n"
    );
    assert!(gen_lib_code(&Vec::new()).ends_with("#![allow(clippy::ptr_arg)]\n\n"));
}

#[test]
fn the_suffix_of_a_composed_conversion() {
    assert_eq!(compose(&vec![Type::Str, Type::String]).unwrap().suffix(), "");
    assert_eq!(compose(&vec![Type::U8Slice, Type::OsStr]).unwrap().suffix(), "_unix");
    assert_eq!(compose(&vec![Type::U8Slice, Type::CowStr]).unwrap().suffix(), "_lossy");
}
