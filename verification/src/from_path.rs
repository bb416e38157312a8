use crate::path::{path_buf_bytes, path_bytes, path_text};
use std::borrow::Cow;
use std::path::{Path, PathBuf};
use vstd::prelude::*;
use vstd::string::*;
use vstd::utf8::*;

verus! {

/// Returns `None` if the input is not valid UTF-8.
pub fn path_to_str(input: &Path) -> (r: Option<&str>)
    ensures
        r is Some <==> path_text(input) is Some,
        r is Some ==> r.unwrap()@ == path_text(input).unwrap(),
{
    let r = input.to_str();
    proof {
        if r is Some {
            encode_utf8_decode_utf8(r.unwrap()@);
        }
    }
    r
}

/// Returns `None` if the input is not valid UTF-8.
pub fn path_to_string(input: &Path) -> (r: Option<String>)
    ensures
        r is Some <==> path_text(input) is Some,
        r is Some ==> r.unwrap()@ == path_text(input).unwrap(),
{
    match path_to_str(input) {
        Some(s) => Some(s.to_string()),
        None => None,
    }
}

/// This never fails, but what is not valid UTF-8 is replaced with
/// U+FFFD. It returns a `Cow<str>`; call `to_string()` to make it a
/// `String`.
pub fn path_to_string_lossy(input: &Path) -> (r: Cow<'_, str>)
    ensures
        path_text(input) is Some ==> r@ == path_text(input).unwrap(),
{
    let r = input.to_string_lossy();
    proof {
        encode_utf8_decode_utf8(r@);
    }
    r
}

/// The owned path holds what the input holds, byte for byte.
pub fn path_to_path_buf(input: &Path) -> (r: PathBuf)
    ensures
        path_buf_bytes(&r) == path_bytes(input),
{
    input.to_path_buf()
}

} // verus!
