use crate::from_path::path_to_str;
use crate::path::{path_buf_bytes, path_buf_text, path_bytes};
use std::path::{Path, PathBuf};
use vstd::prelude::*;
use vstd::string::*;

verus! {

/// Returns `None` if the input is not valid UTF-8.
pub fn path_buf_to_str(input: &PathBuf) -> (r: Option<&str>)
    ensures
        r is Some <==> path_buf_text(input) is Some,
        r is Some ==> r.unwrap()@ == path_buf_text(input).unwrap(),
{
    path_to_str(input.as_path())
}

/// Returns `None` if the input is not valid UTF-8.
pub fn path_buf_to_string(input: PathBuf) -> (r: Option<String>)
    ensures
        r is Some <==> path_buf_text(&input) is Some,
        r is Some ==> r.unwrap()@ == path_buf_text(&input).unwrap(),
{
    match path_to_str(input.as_path()) {
        Some(s) => Some(s.to_string()),
        None => None,
    }
}

/// The path holds what the owned path holds, byte for byte.
pub fn path_buf_to_path(input: &PathBuf) -> (r: &Path)
    ensures
        path_bytes(r) == path_buf_bytes(input),
{
    input.as_path()
}

} // verus!
