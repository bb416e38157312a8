use crate::path::{
    lemma_text_of_encoding, path_buf_bytes, path_buf_from, path_buf_text, path_bytes, path_new,
    path_text,
};
use std::path::{Path, PathBuf};
use vstd::prelude::*;
use vstd::string::*;
use vstd::utf8::*;

verus! {

pub fn string_to_str(input: &String) -> (r: &str)
    ensures
        r@ == input@,
{
    input.as_str()
}

pub fn string_to_u8_array(input: &String) -> (r: &[u8])
    ensures
        r@ == encode_utf8(input@),
{
    input.as_str().as_bytes()
}

pub fn string_to_u8_vec(input: String) -> (r: Vec<u8>)
    ensures
        r@ == encode_utf8(input@),
{
    input.into_bytes()
}

pub fn string_to_path(input: &String) -> (r: &Path)
    ensures
        path_bytes(r) == encode_utf8(input@),
        path_text(r) == Some(input@),
{
    proof {
        lemma_text_of_encoding(input@);
    }
    path_new(input.as_str())
}

pub fn string_to_path_buf(input: String) -> (r: PathBuf)
    ensures
        path_buf_bytes(&r) == encode_utf8(input@),
        path_buf_text(&r) == Some(input@),
{
    proof {
        lemma_text_of_encoding(input@);
    }
    path_buf_from(input)
}

} // verus!
