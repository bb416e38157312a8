use crate::path::{
    lemma_text_of_encoding, path_buf_bytes, path_buf_text, path_bytes, path_new, path_text,
};
use std::path::{Path, PathBuf};
use vstd::prelude::*;
use vstd::slice::slice_to_vec;
use vstd::string::*;
use vstd::utf8::*;

verus! {

pub fn str_to_string(input: &str) -> (r: String)
    ensures
        r@ == input@,
{
    input.to_string()
}

pub fn str_to_u8_slice(input: &str) -> (r: &[u8])
    ensures
        r@ == encode_utf8(input@),
{
    input.as_bytes()
}

pub fn str_to_u8_array(input: &str) -> (r: &[u8])
    ensures
        r@ == encode_utf8(input@),
{
    input.as_bytes()
}

pub fn str_to_u8_vec(input: &str) -> (r: Vec<u8>)
    ensures
        r@ == encode_utf8(input@),
{
    slice_to_vec(input.as_bytes())
}

pub fn str_to_path(input: &str) -> (r: &Path)
    ensures
        path_bytes(r) == encode_utf8(input@),
        path_text(r) == Some(input@),
{
    proof {
        lemma_text_of_encoding(input@);
    }
    path_new(input)
}

pub fn str_to_path_buf(input: &str) -> (r: PathBuf)
    ensures
        path_buf_bytes(&r) == encode_utf8(input@),
        path_buf_text(&r) == Some(input@),
{
    proof {
        lemma_text_of_encoding(input@);
    }
    path_new(input).to_path_buf()
}

} // verus!
