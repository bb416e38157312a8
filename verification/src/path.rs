use std::path::{Path, PathBuf};
use vstd::prelude::*;
use vstd::string::*;
use vstd::utf8::*;

verus! {

/// A path of std. Of what it holds only its bytes are spoken of, by the
/// name `path_bytes`.
#[verifier::external_type_specification]
#[verifier::external_body]
pub struct ExPath(std::path::Path);

/// An owned path of std. Of what it holds only its bytes are spoken of,
/// by the name `path_buf_bytes`.
#[verifier::external_type_specification]
#[verifier::external_body]
pub struct ExPathBuf(std::path::PathBuf);

/// The bytes of a path, in the encoding in which std holds it. The
/// encoding extends UTF-8: a path made of a string holds the string's
/// UTF-8, and a path is valid Unicode exactly if its bytes are valid
/// UTF-8.
pub uninterp spec fn path_bytes(p: &Path) -> Seq<u8>;

/// The bytes of an owned path, in the same encoding.
pub uninterp spec fn path_buf_bytes(p: &PathBuf) -> Seq<u8>;

/// The text that `bytes` encode, where they are valid UTF-8.
pub open spec fn text_of(bytes: Seq<u8>) -> Option<Seq<char>> {
    if valid_utf8(bytes) {
        Some(decode_utf8(bytes))
    } else {
        None
    }
}

/// The text of a path, where the path is valid Unicode.
pub open spec fn path_text(p: &Path) -> Option<Seq<char>> {
    text_of(path_bytes(p))
}

/// The text of an owned path, where the path is valid Unicode.
pub open spec fn path_buf_text(p: &PathBuf) -> Option<Seq<char>> {
    text_of(path_buf_bytes(p))
}

/// The text that the UTF-8 of `s` encodes is `s`.
pub proof fn lemma_text_of_encoding(s: Seq<char>)
    ensures
        text_of(encode_utf8(s)) == Some(s),
{
    encode_utf8_valid_utf8(s);
    encode_utf8_decode_utf8(s);
}

/// `Path::to_str` gives the text of the path, if the path is valid
/// Unicode: then the bytes of the path are the text's UTF-8.
pub assume_specification<'a>[ std::path::Path::to_str ](p: &'a std::path::Path) -> (r: Option<
    &'a str,
>)
    ensures
        r is Some <==> valid_utf8(path_bytes(p)),
        r is Some ==> encode_utf8(r.unwrap()@) == path_bytes(p),
;

/// `Path::to_string_lossy` never fails. Of a path that is valid Unicode
/// it gives the text.
pub assume_specification<'a>[ std::path::Path::to_string_lossy ](p: &'a std::path::Path) -> (r:
    std::borrow::Cow<'a, str>)
    ensures
        valid_utf8(path_bytes(p)) ==> encode_utf8(r@) == path_bytes(p),
;

/// `Path::to_path_buf` gives an owned path that holds the same bytes.
pub assume_specification[ std::path::Path::to_path_buf ](p: &std::path::Path) -> (r:
    std::path::PathBuf)
    ensures
        path_buf_bytes(&r) == path_bytes(p),
;

/// `PathBuf::as_path` gives the path that the owned path holds, with the
/// same bytes.
pub assume_specification<'a>[ std::path::PathBuf::as_path ](p: &'a std::path::PathBuf) -> (r:
    &'a std::path::Path)
    ensures
        path_bytes(r) == path_buf_bytes(p),
;

/// `Path::new` on a string wraps the string as a path: its bytes are the
/// string's UTF-8.
#[verifier::external_body]
pub(crate) fn path_new(s: &str) -> (r: &Path)
    ensures
        path_bytes(r) == encode_utf8(s@),
{
    Path::new(s)
}

/// `PathBuf::from` on a string makes the string an owned path: its bytes
/// are the string's UTF-8.
#[verifier::external_body]
pub(crate) fn path_buf_from(s: String) -> (r: PathBuf)
    ensures
        path_buf_bytes(&r) == encode_utf8(s@),
{
    PathBuf::from(s)
}

} // verus!
