use vstd::prelude::*;
use vstd::string::*;
use vstd::utf8::*;

verus! {

/// The error of `std::str::from_utf8`.
#[verifier::external_type_specification]
#[verifier::external_body]
pub struct ExUtf8Error(std::str::Utf8Error);

/// The error of `String::from_utf8`.
#[verifier::external_type_specification]
#[verifier::external_body]
pub struct ExFromUtf8Error(std::string::FromUtf8Error);

/// The index that `Utf8Error::valid_up_to` gives for the error: up to
/// there the input was found to be valid UTF-8.
pub uninterp spec fn utf8_valid_up_to(e: std::str::Utf8Error) -> usize;

/// The bytes that `FromUtf8Error::into_bytes` gives for the error: those
/// that were to become a `String`.
pub uninterp spec fn from_utf8_error_bytes(e: &std::string::FromUtf8Error) -> Seq<u8>;

/// The `Utf8Error` that `FromUtf8Error::utf8_error` gives for the error.
pub uninterp spec fn from_utf8_error_cause(e: &std::string::FromUtf8Error) -> std::str::Utf8Error;

/// Whether `index` marks a part of `bytes` that is valid UTF-8 and
/// shorter than `bytes`.
pub open spec fn marks_valid_prefix(bytes: Seq<u8>, index: usize) -> bool {
    index < bytes.len() && valid_utf8(bytes.take(index as int))
}

/// `std::str::from_utf8` succeeds exactly on valid UTF-8, and then gives
/// the string that the bytes encode. Its error marks how far the bytes
/// were valid, which is short of their end.
pub assume_specification[ std::str::from_utf8 ](v: &[u8]) -> (r: Result<&str, std::str::Utf8Error>)
    ensures
        r is Ok <==> valid_utf8(v@),
        r is Ok ==> r.unwrap().spec_bytes() == v@,
        r matches Err(e) ==> marks_valid_prefix(v@, utf8_valid_up_to(e)),
;

/// `String::from_utf8` succeeds exactly on valid UTF-8, and then gives
/// the string that the bytes encode. Its error holds the bytes that it
/// was given, and marks how far they were valid, which is short of
/// their end.
pub assume_specification[ std::string::String::from_utf8 ](vec: Vec<u8>) -> (r: Result<
    std::string::String,
    std::string::FromUtf8Error,
>)
    ensures
        r is Ok <==> valid_utf8(vec@),
        r is Ok ==> encode_utf8(r.unwrap()@) == vec@,
        r matches Err(e) ==> from_utf8_error_bytes(&e) == vec@,
        r matches Err(e) ==> marks_valid_prefix(vec@, utf8_valid_up_to(from_utf8_error_cause(&e))),
;

/// What `String::from_utf8_lossy` makes of `bytes`: the text that they
/// encode, with U+FFFD in the place of every part that is not valid
/// UTF-8.
pub uninterp spec fn utf8_lossy(bytes: Seq<u8>) -> Seq<char>;

/// `String::from_utf8_lossy` never fails. Of valid UTF-8 it gives the
/// string that the bytes encode.
pub assume_specification<'a>[ std::string::String::from_utf8_lossy ](v: &'a [u8]) -> (r:
    std::borrow::Cow<'a, str>)
    ensures
        r@ == utf8_lossy(v@),
        valid_utf8(v@) ==> encode_utf8(r@) == v@,
;

/// `String::into_bytes` gives the bytes that encode the string.
pub assume_specification[ std::string::String::into_bytes ](s: std::string::String) -> (r: Vec<
    u8,
>)
    ensures
        r@ == encode_utf8(s@),
;

} // verus!
