use crate::utf8::{
    from_utf8_error_bytes, from_utf8_error_cause, marks_valid_prefix, utf8_lossy, utf8_valid_up_to,
};
use std::borrow::Cow;
use std::str::Utf8Error;
use std::string::FromUtf8Error;
use vstd::prelude::*;
use vstd::slice::slice_to_vec;
use vstd::string::*;
use vstd::utf8::*;

verus! {

/// A `Utf8Error` is returned if the input is not valid UTF-8; it marks
/// how far the input is valid.
pub fn u8_slice_to_str(input: &[u8]) -> (r: Result<&str, Utf8Error>)
    ensures
        r is Ok <==> valid_utf8(input@),
        r is Ok ==> r.unwrap()@ == decode_utf8(input@),
        r matches Err(e) ==> marks_valid_prefix(input@, utf8_valid_up_to(e)),
{
    let r = std::str::from_utf8(input);
    proof {
        if r is Ok {
            encode_utf8_decode_utf8(r.unwrap()@);
        }
    }
    r
}

/// A `FromUtf8Error` is returned if the input is not valid UTF-8; it
/// holds the bytes of the input and marks how far they are valid.
pub fn u8_slice_to_string(input: &[u8]) -> (r: Result<String, FromUtf8Error>)
    ensures
        r is Ok <==> valid_utf8(input@),
        r is Ok ==> r.unwrap()@ == decode_utf8(input@),
        r matches Err(e) ==> from_utf8_error_bytes(&e) == input@,
        r matches Err(e) ==> marks_valid_prefix(
            input@,
            utf8_valid_up_to(from_utf8_error_cause(&e)),
        ),
{
    let r = String::from_utf8(slice_to_vec(input));
    proof {
        if r is Ok {
            encode_utf8_decode_utf8(r.unwrap()@);
        }
    }
    r
}

/// This never fails, but invalid UTF-8 sequences are replaced with
/// U+FFFD. It returns a `Cow<str>`; call `to_string()` to make it a
/// `String`.
pub fn u8_slice_to_string_lossy(input: &[u8]) -> (r: Cow<'_, str>)
    ensures
        r@ == utf8_lossy(input@),
        valid_utf8(input@) ==> r@ == decode_utf8(input@),
{
    let r = String::from_utf8_lossy(input);
    proof {
        if valid_utf8(input@) {
            encode_utf8_decode_utf8(r@);
        }
    }
    r
}

pub fn u8_slice_to_u8_vec(input: &[u8]) -> (r: Vec<u8>)
    ensures
        r@ == input@,
{
    slice_to_vec(input)
}

/// A `Utf8Error` is returned if the input is not valid UTF-8; it marks
/// how far the input is valid.
pub fn u8_array_to_str(input: &[u8]) -> (r: Result<&str, Utf8Error>)
    ensures
        r is Ok <==> valid_utf8(input@),
        r is Ok ==> r.unwrap()@ == decode_utf8(input@),
        r matches Err(e) ==> marks_valid_prefix(input@, utf8_valid_up_to(e)),
{
    u8_slice_to_str(input)
}

/// A `FromUtf8Error` is returned if the input is not valid UTF-8; it
/// holds the bytes of the input and marks how far they are valid.
pub fn u8_array_to_string(input: &[u8]) -> (r: Result<String, FromUtf8Error>)
    ensures
        r is Ok <==> valid_utf8(input@),
        r is Ok ==> r.unwrap()@ == decode_utf8(input@),
        r matches Err(e) ==> from_utf8_error_bytes(&e) == input@,
        r matches Err(e) ==> marks_valid_prefix(
            input@,
            utf8_valid_up_to(from_utf8_error_cause(&e)),
        ),
{
    u8_slice_to_string(input)
}

/// This never fails, but invalid UTF-8 sequences are replaced with
/// U+FFFD. It returns a `Cow<str>`; call `to_string()` to make it a
/// `String`.
pub fn u8_array_to_string_lossy(input: &[u8]) -> (r: Cow<'_, str>)
    ensures
        r@ == utf8_lossy(input@),
        valid_utf8(input@) ==> r@ == decode_utf8(input@),
{
    u8_slice_to_string_lossy(input)
}

} // verus!
