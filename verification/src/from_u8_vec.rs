use crate::utf8::{
    from_utf8_error_bytes, from_utf8_error_cause, marks_valid_prefix, utf8_valid_up_to,
};
use std::str::Utf8Error;
use std::string::FromUtf8Error;
use vstd::prelude::*;
use vstd::string::*;
use vstd::utf8::*;

verus! {

/// A `Utf8Error` is returned if the input is not valid UTF-8; it marks
/// how far the input is valid.
pub fn u8_vec_to_str(input: &Vec<u8>) -> (r: Result<&str, Utf8Error>)
    ensures
        r is Ok <==> valid_utf8(input@),
        r is Ok ==> r.unwrap()@ == decode_utf8(input@),
        r matches Err(e) ==> marks_valid_prefix(input@, utf8_valid_up_to(e)),
{
    let r = std::str::from_utf8(input.as_slice());
    proof {
        if r is Ok {
            encode_utf8_decode_utf8(r.unwrap()@);
        }
    }
    r
}

/// A `FromUtf8Error` is returned if the input is not valid UTF-8; it
/// holds the bytes of the input and marks how far they are valid.
pub fn u8_vec_to_string(input: Vec<u8>) -> (r: Result<String, FromUtf8Error>)
    ensures
        r is Ok <==> valid_utf8(input@),
        r is Ok ==> r.unwrap()@ == decode_utf8(input@),
        r matches Err(e) ==> from_utf8_error_bytes(&e) == input@,
        r matches Err(e) ==> marks_valid_prefix(
            input@,
            utf8_valid_up_to(from_utf8_error_cause(&e)),
        ),
{
    let r = String::from_utf8(input);
    proof {
        if r is Ok {
            encode_utf8_decode_utf8(r.unwrap()@);
        }
    }
    r
}

pub fn u8_vec_to_u8_slice(input: &Vec<u8>) -> (r: &[u8])
    ensures
        r@ == input@,
{
    input.as_slice()
}

} // verus!
