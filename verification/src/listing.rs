//! The device listing: from the bytes of the listing command's output to the
//! lines that describe devices.

use crate::lines::{lines_of, split_lines};
use std::string::FromUtf8Error;
use vstd::prelude::*;
use vstd::utf8::{decode_utf8, encode_utf8, encode_utf8_decode_utf8, valid_utf8};

verus! {

/// The error of `String::from_utf8`, carried through as an opaque value.
#[verifier::external_type_specification]
#[verifier::external_body]
pub struct ExFromUtf8Error(FromUtf8Error);

/// `String::from_utf8` succeeds exactly on bytes that are valid UTF-8, and
/// the string it then returns is made of the bytes it was given.
pub assume_specification[ String::from_utf8 ](vec: Vec<u8>) -> (r: Result<String, FromUtf8Error>)
    ensures
        r is Ok <==> valid_utf8(vec@),
        r matches Ok(s) ==> encode_utf8(s@) == vec@,
;

/// The output of the listing command is not valid UTF-8.
#[derive(Clone, Copy, Debug, PartialEq, Eq, Structural)]
pub struct DecodeError {}

/// Decodes the bytes that the listing command wrote as text.
pub fn decode_listing(stdout: Vec<u8>) -> (r: Result<String, DecodeError>)
    ensures
        r is Ok <==> valid_utf8(stdout@),
        r matches Ok(text) ==> text@ == decode_utf8(stdout@),
{
    match String::from_utf8(stdout) {
        Ok(text) => {
            proof {
                encode_utf8_decode_utf8(text@);
            }
            Ok(text)
        },
        Err(_) => Err(DecodeError {  }),
    }
}

/// The lines of a listing that describe devices: all but the first, which is
/// the listing's summary. A listing without any line has none.
pub open spec fn device_lines(s: Seq<char>) -> Seq<Seq<char>> {
    let lines = lines_of(s);
    if lines.len() == 0 {
        lines
    } else {
        lines.drop_first()
    }
}

/// The device lines of a listing: its lines without the first. An empty
/// listing gives no lines.
pub fn data_to_vec(data: String) -> (r: Vec<String>)
    ensures
        r.deep_view() == device_lines(data@),
        lines_of(data@).len() > 0 ==> r.len() == lines_of(data@).len() - 1,
{
    let mut lines = split_lines(data.as_str());
    if lines.len() > 0 {
        let ghost before = lines.deep_view();
        lines.remove(0);
        assert(lines.deep_view() == before.drop_first());
    }
    lines
}

} // verus!
