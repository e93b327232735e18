//! Conversion from byte buffers to text.

use vstd::prelude::*;
use vstd::string::StringExecFns;
use vstd::utf8::{decode_utf8, valid_utf8};

use crate::error::Error;

verus! {

/// What the standard library's UTF-8 error renders as in a diagnostic:
/// a function of the offending bytes alone.
pub uninterp spec fn utf8_error_rendering(bytes: Seq<u8>) -> Seq<char>;

/// Relies on `String::from_utf8`: it succeeds exactly on valid UTF-8,
/// decoding the bytes; the error it returns renders from the bytes alone.
#[verifier::external_body]
fn from_utf8_exec(v: Vec<u8>) -> (r: Result<String, String>)
    ensures
        r matches Ok(s) ==> valid_utf8(v@) && s@ == decode_utf8(v@),
        r matches Err(t) ==> !valid_utf8(v@) && t@ == utf8_error_rendering(v@),
{
    match String::from_utf8(v) {
        Ok(s) => Ok(s),
        Err(e) => Err(format!("{:?}", e)),
    }
}

/// Converts a byte buffer into text. Fails exactly when the bytes are
/// not valid UTF-8, reporting the offending byte sequence.
pub fn string_from_utf8(from: Vec<u8>) -> (r: Result<String, Error>)
    ensures
        r matches Ok(s) ==> valid_utf8(from@) && s@ == decode_utf8(from@),
        r matches Err(e) ==> !valid_utf8(from@) && e@.message == "not a utf-8 string: "@
            + utf8_error_rendering(from@) && e@.backtrace is None,
{
    match from_utf8_exec(from) {
        Ok(s) => Ok(s),
        Err(t) => {
            let mut m = String::from_str("not a utf-8 string: ");
            m.append(t.as_str());
            Err(Error::new(m))
        },
    }
}

} // verus!
