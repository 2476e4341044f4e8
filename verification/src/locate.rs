//! Reading the answer of the system's search for the binary.

use vstd::prelude::*;
use vstd::utf8::*;
use crate::error::BootstrapError;

verus! {

/// The error of `String::from_utf8`, `std::string::FromUtf8Error`. Nothing
/// is read from it.
#[verifier::external_type_specification]
#[verifier::external_body]
pub struct ExFromUtf8Error(std::string::FromUtf8Error);

/// `String::from_utf8` accepts exactly the byte sequences that are valid
/// UTF-8, and the string it returns holds the characters they encode.
pub assume_specification[ String::from_utf8 ](bytes: Vec<u8>) -> (r: Result<
    String,
    std::string::FromUtf8Error,
>)
    ensures
        r.is_ok() == valid_utf8(bytes@),
        r matches Ok(text) ==> text@ == decode_utf8(bytes@),
;

/// Whether a character is white space: the characters with the Unicode
/// property `White_Space`.
pub open spec fn is_white_space(c: char) -> bool {
    let n = c as u32;
    ||| 0x09 <= n <= 0x0d
    ||| n == 0x20
    ||| n == 0x85
    ||| n == 0xa0
    ||| n == 0x1680
    ||| 0x2000 <= n <= 0x200a
    ||| n == 0x2028
    ||| n == 0x2029
    ||| n == 0x202f
    ||| n == 0x205f
    ||| n == 0x3000
}

/// A text without the white space at its start.
pub open spec fn trimmed_start(text: Seq<char>) -> Seq<char>
    decreases text.len(),
{
    if text.len() > 0 && is_white_space(text[0]) {
        trimmed_start(text.skip(1))
    } else {
        text
    }
}

/// A text without the white space at its end.
pub open spec fn trimmed_end(text: Seq<char>) -> Seq<char>
    decreases text.len(),
{
    if text.len() > 0 && is_white_space(text.last()) {
        trimmed_end(text.drop_last())
    } else {
        text
    }
}

/// A text without the white space at its start and at its end.
pub open spec fn trimmed(text: Seq<char>) -> Seq<char> {
    trimmed_end(trimmed_start(text))
}

/// `str::trim` returns the text with its leading and trailing white space
/// removed, where white space is what the Unicode property `White_Space`
/// says it is.
pub assume_specification[ str::trim ](text: &str) -> (r: &str)
    ensures
        r@ == trimmed(text@),
;

/// What the search reported, read from its exit code and its output:
/// nothing, unless it ended with code 0; then the path it printed, with the
/// white space around it removed. Output that is not UTF-8 is an error.
pub open spec fn which_spec(code: Option<i32>, output: Seq<u8>) -> Result<
    Option<Seq<char>>,
    BootstrapError,
> {
    if code != Some(0i32) {
        Ok(None)
    } else if !valid_utf8(output) {
        Err(BootstrapError::SearchOutput)
    } else {
        Ok(Some(trimmed(decode_utf8(output))))
    }
}

/// Reads the outcome of `which`: `code` is its exit code (`None` where it
/// was ended by a signal) and `output` what it wrote to its standard output.
pub fn which(code: Option<i32>, output: Vec<u8>) -> (r: Result<Option<String>, BootstrapError>)
    ensures
        match which_spec(code, output@) {
            Ok(Some(path)) => r matches Ok(Some(p)) && p@ == path,
            Ok(None) => r matches Ok(None),
            Err(e) => r matches Err(f) && f == e,
        },
{
    match code {
        Some(0) => {},
        _ => {
            return Ok(None);
        },
    }
    match String::from_utf8(output) {
        Err(_) => Err(BootstrapError::SearchOutput),
        Ok(text) => Ok(Some(text.as_str().trim().to_owned())),
    }
}

} // verus!
