//! Turning a command's captured output into text.
use vstd::prelude::*;
use vstd::utf8::{decode_utf8, valid_utf8};

verus! {

/// Why a command's output could not be used.
#[derive(Debug, Clone, Copy, PartialEq, Eq, Structural)]
pub enum CmdError {
    /// The output is not valid UTF-8.
    InvalidUtf8,
}

/// The text that `str::trim` leaves of `s`.
pub uninterp spec fn trimmed(s: Seq<char>) -> Seq<char>;

/// Relies on `std::str::from_utf8`: it accepts exactly the valid UTF-8 byte
/// sequences, and the text then holds the characters those bytes encode.
#[verifier::external_body]
fn utf8_text(bytes: &Vec<u8>) -> (r: Option<String>)
    ensures
        r is Some <==> valid_utf8(bytes@),
        r matches Some(s) ==> s@ == decode_utf8(bytes@),
{
    std::str::from_utf8(bytes.as_slice()).ok().map(|s| s.to_string())
}

/// Relies on `str::trim`: leading and trailing whitespace removed.
#[verifier::external_body]
fn trim_text(s: &str) -> (r: String)
    ensures
        r@ == trimmed(s@),
{
    s.trim().to_string()
}

/// A command's captured standard output as text, without the whitespace around
/// it; an error when the output is not UTF-8.
pub fn get_cmd_out(stdout: &Vec<u8>) -> (r: Result<String, CmdError>)
    ensures
        r is Ok <==> valid_utf8(stdout@),
        r matches Ok(s) ==> s@ == trimmed(decode_utf8(stdout@)),
        r matches Err(e) ==> e == CmdError::InvalidUtf8,
{
    match utf8_text(stdout) {
        Some(text) => Ok(trim_text(text.as_str())),
        None => Err(CmdError::InvalidUtf8),
    }
}

} // verus!
