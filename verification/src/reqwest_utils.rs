//! Byte-level helpers for transport response bodies: rendering raw bytes
//! as printable ASCII and resolving the escape sequences written out in
//! them.

use vstd::prelude::*;

verus! {

/// The ASCII-escaped rendering of a byte sequence, as
/// `slice::escape_ascii` produces it: a function of the bytes alone.
pub uninterp spec fn ascii_escaped(b: Seq<u8>) -> Seq<char>;

/// Relies on `<[u8]>::escape_ascii` (and `ToString` on its iterator):
/// renders the bytes with every non-printable byte written as an escape
/// sequence.
#[verifier::external_body]
fn escape_ascii_string(bytes: &[u8]) -> (r: String)
    ensures
        r@ == ascii_escaped(bytes@),
{
    bytes.escape_ascii().to_string()
}

/// What `unescaper::unescape` yields on a string: the text with its
/// escape sequences resolved, or nothing where an escape is invalid. A
/// function of the characters alone.
pub uninterp spec fn unescaped(s: Seq<char>) -> Option<Seq<char>>;

/// The error type of the `unescaper` crate.
#[verifier::external_type_specification]
#[verifier::external_body]
pub struct ExUnescaperError(unescaper::Error);

/// Relies on `unescaper::unescape`: resolves escape sequences written
/// out as literal characters; fails exactly where [`unescaped`] is
/// empty.
#[verifier::external_body]
fn unescape_string(s: &str) -> (r: Result<String, unescaper::Error>)
    ensures
        r matches Ok(out) ==> unescaped(s@) == Some(out@),
        r is Err ==> unescaped(s@) is None,
{
    unescaper::unescape(s)
}

/// What these helpers can fail with.
#[derive(Debug)]
pub enum RequestUtilsError {
    /// The escaped body held an escape sequence `unescaper` refuses.
    UnescapeByteStringError { err: unescaper::Error },
}

/// Render a response body's bytes as text: escape them to printable
/// ASCII, then resolve the escape sequences the body itself spelled out.
pub fn reqwest_bytes_to_unescaped_string(bytes: &[u8]) -> (r: Result<String, RequestUtilsError>)
    ensures
        r matches Ok(s) ==> unescaped(ascii_escaped(bytes@)) == Some(s@),
        r is Err <==> unescaped(ascii_escaped(bytes@)) is None,
{
    let escaped = escape_ascii_string(bytes);
    match unescape_string(escaped.as_str()) {
        Ok(s) => Ok(s),
        Err(e) => Err(RequestUtilsError::UnescapeByteStringError { err: e }),
    }
}

} // verus!
