//! HTTP facts that a transfer to or from the object store decides on: whether
//! a status is a success, how a status is rendered in an error, and which
//! method a presigned request is sent with.

use vstd::prelude::*;

verus! {

/// `StatusCode::is_success`: a status from 200 up to 299.
pub open spec fn is_success_status(code: u16) -> bool {
    200 <= code < 300
}

/// Whether the status of an answer is a success (200 to 299).
pub fn status_is_success(code: u16) -> (ok: bool)
    ensures
        ok == is_success_status(code),
{
    200 <= code && code < 300
}

/// The rendering of an HTTP status as `reqwest::StatusCode` displays it: the
/// three-digit code, a space and the canonical reason phrase.
pub uninterp spec fn http_status_text(code: u16) -> Seq<char>;

/// Calls `reqwest::StatusCode::from_u16` and renders the status with
/// `to_string`; the text is the name applied to the code. Codes from 100 to 999
/// are the ones a status can have.
#[verifier::external_body]
pub(crate) fn status_text(code: u16) -> (text: String)
    requires
        100 <= code <= 999,
    ensures
        text@ == http_status_text(code),
{
    match reqwest::StatusCode::from_u16(code) {
        Ok(status) => status.to_string(),
        Err(_) => String::new(),
    }
}

/// A token character of an HTTP method (RFC 9110): a letter, a digit or one of
/// ``! # $ % & ' * + - . ^ _ ` | ~``.
pub open spec fn is_method_char(c: char) -> bool {
    ||| ('0' <= c && c <= '9')
    ||| ('A' <= c && c <= 'Z')
    ||| ('a' <= c && c <= 'z')
    ||| c == '!' || c == '#' || c == '$' || c == '%' || c == '&' || c == '\''
    ||| c == '*' || c == '+' || c == '-' || c == '.' || c == '^' || c == '_'
    ||| c == '`' || c == '|' || c == '~'
}

/// Whether `text` is an HTTP method: one or more token characters.
pub open spec fn is_method_token(text: Seq<char>) -> bool {
    text.len() > 0 && forall|i: int| 0 <= i < text.len() ==> is_method_char(#[trigger] text[i])
}

/// Calls `reqwest::Method::from_bytes` on the UTF-8 bytes of `text` and reads
/// the method back with `as_str`. Token characters are ASCII, so the bytes are
/// a non-empty run of token bytes exactly when the characters are token
/// characters; the method's text is then `text` itself.
#[verifier::external_body]
fn http_method(text: &str) -> (method: Option<String>)
    ensures
        method is Some <==> is_method_token(text@),
        method matches Some(m) ==> m@ == text@,
{
    match reqwest::Method::from_bytes(text.as_bytes()) {
        Ok(m) => Some(m.as_str().to_string()),
        Err(_) => None,
    }
}

/// The method a presigned request is sent with.
pub const DEFAULT_PUT_METHOD: &'static str = "PUT";

/// The presigned method when it is a valid HTTP method, `PUT` otherwise.
pub open spec fn send_method_spec(presigned: Seq<char>) -> Seq<char> {
    if is_method_token(presigned) {
        presigned
    } else {
        DEFAULT_PUT_METHOD@
    }
}

/// The method that the bytes of a presigned part are sent with.
pub fn send_method(presigned: &str) -> (method: String)
    ensures
        method@ == send_method_spec(presigned@),
{
    match http_method(presigned) {
        Some(m) => m,
        None => String::from_str(DEFAULT_PUT_METHOD),
    }
}

} // verus!
