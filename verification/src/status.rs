//! HTTP status codes.

use vstd::prelude::*;

verus! {

/// What `reqwest::StatusCode` writes through `Display` for the status with
/// number `code`: the number, a space, and the reason phrase registered for
/// it or, where none is registered, words that say so.
pub uninterp spec fn status_display(code: u16) -> Seq<char>;

/// Whether `code` is a number that a status can have.
pub open spec fn valid_code(code: u16) -> bool {
    100 <= code <= 999
}

/// Whether a status with number `code` reports success.
pub open spec fn success_code(code: u16) -> bool {
    200 <= code <= 299
}

/// Calls `reqwest::StatusCode::from_u16` and, on the status it gives, `to_string`.
/// `from_u16` accepts the numbers from 100 to 999 and no others; the text
/// is what the type's `Display` writes, which this crate only names.
#[verifier::external_body]
fn display_status(code: u16) -> (r: Option<String>)
    ensures
        r is Some <==> valid_code(code),
        r matches Some(text) ==> text@ == status_display(code),
{
    match reqwest::StatusCode::from_u16(code) {
        Ok(status) => Some(status.to_string()),
        Err(_) => None,
    }
}

/// The status of an HTTP response: a number from 100 to 999.
#[derive(Debug, Clone, Copy, PartialEq, Eq)]
pub struct HttpStatus {
    code: u16,
}

impl HttpStatus {
    #[verifier::type_invariant]
    spec fn in_range(self) -> bool {
        valid_code(self.code)
    }

    /// The number of the status.
    pub closed spec fn code(self) -> u16 {
        self.code
    }

    /// The status with number `code`, where there is one.
    pub fn from_u16(code: u16) -> (r: Option<HttpStatus>)
        ensures
            r is Some <==> valid_code(code),
            r matches Some(status) ==> status.code() == code,
    {
        if 100 <= code && code <= 999 {
            Some(HttpStatus { code })
        } else {
            None
        }
    }

    /// The number of the status.
    pub fn as_u16(&self) -> (code: u16)
        ensures
            code == self.code(),
            valid_code(code),
    {
        proof {
            use_type_invariant(self);
        }
        self.code
    }

    /// Whether the status reports success.
    pub fn is_success(&self) -> (r: bool)
        ensures
            r == success_code(self.code()),
    {
        200 <= self.code && self.code <= 299
    }

    /// The status as it is written out: its number and reason phrase.
    pub fn describe(&self) -> (text: String)
        ensures
            text@ == status_display(self.code()),
    {
        proof {
            use_type_invariant(self);
        }
        match display_status(self.code) {
            Some(text) => text,
            None => String::new(),
        }
    }
}

/// The words that stand in for a body that could not be read.
pub open spec fn unread_body() -> Seq<char> {
    "Failed to read error body"@
}

/// What is said of a response that did not report success: the words of
/// `lead`, the status as it is written out, a colon, and the body of the
/// response, or the words that stand in for it.
pub open spec fn refusal(lead: Seq<char>, described: Seq<char>, body: Option<Seq<char>>) -> Seq<
    char,
> {
    lead + described + ": "@ + match body {
        Some(text) => text,
        None => unread_body(),
    }
}

/// The value of a body that may not have been read.
pub open spec fn body_read(body: Option<String>) -> Option<Seq<char>> {
    match body {
        Some(text) => Some(text@),
        None => None,
    }
}

/// What is said of a response that did not report success, from its status
/// as it is written out and its body.
pub fn refusal_text(lead: &str, described: &str, body: &Option<String>) -> (text: String)
    ensures
        text@ == refusal(lead@, described@, body_read(*body)),
{
    let mut text = lead.to_owned();
    text.append(described);
    text.append(": ");
    match body {
        Some(b) => text.append(b.as_str()),
        None => text.append("Failed to read error body"),
    }
    text
}

} // verus!
