//! HTTP status codes, as far as the gallery reads them.
//!
//! What a code means and how it is shown is taken from `reqwest`, whose
//! `StatusCode` the two private functions at the end of this file call.
//! Their contracts are believed, not proved.

use vstd::prelude::*;

verus! {

/// The text that `reqwest::StatusCode` shows for a code between 100 and
/// 999: the number, a space, and the standard reason phrase, or a fixed
/// placeholder where the code has none.
pub uninterp spec fn status_display(code: u16) -> Seq<char>;

/// A status code that an HTTP reply can carry: 100 to 999.
#[derive(Clone, Copy, Debug, PartialEq, Eq)]
pub struct HttpStatus {
    code: u16,
}

impl HttpStatus {
    #[verifier::type_invariant]
    spec fn in_range(self) -> bool {
        100 <= self.code <= 999
    }

    /// The number of the code.
    pub closed spec fn value(self) -> u16 {
        self.code
    }

    /// The status with this number, where the number is one that a reply
    /// can carry.
    pub fn from_u16(code: u16) -> (r: Option<HttpStatus>)
        ensures
            r.is_some() == (100 <= code <= 999),
            r matches Some(s) ==> s.value() == code,
    {
        if 100 <= code && code <= 999 {
            Some(HttpStatus { code })
        } else {
            None
        }
    }

    /// The number of the code.
    pub fn as_u16(&self) -> (c: u16)
        ensures
            c == self.value(),
            100 <= c <= 999,
    {
        proof {
            use_type_invariant(self);
        }
        self.code
    }

    /// Whether the code reports success: 200 to 299.
    pub fn is_success(&self) -> (b: bool)
        ensures
            b == (200 <= self.value() < 300),
    {
        proof {
            use_type_invariant(self);
        }
        code_is_success(self.code)
    }

    /// The code as a reader sees it, number and reason phrase.
    pub fn text(&self) -> (t: String)
        ensures
            t@ == status_display(self.value()),
    {
        proof {
            use_type_invariant(self);
        }
        code_display(self.code)
    }
}

/// Calls `reqwest::StatusCode::is_success`, which holds for the codes from
/// 200 to 299 and for no other. The code is turned into a `StatusCode` by
/// `from_u16`, which accepts exactly 100 to 999.
#[verifier::external_body]
fn code_is_success(code: u16) -> (b: bool)
    requires
        100 <= code <= 999,
    ensures
        b == (200 <= code < 300),
{
    reqwest::StatusCode::from_u16(code).unwrap().is_success()
}

/// Formats a `reqwest::StatusCode` with its `Display` impl. The text
/// depends on the code alone; the contract gives it the name
/// [`status_display`] and says nothing more of it.
#[verifier::external_body]
fn code_display(code: u16) -> (text: String)
    requires
        100 <= code <= 999,
    ensures
        text@ == status_display(code),
{
    reqwest::StatusCode::from_u16(code).unwrap().to_string()
}

} // verus!
