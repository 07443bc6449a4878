//! The status code of an HTTP reply.

use vstd::prelude::*;

verus! {

/// The reason phrase that `reqwest::StatusCode` prints for `code`: the
/// canonical reason of the code, or a placeholder where it has none.
pub uninterp spec fn reason_phrase(code: u16) -> Seq<char>;

/// The character of a decimal digit.
pub open spec fn digit_char(digit: u16) -> char {
    (0x30 + digit) as u8 as char
}

/// The three decimal digits of a status code and the space after them.
pub open spec fn status_digits(code: u16) -> Seq<char> {
    seq![digit_char(code / 100), digit_char(code / 10 % 10), digit_char(code % 10), ' ']
}

/// A three-digit status code written out: the decimal number, a space and
/// the reason phrase, as in "404 Not Found".
pub open spec fn status_text(code: u16) -> Seq<char> {
    status_digits(code) + reason_phrase(code)
}

/// Calls `reqwest::StatusCode::from_u16` and formats the status with its
/// `Display` impl, which writes the number, a space and the canonical
/// reason. Codes outside 100..=999 are no status codes and are left out.
#[verifier::external_body]
fn display_status(code: u16) -> (text: String)
    requires
        100 <= code <= 999,
    ensures
        text@ == status_digits(code) + reason_phrase(code),
{
    match reqwest::StatusCode::from_u16(code) {
        Ok(status) => status.to_string(),
        Err(invalid) => invalid.to_string(),
    }
}

/// The status code of a reply: a number from 100 to 999.
#[derive(Clone, Copy, Debug, PartialEq, Eq)]
pub struct ReplyStatus {
    code: u16,
}

impl ReplyStatus {
    #[verifier::type_invariant]
    spec fn in_range(self) -> bool {
        100 <= self.code <= 999
    }

    /// The number of the status.
    pub closed spec fn code(self) -> u16 {
        self.code
    }

    /// Whether the status reports success: a code from 200 to 299.
    pub open spec fn is_success(self) -> bool {
        200 <= self.code() <= 299
    }

    /// The status with the number `code`, if `code` is a status code.
    pub fn from_u16(code: u16) -> (status: Option<ReplyStatus>)
        ensures
            status is Some <==> 100 <= code <= 999,
            status matches Some(s) ==> s.code() == code,
    {
        if 100 <= code && code <= 999 {
            Some(ReplyStatus { code })
        } else {
            None
        }
    }

    /// The number of the status.
    pub fn as_u16(&self) -> (code: u16)
        ensures
            code == self.code(),
            100 <= code <= 999,
    {
        proof {
            use_type_invariant(self);
        }
        self.code
    }

    /// Whether the status reports success.
    pub fn succeeded(&self) -> (success: bool)
        ensures
            success == self.is_success(),
    {
        200 <= self.code && self.code <= 299
    }

    /// The status written out, as in "401 Unauthorized".
    pub fn describe(&self) -> (text: String)
        ensures
            text@ == status_text(self.code()),
    {
        proof {
            use_type_invariant(self);
        }
        display_status(self.code)
    }
}

} // verus!
