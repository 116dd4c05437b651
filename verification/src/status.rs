//! HTTP status codes and the way a log shows them.

use vstd::prelude::*;

use crate::text::decimal;
use crate::text::is_single_line;
use crate::text::push_decimal;

verus! {

/// Whether `code` is a status code: a number of three digits.
pub open spec fn is_status_code(code: u16) -> bool {
    100 <= code <= 999
}

/// The status code of a response. It always has three digits.
#[derive(Clone, Copy, Debug, PartialEq, Eq)]
pub struct Status {
    code: u16,
}

impl View for Status {
    type V = u16;

    closed spec fn view(&self) -> u16 {
        self.code
    }
}

/// The standard reason phrase of the status code `code`, such as `OK` for
/// 200, where the code has one.
pub uninterp spec fn reason_phrase(code: u16) -> Option<Seq<char>>;

/// The text that is shown where a status code has no standard reason phrase.
pub open spec fn unknown_reason() -> Seq<char> {
    "<unknown status code>"@
}

/// A status as a log shows it: the code, a blank, and the reason phrase, or
/// the text for an unknown one.
pub open spec fn status_text(code: u16, reason: Option<Seq<char>>) -> Seq<char> {
    decimal(code as nat) + " "@ + match reason {
        Some(r) => r,
        None => unknown_reason(),
    }
}

/// The characters of an optional text.
pub open spec fn opt_chars(s: Option<&str>) -> Option<Seq<char>> {
    match s {
        Some(t) => Some(t@),
        None => None,
    }
}

/// Asks `http::StatusCode::canonical_reason` (reached as `warp::http`) for the
/// reason phrase of `code`, after `StatusCode::from_u16` has made a status
/// code of the number. The contract says that the answer depends on the
/// number alone, and that a phrase holds no line feed; which phrase belongs
/// to which code is left to that crate's table.
#[verifier::external_body]
fn canonical_reason(code: u16) -> (reason: Option<String>)
    requires
        is_status_code(code),
    ensures
        match reason {
            Some(r) => reason_phrase(code) == Some(r@) && is_single_line(r@),
            None => reason_phrase(code) is None,
        },
{
    let status = warp::http::StatusCode::from_u16(code).ok()?;
    let reason = status.canonical_reason()?;
    Some(reason.to_string())
}

/// The text of a status whose reason phrase is `reason`.
pub fn format_status(code: u16, reason: Option<&str>) -> (text: String)
    ensures
        text@ == status_text(code, opt_chars(reason)),
{
    let mut text = String::new();
    push_decimal(&mut text, code as u64);
    text.append(" ");
    match reason {
        Some(r) => text.append(r),
        None => text.append("<unknown status code>"),
    }
    assert(text@ =~= status_text(code, opt_chars(reason)));
    text
}

impl Status {
    #[verifier::type_invariant]
    spec fn has_three_digits(self) -> bool {
        is_status_code(self.code)
    }

    /// The status with the code `code`, or `None` where `code` does not have
    /// three digits.
    pub fn new(code: u16) -> (status: Option<Status>)
        ensures
            status is Some <==> is_status_code(code),
            status matches Some(s) ==> s@ == code,
    {
        if 100 <= code && code <= 999 {
            Some(Status { code })
        } else {
            None
        }
    }

    /// The code as a number.
    pub fn code(&self) -> (code: u16)
        ensures
            code == self@,
            is_status_code(code),
    {
        proof {
            use_type_invariant(self);
        }
        self.code
    }

    /// The status as a log shows it, such as `200 OK`.
    pub fn text(&self) -> (text: String)
        ensures
            text@ == status_text(self@, reason_phrase(self@)),
            is_single_line(text@),
    {
        proof {
            use_type_invariant(self);
        }
        let reason = canonical_reason(self.code);
        let text = match &reason {
            Some(r) => format_status(self.code, Some(r.as_str())),
            None => format_status(self.code, None),
        };
        proof {
            lemma_status_text_is_single_line(self.code, reason_phrase(self.code));
        }
        text
    }
}

/// A status text stays on one line where its reason phrase does.
pub proof fn lemma_status_text_is_single_line(code: u16, reason: Option<Seq<char>>)
    requires
        reason matches Some(r) ==> is_single_line(r),
    ensures
        is_single_line(status_text(code, reason)),
{
    reveal_strlit(" ");
    reveal_strlit("<unknown status code>");
    crate::text::lemma_decimal_is_single_line(code as nat);
}

} // verus!
