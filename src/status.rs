//! HTTP status codes: success class and the status line as reqwest displays it.
use vstd::prelude::*;
use crate::text::{decimal, decimal_string};

verus! {

/// The reason phrase that the HTTP registry gives `code`, if it gives one.
pub uninterp spec fn reason_phrase_of(code: u16) -> Option<Seq<char>>;

/// Relies on `reqwest::StatusCode::from_u16` and `StatusCode::canonical_reason`:
/// the registered reason phrase, looked up by the code alone (`None` for a
/// code outside 100..=999 or one without a registered phrase).
#[verifier::external_body]
pub(crate) fn reason_phrase(code: u16) -> (r: Option<String>)
    ensures
        opt_view(r) == reason_phrase_of(code),
{
    reqwest::StatusCode::from_u16(code).ok().and_then(|s| s.canonical_reason()).map(
        |p| p.to_string(),
    )
}

/// The view of an optional string.
pub open spec fn opt_view(s: Option<String>) -> Option<Seq<char>> {
    match s {
        Some(t) => Some(t@),
        None => None,
    }
}

/// Whether `code` is in the success class 200..=299.
pub open spec fn success_code(code: u16) -> bool {
    200 <= code < 300
}

/// Decides `success_code`, as `StatusCode::is_success` does.
pub fn is_success(code: u16) -> (r: bool)
    ensures
        r == success_code(code),
{
    200 <= code && code < 300
}

/// Shown in place of a reason phrase for an unregistered code.
pub open spec fn unknown_reason() -> Seq<char> {
    seq!['<', 'u', 'n', 'k', 'n', 'o', 'w', 'n', ' ', 's', 't', 'a', 't', 'u', 's', ' ', 'c', 'o', 'd', 'e', '>']
}

/// The status line, as reqwest's `StatusCode` displays it: the code in
/// decimal, a space, then the reason phrase.
pub open spec fn status_line(code: u16, reason: Option<Seq<char>>) -> Seq<char> {
    let phrase = match reason {
        Some(p) => p,
        None => unknown_reason(),
    };
    decimal(code as nat) + seq![' '] + phrase
}

/// The status line of `code` with the given reason phrase.
pub fn status_line_with(code: u16, reason: Option<String>) -> (r: String)
    ensures
        r@ == status_line(code, opt_view(reason)),
{
    let mut r = decimal_string(code);
    let space = " ";
    proof {
        reveal_strlit(" ");
    }
    r.append(space);
    match reason {
        Some(p) => r.append(p.as_str()),
        None => {
            let unknown = "<unknown status code>";
            proof {
                reveal_strlit("<unknown status code>");
                assert(unknown@ =~= unknown_reason());
            }
            r.append(unknown);
        },
    }
    r
}

} // verus!
