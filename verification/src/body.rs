//! The plain-text response bodies: `"<code> <REASON PHRASE IN UPPERCASE>"`
//! for each status the service can return, and the proof that every body is
//! three decimal digits naming its own status, a space, and an uppercased
//! reason phrase.

use vstd::prelude::*;

use crate::status::{ErrorType, lemma_any_table_members};

verus! {

/// The body sent with each status the service can return; statuses outside
/// its tables have no body.
pub open spec fn body_view(code: u16) -> Seq<char> {
    if code == 200 {
        "200 OK"@
    } else if code == 400 {
        "400 BAD REQUEST"@
    } else if code == 401 {
        "401 UNAUTHORIZED"@
    } else if code == 403 {
        "403 FORBIDDEN"@
    } else if code == 404 {
        "404 NOT FOUND"@
    } else if code == 418 {
        "418 I'M A TEAPOT"@
    } else if code == 429 {
        "429 TOO MANY REQUESTS"@
    } else if code == 500 {
        "500 INTERNAL SERVER ERROR"@
    } else if code == 502 {
        "502 BAD GATEWAY"@
    } else if code == 503 {
        "503 SERVICE UNAVAILABLE"@
    } else if code == 504 {
        "504 GATEWAY TIMEOUT"@
    } else {
        Seq::empty()
    }
}

/// The response body for a status the service can return.
pub fn response_body(code: u16) -> (body: &'static str)
    requires
        code == 200 || ErrorType::Any.code_table().contains(code),
    ensures
        body@ == body_view(code),
{
    proof {
        lemma_any_table_members(code);
    }
    if code == 200 {
        "200 OK"
    } else if code == 400 {
        "400 BAD REQUEST"
    } else if code == 401 {
        "401 UNAUTHORIZED"
    } else if code == 403 {
        "403 FORBIDDEN"
    } else if code == 404 {
        "404 NOT FOUND"
    } else if code == 418 {
        "418 I'M A TEAPOT"
    } else if code == 429 {
        "429 TOO MANY REQUESTS"
    } else if code == 500 {
        "500 INTERNAL SERVER ERROR"
    } else if code == 502 {
        "502 BAD GATEWAY"
    } else if code == 503 {
        "503 SERVICE UNAVAILABLE"
    } else {
        "504 GATEWAY TIMEOUT"
    }
}

/// A decimal digit.
pub open spec fn is_digit_char(c: char) -> bool {
    '0' <= c && c <= '9'
}

/// The value of a decimal digit.
pub open spec fn digit_val(c: char) -> int {
    c as int - '0' as int
}

/// A character an uppercased reason phrase may hold: an uppercase letter, a
/// digit, an apostrophe or a space.
pub open spec fn is_reason_char(c: char) -> bool {
    ('A' <= c && c <= 'Z') || is_digit_char(c) || c == '\'' || c == ' '
}

/// A well-formed body: three decimal digits whose value is the status code,
/// a space, and a non-empty reason phrase of uppercase letters, digits,
/// apostrophes and spaces.
pub open spec fn body_wf(body: Seq<char>, code: u16) -> bool {
    &&& body.len() >= 5
    &&& is_digit_char(body[0])
    &&& is_digit_char(body[1])
    &&& is_digit_char(body[2])
    &&& digit_val(body[0]) * 100 + digit_val(body[1]) * 10 + digit_val(body[2]) == code
    &&& body[3] == ' '
    &&& forall|i: int| 4 <= i < body.len() ==> is_reason_char(#[trigger] body[i])
}

/// Every body the service can send is well formed, and its leading number is
/// the status it is sent with.
pub proof fn lemma_body_format(code: u16)
    requires
        code == 200 || ErrorType::Any.code_table().contains(code),
    ensures
        body_wf(body_view(code), code),
{
    lemma_any_table_members(code);
    reveal_strlit("200 OK");
    reveal_strlit("400 BAD REQUEST");
    reveal_strlit("401 UNAUTHORIZED");
    reveal_strlit("403 FORBIDDEN");
    reveal_strlit("404 NOT FOUND");
    reveal_strlit("418 I'M A TEAPOT");
    reveal_strlit("429 TOO MANY REQUESTS");
    reveal_strlit("500 INTERNAL SERVER ERROR");
    reveal_strlit("502 BAD GATEWAY");
    reveal_strlit("503 SERVICE UNAVAILABLE");
    reveal_strlit("504 GATEWAY TIMEOUT");
}

} // verus!
