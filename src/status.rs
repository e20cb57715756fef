//! The status-code endpoint: it answers with the status code it was asked for.

use vstd::prelude::*;
use crate::reply::{Reply, ReplyBody, STATUS_OK};
use crate::text::{append_decimal, decimal};

verus! {

/// The status codes that the endpoint answers with as asked.
pub open spec fn is_listed_status(code: u16) -> bool {
    code == 200 || code == 201 || code == 204 || code == 400 || code == 401 || code == 403
        || code == 404 || code == 500 || code == 502 || code == 503
}

/// The text of the answer to a request for `code`.
pub open spec fn status_text(code: u16) -> Seq<char> {
    "Returned status code: "@ + decimal(code as nat)
}

/// Whether `code` is one of the status codes answered as asked.
pub fn is_listed(code: u16) -> (r: bool)
    ensures
        r == is_listed_status(code),
{
    match code {
        200 | 201 | 204 | 400 | 401 | 403 | 404 | 500 | 502 | 503 => true,
        _ => false,
    }
}

/// Answers a request for status `code`: with that status where it is one of
/// `200, 201, 204, 400, 401, 403, 404, 500, 502, 503`, and with `200`
/// otherwise. The text says which code was asked for, in either case.
pub fn status_code(code: u16) -> (r: Reply)
    ensures
        is_listed_status(code) ==> r.status == code,
        !is_listed_status(code) ==> r.status == 200,
        r.body matches ReplyBody::Text(t) && t@ == status_text(code),
{
    let status = if is_listed(code) {
        code
    } else {
        STATUS_OK
    };
    let mut text = String::from_str("Returned status code: ");
    append_decimal(&mut text, code as u64);
    Reply { status, body: ReplyBody::Text(text) }
}

} // verus!
