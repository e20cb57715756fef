//! The echo endpoints: they report the request they received.

use vstd::prelude::*;
use crate::models::{IncomingRequest, PostData, RequestDetails};
use crate::reply::{Reply, ReplyBody, STATUS_BAD_REQUEST, STATUS_OK};

verus! {

/// The text shown for a header value: the value itself, or `invalid` where
/// it cannot be shown as text.
pub open spec fn header_text(value: Option<String>) -> Seq<char> {
    match value {
        Some(v) => v@,
        None => "invalid"@,
    }
}

/// `details` reports `req`: the same method, path and query string, and one
/// entry per header, in order, with the header's name and shown value.
pub open spec fn reports(details: RequestDetails, req: IncomingRequest) -> bool {
    &&& details.method@ == req.method@
    &&& details.path@ == req.path@
    &&& details.query_string matches Some(q) && q@ == req.query_string@
    &&& details.headers@.len() == req.headers@.len()
    &&& forall|i: int|
        0 <= i < req.headers@.len() ==> {
            &&& (#[trigger] details.headers@[i]).0@ == req.headers@[i].0@
            &&& details.headers@[i].1@ == header_text(req.headers@[i].1)
        }
}

/// `reply` is a `200` response that reports `req` with the given body.
pub open spec fn echoes(reply: Reply, req: IncomingRequest, body: Option<Seq<char>>) -> bool {
    &&& reply.status == 200
    &&& reply.body matches ReplyBody::Details(d) && {
        &&& reports(d, req)
        &&& match body {
            Some(m) => d.body matches Some(b) && b@ == m,
            None => d.body is None,
        }
    }
}

/// `reply` answers a request whose body is `body`, parsed as a message: it
/// echoes the request with the message, or is a `400` with the parse error.
pub open spec fn echoes_message(
    reply: Reply,
    req: IncomingRequest,
    body: Result<PostData, String>,
) -> bool {
    match body {
        Ok(data) => echoes(reply, req, Some(data.message@)),
        Err(e) => {
            &&& reply.status == 400
            &&& reply.body matches ReplyBody::Text(t) && t@ == e@
        },
    }
}

fn header_value_text(value: &Option<String>) -> (r: String)
    ensures
        r@ == header_text(*value),
{
    match value {
        Some(v) => v.clone(),
        None => String::from_str("invalid"),
    }
}

/// Copies the method, path, headers and query string of `req` into a
/// report, with `body` as the reported body.
pub fn create_request_details(req: &IncomingRequest, body: Option<String>) -> (r: RequestDetails)
    ensures
        reports(r, *req),
        r.body == body,
{
    let mut headers: Vec<(String, String)> = Vec::new();
    let n = req.headers.len();
    for i in 0..n
        invariant
            n == req.headers@.len(),
            headers@.len() == i,
            forall|j: int|
                0 <= j < i ==> {
                    &&& (#[trigger] headers@[j]).0@ == req.headers@[j].0@
                    &&& headers@[j].1@ == header_text(req.headers@[j].1)
                },
    {
        let (name, value) = &req.headers[i];
        headers.push((name.clone(), header_value_text(value)));
    }
    RequestDetails {
        method: req.method.clone(),
        path: req.path.clone(),
        headers,
        query_string: Some(req.query_string.clone()),
        body,
    }
}

/// `GET` on the echo path: the request is reported without a body.
pub fn echo_get(req: &IncomingRequest) -> (r: Reply)
    ensures
        echoes(r, *req, None),
{
    Reply { status: STATUS_OK, body: ReplyBody::Details(create_request_details(req, None)) }
}

/// `DELETE` on the echo path: the request is reported without a body.
pub fn echo_delete(req: &IncomingRequest) -> (r: Reply)
    ensures
        echoes(r, *req, None),
{
    Reply { status: STATUS_OK, body: ReplyBody::Details(create_request_details(req, None)) }
}

fn echo_message(req: &IncomingRequest, body: Result<PostData, String>) -> (r: Reply)
    ensures
        echoes_message(r, *req, body),
{
    match body {
        Ok(data) => Reply {
            status: STATUS_OK,
            body: ReplyBody::Details(create_request_details(req, Some(data.message))),
        },
        Err(e) => Reply { status: STATUS_BAD_REQUEST, body: ReplyBody::Text(e) },
    }
}

/// `POST` on the echo path. `body` is the request body parsed as a message,
/// or the reason it could not be parsed: the request is reported with the
/// message, or answered `400` with that reason.
pub fn echo_post(req: &IncomingRequest, body: Result<PostData, String>) -> (r: Reply)
    ensures
        echoes_message(r, *req, body),
{
    echo_message(req, body)
}

/// `PUT` on the echo path; it answers as `POST` does.
pub fn echo_put(req: &IncomingRequest, body: Result<PostData, String>) -> (r: Reply)
    ensures
        echoes_message(r, *req, body),
{
    echo_message(req, body)
}

} // verus!
