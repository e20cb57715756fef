//! The response that a handler hands back to the server.

use vstd::prelude::*;
use crate::models::{DnsLookupResult, RequestDetails};

verus! {

/// The content of a response: a value sent as JSON, plain text, or an HTML
/// document.
#[derive(Clone, Debug, PartialEq, Eq)]
pub enum ReplyBody {
    Details(RequestDetails),
    Lookup(DnsLookupResult),
    Text(String),
    Html(String),
}

/// A response: its HTTP status code and its content.
#[derive(Clone, Debug, PartialEq, Eq)]
pub struct Reply {
    pub status: u16,
    pub body: ReplyBody,
}

/// `OK`.
pub const STATUS_OK: u16 = 200;

/// `Bad Request`.
pub const STATUS_BAD_REQUEST: u16 = 400;

/// `Internal Server Error`.
pub const STATUS_INTERNAL_SERVER_ERROR: u16 = 500;

} // verus!
