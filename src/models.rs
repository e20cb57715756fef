//! The values that the handlers read and produce.

use vstd::prelude::*;

verus! {

/// The query of a domain-name lookup: the name to resolve.
#[derive(Clone, Debug, PartialEq, Eq)]
pub struct DnsQuery {
    pub domain: String,
}

/// The addresses of a domain, each written as text.
#[derive(Clone, Debug, PartialEq, Eq)]
pub struct DnsResult {
    pub ips: Vec<String>,
}

/// The body of a request that carries a message.
#[derive(Clone, Debug, PartialEq, Eq)]
pub struct PostData {
    pub message: String,
}

/// What the echo endpoints report about the request they received.
///
/// Header names are kept as the HTTP layer hands them over (the server
/// normalises them to lower case); headers keep the order in which they were
/// received, and a repeated name stays a separate entry.
#[derive(Clone, Debug, PartialEq, Eq)]
pub struct RequestDetails {
    pub method: String,
    pub path: String,
    pub headers: Vec<(String, String)>,
    pub query_string: Option<String>,
    pub body: Option<String>,
}

/// An inbound request as the echo endpoints see it.
///
/// A header value is `None` where it cannot be shown as text (it holds bytes
/// that are not visible ASCII).
#[derive(Clone, Debug, PartialEq, Eq)]
pub struct IncomingRequest {
    pub method: String,
    pub path: String,
    pub headers: Vec<(String, Option<String>)>,
    pub query_string: String,
}

/// An IP address: four octets for IPv4, eight 16-bit segments for IPv6.
#[derive(Clone, Copy, Debug, PartialEq, Eq)]
pub enum IpAddress {
    V4([u8; 4]),
    V6([u16; 8]),
}

/// The outcome of a successful lookup: the name asked for, every address the
/// resolver returned in the resolver's order (possibly none), and how long
/// the resolution took in whole milliseconds.
#[derive(Clone, Debug, PartialEq, Eq)]
pub struct DnsLookupResult {
    pub domain: String,
    pub ip_addresses: Vec<IpAddress>,
    pub lookup_time_ms: u128,
}

/// A failed lookup, with the resolver's description of what went wrong.
#[derive(Clone, Debug, PartialEq, Eq)]
pub struct ResolutionError {
    pub description: String,
}

} // verus!
