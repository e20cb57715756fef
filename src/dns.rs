//! Domain-name lookups: assembling the result of a resolution and answering
//! the lookup endpoint with it.

use vstd::prelude::*;
use crate::models::{DnsLookupResult, IpAddress, ResolutionError};
use crate::reply::{Reply, ReplyBody, STATUS_INTERNAL_SERVER_ERROR, STATUS_OK};

verus! {

/// `r` is what a lookup of `domain` comes to when the resolver answered
/// `resolution` after `lookup_time_ms` milliseconds: every address, in the
/// resolver's order, or the resolver's error.
pub open spec fn lookup_outcome(
    r: Result<DnsLookupResult, ResolutionError>,
    domain: Seq<char>,
    resolution: Result<Vec<IpAddress>, String>,
    lookup_time_ms: u128,
) -> bool {
    match resolution {
        Ok(ips) => r matches Ok(res) && {
            &&& res.domain@ == domain
            &&& res.ip_addresses@ == ips@
            &&& res.lookup_time_ms == lookup_time_ms
        },
        Err(e) => r matches Err(err) && err.description@ == e@,
    }
}

/// `reply` answers the lookup endpoint with `outcome`: `200` with the result,
/// or `500` with the description of the failure as text.
pub open spec fn lookup_reply(reply: Reply, outcome: Result<DnsLookupResult, ResolutionError>) -> bool {
    match outcome {
        Ok(res) => reply.status == 200 && reply.body == ReplyBody::Lookup(res),
        Err(e) => {
            &&& reply.status == 500
            &&& reply.body matches ReplyBody::Text(t) && t@ == e.description@
        },
    }
}

/// Builds the result of a lookup of `domain` from what the resolver
/// answered and the time the resolution took. A failure of the resolver
/// stays a failure; a resolution that found no address is a result with no
/// address.
pub fn lookup_result(
    domain: &str,
    resolution: Result<Vec<IpAddress>, String>,
    lookup_time_ms: u128,
) -> (r: Result<DnsLookupResult, ResolutionError>)
    ensures
        lookup_outcome(r, domain@, resolution, lookup_time_ms),
{
    match resolution {
        Ok(ips) => Ok(
            DnsLookupResult {
                domain: String::from_str(domain),
                ip_addresses: ips,
                lookup_time_ms,
            },
        ),
        Err(description) => Err(ResolutionError { description }),
    }
}

/// Answers the lookup endpoint: the result as `200`, a failure as `500`
/// with its description.
pub fn dns_lookup(outcome: Result<DnsLookupResult, ResolutionError>) -> (r: Reply)
    ensures
        lookup_reply(r, outcome),
{
    match outcome {
        Ok(res) => Reply { status: STATUS_OK, body: ReplyBody::Lookup(res) },
        Err(e) => Reply { status: STATUS_INTERNAL_SERVER_ERROR, body: ReplyBody::Text(e.description) },
    }
}

/// A lookup is answered `500` exactly when the resolver failed, and then
/// with the resolver's description; a resolution that found no address is
/// answered `200` with an empty list of addresses, never as a failure.
pub proof fn lemma_failure_is_never_empty_success(
    domain: Seq<char>,
    resolution: Result<Vec<IpAddress>, String>,
    lookup_time_ms: u128,
    outcome: Result<DnsLookupResult, ResolutionError>,
    reply: Reply,
)
    requires
        lookup_outcome(outcome, domain, resolution, lookup_time_ms),
        lookup_reply(reply, outcome),
    ensures
        (reply.status == 500) <==> resolution is Err,
        resolution matches Err(e) ==> (reply.body matches ReplyBody::Text(t) && t@ == e@),
        resolution matches Ok(ips) ==> (reply.body matches ReplyBody::Lookup(res) && {
            &&& res.domain@ == domain
            &&& res.ip_addresses@ == ips@
            &&& res.lookup_time_ms == lookup_time_ms
        }),
{
}

} // verus!
