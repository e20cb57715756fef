use http_playground::dns::{dns_lookup, lookup_result};
use http_playground::echo::{create_request_details, echo_delete, echo_get, echo_post, echo_put};
use http_playground::models::{
    DnsLookupResult, IncomingRequest, IpAddress, PostData, RequestDetails, ResolutionError,
};
use http_playground::page::hello;
use http_playground::reply::{Reply, ReplyBody};
use http_playground::status::{is_listed, status_code};

fn sample_request(method: &str) -> IncomingRequest {
    IncomingRequest {
        method: method.to_string(),
        path: "/echo".to_string(),
        headers: vec![
            ("content-type".to_string(), Some("application/json".to_string())),
            ("x-token".to_string(), None),
            ("accept".to_string(), Some("text/html".to_string())),
            ("accept".to_string(), Some("*/*".to_string())),
        ],
        query_string: "a=1&b=2".to_string(),
    }
}

fn expected_headers() -> Vec<(String, String)> {
    vec![
        ("content-type".to_string(), "application/json".to_string()),
        ("x-token".to_string(), "invalid".to_string()),
        ("accept".to_string(), "text/html".to_string()),
        ("accept".to_string(), "*/*".to_string()),
    ]
}

fn details_of(reply: &Reply) -> &RequestDetails {
    match &reply.body {
        ReplyBody::Details(d) => d,
        other => panic!("expected request details, got {:?}", other),
    }
}

fn text_of(reply: &Reply) -> &str {
    match &reply.body {
        ReplyBody::Text(t) => t.as_str(),
        other => panic!("expected text, got {:?}", other),
    }
}

#[test]
fn listed_status_codes_are_answered_as_asked() {
    for code in [200u16, 201, 204, 400, 401, 403, 404, 500, 502, 503] {
        let reply = status_code(code);
        assert_eq!(reply.status, code);
        assert_eq!(text_of(&reply), format!("Returned status code: {}", code));
        assert!(is_listed(code));
    }
}

#[test]
fn unlisted_status_codes_fall_back_to_ok() {
    for code in [299u16, 999, 0, 100, 202, 418, 504, 65535] {
        let reply = status_code(code);
        assert_eq!(reply.status, 200);
        assert_eq!(text_of(&reply), format!("Returned status code: {}", code));
        assert!(!is_listed(code));
    }
}

#[test]
fn status_text_is_exact() {
    assert_eq!(text_of(&status_code(404)), "Returned status code: 404");
    assert_eq!(text_of(&status_code(999)), "Returned status code: 999");
    assert_eq!(text_of(&status_code(7)), "Returned status code: 7");
    assert_eq!(text_of(&status_code(10)), "Returned status code: 10");
}

#[test]
fn echo_post_reports_the_message() {
    let req = sample_request("POST");
    let reply = echo_post(&req, Ok(PostData { message: "hi".to_string() }));
    assert_eq!(reply.status, 200);
    let d = details_of(&reply);
    assert_eq!(d.body, Some("hi".to_string()));
    assert_eq!(d.method, "POST");
    assert_eq!(d.path, "/echo");
    assert_eq!(d.headers, expected_headers());
    assert_eq!(d.query_string, Some("a=1&b=2".to_string()));
}

#[test]
fn echo_put_reports_the_message() {
    let req = sample_request("PUT");
    let reply = echo_put(&req, Ok(PostData { message: "updated".to_string() }));
    assert_eq!(reply.status, 200);
    let d = details_of(&reply);
    assert_eq!(d.body, Some("updated".to_string()));
    assert_eq!(d.method, "PUT");
    assert_eq!(d.headers, expected_headers());
}

#[test]
fn echo_get_has_no_body() {
    let req = sample_request("GET");
    let reply = echo_get(&req);
    assert_eq!(reply.status, 200);
    let d = details_of(&reply);
    assert_eq!(d.body, None);
    assert_eq!(d.method, "GET");
    assert_eq!(d.headers, expected_headers());
}

#[test]
fn echo_delete_has_no_body() {
    let req = sample_request("DELETE");
    let reply = echo_delete(&req);
    assert_eq!(reply.status, 200);
    let d = details_of(&reply);
    assert_eq!(d.body, None);
    assert_eq!(d.method, "DELETE");
}

#[test]
fn malformed_message_is_a_bad_request() {
    let req = sample_request("POST");
    let reply = echo_post(&req, Err("expected value at line 1 column 1".to_string()));
    assert_eq!(reply.status, 400);
    assert_eq!(text_of(&reply), "expected value at line 1 column 1");
    let reply = echo_put(&req, Err("missing field `message`".to_string()));
    assert_eq!(reply.status, 400);
    assert_eq!(text_of(&reply), "missing field `message`");
}

#[test]
fn request_without_headers_or_query() {
    let req = IncomingRequest {
        method: "GET".to_string(),
        path: "/echo".to_string(),
        headers: vec![],
        query_string: String::new(),
    };
    let d = create_request_details(&req, None);
    assert!(d.headers.is_empty());
    assert_eq!(d.query_string, Some(String::new()));
    assert_eq!(d.body, None);
}

#[test]
fn resolved_addresses_keep_their_order() {
    let ips = vec![
        IpAddress::V6([0, 0, 0, 0, 0, 0, 0, 1]),
        IpAddress::V4([127, 0, 0, 1]),
        IpAddress::V4([10, 0, 0, 2]),
    ];
    let r = lookup_result("localhost", Ok(ips.clone()), 3).unwrap();
    assert_eq!(r.domain, "localhost");
    assert_eq!(r.ip_addresses, ips);
    assert_eq!(r.lookup_time_ms, 3);
}

#[test]
fn resolution_with_no_address_is_a_success() {
    let r = lookup_result("example.test", Ok(vec![]), 0);
    assert_eq!(
        r,
        Ok(DnsLookupResult {
            domain: "example.test".to_string(),
            ip_addresses: vec![],
            lookup_time_ms: 0,
        })
    );
    let reply = dns_lookup(r);
    assert_eq!(reply.status, 200);
}

#[test]
fn resolution_failure_is_a_server_error() {
    let r = lookup_result(
        "this-domain-should-not-exist.invalid",
        Err("no record found for name: this-domain-should-not-exist.invalid".to_string()),
        12,
    );
    assert_eq!(
        r,
        Err(ResolutionError {
            description: "no record found for name: this-domain-should-not-exist.invalid"
                .to_string(),
        })
    );
    let reply = dns_lookup(r);
    assert_eq!(reply.status, 500);
    assert_eq!(
        text_of(&reply),
        "no record found for name: this-domain-should-not-exist.invalid"
    );
}

#[test]
fn successful_lookup_is_answered_with_the_result() {
    let result = DnsLookupResult {
        domain: "localhost".to_string(),
        ip_addresses: vec![IpAddress::V4([127, 0, 0, 1])],
        lookup_time_ms: 1,
    };
    let reply = dns_lookup(Ok(result.clone()));
    assert_eq!(reply.status, 200);
    assert_eq!(reply.body, ReplyBody::Lookup(result));
}

#[test]
fn landing_page_shows_the_request() {
    let reply = hello("http", "127.0.0.1:8080", "/", "GET", Some("curl/8.0".to_string()));
    assert_eq!(reply.status, 200);
    let page = match &reply.body {
        ReplyBody::Html(p) => p.clone(),
        other => panic!("expected a page, got {:?}", other),
    };
    assert!(page.contains("<span class=\"detail-label\">Protocol:</span> http\n"));
    assert!(page.contains("<span class=\"detail-label\">Host:</span> 127.0.0.1:8080\n"));
    assert!(page.contains("<span class=\"detail-label\">Path:</span> /\n"));
    assert!(page.contains("<span class=\"detail-label\">Method:</span> GET\n"));
    assert!(page.contains("<span class=\"detail-label\">User Agent:</span> curl/8.0\n"));
    assert!(page.contains(".request-details {"));
    assert!(!page.contains("{{"));
    assert!(page.trim_start().starts_with("<!DOCTYPE html>"));
    assert!(page.trim_end().ends_with("</html>"));
}

#[test]
fn landing_page_without_user_agent() {
    let reply = hello("https", "example.org", "/", "GET", None);
    let page = match &reply.body {
        ReplyBody::Html(p) => p.clone(),
        other => panic!("expected a page, got {:?}", other),
    };
    assert!(page.contains("<span class=\"detail-label\">User Agent:</span> Unknown\n"));
}
