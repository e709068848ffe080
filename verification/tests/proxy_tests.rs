use gemini_desktop::proxy::build_proxy_response;
use gemini_desktop::proxy::build_target_url;
use gemini_desktop::proxy::content_type_or_default;
use gemini_desktop::proxy::error_response;
use gemini_desktop::proxy::gemini_base_url;
use gemini_desktop::proxy::headers_to_strip;
use gemini_desktop::proxy::Header;
use gemini_desktop::proxy::UpstreamOutcome;

fn header(name: &str, value: &str) -> Header {
    Header { name: name.to_string(), value: value.to_string() }
}

#[test]
fn test_headers_to_strip_includes_key_headers() {
    assert!(headers_to_strip().contains(&"x-frame-options"));
    assert!(headers_to_strip().contains(&"content-security-policy"));
}

#[test]
fn test_gemini_base_url_is_https() {
    assert!(gemini_base_url().starts_with("https://"));
}

#[test]
fn test_headers_to_strip_exact() {
    let names = headers_to_strip();
    assert_eq!(
        names,
        vec!["x-frame-options", "content-security-policy", "x-content-type-options"]
    );
}

#[test]
fn test_build_target_url_without_query() {
    let url = build_target_url("/app", None);
    assert_eq!(url, "https://gemini.google.com/app");
}

#[test]
fn test_build_target_url_with_query() {
    let url = build_target_url("/search", Some("q=verus&hl=en"));
    assert_eq!(url, "https://gemini.google.com/search?q=verus&hl=en");
}

#[test]
fn test_stripped_headers_never_forwarded() {
    // Even when the upstream sends the framing-related headers, none of
    // them appears in the proxied response.
    let upstream = vec![
        header("x-frame-options", "DENY"),
        header("content-security-policy", "frame-ancestors 'none'"),
        header("x-content-type-options", "nosniff"),
        header("content-type", "text/html; charset=utf-8"),
        header("server", "upstream"),
    ];
    let response = build_proxy_response(UpstreamOutcome::Success {
        status: 200,
        headers: upstream,
        body: b"<html></html>".to_vec(),
    });

    for stripped in headers_to_strip() {
        assert!(response.headers.iter().all(|h| h.name != stripped));
    }
    assert_eq!(response.headers.len(), 1);
    assert_eq!(response.headers[0].name, "content-type");
}

#[test]
fn test_success_preserves_status_body_and_content_type() {
    let response = build_proxy_response(UpstreamOutcome::Success {
        status: 203,
        headers: vec![header("content-type", "application/json")],
        body: b"{\"ok\":true}".to_vec(),
    });

    assert_eq!(response.status, 203);
    assert_eq!(response.body, b"{\"ok\":true}".to_vec());
    assert_eq!(response.headers[0].value, "application/json");
}

#[test]
fn test_missing_content_type_defaults_to_text_html() {
    let response = build_proxy_response(UpstreamOutcome::Success {
        status: 200,
        headers: vec![header("server", "upstream")],
        body: Vec::new(),
    });

    assert_eq!(response.headers[0].value, "text/html");
}

#[test]
fn test_content_type_or_default_first_match_wins() {
    let headers = vec![
        header("server", "upstream"),
        header("content-type", "image/png"),
        header("content-type", "text/plain"),
    ];
    assert_eq!(content_type_or_default(&headers), "image/png");
    assert_eq!(content_type_or_default(&Vec::new()), "text/html");
}

#[test]
fn test_unreachable_upstream_yields_502() {
    let response = build_proxy_response(UpstreamOutcome::Unreachable);

    assert_eq!(response.status, 502);
    assert!(!response.body.is_empty());
    assert_eq!(response.headers.len(), 1);
    assert_eq!(response.headers[0].name, "content-type");
    assert_eq!(response.headers[0].value, "text/plain");
    assert_eq!(response.body, b"Failed to fetch from Gemini".to_vec());
}

#[test]
fn test_client_build_failure_yields_500() {
    let response = build_proxy_response(UpstreamOutcome::ClientBuildFailed);

    assert_eq!(response.status, 500);
    assert_eq!(response.headers[0].value, "text/plain");
    assert_eq!(response.body, b"Internal proxy error".to_vec());
}

#[test]
fn test_body_read_failure_yields_500() {
    let response = build_proxy_response(UpstreamOutcome::BodyReadFailed);

    assert_eq!(response.status, 500);
    assert_eq!(response.headers[0].value, "text/plain");
    assert_eq!(response.body, b"Failed to read response".to_vec());
}

#[test]
fn test_error_response_shape() {
    let response = error_response(500, "Response build error");

    assert_eq!(response.status, 500);
    assert_eq!(response.headers.len(), 1);
    assert_eq!(response.headers[0].name, "content-type");
    assert_eq!(response.headers[0].value, "text/plain");
    assert_eq!(response.body, b"Response build error".to_vec());
}
