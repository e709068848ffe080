//! Decision logic of the single-hop reverse proxy: build the upstream URL
//! for an intercepted request, and turn the outcome of the upstream fetch
//! into the response handed back to the embedded page.
//!
//! The response is built from an allowlist of one header, `content-type`;
//! the framing-related headers the upstream may send — `x-frame-options`,
//! `content-security-policy`, `x-content-type-options` — are never copied.

use vstd::prelude::*;
use vstd::string::StrSliceExecFns;
use vstd::string::StringExecFns;
use vstd::string::StringSliceAdditionalSpecFns;

verus! {

broadcast use vstd::string::group_string_axioms;

/// One response header: a lower-cased name and its value.
#[derive(Debug, Clone, PartialEq, Eq)]
pub struct Header {
    pub name: String,
    pub value: String,
}

/// The response the proxy hands back: status code, headers and body bytes.
#[derive(Debug, Clone, PartialEq, Eq)]
pub struct ProxiedResponse {
    pub status: u16,
    pub headers: Vec<Header>,
    pub body: Vec<u8>,
}

/// What came of the upstream fetch, as reported by the HTTP client.
#[derive(Debug, Clone)]
pub enum UpstreamOutcome {
    /// The HTTP client itself could not be constructed.
    ClientBuildFailed,
    /// The request could not be sent, or no response arrived.
    Unreachable,
    /// A response arrived but its body could not be read in full.
    BodyReadFailed,
    /// A full response: its status, its headers and its body bytes.
    Success { status: u16, headers: Vec<Header>, body: Vec<u8> },
}

/// The header names that must never appear in a proxied response.
pub open spec fn is_stripped_header_name(name: Seq<char>) -> bool {
    ||| name == "x-frame-options"@
    ||| name == "content-security-policy"@
    ||| name == "x-content-type-options"@
}

/// No header of the response bears one of the stripped names.
pub open spec fn response_headers_allowed(r: ProxiedResponse) -> bool {
    forall|i: int|
        0 <= i < r.headers@.len() ==> !is_stripped_header_name(#[trigger] r.headers@[i].name@)
}

/// Base URL of the fixed upstream origin that every request is forwarded to.
pub fn gemini_base_url() -> (r: &'static str)
    ensures
        r@ == "https://gemini.google.com"@,
{
    "https://gemini.google.com"
}

/// The headers stripped from proxied responses to allow iframe embedding.
pub fn headers_to_strip() -> (r: Vec<&'static str>)
    ensures
        r@.len() == 3,
        r@[0]@ == "x-frame-options"@,
        r@[1]@ == "content-security-policy"@,
        r@[2]@ == "x-content-type-options"@,
        forall|i: int| 0 <= i < r@.len() ==> is_stripped_header_name(#[trigger] r@[i]@),
{
    let mut v: Vec<&'static str> = Vec::new();
    v.push("x-frame-options");
    v.push("content-security-policy");
    v.push("x-content-type-options");
    v
}

/// The only header name the proxy forwards is `content-type`, which is not
/// one of the stripped names.
pub proof fn lemma_content_type_not_stripped()
    ensures
        !is_stripped_header_name("content-type"@),
{
    reveal_strlit("content-type");
    reveal_strlit("x-frame-options");
    reveal_strlit("content-security-policy");
    reveal_strlit("x-content-type-options");
    assert("content-type"@[0] != "x-frame-options"@[0]);
    assert("content-type"@[8] != "content-security-policy"@[8]);
    assert("content-type"@[0] != "x-content-type-options"@[0]);
}

/// Builds the URL of the upstream resource: the fixed upstream origin, the
/// request path, and the query string when one is present.
pub fn build_target_url(path: &str, query: Option<&str>) -> (r: String)
    ensures
        query is None ==> r@ == "https://gemini.google.com"@ + path@,
        query matches Some(q) ==> r@ == "https://gemini.google.com"@ + path@ + "?"@ + q@,
{
    let mut url: String = String::from_str(gemini_base_url());
    url.append(path);
    match query {
        Some(q) => {
            url.append("?");
            url.append(q);
        },
        None => {},
    }
    url
}

/// The content type of an upstream response: the value of its first
/// `content-type` header, or `text/html` when it sent none.
pub open spec fn spec_content_type_of(headers: Seq<Header>) -> Seq<char>
    decreases headers.len(),
{
    if headers.len() == 0 {
        "text/html"@
    } else if headers[0].name@ == "content-type"@ {
        headers[0].value@
    } else {
        spec_content_type_of(headers.drop_first())
    }
}

/// Looks up the `content-type` header of an upstream response, defaulting
/// to `text/html` when it is absent.
pub fn content_type_or_default(headers: &Vec<Header>) -> (r: String)
    ensures
        r@ == spec_content_type_of(headers@),
{
    let key: String = String::from_str("content-type");
    let n: usize = headers.len();
    let mut i: usize = 0;
    proof {
        assert(headers@.skip(0) =~= headers@);
    }
    while i < n
        invariant
            n == headers@.len(),
            i <= n,
            key@ == "content-type"@,
            spec_content_type_of(headers@) == spec_content_type_of(headers@.skip(i as int)),
        decreases n - i,
    {
        proof {
            assert(headers@.skip(i as int)[0] == headers@[i as int]);
        }
        if headers[i].name == key {
            return headers[i].value.clone();
        }
        proof {
            assert(headers@.skip(i as int).drop_first() =~= headers@.skip(i as int + 1));
        }
        i = i + 1;
    }
    String::from_str("text/html")
}

/// Builds the error response for a failed proxy attempt: the given status,
/// a `text/plain` content type, and the message as the body.
pub fn error_response(status: u16, message: &str) -> (r: ProxiedResponse)
    ensures
        r.status == status,
        r.headers@.len() == 1,
        r.headers@[0].name@ == "content-type"@,
        r.headers@[0].value@ == "text/plain"@,
        r.body@ == message.spec_bytes(),
        response_headers_allowed(r),
{
    let mut headers: Vec<Header> = Vec::new();
    headers.push(
        Header { name: String::from_str("content-type"), value: String::from_str("text/plain") },
    );
    proof {
        lemma_content_type_not_stripped();
    }
    ProxiedResponse { status, headers, body: message.as_bytes_vec() }
}

/// Turns the outcome of the upstream fetch into the proxied response.
///
/// A full upstream response keeps its status, its body and its content
/// type exactly, and nothing else: the one header the response carries is
/// `content-type`, so none of the stripped headers can appear, whatever
/// the upstream sent. Every failure becomes a well-formed plain-text error
/// response — 502 when the upstream could not be reached, 500 for an
/// internal fault — never a panic.
pub fn build_proxy_response(outcome: UpstreamOutcome) -> (r: ProxiedResponse)
    ensures
        response_headers_allowed(r),
        r.headers@.len() == 1,
        r.headers@[0].name@ == "content-type"@,
        outcome is ClientBuildFailed ==> r.status == 500 && r.headers@[0].value@ == "text/plain"@
            && r.body@ == ("Internal proxy error").spec_bytes() && r.body@.len() > 0,
        outcome is Unreachable ==> r.status == 502 && r.headers@[0].value@ == "text/plain"@
            && r.body@ == ("Failed to fetch from Gemini").spec_bytes() && r.body@.len() > 0,
        outcome is BodyReadFailed ==> r.status == 500 && r.headers@[0].value@ == "text/plain"@
            && r.body@ == ("Failed to read response").spec_bytes() && r.body@.len() > 0,
        outcome matches UpstreamOutcome::Success { status, headers, body } ==> r.status == status
            && r.body@ == body@ && r.headers@[0].value@ == spec_content_type_of(headers@),
{
    match outcome {
        UpstreamOutcome::ClientBuildFailed => {
            proof {
                lemma_error_message_bodies_nonempty();
            }
            error_response(500, "Internal proxy error")
        },
        UpstreamOutcome::Unreachable => {
            proof {
                lemma_error_message_bodies_nonempty();
            }
            error_response(502, "Failed to fetch from Gemini")
        },
        UpstreamOutcome::BodyReadFailed => {
            proof {
                lemma_error_message_bodies_nonempty();
            }
            error_response(500, "Failed to read response")
        },
        UpstreamOutcome::Success { status, headers, body } => {
            let value: String = content_type_or_default(&headers);
            let mut out: Vec<Header> = Vec::new();
            out.push(Header { name: String::from_str("content-type"), value });
            proof {
                lemma_content_type_not_stripped();
            }
            ProxiedResponse { status, headers: out, body }
        },
    }
}

/// Each error message of the proxy is a non-empty ASCII string, so the
/// body of an error response is non-empty.
proof fn lemma_error_message_bodies_nonempty()
    ensures
        ("Internal proxy error").spec_bytes().len() > 0,
        ("Failed to fetch from Gemini").spec_bytes().len() > 0,
        ("Failed to read response").spec_bytes().len() > 0,
{
    reveal_strlit("Internal proxy error");
    reveal_strlit("Failed to fetch from Gemini");
    reveal_strlit("Failed to read response");
    assert(vstd::string::is_ascii(("Internal proxy error")));
    assert(vstd::string::is_ascii(("Failed to fetch from Gemini")));
    assert(vstd::string::is_ascii(("Failed to read response")));
}

} // verus!
