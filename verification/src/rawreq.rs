//! Byte-exact serialization of one raw HTTP request, and the plan — address,
//! TLS choice, request text — that a transport needs to carry it. The caller
//! controls method, path, headers and body framing; nothing is normalized.

use vstd::prelude::*;
use vstd::string::StrSliceExecFns;
use vstd::string::StringExecFns;
use vstd::string::StringSliceAdditionalSpecFns;
use crate::strutil::{
    has_crlf, contains_crlf, upper_chars, to_ascii_upper, dec_str, usize_to_dec, str_eq,
};

verus! {

broadcast use vstd::string::group_string_axioms;

/// Failure classes of the raw request engine and of the convenience fetch
/// client: an unparseable URL or missing host, a TCP connect failure, a TLS
/// setup failure, or a write/read failure.
#[derive(Debug, Clone, PartialEq, Eq, Structural)]
pub enum RequestError {
    UrlParse,
    Connect,
    TlsSetup,
    Io,
}

/// What one conventional fetch yields: the body text, the response headers
/// as key/value pairs in arrival order (keys case-insensitive, repeats
/// allowed), and the status line. A failed fetch yields no outcome at all.
#[derive(Debug)]
pub struct FetchOutcome {
    pub body: String,
    pub headers: Vec<(String, String)>,
    pub status: String,
}

/// The cookie header block sent verbatim: nothing for an absent or empty
/// cookie; the value with a CRLF terminator appended when it has none; the
/// value untouched when it already contains one.
pub open spec fn cookie_block(cookies: Option<Seq<char>>) -> Seq<char> {
    match cookies {
        None => Seq::empty(),
        Some(v) => if v.len() == 0 {
            Seq::empty()
        } else if !has_crlf(v) {
            v + "\r\n"@
        } else {
            v
        },
    }
}

/// Turns an optional raw cookie line into the header block to splice into the
/// request.
pub fn prepare_cookie(cookies: Option<String>) -> (r: String)
    ensures
        r@ == cookie_block(cookies.deep_view()),
{
    match cookies {
        None => String::new(),
        Some(value) => {
            if !contains_crlf(value.as_str()) && !value.as_str().is_empty() {
                value.concat("\r\n")
            } else if value.as_str().is_empty() {
                String::new()
            } else {
                value
            }
        },
    }
}

/// The exact request text: upper-cased method, path, fixed HTTP/1.1 tail,
/// `Host`, the raw cookie block, a `Content-Length` equal to the byte length
/// of the payload, a fixed `User-Agent`, a blank line, then the payload
/// verbatim.
pub open spec fn request_text(
    method: Seq<char>,
    endpoint: Seq<char>,
    host: Seq<char>,
    cookie: Seq<char>,
    payload: Seq<char>,
    payload_bytes: nat,
) -> Seq<char> {
    upper_chars(method) + " "@ + endpoint + " HTTP/1.1\r\nHost: "@ + host + "\r\n"@ + cookie
        + "Content-Length: "@ + dec_str(payload_bytes) + "\r\nUser-Agent: Mozilla/5.0\r\n\r\n"@
        + payload
}

/// Serializes one raw request, byte for byte as [`request_text`] states.
pub fn build_request(
    method: &str,
    endpoint: &str,
    host: &str,
    cookie: Option<String>,
    payload: &str,
) -> (r: String)
    ensures
        r@ == request_text(
            method@,
            endpoint@,
            host@,
            cookie_block(cookie.deep_view()),
            payload@,
            payload.spec_bytes().len() as usize as nat,
        ),
{
    let mut content = to_ascii_upper(method);
    content.append(" ");
    content.append(endpoint);
    content.append(" HTTP/1.1\r\nHost: ");
    content.append(host);
    content.append("\r\n");
    let cookie_pie = prepare_cookie(cookie);
    content.append(cookie_pie.as_str());
    content.append("Content-Length: ");
    let len_str = usize_to_dec(payload.len());
    content.append(len_str.as_str());
    content.append("\r\nUser-Agent: Mozilla/5.0\r\n\r\n");
    content.append(payload);
    assert(content@ =~= request_text(
        method@,
        endpoint@,
        host@,
        cookie_block(cookie.deep_view()),
        payload@,
        payload.spec_bytes().len() as usize as nat,
    ));
    content
}

/// Whether the url crate parses this text and finds a host in it.
pub uninterp spec fn url_ok(s: Seq<char>) -> bool;

/// The host name the url crate finds in this text.
pub uninterp spec fn url_host_of(s: Seq<char>) -> Seq<char>;

/// The explicit port, or the scheme's known default, that the url crate
/// finds in this text.
pub uninterp spec fn url_port_of(s: Seq<char>) -> Option<u16>;

/// The scheme under which the url crate reads this text.
pub uninterp spec fn url_scheme_of(s: Seq<char>) -> Seq<char>;

/// Relies on url's `Url::parse`, `Url::host_str`, `Url::port_or_known_default`
/// and `Url::scheme` for the host, port and scheme of an absolute URL.
#[verifier::external_body]
fn parse_url_parts(url: &str) -> (r: Option<(String, Option<u16>, String)>)
    ensures
        r is Some <==> url_ok(url@),
        r matches Some(p) ==> p.0@ == url_host_of(url@) && p.1 == url_port_of(url@) && p.2@
            == url_scheme_of(url@),
{
    match url::Url::parse(url) {
        Ok(u) => match u.host_str() {
            Some(h) => Some((h.to_string(), u.port_or_known_default(), u.scheme().to_string())),
            None => None,
        },
        Err(_) => None,
    }
}

/// The port a raw request to this URL connects to: the explicit or known
/// default port when the url crate reports one, else 443 for `https` and 80
/// for everything else.
pub open spec fn effective_port(s: Seq<char>) -> u16 {
    match url_port_of(s) {
        Some(p) => p,
        None => if url_scheme_of(s) == "https"@ {
            443
        } else {
            80
        },
    }
}

/// Everything a transport needs to carry one raw request: where to connect,
/// whether to wrap the socket in TLS, and the exact text to send.
#[derive(Debug)]
pub struct RequestPlan {
    pub host: String,
    pub port: u16,
    pub use_tls: bool,
    pub address: String,
    pub content: String,
}

/// Builds the full plan for one raw request against `url`: fails with
/// `UrlParse` exactly when the URL has no parse or no host; otherwise fixes
/// host, port, TLS use, the `host:port` address, and the byte-exact request
/// text with an absent payload treated as empty.
pub fn plan_request(
    url: &String,
    endpoint: &str,
    http_method: &str,
    cookie: Option<String>,
    payload: Option<String>,
) -> (r: Result<RequestPlan, RequestError>)
    ensures
        r is Ok <==> url_ok(url@),
        r is Err ==> r == Err::<RequestPlan, RequestError>(RequestError::UrlParse),
        r matches Ok(p) ==> {
            &&& p.host@ == url_host_of(url@)
            &&& p.port == effective_port(url@)
            &&& p.use_tls == (url_scheme_of(url@) == "https"@)
            &&& p.address@ == url_host_of(url@) + ":"@ + dec_str(effective_port(url@) as nat)
            &&& p.content@ == request_text(
                http_method@,
                endpoint@,
                url_host_of(url@),
                cookie_block(cookie.deep_view()),
                match payload.deep_view() {
                    Some(pl) => pl,
                    None => Seq::empty(),
                },
                match payload.deep_view() {
                    Some(pl) => vstd::utf8::encode_utf8(pl).len() as usize as nat,
                    None => 0,
                },
            )
        },
{
    let parts = parse_url_parts(url.as_str());
    match parts {
        None => Err(RequestError::UrlParse),
        Some((host, port_opt, scheme)) => {
            let use_tls = str_eq(scheme.as_str(), "https");
            let port: u16 = match port_opt {
                Some(p) => p,
                None => if use_tls {
                    443
                } else {
                    80
                },
            };
            let mut address = host.clone();
            address.append(":");
            let port_str = usize_to_dec(port as usize);
            address.append(port_str.as_str());
            let payload_value = match payload {
                Some(p) => p,
                None => String::new(),
            };
            let content = build_request(
                http_method,
                endpoint,
                host.as_str(),
                cookie,
                payload_value.as_str(),
            );
            Ok(RequestPlan { host, port, use_tls, address, content })
        },
    }
}

} // verus!
