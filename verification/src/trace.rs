use vstd::prelude::*;

use crate::span::{
    Attr, AttrKey, AttrValue, SpanContext, SpanKind, SpanRecord, SpanStatus, Upstream,
};

verus! {

/// A request method, textual and uppercase for the standard verbs; any
/// nonstandard verb is carried verbatim.
#[derive(Clone, Debug, PartialEq, Eq)]
pub enum HttpMethod {
    Options,
    Get,
    Post,
    Put,
    Delete,
    Head,
    Trace,
    Connect,
    Patch,
    Other(String),
}

/// A protocol version; an unrecognized one carries the fallback text the
/// caller rendered for it.
#[derive(Clone, Debug, PartialEq, Eq)]
pub enum HttpVersion {
    H09,
    H10,
    H11,
    H2,
    H3,
    Other(String),
}

/// The protocol metadata of one incoming request, read once at the edge
/// and handed to the middleware as plain values. Optional parts that the
/// request does not carry are `None` and are then omitted from the span,
/// never defaulted to an empty string.
#[derive(Clone, Debug, PartialEq, Eq)]
pub struct RequestMeta {
    pub method: HttpMethod,
    pub version: HttpVersion,
    /// The request path; it becomes the span's name.
    pub path: String,
    /// The full request URL.
    pub url: String,
    /// Path plus query string, when the request carries one.
    pub path_and_query: Option<String>,
    /// The user-agent header value, when present and valid text.
    pub user_agent: Option<String>,
}

pub open spec fn spec_method_text(m: HttpMethod) -> Seq<char> {
    match m {
        HttpMethod::Options => "OPTIONS"@,
        HttpMethod::Get => "GET"@,
        HttpMethod::Post => "POST"@,
        HttpMethod::Put => "PUT"@,
        HttpMethod::Delete => "DELETE"@,
        HttpMethod::Head => "HEAD"@,
        HttpMethod::Trace => "TRACE"@,
        HttpMethod::Connect => "CONNECT"@,
        HttpMethod::Patch => "PATCH"@,
        HttpMethod::Other(s) => s@,
    }
}

/// The textual rendering of a request method.
pub fn http_method_str(m: &HttpMethod) -> (r: String)
    ensures
        r@ == spec_method_text(*m),
{
    match m {
        HttpMethod::Options => "OPTIONS".to_owned(),
        HttpMethod::Get => "GET".to_owned(),
        HttpMethod::Post => "POST".to_owned(),
        HttpMethod::Put => "PUT".to_owned(),
        HttpMethod::Delete => "DELETE".to_owned(),
        HttpMethod::Head => "HEAD".to_owned(),
        HttpMethod::Trace => "TRACE".to_owned(),
        HttpMethod::Connect => "CONNECT".to_owned(),
        HttpMethod::Patch => "PATCH".to_owned(),
        HttpMethod::Other(s) => s.clone(),
    }
}

pub open spec fn spec_flavor_text(v: HttpVersion) -> Seq<char> {
    match v {
        HttpVersion::H09 => "0.9"@,
        HttpVersion::H10 => "1.0"@,
        HttpVersion::H11 => "1.1"@,
        HttpVersion::H2 => "2.0"@,
        HttpVersion::H3 => "3.0"@,
        HttpVersion::Other(s) => s@,
    }
}

/// The textual rendering of a protocol version.
pub fn http_flavor(v: &HttpVersion) -> (r: String)
    ensures
        r@ == spec_flavor_text(*v),
{
    match v {
        HttpVersion::H09 => "0.9".to_owned(),
        HttpVersion::H10 => "1.0".to_owned(),
        HttpVersion::H11 => "1.1".to_owned(),
        HttpVersion::H2 => "2.0".to_owned(),
        HttpVersion::H3 => "3.0".to_owned(),
        HttpVersion::Other(s) => s.clone(),
    }
}

pub open spec fn spec_server_error_reason(code: u16) -> Seq<char> {
    if code == 500 {
        "Internal Server Error"@
    } else if code == 501 {
        "Not Implemented"@
    } else if code == 502 {
        "Bad Gateway"@
    } else if code == 503 {
        "Service Unavailable"@
    } else if code == 504 {
        "Gateway Timeout"@
    } else if code == 505 {
        "HTTP Version Not Supported"@
    } else if code == 506 {
        "Variant Also Negotiates"@
    } else if code == 507 {
        "Insufficient Storage"@
    } else if code == 508 {
        "Loop Detected"@
    } else if code == 510 {
        "Not Extended"@
    } else if code == 511 {
        "Network Authentication Required"@
    } else {
        Seq::<char>::empty()
    }
}

/// The human-readable reason text of a server-error status code, or the
/// empty string where the code has none registered.
pub fn server_error_reason(code: u16) -> (r: String)
    ensures
        r@ == spec_server_error_reason(code),
{
    match code {
        500 => "Internal Server Error".to_owned(),
        501 => "Not Implemented".to_owned(),
        502 => "Bad Gateway".to_owned(),
        503 => "Service Unavailable".to_owned(),
        504 => "Gateway Timeout".to_owned(),
        505 => "HTTP Version Not Supported".to_owned(),
        506 => "Variant Also Negotiates".to_owned(),
        507 => "Insufficient Storage".to_owned(),
        508 => "Loop Detected".to_owned(),
        510 => "Not Extended".to_owned(),
        511 => "Network Authentication Required".to_owned(),
        _ => String::new(),
    }
}

/// The status code is in the server-error class.
pub open spec fn spec_is_server_error(code: u16) -> bool {
    500 <= code && code <= 599
}

pub open spec fn attr_is_text(a: Attr, key: AttrKey, text: Seq<char>) -> bool {
    &&& a.key == key
    &&& a.value matches AttrValue::Text(s) && s@ == text
}

/// The exact attribute list a request span is created with: method,
/// protocol version and full URL always, in that order; then path plus
/// query when present; then the user agent when present.
pub open spec fn request_attrs_ok(attrs: Seq<Attr>, meta: RequestMeta) -> bool {
    let n: int = 3 + (if meta.path_and_query is Some {
        1int
    } else {
        0int
    }) + (if meta.user_agent is Some {
        1int
    } else {
        0int
    });
    &&& attrs.len() == n
    &&& attr_is_text(attrs[0], AttrKey::HttpMethod, spec_method_text(meta.method))
    &&& attr_is_text(attrs[1], AttrKey::HttpFlavor, spec_flavor_text(meta.version))
    &&& attr_is_text(attrs[2], AttrKey::HttpUrl, meta.url@)
    &&& (meta.path_and_query matches Some(pq) ==> attr_is_text(
        attrs[3],
        AttrKey::HttpTarget,
        pq@,
    ))
    &&& (meta.user_agent matches Some(ua) ==> attr_is_text(
        attrs[n - 1],
        AttrKey::HttpUserAgent,
        ua@,
    ))
}

/// Open a server-kind span for one incoming request.
///
/// The span is named after the request path and carries exactly the
/// protocol attributes of `request_attrs_ok`. It is created as a child of
/// the upstream context; when that context was extracted from a remote
/// peer, a causal link to it is added as well. A request without an
/// upstream context yields a root span with no link.
pub fn begin_span(meta: RequestMeta, upstream: Upstream) -> (span: SpanRecord)
    ensures
        span.name == meta.path,
        span.kind == SpanKind::Server,
        span.parent == upstream,
        upstream is Root ==> span.links@ == Seq::<SpanContext>::empty(),
        (upstream matches Upstream::Remote(c) ==> span.links@ == seq![c]),
        request_attrs_ok(span.attributes@, meta),
        span.status == SpanStatus::Unset,
        span.exceptions@ == Seq::<String>::empty(),
        !span.ended,
        span.exports == 0,
        span.wf(),
{
    let RequestMeta { method, version, path, url, path_and_query, user_agent } = meta;

    let mut attributes: Vec<Attr> = Vec::new();
    attributes.push(
        Attr { key: AttrKey::HttpMethod, value: AttrValue::Text(http_method_str(&method)) },
    );
    attributes.push(
        Attr { key: AttrKey::HttpFlavor, value: AttrValue::Text(http_flavor(&version)) },
    );
    attributes.push(Attr { key: AttrKey::HttpUrl, value: AttrValue::Text(url) });
    if let Some(pq) = path_and_query {
        attributes.push(Attr { key: AttrKey::HttpTarget, value: AttrValue::Text(pq) });
    }
    if let Some(ua) = user_agent {
        attributes.push(Attr { key: AttrKey::HttpUserAgent, value: AttrValue::Text(ua) });
    }

    let mut links: Vec<SpanContext> = Vec::new();
    if let Upstream::Remote(c) = upstream {
        links.push(c);
    }

    SpanRecord::new(path, SpanKind::Server, upstream, links, attributes)
}

/// Record the outcome of a successful inner call on the span: the status
/// code becomes an attribute, and a status in the server-error class sets
/// the span's status to `Error` with the code's reason text. The span
/// stays open — it is closed only once the response body has been
/// delivered.
pub fn on_success(span: &mut SpanRecord, code: u16)
    requires
        !old(span).ended,
    ensures
        !final(span).ended,
        final(span).attributes@ == old(span).attributes@.push(
            Attr { key: AttrKey::HttpStatusCode, value: AttrValue::Number(code as i64) },
        ),
        spec_is_server_error(code) ==> (final(span).status matches SpanStatus::Error { message }
            && message@ == spec_server_error_reason(code)),
        !spec_is_server_error(code) ==> final(span).status == old(span).status,
        *final(span) == (SpanRecord {
            attributes: final(span).attributes,
            status: final(span).status,
            ..*old(span)
        }),
{
    span.set_attribute(AttrKey::HttpStatusCode, AttrValue::Number(code as i64));
    if 500 <= code && code <= 599 {
        let message = server_error_reason(code);
        span.set_status(SpanStatus::Error { message });
    }
}

/// Record a failed inner call on the span: the status becomes `Error`
/// carrying the error's text, the error is recorded as an exception
/// event, and the span is closed at once — exported exactly once, before
/// the error travels on upstream.
pub fn on_failure(span: &mut SpanRecord, error_text: String)
    requires
        !old(span).ended,
        old(span).exports < u64::MAX,
    ensures
        final(span).ended,
        final(span).exports == old(span).exports + 1,
        final(span).status == (SpanStatus::Error { message: error_text }),
        final(span).exceptions@ == old(span).exceptions@.push(error_text),
        *final(span) == (SpanRecord {
            status: final(span).status,
            exceptions: final(span).exceptions,
            ended: true,
            exports: final(span).exports,
            ..*old(span)
        }),
{
    let message = error_text.clone();
    span.set_status(SpanStatus::Error { message });
    span.record_exception(error_text);
    span.end();
}

/// Middleware layer that wraps a request-handling service in the
/// span-lifecycle state machine of this module.
#[derive(Debug, Clone, Copy, PartialEq, Eq)]
pub struct Layer {}

impl Layer {
    #[must_use]
    pub fn new() -> (r: Self)
        ensures
            r == (Layer {  }),
    {
        Self {  }
    }
}

/// Middleware service wrapping an inner request handler. The wrapped
/// handler is untouched: the middleware only adds the tracing side
/// effects around it, and never produces an error of its own.
#[derive(Clone)]
pub struct Service<S> {
    pub inner: S,
}

impl<S> Service<S> {
    pub fn new(inner: S) -> (r: Self)
        ensures
            r.inner == inner,
    {
        Self { inner }
    }
}

} // verus!
