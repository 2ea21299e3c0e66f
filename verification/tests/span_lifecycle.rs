use startup::body::BodyProxy;
use startup::span::{Attr, AttrKey, AttrValue, SpanContext, SpanKind, SpanRecord, SpanStatus, Upstream};
use startup::trace::{begin_span, on_failure, on_success, HttpMethod, HttpVersion, RequestMeta};

fn meta(method: HttpMethod, user_agent: Option<String>) -> RequestMeta {
    RequestMeta {
        method,
        version: HttpVersion::H11,
        path: "/orders/42".to_string(),
        url: "/orders/42".to_string(),
        path_and_query: Some("/orders/42".to_string()),
        user_agent,
    }
}

fn remote_context() -> SpanContext {
    SpanContext {
        trace_id: [0, 0, 0, 0, 0, 0, 0, 0, 1, 2, 3, 4, 5, 6, 7, 8],
        span_id: [9, 9, 9, 9, 9, 9, 9, 9],
        remote: true,
    }
}

#[test]
fn root_request_creates_unlinked_root_span() {
    let span = begin_span(meta(HttpMethod::Get, None), Upstream::Root);
    assert_eq!(span.parent, Upstream::Root);
    assert!(span.links.is_empty());
    assert_eq!(span.kind, SpanKind::Server);
    assert!(!span.ended);
}

#[test]
fn remote_request_creates_linked_span() {
    let ctx = remote_context();
    let span = begin_span(meta(HttpMethod::Get, None), Upstream::Remote(ctx));
    assert_eq!(span.parent, Upstream::Remote(ctx));
    assert_eq!(span.links, vec![ctx]);
}

#[test]
fn get_orders_scenario_records_expected_attributes() {
    // GET /orders/42 with a remote trace context and no user agent.
    let ctx = remote_context();
    let span = begin_span(meta(HttpMethod::Get, None), Upstream::Remote(ctx));
    assert_eq!(span.name, "/orders/42");
    assert_eq!(
        span.attributes,
        vec![
            Attr { key: AttrKey::HttpMethod, value: AttrValue::Text("GET".to_string()) },
            Attr { key: AttrKey::HttpFlavor, value: AttrValue::Text("1.1".to_string()) },
            Attr { key: AttrKey::HttpUrl, value: AttrValue::Text("/orders/42".to_string()) },
            Attr { key: AttrKey::HttpTarget, value: AttrValue::Text("/orders/42".to_string()) },
        ],
    );
    assert!(!span.attributes.iter().any(|a| a.key == AttrKey::HttpUserAgent));
    assert_eq!(span.links, vec![ctx]);
}

#[test]
fn user_agent_recorded_when_present() {
    let span = begin_span(meta(HttpMethod::Get, Some("curl/8".to_string())), Upstream::Root);
    assert_eq!(
        span.attributes.last(),
        Some(&Attr { key: AttrKey::HttpUserAgent, value: AttrValue::Text("curl/8".to_string()) }),
    );
}

#[test]
fn server_error_response_sets_error_status_with_reason() {
    let mut span = begin_span(meta(HttpMethod::Get, None), Upstream::Root);
    on_success(&mut span, 500);
    assert_eq!(span.status, SpanStatus::Error { message: "Internal Server Error".to_string() });
    assert_eq!(
        span.attributes.last(),
        Some(&Attr { key: AttrKey::HttpStatusCode, value: AttrValue::Number(500) }),
    );
    assert!(!span.ended, "the span must stay open until the body is consumed");
}

#[test]
fn non_server_error_response_keeps_status_unset() {
    for code in [200u16, 301, 404, 499] {
        let mut span = begin_span(meta(HttpMethod::Get, None), Upstream::Root);
        on_success(&mut span, code);
        assert_eq!(span.status, SpanStatus::Unset);
        assert_eq!(
            span.attributes.last(),
            Some(&Attr { key: AttrKey::HttpStatusCode, value: AttrValue::Number(code as i64) }),
        );
    }
}

#[test]
fn unregistered_server_error_code_gets_empty_reason() {
    let mut span = begin_span(meta(HttpMethod::Get, None), Upstream::Root);
    on_success(&mut span, 509);
    assert_eq!(span.status, SpanStatus::Error { message: String::new() });
}

#[test]
fn failure_ends_span_exactly_once_with_exception() {
    // The inner operation fails before producing a response.
    let mut span = begin_span(meta(HttpMethod::Post, None), Upstream::Root);
    on_failure(&mut span, "connection reset".to_string());
    assert!(span.ended);
    assert_eq!(span.exports, 1);
    assert_eq!(span.status, SpanStatus::Error { message: "connection reset".to_string() });
    assert_eq!(span.exceptions, vec!["connection reset".to_string()]);
}

#[test]
fn streamed_body_closes_span_after_trailers() {
    // Three chunks, then trailers: open throughout the data, closed once.
    let mut span = begin_span(meta(HttpMethod::Get, None), Upstream::Root);
    on_success(&mut span, 200);
    let mut proxy = BodyProxy::new(span);
    for _ in 0..3 {
        proxy.on_data(true);
        assert!(!proxy.span_ended());
    }
    proxy.on_trailers();
    assert!(proxy.span_ended());
    assert_eq!(proxy.span.exports, 1);
}

#[test]
fn data_exhaustion_closes_span_without_trailers() {
    let mut span = begin_span(meta(HttpMethod::Get, None), Upstream::Root);
    on_success(&mut span, 200);
    let mut proxy = BodyProxy::new(span);
    proxy.on_data(true);
    proxy.on_data(false);
    assert!(proxy.span_ended());
    assert_eq!(proxy.span.exports, 1);
}

#[test]
fn double_end_is_idempotent() {
    // Data exhausted, then trailers: the second close is a no-op.
    let mut span = begin_span(meta(HttpMethod::Get, None), Upstream::Root);
    on_success(&mut span, 200);
    let mut proxy = BodyProxy::new(span);
    proxy.on_data(false);
    assert_eq!(proxy.span.exports, 1);
    proxy.on_trailers();
    assert_eq!(proxy.span.exports, 1, "no duplicate export");
    assert!(proxy.span_ended());
}

#[test]
fn end_called_twice_directly_is_a_no_op() {
    let mut span = SpanRecord::new(
        "s".to_string(),
        SpanKind::Server,
        Upstream::Root,
        Vec::new(),
        Vec::new(),
    );
    span.end();
    let after_first = span.clone();
    span.end();
    assert_eq!(span, after_first);
    assert_eq!(span.exports, 1);
}
