use startup::ids::IdGenerator64;
use startup::span::AttrKey;
use startup::trace::{http_flavor, http_method_str, server_error_reason, HttpMethod, HttpVersion};

#[test]
fn method_text_for_standard_verbs() {
    let cases = [
        (HttpMethod::Options, "OPTIONS"),
        (HttpMethod::Get, "GET"),
        (HttpMethod::Post, "POST"),
        (HttpMethod::Put, "PUT"),
        (HttpMethod::Delete, "DELETE"),
        (HttpMethod::Head, "HEAD"),
        (HttpMethod::Trace, "TRACE"),
        (HttpMethod::Connect, "CONNECT"),
        (HttpMethod::Patch, "PATCH"),
    ];
    for (method, expected) in cases {
        assert_eq!(http_method_str(&method), expected);
    }
}

#[test]
fn nonstandard_verb_passes_through_verbatim() {
    assert_eq!(http_method_str(&HttpMethod::Other("PROPFIND".to_string())), "PROPFIND");
}

#[test]
fn flavor_text_for_known_versions() {
    let cases = [
        (HttpVersion::H09, "0.9"),
        (HttpVersion::H10, "1.0"),
        (HttpVersion::H11, "1.1"),
        (HttpVersion::H2, "2.0"),
        (HttpVersion::H3, "3.0"),
    ];
    for (version, expected) in cases {
        assert_eq!(http_flavor(&version), expected);
    }
}

#[test]
fn unrecognized_version_uses_fallback_text() {
    assert_eq!(http_flavor(&HttpVersion::Other("HTTP/4.0".to_string())), "HTTP/4.0");
}

#[test]
fn server_error_reasons_are_exact() {
    assert_eq!(server_error_reason(500), "Internal Server Error");
    assert_eq!(server_error_reason(502), "Bad Gateway");
    assert_eq!(server_error_reason(503), "Service Unavailable");
    assert_eq!(server_error_reason(511), "Network Authentication Required");
    assert_eq!(server_error_reason(509), "");
}

#[test]
fn attribute_keys_have_wire_names() {
    assert_eq!(AttrKey::HttpMethod.name(), "http.method");
    assert_eq!(AttrKey::HttpFlavor.name(), "http.flavor");
    assert_eq!(AttrKey::HttpUrl.name(), "http.url");
    assert_eq!(AttrKey::HttpTarget.name(), "http.target");
    assert_eq!(AttrKey::HttpUserAgent.name(), "http.user_agent");
    assert_eq!(AttrKey::HttpStatusCode.name(), "http.status_code");
}

#[test]
fn trace_ids_zero_fill_the_high_bytes() {
    let generator = IdGenerator64::new();
    for _ in 0..16 {
        let id = generator.new_trace_id();
        assert_eq!(&id[..8], &[0u8; 8]);
    }
}

#[test]
fn span_ids_are_eight_bytes() {
    let generator = IdGenerator64::new();
    let id = generator.new_span_id();
    assert_eq!(id.len(), 8);
}
