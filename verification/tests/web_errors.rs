use startup::web::{
    compose_error_message, static_file_error, with_status_code, ErrorResponse, HttpConfig,
    WebError,
};

#[test]
fn any_rendered_error_becomes_internal_server_error() {
    let err = WebError::from("boom".to_string());
    assert_eq!(err, WebError::WithStatusCode(500, "boom".to_string()));
}

#[test]
fn with_status_code_keeps_ok_and_tags_err() {
    let ok: Result<u32, String> = Ok(7);
    assert_eq!(with_status_code(ok, 404), Ok(7));

    let err: Result<u32, String> = Err("missing".to_string());
    assert_eq!(
        with_status_code(err, 404),
        Err(WebError::WithStatusCode(404, "missing".to_string())),
    );
}

#[test]
fn error_responses_carry_status_and_message() {
    let ready = WebError::Response(403, "no".to_string());
    assert_eq!(
        ready.into_error_response(),
        ErrorResponse { status: 403, message: "no".to_string() },
    );

    let internal = WebError::WithStatusCode(500, "broken".to_string());
    assert_eq!(
        internal.into_error_response(),
        ErrorResponse { status: 500, message: "broken".to_string() },
    );
}

#[test]
fn error_message_appends_source_on_its_own_line() {
    assert_eq!(compose_error_message("outer".to_string(), None), "outer");
    assert_eq!(
        compose_error_message("outer".to_string(), Some("inner")),
        "outer\nSource: inner",
    );
}

#[test]
fn static_file_errors_name_the_failure() {
    let r = static_file_error("permission denied");
    assert_eq!(r.status, 500);
    assert_eq!(r.message, "Failed to serve static file: permission denied");
}

#[test]
fn http_config_holds_the_listen_parts() {
    let config = HttpConfig { port: 8080, address: "127.0.0.1".to_string() };
    assert_eq!(config.port, 8080);
    assert_eq!(config.address, "127.0.0.1");
}
