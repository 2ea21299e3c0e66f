use vstd::prelude::*;

verus! {

/// Configuration of the listening socket of the web server.
#[derive(Clone, Debug, PartialEq, Eq)]
pub struct HttpConfig {
    pub port: u16,
    pub address: String,
}

/// The error a request handler answers with: either a ready response
/// (a status code and a message for the client), or an internal error
/// carried as its rendered report, to be answered under the given status
/// code.
#[derive(Clone, Debug, PartialEq, Eq)]
pub enum WebError {
    Response(u16, String),
    WithStatusCode(u16, String),
}

impl From<String> for WebError {
    /// Any rendered error becomes an internal server error.
    fn from(err: String) -> (r: WebError) {
        WebError::WithStatusCode(500, err)
    }
}

impl vstd::std_specs::convert::FromSpecImpl<String> for WebError {
    open spec fn obeys_from_spec() -> bool {
        true
    }

    open spec fn from_spec(err: String) -> WebError {
        WebError::WithStatusCode(500, err)
    }
}

/// Attach a status code to a failed result: the rendered error travels
/// on under that code instead of the internal-server-error default.
pub fn with_status_code<T>(r: Result<T, String>, code: u16) -> (out: Result<T, WebError>)
    ensures
        out == match r {
            Ok(t) => Ok::<T, WebError>(t),
            Err(e) => Err::<T, WebError>(WebError::WithStatusCode(code, e)),
        },
{
    match r {
        Ok(t) => Ok(t),
        Err(e) => Err(WebError::WithStatusCode(code, e)),
    }
}

/// The body of an error answer: the status code repeated, and the
/// message shown to the client.
#[derive(Clone, Debug, PartialEq, Eq)]
pub struct ErrorResponse {
    pub status: u16,
    pub message: String,
}

/// The message of an internal error answer: the rendered report, and —
/// where the report has an underlying source — that source appended on
/// its own line.
pub fn compose_error_message(rendered: String, source: Option<&str>) -> (r: String)
    ensures
        (source matches Some(s) ==> r@ == rendered@ + "\nSource: "@ + s@),
        source is None ==> r == rendered,
{
    match source {
        Some(s) => rendered.concat("\nSource: ").concat(s),
        None => rendered,
    }
}

impl WebError {
    /// The answer sent for this error: a ready response keeps its status
    /// and message; an internal error keeps its status and shows its
    /// message text.
    pub fn into_error_response(self) -> (r: ErrorResponse)
        ensures
            r == match self {
                WebError::Response(status, message) => ErrorResponse { status, message },
                WebError::WithStatusCode(status, message) => ErrorResponse { status, message },
            },
    {
        match self {
            WebError::Response(status, message) => ErrorResponse { status, message },
            WebError::WithStatusCode(status, message) => ErrorResponse { status, message },
        }
    }
}

/// The answer for an i/o error while serving a static file: an internal
/// server error naming the failure.
pub fn static_file_error(error_text: &str) -> (r: ErrorResponse)
    ensures
        r.status == 500,
        r.message@ == "Failed to serve static file: "@ + error_text@,
{
    ErrorResponse {
        status: 500,
        message: String::from_str("Failed to serve static file: ").concat(error_text),
    }
}

} // verus!
