//! The client's view of the HTTP API: its errors and its addresses.
use vstd::prelude::*;
use crate::error::prefixed;
use crate::ident::{uuid_string, uuid_text};

verus! {

/// A failed call of the API as the client reports it.
#[derive(Debug, Clone, PartialEq, Eq)]
pub struct ApiError {
    /// The HTTP status of the answer, when there was an answer.
    pub status: Option<u16>,
    /// The machine-readable code of the failure.
    pub code: Option<String>,
    pub message: String,
}

/// The `error` object of an error answer of the server.
#[derive(Debug)]
pub struct ErrorPayload {
    pub code: String,
    pub message: String,
}

/// An `ApiError` with its texts as character sequences.
pub struct ApiErrorView {
    pub status: Option<u16>,
    pub code: Option<Seq<char>>,
    pub message: Seq<char>,
}

impl View for ApiError {
    type V = ApiErrorView;

    open spec fn view(&self) -> ApiErrorView {
        ApiErrorView {
            status: self.status,
            code: match self.code {
                Some(c) => Some(c@),
                None => None,
            },
            message: self.message@,
        }
    }
}

/// The error that an answer with the given status and body stands for: the
/// code and message of the body, or, when the body could not be read as an
/// error object, the code `unexpected_error_response` and the reason.
pub open spec fn response_error(status: u16, body: Result<(Seq<char>, Seq<char>), Seq<char>>) -> ApiErrorView {
    match body {
        Ok((code, message)) => ApiErrorView { status: Some(status), code: Some(code), message },
        Err(reason) => ApiErrorView {
            status: Some(status),
            code: Some("unexpected_error_response"@),
            message: "failed to decode error response: "@ + reason,
        },
    }
}

impl ApiError {
    /// The error of a build in which the client cannot reach the server.
    pub fn unsupported_platform() -> (r: ApiError)
        ensures
            r@ == (ApiErrorView {
                status: None,
                code: Some("unsupported_platform"@),
                message: "frontend API client is only available in wasm builds"@,
            }),
    {
        ApiError {
            status: None,
            code: Some(String::from_str("unsupported_platform")),
            message: String::from_str("frontend API client is only available in wasm builds"),
        }
    }

    /// The error of a request that could not be built or sent.
    pub fn request(message: String) -> (r: ApiError)
        ensures
            r@ == (ApiErrorView {
                status: None,
                code: Some("request_failed"@),
                message: message@,
            }),
    {
        ApiError { status: None, code: Some(String::from_str("request_failed")), message }
    }

    /// The error of an answer whose body could not be read.
    pub fn decode(message: String) -> (r: ApiError)
        ensures
            r@ == (ApiErrorView { status: None, code: Some("decode_failed"@), message: message@ }),
    {
        ApiError { status: None, code: Some(String::from_str("decode_failed")), message }
    }

    /// The error of a request that could not be sent, with the reason.
    pub fn request_failure(detail: &str) -> (r: ApiError)
        ensures
            r@ == (ApiErrorView {
                status: None,
                code: Some("request_failed"@),
                message: "request failed: "@ + detail@,
            }),
    {
        ApiError::request(prefixed("request failed: ", detail))
    }

    /// The error of a successful answer whose body could not be read, with
    /// the reason.
    pub fn decode_failure(detail: &str) -> (r: ApiError)
        ensures
            r@ == (ApiErrorView {
                status: None,
                code: Some("decode_failed"@),
                message: "failed to decode API response: "@ + detail@,
            }),
    {
        ApiError::decode(prefixed("failed to decode API response: ", detail))
    }

    /// The text that `Display` writes for this error: its message.
    pub fn display_text(&self) -> (r: String)
        ensures
            r@ == self.message@,
    {
        self.message.clone()
    }
}

/// The error reported for an answer that is not a success.
pub fn error_from_response(status: u16, body: Result<ErrorPayload, String>) -> (r: ApiError)
    ensures
        r@ == response_error(
            status,
            match body {
                Ok(p) => Ok((p.code@, p.message@)),
                Err(reason) => Err(reason@),
            },
        ),
{
    match body {
        Ok(p) => ApiError { status: Some(status), code: Some(p.code), message: p.message },
        Err(reason) => ApiError {
            status: Some(status),
            code: Some(String::from_str("unexpected_error_response")),
            message: prefixed("failed to decode error response: ", reason.as_str()),
        },
    }
}

/// The address of the todos collection.
pub open spec fn todos_endpoint() -> Seq<char> {
    "/api/todos"@
}

/// The address of one todo.
pub fn todo_url(id: u128) -> (r: String)
    ensures
        r@ == todos_endpoint() + "/"@ + uuid_text(id),
{
    let mut r = String::from_str("/api/todos/");
    let id_text = uuid_string(id);
    r.append(id_text.as_str());
    proof {
        reveal_strlit("/api/todos/");
        reveal_strlit("/api/todos");
        reveal_strlit("/");
        assert("/api/todos/"@ =~= "/api/todos"@ + "/"@);
    }
    r
}

} // verus!
