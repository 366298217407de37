//! The gateway's error kinds and the uniform error body sent to clients.

use vstd::prelude::*;

verus! {

/// Status code of a malformed request.
pub const STATUS_BAD_REQUEST: u16 = 400;

/// Status code of an authentication failure.
pub const STATUS_UNAUTHORIZED: u16 = 401;

/// Status code of a datastore or internal failure.
pub const STATUS_SERVER_ERROR: u16 = 500;

pub const INVALID_VALUE: &'static str = "INVALID_VALUE";

pub const AUTH_ERROR: &'static str = "AUTH_ERROR";

pub const SERVER_ERROR: &'static str = "SERVER_ERROR";

/// One field-level finding of a malformed request.
#[derive(Debug)]
pub struct ErrorResponseDetails {
    pub field: String,
    pub message: String,
}

/// The body of every error response.
#[derive(Debug)]
pub struct ErrorResponse {
    pub code: String,
    pub message: String,
    pub status_code: u16,
    pub details: Option<Vec<ErrorResponseDetails>>,
}

/// An error body as plain values.
pub struct ErrorResponseView {
    pub code: Seq<char>,
    pub message: Seq<char>,
    pub status_code: u16,
    pub details: Option<Seq<(Seq<char>, Seq<char>)>>,
}

impl View for ErrorResponseDetails {
    type V = (Seq<char>, Seq<char>);

    open spec fn view(&self) -> (Seq<char>, Seq<char>) {
        (self.field@, self.message@)
    }
}

impl View for ErrorResponse {
    type V = ErrorResponseView;

    open spec fn view(&self) -> ErrorResponseView {
        ErrorResponseView {
            code: self.code@,
            message: self.message@,
            status_code: self.status_code,
            details: match self.details {
                Some(list) => Some(list@.map_values(|d: ErrorResponseDetails| d@)),
                None => None,
            },
        }
    }
}

/// Everything that can go wrong while a request is served.
///
/// The three request-shape kinds carry the extractor's explanation, which
/// the client is shown, and the status that the extractor chose, which only
/// the server's log sees: the client is always answered with 400. The other
/// three carry a detail for the log that never reaches the client.
#[derive(Debug)]
pub enum AllForOneError {
    Path { extractor_status: u16, reason: String },
    Query { extractor_status: u16, reason: String },
    Json { extractor_status: u16, reason: String },
    Auth(String),
    Db(String),
    Internal(String),
}

impl AllForOneError {
    /// The fixed, client-safe sentence of each kind.
    pub open spec fn message_text(&self) -> Seq<char> {
        match self {
            AllForOneError::Path { .. } => "path extraction error"@,
            AllForOneError::Query { .. } => "query extraction error"@,
            AllForOneError::Json { .. } => "json extraction error"@,
            AllForOneError::Auth(_) => "auth error"@,
            AllForOneError::Db(_) => "database error"@,
            AllForOneError::Internal(_) => "internal error"@,
        }
    }

    /// The status code that the response carries.
    pub open spec fn status(&self) -> u16 {
        match self {
            AllForOneError::Path { .. } => STATUS_BAD_REQUEST,
            AllForOneError::Query { .. } => STATUS_BAD_REQUEST,
            AllForOneError::Json { .. } => STATUS_BAD_REQUEST,
            AllForOneError::Auth(_) => STATUS_UNAUTHORIZED,
            AllForOneError::Db(_) => STATUS_SERVER_ERROR,
            AllForOneError::Internal(_) => STATUS_SERVER_ERROR,
        }
    }

    /// The stable code that clients branch on.
    pub open spec fn code_text(&self) -> Seq<char> {
        match self {
            AllForOneError::Path { .. } => INVALID_VALUE@,
            AllForOneError::Query { .. } => INVALID_VALUE@,
            AllForOneError::Json { .. } => INVALID_VALUE@,
            AllForOneError::Auth(_) => AUTH_ERROR@,
            AllForOneError::Db(_) => SERVER_ERROR@,
            AllForOneError::Internal(_) => SERVER_ERROR@,
        }
    }

    /// Field-level findings: one for a malformed request, none otherwise.
    pub open spec fn details_view(&self) -> Option<Seq<(Seq<char>, Seq<char>)>> {
        match self {
            AllForOneError::Path { reason, .. } => Some(seq![("url/path"@, reason@)]),
            AllForOneError::Query { reason, .. } => Some(seq![("url/query"@, reason@)]),
            AllForOneError::Json { reason, .. } => Some(seq![("body/json"@, reason@)]),
            _ => None,
        }
    }

    /// The whole error body of this error.
    pub open spec fn response_view(&self) -> ErrorResponseView {
        ErrorResponseView {
            code: self.code_text(),
            message: self.message_text(),
            status_code: self.status(),
            details: self.details_view(),
        }
    }

    /// What is kept for the server's log and never sent.
    pub open spec fn log_detail(&self) -> Seq<char> {
        match self {
            AllForOneError::Path { reason, .. } => reason@,
            AllForOneError::Query { reason, .. } => reason@,
            AllForOneError::Json { reason, .. } => reason@,
            AllForOneError::Auth(detail) => detail@,
            AllForOneError::Db(detail) => detail@,
            AllForOneError::Internal(detail) => detail@,
        }
    }

    pub fn message(&self) -> (text: String)
        ensures
            text@ == self.message_text(),
    {
        match self {
            AllForOneError::Path { .. } => "path extraction error".to_owned(),
            AllForOneError::Query { .. } => "query extraction error".to_owned(),
            AllForOneError::Json { .. } => "json extraction error".to_owned(),
            AllForOneError::Auth(_) => "auth error".to_owned(),
            AllForOneError::Db(_) => "database error".to_owned(),
            AllForOneError::Internal(_) => "internal error".to_owned(),
        }
    }

    /// Turns the error into the status and body of its response.
    pub fn into_response(self) -> (response: (u16, ErrorResponse))
        ensures
            response.0 == self.status(),
            response.1@ == self.response_view(),
    {
        let message = self.message();
        match self {
            AllForOneError::Path { reason, .. } => (
                STATUS_BAD_REQUEST,
                request_shape_body(message, "url/path", reason),
            ),
            AllForOneError::Query { reason, .. } => (
                STATUS_BAD_REQUEST,
                request_shape_body(message, "url/query", reason),
            ),
            AllForOneError::Json { reason, .. } => (
                STATUS_BAD_REQUEST,
                request_shape_body(message, "body/json", reason),
            ),
            AllForOneError::Auth(_) => (
                STATUS_UNAUTHORIZED,
                ErrorResponse {
                    code: AUTH_ERROR.to_owned(),
                    message,
                    status_code: STATUS_UNAUTHORIZED,
                    details: None,
                },
            ),
            AllForOneError::Db(_) => (
                STATUS_SERVER_ERROR,
                ErrorResponse {
                    code: SERVER_ERROR.to_owned(),
                    message,
                    status_code: STATUS_SERVER_ERROR,
                    details: None,
                },
            ),
            AllForOneError::Internal(_) => (
                STATUS_SERVER_ERROR,
                ErrorResponse {
                    code: SERVER_ERROR.to_owned(),
                    message,
                    status_code: STATUS_SERVER_ERROR,
                    details: None,
                },
            ),
        }
    }
}

/// The body for a malformed part of a request.
fn request_shape_body(message: String, field: &str, reason: String) -> (body: ErrorResponse)
    ensures
        body@ == (ErrorResponseView {
            code: INVALID_VALUE@,
            message: message@,
            status_code: STATUS_BAD_REQUEST,
            details: Some(seq![(field@, reason@)]),
        }),
{
    let mut details: Vec<ErrorResponseDetails> = Vec::new();
    details.push(ErrorResponseDetails { field: field.to_owned(), message: reason });
    proof {
        assert(details@.map_values(|d: ErrorResponseDetails| d@) =~= seq![(field@, reason@)]);
    }
    ErrorResponse {
        code: INVALID_VALUE.to_owned(),
        message,
        status_code: STATUS_BAD_REQUEST,
        details: Some(details),
    }
}

} // verus!
