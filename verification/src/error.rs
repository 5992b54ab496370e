//! The failures of the request pipeline and how each is presented to the
//! client: the status code, the reason phrase and the message of the error
//! body.

use axum::http::StatusCode;
use vstd::prelude::*;

verus! {

/// A failure of the request pipeline.
///
/// The first two variants are the client's fault; the others are the
/// server's, and carry the cause as text for the log, never for the client.
#[derive(Debug, Clone, PartialEq, Eq)]
pub enum AppError {
    /// The source file is absent.
    NotFound,
    /// A dimension limit was violated or the query was malformed; the
    /// message is passed to the client as it is.
    ValidationError(String),
    /// The admission pool is closed for good.
    ServerBusy,
    /// The filesystem failed otherwise than by absence.
    IoError(String),
    /// The image library failed to decode or encode.
    VipsError(String),
    /// An internal task failed.
    UnexpectedError(String),
}

/// The mathematical value of an [`AppError`].
pub enum AppErrorView {
    NotFound,
    ValidationError(Seq<char>),
    ServerBusy,
    IoError(Seq<char>),
    VipsError(Seq<char>),
    UnexpectedError(Seq<char>),
}

impl View for AppError {
    type V = AppErrorView;

    open spec fn view(&self) -> AppErrorView {
        match *self {
            AppError::NotFound => AppErrorView::NotFound,
            AppError::ValidationError(message) => AppErrorView::ValidationError(message@),
            AppError::ServerBusy => AppErrorView::ServerBusy,
            AppError::IoError(cause) => AppErrorView::IoError(cause@),
            AppError::VipsError(cause) => AppErrorView::VipsError(cause@),
            AppError::UnexpectedError(cause) => AppErrorView::UnexpectedError(cause@),
        }
    }
}

/// What the client is told of a failure.
#[derive(Debug, Clone, PartialEq, Eq)]
pub struct ErrorResponse {
    /// The HTTP status code.
    pub status: u16,
    /// The reason phrase of the status code.
    pub kind: String,
    /// The message for the client.
    pub message: String,
}

/// The mathematical value of an [`ErrorResponse`].
pub struct ErrorResponseView {
    pub status: u16,
    pub kind: Seq<char>,
    pub message: Seq<char>,
}

impl View for ErrorResponse {
    type V = ErrorResponseView;

    open spec fn view(&self) -> ErrorResponseView {
        ErrorResponseView { status: self.status, kind: self.kind@, message: self.message@ }
    }
}

/// The status code that answers a failure.
pub open spec fn status_of(e: AppErrorView) -> u16 {
    match e {
        AppErrorView::NotFound => 404,
        AppErrorView::ValidationError(_) => 400,
        AppErrorView::ServerBusy => 503,
        AppErrorView::IoError(_) => 500,
        AppErrorView::VipsError(_) => 500,
        AppErrorView::UnexpectedError(_) => 500,
    }
}

/// The message that the client reads: the validation message as it is, and
/// a fixed text for every other failure, so that no cause leaks.
pub open spec fn message_of(e: AppErrorView) -> Seq<char> {
    match e {
        AppErrorView::NotFound => "Image not found"@,
        AppErrorView::ValidationError(message) => message,
        AppErrorView::ServerBusy => "Server is busy (Semaphore timeout)"@,
        AppErrorView::IoError(_) => "Storage error"@,
        AppErrorView::VipsError(_) => "Image Processing Failed"@,
        AppErrorView::UnexpectedError(_) => "Internal Server Error"@,
    }
}

/// The reason phrase of the status code that answers a failure.
pub open spec fn kind_of(e: AppErrorView) -> Seq<char> {
    match e {
        AppErrorView::NotFound => "Not Found"@,
        AppErrorView::ValidationError(_) => "Bad Request"@,
        AppErrorView::ServerBusy => "Service Unavailable"@,
        AppErrorView::IoError(_) => "Internal Server Error"@,
        AppErrorView::VipsError(_) => "Internal Server Error"@,
        AppErrorView::UnexpectedError(_) => "Internal Server Error"@,
    }
}

/// The full description of a failure, cause included, as it is logged.
pub open spec fn description_of(e: AppErrorView) -> Seq<char> {
    match e {
        AppErrorView::NotFound => "The requested image does not exist"@,
        AppErrorView::ValidationError(message) => "Error de validación: "@ + message,
        AppErrorView::ServerBusy => "The server is under to much load."@,
        AppErrorView::IoError(cause) => "Reading from disk failed: "@ + cause,
        AppErrorView::VipsError(cause) => "Error processing image: "@ + cause,
        AppErrorView::UnexpectedError(cause) => "Unexpected Error: "@ + cause,
    }
}

/// The reason phrase that `http::StatusCode::canonical_reason` gives for a
/// status code, where it gives one.
pub uninterp spec fn canonical_reason_of(code: u16) -> Option<Seq<char>>;

/// The reason phrase shown for a status code: the canonical one, or
/// `Unknown` where there is none.
pub open spec fn reason_of(code: u16) -> Seq<char> {
    match canonical_reason_of(code) {
        Some(reason) => reason,
        None => "Unknown"@,
    }
}

/// Calls `http::StatusCode::from_u16` and then `canonical_reason` on the
/// status code. Not proved: that the phrase is the same on every call, that a
/// number outside 100 to 999 is no status code and so has no phrase, and the
/// four rows of the crate's table that this library answers with.
#[verifier::external_body]
fn canonical_reason(code: u16) -> (reason: Option<&'static str>)
    ensures
        match reason {
            Some(phrase) => canonical_reason_of(code) == Some(phrase@),
            None => canonical_reason_of(code).is_none(),
        },
        !(100 <= code <= 999) ==> reason.is_none(),
        code == 400 ==> reason.is_some() && reason.unwrap()@ == "Bad Request"@,
        code == 404 ==> reason.is_some() && reason.unwrap()@ == "Not Found"@,
        code == 500 ==> reason.is_some() && reason.unwrap()@ == "Internal Server Error"@,
        code == 503 ==> reason.is_some() && reason.unwrap()@ == "Service Unavailable"@,
{
    match StatusCode::from_u16(code) {
        Ok(status) => status.canonical_reason(),
        Err(_) => None,
    }
}

/// The reason phrase shown for a status code.
pub fn reason_phrase(code: u16) -> (phrase: String)
    ensures
        phrase@ == reason_of(code),
        code == 400 ==> phrase@ == "Bad Request"@,
        code == 404 ==> phrase@ == "Not Found"@,
        code == 500 ==> phrase@ == "Internal Server Error"@,
        code == 503 ==> phrase@ == "Service Unavailable"@,
        !(100 <= code <= 999) ==> phrase@ == "Unknown"@,
{
    match canonical_reason(code) {
        Some(reason) => String::from_str(reason),
        None => String::from_str("Unknown"),
    }
}

impl AppError {
    /// The status code that answers this failure.
    pub fn status_code(&self) -> (code: u16)
        ensures
            code == status_of(self@),
    {
        match self {
            AppError::NotFound => 404,
            AppError::ValidationError(_) => 400,
            AppError::ServerBusy => 503,
            AppError::IoError(_) => 500,
            AppError::VipsError(_) => 500,
            AppError::UnexpectedError(_) => 500,
        }
    }

    /// Whether the failure is the client's: a status code from 400 to 499.
    pub fn is_client_error(&self) -> (client: bool)
        ensures
            client == (400 <= status_of(self@) <= 499),
            client == (self@ is NotFound || self@ is ValidationError),
    {
        match self {
            AppError::NotFound => true,
            AppError::ValidationError(_) => true,
            _ => false,
        }
    }

    /// The message that the client reads.
    pub fn client_message(&self) -> (message: String)
        ensures
            message@ == message_of(self@),
    {
        match self {
            AppError::NotFound => String::from_str("Image not found"),
            AppError::ValidationError(message) => message.clone(),
            AppError::ServerBusy => String::from_str("Server is busy (Semaphore timeout)"),
            AppError::IoError(_) => String::from_str("Storage error"),
            AppError::VipsError(_) => String::from_str("Image Processing Failed"),
            AppError::UnexpectedError(_) => String::from_str("Internal Server Error"),
        }
    }

    /// The full description of the failure, cause included, for the log.
    pub fn describe(&self) -> (text: String)
        ensures
            text@ == description_of(self@),
    {
        match self {
            AppError::NotFound => String::from_str("The requested image does not exist"),
            AppError::ValidationError(message) => String::from_str("Error de validación: ").concat(
                message.as_str(),
            ),
            AppError::ServerBusy => String::from_str("The server is under to much load."),
            AppError::IoError(cause) => String::from_str("Reading from disk failed: ").concat(
                cause.as_str(),
            ),
            AppError::VipsError(cause) => String::from_str("Error processing image: ").concat(
                cause.as_str(),
            ),
            AppError::UnexpectedError(cause) => String::from_str("Unexpected Error: ").concat(
                cause.as_str(),
            ),
        }
    }

    /// What the client is told of this failure: the status code, its reason
    /// phrase and the message.
    pub fn into_response(self) -> (response: ErrorResponse)
        ensures
            response@ == (ErrorResponseView {
                status: status_of(self@),
                kind: kind_of(self@),
                message: message_of(self@),
            }),
            response.kind@ == reason_of(response.status),
    {
        let status = self.status_code();
        let message = self.client_message();
        let kind = reason_phrase(status);
        ErrorResponse { status, kind, message }
    }
}

} // verus!
