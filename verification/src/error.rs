use crate::text::{contains, contains_str, decimal, decimal_text};
use vstd::prelude::*;

verus! {

/// Why an operation on the engine failed.
#[derive(Debug)]
pub enum DockerError {
    ConnectionError(String),
    OperationError(String),
    NotFound(String),
    PermissionDenied(String),
    Unknown(String),
}

/// What a `DockerError` holds, as mathematical values.
pub enum DockerErrorView {
    ConnectionError(Seq<char>),
    OperationError(Seq<char>),
    NotFound(Seq<char>),
    PermissionDenied(Seq<char>),
    Unknown(Seq<char>),
}

impl View for DockerError {
    type V = DockerErrorView;

    open spec fn view(&self) -> DockerErrorView {
        match self {
            DockerError::ConnectionError(m) => DockerErrorView::ConnectionError(m@),
            DockerError::OperationError(m) => DockerErrorView::OperationError(m@),
            DockerError::NotFound(m) => DockerErrorView::NotFound(m@),
            DockerError::PermissionDenied(m) => DockerErrorView::PermissionDenied(m@),
            DockerError::Unknown(m) => DockerErrorView::Unknown(m@),
        }
    }
}

impl Clone for DockerError {
    fn clone(&self) -> (r: DockerError)
        ensures
            r@ == self@,
    {
        match self {
            DockerError::ConnectionError(m) => DockerError::ConnectionError(m.clone()),
            DockerError::OperationError(m) => DockerError::OperationError(m.clone()),
            DockerError::NotFound(m) => DockerError::NotFound(m.clone()),
            DockerError::PermissionDenied(m) => DockerError::PermissionDenied(m.clone()),
            DockerError::Unknown(m) => DockerError::Unknown(m.clone()),
        }
    }
}

/// What the engine client reported about a failed call: the status code and
/// message of a server response, or the description of any other failure.
#[derive(Debug)]
pub enum EngineFailure {
    Response { status_code: u16, message: String },
    Other { description: String },
}

/// Result of an operation on the engine.
pub type DockerResult<T> = Result<T, DockerError>;

/// The line that an error is shown as: its kind, a colon and its message.
pub open spec fn error_line(e: DockerErrorView) -> Seq<char> {
    match e {
        DockerErrorView::ConnectionError(m) => "Connection error: "@ + m,
        DockerErrorView::OperationError(m) => "Operation error: "@ + m,
        DockerErrorView::NotFound(m) => "Not found: "@ + m,
        DockerErrorView::PermissionDenied(m) => "Permission denied: "@ + m,
        DockerErrorView::Unknown(m) => "Unknown error: "@ + m,
    }
}

/// The message of a server response that is neither 404 nor 403.
pub open spec fn server_error_message(status_code: u16, message: Seq<char>) -> Seq<char> {
    "Server error ("@ + decimal(status_code as nat) + "): "@ + message
}

/// The error that a server response stands for: status 404 is `NotFound`,
/// 403 `PermissionDenied`, any other an `OperationError` that names the
/// status.
pub open spec fn classified_response(status_code: u16, message: Seq<char>) -> DockerErrorView {
    if status_code == 404 {
        DockerErrorView::NotFound(message)
    } else if status_code == 403 {
        DockerErrorView::PermissionDenied(message)
    } else {
        DockerErrorView::OperationError(server_error_message(status_code, message))
    }
}

/// The error that a failure other than a server response stands for: a
/// `ConnectionError` where its description speaks of a connection, and
/// `Unknown` otherwise.
pub open spec fn classified_other(description: Seq<char>) -> DockerErrorView {
    if contains(description, "connection"@) {
        DockerErrorView::ConnectionError(description)
    } else {
        DockerErrorView::Unknown(description)
    }
}

/// The error that a failure of the engine client stands for.
pub open spec fn classified(failure: EngineFailure) -> DockerErrorView {
    match failure {
        EngineFailure::Response { status_code, message } => classified_response(
            status_code,
            message@,
        ),
        EngineFailure::Other { description } => classified_other(description@),
    }
}

impl DockerError {
    /// The line that this error is shown as.
    pub fn to_string(&self) -> (r: String)
        ensures
            r@ == error_line(self@),
    {
        match self {
            DockerError::ConnectionError(msg) => String::from_str("Connection error: ").concat(
                msg.as_str(),
            ),
            DockerError::OperationError(msg) => String::from_str("Operation error: ").concat(
                msg.as_str(),
            ),
            DockerError::NotFound(msg) => String::from_str("Not found: ").concat(msg.as_str()),
            DockerError::PermissionDenied(msg) => String::from_str("Permission denied: ").concat(
                msg.as_str(),
            ),
            DockerError::Unknown(msg) => String::from_str("Unknown error: ").concat(msg.as_str()),
        }
    }

    /// Classifies a failure of the engine client.
    pub fn from_failure(failure: EngineFailure) -> (r: DockerError)
        ensures
            r@ == classified(failure),
    {
        match failure {
            EngineFailure::Response { status_code, message } => {
                if status_code == 404 {
                    DockerError::NotFound(message)
                } else if status_code == 403 {
                    DockerError::PermissionDenied(message)
                } else {
                    let mut text = String::from_str("Server error (");
                    text.append(decimal_text(status_code as u64).as_str());
                    text.append("): ");
                    text.append(message.as_str());
                    DockerError::OperationError(text)
                }
            },
            EngineFailure::Other { description } => {
                if contains_str(description.as_str(), "connection") {
                    DockerError::ConnectionError(description)
                } else {
                    DockerError::Unknown(description)
                }
            },
        }
    }
}

/// Turns the error of a result into the line it is shown as; a success
/// passes through.
pub fn to_string_error<T>(result: DockerResult<T>) -> (r: Result<T, String>)
    ensures
        match result {
            Ok(value) => r == Ok::<T, String>(value),
            Err(e) => r is Err && r->Err_0@ == error_line(e@),
        },
{
    match result {
        Ok(value) => Ok(value),
        Err(e) => Err(e.to_string()),
    }
}

} // verus!
