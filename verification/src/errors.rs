//! Errors presented to API clients: a kind, a human readable message and a machine code.
use vstd::prelude::*;

verus! {

/// The class of an error, shown to clients under the `type` extension.
#[derive(Clone, Copy, Debug, PartialEq, Eq, Structural)]
pub enum ErrorType {
    InvalidUserInput,
    NotFound,
    InternalServerError,
    Forbidden,
}

/// An error ready for presentation to the client.
#[derive(Debug)]
pub struct ApiError {
    pub message: String,
    pub error_type: ErrorType,
    pub code: String,
}

/// The mathematical content of an `ApiError`.
pub struct ApiErrorView {
    pub message: Seq<char>,
    pub error_type: ErrorType,
    pub code: Seq<char>,
}

impl View for ApiError {
    type V = ApiErrorView;

    open spec fn view(&self) -> ApiErrorView {
        ApiErrorView { message: self.message@, error_type: self.error_type, code: self.code@ }
    }
}

pub open spec fn user_input_error(message: Seq<char>, code: Seq<char>) -> ApiErrorView {
    ApiErrorView { message, error_type: ErrorType::InvalidUserInput, code }
}

pub open spec fn not_found_error() -> ApiErrorView {
    ApiErrorView {
        message: "Not found."@,
        error_type: ErrorType::NotFound,
        code: "NOT_FOUND"@,
    }
}

pub open spec fn internal_server_error(message: Option<Seq<char>>, code: Seq<char>) -> ApiErrorView {
    ApiErrorView {
        message: match message {
            Some(m) => m,
            None => "Internal server error."@,
        },
        error_type: ErrorType::InternalServerError,
        code,
    }
}

pub open spec fn forbidden_error(message: Option<Seq<char>>, code: Seq<char>) -> ApiErrorView {
    ApiErrorView {
        message: match message {
            Some(m) => m,
            None => "Forbidden."@,
        },
        error_type: ErrorType::Forbidden,
        code,
    }
}

pub open spec fn opt_view(m: Option<&str>) -> Option<Seq<char>> {
    match m {
        Some(s) => Some(s@),
        None => None,
    }
}

/// An error for invalid input from the user.
pub fn create_user_input_error(message: &str, code: &str) -> (e: ApiError)
    ensures
        e@ == user_input_error(message@, code@),
{
    ApiError {
        message: String::from_str(message),
        error_type: ErrorType::InvalidUserInput,
        code: String::from_str(code),
    }
}

/// The error for a missing item, also used where a permission is lacking so that the
/// existence of hidden items is not revealed.
pub fn create_not_found_error() -> (e: ApiError)
    ensures
        e@ == not_found_error(),
{
    ApiError {
        message: String::from_str("Not found."),
        error_type: ErrorType::NotFound,
        code: String::from_str("NOT_FOUND"),
    }
}

/// An error for a failure on the server's side; the message defaults to a generic one.
pub fn create_internal_server_error(message: Option<&str>, code: &str) -> (e: ApiError)
    ensures
        e@ == internal_server_error(opt_view(message), code@),
{
    let m = match message {
        Some(m) => String::from_str(m),
        None => String::from_str("Internal server error."),
    };
    ApiError { message: m, error_type: ErrorType::InternalServerError, code: String::from_str(code) }
}

/// An error for an action the session may not perform; the message defaults to a generic one.
pub fn create_forbidden_error(message: Option<&str>, code: &str) -> (e: ApiError)
    ensures
        e@ == forbidden_error(opt_view(message), code@),
{
    let m = match message {
        Some(m) => String::from_str(m),
        None => String::from_str("Forbidden."),
    };
    ApiError { message: m, error_type: ErrorType::Forbidden, code: String::from_str(code) }
}

} // verus!
