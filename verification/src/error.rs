//! The failures the service reports, their messages and their HTTP status.

use vstd::prelude::*;
use vstd::string::*;
use crate::text::{decimal, decimal_digits};

verus! {

/// What went wrong, as the client is told.
#[derive(Debug, Clone, Copy, PartialEq, Eq, Structural)]
pub enum ErrorMessage {
    EmptyPassword,
    ExceededMaxPasswordLength(usize),
    InvalidHashFormat,
    HashingError,
    InvalidToken,
    TokenExpired,
    ServerError,
    WrongCredential,
    EmailExist,
    UserNoLongerExist,
    TokenNotProvided,
    PermissionDenied,
    UserNotAuthenticated,
    UserNotVerified,
}

impl ErrorMessage {
    /// The message text of each failure.
    pub open spec fn text(self) -> Seq<char> {
        match self {
            ErrorMessage::EmptyPassword => "Password is required"@,
            ErrorMessage::ExceededMaxPasswordLength(limit) => "Passwrd must be at most "@
                + decimal_digits(limit as nat) + " characters"@,
            ErrorMessage::InvalidHashFormat => "Invalid password hash format"@,
            ErrorMessage::HashingError => "Error while hashing password"@,
            ErrorMessage::InvalidToken => "Invalid token"@,
            ErrorMessage::TokenExpired => "Verification token has expired"@,
            ErrorMessage::ServerError => "Iternal server error"@,
            ErrorMessage::WrongCredential => "Wrong credentials"@,
            ErrorMessage::EmailExist => "Email already exists"@,
            ErrorMessage::UserNoLongerExist => "User no longer exists"@,
            ErrorMessage::TokenNotProvided => "Token not provided"@,
            ErrorMessage::PermissionDenied => "Permission denied"@,
            ErrorMessage::UserNotAuthenticated => "User not authenticated"@,
            ErrorMessage::UserNotVerified => "User not verified"@,
        }
    }

    pub fn to_str(&self) -> (r: String)
        ensures
            r@ == self.text(),
    {
        match self {
            ErrorMessage::EmptyPassword => String::from_str("Password is required"),
            ErrorMessage::ExceededMaxPasswordLength(limit) => {
                let mut s = String::from_str("Passwrd must be at most ");
                let digits = decimal(*limit as u64);
                s.append(digits.as_str());
                s.append(" characters");
                s
            },
            ErrorMessage::InvalidHashFormat => String::from_str("Invalid password hash format"),
            ErrorMessage::HashingError => String::from_str("Error while hashing password"),
            ErrorMessage::InvalidToken => String::from_str("Invalid token"),
            ErrorMessage::TokenExpired => String::from_str("Verification token has expired"),
            ErrorMessage::ServerError => String::from_str("Iternal server error"),
            ErrorMessage::WrongCredential => String::from_str("Wrong credentials"),
            ErrorMessage::EmailExist => String::from_str("Email already exists"),
            ErrorMessage::UserNoLongerExist => String::from_str("User no longer exists"),
            ErrorMessage::TokenNotProvided => String::from_str("Token not provided"),
            ErrorMessage::PermissionDenied => String::from_str("Permission denied"),
            ErrorMessage::UserNotAuthenticated => String::from_str("User not authenticated"),
            ErrorMessage::UserNotVerified => String::from_str("User not verified"),
        }
    }

    pub fn to_string(&self) -> (r: String)
        ensures
            r@ == self.text(),
    {
        self.to_str()
    }
}

/// The body of a failure response.
#[derive(Debug, PartialEq, Eq)]
pub struct ErrorResponse {
    pub status: String,
    pub message: String,
}

/// The mathematical value of an `ErrorResponse`.
pub struct ErrorResponseView {
    pub status: Seq<char>,
    pub message: Seq<char>,
}

impl View for ErrorResponse {
    type V = ErrorResponseView;

    open spec fn view(&self) -> ErrorResponseView {
        ErrorResponseView { status: self.status@, message: self.message@ }
    }
}

impl Clone for ErrorResponse {
    fn clone(&self) -> (r: ErrorResponse)
        ensures
            r@ == self@,
    {
        ErrorResponse { status: self.status.clone(), message: self.message.clone() }
    }
}

/// 400 Bad Request.
pub const BAD_REQUEST: u16 = 400;

/// 401 Unauthorized.
pub const UNAUTHORIZED: u16 = 401;

/// 403 Forbidden.
pub const FORBIDDEN: u16 = 403;

/// 409 Conflict.
pub const CONFLICT: u16 = 409;

/// 500 Internal Server Error.
pub const INTERNAL_SERVER_ERROR: u16 = 500;

/// A failure with the HTTP status it is answered with.
#[derive(Debug, PartialEq, Eq)]
pub struct HttpError {
    pub message: String,
    pub status: u16,
}

/// The mathematical value of an `HttpError`.
pub struct HttpErrorView {
    pub message: Seq<char>,
    pub status: u16,
}

impl View for HttpError {
    type V = HttpErrorView;

    open spec fn view(&self) -> HttpErrorView {
        HttpErrorView { message: self.message@, status: self.status }
    }
}

impl Clone for HttpError {
    fn clone(&self) -> (r: HttpError)
        ensures
            r@ == self@,
    {
        HttpError { message: self.message.clone(), status: self.status }
    }
}

impl HttpErrorView {
    /// The failure `reason` answered with `status`.
    pub open spec fn of(reason: ErrorMessage, status: u16) -> HttpErrorView {
        HttpErrorView { message: reason.text(), status }
    }
}

impl HttpError {
    pub fn new(message: String, status: u16) -> (r: HttpError)
        ensures
            r@ == (HttpErrorView { message: message@, status }),
    {
        HttpError { message, status }
    }

    pub fn server_error(message: String) -> (r: HttpError)
        ensures
            r@ == (HttpErrorView { message: message@, status: INTERNAL_SERVER_ERROR }),
    {
        HttpError { message, status: INTERNAL_SERVER_ERROR }
    }

    pub fn bad_request(message: String) -> (r: HttpError)
        ensures
            r@ == (HttpErrorView { message: message@, status: BAD_REQUEST }),
    {
        HttpError { message, status: BAD_REQUEST }
    }

    pub fn unique_constraint_violation(message: String) -> (r: HttpError)
        ensures
            r@ == (HttpErrorView { message: message@, status: CONFLICT }),
    {
        HttpError { message, status: CONFLICT }
    }

    pub fn unauthorized(message: String) -> (r: HttpError)
        ensures
            r@ == (HttpErrorView { message: message@, status: UNAUTHORIZED }),
    {
        HttpError { message, status: UNAUTHORIZED }
    }

    /// The failure `reason` answered with `status`, in the reason's own
    /// words.
    pub fn of(reason: ErrorMessage, status: u16) -> (r: HttpError)
        ensures
            r@ == HttpErrorView::of(reason, status),
    {
        HttpError { message: reason.to_str(), status }
    }

    /// The status and the body of the response: the body's status is `fail`,
    /// its message the error's.
    pub fn into_http_response(self) -> (r: (u16, ErrorResponse))
        ensures
            r.0 == self.status,
            r.1@ == (ErrorResponseView { status: "fail"@, message: self.message@ }),
    {
        let body = ErrorResponse { status: String::from_str("fail"), message: self.message };
        (self.status, body)
    }
}

/// The status a guard rejection is answered with: who-are-you failures are
/// 401, a role that is not admitted is 403.
pub open spec fn rejection_status(reason: ErrorMessage) -> u16 {
    if reason == ErrorMessage::PermissionDenied {
        FORBIDDEN
    } else {
        UNAUTHORIZED
    }
}

/// The response to a request that the guard rejected.
pub fn rejection(reason: ErrorMessage) -> (r: HttpError)
    ensures
        r@ == HttpErrorView::of(reason, rejection_status(reason)),
{
    if reason == ErrorMessage::PermissionDenied {
        HttpError::of(reason, FORBIDDEN)
    } else {
        HttpError::of(reason, UNAUTHORIZED)
    }
}

} // verus!
