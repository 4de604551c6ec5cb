//! Error taxonomy of the request pipeline.
//!
//! `ApiError` is the set of failures that may be disclosed to a client;
//! `AnyHandlerError` is the response-level wrapper that maps each failure to
//! an HTTP status class.

use vstd::prelude::*;

verus! {

/// Points into locales.
pub type ErrorMessage = String;

/// Errors that are disclosed to the client.
#[derive(Debug, Clone, PartialEq)]
pub enum ApiError {
    WebhookAuthentication,
    CryptoError,
    UnknownStep(String),
    InvalidStepDef(String),
    TooLarge,
    NotFound(String),
    LockError,
    InvalidInput,
    AuthError,
    /// String-based error ids, to be more specific than `AuthError`.
    AuthError1(String),
    MissingVar,
    InvalidState(String),
    InsufficientEarn,
    InsufficientLvl,
    Expired,
    /// Wraps a user-facing error message.
    UserError(ErrorMessage),
    /// Convention: subject.property, for example user.id.missing.
    Any(String),
    Any1(String, String),
    Unauthorized,
    Disabled,
}

impl ApiError {
    /// The text a client sees for this error.
    pub open spec fn spec_message(&self) -> Seq<char> {
        match self {
            ApiError::WebhookAuthentication => "WebhookAuthentication"@,
            ApiError::CryptoError => "CryptoError"@,
            ApiError::UnknownStep(s) => "UnknownStep("@ + s@ + ")"@,
            ApiError::InvalidStepDef(s) => "InvalidStep Definition for ("@ + s@ + ")"@,
            ApiError::TooLarge => "TooLarge"@,
            ApiError::NotFound(s) => "NotFound("@ + s@ + ")"@,
            ApiError::LockError => "LockError"@,
            ApiError::InvalidInput => "InvalidInput"@,
            ApiError::AuthError => "AuthError"@,
            ApiError::AuthError1(s) => "AuthError1("@ + s@ + ")"@,
            ApiError::MissingVar => "MissingVar"@,
            ApiError::InvalidState(s) => "InvalidState("@ + s@ + ")"@,
            ApiError::InsufficientEarn => "InsufficientEarn"@,
            ApiError::InsufficientLvl => "InsufficientLvl"@,
            ApiError::Expired => "Expired"@,
            ApiError::UserError(m) => "UserError("@ + m@ + ")"@,
            ApiError::Any(s) => s@,
            ApiError::Any1(a, b) => a@ + ":"@ + b@,
            ApiError::Unauthorized => "Unauthorized"@,
            ApiError::Disabled => "Disabled"@,
        }
    }

    /// Renders the error as the client-visible text.
    pub fn message(&self) -> (r: String)
        ensures
            r@ == self.spec_message(),
    {
        match self {
            ApiError::WebhookAuthentication => String::from_str("WebhookAuthentication"),
            ApiError::CryptoError => String::from_str("CryptoError"),
            ApiError::UnknownStep(s) => String::from_str("UnknownStep(").concat(s.as_str()).concat(")"),
            ApiError::InvalidStepDef(s) => String::from_str("InvalidStep Definition for (").concat(s.as_str()).concat(")"),
            ApiError::TooLarge => String::from_str("TooLarge"),
            ApiError::NotFound(s) => String::from_str("NotFound(").concat(s.as_str()).concat(")"),
            ApiError::LockError => String::from_str("LockError"),
            ApiError::InvalidInput => String::from_str("InvalidInput"),
            ApiError::AuthError => String::from_str("AuthError"),
            ApiError::AuthError1(s) => String::from_str("AuthError1(").concat(s.as_str()).concat(")"),
            ApiError::MissingVar => String::from_str("MissingVar"),
            ApiError::InvalidState(s) => String::from_str("InvalidState(").concat(s.as_str()).concat(")"),
            ApiError::InsufficientEarn => String::from_str("InsufficientEarn"),
            ApiError::InsufficientLvl => String::from_str("InsufficientLvl"),
            ApiError::Expired => String::from_str("Expired"),
            ApiError::UserError(m) => String::from_str("UserError(").concat(m.as_str()).concat(")"),
            ApiError::Any(s) => s.clone(),
            ApiError::Any1(a, b) => a.clone().concat(":").concat(b.as_str()),
            ApiError::Unauthorized => String::from_str("Unauthorized"),
            ApiError::Disabled => String::from_str("Disabled"),
        }
    }
}

/// The error a web handler or a middleware reports outward.  It either
/// carries one of the disclosed `ApiError` values or an internal message that
/// a client must not see in detail.
#[derive(Debug)]
pub enum AnyHandlerError {
    Api(ApiError),
    Other(String),
}

/// The HTTP status class of a handler error: authentication failures are
/// unauthorized, other disclosed errors are bad requests, anything internal
/// is a server error.
pub open spec fn spec_status_code(e: &AnyHandlerError) -> u16 {
    match e {
        AnyHandlerError::Api(ApiError::AuthError) => 401,
        AnyHandlerError::Api(ApiError::Expired) => 401,
        AnyHandlerError::Api(ApiError::AuthError1(_)) => 401,
        AnyHandlerError::Api(_) => 400,
        AnyHandlerError::Other(_) => 500,
    }
}

impl AnyHandlerError {
    /// The status code of the response that reports this error.
    pub fn status_code(&self) -> (r: u16)
        ensures
            r == spec_status_code(self),
    {
        match self {
            AnyHandlerError::Api(ApiError::AuthError) => 401,
            AnyHandlerError::Api(ApiError::Expired) => 401,
            AnyHandlerError::Api(ApiError::AuthError1(_)) => 401,
            AnyHandlerError::Api(_) => 400,
            AnyHandlerError::Other(_) => 500,
        }
    }

    /// The body of the response that reports this error: the disclosed text
    /// for an `ApiError`, a generic text for anything internal.
    pub fn response_message(&self) -> (r: String)
        ensures
            self matches AnyHandlerError::Api(e) ==> r@ == e.spec_message(),
            self is Other ==> r@ == "InternalError"@,
    {
        match self {
            AnyHandlerError::Api(e) => e.message(),
            AnyHandlerError::Other(_) => String::from_str("InternalError"),
        }
    }
}

impl From<ApiError> for AnyHandlerError {
    fn from(e: ApiError) -> (r: Self) {
        AnyHandlerError::Api(e)
    }
}

impl vstd::std_specs::convert::FromSpecImpl<ApiError> for AnyHandlerError {
    open spec fn obeys_from_spec() -> bool {
        true
    }

    open spec fn from_spec(e: ApiError) -> Self {
        AnyHandlerError::Api(e)
    }
}

/// Builds the string-id error, as a failed result.
pub fn anyerr<T>(code: &str) -> (r: Result<T, ApiError>)
    ensures
        r matches Err(ApiError::Any(s)) && s@ == code@,
{
    Err(ApiError::Any(String::from_str(code)))
}

/// Builds the string-id error itself.
pub fn anyerr_in(code: &str) -> (r: ApiError)
    ensures
        r matches ApiError::Any(s) && s@ == code@,
{
    ApiError::Any(String::from_str(code))
}

#[verifier::external_type_specification]
#[verifier::external_body]
pub struct ExIoError(std::io::Error);

/// Relies on std::io::Error::new: wraps the given message as an I/O error of
/// the catch-all kind.
#[verifier::external_body]
fn io_error_other(msg: String) -> std::io::Error {
    std::io::Error::new(std::io::ErrorKind::Other, msg)
}

/// Turns a startup failure into the I/O error a server launcher reports.
pub fn map_os_err<R>(v: Result<R, String>) -> (r: Result<R, std::io::Error>)
    ensures
        v matches Ok(x) ==> r matches Ok(y) && y == x,
        v is Err <==> r is Err,
{
    match v {
        Ok(x) => Ok(x),
        Err(e) => Err(io_error_other(e)),
    }
}

} // verus!
