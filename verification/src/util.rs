//! The closed set of failures and how each is shown to a caller.
use vstd::prelude::*;
use vstd::string::StringExecFns;

verus! {

/// A classified failure.
#[derive(Debug, PartialEq, Eq)]
pub enum Error {
    /// Unknown email, wrong password, or login material that cannot be checked.
    InvalidCredentials,
    /// No account matches both the account id and the session token presented.
    InvalidSession,
    /// The email address is malformed.
    InvalidEmail,
    /// The email address is already registered.
    AccountAlreadyExists,
    /// A captcha was required and was missing or not accepted.
    CaptchaFailed,
    /// The password could not be hashed.
    InternalError,
    /// The store failed or refused; `operation` names what was attempted and
    /// `with` the resource it was attempted on.
    DatabaseError { operation: &'static str, with: &'static str },
}

/// What this crate's fallible operations return.
pub type Result<T> = core::result::Result<T, Error>;

/// HTTP status for a rejected or unauthenticated request.
pub const STATUS_UNAUTHORIZED: u16 = 401;

/// HTTP status for malformed input.
pub const STATUS_BAD_REQUEST: u16 = 400;

/// HTTP status for a request that collides with existing data.
pub const STATUS_CONFLICT: u16 = 409;

/// HTTP status for a failure inside the service or its store.
pub const STATUS_INTERNAL: u16 = 500;

impl Clone for Error {
    fn clone(&self) -> (r: Self)
        ensures
            r == *self,
    {
        match self {
            Error::InvalidCredentials => Error::InvalidCredentials,
            Error::InvalidSession => Error::InvalidSession,
            Error::InvalidEmail => Error::InvalidEmail,
            Error::AccountAlreadyExists => Error::AccountAlreadyExists,
            Error::CaptchaFailed => Error::CaptchaFailed,
            Error::InternalError => Error::InternalError,
            Error::DatabaseError { operation, with } => Error::DatabaseError {
                operation: *operation,
                with: *with,
            },
        }
    }
}

impl Error {
    /// The tag under which the failure is shown to a caller.
    pub open spec fn spec_kind(self) -> Seq<char> {
        match self {
            Error::InvalidCredentials => "InvalidCredentials"@,
            Error::InvalidSession => "InvalidSession"@,
            Error::InvalidEmail => "InvalidEmail"@,
            Error::AccountAlreadyExists => "AccountAlreadyExists"@,
            Error::CaptchaFailed => "CaptchaFailed"@,
            Error::InternalError => "InternalError"@,
            Error::DatabaseError { .. } => "DatabaseError"@,
        }
    }

    /// The HTTP status that goes with the failure: 401 for authentication
    /// failures, 500 for failures of the service or its store, 400 and 409 for
    /// input that is refused before any credential is looked at.
    pub open spec fn spec_status(self) -> u16 {
        match self {
            Error::InvalidCredentials => STATUS_UNAUTHORIZED,
            Error::InvalidSession => STATUS_UNAUTHORIZED,
            Error::InvalidEmail => STATUS_BAD_REQUEST,
            Error::AccountAlreadyExists => STATUS_CONFLICT,
            Error::CaptchaFailed => STATUS_BAD_REQUEST,
            Error::InternalError => STATUS_INTERNAL,
            Error::DatabaseError { .. } => STATUS_INTERNAL,
        }
    }

    /// The response body of the failure: its tag and nothing else, so that the
    /// details of a store failure never reach the caller.
    pub open spec fn spec_body(self) -> Seq<char> {
        "{\"type\":\""@ + self.spec_kind() + "\"}"@
    }

    /// Whether the failure is a store failure of the given operation and resource.
    pub open spec fn is_database_error(self, operation: Seq<char>, with: Seq<char>) -> bool {
        match self {
            Error::DatabaseError { operation: o, with: w } => o@ == operation && w@ == with,
            _ => false,
        }
    }

    pub fn kind(&self) -> (r: &'static str)
        ensures
            r@ == self.spec_kind(),
    {
        match self {
            Error::InvalidCredentials => "InvalidCredentials",
            Error::InvalidSession => "InvalidSession",
            Error::InvalidEmail => "InvalidEmail",
            Error::AccountAlreadyExists => "AccountAlreadyExists",
            Error::CaptchaFailed => "CaptchaFailed",
            Error::InternalError => "InternalError",
            Error::DatabaseError { .. } => "DatabaseError",
        }
    }

    pub fn status(&self) -> (r: u16)
        ensures
            r == self.spec_status(),
    {
        match self {
            Error::InvalidCredentials => STATUS_UNAUTHORIZED,
            Error::InvalidSession => STATUS_UNAUTHORIZED,
            Error::InvalidEmail => STATUS_BAD_REQUEST,
            Error::AccountAlreadyExists => STATUS_CONFLICT,
            Error::CaptchaFailed => STATUS_BAD_REQUEST,
            Error::InternalError => STATUS_INTERNAL,
            Error::DatabaseError { .. } => STATUS_INTERNAL,
        }
    }

    pub fn body(&self) -> (r: String)
        ensures
            r@ == self.spec_body(),
    {
        let mut out = String::from_str("{\"type\":\"");
        out.append(self.kind());
        out.append("\"}");
        out
    }
}

/// The body with which wrong credentials are refused, written out.
pub proof fn lemma_invalid_credentials_body()
    ensures
        Error::InvalidCredentials.spec_body() == "{\"type\":\"InvalidCredentials\"}"@,
        Error::InvalidCredentials.spec_status() == 401,
{
    reveal_strlit("{\"type\":\"");
    reveal_strlit("InvalidCredentials");
    reveal_strlit("\"}");
    reveal_strlit("{\"type\":\"InvalidCredentials\"}");
    assert(Error::InvalidCredentials.spec_body() =~= "{\"type\":\"InvalidCredentials\"}"@);
}

} // verus!
