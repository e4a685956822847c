//! Error taxonomy of the core: user-correctable validation failures,
//! deliberately undifferentiated authentication failures, duplicate-username
//! conflicts, delegation-handshake failures, and upstream failures.

use vstd::prelude::*;

verus! {

/// Error raised by the session/identity manager.
///
/// `AuthenticationError` deliberately carries one generic message for every
/// credential or token failure, so a caller cannot tell which factor failed.
/// `ValidationError` carries a specific, safe-to-disclose reason.
/// `DelegationError` covers the callback failures a caller can provoke (an
/// unknown, replayed or swept state; an owner who logged out mid-flow),
/// while `ExchangeError` is the provider rejecting or not answering the
/// token exchange itself.
#[derive(Debug)]
pub enum UserManagerError {
    TokenError(String),
    AuthenticationError(String),
    ValidationError(String),
    ConflictError(String),
    DelegationError(String),
    ExchangeError(String),
    UpstreamError(String),
}

impl UserManagerError {
    /// The human-readable message carried by the error.
    pub fn get_message(&self) -> (r: String)
        ensures
            r@ == self.spec_message(),
    {
        match self {
            UserManagerError::TokenError(m) => m.clone(),
            UserManagerError::AuthenticationError(m) => m.clone(),
            UserManagerError::ValidationError(m) => m.clone(),
            UserManagerError::ConflictError(m) => m.clone(),
            UserManagerError::DelegationError(m) => m.clone(),
            UserManagerError::ExchangeError(m) => m.clone(),
            UserManagerError::UpstreamError(m) => m.clone(),
        }
    }

    /// The message as a sequence of characters.
    pub open spec fn spec_message(&self) -> Seq<char> {
        match self {
            UserManagerError::TokenError(m) => m@,
            UserManagerError::AuthenticationError(m) => m@,
            UserManagerError::ValidationError(m) => m@,
            UserManagerError::ConflictError(m) => m@,
            UserManagerError::DelegationError(m) => m@,
            UserManagerError::ExchangeError(m) => m@,
            UserManagerError::UpstreamError(m) => m@,
        }
    }

    /// The HTTP status code with which this error is reported: validation
    /// failures are 400, authentication and delegation-state failures are
    /// 401, duplicate usernames are 500, a rejected provider exchange is
    /// 501, and upstream failures are 500.
    pub fn status_code(&self) -> (r: u16)
        ensures
            r == self.spec_status_code(),
    {
        match self {
            UserManagerError::TokenError(_) => 401,
            UserManagerError::AuthenticationError(_) => 401,
            UserManagerError::ValidationError(_) => 400,
            UserManagerError::ConflictError(_) => 500,
            UserManagerError::DelegationError(_) => 401,
            UserManagerError::ExchangeError(_) => 501,
            UserManagerError::UpstreamError(_) => 500,
        }
    }

    pub open spec fn spec_status_code(&self) -> u16 {
        match self {
            UserManagerError::TokenError(_) => 401,
            UserManagerError::AuthenticationError(_) => 401,
            UserManagerError::ValidationError(_) => 400,
            UserManagerError::ConflictError(_) => 500,
            UserManagerError::DelegationError(_) => 401,
            UserManagerError::ExchangeError(_) => 501,
            UserManagerError::UpstreamError(_) => 500,
        }
    }
}

/// Error raised by the user store.
#[derive(Debug)]
pub struct DatabaseError {
    message: String,
}

impl DatabaseError {
    pub fn new(message: String) -> (r: DatabaseError)
        ensures
            r@ == message@,
    {
        DatabaseError { message }
    }

    pub fn get_message(&self) -> (r: String)
        ensures
            r@ == self@,
    {
        self.message.clone()
    }
}

impl View for DatabaseError {
    type V = Seq<char>;

    closed spec fn view(&self) -> Seq<char> {
        self.message@
    }
}

/// Error raised by the media downloader pool; the pool itself performs
/// network transfers and lives outside this library.
#[derive(Debug)]
pub enum DownloaderError {
    PoolError(String),
    RequestError(String),
    ApiError(String),
}

} // verus!
