use vstd::prelude::*;

verus! {

/// Failures of the OAuth flow and of session-token handling.
///
/// Payloads carry the underlying failure's message; raw provider or
/// database detail is kept for logging and never shown to a client
/// (see `crate::error::AppError::error_message`).
#[derive(Debug, Clone, PartialEq, Eq)]
pub enum AuthError {
    InvalidToken,
    AuthenticationFailed(String),
    DatabaseError(String),
    NetworkError(String),
    JwtCreationFailed(String),
    JwtError(String),
    TokenExchangeError(String),
    InvalidTokenError(String),
    OAuth2RequestTokenError(String),
}

} // verus!
