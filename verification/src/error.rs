use vstd::prelude::*;
use vstd::string::StringExecFns;

use crate::auth::error::AuthError;
use crate::user::error::UserError;

verus! {

/// Top-level failure type handed back to the HTTP boundary.
#[derive(Debug, Clone, PartialEq, Eq)]
pub enum AppError {
    AuthError(AuthError),
    UserError(UserError),
    Unexpected,
    JwtError(String),
    NetworkError(String),
}

/// The HTTP status class of each failure: protocol errors are client-class
/// (400/401), upstream-dependency errors are 502, persistence and
/// token-creation errors are 500, and a missing user is 404.
/// Token-processing failures (a bad signature or shape during
/// verification) are client-class too: they answer 401, an invalid
/// credential, deliberately indistinguishable from an expired one.
pub open spec fn spec_status_code(e: AppError) -> u16 {
    match e {
        AppError::AuthError(a) => match a {
            AuthError::InvalidToken => 400,
            AuthError::AuthenticationFailed(_) => 401,
            AuthError::DatabaseError(_) => 500,
            AuthError::NetworkError(_) => 502,
            AuthError::JwtCreationFailed(_) => 500,
            AuthError::JwtError(_) => 401,
            AuthError::TokenExchangeError(_) => 400,
            AuthError::InvalidTokenError(_) => 400,
            AuthError::OAuth2RequestTokenError(_) => 400,
        },
        AppError::UserError(u) => match u {
            UserError::UserNotFound => 404,
            UserError::InvalidUserData(_) => 400,
            UserError::DatabaseError(_) => 500,
            UserError::Unauthorized => 401,
        },
        AppError::Unexpected => 500,
        AppError::JwtError(_) => 401,
        AppError::NetworkError(_) => 502,
    }
}

/// The sanitized, client-facing message for each failure: fixed category
/// text. Raw provider payloads, database detail and token-processing
/// detail are kept for logging and never returned to the caller.
pub open spec fn spec_error_message(e: AppError) -> Seq<char> {
    match e {
        AppError::AuthError(a) => match a {
            AuthError::InvalidToken => "Invalid token"@,
            AuthError::AuthenticationFailed(p) => "Authentication failed with provider "@ + p@,
            AuthError::DatabaseError(_) => "Database interaction failed"@,
            AuthError::NetworkError(_) => "Network error occurred"@,
            AuthError::JwtCreationFailed(_) => "JWT creation failed"@,
            AuthError::JwtError(_) => "JWT processing error"@,
            AuthError::TokenExchangeError(_) => "Token exchange failed"@,
            AuthError::InvalidTokenError(_) => "Invalid token"@,
            AuthError::OAuth2RequestTokenError(_) => "OAuth2 request token error"@,
        },
        AppError::UserError(u) => match u {
            UserError::UserNotFound => "User not found"@,
            UserError::InvalidUserData(m) => "Invalid user data: "@ + m@,
            UserError::DatabaseError(_) => "Database error in user operation"@,
            UserError::Unauthorized => "Unauthorized access attempt"@,
        },
        AppError::Unexpected => "An unexpected error occurred"@,
        AppError::JwtError(_) => "JWT error encountered"@,
        AppError::NetworkError(_) => "Network error occurred"@,
    }
}

impl AppError {
    /// The numeric HTTP status code for this failure.
    pub fn status_code(&self) -> (code: u16)
        ensures
            code == spec_status_code(*self),
    {
        match self {
            AppError::AuthError(a) => match a {
                AuthError::InvalidToken => 400,
                AuthError::AuthenticationFailed(_) => 401,
                AuthError::DatabaseError(_) => 500,
                AuthError::NetworkError(_) => 502,
                AuthError::JwtCreationFailed(_) => 500,
                AuthError::JwtError(_) => 401,
                AuthError::TokenExchangeError(_) => 400,
                AuthError::InvalidTokenError(_) => 400,
                AuthError::OAuth2RequestTokenError(_) => 400,
            },
            AppError::UserError(u) => match u {
                UserError::UserNotFound => 404,
                UserError::InvalidUserData(_) => 400,
                UserError::DatabaseError(_) => 500,
                UserError::Unauthorized => 401,
            },
            AppError::Unexpected => 500,
            AppError::JwtError(_) => 401,
            AppError::NetworkError(_) => 502,
        }
    }

    /// The sanitized message for the structured error payload returned to
    /// the client.
    pub fn error_message(&self) -> (msg: String)
        ensures
            msg@ == spec_error_message(*self),
    {
        match self {
            AppError::AuthError(a) => match a {
                AuthError::InvalidToken => "Invalid token".to_owned(),
                AuthError::AuthenticationFailed(p) => {
                    let mut s = "Authentication failed with provider ".to_owned();
                    s.append(p.as_str());
                    s
                },
                AuthError::DatabaseError(_) => "Database interaction failed".to_owned(),
                AuthError::NetworkError(_) => "Network error occurred".to_owned(),
                AuthError::JwtCreationFailed(_) => "JWT creation failed".to_owned(),
                AuthError::JwtError(_) => "JWT processing error".to_owned(),
                AuthError::TokenExchangeError(_) => "Token exchange failed".to_owned(),
                AuthError::InvalidTokenError(_) => "Invalid token".to_owned(),
                AuthError::OAuth2RequestTokenError(_) => "OAuth2 request token error".to_owned(),
            },
            AppError::UserError(u) => match u {
                UserError::UserNotFound => "User not found".to_owned(),
                UserError::InvalidUserData(m) => {
                    let mut s = "Invalid user data: ".to_owned();
                    s.append(m.as_str());
                    s
                },
                UserError::DatabaseError(_) => "Database error in user operation".to_owned(),
                UserError::Unauthorized => "Unauthorized access attempt".to_owned(),
            },
            AppError::Unexpected => "An unexpected error occurred".to_owned(),
            AppError::JwtError(_) => "JWT error encountered".to_owned(),
            AppError::NetworkError(_) => "Network error occurred".to_owned(),
        }
    }
}

} // verus!
