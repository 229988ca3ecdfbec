use vstd::prelude::*;

verus! {

/// Failures of user lookup and user upsert.
#[derive(Debug, Clone, PartialEq, Eq)]
pub enum UserError {
    UserNotFound,
    InvalidUserData(String),
    DatabaseError(String),
    Unauthorized,
}

} // verus!
