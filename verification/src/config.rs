use vstd::prelude::*;

verus! {

/// Process configuration, loaded at startup by the embedding application:
/// provider credentials, the redirect host, the database connection string,
/// and the session-signing secret.
pub struct Config {
    pub google_client_id: String,
    pub google_client_secret: String,
    pub domain: String,
    pub database_url: String,
    pub jwt_secret: String,
}

} // verus!
