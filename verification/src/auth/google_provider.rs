use vstd::prelude::*;

use crate::auth::models::Profile;

verus! {

/// `p` is a prefix of `s`.
pub open spec fn starts_with(s: Seq<char>, p: Seq<char>) -> bool {
    p.len() <= s.len() && s.subrange(0, p.len() as int) == p
}

/// `sub` occurs somewhere in `s`.
pub open spec fn contains_sub(s: Seq<char>, sub: Seq<char>) -> bool {
    exists|k: int| 0 <= k <= s.len() - sub.len() && #[trigger] s.subrange(k, k + sub.len()) == sub
}

/// Text that the form-urlencoded serializer passes through unchanged:
/// ASCII alphanumerics and `*`, `-`, `.`, `_`. A query value made only of
/// these appears in the serialized query verbatim.
pub open spec fn form_urlencoded_safe(s: Seq<char>) -> bool {
    forall|i: int|
        0 <= i < s.len() ==> {
            ||| '0' <= #[trigger] s[i] <= '9'
            ||| 'a' <= s[i] <= 'z'
            ||| 'A' <= s[i] <= 'Z'
            ||| s[i] == '*'
            ||| s[i] == '-'
            ||| s[i] == '.'
            ||| s[i] == '_'
        }
}

/// Google's authorization endpoint, which every authorization URL this
/// provider builds extends with query parameters.
pub open spec fn google_auth_endpoint() -> Seq<char> {
    "https://accounts.google.com/o/oauth2/v2/auth"@
}

/// Whether a string is a parseable redirect URL. Names the success
/// condition of the url crate's parser (behind oauth2::RedirectUrl::new),
/// which depends on the text alone; spelling the grammar out would take
/// pages.
pub uninterp spec fn url_ok(s: Seq<char>) -> bool;

/// Relies on the oauth2 crate's authorization-URL construction
/// (BasicClient::authorize_url followed by AuthorizationRequest::url). The
/// call fails exactly when the redirect URI does not parse (the endpoint
/// literal always parses, and nothing else can fail). On success the
/// result is the parsed endpoint with the query appended after a `?`: it
/// always carries `response_type=code`, the three scopes joined and
/// form-encoded, the offline-access and forced-consent parameters, the
/// `client_id` and `redirect_uri` parameters, and the freshly drawn
/// anti-forgery token as the `state` value (base64url text, which
/// form-encoding leaves unchanged). A client id of form-safe text likewise
/// appears verbatim; the redirect URI's value is percent-encoded, so only
/// its presence is stated. The token itself is random, so nothing more is
/// promised of it.
#[verifier::external_body]
fn google_authorize_url(client_id: &str, redirect_uri: &str) -> (r: Result<
    (String, String),
    String,
>)
    ensures
        r is Ok <==> url_ok(redirect_uri@),
        r matches Ok(p) ==> p.0@.len() > google_auth_endpoint().len() && starts_with(
            p.0@,
            google_auth_endpoint(),
        ) && contains_sub(p.0@, "response_type=code"@) && contains_sub(
            p.0@,
            "scope=email+profile+openid"@,
        ) && contains_sub(p.0@, "access_type=offline"@) && contains_sub(p.0@, "prompt=consent"@)
            && contains_sub(p.0@, "state="@ + p.1@) && contains_sub(p.0@, "client_id="@)
            && contains_sub(p.0@, "redirect_uri="@) && (form_urlencoded_safe(client_id@)
            ==> contains_sub(p.0@, "client_id="@ + client_id@)),
{
    let auth = oauth2::AuthUrl::new("https://accounts.google.com/o/oauth2/v2/auth".to_string())
        .map_err(|e| e.to_string())?;
    let redirect = oauth2::RedirectUrl::new(redirect_uri.to_string()).map_err(|e| e.to_string())?;
    let id = oauth2::ClientId::new(client_id.to_string());
    let client = oauth2::basic::BasicClient::new(id, None, auth, None).set_redirect_uri(redirect);
    let (url, csrf) = client.authorize_url(oauth2::CsrfToken::new_random)
        .add_scope(oauth2::Scope::new("email".to_string()))
        .add_scope(oauth2::Scope::new("profile".to_string()))
        .add_scope(oauth2::Scope::new("openid".to_string()))
        .add_extra_param("access_type", "offline")
        .add_extra_param("prompt", "consent")
        .url();
    Ok((url.to_string(), csrf.secret().clone()))
}

/// The Google adapter's pure half: authorization-URL construction, the
/// user-info response decision, and the provider identifier. The network
/// half — the code exchange and the profile fetch — lives with the
/// embedding application, which hands the results to the orchestrator's
/// port as plain values.
pub struct GoogleProvider {
    pub client_id: String,
    pub client_secret: String,
    pub redirect_uri: String,
}

impl GoogleProvider {
    pub fn new(client_id: String, client_secret: String, redirect_uri: String) -> (p: Self)
        ensures
            p.client_id == client_id,
            p.client_secret == client_secret,
            p.redirect_uri == redirect_uri,
    {
        GoogleProvider { client_id, client_secret, redirect_uri }
    }

    /// The URL the user is redirected to, requesting the email, profile and
    /// openid scopes plus offline access and forced consent (so a refresh
    /// token is granted even on repeat logins), and the fresh anti-forgery
    /// token the URL carries as its `state`. The query also carries the
    /// configured client id and redirect URI. Fails exactly when the
    /// configured redirect URI does not parse.
    pub fn get_authorization_url(&self) -> (r: Result<(String, String), String>)
        ensures
            r is Ok <==> url_ok(self.redirect_uri@),
            r matches Ok(p) ==> starts_with(p.0@, google_auth_endpoint()) && contains_sub(
                p.0@,
                "response_type=code"@,
            ) && contains_sub(p.0@, "scope=email+profile+openid"@) && contains_sub(
                p.0@,
                "access_type=offline"@,
            ) && contains_sub(p.0@, "prompt=consent"@) && contains_sub(p.0@, "state="@ + p.1@)
                && contains_sub(p.0@, "client_id="@) && contains_sub(p.0@, "redirect_uri="@) && (
            form_urlencoded_safe(self.client_id@) ==> contains_sub(
                p.0@,
                "client_id="@ + self.client_id@,
            )),
    {
        google_authorize_url(self.client_id.as_str(), self.redirect_uri.as_str())
    }

    /// Google's stable enumerated identifier in this system.
    pub fn provider_id(&self) -> (id: i32)
        ensures
            id == 1,
    {
        1
    }
}

/// Decides the outcome of a user-info fetch from the response's status
/// code and parsed fields: a 2xx response yields the profile exactly as
/// parsed, and any other status is a transport-class failure, whatever the
/// body held.
pub fn profile_from_response(
    status: u16,
    sub: Option<String>,
    given_name: Option<String>,
    email: Option<String>,
    picture: Option<String>,
) -> (r: Result<Profile, String>)
    ensures
        200 <= status < 300 ==> (r matches Ok(p) && p.sub == sub && p.given_name == given_name
            && p.email == email && p.picture == picture),
        !(200 <= status < 300) ==> (r matches Err(m) && m@
            == "user-info endpoint answered outside the success range"@),
{
    if 200 <= status && status < 300 {
        Ok(Profile { sub, given_name, email, picture })
    } else {
        Err("user-info endpoint answered outside the success range".to_owned())
    }
}

} // verus!
