use vstd::prelude::*;

use crate::clock::unix_now;

verus! {

/// A provider row: the stable numeric identifier and display name of an
/// OAuth provider known to the system.
pub struct OAuthProvider {
    pub provider_id: i32,
    pub name: String,
}

/// The view of an optional bounded integer as an optional unbounded one.
pub open spec fn opt_int(o: Option<i64>) -> Option<int> {
    match o {
        Some(v) => Some(v as int),
        None => None,
    }
}

/// Mathematical view of an `OAuthAuthorization`: strings as character
/// sequences and integers unbounded.
pub ghost struct AuthRecordView {
    pub auth_id: int,
    pub user_id: int,
    pub provider_id: int,
    pub provider_user_id: Seq<char>,
    pub access_token: Seq<char>,
    pub refresh_token: Option<Seq<char>>,
    pub expires_in: Option<int>,
    pub scope: Option<Seq<Seq<char>>>,
    pub created_at: int,
    pub updated_at: int,
}

/// One (local user, external identity) binding, carrying the identity's
/// current tokens. The provider-side subject (`provider_user_id`) is the
/// store's conflict key: it identifies at most one record, so
/// re-authentication updates rather than duplicates (see `spec_upsert` in
/// `crate::auth::ports`).
///
/// Timestamps are whole seconds since the Unix epoch.
#[derive(Debug, Clone)]
pub struct OAuthAuthorization {
    pub auth_id: i32,
    pub user_id: i32,
    pub provider_id: i32,
    pub provider_user_id: String,
    pub access_token: String,
    pub refresh_token: Option<String>,
    pub expires_in: Option<i64>,
    pub scope: Option<Vec<String>>,
    pub created_at: i64,
    pub updated_at: i64,
}

impl View for OAuthAuthorization {
    type V = AuthRecordView;

    open spec fn view(&self) -> AuthRecordView {
        AuthRecordView {
            auth_id: self.auth_id as int,
            user_id: self.user_id as int,
            provider_id: self.provider_id as int,
            provider_user_id: self.provider_user_id@,
            access_token: self.access_token@,
            refresh_token: self.refresh_token.deep_view(),
            expires_in: opt_int(self.expires_in),
            scope: self.scope.deep_view(),
            created_at: self.created_at as int,
            updated_at: self.updated_at as int,
        }
    }
}

impl OAuthAuthorization {
    /// A copy of the record, equal at the view level.
    pub fn duplicate(&self) -> (r: Self)
        ensures
            r@ == self@,
    {
        OAuthAuthorization {
            auth_id: self.auth_id,
            user_id: self.user_id,
            provider_id: self.provider_id,
            provider_user_id: self.provider_user_id.clone(),
            access_token: self.access_token.clone(),
            refresh_token: crate::clone_opt_string(&self.refresh_token),
            expires_in: self.expires_in,
            scope: crate::clone_opt_string_vec(&self.scope),
            created_at: self.created_at,
            updated_at: self.updated_at,
        }
    }
}

/// Mathematical view of a `TokenBundle`.
pub ghost struct TokenBundleView {
    pub access_token: Seq<char>,
    pub refresh_token: Option<Seq<char>>,
    pub expires_in: Option<int>,
    pub scopes: Option<Seq<Seq<char>>>,
}

/// What a successful code-for-token exchange hands back: the access token,
/// an optional refresh token, an optional lifetime (seconds from the
/// exchange instant), and the optionally reported granted scopes.
#[derive(Debug, Clone)]
pub struct TokenBundle {
    pub access_token: String,
    pub refresh_token: Option<String>,
    pub expires_in: Option<i64>,
    pub scopes: Option<Vec<String>>,
}

impl View for TokenBundle {
    type V = TokenBundleView;

    open spec fn view(&self) -> TokenBundleView {
        TokenBundleView {
            access_token: self.access_token@,
            refresh_token: self.refresh_token.deep_view(),
            expires_in: opt_int(self.expires_in),
            scopes: self.scopes.deep_view(),
        }
    }
}

impl TokenBundle {
    /// A copy of the bundle, equal at the view level.
    pub fn duplicate(&self) -> (r: Self)
        ensures
            r@ == self@,
    {
        TokenBundle {
            access_token: self.access_token.clone(),
            refresh_token: crate::clone_opt_string(&self.refresh_token),
            expires_in: self.expires_in,
            scopes: crate::clone_opt_string_vec(&self.scopes),
        }
    }
}

/// Mathematical view of a `Profile`.
pub ghost struct ProfileView {
    pub sub: Option<Seq<char>>,
    pub given_name: Option<Seq<char>>,
    pub email: Option<Seq<char>>,
    pub picture: Option<Seq<char>>,
}

/// The normalized subset of the provider-returned identity claims that the
/// flow reads: the provider-side subject identifier and the best-effort
/// display fields. Each field is present only if the provider asserted it.
#[derive(Debug, Clone)]
pub struct Profile {
    pub sub: Option<String>,
    pub given_name: Option<String>,
    pub email: Option<String>,
    pub picture: Option<String>,
}

impl View for Profile {
    type V = ProfileView;

    open spec fn view(&self) -> ProfileView {
        ProfileView {
            sub: self.sub.deep_view(),
            given_name: self.given_name.deep_view(),
            email: self.email.deep_view(),
            picture: self.picture.deep_view(),
        }
    }
}

impl Profile {
    /// A copy of the profile, equal at the view level.
    pub fn duplicate(&self) -> (r: Self)
        ensures
            r@ == self@,
    {
        Profile {
            sub: crate::clone_opt_string(&self.sub),
            given_name: crate::clone_opt_string(&self.given_name),
            email: crate::clone_opt_string(&self.email),
            picture: crate::clone_opt_string(&self.picture),
        }
    }
}

/// Optional-field construction of an `OAuthAuthorization`; fields left
/// unset fall back to explicit defaults at `build` time.
pub struct OAuthAuthorizationBuilder {
    pub auth_id: Option<i32>,
    pub user_id: Option<i32>,
    pub provider_id: Option<i32>,
    pub provider_user_id: Option<String>,
    pub access_token: Option<String>,
    pub refresh_token: Option<String>,
    pub expires_in: Option<i64>,
    pub scope: Option<Vec<String>>,
    pub created_at: Option<i64>,
    pub updated_at: Option<i64>,
}

impl OAuthAuthorizationBuilder {
    pub fn new() -> (b: Self)
        ensures
            b == (OAuthAuthorizationBuilder {
                auth_id: None,
                user_id: None,
                provider_id: None,
                provider_user_id: None,
                access_token: None,
                refresh_token: None,
                expires_in: None,
                scope: None,
                created_at: None,
                updated_at: None,
            }),
    {
        Self {
            auth_id: None,
            user_id: None,
            provider_id: None,
            provider_user_id: None,
            access_token: None,
            refresh_token: None,
            expires_in: None,
            scope: None,
            created_at: None,
            updated_at: None,
        }
    }

    pub fn auth_id(self, auth_id: i32) -> (b: Self)
        ensures
            b == (OAuthAuthorizationBuilder { auth_id: Some(auth_id), ..self }),
    {
        Self { auth_id: Some(auth_id), ..self }
    }

    pub fn user_id(self, user_id: i32) -> (b: Self)
        ensures
            b == (OAuthAuthorizationBuilder { user_id: Some(user_id), ..self }),
    {
        Self { user_id: Some(user_id), ..self }
    }

    pub fn provider_id(self, provider_id: i32) -> (b: Self)
        ensures
            b == (OAuthAuthorizationBuilder { provider_id: Some(provider_id), ..self }),
    {
        Self { provider_id: Some(provider_id), ..self }
    }

    pub fn provider_user_id(self, provider_user_id: String) -> (b: Self)
        ensures
            b == (OAuthAuthorizationBuilder { provider_user_id: Some(provider_user_id), ..self }),
    {
        Self { provider_user_id: Some(provider_user_id), ..self }
    }

    pub fn access_token(self, access_token: String) -> (b: Self)
        ensures
            b == (OAuthAuthorizationBuilder { access_token: Some(access_token), ..self }),
    {
        Self { access_token: Some(access_token), ..self }
    }

    pub fn refresh_token(self, refresh_token: String) -> (b: Self)
        ensures
            b == (OAuthAuthorizationBuilder { refresh_token: Some(refresh_token), ..self }),
    {
        Self { refresh_token: Some(refresh_token), ..self }
    }

    pub fn expires_in(self, expires_in: i64) -> (b: Self)
        ensures
            b == (OAuthAuthorizationBuilder { expires_in: Some(expires_in), ..self }),
    {
        Self { expires_in: Some(expires_in), ..self }
    }

    pub fn scope(self, scope: Vec<String>) -> (b: Self)
        ensures
            b == (OAuthAuthorizationBuilder { scope: Some(scope), ..self }),
    {
        Self { scope: Some(scope), ..self }
    }

    pub fn created_at(self, created_at: i64) -> (b: Self)
        ensures
            b == (OAuthAuthorizationBuilder { created_at: Some(created_at), ..self }),
    {
        Self { created_at: Some(created_at), ..self }
    }

    pub fn updated_at(self, updated_at: i64) -> (b: Self)
        ensures
            b == (OAuthAuthorizationBuilder { updated_at: Some(updated_at), ..self }),
    {
        Self { updated_at: Some(updated_at), ..self }
    }

    /// Finalizes the record. Identifiers default to 0, string fields to
    /// empty, and the timestamps to the current clock when unset; the
    /// optional token, expiry and scope fields stay as set.
    pub fn build(self) -> (r: OAuthAuthorization)
        ensures
            r@.auth_id == (match self.auth_id {
                Some(v) => v as int,
                None => 0,
            }),
            r@.user_id == (match self.user_id {
                Some(v) => v as int,
                None => 0,
            }),
            r@.provider_id == (match self.provider_id {
                Some(v) => v as int,
                None => 0,
            }),
            r@.provider_user_id == (match self.provider_user_id {
                Some(s) => s@,
                None => Seq::<char>::empty(),
            }),
            r@.access_token == (match self.access_token {
                Some(s) => s@,
                None => Seq::<char>::empty(),
            }),
            r@.refresh_token == self.refresh_token.deep_view(),
            r@.expires_in == opt_int(self.expires_in),
            r@.scope == self.scope.deep_view(),
            self.created_at matches Some(t) ==> r@.created_at == t as int,
            self.updated_at matches Some(t) ==> r@.updated_at == t as int,
    {
        let created_at = match self.created_at {
            Some(t) => t,
            None => unix_now(),
        };
        let updated_at = match self.updated_at {
            Some(t) => t,
            None => unix_now(),
        };
        OAuthAuthorization {
            auth_id: match self.auth_id {
                Some(v) => v,
                None => 0,
            },
            user_id: match self.user_id {
                Some(v) => v,
                None => 0,
            },
            provider_id: match self.provider_id {
                Some(v) => v,
                None => 0,
            },
            provider_user_id: match self.provider_user_id {
                Some(s) => s,
                None => String::new(),
            },
            access_token: match self.access_token {
                Some(s) => s,
                None => String::new(),
            },
            refresh_token: self.refresh_token,
            expires_in: self.expires_in,
            scope: self.scope,
            created_at,
            updated_at,
        }
    }
}

} // verus!
