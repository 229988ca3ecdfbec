use vstd::prelude::*;

use crate::auth::error::AuthError;
use crate::auth::models::{
    opt_int, AuthRecordView, OAuthAuthorization, OAuthAuthorizationBuilder, Profile, ProfileView,
    TokenBundle, TokenBundleView,
};
use crate::auth::ports::{spec_upsert, Provider, Repository};
use crate::auth::token::{jwt_token_of, JwtManager, SESSION_TTL_SECONDS};
use crate::clock::unix_now;
use crate::error::AppError;
use crate::user;
use crate::user::models::{User, UserBuilder, UserView};
use crate::user::ports::{find_user_by_email, lemma_find_user_from, merge_user};

verus! {

/// The failures that abort a login before anything could be persisted:
/// a rejected or re-used authorization code, a bundle without a refresh
/// token, a transport failure on the profile fetch, and a profile without
/// a subject. `oauth_login` guarantees that on these neither store moved.
pub open spec fn aborts_before_persistence(e: AppError) -> bool {
    ||| (e matches AppError::AuthError(a) && (a is TokenExchangeError || a is InvalidTokenError
        || a is AuthenticationFailed))
    ||| e is NetworkError
}

/// Every failure `oauth_login` can produce, per the error taxonomy:
/// protocol failures, the upstream network failure, a user-store failure,
/// a record-store failure, and a token-creation failure.
pub open spec fn possible_login_error(e: AppError) -> bool {
    ||| (e matches AppError::AuthError(a) && (a is TokenExchangeError || a is InvalidTokenError
        || a is AuthenticationFailed || a is DatabaseError || a is JwtCreationFailed))
    ||| e is NetworkError
    ||| e is UserError
}

/// Maps the outcome of the code exchange into the taxonomy: a failure
/// there means the code was invalid, expired or already used, the
/// client-class token-exchange kind.
pub fn map_exchange_result(r: Result<TokenBundle, String>) -> (m: Result<TokenBundle, AppError>)
    ensures
        r matches Ok(b) ==> (m matches Ok(b2) && b2 == b),
        r matches Err(s) ==> m == Err::<TokenBundle, AppError>(
            AppError::AuthError(AuthError::TokenExchangeError(s)),
        ),
{
    match r {
        Ok(b) => Ok(b),
        Err(s) => Err(AppError::AuthError(AuthError::TokenExchangeError(s))),
    }
}

/// Maps the outcome of the profile fetch into the taxonomy: a failure
/// there is the upstream network kind, distinct from client-class
/// protocol errors.
pub fn map_fetch_result(r: Result<Profile, String>) -> (m: Result<Profile, AppError>)
    ensures
        r matches Ok(p) ==> (m matches Ok(p2) && p2 == p),
        r matches Err(s) ==> m == Err::<Profile, AppError>(AppError::NetworkError(s)),
{
    match r {
        Ok(p) => Ok(p),
        Err(s) => Err(AppError::NetworkError(s)),
    }
}

/// Requires that the exchanged bundle carries a refresh token, proving the
/// provider was asked for, and granted, offline access. Its absence is a
/// hard failure of the invalid-token kind, even when everything else about
/// the bundle would do.
pub fn require_refresh_token(bundle: &TokenBundle) -> (r: Result<String, AppError>)
    ensures
        bundle.refresh_token matches Some(t) ==> (r matches Ok(rt) && rt@ == t@),
        bundle.refresh_token is None ==> (r matches Err(e) && e matches AppError::AuthError(a)
            && a is InvalidTokenError),
{
    match &bundle.refresh_token {
        Some(t) => Ok(t.clone()),
        None => Err(
            AppError::AuthError(
                AuthError::InvalidTokenError("No refresh token received".to_owned()),
            ),
        ),
    }
}

/// Extracts the provider-side subject identifier from the profile. Its
/// absence means the identity assertion is unusable and fails with the
/// authentication-failure kind, a client-visible bad request.
pub fn extract_provider_user_id(profile: &Profile) -> (r: Result<String, AppError>)
    ensures
        profile.sub matches Some(s) ==> (r matches Ok(id) && id@ == s@),
        profile.sub is None ==> (r matches Err(e) && e matches AppError::AuthError(a) && a
            is AuthenticationFailed),
{
    match &profile.sub {
        Some(s) => Ok(s.clone()),
        None => Err(
            AppError::AuthError(AuthError::AuthenticationFailed("User ID not found".to_owned())),
        ),
    }
}

/// The user-upsert request a profile maps to: the optional display fields
/// carried over unchanged, no identifier yet, both timestamps at the
/// completion instant.
pub open spec fn spec_profile_user(p: ProfileView, now: int) -> UserView {
    UserView {
        user_id: 0,
        email: p.email,
        name: p.given_name,
        avatar_url: p.picture,
        created_at: now,
        updated_at: now,
    }
}

/// Maps the optional profile fields into a best-effort user-upsert request:
/// absent fields are simply omitted, with no defaulting or validation.
pub fn user_from_profile(profile: &Profile, now: i64) -> (u: User)
    ensures
        u@ == spec_profile_user(profile@, now as int),
{
    let mut builder = UserBuilder::new();
    match &profile.given_name {
        Some(name) => {
            builder = builder.name(name.clone());
        },
        None => {},
    }
    match &profile.email {
        Some(email) => {
            builder = builder.email(email.clone());
        },
        None => {},
    }
    match &profile.picture {
        Some(picture) => {
            builder = builder.avatar_url(picture.clone());
        },
        None => {},
    }
    builder.created_at(now).updated_at(now).build()
}

/// The expiry instant recorded for a bundle: the completion instant plus
/// the provider-reported lifetime when one was reported and the sum is
/// representable, and nothing otherwise.
pub open spec fn spec_expiry(now: int, expires_in: Option<int>) -> Option<int> {
    match expires_in {
        Some(d) => if i64::MIN <= now + d <= i64::MAX {
            Some(now + d)
        } else {
            None
        },
        None => None,
    }
}

/// Builds the authorization record a completed login persists: keyed by
/// the provider and the provider-side subject, owned by the upserted local
/// user, carrying the bundle's tokens and scopes, stamped with the
/// completion instant.
pub fn build_authorization(
    user_id: i32,
    provider_id: i32,
    provider_user_id: String,
    access_token: String,
    refresh_token: String,
    expires_in: Option<i64>,
    scopes: Option<Vec<String>>,
    now: i64,
) -> (rec: OAuthAuthorization)
    ensures
        rec@ == (AuthRecordView {
            auth_id: 0,
            user_id: user_id as int,
            provider_id: provider_id as int,
            provider_user_id: provider_user_id@,
            access_token: access_token@,
            refresh_token: Some(refresh_token@),
            expires_in: spec_expiry(now as int, opt_int(expires_in)),
            scope: scopes.deep_view(),
            created_at: now as int,
            updated_at: now as int,
        }),
{
    let mut builder = OAuthAuthorizationBuilder::new()
        .user_id(user_id)
        .provider_id(provider_id)
        .provider_user_id(provider_user_id)
        .access_token(access_token)
        .refresh_token(refresh_token)
        .created_at(now)
        .updated_at(now);
    match expires_in {
        Some(d) => match now.checked_add(d) {
            Some(t) => {
                builder = builder.expires_in(t);
            },
            None => {},
        },
        None => {},
    }
    match scopes {
        Some(sc) => {
            builder = builder.scope(sc);
        },
        None => {},
    }
    builder.build()
}

/// The record a completed login persists for subject `p.sub`, owner `uid`
/// and provider `pid`, from the bundle `b` at instant `now`.
pub open spec fn spec_login_record(
    uid: int,
    pid: int,
    b: TokenBundleView,
    p: ProfileView,
    now: int,
) -> AuthRecordView {
    AuthRecordView {
        auth_id: 0,
        user_id: uid,
        provider_id: pid,
        provider_user_id: p.sub.unwrap(),
        access_token: b.access_token,
        refresh_token: b.refresh_token,
        expires_in: spec_expiry(now, b.expires_in),
        scope: b.scopes,
        created_at: now,
        updated_at: now,
    }
}

/// How the user store moves when the profile-mapped request is upserted
/// and the stored user's identifier is `uid`: merged in place when a user
/// with the profile's email exists, appended with a fresh identifier
/// otherwise.
pub open spec fn spec_user_upserted(
    users0: Seq<UserView>,
    users1: Seq<UserView>,
    p: ProfileView,
    now: int,
    uid: int,
) -> bool {
    let req = spec_profile_user(p, now);
    let i = find_user_by_email(users0, p.email);
    &&& (i >= 0 ==> users1 == users0.update(i, merge_user(users0[i], req)) && uid
        == users0[i].user_id)
    &&& (i == -1 ==> users1 == users0.push(UserView { user_id: uid, ..req }) && (forall|j: int|
        0 <= j < users0.len() ==> users0[j].user_id != uid))
}

/// Some stored user carries the identifier `uid`.
pub open spec fn user_stored(users: Seq<UserView>, uid: int) -> bool {
    exists|j: int| 0 <= j < users.len() && (#[trigger] users[j]).user_id == uid
}

/// A completed identity link: the user store moved by the profile-mapped
/// upsert yielding owner `uid`, and the record store by the upsert of the
/// login record for that owner.
pub open spec fn spec_identity_linked(
    users0: Seq<UserView>,
    users1: Seq<UserView>,
    records0: Seq<AuthRecordView>,
    records1: Seq<AuthRecordView>,
    pid: int,
    b: TokenBundleView,
    p: ProfileView,
    now: int,
    uid: int,
) -> bool {
    &&& spec_user_upserted(users0, users1, p, now, uid)
    &&& records1 == spec_upsert(records0, spec_login_record(uid, pid, b, p, now))
}

/// The orchestrator of the login flow. It owns no flow state across calls:
/// each call runs one flow from start to finish against the injected
/// provider, stores and token codec.
pub struct AppService<P: Provider, R: Repository, U: user::ports::Repository> {
    pub provider: P,
    pub repo: R,
    pub user_service: user::app_service::AppService<U>,
    pub jwt_manager: JwtManager,
}

impl<P: Provider, R: Repository, U: user::ports::Repository> AppService<P, R, U> {
    pub fn new(
        provider: P,
        repo: R,
        user_service: user::app_service::AppService<U>,
        jwt_manager: JwtManager,
    ) -> (s: Self)
        ensures
            s.provider == provider,
            s.repo == repo,
            s.user_service == user_service,
            s.jwt_manager == jwt_manager,
    {
        Self { provider, repo, user_service, jwt_manager }
    }

    /// Initiates the OAuth flow: hands back the provider's authorization
    /// URL for the client to be redirected to. Never fails, and the
    /// returned string is the URL the provider built around some
    /// anti-forgery token.
    ///
    /// Known risk: that token is discarded here and never validated on the
    /// callback, so the flow carries no CSRF protection. Persisting and
    /// checking the token would be a behavior change and is deliberately
    /// not done silently.
    pub fn initiate_oauth(&self) -> (r: Result<String, AppError>)
        ensures
            r is Ok,
            r matches Ok(u) ==> exists|state: Seq<char>| u@ == #[trigger] self.provider.url_of(
                state,
            ),
    {
        let (auth_url, csrf_token) = self.provider.get_authorization_url();
        proof {
            assert(auth_url@ == self.provider.url_of(csrf_token@));
        }
        Ok(auth_url)
    }

    /// Links a fetched identity and issues the session token: extracts the
    /// provider-side subject, upserts the local user mapped from the
    /// profile, persists the authorization record keyed by that subject
    /// and carrying the bundle's tokens, and mints a token bound to the
    /// local user. It takes the provider's results as plain values, so
    /// each outcome is stated exactly over them.
    pub fn link_identity(&mut self, bundle: TokenBundle, profile: Profile, now: i64) -> (r: Result<
        String,
        AppError,
    >)
        requires
            old(self).user_service.repo.inv(),
            bundle.refresh_token is Some,
        ensures
            final(self).user_service.repo.inv(),
            final(self).jwt_manager == old(self).jwt_manager,
            final(self).provider == old(self).provider,
            (profile.sub is None) <==> (r matches Err(e) && e matches AppError::AuthError(a) && a
                is AuthenticationFailed),
            r matches Err(e) ==> (e is UserError || (e matches AppError::AuthError(a) && (a
                is AuthenticationFailed || a is DatabaseError || a is JwtCreationFailed))),
            r matches Err(e) && (e is UserError || e matches AppError::AuthError(
                AuthError::AuthenticationFailed(_),
            ))
                ==> final(self).repo.records() == old(self).repo.records()
                    && final(self).user_service.repo.users() == old(self).user_service.repo.users(),
            r matches Err(e) && e matches AppError::AuthError(a) && a is DatabaseError
                ==> final(self).repo.records() == old(self).repo.records() && (exists|uid: int|
                #[trigger] spec_user_upserted(
                    old(self).user_service.repo.users(),
                    final(self).user_service.repo.users(),
                    profile@,
                    now as int,
                    uid,
                )),
            r matches Err(e) && e matches AppError::AuthError(a) && a is JwtCreationFailed ==> (
            exists|uid: int|
                #[trigger] spec_identity_linked(
                    old(self).user_service.repo.users(),
                    final(self).user_service.repo.users(),
                    old(self).repo.records(),
                    final(self).repo.records(),
                    old(self).provider.spec_provider_id() as int,
                    bundle@,
                    profile@,
                    now as int,
                    uid,
                )),
            r matches Ok(token) ==> (exists|uid: int, exp: int|
                {
                    &&& #[trigger] spec_identity_linked(
                        old(self).user_service.repo.users(),
                        final(self).user_service.repo.users(),
                        old(self).repo.records(),
                        final(self).repo.records(),
                        old(self).provider.spec_provider_id() as int,
                        bundle@,
                        profile@,
                        now as int,
                        uid,
                    )
                    &&& user_stored(final(self).user_service.repo.users(), uid)
                    &&& SESSION_TTL_SECONDS <= exp <= i64::MAX
                    &&& token@ == #[trigger] jwt_token_of(
                        old(self).jwt_manager.secret@,
                        uid,
                        exp,
                    )
                }),
    {
        let provider_user_id = match extract_provider_user_id(&profile) {
            Ok(s) => s,
            Err(e) => {
                return Err(e);
            },
        };
        let refresh_token = match &bundle.refresh_token {
            Some(t) => t.clone(),
            None => unreached(),
        };
        let user_request = user_from_profile(&profile, now);
        let user = match self.user_service.upsert_user(&user_request) {
            Ok(u) => u,
            Err(e) => {
                return Err(e);
            },
        };
        let ghost uid = user.user_id as int;
        proof {
            assert(spec_user_upserted(
                old(self).user_service.repo.users(),
                self.user_service.repo.users(),
                profile@,
                now as int,
                uid,
            ));
        }
        let record = build_authorization(
            user.user_id,
            self.provider.provider_id(),
            provider_user_id,
            bundle.access_token,
            refresh_token,
            bundle.expires_in,
            bundle.scopes,
            now,
        );
        proof {
            assert(record@ == spec_login_record(
                uid,
                old(self).provider.spec_provider_id() as int,
                bundle@,
                profile@,
                now as int,
            ));
        }
        match self.repo.upsert_oauth(&record) {
            Ok(_) => {},
            Err(e) => {
                proof {
                    assert(spec_user_upserted(
                        old(self).user_service.repo.users(),
                        self.user_service.repo.users(),
                        profile@,
                        now as int,
                        uid,
                    ));
                }
                return Err(AppError::AuthError(e));
            },
        }
        match self.jwt_manager.create_jwt(user.user_id) {
            Ok(token) => {
                proof {
                    let users0 = old(self).user_service.repo.users();
                    let users1 = self.user_service.repo.users();
                    let i = find_user_by_email(users0, profile@.email);
                    match profile@.email {
                        Some(e) => lemma_find_user_from(users0, e, 0),
                        None => (),
                    }
                    if i >= 0 {
                        assert(users1[i].user_id == uid);
                    } else {
                        assert(i == -1);
                        assert(users1[users0.len() as int].user_id == uid);
                    }
                    assert(user_stored(users1, uid));
                }
                Ok(token)
            },
            Err(e) => {
                proof {
                    assert(spec_identity_linked(
                        old(self).user_service.repo.users(),
                        self.user_service.repo.users(),
                        old(self).repo.records(),
                        self.repo.records(),
                        old(self).provider.spec_provider_id() as int,
                        bundle@,
                        profile@,
                        now as int,
                        uid,
                    ));
                }
                Err(AppError::AuthError(e))
            },
        }
    }

    /// Completes a login: exchanges the authorization code, requires a
    /// refresh token, fetches the profile, and hands the results to
    /// `link_identity`, which upserts the local user, persists the
    /// authorization record and mints the session token.
    ///
    /// Failures follow the taxonomy (`possible_login_error`), every step's
    /// failure aborts the flow immediately, and no protocol or upstream
    /// failure leaves any persistence side effect. The kind each step's
    /// failure maps to is stated exactly one call down, at
    /// `map_exchange_result`, `require_refresh_token`, `map_fetch_result`
    /// and `link_identity`.
    pub fn oauth_login(&mut self, auth_code: String) -> (r: Result<String, AppError>)
        requires
            old(self).user_service.repo.inv(),
        ensures
            final(self).user_service.repo.inv(),
            final(self).jwt_manager == old(self).jwt_manager,
            final(self).provider.spec_provider_id() == old(self).provider.spec_provider_id(),
            r matches Err(e) ==> possible_login_error(e),
            r matches Err(e) && aborts_before_persistence(e)
                ==> final(self).repo.records() == old(self).repo.records()
                    && final(self).user_service.repo.users() == old(self).user_service.repo.users(),
            r matches Err(e) && e is UserError
                ==> final(self).repo.records() == old(self).repo.records()
                    && final(self).user_service.repo.users() == old(self).user_service.repo.users(),
            r matches Err(e) && e matches AppError::AuthError(a) && a is DatabaseError
                ==> final(self).repo.records() == old(self).repo.records(),
            r matches Err(e) && e matches AppError::AuthError(a) && a is JwtCreationFailed ==> (
            exists|rec: AuthRecordView|
                #[trigger] spec_upsert(old(self).repo.records(), rec) == final(self).repo.records()
                    && rec.provider_id == old(self).provider.spec_provider_id() as int
                    && rec.refresh_token is Some),
            r matches Ok(token) ==> (exists|rec: AuthRecordView, exp: int|
                {
                    &&& #[trigger] spec_upsert(old(self).repo.records(), rec)
                        == final(self).repo.records()
                    &&& rec.provider_id == old(self).provider.spec_provider_id() as int
                    &&& rec.refresh_token is Some
                    &&& user_stored(final(self).user_service.repo.users(), rec.user_id)
                    &&& SESSION_TTL_SECONDS <= exp <= i64::MAX
                    &&& token@ == #[trigger] jwt_token_of(
                        old(self).jwt_manager.secret@,
                        rec.user_id,
                        exp,
                    )
                }),
    {
        let now = unix_now();
        let bundle = match map_exchange_result(self.provider.exchange_token(auth_code.as_str())) {
            Ok(b) => b,
            Err(e) => {
                return Err(e);
            },
        };
        let _refresh_token = match require_refresh_token(&bundle) {
            Ok(t) => t,
            Err(e) => {
                return Err(e);
            },
        };
        let profile = match map_fetch_result(
            self.provider.fetch_user_info(bundle.access_token.as_str()),
        ) {
            Ok(p) => p,
            Err(e) => {
                return Err(e);
            },
        };
        let ghost users0 = self.user_service.repo.users();
        let ghost records0 = self.repo.records();
        let ghost pid = self.provider.spec_provider_id() as int;
        let ghost secret = self.jwt_manager.secret@;
        let r = self.link_identity(bundle, profile, now);
        proof {
            if r is Ok {
                let (uid, exp) = choose|uid: int, exp: int|
                    {
                        &&& #[trigger] spec_identity_linked(
                            users0,
                            self.user_service.repo.users(),
                            records0,
                            self.repo.records(),
                            pid,
                            bundle@,
                            profile@,
                            now as int,
                            uid,
                        )
                        &&& user_stored(self.user_service.repo.users(), uid)
                        &&& SESSION_TTL_SECONDS <= exp <= i64::MAX
                        &&& r matches Ok(token) && token@ == #[trigger] jwt_token_of(
                            secret,
                            uid,
                            exp,
                        )
                    };
                let rec = spec_login_record(uid, pid, bundle@, profile@, now as int);
                assert(spec_upsert(old(self).repo.records(), rec) == self.repo.records());
                assert(rec.refresh_token is Some);
                assert(rec.user_id == uid && rec.provider_id == pid);
                assert(user_stored(self.user_service.repo.users(), rec.user_id));
                assert(r matches Ok(token) ==> token@ == jwt_token_of(
                    old(self).jwt_manager.secret@,
                    rec.user_id,
                    exp,
                ));
            }
            if r matches Err(AppError::AuthError(AuthError::JwtCreationFailed(_))) {
                let uid = choose|uid: int|
                    #[trigger] spec_identity_linked(
                        users0,
                        self.user_service.repo.users(),
                        records0,
                        self.repo.records(),
                        pid,
                        bundle@,
                        profile@,
                        now as int,
                        uid,
                    );
                let rec = spec_login_record(uid, pid, bundle@, profile@, now as int);
                assert(spec_upsert(old(self).repo.records(), rec) == self.repo.records());
            }
        }
        r
    }
}

} // verus!
