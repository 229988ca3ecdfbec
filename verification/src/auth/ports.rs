use vstd::prelude::*;

use crate::auth::error::AuthError;
use crate::auth::models::{AuthRecordView, OAuthAuthorization, Profile, TokenBundle};

verus! {

/// Index of the first record at or after `i` whose provider-side subject
/// identifier is `key`, or -1 when there is none.
pub open spec fn find_subject_from(s: Seq<AuthRecordView>, key: Seq<char>, i: int) -> int
    decreases s.len() - i,
{
    if i < 0 || i >= s.len() {
        -1
    } else if s[i].provider_user_id == key {
        i
    } else {
        find_subject_from(s, key, i + 1)
    }
}

/// Index of the first record bound to the provider-side subject `key`, or
/// -1 when the identity is not linked yet.
pub open spec fn find_subject(s: Seq<AuthRecordView>, key: Seq<char>) -> int {
    find_subject_from(s, key, 0)
}

/// What `find_subject_from` returns: either no record at or after `i` has
/// the key, or the result is the first index that does.
pub proof fn lemma_find_subject_from(s: Seq<AuthRecordView>, key: Seq<char>, i: int)
    requires
        0 <= i <= s.len(),
    ensures
        find_subject_from(s, key, i) == -1 ==> forall|j: int|
            i <= j < s.len() ==> s[j].provider_user_id != key,
        find_subject_from(s, key, i) != -1 ==> {
            let r = find_subject_from(s, key, i);
            &&& i <= r < s.len()
            &&& s[r].provider_user_id == key
            &&& forall|j: int| i <= j < r ==> s[j].provider_user_id != key
        },
    decreases s.len() - i,
{
    if i < s.len() && s[i].provider_user_id != key {
        lemma_find_subject_from(s, key, i + 1);
    }
}

/// What `find_subject` returns, over the whole sequence.
pub proof fn lemma_find_subject(s: Seq<AuthRecordView>, key: Seq<char>)
    ensures
        find_subject(s, key) == -1 ==> forall|j: int|
            0 <= j < s.len() ==> s[j].provider_user_id != key,
        find_subject(s, key) != -1 ==> {
            let r = find_subject(s, key);
            &&& 0 <= r < s.len()
            &&& s[r].provider_user_id == key
            &&& forall|j: int| 0 <= j < r ==> s[j].provider_user_id != key
        },
{
    lemma_find_subject_from(s, key, 0);
}

/// The merge a re-authentication performs on the existing record for the
/// same identity: the current tokens, expiry, scopes and update-time are
/// replaced; ownership, identity and creation-time are kept.
pub open spec fn merge_record(orig: AuthRecordView, a: AuthRecordView) -> AuthRecordView {
    AuthRecordView {
        access_token: a.access_token,
        refresh_token: a.refresh_token,
        expires_in: a.expires_in,
        scope: a.scope,
        updated_at: a.updated_at,
        ..orig
    }
}

/// Upsert keyed by the provider-side subject identifier: the first record
/// with the same subject is merged in place; otherwise the record is
/// appended.
pub open spec fn spec_upsert(s: Seq<AuthRecordView>, a: AuthRecordView) -> Seq<AuthRecordView> {
    let i = find_subject(s, a.provider_user_id);
    if i >= 0 {
        s.update(i, merge_record(s[i], a))
    } else {
        s.push(a)
    }
}

/// The store invariant: a provider-side subject identifies at most one
/// record.
pub open spec fn unique_subjects(s: Seq<AuthRecordView>) -> bool {
    forall|i: int, j: int|
        0 <= i < j < s.len() ==> s[i].provider_user_id != s[j].provider_user_id
}

/// Law: completing a login links the identity and never duplicates it.
/// If each provider-side subject identified at most one record before an
/// upsert, the same holds after it, and the upserted subject is linked.
/// Together with `lemma_relogin_updates_in_place` this is identity-level
/// idempotence: any number of repeated logins for one subject leave
/// exactly one record for it.
pub proof fn lemma_upsert_preserves_uniqueness(s: Seq<AuthRecordView>, a: AuthRecordView)
    requires
        unique_subjects(s),
    ensures
        unique_subjects(spec_upsert(s, a)),
        find_subject(spec_upsert(s, a), a.provider_user_id) >= 0,
{
    lemma_find_subject(s, a.provider_user_id);
    let i = find_subject(s, a.provider_user_id);
    let t = spec_upsert(s, a);
    if i >= 0 {
        assert(forall|j: int| 0 <= j < t.len() ==> t[j].provider_user_id == s[j].provider_user_id);
        lemma_find_subject(t, a.provider_user_id);
        assert(t[i].provider_user_id == a.provider_user_id);
    } else {
        lemma_find_subject(t, a.provider_user_id);
        assert(t[s.len() as int].provider_user_id == a.provider_user_id);
    }
}

/// Law: a repeated login for an already-linked identity updates the
/// existing record in place. The row count is unchanged, the record keeps
/// its owner, identity and creation time, its tokens, expiry, scopes and
/// update time are replaced, and every other record is untouched.
pub proof fn lemma_relogin_updates_in_place(s: Seq<AuthRecordView>, a: AuthRecordView)
    requires
        find_subject(s, a.provider_user_id) >= 0,
    ensures
        ({
            let i = find_subject(s, a.provider_user_id);
            let t = spec_upsert(s, a);
            &&& t.len() == s.len()
            &&& t[i].access_token == a.access_token
            &&& t[i].refresh_token == a.refresh_token
            &&& t[i].expires_in == a.expires_in
            &&& t[i].scope == a.scope
            &&& t[i].updated_at == a.updated_at
            &&& t[i].auth_id == s[i].auth_id
            &&& t[i].user_id == s[i].user_id
            &&& t[i].provider_id == s[i].provider_id
            &&& t[i].provider_user_id == a.provider_user_id
            &&& t[i].created_at == s[i].created_at
            &&& forall|j: int| 0 <= j < s.len() && j != i ==> t[j] == s[j]
        }),
{
    lemma_find_subject(s, a.provider_user_id);
}

/// Capability over a remote OAuth2 identity provider: URL construction,
/// code-for-token exchange, and profile lookup. One implementation exists
/// per provider; the orchestrator is written against this port alone.
pub trait Provider: Sized {
    /// The provider's stable enumerated identifier, used as the foreign
    /// key in an `OAuthAuthorization`.
    spec fn spec_provider_id(&self) -> i32;

    /// The authorization URL this provider builds around a given
    /// anti-forgery token. The token is the only part of the URL left to
    /// chance, so the URL is a function of the provider and the token.
    spec fn url_of(&self, state: Seq<char>) -> Seq<char>;

    /// The URL the user is redirected to in order to authenticate, and the
    /// fresh anti-forgery token it was built around. The token is random,
    /// so nothing is promised of it; the call performs no network traffic.
    fn get_authorization_url(&self) -> (r: (String, String))
        ensures
            r.0@ == self.url_of(r.1@),
    ;

    /// Exchanges an authorization code for a token bundle at the
    /// provider's token endpoint. The provider decides the outcome, so
    /// nothing is promised of it; the error carries the provider's or the
    /// transport's message.
    fn exchange_token(&mut self, code: &str) -> (r: Result<TokenBundle, String>)
        ensures
            final(self).spec_provider_id() == old(self).spec_provider_id(),
    ;

    /// Fetches the user's profile from the provider's user-info endpoint
    /// with the given access token. The provider decides the outcome, so
    /// nothing is promised of it.
    fn fetch_user_info(&mut self, access_token: &str) -> (r: Result<Profile, String>)
        ensures
            final(self).spec_provider_id() == old(self).spec_provider_id(),
    ;

    fn provider_id(&self) -> (id: i32)
        ensures
            id == self.spec_provider_id(),
    ;
}

/// Capability to persist (local user, external identity) bindings, with
/// upsert-on-conflict semantics keyed by the provider-side subject
/// identifier. The upsert must be atomic per call: it either applies
/// `spec_upsert` whole or leaves the store unchanged.
pub trait Repository: Sized {
    /// The stored records, in insertion order.
    spec fn records(&self) -> Seq<AuthRecordView>;

    fn upsert_oauth(&mut self, auth: &OAuthAuthorization) -> (r: Result<(), AuthError>)
        ensures
            r is Ok ==> final(self).records() == spec_upsert(old(self).records(), auth@),
            r is Err ==> final(self).records() == old(self).records(),
            r matches Err(e) ==> e is DatabaseError,
    ;
}

} // verus!
