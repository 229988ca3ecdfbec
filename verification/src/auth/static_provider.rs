use vstd::prelude::*;

use crate::auth::models::{Profile, TokenBundle};
use crate::auth::ports::Provider;

verus! {

/// A provider that answers from pre-configured values instead of a remote
/// endpoint: the in-library implementation of the provider port, used to
/// exercise the orchestrator without a network. An unset exchange or
/// profile result makes the step fail with the configured message; the
/// call counters record how often each network-backed step was invoked.
pub struct StaticProvider {
    pub id: i32,
    pub auth_url: String,
    pub csrf_token: String,
    pub exchange_result: Option<TokenBundle>,
    pub exchange_error: String,
    pub profile_result: Option<Profile>,
    pub fetch_error: String,
    pub exchange_calls: u64,
    pub fetch_calls: u64,
}

impl Provider for StaticProvider {
    open spec fn spec_provider_id(&self) -> i32 {
        self.id
    }

    open spec fn url_of(&self, state: Seq<char>) -> Seq<char> {
        self.auth_url@
    }

    fn get_authorization_url(&self) -> (r: (String, String))
        // Beyond the port contract: the anti-forgery token is the
        // configured one (the URL is `url_of` it already).
        ensures
            r.1@ == self.csrf_token@,
    {
        (self.auth_url.clone(), self.csrf_token.clone())
    }

    fn exchange_token(&mut self, code: &str) -> (r: Result<TokenBundle, String>)
        // Beyond the port contract: the configured bundle or error comes
        // back unchanged, the call is counted, and nothing else moves.
        ensures
            old(self).exchange_result matches Some(b) ==> (r matches Ok(b2) && b2@ == b@),
            old(self).exchange_result is None ==> (r matches Err(m) && m@ == old(
                self,
            ).exchange_error@),
            *final(self) == (StaticProvider { exchange_calls: final(self).exchange_calls, ..*old(
                self,
            ) }),
            old(self).exchange_calls < u64::MAX ==> final(self).exchange_calls == old(
                self,
            ).exchange_calls + 1,
    {
        if self.exchange_calls < u64::MAX {
            self.exchange_calls = self.exchange_calls + 1;
        }
        match &self.exchange_result {
            Some(bundle) => Ok(bundle.duplicate()),
            None => Err(self.exchange_error.clone()),
        }
    }

    fn fetch_user_info(&mut self, access_token: &str) -> (r: Result<Profile, String>)
        // Beyond the port contract: the configured profile or error comes
        // back unchanged, the call is counted, and nothing else moves.
        ensures
            old(self).profile_result matches Some(p) ==> (r matches Ok(p2) && p2@ == p@),
            old(self).profile_result is None ==> (r matches Err(m) && m@ == old(
                self,
            ).fetch_error@),
            *final(self) == (StaticProvider { fetch_calls: final(self).fetch_calls, ..*old(
                self,
            ) }),
            old(self).fetch_calls < u64::MAX ==> final(self).fetch_calls == old(
                self,
            ).fetch_calls + 1,
    {
        if self.fetch_calls < u64::MAX {
            self.fetch_calls = self.fetch_calls + 1;
        }
        match &self.profile_result {
            Some(profile) => Ok(profile.duplicate()),
            None => Err(self.fetch_error.clone()),
        }
    }

    fn provider_id(&self) -> (id: i32) {
        self.id
    }
}

} // verus!
