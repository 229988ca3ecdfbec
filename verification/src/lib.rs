//! Core of an identity-provider-backed authentication service: the OAuth
//! authorization-code flow, identity linking, and session-token issuance.
//!
//! The library holds the verified logic: the data model for authorization
//! records and users, the session-token codec, the port contracts for the
//! identity provider and the stores, in-memory store implementations, and
//! the orchestrator that drives a login flow from authorization code to
//! session token.

pub mod auth;
pub mod config;
pub mod error;
pub mod user;

mod clock;

use vstd::prelude::*;

verus! {

/// Maps a provider's route name to its stable numeric identifier.
/// Google is the one provider currently wired in; unknown names map to 0.
pub fn get_provider_id(provider_name: &str) -> (id: i32)
    ensures
        provider_name@ == "google"@ ==> id == 1,
        provider_name@ != "google"@ ==> id == 0,
{
    if str_eq(provider_name, "google") {
        1
    } else {
        0
    }
}

/// Copies an optional string, preserving its view.
pub(crate) fn clone_opt_string(s: &Option<String>) -> (r: Option<String>)
    ensures
        r.deep_view() == s.deep_view(),
{
    match s {
        Some(x) => Some(x.clone()),
        None => None,
    }
}

/// Copies a string list, preserving its view.
pub(crate) fn clone_string_vec(v: &Vec<String>) -> (r: Vec<String>)
    ensures
        r.deep_view() == v.deep_view(),
{
    let mut r: Vec<String> = Vec::new();
    let mut i: usize = 0;
    while i < v.len()
        invariant
            i <= v@.len(),
            r@.len() == i,
            forall|j: int| 0 <= j < i ==> r@[j]@ == v@[j]@,
        decreases v@.len() - i,
    {
        r.push(v[i].clone());
        i += 1;
    }
    proof {
        assert(r.deep_view() =~= v.deep_view());
    }
    r
}

/// Copies an optional string list, preserving its view.
pub(crate) fn clone_opt_string_vec(v: &Option<Vec<String>>) -> (r: Option<Vec<String>>)
    ensures
        r.deep_view() == v.deep_view(),
{
    match v {
        Some(x) => Some(clone_string_vec(x)),
        None => None,
    }
}

/// Character-by-character string equality, specified over the string views.
pub fn str_eq(a: &str, b: &str) -> (r: bool)
    ensures
        r == (a@ == b@),
{
    let a_len = a.unicode_len();
    let b_len = b.unicode_len();
    if a_len != b_len {
        return false;
    }
    let mut i: usize = 0;
    while i < a_len
        invariant
            a_len == a@.len(),
            b_len == b@.len(),
            a_len == b_len,
            i <= a_len,
            forall|j: int| 0 <= j < i ==> a@[j] == b@[j],
        decreases a_len - i,
    {
        if a.get_char(i) != b.get_char(i) {
            return false;
        }
        i += 1;
    }
    proof {
        assert(a@ =~= b@);
    }
    true
}

} // verus!
