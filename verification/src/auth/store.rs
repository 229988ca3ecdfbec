use vstd::prelude::*;

use crate::auth::error::AuthError;
use crate::auth::models::{AuthRecordView, OAuthAuthorization};
use crate::auth::ports::{find_subject, lemma_find_subject, merge_record, spec_upsert, Repository};

verus! {

/// The views of a sequence of stored records.
pub open spec fn views_of(rows: Seq<OAuthAuthorization>) -> Seq<AuthRecordView> {
    rows.map_values(|r: OAuthAuthorization| r@)
}

/// An in-memory authorization-record store: the reference implementation of
/// the store port, also used as the recording double in the tests.
/// `upsert_calls` counts every invocation of the port, whether or not it
/// changed anything.
pub struct MemoryAuthStore {
    pub rows: Vec<OAuthAuthorization>,
    pub upsert_calls: u64,
}

impl MemoryAuthStore {
    pub fn new() -> (s: Self)
        ensures
            s.records() == Seq::<AuthRecordView>::empty(),
            s.upsert_calls == 0,
    {
        let s = MemoryAuthStore { rows: Vec::new(), upsert_calls: 0 };
        proof {
            assert(s.records() =~= Seq::<AuthRecordView>::empty());
        }
        s
    }

    /// Index of the first stored row bound to the given provider-side
    /// subject, if any.
    fn find_row(&self, key: &String) -> (r: Option<usize>)
        ensures
            r matches Some(i) ==> i < self.rows@.len() && find_subject(self.records(), key@)
                == i as int,
            r is None ==> find_subject(self.records(), key@) == -1,
    {
        let ghost s = self.records();
        let mut i: usize = 0;
        while i < self.rows.len()
            invariant
                i <= self.rows@.len(),
                s == self.records(),
                s.len() == self.rows@.len(),
                forall|j: int| 0 <= j < i ==> s[j].provider_user_id != key@,
            decreases self.rows@.len() - i,
        {
            if self.rows[i].provider_user_id == *key {
                proof {
                    lemma_find_subject(s, key@);
                    assert(s[i as int].provider_user_id == key@);
                }
                return Some(i);
            }
            proof {
                assert(s[i as int] == self.rows@[i as int]@);
            }
            i += 1;
        }
        proof {
            lemma_find_subject(s, key@);
        }
        None
    }
}

impl Repository for MemoryAuthStore {
    open spec fn records(&self) -> Seq<AuthRecordView> {
        views_of(self.rows@)
    }

    fn upsert_oauth(&mut self, auth: &OAuthAuthorization) -> (r: Result<(), AuthError>)
        // Beyond the port contract: an in-memory upsert cannot fail.
        ensures
            r is Ok,
    {
        let ghost s0 = old(self).records();
        if self.upsert_calls < u64::MAX {
            self.upsert_calls = self.upsert_calls + 1;
        }
        match self.find_row(&auth.provider_user_id) {
            Some(i) => {
                let merged = OAuthAuthorization {
                    auth_id: self.rows[i].auth_id,
                    user_id: self.rows[i].user_id,
                    provider_id: self.rows[i].provider_id,
                    provider_user_id: self.rows[i].provider_user_id.clone(),
                    access_token: auth.access_token.clone(),
                    refresh_token: crate::clone_opt_string(&auth.refresh_token),
                    expires_in: auth.expires_in,
                    scope: crate::clone_opt_string_vec(&auth.scope),
                    created_at: self.rows[i].created_at,
                    updated_at: auth.updated_at,
                };
                proof {
                    assert(merged@ == merge_record(s0[i as int], auth@));
                }
                self.rows[i] = merged;
                proof {
                    assert(self.records() =~= spec_upsert(s0, auth@));
                }
                Ok(())
            },
            None => {
                self.rows.push(auth.duplicate());
                proof {
                    assert(self.records() =~= spec_upsert(s0, auth@));
                }
                Ok(())
            },
        }
    }
}

} // verus!
