use vstd::prelude::*;

use crate::user::error::UserError;
use crate::user::models::{User, UserView};
use crate::user::ports::{
    find_user_by_email, find_user_from, lemma_find_user_from, merge_user, Repository,
};

verus! {

/// The views of a sequence of stored users.
pub open spec fn user_views_of(rows: Seq<User>) -> Seq<UserView> {
    rows.map_values(|u: User| u@)
}

/// An in-memory user store: the reference implementation of the user store
/// port, also used as the recording double in the tests. Identifiers are
/// handed out from a counter, so every stored user's identifier is below
/// `next_id`; `upsert_calls` counts every invocation of the upsert port.
pub struct MemoryUserStore {
    pub rows: Vec<User>,
    pub next_id: i32,
    pub upsert_calls: u64,
}

impl MemoryUserStore {
    pub fn new() -> (s: Self)
        ensures
            s.users() == Seq::<UserView>::empty(),
            s.inv(),
            s.upsert_calls == 0,
    {
        let s = MemoryUserStore { rows: Vec::new(), next_id: 1, upsert_calls: 0 };
        proof {
            assert(s.users() =~= Seq::<UserView>::empty());
        }
        s
    }

    /// Index of the first stored user with the given email, if any.
    fn find_row(&self, email: &String) -> (r: Option<usize>)
        ensures
            r matches Some(i) ==> i < self.rows@.len() && find_user_from(self.users(), email@, 0)
                == i as int,
            r is None ==> find_user_from(self.users(), email@, 0) == -1,
    {
        let ghost s = self.users();
        let mut i: usize = 0;
        while i < self.rows.len()
            invariant
                i <= self.rows@.len(),
                s == self.users(),
                s.len() == self.rows@.len(),
                forall|j: int| 0 <= j < i ==> s[j].email != Some(email@),
            decreases self.rows@.len() - i,
        {
            let matched = match &self.rows[i].email {
                Some(e) => *e == *email,
                None => false,
            };
            proof {
                assert(s[i as int] == self.rows@[i as int]@);
            }
            if matched {
                proof {
                    lemma_find_user_from(s, email@, 0);
                    assert(s[i as int].email == Some(email@));
                }
                return Some(i);
            }
            i += 1;
        }
        proof {
            lemma_find_user_from(s, email@, 0);
        }
        None
    }
}

impl Repository for MemoryUserStore {
    open spec fn users(&self) -> Seq<UserView> {
        user_views_of(self.rows@)
    }

    open spec fn inv(&self) -> bool {
        forall|j: int| 0 <= j < self.users().len() ==> self.users()[j].user_id < self.next_id
    }

    fn upsert_user(&mut self, user: &User) -> (r: Result<User, UserError>)
        // Beyond the port contract: an in-memory upsert fails only when the
        // identifier counter is exhausted.
        ensures
            old(self).next_id < i32::MAX ==> r is Ok,
    {
        let ghost s0 = old(self).users();
        if self.upsert_calls < u64::MAX {
            self.upsert_calls = self.upsert_calls + 1;
        }
        let found = match &user.email {
            Some(e) => self.find_row(e),
            None => None,
        };
        match found {
            Some(i) => {
                let merged = User {
                    user_id: self.rows[i].user_id,
                    email: crate::clone_opt_string(&self.rows[i].email),
                    name: crate::clone_opt_string(&user.name),
                    avatar_url: crate::clone_opt_string(&user.avatar_url),
                    created_at: self.rows[i].created_at,
                    updated_at: user.updated_at,
                };
                let ret = merged.duplicate();
                proof {
                    assert(merged@ == merge_user(s0[i as int], user@));
                }
                self.rows[i] = merged;
                proof {
                    assert(self.users() =~= s0.update(i as int, ret@));
                }
                Ok(ret)
            },
            None => {
                if self.next_id == i32::MAX {
                    return Err(UserError::InvalidUserData("user identifiers exhausted".to_owned()));
                }
                let fresh = User {
                    user_id: self.next_id,
                    email: crate::clone_opt_string(&user.email),
                    name: crate::clone_opt_string(&user.name),
                    avatar_url: crate::clone_opt_string(&user.avatar_url),
                    created_at: user.created_at,
                    updated_at: user.updated_at,
                };
                let ret = fresh.duplicate();
                self.next_id = self.next_id + 1;
                self.rows.push(fresh);
                proof {
                    assert(self.users() =~= s0.push(ret@));
                }
                Ok(ret)
            },
        }
    }

    fn get_user_by_id(&self, user_id: i32) -> (r: Result<User, UserError>)
        // Beyond the port contract: an in-memory lookup fails only because
        // no stored user carries the identifier, so the result is Ok if and
        // only if one does.
        ensures
            r matches Err(e) ==> e is UserNotFound,
    {
        let ghost s = self.users();
        let mut i: usize = 0;
        while i < self.rows.len()
            invariant
                i <= self.rows@.len(),
                s == self.users(),
                s.len() == self.rows@.len(),
                forall|j: int| 0 <= j < i ==> s[j].user_id != user_id as int,
            decreases self.rows@.len() - i,
        {
            proof {
                assert(s[i as int] == self.rows@[i as int]@);
            }
            if self.rows[i].user_id == user_id {
                return Ok(self.rows[i].duplicate());
            }
            i += 1;
        }
        Err(UserError::UserNotFound)
    }
}

} // verus!
