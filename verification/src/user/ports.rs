use vstd::prelude::*;

use crate::user::error::UserError;
use crate::user::models::{User, UserView};

verus! {

/// Index of the first user at or after `i` whose email is `email`, or -1
/// when there is none.
pub open spec fn find_user_from(s: Seq<UserView>, email: Seq<char>, i: int) -> int
    decreases s.len() - i,
{
    if i < 0 || i >= s.len() {
        -1
    } else if s[i].email == Some(email) {
        i
    } else {
        find_user_from(s, email, i + 1)
    }
}

/// Index of the first user with the given email. A user without an email
/// never conflicts with any stored user: the result is then -1.
pub open spec fn find_user_by_email(s: Seq<UserView>, email: Option<Seq<char>>) -> int {
    match email {
        Some(e) => find_user_from(s, e, 0),
        None => -1,
    }
}

/// What `find_user_from` returns: either no user at or after `i` has the
/// email, or the result is the first index that does.
pub proof fn lemma_find_user_from(s: Seq<UserView>, email: Seq<char>, i: int)
    requires
        0 <= i <= s.len(),
    ensures
        find_user_from(s, email, i) == -1 ==> forall|j: int|
            i <= j < s.len() ==> s[j].email != Some(email),
        find_user_from(s, email, i) != -1 ==> {
            let r = find_user_from(s, email, i);
            &&& i <= r < s.len()
            &&& s[r].email == Some(email)
            &&& forall|j: int| i <= j < r ==> s[j].email != Some(email)
        },
    decreases s.len() - i,
{
    if i < s.len() && s[i].email != Some(email) {
        lemma_find_user_from(s, email, i + 1);
    }
}

/// The merge a repeated upsert performs on the stored user with the same
/// email: display name, avatar and update-time are replaced; identity,
/// email and creation-time are kept.
pub open spec fn merge_user(orig: UserView, u: UserView) -> UserView {
    UserView { name: u.name, avatar_url: u.avatar_url, updated_at: u.updated_at, ..orig }
}

/// Capability to persist local users, with upsert-on-conflict semantics
/// keyed by email. A user without an email never conflicts and is always
/// inserted as a new row.
pub trait Repository: Sized {
    /// The stored users, in insertion order.
    spec fn users(&self) -> Seq<UserView>;

    /// The store's internal well-formedness; established at construction
    /// and preserved by every operation.
    spec fn inv(&self) -> bool;

    fn upsert_user(&mut self, user: &User) -> (r: Result<User, UserError>)
        requires
            old(self).inv(),
        ensures
            final(self).inv(),
            r is Err ==> final(self).users() == old(self).users(),
            r matches Ok(u) ==> ({
                let s = old(self).users();
                let i = find_user_by_email(s, user@.email);
                &&& i >= 0 ==> u@ == merge_user(s[i], user@) && final(self).users() == s.update(
                    i,
                    u@,
                )
                &&& i == -1 ==> ({
                    &&& u@ == (UserView { user_id: u@.user_id, ..user@ })
                    &&& final(self).users() == s.push(u@)
                    &&& forall|j: int| 0 <= j < s.len() ==> s[j].user_id != u@.user_id
                })
            }),
    ;

    fn get_user_by_id(&self, user_id: i32) -> (r: Result<User, UserError>)
        ensures
            r matches Ok(u) ==> u@.user_id == user_id as int && exists|i: int|
                0 <= i < self.users().len() && self.users()[i] == u@,
            r matches Err(e) ==> (e is UserNotFound || e is DatabaseError),
            r matches Err(e) && e is UserNotFound ==> forall|i: int|
                0 <= i < self.users().len() ==> self.users()[i].user_id != user_id as int,
    ;
}

} // verus!
