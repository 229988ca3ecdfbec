use vstd::prelude::*;

use crate::auth::token::{jwt_token_of, JwtManager};
use crate::error::AppError;
use crate::user::error::UserError;
use crate::user::models::{User, UserView};
use crate::user::ports::{find_user_by_email, merge_user, Repository};

verus! {

/// The user application service: delegates persistence to the store port
/// and resolves session tokens to the user they are bound to.
pub struct AppService<R: Repository> {
    pub repo: R,
    pub jwt_manager: JwtManager,
}

impl<R: Repository> AppService<R> {
    pub fn new(repo: R, jwt_manager: JwtManager) -> (s: Self)
        ensures
            s.repo == repo,
            s.jwt_manager == jwt_manager,
    {
        Self { repo, jwt_manager }
    }

    /// Persists the given user through the store port, keyed by email.
    pub fn upsert_user(&mut self, user: &User) -> (r: Result<User, AppError>)
        requires
            old(self).repo.inv(),
        ensures
            final(self).repo.inv(),
            final(self).jwt_manager == old(self).jwt_manager,
            r matches Err(e) ==> e is UserError && final(self).repo.users() == old(
                self,
            ).repo.users(),
            r matches Ok(u) ==> ({
                let s = old(self).repo.users();
                let i = find_user_by_email(s, user@.email);
                &&& i >= 0 ==> u@ == merge_user(s[i], user@) && final(self).repo.users()
                    == s.update(i, u@)
                &&& i == -1 ==> ({
                    &&& u@ == (UserView { user_id: u@.user_id, ..user@ })
                    &&& final(self).repo.users() == s.push(u@)
                    &&& forall|j: int| 0 <= j < s.len() ==> s[j].user_id != u@.user_id
                })
            }),
    {
        match self.repo.upsert_user(user) {
            Ok(u) => Ok(u),
            Err(e) => Err(AppError::UserError(e)),
        }
    }

    /// Resolves a session token to the stored user it is bound to: the
    /// token is verified against the signing secret, then the subject it
    /// carries is looked up. For every token issued under this service's
    /// secret, the result is the user bound to the issued subject, or the
    /// not-found error when no such user is stored.
    pub fn get_user_by_id(&self, token: &str) -> (r: Result<User, AppError>)
        ensures
            forall|sub: int, exp: int|
                i32::MIN <= sub <= i32::MAX && 0 <= exp <= i64::MAX && token@
                    == #[trigger] jwt_token_of(self.jwt_manager.secret@, sub, exp) ==> {
                    &&& (r matches Ok(u) ==> u@.user_id == sub && exists|i: int|
                        0 <= i < self.repo.users().len() && self.repo.users()[i] == u@)
                    &&& (r matches Err(e) ==> e matches AppError::UserError(ue) && (ue
                        is UserNotFound ==> forall|i: int|
                        0 <= i < self.repo.users().len() ==> self.repo.users()[i].user_id != sub))
                },
            r matches Err(e) ==> (e is AuthError || e is UserError),
    {
        match self.jwt_manager.verify_jwt(token) {
            Ok(claims) => match self.repo.get_user_by_id(claims.sub) {
                Ok(u) => Ok(u),
                Err(e) => Err(AppError::UserError(e)),
            },
            Err(e) => Err(AppError::AuthError(e)),
        }
    }
}

} // verus!
