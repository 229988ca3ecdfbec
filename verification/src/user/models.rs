use vstd::prelude::*;

use crate::clock::unix_now;

verus! {

/// Mathematical view of a `User`: strings as character sequences and
/// integers unbounded.
pub ghost struct UserView {
    pub user_id: int,
    pub email: Option<Seq<char>>,
    pub name: Option<Seq<char>>,
    pub avatar_url: Option<Seq<char>>,
    pub created_at: int,
    pub updated_at: int,
}

/// A local user. Profile fields are best-effort copies of what the
/// identity provider asserted; a store keys users by email when one is
/// present. Timestamps are whole seconds since the Unix epoch.
#[derive(Debug, Clone)]
pub struct User {
    pub user_id: i32,
    pub email: Option<String>,
    pub name: Option<String>,
    pub avatar_url: Option<String>,
    pub created_at: i64,
    pub updated_at: i64,
}

impl View for User {
    type V = UserView;

    open spec fn view(&self) -> UserView {
        UserView {
            user_id: self.user_id as int,
            email: self.email.deep_view(),
            name: self.name.deep_view(),
            avatar_url: self.avatar_url.deep_view(),
            created_at: self.created_at as int,
            updated_at: self.updated_at as int,
        }
    }
}

impl User {
    /// A copy of the user, equal at the view level.
    pub fn duplicate(&self) -> (r: Self)
        ensures
            r@ == self@,
    {
        User {
            user_id: self.user_id,
            email: crate::clone_opt_string(&self.email),
            name: crate::clone_opt_string(&self.name),
            avatar_url: crate::clone_opt_string(&self.avatar_url),
            created_at: self.created_at,
            updated_at: self.updated_at,
        }
    }
}

/// Optional-field construction of a `User`; fields left unset fall back to
/// explicit defaults at `build` time.
pub struct UserBuilder {
    pub user_id: Option<i32>,
    pub email: Option<String>,
    pub name: Option<String>,
    pub avatar_url: Option<String>,
    pub created_at: Option<i64>,
    pub updated_at: Option<i64>,
}

impl UserBuilder {
    pub fn new() -> (b: Self)
        ensures
            b == (UserBuilder {
                user_id: None,
                email: None,
                name: None,
                avatar_url: None,
                created_at: None,
                updated_at: None,
            }),
    {
        Self {
            user_id: None,
            email: None,
            name: None,
            avatar_url: None,
            created_at: None,
            updated_at: None,
        }
    }

    pub fn user_id(self, user_id: i32) -> (b: Self)
        ensures
            b == (UserBuilder { user_id: Some(user_id), ..self }),
    {
        Self { user_id: Some(user_id), ..self }
    }

    pub fn email(self, email: String) -> (b: Self)
        ensures
            b == (UserBuilder { email: Some(email), ..self }),
    {
        Self { email: Some(email), ..self }
    }

    pub fn name(self, name: String) -> (b: Self)
        ensures
            b == (UserBuilder { name: Some(name), ..self }),
    {
        Self { name: Some(name), ..self }
    }

    pub fn avatar_url(self, avatar_url: String) -> (b: Self)
        ensures
            b == (UserBuilder { avatar_url: Some(avatar_url), ..self }),
    {
        Self { avatar_url: Some(avatar_url), ..self }
    }

    pub fn created_at(self, created_at: i64) -> (b: Self)
        ensures
            b == (UserBuilder { created_at: Some(created_at), ..self }),
    {
        Self { created_at: Some(created_at), ..self }
    }

    pub fn updated_at(self, updated_at: i64) -> (b: Self)
        ensures
            b == (UserBuilder { updated_at: Some(updated_at), ..self }),
    {
        Self { updated_at: Some(updated_at), ..self }
    }

    /// Finalizes the user. The identifier defaults to 0, the optional
    /// profile fields stay as set, and the timestamps default to the
    /// current clock when unset.
    pub fn build(self) -> (r: User)
        ensures
            r@.user_id == (match self.user_id {
                Some(v) => v as int,
                None => 0,
            }),
            r@.email == self.email.deep_view(),
            r@.name == self.name.deep_view(),
            r@.avatar_url == self.avatar_url.deep_view(),
            self.created_at matches Some(t) ==> r@.created_at == t as int,
            self.updated_at matches Some(t) ==> r@.updated_at == t as int,
    {
        let created_at = match self.created_at {
            Some(t) => t,
            None => unix_now(),
        };
        let updated_at = match self.updated_at {
            Some(t) => t,
            None => unix_now(),
        };
        User {
            user_id: match self.user_id {
                Some(v) => v,
                None => 0,
            },
            email: self.email,
            name: self.name,
            avatar_url: self.avatar_url,
            created_at,
            updated_at,
        }
    }
}

} // verus!
