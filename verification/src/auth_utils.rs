//! The session token of a request, and the checks that requests make of the
//! account behind it.

use crate::auth;
use crate::auth::UserAuth;
use crate::users::Role;
use vstd::prelude::*;

verus! {

/// Reading and replacing the session token of a request.
pub trait GetSetToken {
    fn get_auth_token(&self) -> Option<String>;

    fn set_auth_token(&mut self, value: &String);
}

/// The session data of a request that the backend uses: its token, if any.
#[derive(Debug)]
pub struct SessionTokens {
    auth_token: Option<String>,
}

impl SessionTokens {
    /// The token the session holds.
    pub closed spec fn token(&self) -> Option<String> {
        self.auth_token
    }

    /// The session of a request that carried `auth_token`.
    pub fn new(auth_token: Option<String>) -> (session: SessionTokens)
        ensures
            session.token() == auth_token,
    {
        SessionTokens { auth_token }
    }

    /// Drops the token from the session: reading it back gives nothing.
    pub fn clear_auth_token(&mut self)
        ensures
            final(self).token() is None,
    {
        self.auth_token = None;
    }

    /// The token to write back into the session cookie.
    pub fn into_auth_token(self) -> (token: Option<String>)
        ensures
            token == self.token(),
    {
        self.auth_token
    }
}

impl GetSetToken for SessionTokens {
    /// The token the session holds.
    fn get_auth_token(&self) -> (token: Option<String>)
        ensures
            token == self.token(),
    {
        match &self.auth_token {
            Some(t) => Some(t.clone()),
            None => None,
        }
    }

    /// Replaces the token of the session: reading it back gives `value`.
    fn set_auth_token(&mut self, value: &String)
        ensures
            final(self).token() == Some(*value),
    {
        self.auth_token = Some(value.clone());
    }
}

/// Why a request was refused.
#[derive(Debug, Clone, Copy, PartialEq, Eq, Structural)]
pub enum AuthError {
    /// The account's role is not one the request is open to.
    BadRoleError,
}

/// The account behind a request, from the session token (`None` when the
/// session holds none) and what resolving it gave: a token that does not
/// resolve counts as no account.
pub fn get_auth(resolved: Option<Result<UserAuth, auth::AuthError>>) -> (account: Option<UserAuth>)
    ensures
        account == match resolved {
            Some(Ok(user)) => Some(user),
            _ => None::<UserAuth>,
        },
{
    match resolved {
        Some(Ok(user)) => Some(user),
        _ => None,
    }
}

/// The guest every visitor without an account is taken for.
pub open spec fn guest() -> UserAuth {
    UserAuth { user_id: 0, role: Role::Guest }
}

/// The account behind a request, or the guest.
pub fn get_auth_or_guest(account: Option<UserAuth>) -> (auth: UserAuth)
    ensures
        auth == match account {
            Some(user) => user,
            None => guest(),
        },
{
    match account {
        Some(auth) => auth,
        None => UserAuth { user_id: 0, role: Role::Guest },
    }
}

/// Lets the request through for an account whose role is one of `roles`.
pub fn check_auth_role(roles: &[Role], auth: UserAuth) -> (checked: Result<UserAuth, AuthError>)
    ensures
        roles@.contains(auth.role) ==> checked == Ok::<UserAuth, AuthError>(auth),
        !roles@.contains(auth.role) ==> checked == Err::<UserAuth, AuthError>(AuthError::BadRoleError),
{
    let mut i: usize = 0;
    while i < roles.len()
        invariant
            i <= roles@.len(),
            forall|j: int| 0 <= j < i ==> roles@[j] != auth.role,
        decreases roles@.len() - i,
    {
        if roles[i] == auth.role {
            return Ok(auth);
        }
        i = i + 1;
    }
    Err(AuthError::BadRoleError)
}

} // verus!
