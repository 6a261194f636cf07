use crate::users::Role;
use vstd::prelude::*;

verus! {

/// The sign-in answer as the client sees it.
#[derive(Debug)]
pub struct LoginSuccess {
    pub user_id: i32,
    pub token: String,
    pub role: Role,
}

/// The outcome of checking a request's session.
#[derive(Debug, Clone, Copy, PartialEq, Eq, Structural)]
pub struct AuthSuccess {
    pub is_authorized: bool,
    pub role: Role,
    pub user_id: i32,
}

} // verus!
