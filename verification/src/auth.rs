//! Signing in with a login and a password, authorizing requests by their
//! session token, signing out, and storing credentials.

use crate::db::DbError;
use crate::password_hasher::{hashable_len, PasswordHasher};
use crate::text::text_is;
use crate::tokens::{is_v4_token, random_uuid_string};
use crate::users::Role;
use vstd::prelude::*;

verus! {

/// A successful sign-in: the new session token of the account.
#[derive(Debug)]
pub struct LoginSuccess {
    pub token: String,
    pub role: Role,
    pub user_id: i32,
}

/// Why signing in failed.
#[derive(Debug)]
pub enum LoginError {
    /// No account has this login with this password.
    BadCredentialsError,
    DbError(DbError),
}

/// The account a session token belongs to.
#[derive(Debug, Clone, Copy, PartialEq, Eq, Structural)]
pub struct UserAuth {
    pub user_id: i32,
    pub role: Role,
}

/// Why a session token could not be resolved.
#[derive(Debug)]
pub enum AuthError {
    /// No account holds this token.
    UnknownToken,
    DbError(DbError),
}

/// Why signing out failed.
#[derive(Debug)]
pub enum LogoutError {
    DbError(DbError),
}

/// Why credentials could not be stored.
#[derive(Debug)]
pub enum CreateCredentialsError {
    /// Another account already has this login.
    KnownLoginError,
    /// No account has this id.
    UnknownUserIdError,
    DbError(DbError),
}

/// The PostgreSQL code of a unique-key violation.
pub open spec fn unique_violation() -> Seq<char> {
    "23505"@
}

/// The PostgreSQL code of a foreign-key violation.
pub open spec fn foreign_key_violation() -> Seq<char> {
    "23503"@
}

/// How a failed credentials insert is reported: a unique-key violation means
/// the login is taken, a foreign-key violation that the account does not exist;
/// anything else is passed on.
pub open spec fn credentials_error_of(e: DbError) -> CreateCredentialsError {
    match e {
        DbError::Database { code: Some(code) } => if code@ == unique_violation() {
            CreateCredentialsError::KnownLoginError
        } else if code@ == foreign_key_violation() {
            CreateCredentialsError::UnknownUserIdError
        } else {
            CreateCredentialsError::DbError(e)
        },
        _ => CreateCredentialsError::DbError(e),
    }
}

/// Sign-in, authorization and credentials of accounts.
pub struct AuthService {
    pub hasher: PasswordHasher,
}

/// The row to insert into the credentials table.
#[derive(Debug)]
pub struct CredentialsInsert {
    pub user_id: i32,
    pub login: String,
    pub password_hash: [u8; 32],
}

/// Where a sign-in stands.
#[derive(Debug)]
pub enum LoginFlow {
    /// Waiting for the account that has the login and the password hash.
    AwaitUser,
    /// Waiting for the new token to be stored; `success` is the answer once it is.
    AwaitTokenStored { success: LoginSuccess },
    Done,
}

/// The outcome of the last requested action of a sign-in.
#[derive(Debug)]
pub enum LoginEvent {
    /// The account (id and role) with this login and password hash, if any.
    UserFound(Option<(i32, Role)>),
    /// The token was stored for the account, replacing its previous one.
    TokenStored,
    DbFailed(DbError),
}

/// What the caller of a sign-in is to do next.
#[derive(Debug)]
pub enum LoginAction {
    /// Look up the account with `login` whose stored hash is `password_hash`.
    FindUser { login: String, password_hash: [u8; 32] },
    /// Store `token` as the session token of `user_id`, replacing any other.
    StoreToken { user_id: i32, token: String },
    Finish(Result<LoginSuccess, LoginError>),
}

/// The events a sign-in takes in each state.
pub open spec fn login_accepts(flow: LoginFlow, event: LoginEvent) -> bool {
    match event {
        LoginEvent::DbFailed(_) => !(flow is Done),
        LoginEvent::UserFound(_) => flow is AwaitUser,
        LoginEvent::TokenStored => flow is AwaitTokenStored,
    }
}

impl AuthService {
    /// Starts signing in with `login` and `password`: first find the account
    /// with this login whose stored hash is the hash of `password`.
    pub fn login(&self, login: &str, password: &str) -> (start: (LoginFlow, LoginAction))
        requires
            self.hasher.well_formed(),
            vstd::utf8::encode_utf8(password@).len() < hashable_len(),
        ensures
            start.0 is AwaitUser,
            start.1 matches LoginAction::FindUser { login: l, password_hash: h }
                && l@ == login@ && h@ == self.hasher.spec_hash(password@),
    {
        let password_hash = self.hasher.get_hash(password);
        (LoginFlow::AwaitUser, LoginAction::FindUser { login: String::from_str(login), password_hash })
    }

    /// The account a session token resolves to, from what the lookup found.
    pub fn authorize(found: Result<Option<UserAuth>, DbError>) -> (auth: Result<UserAuth, AuthError>)
        ensures
            match found {
                Ok(Some(user)) => auth == Ok::<UserAuth, AuthError>(user),
                Ok(None) => auth matches Err(AuthError::UnknownToken),
                Err(e) => auth == Err::<UserAuth, AuthError>(AuthError::DbError(e)),
            },
    {
        match found {
            Ok(Some(user)) => Ok(user),
            Ok(None) => Err(AuthError::UnknownToken),
            Err(e) => Err(AuthError::DbError(e)),
        }
    }

    /// The result of signing out, from the outcome of deleting the account's token.
    pub fn logout(deleted: Result<(), DbError>) -> (result: Result<(), LogoutError>)
        ensures
            match deleted {
                Ok(()) => result is Ok,
                Err(e) => result == Err::<(), LogoutError>(LogoutError::DbError(e)),
            },
    {
        match deleted {
            Ok(()) => Ok(()),
            Err(e) => Err(LogoutError::DbError(e)),
        }
    }

    /// The credentials row for `user_id`: its login and the hash of its password.
    pub fn create_credentials(&self, user_id: i32, login: &str, password: &str) -> (row: CredentialsInsert)
        requires
            self.hasher.well_formed(),
            vstd::utf8::encode_utf8(password@).len() < hashable_len(),
        ensures
            row.user_id == user_id,
            row.login@ == login@,
            row.password_hash@ == self.hasher.spec_hash(password@),
    {
        CredentialsInsert {
            user_id,
            login: String::from_str(login),
            password_hash: self.hasher.get_hash(password),
        }
    }

    /// The result of storing credentials, from the outcome of the insert. A
    /// rejection by the server always carries its code.
    pub fn credentials_created(inserted: Result<(), DbError>) -> (result: Result<(), CreateCredentialsError>)
        requires
            inserted matches Err(DbError::Database { code }) ==> code is Some,
        ensures
            match inserted {
                Ok(()) => result is Ok,
                Err(e) => result == Err::<(), CreateCredentialsError>(credentials_error_of(e)),
            },
    {
        match inserted {
            Ok(()) => Ok(()),
            Err(DbError::Database { code: Some(code) }) => {
                if text_is(&code, "23505") {
                    Err(CreateCredentialsError::KnownLoginError)
                } else if text_is(&code, "23503") {
                    Err(CreateCredentialsError::UnknownUserIdError)
                } else {
                    Err(CreateCredentialsError::DbError(DbError::Database { code: Some(code) }))
                }
            },
            Err(e) => Err(CreateCredentialsError::DbError(e)),
        }
    }
}

impl LoginFlow {
    /// Takes the outcome of the last action of a sign-in and tells what to do next.
    /// A found account gets a fresh random token, which is stored before it is
    /// handed out.
    pub fn resume(self, event: LoginEvent) -> (next: (LoginFlow, LoginAction))
        requires
            login_accepts(self, event),
        ensures
            match event {
                LoginEvent::DbFailed(e) => next.0 is Done && next.1 == LoginAction::Finish(
                    Err(LoginError::DbError(e)),
                ),
                LoginEvent::UserFound(None) => {
                    &&& next.0 is Done
                    &&& next.1 matches LoginAction::Finish(Err(LoginError::BadCredentialsError))
                },
                LoginEvent::UserFound(Some((user_id, role))) => next.0 matches LoginFlow::AwaitTokenStored {
                    success,
                } && success.user_id == user_id && success.role == role && is_v4_token(success.token@)
                    && next.1 == (LoginAction::StoreToken { user_id, token: success.token }),
                LoginEvent::TokenStored => {
                    &&& next.0 is Done
                    &&& self matches LoginFlow::AwaitTokenStored { success } && next.1 == LoginAction::Finish(
                        Ok(success),
                    )
                },
            },
    {
        match event {
            LoginEvent::DbFailed(e) => (LoginFlow::Done, LoginAction::Finish(Err(LoginError::DbError(e)))),
            LoginEvent::UserFound(None) => (
                LoginFlow::Done,
                LoginAction::Finish(Err(LoginError::BadCredentialsError)),
            ),
            LoginEvent::UserFound(Some((user_id, role))) => {
                let token = random_uuid_string();
                let stored = token.clone();
                (
                    LoginFlow::AwaitTokenStored { success: LoginSuccess { token, role, user_id } },
                    LoginAction::StoreToken { user_id, token: stored },
                )
            },
            LoginEvent::TokenStored => match self {
                LoginFlow::AwaitTokenStored { success } => (LoginFlow::Done, LoginAction::Finish(Ok(success))),
                _ => vstd::pervasive::unreached(),
            },
        }
    }
}

/// The credentials table: the account id and password hash stored for each
/// login (logins are unique).
pub type CredentialsTable = Map<Seq<char>, (i32, Seq<u8>)>;

/// The account the sign-in lookup finds for `login` and `password_hash`.
pub open spec fn find_account(table: CredentialsTable, login: Seq<char>, password_hash: Seq<u8>) -> Option<i32> {
    if table.contains_key(login) && table[login].1 == password_hash {
        Some(table[login].0)
    } else {
        None
    }
}

/// The credentials table after storing `row`.
pub open spec fn with_credentials(table: CredentialsTable, user_id: i32, login: Seq<char>, password_hash: Seq<u8>) -> CredentialsTable {
    table.insert(login, (user_id, password_hash))
}

/// Credentials stored for a free login make sign-in with that login and the
/// same password find the account: the lookup key sign-in builds
/// (`login`'s `FindUser`) is the row registration stores (`create_credentials`)
/// under the same hasher. Other logins sign in as before.
pub proof fn lemma_registered_password_signs_in(
    table: CredentialsTable,
    hasher: PasswordHasher,
    user_id: i32,
    login: Seq<char>,
    password: Seq<char>,
    other_login: Seq<char>,
    other_hash: Seq<u8>,
)
    requires
        !table.contains_key(login),
    ensures
        find_account(with_credentials(table, user_id, login, hasher.spec_hash(password)), login, hasher.spec_hash(password))
            == Some(user_id),
        other_login != login ==> find_account(
            with_credentials(table, user_id, login, hasher.spec_hash(password)),
            other_login,
            other_hash,
        ) == find_account(table, other_login, other_hash),
{
}

/// The session tokens table: the live token of each account (one per account).
pub type TokensTable = Map<i32, Seq<char>>;

/// Whether some account holds `token`.
pub open spec fn token_in_use(table: TokensTable, token: Seq<char>) -> bool {
    exists|user: i32| #[trigger] table.contains_key(user) && table[user] == token
}

/// An account holding the token, if any does (tokens are random, so at most one does).
pub open spec fn token_owner(table: TokensTable, token: Seq<char>) -> Option<i32> {
    if token_in_use(table, token) {
        Some(choose|user: i32| #[trigger] table.contains_key(user) && table[user] == token)
    } else {
        None
    }
}

/// The tokens table after sign-in stores `token` for the account
/// (`StoreToken`), replacing its previous one.
pub open spec fn with_token(table: TokensTable, user_id: i32, token: Seq<char>) -> TokensTable {
    table.insert(user_id, token)
}

/// A token stored at sign-in, held by no other account, authorizes its account;
/// the account's previous token, held by no other account, no longer authorizes.
pub proof fn lemma_signed_in_token_authorizes(table: TokensTable, user_id: i32, token: Seq<char>)
    requires
        forall|other: i32| other != user_id && #[trigger] table.contains_key(other) ==> table[other] != token,
    ensures
        token_owner(with_token(table, user_id, token), token) == Some(user_id),
        table.contains_key(user_id) && table[user_id] != token && (forall|other: i32|
            other != user_id && #[trigger] table.contains_key(other) ==> table[other] != table[user_id])
            ==> !token_in_use(with_token(table, user_id, token), table[user_id]),
{
    let t2 = with_token(table, user_id, token);
    assert(t2.contains_key(user_id) && t2[user_id] == token);
    let owner = choose|user: i32| #[trigger] t2.contains_key(user) && t2[user] == token;
    assert(owner == user_id);
}

/// After signing out, the account's token (held by no other account) no
/// longer authorizes anyone.
pub proof fn lemma_signed_out_token_rejected(table: TokensTable, user_id: i32)
    requires
        table.contains_key(user_id),
        forall|other: i32| other != user_id && #[trigger] table.contains_key(other) ==> table[other] != table[user_id],
    ensures
        token_owner(table.remove(user_id), table[user_id]) is None,
{
}

} // verus!
