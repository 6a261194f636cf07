//! Accounts and their registration.

use crate::auth::{credentials_error_of, AuthService, CreateCredentialsError, CredentialsInsert};
use crate::db::DbError;
use crate::password_hasher::hashable_len;
use vstd::prelude::*;

verus! {

/// The role of an account. Visitors without a valid session act as `Guest`.
#[derive(Debug, Clone, Copy, PartialEq, Eq, Structural)]
pub enum Role {
    User,
    Admin,
    Guest,
}

/// Why a registration failed.
#[derive(Debug)]
pub enum RegistrationError {
    /// Another account already has the login.
    LoginAlreadyOccupied,
    CreateCredentialsError(CreateCredentialsError),
    DbError(DbError),
}

/// Registration of new accounts.
pub struct UsersService {
    pub auth_service: AuthService,
}

/// Which outcome a registration waits for.
#[derive(Debug, Clone, Copy, PartialEq, Eq, Structural)]
pub enum RegistrationPhase {
    AwaitTransaction,
    AwaitUser,
    AwaitCredentials,
    AwaitCommit,
    Done,
}

/// A registration in progress, with what it was asked to register.
#[derive(Debug)]
pub struct RegistrationFlow {
    pub phase: RegistrationPhase,
    pub first_name: String,
    pub last_name: String,
    pub login: String,
    pub password: String,
}

/// The outcome of the last requested action of a registration.
#[derive(Debug)]
pub enum RegistrationEvent {
    TransactionBegun,
    /// The account row was inserted with this id.
    UserInserted(i32),
    /// The credentials row was inserted.
    CredentialsInserted,
    Committed,
    DbFailed(DbError),
}

/// What the caller of a registration is to do next.
#[derive(Debug)]
pub enum RegistrationAction {
    /// Open a transaction; every later action runs in it.
    BeginTransaction,
    /// Insert an account with these names and role, returning its id.
    InsertUser { first_name: String, last_name: String, role: Role },
    /// Insert the credentials row.
    InsertCredentials(CredentialsInsert),
    Commit,
    /// Stop with this result; an open transaction is dropped, which rolls it back.
    Finish(Result<(), RegistrationError>),
}

/// The events a registration takes in each phase; a rejected credentials insert
/// always carries the server's code.
pub open spec fn registration_accepts(phase: RegistrationPhase, event: RegistrationEvent) -> bool {
    match event {
        RegistrationEvent::DbFailed(e) => phase != RegistrationPhase::Done && (phase
            == RegistrationPhase::AwaitCredentials ==> (e matches DbError::Database { code } ==> code is Some)),
        RegistrationEvent::TransactionBegun => phase == RegistrationPhase::AwaitTransaction,
        RegistrationEvent::UserInserted(_) => phase == RegistrationPhase::AwaitUser,
        RegistrationEvent::CredentialsInserted => phase == RegistrationPhase::AwaitCredentials,
        RegistrationEvent::Committed => phase == RegistrationPhase::AwaitCommit,
    }
}

/// How a failed credentials insert fails the registration: a taken login is
/// reported as such, any other failure is passed on.
pub open spec fn registration_error_of(e: CreateCredentialsError) -> RegistrationError {
    match e {
        CreateCredentialsError::KnownLoginError => RegistrationError::LoginAlreadyOccupied,
        _ => RegistrationError::CreateCredentialsError(e),
    }
}

impl RegistrationFlow {
    /// The flow can still hash the password it holds.
    pub open spec fn well_formed(&self) -> bool {
        vstd::utf8::encode_utf8(self.password@).len() < hashable_len()
    }
}

impl UsersService {
    /// Starts registering an account with role `User`, these names, and
    /// credentials made of `login` and `password`: first open a transaction.
    pub fn registration(
        &self,
        first_name: &String,
        last_name: &String,
        login: &String,
        password: &String,
    ) -> (start: (RegistrationFlow, RegistrationAction))
        ensures
            start.0.phase == RegistrationPhase::AwaitTransaction,
            start.0.first_name == *first_name,
            start.0.last_name == *last_name,
            start.0.login == *login,
            start.0.password == *password,
            start.1 is BeginTransaction,
    {
        (
            RegistrationFlow {
                phase: RegistrationPhase::AwaitTransaction,
                first_name: first_name.clone(),
                last_name: last_name.clone(),
                login: login.clone(),
                password: password.clone(),
            },
            RegistrationAction::BeginTransaction,
        )
    }

    /// Takes the outcome of the last action of a registration and tells what to
    /// do next.
    pub fn resume_registration(&self, flow: RegistrationFlow, event: RegistrationEvent) -> (next: (
        RegistrationFlow,
        RegistrationAction,
    ))
        requires
            self.auth_service.hasher.well_formed(),
            flow.well_formed(),
            registration_accepts(flow.phase, event),
        ensures
            next.0.first_name == flow.first_name,
            next.0.last_name == flow.last_name,
            next.0.login == flow.login,
            next.0.password == flow.password,
            match event {
                RegistrationEvent::TransactionBegun => {
                    &&& next.0.phase == RegistrationPhase::AwaitUser
                    &&& next.1 == (RegistrationAction::InsertUser {
                        first_name: flow.first_name,
                        last_name: flow.last_name,
                        role: Role::User,
                    })
                },
                RegistrationEvent::UserInserted(user_id) => {
                    &&& next.0.phase == RegistrationPhase::AwaitCredentials
                    &&& next.1 matches RegistrationAction::InsertCredentials(row) && row.user_id == user_id
                        && row.login@ == flow.login@ && row.password_hash@ == self.auth_service.hasher.spec_hash(
                        flow.password@,
                    )
                },
                RegistrationEvent::CredentialsInserted => {
                    &&& next.0.phase == RegistrationPhase::AwaitCommit
                    &&& next.1 is Commit
                },
                RegistrationEvent::Committed => {
                    &&& next.0.phase == RegistrationPhase::Done
                    &&& next.1 matches RegistrationAction::Finish(Ok(()))
                },
                RegistrationEvent::DbFailed(e) => {
                    &&& next.0.phase == RegistrationPhase::Done
                    &&& if flow.phase == RegistrationPhase::AwaitCredentials {
                        next.1 == RegistrationAction::Finish(Err(registration_error_of(credentials_error_of(e))))
                    } else {
                        next.1 == RegistrationAction::Finish(Err(RegistrationError::DbError(e)))
                    }
                },
            },
    {
        let RegistrationFlow { phase, first_name, last_name, login, password } = flow;
        let (phase, action) = match event {
            RegistrationEvent::TransactionBegun => (
                RegistrationPhase::AwaitUser,
                RegistrationAction::InsertUser {
                    first_name: first_name.clone(),
                    last_name: last_name.clone(),
                    role: Role::User,
                },
            ),
            RegistrationEvent::UserInserted(user_id) => {
                let row = self.auth_service.create_credentials(user_id, login.as_str(), password.as_str());
                (RegistrationPhase::AwaitCredentials, RegistrationAction::InsertCredentials(row))
            },
            RegistrationEvent::CredentialsInserted => (RegistrationPhase::AwaitCommit, RegistrationAction::Commit),
            RegistrationEvent::Committed => (RegistrationPhase::Done, RegistrationAction::Finish(Ok(()))),
            RegistrationEvent::DbFailed(e) => {
                if phase == RegistrationPhase::AwaitCredentials {
                    let failure = match AuthService::credentials_created(Err(e)) {
                        Err(CreateCredentialsError::KnownLoginError) => RegistrationError::LoginAlreadyOccupied,
                        Err(other) => RegistrationError::CreateCredentialsError(other),
                        Ok(()) => vstd::pervasive::unreached(),
                    };
                    (RegistrationPhase::Done, RegistrationAction::Finish(Err(failure)))
                } else {
                    (RegistrationPhase::Done, RegistrationAction::Finish(Err(RegistrationError::DbError(e))))
                }
            },
        };
        (RegistrationFlow { phase, first_name, last_name, login, password }, action)
    }
}

} // verus!
