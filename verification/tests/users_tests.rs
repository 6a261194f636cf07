use rust_backend::auth::{AuthService, CreateCredentialsError};
use rust_backend::db::DbError;
use rust_backend::password_hasher::PasswordHasher;
use rust_backend::users::{
    RegistrationAction, RegistrationError, RegistrationEvent, RegistrationFlow, RegistrationPhase, Role,
    UsersService,
};

fn users() -> UsersService {
    UsersService { auth_service: AuthService { hasher: PasswordHasher { salt: "s".to_string(), iterations: 1 } } }
}

fn start(service: &UsersService) -> RegistrationFlow {
    let (flow, action) = service.registration(
        &"Ann".to_string(),
        &"Lee".to_string(),
        &"ann".to_string(),
        &"pw".to_string(),
    );
    assert!(matches!(action, RegistrationAction::BeginTransaction));
    flow
}

#[test]
fn registration_inserts_user_then_credentials_then_commits() {
    let service = users();
    let flow = start(&service);
    let (flow, action) = service.resume_registration(flow, RegistrationEvent::TransactionBegun);
    match action {
        RegistrationAction::InsertUser { first_name, last_name, role } => {
            assert_eq!(first_name, "Ann");
            assert_eq!(last_name, "Lee");
            assert_eq!(role, Role::User);
        }
        other => panic!("unexpected {:?}", other),
    }
    let (flow, action) = service.resume_registration(flow, RegistrationEvent::UserInserted(77));
    match action {
        RegistrationAction::InsertCredentials(row) => {
            assert_eq!(row.user_id, 77);
            assert_eq!(row.login, "ann");
            assert_eq!(row.password_hash, service.auth_service.hasher.get_hash("pw"));
        }
        other => panic!("unexpected {:?}", other),
    }
    let (flow, action) = service.resume_registration(flow, RegistrationEvent::CredentialsInserted);
    assert!(matches!(action, RegistrationAction::Commit));
    let (flow, action) = service.resume_registration(flow, RegistrationEvent::Committed);
    assert_eq!(flow.phase, RegistrationPhase::Done);
    assert!(matches!(action, RegistrationAction::Finish(Ok(()))));
}

#[test]
fn registration_with_taken_login() {
    let service = users();
    let flow = start(&service);
    let (flow, _) = service.resume_registration(flow, RegistrationEvent::TransactionBegun);
    let (flow, _) = service.resume_registration(flow, RegistrationEvent::UserInserted(1));
    let taken = DbError::Database { code: Some("23505".to_string()) };
    let (flow, action) = service.resume_registration(flow, RegistrationEvent::DbFailed(taken));
    assert_eq!(flow.phase, RegistrationPhase::Done);
    assert!(matches!(action, RegistrationAction::Finish(Err(RegistrationError::LoginAlreadyOccupied))));
}

#[test]
fn registration_credentials_failure_passed_on() {
    let service = users();
    let flow = start(&service);
    let (flow, _) = service.resume_registration(flow, RegistrationEvent::TransactionBegun);
    let (flow, _) = service.resume_registration(flow, RegistrationEvent::UserInserted(1));
    let fk = DbError::Database { code: Some("23503".to_string()) };
    let (_, action) = service.resume_registration(flow, RegistrationEvent::DbFailed(fk));
    assert!(matches!(
        action,
        RegistrationAction::Finish(Err(RegistrationError::CreateCredentialsError(
            CreateCredentialsError::UnknownUserIdError
        )))
    ));
}

#[test]
fn registration_database_failure_elsewhere() {
    let service = users();
    let flow = start(&service);
    let failure = DbError::Database { code: Some("23505".to_string()) };
    let (_, action) = service.resume_registration(flow, RegistrationEvent::DbFailed(failure));
    assert!(matches!(action, RegistrationAction::Finish(Err(RegistrationError::DbError(_)))));
}
