use rust_backend::auth::{
    AuthError, AuthService, CreateCredentialsError, LoginAction, LoginError, LoginEvent, LoginFlow,
    LogoutError, UserAuth,
};
use rust_backend::auth_utils::{
    check_auth_role, get_auth, get_auth_or_guest, AuthError as RoleError, GetSetToken, SessionTokens,
};
use rust_backend::db::DbError;
use rust_backend::password_hasher::PasswordHasher;
use rust_backend::users::Role;

fn hex(bytes: &[u8]) -> String {
    bytes.iter().map(|b| format!("{:02x}", b)).collect()
}

fn is_v4_token(s: &str) -> bool {
    let c: Vec<char> = s.chars().collect();
    c.len() == 36
        && c.iter().enumerate().all(|(i, ch)| {
            if i == 8 || i == 13 || i == 18 || i == 23 {
                *ch == '-'
            } else {
                ch.is_ascii_digit() || ('a'..='f').contains(ch)
            }
        })
        && c[14] == '4'
        && "89ab".contains(c[19])
}

fn service(salt: &str, iterations: u32) -> AuthService {
    AuthService { hasher: PasswordHasher { salt: salt.to_string(), iterations } }
}

#[test]
fn hash_matches_pbkdf2_vector_one_round() {
    let hasher = PasswordHasher { salt: "salt".to_string(), iterations: 1 };
    assert_eq!(
        hex(&hasher.get_hash("password")),
        "120fb6cffcf8b32c43e7225256c4f837a86548c92ccc35480805987cb70be17b"
    );
}

#[test]
fn hash_matches_pbkdf2_vector_two_rounds() {
    let hasher = PasswordHasher { salt: "salt".to_string(), iterations: 2 };
    assert_eq!(
        hex(&hasher.get_hash("password")),
        "ae4d0c95af6b46d32d0adff928f06dd02a303f8ef3c251dfd6e2d85a95474c43"
    );
}

#[test]
fn hasher_from_salt_uses_configured_rounds() {
    let hasher = PasswordHasher::from_salt("pepper".to_string());
    assert_eq!(hasher.iterations, 100_000);
    assert_eq!(hasher.salt, "pepper");
}

#[test]
fn hash_depends_on_salt_and_password() {
    let a = PasswordHasher { salt: "a".to_string(), iterations: 3 };
    let b = PasswordHasher { salt: "b".to_string(), iterations: 3 };
    assert_eq!(a.get_hash("pw"), a.get_hash("pw"));
    assert_ne!(a.get_hash("pw"), b.get_hash("pw"));
    assert_ne!(a.get_hash("pw"), a.get_hash("pw2"));
}

#[test]
fn registered_hash_is_the_hash_sign_in_looks_for() {
    let auth = service("s3cret", 10);
    let row = auth.create_credentials(7, "alice", "hunter2");
    let (_, action) = auth.login("alice", "hunter2");
    match action {
        LoginAction::FindUser { login, password_hash } => {
            assert_eq!(login, "alice");
            assert_eq!(password_hash, row.password_hash);
        }
        other => panic!("unexpected action {:?}", other),
    }
    assert_eq!(row.user_id, 7);
    assert_eq!(row.login, "alice");
}

#[test]
fn login_success_stores_then_returns_fresh_token() {
    let auth = service("s", 2);
    let (flow, _) = auth.login("bob", "pw");
    let (flow, action) = flow.resume(LoginEvent::UserFound(Some((42, Role::Admin))));
    let stored = match action {
        LoginAction::StoreToken { user_id, token } => {
            assert_eq!(user_id, 42);
            assert!(is_v4_token(&token));
            token
        }
        other => panic!("unexpected action {:?}", other),
    };
    let (flow, action) = flow.resume(LoginEvent::TokenStored);
    assert!(matches!(flow, LoginFlow::Done));
    match action {
        LoginAction::Finish(Ok(success)) => {
            assert_eq!(success.token, stored);
            assert_eq!(success.user_id, 42);
            assert_eq!(success.role, Role::Admin);
        }
        other => panic!("unexpected action {:?}", other),
    }
}

#[test]
fn login_tokens_differ_between_sign_ins() {
    let auth = service("s", 1);
    let mut tokens = Vec::new();
    for _ in 0..2 {
        let (flow, _) = auth.login("bob", "pw");
        if let (_, LoginAction::StoreToken { token, .. }) = flow.resume(LoginEvent::UserFound(Some((1, Role::User)))) {
            tokens.push(token);
        }
    }
    assert_eq!(tokens.len(), 2);
    assert_ne!(tokens[0], tokens[1]);
}

#[test]
fn login_with_bad_credentials() {
    let auth = service("s", 1);
    let (flow, _) = auth.login("bob", "wrong");
    let (flow, action) = flow.resume(LoginEvent::UserFound(None));
    assert!(matches!(flow, LoginFlow::Done));
    assert!(matches!(action, LoginAction::Finish(Err(LoginError::BadCredentialsError))));
}

#[test]
fn login_database_failure() {
    let auth = service("s", 1);
    let (flow, _) = auth.login("bob", "pw");
    let (flow, _) = flow.resume(LoginEvent::UserFound(Some((1, Role::User))));
    let (_, action) = flow.resume(LoginEvent::DbFailed(DbError::Other { message: "gone".to_string() }));
    assert!(matches!(
        action,
        LoginAction::Finish(Err(LoginError::DbError(DbError::Other { ref message }))) if message == "gone"
    ));
}

#[test]
fn authorize_outcomes() {
    let user = UserAuth { user_id: 3, role: Role::User };
    assert_eq!(AuthService::authorize(Ok(Some(user))).unwrap(), user);
    assert!(matches!(AuthService::authorize(Ok(None)), Err(AuthError::UnknownToken)));
    assert!(matches!(
        AuthService::authorize(Err(DbError::Database { code: Some("57P01".to_string()) })),
        Err(AuthError::DbError(DbError::Database { .. }))
    ));
}

#[test]
fn logout_outcomes() {
    assert!(AuthService::logout(Ok(())).is_ok());
    assert!(matches!(
        AuthService::logout(Err(DbError::Other { message: "x".to_string() })),
        Err(LogoutError::DbError(_))
    ));
}

#[test]
fn credentials_errors_by_sqlstate() {
    let known = AuthService::credentials_created(Err(DbError::Database { code: Some("23505".to_string()) }));
    assert!(matches!(known, Err(CreateCredentialsError::KnownLoginError)));
    let unknown = AuthService::credentials_created(Err(DbError::Database { code: Some("23503".to_string()) }));
    assert!(matches!(unknown, Err(CreateCredentialsError::UnknownUserIdError)));
    let other = AuthService::credentials_created(Err(DbError::Database { code: Some("40001".to_string()) }));
    assert!(matches!(
        other,
        Err(CreateCredentialsError::DbError(DbError::Database { code: Some(ref c) })) if c == "40001"
    ));
    let io = AuthService::credentials_created(Err(DbError::Other { message: "io".to_string() }));
    assert!(matches!(io, Err(CreateCredentialsError::DbError(DbError::Other { .. }))));
    assert!(AuthService::credentials_created(Ok(())).is_ok());
}

#[test]
fn session_gives_back_the_token_written() {
    let mut session = SessionTokens::new(None);
    assert_eq!(session.get_auth_token(), None);
    session.set_auth_token(&"abc".to_string());
    assert_eq!(session.get_auth_token(), Some("abc".to_string()));
    session.set_auth_token(&"def".to_string());
    assert_eq!(session.get_auth_token(), Some("def".to_string()));
    assert_eq!(session.into_auth_token(), Some("def".to_string()));
}

#[test]
fn get_auth_ignores_missing_or_unknown_tokens() {
    let user = UserAuth { user_id: 9, role: Role::Admin };
    assert_eq!(get_auth(Some(Ok(user))), Some(user));
    assert_eq!(get_auth(Some(Err(AuthError::UnknownToken))), None);
    assert_eq!(get_auth(None), None);
}

#[test]
fn visitors_without_account_are_guests() {
    let guest = get_auth_or_guest(None);
    assert_eq!(guest, UserAuth { user_id: 0, role: Role::Guest });
    let user = UserAuth { user_id: 5, role: Role::User };
    assert_eq!(get_auth_or_guest(Some(user)), user);
}

#[test]
fn role_check_lets_listed_roles_through() {
    let admin = UserAuth { user_id: 1, role: Role::Admin };
    assert_eq!(check_auth_role(&[Role::User, Role::Admin], admin), Ok(admin));
    assert_eq!(check_auth_role(&[Role::Guest], admin), Err(RoleError::BadRoleError));
    assert_eq!(check_auth_role(&[], admin), Err(RoleError::BadRoleError));
}
