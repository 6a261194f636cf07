use rust_backend::auth::{LoginError, LoginSuccess, LogoutError, UserAuth};
use rust_backend::auth_utils::{GetSetToken, SessionTokens};
use rust_backend::db::DbError;
use rust_backend::handlers::{
    create_post_gate, create_post_reply, set_post_rate_gate, set_post_rate_reply, sign_in_gate,
    sign_in_reply, sign_out_gate, sign_out_reply, sign_up_gate, sign_up_reply, FeedAction, FeedEvent,
    FeedFlow, Reply,
};
use rust_backend::posts::{CreatePostError, GetPostsError, Post, RateKind, UpdateRateError};
use rust_backend::users::{RegistrationError, Role};
use std::collections::HashMap;

fn who(role: Role) -> UserAuth {
    UserAuth { user_id: 12, role }
}

fn forbidden_text(reply: Option<Reply>) -> String {
    match reply {
        Some(Reply::Forbidden(m)) => m,
        other => panic!("expected a 403, got {:?}", other),
    }
}

fn post(id: i32) -> Post {
    Post { id, created_at: 0, text: String::new(), image_url: String::new(), likes_quantity: 0, dislikes_quantity: 0 }
}

#[test]
fn sign_in_and_up_only_for_guests() {
    assert!(sign_in_gate(who(Role::Guest)).is_none());
    assert!(sign_up_gate(who(Role::Guest)).is_none());
    for role in [Role::User, Role::Admin] {
        assert_eq!(forbidden_text(sign_in_gate(who(role))), "Accessible only for users with role Guest.");
        assert_eq!(forbidden_text(sign_up_gate(who(role))), "Accessible only for users with role Guest.");
    }
}

#[test]
fn sign_in_success_sets_session_token() {
    let mut session = SessionTokens::new(Some("old".to_string()));
    let success = LoginSuccess { token: "new-token".to_string(), role: Role::User, user_id: 5 };
    match sign_in_reply(Ok(success), &mut session) {
        Reply::LoggedIn(s) => {
            assert_eq!(s.token, "new-token");
            assert_eq!(s.user_id, 5);
        }
        other => panic!("unexpected {:?}", other),
    }
    assert_eq!(session.get_auth_token(), Some("new-token".to_string()));
}

#[test]
fn sign_in_failures() {
    let mut session = SessionTokens::new(None);
    match sign_in_reply(Err(LoginError::BadCredentialsError), &mut session) {
        Reply::BadRequestJson(m) => assert_eq!(m, "Неверный логин или пароль."),
        other => panic!("unexpected {:?}", other),
    }
    let reply = sign_in_reply(Err(LoginError::DbError(DbError::Other { message: String::new() })), &mut session);
    assert!(matches!(reply, Reply::InternalServerError));
    assert_eq!(session.get_auth_token(), None);
}

#[test]
fn sign_up_replies() {
    assert!(matches!(sign_up_reply(Ok(())), Reply::Success));
    match sign_up_reply(Err(RegistrationError::LoginAlreadyOccupied)) {
        Reply::BadRequestJson(m) => assert_eq!(m, "Введённый логин уже занят."),
        other => panic!("unexpected {:?}", other),
    }
    let db = RegistrationError::DbError(DbError::Other { message: String::new() });
    assert!(matches!(sign_up_reply(Err(db)), Reply::InternalServerError));
}

#[test]
fn sign_out_for_accounts_only() {
    assert_eq!(sign_out_gate(who(Role::User)).unwrap(), 12);
    assert_eq!(sign_out_gate(who(Role::Admin)).unwrap(), 12);
    assert_eq!(forbidden_text(sign_out_gate(who(Role::Guest)).err()), "Accessible only for authorized users.");
    let mut session = SessionTokens::new(Some("tok".to_string()));
    let failed = Err(LogoutError::DbError(DbError::Other { message: String::new() }));
    assert!(matches!(sign_out_reply(failed, &mut session), Reply::InternalServerError));
    assert_eq!(session.get_auth_token(), Some("tok".to_string()));
    assert!(matches!(sign_out_reply(Ok(()), &mut session), Reply::Success));
    assert_eq!(session.get_auth_token(), None);
}

#[test]
fn create_post_for_admins_with_images() {
    let jpeg = "image/jpeg".to_string();
    let png = "image/png".to_string();
    let gif = "image/gif".to_string();
    assert!(create_post_gate(who(Role::Admin), &jpeg).is_none());
    assert!(create_post_gate(who(Role::Admin), &png).is_none());
    match create_post_gate(who(Role::Admin), &gif) {
        Some(Reply::BadRequestText(m)) => assert_eq!(m, "Bad image Content-Type. Only image/jpeg image/png allowed."),
        other => panic!("unexpected {:?}", other),
    }
    assert_eq!(forbidden_text(create_post_gate(who(Role::User), &jpeg)), "Accessible only for users with role Admin.");
    assert_eq!(forbidden_text(create_post_gate(who(Role::Guest), &gif)), "Accessible only for users with role Admin.");
    match create_post_reply(Ok(post(4))) {
        Reply::CreatedPost(p) => assert_eq!(p.id, 4),
        other => panic!("unexpected {:?}", other),
    }
    let failed = Err(CreatePostError::DbError(DbError::Other { message: String::new() }));
    assert!(matches!(create_post_reply(failed), Reply::InternalServerError));
}

#[test]
fn rating_for_users_only() {
    assert_eq!(set_post_rate_gate(who(Role::User)).unwrap(), 12);
    assert_eq!(forbidden_text(set_post_rate_gate(who(Role::Admin)).err()), "Accessible only for authorized users.");
    assert_eq!(forbidden_text(set_post_rate_gate(who(Role::Guest)).err()), "Accessible only for authorized users.");
    assert!(matches!(set_post_rate_reply(Ok(())), Reply::Success));
    assert!(matches!(set_post_rate_reply(Err(UpdateRateError::UnknownPostId)), Reply::InternalServerError));
}

#[test]
fn feed_page_with_rates_and_total() {
    let (flow, action) = FeedFlow::get_posts(who(Role::User));
    assert!(matches!(action, FeedAction::LoadPosts));
    let (flow, action) = flow.resume(FeedEvent::PostsLoaded(Ok(vec![post(8), post(9)])));
    match action {
        FeedAction::LoadRates { post_ids, user_id } => {
            assert_eq!(post_ids, vec![8, 9]);
            assert_eq!(user_id, 12);
        }
        other => panic!("unexpected {:?}", other),
    }
    let mut rates = HashMap::new();
    rates.insert(9, RateKind::Like);
    let (flow, action) = flow.resume(FeedEvent::RatesLoaded(Ok(rates)));
    assert!(matches!(action, FeedAction::LoadTotal));
    let (flow, action) = flow.resume(FeedEvent::TotalLoaded(Ok(40)));
    assert!(matches!(flow, FeedFlow::Done));
    match action {
        FeedAction::Answer(Reply::Posts(list)) => {
            assert_eq!(list.total_quantity, 40);
            assert_eq!(list.items.len(), 2);
            assert_eq!(list.items[0].post.id, 8);
            assert_eq!(list.items[0].rate, None);
            assert_eq!(list.items[1].rate, Some(RateKind::Like));
        }
        other => panic!("unexpected {:?}", other),
    }
}

#[test]
fn feed_refused_to_guests_and_failing_reads() {
    match FeedFlow::get_posts(who(Role::Guest)) {
        (FeedFlow::Done, FeedAction::Answer(Reply::Forbidden(m))) => {
            assert_eq!(m, "Accessible only for users with roles User or Admin.")
        }
        other => panic!("unexpected {:?}", other),
    }
    let (flow, _) = FeedFlow::get_posts(who(Role::Admin));
    let failed = FeedEvent::PostsLoaded(Err(GetPostsError::DbError(DbError::Other { message: String::new() })));
    let (flow, action) = flow.resume(failed);
    assert!(matches!(flow, FeedFlow::Done));
    assert!(matches!(action, FeedAction::Answer(Reply::InternalServerError)));
}
