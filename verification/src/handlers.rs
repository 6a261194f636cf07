//! What each HTTP endpoint answers: who may call it, and the reply for each
//! outcome of the services it calls.

use crate::auth::{LoginError, LoginSuccess, LogoutError, UserAuth};
use crate::auth_utils::{check_auth_role, GetSetToken, SessionTokens};
use crate::posts::{
    post_ids, posts_list, rate_posts, taken_rates, ids_of, CreatePostError, GetPostsError,
    GetPostsQuantityError, GetPostsRatesError, Post, PostsList, RateKind, UpdateRateError,
};
use crate::text::text_is;
use crate::users::{RegistrationError, Role};
use std::collections::HashMap;
use vstd::prelude::*;

verus! {

/// The form of a sign-in.
#[derive(Debug)]
pub struct SignInPayload {
    pub login: String,
    pub password: String,
}

/// The form of a sign-up.
#[derive(Debug)]
pub struct SignUpPayload {
    pub first_name: String,
    pub last_name: String,
    pub login: String,
    pub password: String,
}

/// The body of a rate change; `None` clears the rate.
#[derive(Debug, Clone, Copy, PartialEq, Eq, Structural)]
pub struct SetPostRatePayload {
    pub rate: Option<RateKind>,
}

/// An HTTP answer.
#[derive(Debug)]
pub enum Reply {
    /// 200 with an empty body.
    Success,
    /// 200 with the sign-in answer as JSON.
    LoggedIn(LoginSuccess),
    /// 200 with a page of the feed as JSON.
    Posts(PostsList),
    /// 200 with the new post as JSON.
    CreatedPost(Post),
    /// 403 with a plain-text explanation.
    Forbidden(String),
    /// 400 with a JSON string.
    BadRequestJson(String),
    /// 400 with a plain-text explanation.
    BadRequestText(String),
    /// 500 with an empty body.
    InternalServerError,
}

/// `reply` is a 403 whose body reads `message`.
pub open spec fn is_forbidden(reply: Reply, message: Seq<char>) -> bool {
    reply matches Reply::Forbidden(m) && m@ == message
}

/// The refusal of an endpoint open to guests only.
pub open spec fn guests_only() -> Seq<char> {
    "Accessible only for users with role Guest."@
}

/// The refusal of an endpoint open to signed-in accounts.
pub open spec fn authorized_only() -> Seq<char> {
    "Accessible only for authorized users."@
}

/// The refusal of the feed to guests.
pub open spec fn users_or_admins_only() -> Seq<char> {
    "Accessible only for users with roles User or Admin."@
}

/// The refusal of post creation to non-admins.
pub open spec fn admins_only() -> Seq<char> {
    "Accessible only for users with role Admin."@
}

fn forbidden(message: &str) -> (reply: Reply)
    ensures
        is_forbidden(reply, message@),
{
    Reply::Forbidden(String::from_str(message))
}

/// Sign-in is open to guests only.
pub fn sign_in_gate(auth: UserAuth) -> (refusal: Option<Reply>)
    ensures
        auth.role == Role::Guest ==> refusal is None,
        auth.role != Role::Guest ==> (refusal matches Some(r) && is_forbidden(r, guests_only())),
{
    let roles = [Role::Guest];
    match check_auth_role(&roles, auth) {
        Ok(_) => None,
        Err(_) => Some(forbidden("Accessible only for users with role Guest.")),
    }
}

/// The answer to a sign-in. On success the new token goes into the session
/// before the answer is sent.
pub fn sign_in_reply(result: Result<LoginSuccess, LoginError>, session: &mut SessionTokens) -> (reply: Reply)
    ensures
        match result {
            Ok(success) => {
                &&& final(session).token() == Some(success.token)
                &&& reply == Reply::LoggedIn(success)
            },
            Err(LoginError::BadCredentialsError) => {
                &&& final(session).token() == old(session).token()
                &&& reply matches Reply::BadRequestJson(m) && m@ == "Неверный логин или пароль."@
            },
            Err(LoginError::DbError(_)) => {
                &&& final(session).token() == old(session).token()
                &&& reply is InternalServerError
            },
        },
{
    match result {
        Ok(success) => {
            session.set_auth_token(&success.token);
            Reply::LoggedIn(success)
        },
        Err(LoginError::BadCredentialsError) => Reply::BadRequestJson(String::from_str("Неверный логин или пароль.")),
        Err(LoginError::DbError(_)) => Reply::InternalServerError,
    }
}

/// Sign-up is open to guests only.
pub fn sign_up_gate(auth: UserAuth) -> (refusal: Option<Reply>)
    ensures
        auth.role == Role::Guest ==> refusal is None,
        auth.role != Role::Guest ==> (refusal matches Some(r) && is_forbidden(r, guests_only())),
{
    sign_in_gate(auth)
}

/// The answer to a sign-up.
pub fn sign_up_reply(result: Result<(), RegistrationError>) -> (reply: Reply)
    ensures
        match result {
            Ok(()) => reply is Success,
            Err(RegistrationError::LoginAlreadyOccupied) => reply matches Reply::BadRequestJson(m) && m@
                == "Введённый логин уже занят."@,
            Err(_) => reply is InternalServerError,
        },
{
    match result {
        Ok(()) => Reply::Success,
        Err(RegistrationError::LoginAlreadyOccupied) => Reply::BadRequestJson(String::from_str("Введённый логин уже занят.")),
        Err(_) => Reply::InternalServerError,
    }
}

/// Sign-out is open to users and admins; it signs out the caller's account.
pub fn sign_out_gate(auth: UserAuth) -> (user_id: Result<i32, Reply>)
    ensures
        (auth.role == Role::User || auth.role == Role::Admin) ==> user_id == Ok::<i32, Reply>(auth.user_id),
        auth.role == Role::Guest ==> (user_id matches Err(r) && is_forbidden(r, authorized_only())),
{
    let roles = [Role::User, Role::Admin];
    match check_auth_role(&roles, auth) {
        Ok(auth) => Ok(auth.user_id),
        Err(_) => Err(forbidden("Accessible only for authorized users.")),
    }
}

/// The answer to a sign-out. Once the account's token is invalidated it is
/// also removed from the session cookie.
pub fn sign_out_reply(result: Result<(), LogoutError>, session: &mut SessionTokens) -> (reply: Reply)
    ensures
        result is Ok ==> reply is Success && final(session).token() is None,
        result is Err ==> reply is InternalServerError && final(session).token() == old(session).token(),
{
    match result {
        Ok(()) => {
            session.clear_auth_token();
            Reply::Success
        },
        Err(_) => Reply::InternalServerError,
    }
}

/// Creating a post is open to admins, for JPEG and PNG images.
pub fn create_post_gate(auth: UserAuth, content_type: &String) -> (refusal: Option<Reply>)
    ensures
        auth.role != Role::Admin ==> (refusal matches Some(r) && is_forbidden(r, admins_only())),
        auth.role == Role::Admin ==> if content_type@ == "image/jpeg"@ || content_type@ == "image/png"@ {
            refusal is None
        } else {
            refusal matches Some(Reply::BadRequestText(m)) && m@ == "Bad image Content-Type. Only image/jpeg image/png allowed."@
        },
{
    let roles = [Role::Admin];
    if check_auth_role(&roles, auth).is_err() {
        return Some(forbidden("Accessible only for users with role Admin."));
    }
    if text_is(content_type, "image/jpeg") || text_is(content_type, "image/png") {
        None
    } else {
        Some(Reply::BadRequestText(String::from_str("Bad image Content-Type. Only image/jpeg image/png allowed.")))
    }
}

/// The answer to the creation of a post: the post itself.
pub fn create_post_reply(result: Result<Post, CreatePostError>) -> (reply: Reply)
    ensures
        match result {
            Ok(post) => reply == Reply::CreatedPost(post),
            Err(_) => reply is InternalServerError,
        },
{
    match result {
        Ok(post) => Reply::CreatedPost(post),
        Err(_) => Reply::InternalServerError,
    }
}

/// Rating is open to users (not admins); the rate is the caller's.
pub fn set_post_rate_gate(auth: UserAuth) -> (user_id: Result<i32, Reply>)
    ensures
        auth.role == Role::User ==> user_id == Ok::<i32, Reply>(auth.user_id),
        auth.role != Role::User ==> (user_id matches Err(r) && is_forbidden(r, authorized_only())),
{
    let roles = [Role::User];
    match check_auth_role(&roles, auth) {
        Ok(auth) => Ok(auth.user_id),
        Err(_) => Err(forbidden("Accessible only for authorized users.")),
    }
}

/// The answer to a rate change.
pub fn set_post_rate_reply(result: Result<(), UpdateRateError>) -> (reply: Reply)
    ensures
        result is Ok ==> reply is Success,
        result is Err ==> reply is InternalServerError,
{
    match result {
        Ok(()) => Reply::Success,
        Err(_) => Reply::InternalServerError,
    }
}

/// Where serving a page of the feed stands.
#[derive(Debug)]
pub enum FeedFlow {
    /// Waiting for the page of posts, for the account `user_id`.
    AwaitPosts { user_id: i32 },
    /// Waiting for the account's rates of the page's posts.
    AwaitRates { user_id: i32, posts: Vec<Post> },
    /// Waiting for the number of posts in the feed.
    AwaitTotal { items: Vec<crate::posts::RatedPost> },
    Done,
}

/// The outcome of the last requested read of the feed.
#[derive(Debug)]
pub enum FeedEvent {
    PostsLoaded(Result<Vec<Post>, GetPostsError>),
    RatesLoaded(Result<HashMap<i32, RateKind>, GetPostsRatesError>),
    TotalLoaded(Result<i64, GetPostsQuantityError>),
}

/// What the feed endpoint is to do next.
#[derive(Debug)]
pub enum FeedAction {
    /// Read the page of posts the request's list configuration names.
    LoadPosts,
    /// Read the account's rates of these posts.
    LoadRates { post_ids: Vec<i32>, user_id: i32 },
    /// Count the posts of the feed.
    LoadTotal,
    Answer(Reply),
}

/// The events the feed flow takes in each state.
pub open spec fn feed_accepts(flow: FeedFlow, event: FeedEvent) -> bool {
    match event {
        FeedEvent::PostsLoaded(_) => flow is AwaitPosts,
        FeedEvent::RatesLoaded(_) => flow is AwaitRates,
        FeedEvent::TotalLoaded(_) => flow is AwaitTotal,
    }
}

impl FeedFlow {
    /// A page of the feed is open to users and admins: read the page first.
    pub fn get_posts(auth: UserAuth) -> (start: (FeedFlow, FeedAction))
        ensures
            (auth.role == Role::User || auth.role == Role::Admin) ==> {
                &&& start.0 == (FeedFlow::AwaitPosts { user_id: auth.user_id })
                &&& start.1 is LoadPosts
            },
            auth.role == Role::Guest ==> {
                &&& start.0 is Done
                &&& start.1 matches FeedAction::Answer(r) && is_forbidden(r, users_or_admins_only())
            },
    {
        let roles = [Role::User, Role::Admin];
        match check_auth_role(&roles, auth) {
            Ok(auth) => (FeedFlow::AwaitPosts { user_id: auth.user_id }, FeedAction::LoadPosts),
            Err(_) => (
                FeedFlow::Done,
                FeedAction::Answer(forbidden("Accessible only for users with roles User or Admin.")),
            ),
        }
    }

    /// Takes the outcome of the last read and tells what to do next: any failed
    /// read is answered with 500; the answer pairs each post of the page with
    /// the account's rate for it and carries the number of posts of the feed.
    pub fn resume(self, event: FeedEvent) -> (next: (FeedFlow, FeedAction))
        requires
            feed_accepts(self, event),
        ensures
            match event {
                FeedEvent::PostsLoaded(Ok(posts)) => {
                    &&& next.0 == (FeedFlow::AwaitRates { user_id: self->AwaitPosts_user_id, posts })
                    &&& next.1 matches FeedAction::LoadRates { post_ids, user_id } && post_ids@ == ids_of(posts@)
                        && user_id == self->AwaitPosts_user_id
                },
                FeedEvent::RatesLoaded(Ok(rates)) => {
                    &&& next.1 is LoadTotal
                    &&& next.0 matches FeedFlow::AwaitTotal { items } && items@.len()
                        == self->AwaitRates_posts@.len() && forall|i: int|
                        0 <= i < items@.len() ==> #[trigger] items@[i].post == self->AwaitRates_posts@[i]
                            && items@[i].rate == taken_rates(ids_of(self->AwaitRates_posts@), rates@)[i]
                },
                FeedEvent::TotalLoaded(Ok(total)) => {
                    &&& next.0 is Done
                    &&& next.1 matches FeedAction::Answer(Reply::Posts(list)) && list.items
                        == self->AwaitTotal_items && list.total_quantity == total as i32
                },
                _ => {
                    &&& next.0 is Done
                    &&& next.1 matches FeedAction::Answer(Reply::InternalServerError)
                },
            },
    {
        match event {
            FeedEvent::PostsLoaded(Ok(posts)) => {
                let user_id = match self {
                    FeedFlow::AwaitPosts { user_id } => user_id,
                    _ => vstd::pervasive::unreached(),
                };
                let ids = post_ids(&posts);
                (FeedFlow::AwaitRates { user_id, posts }, FeedAction::LoadRates { post_ids: ids, user_id })
            },
            FeedEvent::RatesLoaded(Ok(rates)) => {
                let posts = match self {
                    FeedFlow::AwaitRates { posts, .. } => posts,
                    _ => vstd::pervasive::unreached(),
                };
                let items = rate_posts(&posts, rates);
                (FeedFlow::AwaitTotal { items }, FeedAction::LoadTotal)
            },
            FeedEvent::TotalLoaded(Ok(total)) => {
                let items = match self {
                    FeedFlow::AwaitTotal { items } => items,
                    _ => vstd::pervasive::unreached(),
                };
                (FeedFlow::Done, FeedAction::Answer(Reply::Posts(posts_list(items, total))))
            },
            _ => (FeedFlow::Done, FeedAction::Answer(Reply::InternalServerError)),
        }
    }
}

} // verus!
