//! Verified core of a small social feed backend: accounts, sign-in tokens,
//! role checks, posts and their like/dislike ratings.
//!
//! Everything that talks to the database, the session cookie or the file system
//! lives outside this crate; the library decides what to ask for and what to
//! answer with the replies it is handed back.

pub mod auth;
pub mod auth_entities;
pub mod auth_utils;
pub mod db;
pub mod handlers;
pub mod image_storage;
pub mod password_hasher;
pub mod posts;
pub mod rating;
mod text;
pub mod tokens;
pub mod users;
pub mod page_query;
