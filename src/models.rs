//! The persistent data model, as plain values.

use vstd::prelude::*;

use crate::UserID;

verus! {

/// A stored user.
#[derive(Debug, Clone, PartialEq, Eq)]
pub struct User {
    pub id: UserID,
    pub username: String,
    pub name: String,
    pub hashed_password: String,
    pub status: Option<String>,
    pub bio: Option<String>,
    pub is_banned: bool,
    pub is_active: bool,
}

/// What credential verification needs of a user: its identity and its
/// password hash.
#[derive(Debug, Clone, PartialEq, Eq)]
pub struct UserAthorizeDTO {
    pub id: UserID,
    pub hashed_password: String,
}

/// A user about to be stored.
#[derive(Debug, Clone, PartialEq, Eq)]
pub struct NewUser {
    pub id: UserID,
    pub username: String,
    pub name: String,
    pub hashed_password: String,
    pub status: Option<String>,
    pub bio: Option<String>,
}

/// A chat room.
#[derive(Debug, Clone, PartialEq, Eq)]
pub struct Chat {
    pub id: i64,
    pub name: String,
}

/// A chat room about to be stored.
#[derive(Debug, Clone, PartialEq, Eq)]
pub struct NewChat {
    pub id: i64,
    pub name: String,
}

/// Membership of a user in a chat room.
#[derive(Debug, Clone, Copy, PartialEq, Eq, Structural)]
pub struct ChatUser {
    pub chat_id: i64,
    pub user_id: i64,
}

/// A membership about to be stored.
#[derive(Debug, Clone, Copy, PartialEq, Eq, Structural)]
pub struct NewChatUser {
    pub chat_id: i64,
    pub user_id: i64,
}

/// A stored message; `updated_at` is in seconds since the Unix epoch (UTC).
#[derive(Debug, Clone, PartialEq, Eq)]
pub struct Message {
    pub id: i64,
    pub user_id: i64,
    pub chat_id: i64,
    pub content: String,
    pub updated_at: i64,
}

/// A message about to be stored.
#[derive(Debug, Clone, PartialEq, Eq)]
pub struct NewMessage {
    pub user_id: i64,
    pub chat_id: i64,
    pub content: String,
}

} // verus!
