//! The records that the chat database holds: accounts, chats and messages.
use vstd::prelude::*;

verus! {

/// The moment a message was stored; the database writes it and the pages show it.
#[verifier::external_type_specification]
#[verifier::external_body]
pub struct ExNaiveDateTime(chrono::NaiveDateTime);

/// An account: a unique user name and the password it logs in with.
#[derive(Debug, Clone)]
pub struct User {
    pub id: Option<i64>,
    pub username: String,
    pub password: String,
}

/// A chat room, owned by the user who created it.
#[derive(Debug, Clone)]
pub struct Chat {
    pub id: Option<i64>,
    pub name: String,
    pub owner_id: Option<i64>,
}

/// A stored message: a text, a file, or both, sent by a user in a chat.
#[derive(Debug, Clone)]
pub struct Message {
    pub id: Option<i64>,
    pub chat_id: Option<i64>,
    pub user_id: Option<i64>,
    pub content: Option<String>,
    pub file_path: Option<String>,
    pub sent_at: Option<chrono::NaiveDateTime>,
}

/// A stored message together with the name of its sender, as a chat page lists it.
#[derive(Debug, Clone)]
pub struct MessageWithUsername {
    pub id: i64,
    pub chat_id: i64,
    pub user_id: i64,
    pub content: Option<String>,
    pub file_path: Option<String>,
    pub sent_at: Option<chrono::NaiveDateTime>,
    pub username: String,
}

/// A query that the database refused or could not run, with its description.
#[derive(Debug, Clone)]
pub struct DbError {
    pub detail: String,
}

impl Chat {
    /// Whether a membership count, as the database reports it for one user and
    /// one chat, means that the user belongs to the chat.
    pub fn is_member_count(count: i64) -> (member: bool)
        ensures
            member == (count > 0),
    {
        count > 0
    }
}

} // verus!
