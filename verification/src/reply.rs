//! What the server answers a request with, and what it does to the session.
use vstd::prelude::*;

use crate::model::{Chat, MessageWithUsername};

verus! {

/// The HTTP status of an answer.
#[derive(Debug, Clone, Copy, PartialEq, Eq, Structural)]
pub enum Status {
    Success,
    Found,
    BadRequest,
    Unauthorized,
    NotFound,
    InternalServerError,
}

impl Status {
    /// The numeric HTTP status code.
    pub fn code(&self) -> (c: u16)
        ensures
            c == match *self {
                Status::Success => 200u16,
                Status::Found => 302u16,
                Status::BadRequest => 400u16,
                Status::Unauthorized => 401u16,
                Status::NotFound => 404u16,
                Status::InternalServerError => 500u16,
            },
    {
        match self {
            Status::Success => 200,
            Status::Found => 302,
            Status::BadRequest => 400,
            Status::Unauthorized => 401,
            Status::NotFound => 404,
            Status::InternalServerError => 500,
        }
    }
}

/// A fixed sentence that the server tells the visitor.
#[derive(Debug, Clone, Copy, PartialEq, Eq, Structural)]
pub enum Notice {
    UserNotFound,
    UsernameTaken,
    RegistrationSuccessful,
    RegistrationFailed,
    DatabaseError,
    InvalidPassword,
    PleaseLogIn,
    LoginRequiredForChat,
    LoginRequiredToJoin,
    JoinFailed,
    LoginRequiredToCreate,
    CreateFailed,
    SearchFailed,
    NotLoggedIn,
}

/// The words of each notice.
pub open spec fn notice_text(n: Notice) -> Seq<char> {
    match n {
        Notice::UserNotFound => "User not found."@,
        Notice::UsernameTaken => "Username is already taken."@,
        Notice::RegistrationSuccessful => "Registration successful!"@,
        Notice::RegistrationFailed => "An error occurred during registration."@,
        Notice::DatabaseError => "Database error."@,
        Notice::InvalidPassword => "Invalid password."@,
        Notice::PleaseLogIn => "Please log in."@,
        Notice::LoginRequiredForChat => "You must log in to access this page."@,
        Notice::LoginRequiredToJoin => "You must log in to join this chat."@,
        Notice::JoinFailed => "Failed to join the chat."@,
        Notice::LoginRequiredToCreate => "You must log in to create a chat."@,
        Notice::CreateFailed => "Failed to create chat."@,
        Notice::SearchFailed => "Error searching chats"@,
        Notice::NotLoggedIn => "User is not logged in"@,
    }
}

impl Notice {
    /// The words of this notice.
    pub fn text(&self) -> (t: &'static str)
        ensures
            t@ == notice_text(*self),
    {
        match self {
            Notice::UserNotFound => "User not found.",
            Notice::UsernameTaken => "Username is already taken.",
            Notice::RegistrationSuccessful => "Registration successful!",
            Notice::RegistrationFailed => "An error occurred during registration.",
            Notice::DatabaseError => "Database error.",
            Notice::InvalidPassword => "Invalid password.",
            Notice::PleaseLogIn => "Please log in.",
            Notice::LoginRequiredForChat => "You must log in to access this page.",
            Notice::LoginRequiredToJoin => "You must log in to join this chat.",
            Notice::JoinFailed => "Failed to join the chat.",
            Notice::LoginRequiredToCreate => "You must log in to create a chat.",
            Notice::CreateFailed => "Failed to create chat.",
            Notice::SearchFailed => "Error searching chats",
            Notice::NotLoggedIn => "User is not logged in",
        }
    }
}

/// The logged-in part of the home page: whose it is and the chats they belong to.
#[derive(Debug, Clone)]
pub struct Account {
    pub username: String,
    pub chats: Vec<Chat>,
}

/// A page drawn from one of the site's templates, with what it shows.
#[derive(Debug, Clone)]
pub enum Page {
    /// `index.html`: the home page, with the visitor's account when logged in.
    Index { account: Option<Account> },
    /// `login.html`, with a line for the visitor.
    Login { message: Notice },
    /// `chat.html`: one chat, whether the visitor belongs to it, and its messages.
    Chat { chat_id: String, is_member: bool, messages: Vec<MessageWithUsername> },
    /// `create_chat.html`.
    CreateChat,
    /// The static registration form.
    Register,
}

/// The answer to a request.
#[derive(Debug, Clone)]
pub enum Reply {
    /// An HTML page.
    Html { status: Status, page: Page },
    /// A plain text body.
    Text { status: Status, notice: Notice },
    /// `302 Found` to another location.
    Redirect { location: String },
    /// `200 OK` with the JSON object `{"chats": [...]}`.
    ChatList { chats: Vec<Chat> },
}

/// What an answer does to the logged-in user kept in the session.
#[derive(Debug, Clone)]
pub enum SessionUpdate {
    /// Leaves the session as it was.
    Keep,
    /// Stores this text as the session's user id.
    SetUser(String),
    /// Removes the session's user id.
    Clear,
}

} // verus!
