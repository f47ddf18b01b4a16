//! The decisions of each web page: who may see it, which database query it
//! needs next, and the answer it gives once the database has replied.
//!
//! The database itself, the session cookie and the templates stay with the
//! caller: these functions take what they returned and say what comes next.
use vstd::prelude::*;
use vstd::string::*;

use crate::decimal::{append_decimal, decimal, decimal_string, parse_decimal, parsed_i64};
use crate::model::{Chat, DbError, MessageWithUsername, User};
use crate::reply::{Account, Notice, Reply, SessionUpdate, Status, Page};

verus! {

/// The registration form.
#[derive(Debug, Clone)]
pub struct RegisterForm {
    pub username: String,
    pub password: String,
}

/// The log-in form.
#[derive(Debug, Clone)]
pub struct LoginForm {
    pub username: String,
    pub password: String,
}

/// The form that names a new chat.
#[derive(Debug, Clone)]
pub struct CreateChatForm {
    pub name: String,
}

/// The chat search: a part of the names sought.
#[derive(Debug, Clone)]
pub struct SearchQuery {
    pub query: String,
}

/// Who the session says is logged in.
#[derive(Debug, Clone, Copy, PartialEq, Eq, Structural)]
pub enum SessionUser {
    /// The session holds no user id.
    Anonymous,
    /// The session holds the decimal text of this user id.
    User(i64),
    /// The session holds a user id that is not the decimal text of an `i64`.
    Unreadable,
}

/// Who the session value `value` says is logged in.
pub open spec fn spec_session_user(value: Option<Seq<char>>) -> SessionUser {
    match value {
        None => SessionUser::Anonymous,
        Some(s) => match parsed_i64(s) {
            Some(id) => SessionUser::User(id),
            None => SessionUser::Unreadable,
        },
    }
}

/// The session value as text, if any.
pub open spec fn session_text(value: Option<String>) -> Option<Seq<char>> {
    match value {
        Some(s) => Some(s@),
        None => None,
    }
}

/// Reads the session's user id, as every page that needs a logged-in user does.
pub fn session_user(value: &Option<String>) -> (who: SessionUser)
    ensures
        who == spec_session_user(session_text(*value)),
{
    match value {
        None => SessionUser::Anonymous,
        Some(s) => match parse_decimal(s.as_str()) {
            Some(id) => SessionUser::User(id),
            None => SessionUser::Unreadable,
        },
    }
}

/// The session's user id after an answer's update: set, removed, or kept.
pub open spec fn updated_session(value: Option<Seq<char>>, update: SessionUpdate) -> Option<
    Seq<char>,
> {
    match update {
        SessionUpdate::Keep => value,
        SessionUpdate::SetUser(s) => Some(s@),
        SessionUpdate::Clear => None,
    }
}

/// After a successful log-in of the user with id `id`, whatever the session held
/// before, every later page reads that same user back from the session.
pub proof fn lemma_login_then_session_user(before: Option<Seq<char>>, id: i64, set: String)
    requires
        set@ == decimal(id as int),
    ensures
        spec_session_user(updated_session(before, SessionUpdate::SetUser(set))) == SessionUser::User(
            id,
        ),
{
    crate::decimal::lemma_parse_decimal_roundtrip(id);
}

/// After log-out, every later page sees an anonymous visitor.
pub proof fn lemma_logout_then_anonymous(before: Option<Seq<char>>)
    ensures
        spec_session_user(updated_session(before, SessionUpdate::Clear)) == SessionUser::Anonymous,
{
}

/// An answer made of a fixed sentence.
pub open spec fn text_reply(status: Status, notice: Notice) -> Reply {
    Reply::Text { status, notice }
}

/// Whether `r` redirects to the location `loc`.
pub open spec fn redirects_to(r: Reply, loc: Seq<char>) -> bool {
    r matches Reply::Redirect { location } && location@ == loc
}

fn redirect_home() -> (r: Reply)
    ensures
        redirects_to(r, "/"@),
{
    Reply::Redirect { location: String::from_str("/") }
}

// ---------------------------------------------------------------- home page

/// The step that the home page takes next.
#[derive(Debug, Clone)]
pub enum HomeNext {
    /// Answer now.
    Answer(Reply),
    /// Look up the account with this id.
    LoadUser(i64),
    /// Load the chats that the user with this id belongs to, to show under this name.
    LoadChats { user_id: i64, username: String },
}

/// The home page, first step: an anonymous visitor sees the plain page; for a
/// logged-in one the account is looked up.
pub fn show_home_page(session_user: Option<i64>) -> (next: HomeNext)
    ensures
        match session_user {
            None => next matches HomeNext::Answer(r) && r matches Reply::Html {
                status: Status::Success,
                page: Page::Index { account: None },
            },
            Some(id) => next matches HomeNext::LoadUser(u) && u == id,
        },
{
    match session_user {
        None => HomeNext::Answer(
            Reply::Html { status: Status::Success, page: Page::Index { account: None } },
        ),
        Some(id) => HomeNext::LoadUser(id),
    }
}

/// The home page once the account has been looked up: a found account has
/// its chats loaded; anything else is answered `401 User not found.`
pub fn home_page_user_loaded(user_id: i64, found: Result<Option<User>, DbError>) -> (next:
    HomeNext)
    ensures
        match found {
            Ok(Some(user)) => next matches HomeNext::LoadChats { user_id: u, username } && u
                == user_id && username@ == user.username@,
            _ => next matches HomeNext::Answer(r) && r == text_reply(
                Status::Unauthorized,
                Notice::UserNotFound,
            ),
        },
{
    match found {
        Ok(Some(user)) => HomeNext::LoadChats { user_id, username: user.username },
        _ => HomeNext::Answer(
            Reply::Text { status: Status::Unauthorized, notice: Notice::UserNotFound },
        ),
    }
}

/// The home page of a logged-in user: their name and their chats, or no chats
/// where the chats could not be loaded.
pub fn home_page_chats_loaded(username: String, chats: Result<Vec<Chat>, DbError>) -> (r: Reply)
    ensures
        r matches Reply::Html {
            status: Status::Success,
            page: Page::Index { account: Some(a) },
        } && a.username == username && a.chats@ == match chats {
            Ok(cs) => cs@,
            Err(_) => Seq::<Chat>::empty(),
        },
{
    let list = match chats {
        Ok(cs) => cs,
        Err(_) => Vec::new(),
    };
    Reply::Html {
        status: Status::Success,
        page: Page::Index { account: Some(Account { username, chats: list }) },
    }
}

// ------------------------------------------------------------- registration

/// The registration step that comes after the name was looked up.
#[derive(Debug, Clone)]
pub enum RegisterNext {
    /// Answer now.
    Answer(Reply),
    /// Store a new account with this name and password.
    CreateUser { username: String, password: String },
}

/// Registration, once the requested user name has been looked up: a taken name
/// is refused, a free one is stored, a failed lookup is reported.
pub fn register_user(form: RegisterForm, existing: Result<Option<User>, DbError>) -> (next:
    RegisterNext)
    ensures
        match existing {
            Ok(Some(_)) => next matches RegisterNext::Answer(r) && r == text_reply(
                Status::BadRequest,
                Notice::UsernameTaken,
            ),
            Ok(None) => next matches RegisterNext::CreateUser { username, password }
                && username == form.username && password == form.password,
            Err(_) => next matches RegisterNext::Answer(r) && r == text_reply(
                Status::InternalServerError,
                Notice::DatabaseError,
            ),
        },
{
    match existing {
        Ok(Some(_)) => RegisterNext::Answer(
            Reply::Text { status: Status::BadRequest, notice: Notice::UsernameTaken },
        ),
        Ok(None) => RegisterNext::CreateUser { username: form.username, password: form.password },
        Err(_) => RegisterNext::Answer(
            Reply::Text { status: Status::InternalServerError, notice: Notice::DatabaseError },
        ),
    }
}

/// Registration, once the new account was stored or not.
pub fn register_user_created(created: Result<User, DbError>) -> (r: Reply)
    ensures
        r == match created {
            Ok(_) => text_reply(Status::Success, Notice::RegistrationSuccessful),
            Err(_) => text_reply(Status::InternalServerError, Notice::RegistrationFailed),
        },
{
    match created {
        Ok(_) => Reply::Text { status: Status::Success, notice: Notice::RegistrationSuccessful },
        Err(_) => Reply::Text {
            status: Status::InternalServerError,
            notice: Notice::RegistrationFailed,
        },
    }
}

/// The registration form page.
pub fn show_register_form() -> (r: Reply)
    ensures
        r matches Reply::Html { status: Status::Success, page: Page::Register },
{
    Reply::Html { status: Status::Success, page: Page::Register }
}

// ------------------------------------------------------------ log in and out

/// An answer together with what it does to the session.
#[derive(Debug, Clone)]
pub struct SessionReply {
    pub reply: Reply,
    pub session: SessionUpdate,
}

/// Whether the looked-up account admits the form's password.
pub open spec fn password_matches(found: Result<Option<User>, DbError>, form: LoginForm) -> bool {
    found matches Ok(Some(user)) && user.password@ == form.password@
}

/// Log-in, once the account of the form's user name has been looked up: the
/// right password stores the user's id in the session and goes home; a wrong
/// one, or an unknown name, shows the log-in page again with the reason.
pub fn login_user(form: &LoginForm, found: Result<Option<User>, DbError>) -> (out: SessionReply)
    requires
        password_matches(found, *form) ==> found->Ok_0->Some_0.id is Some,
    ensures
        match found {
            Ok(Some(user)) => if user.password@ == form.password@ {
                &&& redirects_to(out.reply, "/"@)
                &&& out.session matches SessionUpdate::SetUser(v) && v@ == decimal(
                    user.id->Some_0 as int,
                )
            } else {
                &&& out.reply matches Reply::Html {
                    status: Status::Unauthorized,
                    page: Page::Login { message: Notice::InvalidPassword },
                }
                &&& out.session is Keep
            },
            Ok(None) => {
                &&& out.reply matches Reply::Html {
                    status: Status::NotFound,
                    page: Page::Login { message: Notice::UserNotFound },
                }
                &&& out.session is Keep
            },
            Err(_) => {
                &&& out.reply == text_reply(Status::InternalServerError, Notice::DatabaseError)
                &&& out.session is Keep
            },
        },
{
    match found {
        Ok(Some(user)) => {
            if user.password == form.password {
                let id = match user.id {
                    Some(id) => id,
                    None => {
                        assert(false);
                        0
                    },
                };
                SessionReply { reply: redirect_home(), session: SessionUpdate::SetUser(decimal_string(id)) }
            } else {
                SessionReply {
                    reply: Reply::Html {
                        status: Status::Unauthorized,
                        page: Page::Login { message: Notice::InvalidPassword },
                    },
                    session: SessionUpdate::Keep,
                }
            }
        },
        Ok(None) => SessionReply {
            reply: Reply::Html {
                status: Status::NotFound,
                page: Page::Login { message: Notice::UserNotFound },
            },
            session: SessionUpdate::Keep,
        },
        Err(_) => SessionReply {
            reply: Reply::Text {
                status: Status::InternalServerError,
                notice: Notice::DatabaseError,
            },
            session: SessionUpdate::Keep,
        },
    }
}

/// The log-in page.
pub fn show_login_form() -> (r: Reply)
    ensures
        r matches Reply::Html {
            status: Status::Success,
            page: Page::Login { message: Notice::PleaseLogIn },
        },
{
    Reply::Html { status: Status::Success, page: Page::Login { message: Notice::PleaseLogIn } }
}

/// Log-out: forgets the session's user and goes home.
pub fn logout_user() -> (out: SessionReply)
    ensures
        redirects_to(out.reply, "/"@),
        out.session is Clear,
{
    SessionReply { reply: redirect_home(), session: SessionUpdate::Clear }
}

// --------------------------------------------------------------- chat page

/// The step that a chat page takes next.
#[derive(Debug, Clone)]
pub enum ChatPageNext {
    /// Answer now.
    Answer(Reply),
    /// Ask whether this user belongs to this chat, and load the chat's messages.
    Load { user_id: i64, chat_id: i64 },
}

/// A chat page, first step: only a logged-in user may see it.
pub fn show_chat_page(session_user: Option<i64>, chat_id: i64) -> (next: ChatPageNext)
    ensures
        match session_user {
            None => next matches ChatPageNext::Answer(r) && r == text_reply(
                Status::Unauthorized,
                Notice::LoginRequiredForChat,
            ),
            Some(id) => next matches ChatPageNext::Load { user_id, chat_id: c } && user_id == id
                && c == chat_id,
        },
{
    match session_user {
        None => ChatPageNext::Answer(
            Reply::Text { status: Status::Unauthorized, notice: Notice::LoginRequiredForChat },
        ),
        Some(user_id) => ChatPageNext::Load { user_id, chat_id },
    }
}

/// A chat page once the database has answered: the chat's number, whether the
/// user belongs to it (no, where that could not be told), and its messages
/// (none, where they could not be loaded).
pub fn chat_page_loaded(
    chat_id: i64,
    is_member: Result<bool, DbError>,
    messages: Result<Vec<MessageWithUsername>, DbError>,
) -> (r: Reply)
    ensures
        r matches Reply::Html { status: Status::Success, page: Page::Chat { chat_id: c, is_member: m, messages: ms } }
            && c@ == decimal(chat_id as int)
            && m == match is_member { Ok(b) => b, Err(_) => false }
            && ms@ == match messages { Ok(v) => v@, Err(_) => Seq::<MessageWithUsername>::empty() },
{
    let member = match is_member {
        Ok(b) => b,
        Err(_) => false,
    };
    let list = match messages {
        Ok(v) => v,
        Err(_) => Vec::new(),
    };
    Reply::Html {
        status: Status::Success,
        page: Page::Chat { chat_id: decimal_string(chat_id), is_member: member, messages: list },
    }
}

/// The path of a chat's page: `/chat/` and the chat's number.
pub open spec fn chat_location(chat_id: int) -> Seq<char> {
    "/chat/"@ + decimal(chat_id)
}

/// A chat's path is `/chat/` followed by a text that reads back as that
/// chat's own number, whatever the number.
pub proof fn lemma_chat_location_names_chat(chat_id: i64)
    ensures
        chat_location(chat_id as int).take(6) == "/chat/"@,
        parsed_i64(chat_location(chat_id as int).skip(6)) == Some(chat_id),
{
    reveal_strlit("/chat/");
    let loc = chat_location(chat_id as int);
    assert(loc.take(6) =~= "/chat/"@);
    assert(loc.skip(6) =~= decimal(chat_id as int));
    crate::decimal::lemma_parse_decimal_roundtrip(chat_id);
}

/// The path of the page of chat `chat_id`.
pub fn chat_path(chat_id: i64) -> (p: String)
    ensures
        p@ == chat_location(chat_id as int),
        p@.take(6) == "/chat/"@,
        parsed_i64(p@.skip(6)) == Some(chat_id),
{
    let mut p = String::from_str("/chat/");
    append_decimal(&mut p, chat_id);
    proof {
        lemma_chat_location_names_chat(chat_id);
    }
    p
}

/// The step that joining a chat takes next.
#[derive(Debug, Clone)]
pub enum JoinNext {
    /// Answer now.
    Answer(Reply),
    /// Add this user to this chat's members (a member already there stays once).
    AddMember { user_id: i64, chat_id: i64 },
}

/// Joining a chat, first step: only a logged-in user may join.
pub fn join_chat(session_user: Option<i64>, chat_id: i64) -> (next: JoinNext)
    ensures
        match session_user {
            None => next matches JoinNext::Answer(r) && r == text_reply(
                Status::Unauthorized,
                Notice::LoginRequiredToJoin,
            ),
            Some(id) => next matches JoinNext::AddMember { user_id, chat_id: c } && user_id == id
                && c == chat_id,
        },
{
    match session_user {
        None => JoinNext::Answer(
            Reply::Text { status: Status::Unauthorized, notice: Notice::LoginRequiredToJoin },
        ),
        Some(user_id) => JoinNext::AddMember { user_id, chat_id },
    }
}

/// Joining a chat, once the membership was stored or not: on success the user
/// is sent to the chat's page.
pub fn join_chat_done(chat_id: i64, added: Result<(), DbError>) -> (r: Reply)
    ensures
        match added {
            Ok(_) => {
                &&& redirects_to(r, chat_location(chat_id as int))
                &&& r matches Reply::Redirect { location } && location@.take(6) == "/chat/"@
                    && parsed_i64(location@.skip(6)) == Some(chat_id)
            },
            Err(_) => r == text_reply(Status::InternalServerError, Notice::JoinFailed),
        },
{
    match added {
        Ok(_) => Reply::Redirect { location: chat_path(chat_id) },
        Err(_) => Reply::Text { status: Status::InternalServerError, notice: Notice::JoinFailed },
    }
}

// ------------------------------------------------------------- new chats

/// The page with the form for a new chat, shown to anyone whose session holds a user.
pub fn show_create_chat_page(logged_in: bool) -> (r: Reply)
    ensures
        if logged_in {
            r matches Reply::Html { status: Status::Success, page: Page::CreateChat }
        } else {
            r == text_reply(Status::Unauthorized, Notice::LoginRequiredToCreate)
        },
{
    if logged_in {
        Reply::Html { status: Status::Success, page: Page::CreateChat }
    } else {
        Reply::Text { status: Status::Unauthorized, notice: Notice::LoginRequiredToCreate }
    }
}

/// The step that creating a chat takes next.
#[derive(Debug, Clone)]
pub enum CreateChatNext {
    /// Answer now.
    Answer(Reply),
    /// Store a chat of this name, owned by this user.
    CreateChat { name: String, owner_id: i64 },
}

/// Creating a chat, first step: only a logged-in user may, and owns the new chat.
pub fn create_chat(session_user: Option<i64>, form: CreateChatForm) -> (next: CreateChatNext)
    ensures
        match session_user {
            None => next matches CreateChatNext::Answer(r) && r == text_reply(
                Status::Unauthorized,
                Notice::LoginRequiredToCreate,
            ),
            Some(id) => next matches CreateChatNext::CreateChat { name, owner_id } && name
                == form.name && owner_id == id,
        },
{
    match session_user {
        None => CreateChatNext::Answer(
            Reply::Text { status: Status::Unauthorized, notice: Notice::LoginRequiredToCreate },
        ),
        Some(owner_id) => CreateChatNext::CreateChat { name: form.name, owner_id },
    }
}

/// Creating a chat, once it was stored or not: on success the user goes home.
pub fn create_chat_done(created: Result<Chat, DbError>) -> (r: Reply)
    ensures
        match created {
            Ok(_) => redirects_to(r, "/"@),
            Err(_) => r == text_reply(Status::InternalServerError, Notice::CreateFailed),
        },
{
    match created {
        Ok(_) => redirect_home(),
        Err(_) => Reply::Text { status: Status::InternalServerError, notice: Notice::CreateFailed },
    }
}

// ---------------------------------------------------------------- search

/// The `LIKE` pattern that finds the names holding `query`: `%`, the query, `%`.
pub open spec fn like_pattern(query: Seq<char>) -> Seq<char> {
    "%"@ + query + "%"@
}

/// For every query, the search pattern is the whole query with one `%`
/// before and one after it: the pattern of the names that contain the query.
pub proof fn lemma_like_pattern_contains_query(query: Seq<char>)
    ensures
        like_pattern(query).len() == query.len() + 2,
        like_pattern(query)[0] == '%',
        like_pattern(query)[query.len() + 1int] == '%',
        like_pattern(query).subrange(1, query.len() + 1int) == query,
{
    reveal_strlit("%");
    assert(like_pattern(query).subrange(1, query.len() + 1int) =~= query);
}

/// The pattern that the chat search hands to the database.
pub fn search_pattern(query: &SearchQuery) -> (p: String)
    ensures
        p@ == like_pattern(query.query@),
        p@.len() == query.query@.len() + 2,
        p@[0] == '%',
        p@[query.query@.len() + 1int] == '%',
        p@.subrange(1, query.query@.len() + 1int) == query.query@,
{
    let mut p = String::from_str("%");
    p.append(query.query.as_str());
    p.append("%");
    proof {
        lemma_like_pattern_contains_query(query.query@);
    }
    p
}

/// The chat search, once the database has answered: the chats found, or an error.
pub fn search_chats(found: Result<Vec<Chat>, DbError>) -> (r: Reply)
    ensures
        match found {
            Ok(chats) => r matches Reply::ChatList { chats: cs } && cs@ == chats@,
            Err(_) => r == text_reply(Status::InternalServerError, Notice::SearchFailed),
        },
{
    match found {
        Ok(chats) => Reply::ChatList { chats },
        Err(_) => Reply::Text { status: Status::InternalServerError, notice: Notice::SearchFailed },
    }
}

} // verus!
