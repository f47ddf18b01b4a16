use chat_server::model::{Chat, DbError, MessageWithUsername, User};
use chat_server::pages::{
    chat_page_loaded, chat_path, create_chat, create_chat_done, home_page_chats_loaded,
    home_page_user_loaded, join_chat, join_chat_done, login_user, logout_user, register_user,
    register_user_created, search_chats, search_pattern, session_user, show_chat_page,
    show_create_chat_page, show_home_page, show_login_form, show_register_form, ChatPageNext,
    CreateChatForm, CreateChatNext, HomeNext, JoinNext, LoginForm, RegisterForm, RegisterNext,
    SearchQuery, SessionUser,
};
use chat_server::reply::{Notice, Page, Reply, SessionUpdate, Status};

fn db_err() -> DbError {
    DbError { detail: "no such table".to_string() }
}

fn user(id: i64, name: &str, password: &str) -> User {
    User { id: Some(id), username: name.to_string(), password: password.to_string() }
}

fn chat(id: i64, name: &str) -> Chat {
    Chat { id: Some(id), name: name.to_string(), owner_id: Some(1) }
}

fn text_of(r: &Reply) -> (Status, Notice) {
    match r {
        Reply::Text { status, notice } => (*status, *notice),
        other => panic!("expected a text answer, got {:?}", other),
    }
}

fn location_of(r: &Reply) -> String {
    match r {
        Reply::Redirect { location } => location.clone(),
        other => panic!("expected a redirect, got {:?}", other),
    }
}

#[test]
fn session_user_reads_the_stored_id() {
    assert_eq!(session_user(&None), SessionUser::Anonymous);
    assert_eq!(session_user(&Some("17".to_string())), SessionUser::User(17));
    assert_eq!(session_user(&Some("abc".to_string())), SessionUser::Unreadable);
}

#[test]
fn home_page_for_anonymous_and_known_users() {
    match show_home_page(None) {
        HomeNext::Answer(Reply::Html { status: Status::Success, page: Page::Index { account: None } }) => {}
        other => panic!("{:?}", other),
    }
    match show_home_page(Some(3)) {
        HomeNext::LoadUser(3) => {}
        other => panic!("{:?}", other),
    }
    match home_page_user_loaded(3, Ok(Some(user(3, "olena", "pw")))) {
        HomeNext::LoadChats { user_id: 3, username } => assert_eq!(username, "olena"),
        other => panic!("{:?}", other),
    }
    for found in [Ok(None), Err(db_err())] {
        match home_page_user_loaded(3, found) {
            HomeNext::Answer(r) => {
                assert_eq!(text_of(&r), (Status::Unauthorized, Notice::UserNotFound));
                assert_eq!(Notice::UserNotFound.text(), "User not found.");
            }
            other => panic!("{:?}", other),
        }
    }
}

#[test]
fn home_page_lists_chats_or_none() {
    match home_page_chats_loaded("olena".to_string(), Ok(vec![chat(1, "a"), chat(2, "b")])) {
        Reply::Html { status: Status::Success, page: Page::Index { account: Some(a) } } => {
            assert_eq!(a.username, "olena");
            assert_eq!(a.chats.iter().map(|c| c.id).collect::<Vec<_>>(), vec![Some(1), Some(2)]);
        }
        other => panic!("{:?}", other),
    }
    match home_page_chats_loaded("olena".to_string(), Err(db_err())) {
        Reply::Html { page: Page::Index { account: Some(a) }, .. } => assert!(a.chats.is_empty()),
        other => panic!("{:?}", other),
    }
}

fn form(name: &str, password: &str) -> RegisterForm {
    RegisterForm { username: name.to_string(), password: password.to_string() }
}

#[test]
fn registration_refuses_a_taken_name() {
    match register_user(form("ivan", "x"), Ok(Some(user(1, "ivan", "y")))) {
        RegisterNext::Answer(r) => {
            assert_eq!(text_of(&r), (Status::BadRequest, Notice::UsernameTaken));
            assert_eq!(Notice::UsernameTaken.text(), "Username is already taken.");
        }
        other => panic!("{:?}", other),
    }
}

#[test]
fn registration_stores_a_free_name() {
    match register_user(form("ivan", "secret"), Ok(None)) {
        RegisterNext::CreateUser { username, password } => {
            assert_eq!(username, "ivan");
            assert_eq!(password, "secret");
        }
        other => panic!("{:?}", other),
    }
    assert_eq!(text_of(&register_user_created(Ok(user(5, "ivan", "secret")))),
               (Status::Success, Notice::RegistrationSuccessful));
    assert_eq!(text_of(&register_user_created(Err(db_err()))),
               (Status::InternalServerError, Notice::RegistrationFailed));
    assert_eq!(Notice::RegistrationSuccessful.text(), "Registration successful!");
}

#[test]
fn registration_reports_a_failed_lookup() {
    match register_user(form("ivan", "x"), Err(db_err())) {
        RegisterNext::Answer(r) => assert_eq!(text_of(&r), (Status::InternalServerError, Notice::DatabaseError)),
        other => panic!("{:?}", other),
    }
}

fn login(name: &str, password: &str) -> LoginForm {
    LoginForm { username: name.to_string(), password: password.to_string() }
}

#[test]
fn login_with_the_right_password_sets_the_session() {
    let out = login_user(&login("ivan", "secret"), Ok(Some(user(31, "ivan", "secret"))));
    assert_eq!(location_of(&out.reply), "/");
    match out.session {
        SessionUpdate::SetUser(v) => {
            assert_eq!(v, "31");
            assert_eq!(session_user(&Some(v)), SessionUser::User(31));
        }
        other => panic!("{:?}", other),
    }
}

#[test]
fn login_with_a_wrong_password_or_unknown_name() {
    let out = login_user(&login("ivan", "guess"), Ok(Some(user(31, "ivan", "secret"))));
    match (out.reply, out.session) {
        (Reply::Html { status: Status::Unauthorized, page: Page::Login { message: Notice::InvalidPassword } }, SessionUpdate::Keep) => {}
        other => panic!("{:?}", other),
    }
    let out = login_user(&login("nobody", "x"), Ok(None));
    match (out.reply, out.session) {
        (Reply::Html { status: Status::NotFound, page: Page::Login { message: Notice::UserNotFound } }, SessionUpdate::Keep) => {}
        other => panic!("{:?}", other),
    }
    let out = login_user(&login("ivan", "x"), Err(db_err()));
    assert_eq!(text_of(&out.reply), (Status::InternalServerError, Notice::DatabaseError));
    assert!(matches!(out.session, SessionUpdate::Keep));
}

#[test]
fn logout_clears_the_session_and_goes_home() {
    let out = logout_user();
    assert_eq!(location_of(&out.reply), "/");
    assert!(matches!(out.session, SessionUpdate::Clear));
}

#[test]
fn fixed_pages() {
    assert!(matches!(show_login_form(), Reply::Html { status: Status::Success, page: Page::Login { message: Notice::PleaseLogIn } }));
    assert_eq!(Notice::PleaseLogIn.text(), "Please log in.");
    assert!(matches!(show_register_form(), Reply::Html { status: Status::Success, page: Page::Register }));
    assert!(matches!(show_create_chat_page(true), Reply::Html { status: Status::Success, page: Page::CreateChat }));
    assert_eq!(text_of(&show_create_chat_page(false)), (Status::Unauthorized, Notice::LoginRequiredToCreate));
    assert_eq!(Notice::LoginRequiredToCreate.text(), "You must log in to create a chat.");
}

#[test]
fn chat_page_needs_a_user() {
    match show_chat_page(None, 5) {
        ChatPageNext::Answer(r) => assert_eq!(text_of(&r), (Status::Unauthorized, Notice::LoginRequiredForChat)),
        other => panic!("{:?}", other),
    }
    assert!(matches!(show_chat_page(Some(2), 5), ChatPageNext::Load { user_id: 2, chat_id: 5 }));
}

#[test]
fn chat_page_shows_membership_and_messages() {
    let m = MessageWithUsername {
        id: 1, chat_id: 5, user_id: 2, content: Some("hey".to_string()),
        file_path: None, sent_at: None, username: "ivan".to_string(),
    };
    match chat_page_loaded(5, Ok(true), Ok(vec![m])) {
        Reply::Html { status: Status::Success, page: Page::Chat { chat_id, is_member, messages } } => {
            assert_eq!(chat_id, "5");
            assert!(is_member);
            assert_eq!(messages.len(), 1);
            assert_eq!(messages[0].username, "ivan");
        }
        other => panic!("{:?}", other),
    }
    match chat_page_loaded(-12, Err(db_err()), Err(db_err())) {
        Reply::Html { page: Page::Chat { chat_id, is_member, messages }, .. } => {
            assert_eq!(chat_id, "-12");
            assert!(!is_member);
            assert!(messages.is_empty());
        }
        other => panic!("{:?}", other),
    }
}

#[test]
fn membership_count() {
    assert!(Chat::is_member_count(1));
    assert!(Chat::is_member_count(3));
    assert!(!Chat::is_member_count(0));
}

#[test]
fn joining_a_chat() {
    match join_chat(None, 9) {
        JoinNext::Answer(r) => assert_eq!(text_of(&r), (Status::Unauthorized, Notice::LoginRequiredToJoin)),
        other => panic!("{:?}", other),
    }
    assert!(matches!(join_chat(Some(4), 9), JoinNext::AddMember { user_id: 4, chat_id: 9 }));
    assert_eq!(location_of(&join_chat_done(9, Ok(()))), "/chat/9");
    assert_eq!(text_of(&join_chat_done(9, Err(db_err()))), (Status::InternalServerError, Notice::JoinFailed));
    assert_eq!(chat_path(123), "/chat/123");
}

#[test]
fn creating_a_chat() {
    let f = || CreateChatForm { name: "rust".to_string() };
    match create_chat(None, f()) {
        CreateChatNext::Answer(r) => assert_eq!(text_of(&r), (Status::Unauthorized, Notice::LoginRequiredToCreate)),
        other => panic!("{:?}", other),
    }
    match create_chat(Some(6), f()) {
        CreateChatNext::CreateChat { name, owner_id } => {
            assert_eq!(name, "rust");
            assert_eq!(owner_id, 6);
        }
        other => panic!("{:?}", other),
    }
    assert_eq!(location_of(&create_chat_done(Ok(chat(1, "rust")))), "/");
    assert_eq!(text_of(&create_chat_done(Err(db_err()))), (Status::InternalServerError, Notice::CreateFailed));
}

#[test]
fn searching_chats() {
    assert_eq!(search_pattern(&SearchQuery { query: "ru".to_string() }), "%ru%");
    assert_eq!(search_pattern(&SearchQuery { query: String::new() }), "%%");
    match search_chats(Ok(vec![chat(1, "rust"), chat(2, "ruby")])) {
        Reply::ChatList { chats } => assert_eq!(chats.len(), 2),
        other => panic!("{:?}", other),
    }
    assert_eq!(text_of(&search_chats(Err(db_err()))), (Status::InternalServerError, Notice::SearchFailed));
    assert_eq!(Notice::SearchFailed.text(), "Error searching chats");
}

#[test]
fn status_codes() {
    assert_eq!(Status::Success.code(), 200);
    assert_eq!(Status::Found.code(), 302);
    assert_eq!(Status::BadRequest.code(), 400);
    assert_eq!(Status::Unauthorized.code(), 401);
    assert_eq!(Status::NotFound.code(), 404);
    assert_eq!(Status::InternalServerError.code(), 500);
}
