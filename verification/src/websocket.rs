//! One live connection to a chat: what it tells its room when it opens and
//! closes, what it does with a text from its user, and the line it shows for
//! each message the room relays to it.
use vstd::prelude::*;
use vstd::string::*;

use crate::decimal::{append_decimal, decimal, parsed_i64};
use crate::reply::{Notice, Reply, Status};
use crate::room::{
    ChatRooms, NewMessage, UserJoined, UserLeft, distinct_rooms, keeps_rooms, room_lookup,
};

verus! {

/// A frame that arrives on the connection.
#[derive(Debug, Clone)]
pub enum Frame {
    /// A text message from the user.
    Text(String),
    /// Anything else: binary data, pings, closing, or a broken frame.
    Other,
}

/// A message to store in the database: its chat, its sender, its text and file.
#[derive(Debug, Clone)]
pub struct MessageDraft {
    pub chat_id: i64,
    pub user_id: i64,
    pub content: Option<String>,
    pub file_path: Option<String>,
}

/// What a text from the user leads to: it is stored, and sent into the room.
#[derive(Debug, Clone)]
pub struct TextSent {
    pub store: MessageDraft,
    pub relay: NewMessage,
}

/// A user's connection to one chat, talking to that chat's room.
#[derive(Debug, Clone, Copy)]
pub struct ChatSession {
    pub chat_id: i64,
    pub user_id: i64,
    pub addr: u64,
}

/// The line a connection shows for a relayed message: `User <id>: <text>`.
pub open spec fn chat_line(user_id: int, content: Seq<char>) -> Seq<char> {
    "User "@ + decimal(user_id) + ": "@ + content
}

/// For every sender and text, the relayed line is `User `, then a number that
/// reads back as the sender's id, then `: `, then the whole text.
pub proof fn lemma_chat_line_parts(user_id: i64, content: Seq<char>)
    ensures
        ({
            let line = chat_line(user_id as int, content);
            let k = line.len() - content.len() - 2;
            &&& 5 <= k
            &&& line.take(5) == "User "@
            &&& parsed_i64(line.subrange(5, k)) == Some(user_id)
            &&& line.subrange(k, k + 2) == ": "@
            &&& line.skip(k + 2) == content
        }),
{
    reveal_strlit("User ");
    reveal_strlit(": ");
    let d = decimal(user_id as int);
    let line = chat_line(user_id as int, content);
    let k = line.len() - content.len() - 2;
    assert(k == 5 + d.len());
    assert(line.take(5) =~= "User "@);
    assert(line.subrange(5, k) =~= d);
    assert(line.subrange(k, k + 2) =~= ": "@);
    assert(line.skip(k + 2) =~= content);
    crate::decimal::lemma_parse_decimal_roundtrip(user_id);
}

impl ChatSession {
    /// A connection of user `user_id` to chat `chat_id`, whose room is `addr`.
    pub fn new(chat_id: i64, user_id: i64, addr: u64) -> (s: ChatSession)
        ensures
            s.chat_id == chat_id,
            s.user_id == user_id,
            s.addr == addr,
    {
        ChatSession { chat_id, user_id, addr }
    }

    /// When the connection opens it tells its room who joined, and under
    /// which connection number (`me`).
    pub fn started(&self, me: u64) -> (m: UserJoined)
        ensures
            m.user_id == self.user_id,
            m.addr == me,
    {
        UserJoined { user_id: self.user_id, addr: me }
    }

    /// When the connection closes it tells its room that its user left.
    pub fn stopped(&self) -> (m: UserLeft)
        ensures
            m.user_id == self.user_id,
    {
        UserLeft { user_id: self.user_id }
    }

    /// A text from the user is stored as a message of this chat from this
    /// user (with no file) and sent into the room; other frames are ignored.
    pub fn handle(&self, frame: Frame) -> (out: Option<TextSent>)
        ensures
            match frame {
                Frame::Text(text) => out matches Some(t) && {
                    &&& t.store.chat_id == self.chat_id
                    &&& t.store.user_id == self.user_id
                    &&& t.store.content matches Some(c) && c@ == text@
                    &&& t.store.file_path is None
                    &&& t.relay.content@ == text@
                    &&& t.relay.user_id == self.user_id
                },
                Frame::Other => out is None,
            },
    {
        match frame {
            Frame::Text(text) => {
                let stored = text.clone();
                Some(
                    TextSent {
                        store: MessageDraft {
                            chat_id: self.chat_id,
                            user_id: self.user_id,
                            content: Some(stored),
                            file_path: None,
                        },
                        relay: NewMessage { content: text, user_id: self.user_id },
                    },
                )
            },
            Frame::Other => None,
        }
    }

    /// The line that the connection sends its user for a relayed message.
    pub fn handle_new_message(&self, msg: &NewMessage) -> (line: String)
        ensures
            line@ == chat_line(msg.user_id as int, msg.content@),
            line@.take(5) == "User "@,
            parsed_i64(line@.subrange(5, line@.len() - msg.content@.len() - 2)) == Some(
                msg.user_id,
            ),
            line@.subrange(line@.len() - msg.content@.len() - 2, line@.len() - msg.content@.len())
                == ": "@,
            line@.skip(line@.len() - msg.content@.len()) == msg.content@,
    {
        let mut line = String::from_str("User ");
        append_decimal(&mut line, msg.user_id);
        line.append(": ");
        line.append(msg.content.as_str());
        proof {
            reveal_strlit("User ");
            reveal_strlit(": ");
        }
        assert(line@ =~= chat_line(msg.user_id as int, msg.content@));
        proof {
            lemma_chat_line_parts(msg.user_id, msg.content@);
        }
        line
    }
}

/// What a request to open a chat connection leads to.
#[derive(Debug, Clone)]
pub enum WebsocketNext {
    /// Refuse it with this answer.
    Refuse(Reply),
    /// Open the connection; `opened` says whether its room was opened for it.
    Connect { session: ChatSession, opened: bool },
}

/// A request to open a connection to chat `chat_id`: only a logged-in user may;
/// the connection talks to the chat's room, which is opened if the chat has none.
pub fn websocket_handler(rooms: &mut ChatRooms, session_user: Option<i64>, chat_id: i64) -> (next:
    WebsocketNext)
    requires
        session_user is Some ==> old(rooms).view().contains_key(chat_id) || old(rooms).opened()
            < u64::MAX,
    ensures
        match session_user {
            None => {
                &&& next matches WebsocketNext::Refuse(r) && r == (Reply::Text {
                    status: Status::Unauthorized,
                    notice: Notice::NotLoggedIn,
                })
                &&& final(rooms).view() == old(rooms).view()
                &&& final(rooms).opened() == old(rooms).opened()
            },
            Some(user_id) => {
                let (m, n, room, opened) = room_lookup(old(rooms).view(), old(rooms).opened(), chat_id);
                &&& next matches WebsocketNext::Connect { session, opened: o }
                    && session == (ChatSession { chat_id, user_id, addr: room }) && o == opened
                    && o == !old(rooms).view().contains_key(chat_id)
                &&& final(rooms).view() == m
                &&& final(rooms).opened() == n
            },
        },
        distinct_rooms(final(rooms).view()),
        keeps_rooms(old(rooms).view(), final(rooms).view(), chat_id),
{
    proof {
        use_type_invariant(&*rooms);
        rooms.lemma_inv_distinct();
    }
    match session_user {
        None => WebsocketNext::Refuse(
            Reply::Text { status: Status::Unauthorized, notice: Notice::NotLoggedIn },
        ),
        Some(user_id) => {
            let (room, opened) = rooms.room_for(chat_id);
            WebsocketNext::Connect { session: ChatSession::new(chat_id, user_id, room), opened }
        },
    }
}

} // verus!
