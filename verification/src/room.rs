//! Live chat rooms: each room relays every message to the connections that
//! joined it, and the registry finds a chat's room or opens one.
//!
//! A connection and a room are named by numbers that their owner hands out;
//! what runs behind a number (a socket, an actor) is the caller's.
use vstd::prelude::*;
use std::collections::HashMap;

verus! {

broadcast use vstd::std_specs::hash::group_hash_axioms;

/// A text that a user sent into a chat, to be relayed to everyone there.
#[derive(Debug, Clone)]
pub struct NewMessage {
    pub content: String,
    pub user_id: i64,
}

/// A connection that opened in a room: its user and the number of the connection.
#[derive(Debug, Clone, Copy)]
pub struct UserJoined {
    pub user_id: i64,
    pub addr: u64,
}

/// A connection of this user closed.
#[derive(Debug, Clone, Copy)]
pub struct UserLeft {
    pub user_id: i64,
}

/// One message to hand to one connection.
#[derive(Debug, Clone)]
pub struct Delivery {
    pub to: u64,
    pub message: NewMessage,
}

/// The connections of one chat, in the order they joined.
#[derive(Debug, Clone)]
pub struct ChatRoom {
    pub users: Vec<u64>,
}

/// The members that stay when each member `i` is still connected exactly where `connected[i]`.
pub open spec fn kept(users: Seq<u64>, connected: Seq<bool>) -> Seq<u64>
    decreases users.len(),
{
    if users.len() == 0 || connected.len() == 0 {
        Seq::empty()
    } else {
        let rest = kept(users.drop_last(), connected.drop_last());
        if connected.last() {
            rest.push(users.last())
        } else {
            rest
        }
    }
}

/// Whether `d` hands a copy of `msg` to the connection `to`.
pub open spec fn delivers(d: Delivery, to: u64, msg: NewMessage) -> bool {
    d.to == to && d.message.content@ == msg.content@ && d.message.user_id == msg.user_id
}

/// Every member of `users` gets a copy of `msg`, once, in join order.
pub open spec fn broadcast_of(ds: Seq<Delivery>, users: Seq<u64>, msg: NewMessage) -> bool {
    ds.len() == users.len() && forall|i: int| 0 <= i < users.len() ==> delivers(#[trigger] ds[i], users[i], msg)
}

impl ChatRoom {
    /// A room with nobody in it.
    pub fn new() -> (room: ChatRoom)
        ensures
            room.users@ == Seq::<u64>::empty(),
    {
        ChatRoom { users: Vec::new() }
    }

    /// A message sent into the room goes to every connection in it, in join order.
    pub fn handle_new_message(&self, msg: &NewMessage) -> (ds: Vec<Delivery>)
        ensures
            broadcast_of(ds@, self.users@, *msg),
    {
        let mut ds: Vec<Delivery> = Vec::new();
        let mut i: usize = 0;
        while i < self.users.len()
            invariant
                i <= self.users.len(),
                ds@.len() == i,
                forall|j: int| 0 <= j < i ==> delivers(#[trigger] ds@[j], self.users@[j], *msg),
            decreases self.users.len() - i,
        {
            ds.push(
                Delivery {
                    to: self.users[i],
                    message: NewMessage { content: msg.content.clone(), user_id: msg.user_id },
                },
            );
            i = i + 1;
        }
        ds
    }

    /// A new connection joins the room, after those already in it.
    pub fn handle_user_joined(&mut self, msg: UserJoined)
        ensures
            final(self).users@ == old(self).users@.push(msg.addr),
    {
        self.users.push(msg.addr);
    }

    /// When a connection closes, the room keeps exactly the members still
    /// connected (`connected[i]` tells it of member `i`), in their order.
    pub fn handle_user_left(&mut self, msg: UserLeft, connected: &Vec<bool>)
        requires
            connected@.len() == old(self).users@.len(),
        ensures
            final(self).users@ == kept(old(self).users@, connected@),
    {
        let mut stay: Vec<u64> = Vec::new();
        let mut i: usize = 0;
        let n = self.users.len();
        while i < n
            invariant
                n == self.users@.len(),
                n == connected@.len(),
                i <= n,
                stay@ == kept(self.users@.take(i as int), connected@.take(i as int)),
            decreases n - i,
        {
            proof {
                let u = self.users@.take(i + 1);
                let c = connected@.take(i + 1);
                assert(u.drop_last() =~= self.users@.take(i as int));
                assert(c.drop_last() =~= connected@.take(i as int));
            }
            if connected[i] {
                stay.push(self.users[i]);
            }
            i = i + 1;
        }
        proof {
            assert(self.users@.take(n as int) =~= self.users@);
            assert(connected@.take(n as int) =~= connected@);
        }
        self.users = stay;
    }
}

/// A member that is still connected stays in the room.
pub proof fn lemma_connected_member_stays(users: Seq<u64>, connected: Seq<bool>, i: int)
    requires
        connected.len() == users.len(),
        0 <= i < users.len(),
        connected[i],
    ensures
        kept(users, connected).contains(users[i]),
    decreases users.len(),
{
    let rest = kept(users.drop_last(), connected.drop_last());
    if i == users.len() - 1 {
        assert(kept(users, connected) == rest.push(users.last()));
        assert(kept(users, connected)[rest.len() as int] == users[i]);
    } else {
        lemma_connected_member_stays(users.drop_last(), connected.drop_last(), i);
        let k = choose|k: int| 0 <= k < rest.len() && rest[k] == users[i];
        if connected.last() {
            assert(kept(users, connected)[k] == users[i]);
        }
    }
}

/// Whoever stays in the room was a member and is still connected.
pub proof fn lemma_kept_were_connected(users: Seq<u64>, connected: Seq<bool>, x: u64)
    requires
        connected.len() == users.len(),
        kept(users, connected).contains(x),
    ensures
        exists|i: int| 0 <= i < users.len() && users[i] == x && connected[i],
    decreases users.len(),
{
    let rest = kept(users.drop_last(), connected.drop_last());
    let last = users.len() - 1;
    if connected.last() && users.last() == x {
        assert(users[last] == x && connected[last]);
    } else {
        if connected.last() {
            let k = choose|k: int| 0 <= k < kept(users, connected).len() && kept(users, connected)[k] == x;
            assert(rest[k] == x);
        }
        lemma_kept_were_connected(users.drop_last(), connected.drop_last(), x);
        let i = choose|i: int|
            0 <= i < users.drop_last().len() && users.drop_last()[i] == x && connected.drop_last()[i];
        assert(users[i] == x && connected[i]);
    }
}

/// A connection that joined a room, and is still connected when the room
/// drops its closed connections, gets every message sent into the room afterwards.
pub proof fn lemma_joined_connection_receives(
    users: Seq<u64>,
    addr: u64,
    connected: Seq<bool>,
    msg: NewMessage,
    ds: Seq<Delivery>,
)
    requires
        connected.len() == users.len() + 1,
        connected.last(),
        broadcast_of(ds, kept(users.push(addr), connected), msg),
    ensures
        exists|j: int| 0 <= j < ds.len() && delivers(#[trigger] ds[j], addr, msg),
{
    let joined = users.push(addr);
    lemma_connected_member_stays(joined, connected, users.len() as int);
    let after = kept(joined, connected);
    let j = choose|j: int| 0 <= j < after.len() && after[j] == addr;
    assert(delivers(ds[j], after[j], msg));
}

/// No two chats share a room.
pub open spec fn distinct_rooms(rooms: Map<i64, u64>) -> bool {
    forall|a: i64, b: i64|
        #[trigger] rooms.contains_key(a) && #[trigger] rooms.contains_key(b) && a != b
            ==> rooms[a] != rooms[b]
}

/// The room of each chat that has live connections, by chat number.
pub struct ChatRooms {
    rooms: HashMap<i64, u64>,
    opened: u64,
}

/// The room that a chat is given, and what the registry becomes: a known
/// chat keeps its room; an unknown one gets the next room number.
pub open spec fn room_lookup(rooms: Map<i64, u64>, opened: u64, chat_id: i64) -> (
    Map<i64, u64>,
    u64,
    u64,
    bool,
) {
    if rooms.contains_key(chat_id) {
        (rooms, opened, rooms[chat_id], false)
    } else {
        (rooms.insert(chat_id, opened), (opened + 1) as u64, opened, true)
    }
}

impl ChatRooms {
    /// Every room number was handed out before, and no two chats share a room.
    #[verifier::type_invariant]
    pub(crate) closed spec fn inv(self) -> bool {
        &&& forall|k: i64| #[trigger] self.rooms@.contains_key(k) ==> self.rooms@[k] < self.opened
        &&& forall|k1: i64, k2: i64|
            #[trigger] self.rooms@.contains_key(k1) && #[trigger] self.rooms@.contains_key(k2)
                && k1 != k2 ==> self.rooms@[k1] != self.rooms@[k2]
    }

    /// The invariant keeps every chat in a room of its own.
    pub(crate) proof fn lemma_inv_distinct(self)
        requires
            self.inv(),
        ensures
            distinct_rooms(self.view()),
    {
    }

    /// The chats with a room, and their rooms.
    pub closed spec fn view(&self) -> Map<i64, u64> {
        self.rooms@
    }

    /// How many rooms were opened; the next room gets this number.
    pub closed spec fn opened(&self) -> u64 {
        self.opened
    }

    /// No room yet.
    pub fn new() -> (r: ChatRooms)
        ensures
            r.view() == Map::<i64, u64>::empty(),
            r.opened() == 0,
    {
        ChatRooms { rooms: HashMap::new(), opened: 0 }
    }

    /// How many rooms were opened.
    pub fn rooms_opened(&self) -> (n: u64)
        ensures
            n == self.opened(),
    {
        self.opened
    }

    /// The room of chat `chat_id`, if it has one.
    pub fn get(&self, chat_id: i64) -> (r: Option<u64>)
        ensures
            r == (if self.view().contains_key(chat_id) { Some(self.view()[chat_id]) } else { None }),
    {
        match self.rooms.get(&chat_id) {
            Some(room) => Some(*room),
            None => None,
        }
    }

    /// The room of chat `chat_id`, and whether it was opened now: a chat that
    /// has a room keeps it; otherwise the next room number is given to it.
    pub fn room_for(&mut self, chat_id: i64) -> (r: (u64, bool))
        requires
            old(self).view().contains_key(chat_id) || old(self).opened() < u64::MAX,
        ensures
            (final(self).view(), final(self).opened(), r.0, r.1) == room_lookup(
                old(self).view(),
                old(self).opened(),
                chat_id,
            ),
            distinct_rooms(final(self).view()),
            keeps_rooms(old(self).view(), final(self).view(), chat_id),
            r.1 == !old(self).view().contains_key(chat_id),
            final(self).view().contains_key(chat_id) && final(self).view()[chat_id] == r.0,
            !r.1 ==> r.0 == old(self).view()[chat_id],
            r.1 ==> forall|k: i64| #[trigger]
                old(self).view().contains_key(k) ==> old(self).view()[k] != r.0,
    {
        proof {
            use_type_invariant(&*self);
        }
        match self.rooms.get(&chat_id) {
            Some(room) => {
                return (*room, false);
            },
            None => {},
        }
        let room = self.opened;
        let mut rooms = HashMap::new();
        std::mem::swap(&mut rooms, &mut self.rooms);
        let ghost before = rooms@;
        rooms.insert(chat_id, room);
        assert(rooms@ == before.insert(chat_id, room));
        *self = ChatRooms { rooms, opened: room + 1 };
        proof {
            use_type_invariant(&*self);
        }
        (room, true)
    }
}

/// No chat loses or changes its room, and only the chat `chat_id` may gain one.
pub open spec fn keeps_rooms(before: Map<i64, u64>, after: Map<i64, u64>, chat_id: i64) -> bool {
    &&& forall|k: i64| #[trigger] before.contains_key(k) ==> after.contains_key(k) && after[k] == before[k]
    &&& forall|k: i64| #[trigger] after.contains_key(k) ==> before.contains_key(k) || k == chat_id
}

/// Looking up a chat's room never removes or replaces the room of any chat,
/// and adds a room for no chat but the one asked for.
pub proof fn lemma_room_lookup_keeps_rooms(rooms: Map<i64, u64>, opened: u64, chat_id: i64)
    ensures
        keeps_rooms(rooms, room_lookup(rooms, opened, chat_id).0, chat_id),
{
}

/// For every registry, a room is opened exactly for a chat that had none;
/// afterwards the chat has the room that was answered, which is its old room
/// when it had one.
pub proof fn lemma_room_lookup_opens_only_for_new_chats(
    rooms: Map<i64, u64>,
    opened: u64,
    chat_id: i64,
)
    ensures
        ({
            let (after, _, room, created) = room_lookup(rooms, opened, chat_id);
            &&& created == !rooms.contains_key(chat_id)
            &&& after.contains_key(chat_id) && after[chat_id] == room
            &&& !created ==> room == rooms[chat_id]
        }),
{
}

/// Asking twice for a chat's room gives the same room, and the second time
/// opens nothing.
pub proof fn lemma_room_for_stable(rooms: Map<i64, u64>, opened: u64, chat_id: i64)
    requires
        rooms.contains_key(chat_id) || opened < u64::MAX,
    ensures
        ({
            let (rooms1, opened1, room1, _) = room_lookup(rooms, opened, chat_id);
            let (rooms2, opened2, room2, created2) = room_lookup(rooms1, opened1, chat_id);
            &&& room2 == room1
            &&& !created2
            &&& rooms2 == rooms1
            &&& opened2 == opened1
        }),
{
}

} // verus!
