# chat_server

A small web chat: accounts with log-in, chats that users create, join and
search, chat pages with their message history, and live rooms that relay each
message to every open connection of the chat.

- `src/` is the verified library (Verus):
  - `decimal.rs`: the decimal text of user and chat ids, written and read back
    exactly as `to_string` and `parse::<i64>` do, with the round trip proved;
  - `model.rs`: the stored records (users, chats, messages);
  - `reply.rs`: answers, pages, fixed sentences and session updates;
  - `pages.rs`: each page's decisions, step by step around its database queries;
  - `room.rs`: a chat room's members and broadcast, and the chat-to-room registry;
  - `websocket.rs`: one live connection and the opening of connections.
- `app/` is the server around it: actix-web routes, the SQLite queries (sqlx),
  the session cookie, the Tera templates and the actors of the live rooms.
- `tests/` runs the library on concrete values.
