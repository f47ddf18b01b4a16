//! The verified core of a small chat server: accounts and log-in, chats and
//! membership, the pages each request is answered with, and the rooms that
//! relay messages between live connections.
pub mod decimal;
pub mod model;
pub mod pages;
pub mod reply;
pub mod room;
pub mod websocket;
