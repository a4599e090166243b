//! Decision core of a chat bot that listens on a streaming channel of a
//! social-network server and answers the posts it sees.
//!
//! Everything here is synchronous and free of I/O: the functions take what
//! was received and say what has to be sent, waited for or stored next.

pub mod chance;
pub mod clock;
pub mod config;
pub mod handler;
pub mod misskey;
pub mod nickname;
pub mod savedata;
pub mod supervisor;
pub mod text;
pub mod websocket;
