//! Verified core of a peer-to-peer chat: the data that travels between
//! client and server, the framing of that data on a stream, and the
//! decision logic of every task of the client and of the server.

pub mod client;
pub mod data;
pub mod frame;
pub mod room_id;
pub mod room_list;
pub mod server;
pub mod exchange;
