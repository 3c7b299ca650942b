//! The server: room membership and message fan-out, the network task, the
//! protocol handler and the window's room list.

pub mod app;
pub mod interface;
pub mod protocol;
pub mod server;
