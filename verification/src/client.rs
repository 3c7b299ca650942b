//! The client: the user's session, the network task, the protocol handler and the
//! window's lists.

pub mod app;
pub mod client;
pub mod interface;
pub mod protocol;
