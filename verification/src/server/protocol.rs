use vstd::prelude::*;

use crate::data::{ServerLocalData, ServerNetworkData};

verus! {

/// Where a piece of data from a client goes: a peer's request carries the address
/// of its ticket; a test message goes nowhere.
pub open spec fn routed(data: ServerNetworkData) -> Option<ServerLocalData> {
    match data {
        ServerNetworkData::Test => None,
        ServerNetworkData::Joined(t, room_id) => Some(ServerLocalData::Joined(t.addr, room_id)),
        ServerNetworkData::Left(t, room_id) => Some(ServerLocalData::Left(t.addr, room_id)),
        ServerNetworkData::AddRoomRequest(t, room_id) => Some(
            ServerLocalData::HandleAddRoomRequest(t.addr, room_id),
        ),
        ServerNetworkData::MessageSent(m) => Some(ServerLocalData::MessageReceived(m)),
    }
}

/// Hands what a client sent over the network to the server's network task.
pub struct ServerProtocol {}

impl ServerProtocol {
    pub fn new() -> (r: ServerProtocol) {
        ServerProtocol {  }
    }

    /// What the network task is told of one piece of data a client sent.
    pub fn accept(&self, data: ServerNetworkData) -> (r: Option<ServerLocalData>)
        ensures
            r == routed(data),
    {
        match data {
            ServerNetworkData::Joined(ticket, room_id) => {
                let addr = ticket.endpoint_addr().clone();
                Some(ServerLocalData::Joined(addr, room_id))
            },
            ServerNetworkData::Left(ticket, room_id) => {
                let addr = ticket.endpoint_addr().clone();
                Some(ServerLocalData::Left(addr, room_id))
            },
            ServerNetworkData::AddRoomRequest(ticket, room_id) => {
                let addr = ticket.endpoint_addr().clone();
                Some(ServerLocalData::HandleAddRoomRequest(addr, room_id))
            },
            ServerNetworkData::MessageSent(m) => Some(ServerLocalData::MessageReceived(m)),
            _ => None,
        }
    }
}

}
