use vstd::prelude::*;

use crate::data::{ClientNetworkData, PeerAddr, PeerTicket, RoomData, ServerLocalData};

verus! {

/// What the server's network task does after it has taken one piece of data off its
/// channel.
#[derive(Debug, PartialEq, Eq)]
pub enum ServerAction {
    /// Nothing to do.
    Ignore,
    /// Shut the router down and close the channel.
    Shutdown,
    /// Pass this on to the app task.
    ToApp(ServerLocalData),
    /// Pass `to_app` on to the app task, then send `data` to `peer`.
    ToAppAndPeer { to_app: ServerLocalData, peer: PeerAddr, data: ClientNetworkData },
    /// Send the data to the peer.
    ToPeer(PeerAddr, ClientNetworkData),
    /// Look the room up in the store, then call `on_room_found`.
    LookupRoom { peer: PeerAddr, room_id: String },
}

/// One step of the network task: what it does with one piece of data.
pub open spec fn step(data: ServerLocalData) -> ServerAction {
    match data {
        ServerLocalData::Shutdown => ServerAction::Shutdown,
        ServerLocalData::Joined(addr, room_id) => (ServerAction::ToAppAndPeer {
            to_app: ServerLocalData::Joined(addr, room_id),
            peer: addr,
            data: ClientNetworkData::JoinAccepted(room_id),
        }),
        ServerLocalData::Left(addr, room_id) => ServerAction::ToApp(
            ServerLocalData::Left(addr, room_id),
        ),
        ServerLocalData::SendMessages(addr, messages) => ServerAction::ToPeer(
            addr,
            ClientNetworkData::ReceiveMessages(messages),
        ),
        ServerLocalData::HandleAddRoomRequest(addr, room_id) => (
        ServerAction::LookupRoom { peer: addr, room_id }),
        ServerLocalData::MessageReceived(m) => ServerAction::ToApp(
            ServerLocalData::MessageReceived(m),
        ),
        _ => ServerAction::Ignore,
    }
}

/// The server's network task: it knows the server's own ticket.
pub struct Server {
    pub ticket: PeerTicket,
}

impl Server {
    pub fn new(ticket: PeerTicket) -> (r: Server)
        ensures
            r.ticket == ticket,
    {
        Server { ticket }
    }

    /// The first thing the task does: tell the app task the server's ticket.
    pub fn start(&self) -> (r: ServerLocalData)
        ensures
            r == ServerLocalData::ServerTicket(self.ticket),
    {
        ServerLocalData::ServerTicket(self.ticket.clone())
    }

    /// One step of the network task.
    pub fn recv(&self, data: ServerLocalData) -> (r: ServerAction)
        ensures
            r == step(data),
    {
        match data {
            ServerLocalData::Shutdown => ServerAction::Shutdown,
            ServerLocalData::Joined(addr, room_id) => {
                let to_app = ServerLocalData::Joined(addr.clone(), room_id.clone());
                ServerAction::ToAppAndPeer {
                    to_app,
                    peer: addr,
                    data: ClientNetworkData::JoinAccepted(room_id),
                }
            },
            ServerLocalData::Left(addr, room_id) => ServerAction::ToApp(
                ServerLocalData::Left(addr, room_id),
            ),
            ServerLocalData::SendMessages(addr, messages) => ServerAction::ToPeer(
                addr,
                ClientNetworkData::ReceiveMessages(messages),
            ),
            ServerLocalData::HandleAddRoomRequest(addr, room_id) => ServerAction::LookupRoom {
                peer: addr,
                room_id,
            },
            ServerLocalData::MessageReceived(m) => ServerAction::ToApp(
                ServerLocalData::MessageReceived(m),
            ),
            _ => ServerAction::Ignore,
        }
    }

    /// After a room lookup: the peer is sent the room when the store has it, and nothing
    /// otherwise.
    pub fn on_room_found(&self, peer: PeerAddr, room: Option<RoomData>) -> (r: Option<
        (PeerAddr, ClientNetworkData),
    >)
        ensures
            match room {
                Some(d) => r == Some((peer, ClientNetworkData::RoomAdded(d))),
                None => r == None::<(PeerAddr, ClientNetworkData)>,
            },
    {
        match room {
            Some(d) => Some((peer, ClientNetworkData::RoomAdded(d))),
            None => None,
        }
    }
}

}
