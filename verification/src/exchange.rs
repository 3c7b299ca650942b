//! What a request of a client becomes on its way through the client's network task,
//! the server's protocol handler and the server's network task, and back.

use vstd::prelude::*;

use crate::client::client::{step as client_step, ClientAction};
use crate::client::protocol::routed as client_routed;
use crate::data::{
    ClientLocalData, ClientNetworkData, PeerAddr, PeerTicket, ServerLocalData, ServerNetworkData,
    UserMessageData,
};
use crate::server::protocol::routed as server_routed;
use crate::server::server::{step as server_step, ServerAction};

verus! {

/// A join request goes to the server with the client's ticket; the server tells its
/// app task that the ticket's peer joined, answers that peer with the room it joined,
/// and the client's network task hands the answer to its app task.
pub proof fn lemma_join_request_answered(server: PeerAddr, ticket: PeerTicket, room_id: String)
    ensures
        client_step(Some(server), ticket, ClientLocalData::JoinRequest(room_id))
            == ClientAction::ToServer(server, ServerNetworkData::Joined(ticket, room_id)),
        server_routed(ServerNetworkData::Joined(ticket, room_id)) == Some(
            ServerLocalData::Joined(ticket.addr, room_id),
        ),
        server_step(ServerLocalData::Joined(ticket.addr, room_id)) == (ServerAction::ToAppAndPeer {
            to_app: ServerLocalData::Joined(ticket.addr, room_id),
            peer: ticket.addr,
            data: ClientNetworkData::JoinAccepted(room_id),
        }),
        client_routed(ClientNetworkData::JoinAccepted(room_id)) == ClientLocalData::JoinAccepted(
            room_id,
        ),
{
}

/// A leave request reaches the server's app task as the ticket's peer leaving the room.
pub proof fn lemma_leave_request_delivered(server: PeerAddr, ticket: PeerTicket, room_id: String)
    ensures
        client_step(Some(server), ticket, ClientLocalData::LeaveRequest(room_id))
            == ClientAction::ToServer(server, ServerNetworkData::Left(ticket, room_id)),
        server_routed(ServerNetworkData::Left(ticket, room_id)) == Some(
            ServerLocalData::Left(ticket.addr, room_id),
        ),
        server_step(ServerLocalData::Left(ticket.addr, room_id)) == ServerAction::ToApp(
            ServerLocalData::Left(ticket.addr, room_id),
        ),
{
}

/// A message a client sends reaches the server's app task unchanged.
pub proof fn lemma_message_reaches_server_app(
    server: PeerAddr,
    ticket: PeerTicket,
    message: UserMessageData,
)
    ensures
        client_step(Some(server), ticket, ClientLocalData::SendMessageInit(message))
            == ClientAction::ToServer(server, ServerNetworkData::MessageSent(message)),
        server_routed(ServerNetworkData::MessageSent(message)) == Some(
            ServerLocalData::MessageReceived(message),
        ),
        server_step(ServerLocalData::MessageReceived(message)) == ServerAction::ToApp(
            ServerLocalData::MessageReceived(message),
        ),
{
}

/// Messages the server's app task sends to a peer reach that peer's app task unchanged.
pub proof fn lemma_messages_reach_client_app(addr: PeerAddr, messages: Vec<UserMessageData>)
    ensures
        server_step(ServerLocalData::SendMessages(addr, messages)) == ServerAction::ToPeer(
            addr,
            ClientNetworkData::ReceiveMessages(messages),
        ),
        client_routed(ClientNetworkData::ReceiveMessages(messages))
            == ClientLocalData::ReceiveMessages(messages),
{
}

/// A request to add a room makes the server look the room up for the ticket's peer.
pub proof fn lemma_add_room_request_looked_up(
    server: PeerAddr,
    ticket: PeerTicket,
    room_id: String,
)
    ensures
        client_step(Some(server), ticket, ClientLocalData::AddRoomRequest(room_id))
            == ClientAction::ToServer(server, ServerNetworkData::AddRoomRequest(ticket, room_id)),
        server_routed(ServerNetworkData::AddRoomRequest(ticket, room_id)) == Some(
            ServerLocalData::HandleAddRoomRequest(ticket.addr, room_id),
        ),
        server_step(ServerLocalData::HandleAddRoomRequest(ticket.addr, room_id)) == (
        ServerAction::LookupRoom { peer: ticket.addr, room_id }),
{
}

/// Before the user gave a server address, no request leaves the client.
pub proof fn lemma_nothing_sent_without_server(ticket: PeerTicket, data: ClientLocalData)
    ensures
        !(client_step(None, ticket, data) is ToServer),
{
}

/// A batch of messages the server's app task sends a peer (such as the history of a
/// room it joined), whatever its length, reaches that peer's app task unchanged.
pub proof fn lemma_batch_reaches_client_app(
    server: Option<PeerAddr>,
    ticket: PeerTicket,
    addr: PeerAddr,
    messages: Vec<UserMessageData>,
)
    ensures
        server_step(ServerLocalData::SendMessages(addr, messages)) == ServerAction::ToPeer(
            addr,
            ClientNetworkData::ReceiveMessages(messages),
        ),
        client_routed(ClientNetworkData::ReceiveMessages(messages))
            == ClientLocalData::ReceiveMessages(messages),
        client_step(server, ticket, ClientLocalData::ReceiveMessages(messages))
            == ClientAction::ToApp(ClientLocalData::ReceiveMessages(messages)),
{
}

}
