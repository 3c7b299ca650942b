use vstd::prelude::*;

use crate::data::{ClientLocalData, PeerAddr, PeerTicket, RoomData, ServerNetworkData, UserMessageData};

verus! {

/// What the client's network task does after it has taken one piece of data off its
/// channel.
#[derive(Debug, PartialEq, Eq)]
pub enum ClientAction {
    /// Nothing to do.
    Ignore,
    /// Shut the router down and close the channel.
    Shutdown,
    /// Pass this on to the app task.
    ToApp(ClientLocalData),
    /// Send the data to the server at this address.
    ToServer(PeerAddr, ServerNetworkData),
}

/// Sending to the server: to its address when it is known, nowhere otherwise.
pub open spec fn sent(server_addr: Option<PeerAddr>, data: ServerNetworkData) -> ClientAction {
    match server_addr {
        Some(a) => ClientAction::ToServer(a, data),
        None => ClientAction::Ignore,
    }
}

/// One step of the network task, given the server's address (if known) and the
/// client's ticket: requests go to the server with the ticket, answers go to the app.
pub open spec fn step(
    server_addr: Option<PeerAddr>,
    ticket: PeerTicket,
    data: ClientLocalData,
) -> ClientAction {
    match data {
        ClientLocalData::Shutdown => ClientAction::Shutdown,
        ClientLocalData::ServerAddr(_) => ClientAction::Ignore,
        ClientLocalData::JoinRequest(id) => sent(server_addr, ServerNetworkData::Joined(ticket, id)),
        ClientLocalData::LeaveRequest(id) => sent(server_addr, ServerNetworkData::Left(ticket, id)),
        ClientLocalData::ReceiveMessages(ms) => ClientAction::ToApp(
            ClientLocalData::ReceiveMessages(ms),
        ),
        ClientLocalData::JoinAccepted(id) => ClientAction::ToApp(ClientLocalData::JoinAccepted(id)),
        ClientLocalData::AddRoomRequest(id) => sent(
            server_addr,
            ServerNetworkData::AddRoomRequest(ticket, id),
        ),
        ClientLocalData::AddRoomAccepted(d) => ClientAction::ToApp(
            ClientLocalData::AddRoomAccepted(d),
        ),
        ClientLocalData::SendMessageInit(m) => sent(server_addr, ServerNetworkData::MessageSent(m)),
        _ => ClientAction::Ignore,
    }
}

/// The text of the server's address, if it is known.
pub open spec fn addr_view(addr: Option<PeerAddr>) -> Option<Seq<char>> {
    match addr {
        Some(a) => Some(a@),
        None => None,
    }
}

/// How one piece of channel data changes the known server address.
pub open spec fn server_addr_after(known: Option<Seq<char>>, data: ClientLocalData) -> Option<
    Seq<char>,
> {
    match data {
        ClientLocalData::ServerAddr(a) => Some(a@),
        _ => known,
    }
}

/// The known server address after the network task has taken each of `ds` off its
/// channel, in order.
pub open spec fn server_addr_after_all(known: Option<Seq<char>>, ds: Seq<ClientLocalData>) -> Option<
    Seq<char>,
>
    decreases ds.len(),
{
    if ds.len() == 0 {
        known
    } else {
        server_addr_after(server_addr_after_all(known, ds.drop_last()), ds.last())
    }
}

/// The address in the last `ServerAddr` of `ds`; `default` when there is none.
pub open spec fn last_server_addr(ds: Seq<ClientLocalData>, default: Option<Seq<char>>) -> Option<
    Seq<char>,
>
    decreases ds.len(),
{
    if ds.len() == 0 {
        default
    } else {
        match ds.last() {
            ClientLocalData::ServerAddr(a) => Some(a@),
            _ => last_server_addr(ds.drop_last(), default),
        }
    }
}

/// The last server address given wins; no other data changes it.
pub proof fn lemma_last_server_addr_wins(known: Option<Seq<char>>, ds: Seq<ClientLocalData>)
    ensures
        server_addr_after_all(known, ds) == last_server_addr(ds, known),
    decreases ds.len(),
{
    if ds.len() > 0 {
        lemma_last_server_addr_wins(known, ds.drop_last());
    }
}

/// Whatever the state, the answers of the server go on to the app task unchanged:
/// every batch of messages, whatever its length, every accepted join, every added room.
pub proof fn lemma_answers_go_to_app(
    server_addr: Option<PeerAddr>,
    ticket: PeerTicket,
    ms: Vec<UserMessageData>,
    id: String,
    d: RoomData,
)
    ensures
        step(server_addr, ticket, ClientLocalData::ReceiveMessages(ms)) == ClientAction::ToApp(
            ClientLocalData::ReceiveMessages(ms),
        ),
        step(server_addr, ticket, ClientLocalData::JoinAccepted(id)) == ClientAction::ToApp(
            ClientLocalData::JoinAccepted(id),
        ),
        step(server_addr, ticket, ClientLocalData::AddRoomAccepted(d)) == ClientAction::ToApp(
            ClientLocalData::AddRoomAccepted(d),
        ),
{
}

/// The client's network task: the server's address once the user gave it, and the
/// client's own ticket, which goes with each request so that the server can answer.
pub struct Client {
    pub server_addr: Option<PeerAddr>,
    pub ticket: PeerTicket,
}

impl Client {
    pub fn new(ticket: PeerTicket) -> (r: Client)
        ensures
            r.server_addr == None::<PeerAddr>,
            r.ticket == ticket,
    {
        Client { server_addr: None, ticket }
    }

    fn send_data(&self, data: ServerNetworkData) -> (r: ClientAction)
        ensures
            r == sent(self.server_addr, data),
    {
        match &self.server_addr {
            Some(a) => ClientAction::ToServer(a.clone(), data),
            None => ClientAction::Ignore,
        }
    }

    /// One step of the network task.
    pub fn recv(&mut self, data: ClientLocalData) -> (r: ClientAction)
        ensures
            final(self).ticket == old(self).ticket,
            addr_view(final(self).server_addr) == server_addr_after(
                addr_view(old(self).server_addr),
                data,
            ),
            match data {
                ClientLocalData::ServerAddr(a) => final(self).server_addr == Some(a),
                _ => final(self).server_addr == old(self).server_addr,
            },
            r == step(old(self).server_addr, old(self).ticket, data),
            data matches ClientLocalData::ReceiveMessages(ms) ==> r == ClientAction::ToApp(
                ClientLocalData::ReceiveMessages(ms),
            ),
            data matches ClientLocalData::JoinAccepted(id) ==> r == ClientAction::ToApp(
                ClientLocalData::JoinAccepted(id),
            ),
            data matches ClientLocalData::AddRoomAccepted(d) ==> r == ClientAction::ToApp(
                ClientLocalData::AddRoomAccepted(d),
            ),
    {
        match data {
            ClientLocalData::Shutdown => ClientAction::Shutdown,
            ClientLocalData::ServerAddr(a) => {
                self.server_addr = Some(a);
                ClientAction::Ignore
            },
            ClientLocalData::JoinRequest(id) => {
                let t = self.ticket.clone();
                self.send_data(ServerNetworkData::Joined(t, id))
            },
            ClientLocalData::LeaveRequest(id) => {
                let t = self.ticket.clone();
                self.send_data(ServerNetworkData::Left(t, id))
            },
            ClientLocalData::ReceiveMessages(ms) => ClientAction::ToApp(
                ClientLocalData::ReceiveMessages(ms),
            ),
            ClientLocalData::JoinAccepted(id) => ClientAction::ToApp(
                ClientLocalData::JoinAccepted(id),
            ),
            ClientLocalData::AddRoomRequest(id) => {
                let t = self.ticket.clone();
                self.send_data(ServerNetworkData::AddRoomRequest(t, id))
            },
            ClientLocalData::AddRoomAccepted(d) => ClientAction::ToApp(
                ClientLocalData::AddRoomAccepted(d),
            ),
            ClientLocalData::SendMessageInit(m) => self.send_data(ServerNetworkData::MessageSent(m)),
            _ => ClientAction::Ignore,
        }
    }
}

}
