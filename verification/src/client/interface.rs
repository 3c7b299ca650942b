use std::str::FromStr;

use iroh_tickets::endpoint::EndpointTicket;
use vstd::prelude::*;

use crate::data::{ClientLocalData, PeerAddr, RoomData, UserMessageData};

verus! {

/// What the client's window does with one piece of data from its channel.
#[derive(Debug, PartialEq, Eq)]
pub enum InterfaceAction {
    Ignore,
    /// Switch to the chat view.
    ShowChat,
    /// Append these messages to the chat log.
    LoadMessages(Vec<UserMessageData>),
    /// Append these rooms to the room list.
    AddRooms(Vec<RoomData>),
    /// Take the room of this identifier off the room list.
    RemoveRoom(String),
}

/// What the user did in the client's window that goes to the app task.
#[derive(Debug, PartialEq, Eq)]
pub enum WindowEvent {
    SetUserName(String),
    AddRoom(String),
    JoinRoom(String),
    SendMessage(String),
    ChatViewBack,
}

/// What the client's window does with its channel data.
pub fn recv(data: ClientLocalData) -> (r: InterfaceAction)
    ensures
        match data {
            ClientLocalData::ChatView => r == InterfaceAction::ShowChat,
            ClientLocalData::ReceiveMessages(ms) => r == InterfaceAction::LoadMessages(ms),
            ClientLocalData::AddRoomsUI(ds) => r == InterfaceAction::AddRooms(ds),
            ClientLocalData::RemoveRoomUI(id) => r == InterfaceAction::RemoveRoom(id),
            _ => r == InterfaceAction::Ignore,
        },
{
    match data {
        ClientLocalData::ChatView => InterfaceAction::ShowChat,
        ClientLocalData::ReceiveMessages(ms) => InterfaceAction::LoadMessages(ms),
        ClientLocalData::AddRoomsUI(ds) => InterfaceAction::AddRooms(ds),
        ClientLocalData::RemoveRoomUI(id) => InterfaceAction::RemoveRoom(id),
        _ => InterfaceAction::Ignore,
    }
}

/// What the window sends to the app task for a user action. An empty message is not
/// sent; going back from the chat view asks to leave the room.
pub fn request_for(event: WindowEvent) -> (r: Option<ClientLocalData>)
    ensures
        match event {
            WindowEvent::SetUserName(s) => r == Some(ClientLocalData::UserName(s)),
            WindowEvent::AddRoom(s) => r == Some(ClientLocalData::AddRoomRequest(s)),
            WindowEvent::JoinRoom(s) => r == Some(ClientLocalData::JoinRequest(s)),
            WindowEvent::SendMessage(s) => if s@.len() > 0 {
                r == Some(ClientLocalData::SendMessage(s))
            } else {
                r == None::<ClientLocalData>
            },
            WindowEvent::ChatViewBack => r matches Some(ClientLocalData::LeaveRequest(id))
                && id@.len() == 0,
        },
{
    match event {
        WindowEvent::SetUserName(s) => Some(ClientLocalData::UserName(s)),
        WindowEvent::AddRoom(s) => Some(ClientLocalData::AddRoomRequest(s)),
        WindowEvent::JoinRoom(s) => Some(ClientLocalData::JoinRequest(s)),
        WindowEvent::SendMessage(s) => {
            if !s.as_str().is_empty() {
                Some(ClientLocalData::SendMessage(s))
            } else {
                None
            }
        },
        WindowEvent::ChatViewBack => Some(ClientLocalData::LeaveRequest(String::new())),
    }
}

/// The canonical text of the address that a server ticket written as `text` leads to,
/// as `EndpointTicket::from_str` reads it; nothing when the text is no ticket.
pub uninterp spec fn ticket_text_addr(text: Seq<char>) -> Option<Seq<char>>;

/// Calls `EndpointTicket::from_str` (iroh-tickets) on the text and, when it parses,
/// writes the ticket back in its canonical string form. The parse and the encoding are
/// functions of the text alone; which texts parse, and to what, is left to the name
/// `ticket_text_addr`.
#[verifier::external_body]
fn parse_ticket(text: &str) -> (r: Option<PeerAddr>)
    ensures
        match (r, ticket_text_addr(text@)) {
            (Some(a), Some(t)) => a@ == t,
            (None, None) => true,
            _ => false,
        },
{
    match EndpointTicket::from_str(text) {
        Ok(ticket) => Some(PeerAddr::new(ticket.to_string())),
        Err(_) => None,
    }
}

/// The server address that the ticket the user typed leads to, to be pinged; nothing
/// when the text is no ticket.
pub fn on_set_server_ticket(input: &str) -> (r: Option<PeerAddr>)
    ensures
        match (r, ticket_text_addr(input@)) {
            (Some(a), Some(t)) => a@ == t,
            (None, None) => true,
            _ => false,
        },
{
    parse_ticket(input)
}

/// After the server named by a ticket was pinged: the app task learns its address
/// when it answered in time, and the user is told otherwise.
pub fn on_server_ping(addr: PeerAddr, answered: bool) -> (r: Option<ClientLocalData>)
    ensures
        answered ==> r == Some(ClientLocalData::ServerAddr(addr)),
        !answered ==> r == None::<ClientLocalData>,
{
    if answered {
        Some(ClientLocalData::ServerAddr(addr))
    } else {
        None
    }
}

/// The messages shown in the chat view, in the order they arrived.
pub struct ChatLog {
    messages: Vec<UserMessageData>,
}

impl View for ChatLog {
    type V = Seq<UserMessageData>;

    closed spec fn view(&self) -> Seq<UserMessageData> {
        self.messages@
    }
}

impl ChatLog {
    /// An empty log.
    pub fn new() -> (r: ChatLog)
        ensures
            r@ == Seq::<UserMessageData>::empty(),
    {
        ChatLog { messages: Vec::new() }
    }

    /// The messages, in order.
    pub fn messages(&self) -> (r: &Vec<UserMessageData>)
        ensures
            r@ == self@,
    {
        &self.messages
    }

    /// Appends received messages, in order.
    pub fn load_messages(&mut self, messages: Vec<UserMessageData>)
        ensures
            final(self)@ == old(self)@ + messages@,
    {
        let ghost start = self.messages@;
        let mut i: usize = 0;
        while i < messages.len()
            invariant
                i <= messages@.len(),
                self.messages@ == start + messages@.subrange(0, i as int),
            decreases messages.len() - i,
        {
            self.messages.push(messages[i].clone());
            i = i + 1;
            assert(self.messages@ =~= start + messages@.subrange(0, i as int));
        }
        assert(messages@.subrange(0, messages@.len() as int) =~= messages@);
    }
}

}
