use vstd::prelude::*;

use crate::data::{PeerTicket, RoomData, ServerLocalData};

verus! {

/// What the server's window does with one piece of data from its channel.
#[derive(Debug, PartialEq, Eq)]
pub enum InterfaceAction {
    Ignore,
    /// Show the server's ticket.
    SetTicket(PeerTicket),
    /// Add the room to the room list.
    AddRoom(RoomData),
    /// Take the room of this identifier off the room list.
    RemoveRoom(String),
}

/// What the user did in the server's window.
#[derive(Debug, PartialEq, Eq)]
pub enum WindowEvent {
    CopyTicket(String),
    CreateRoom(String),
    DeleteRoom(String),
}

/// What the server's window does with its channel data.
pub fn recv(data: ServerLocalData) -> (r: InterfaceAction)
    ensures
        match data {
            ServerLocalData::ServerTicket(t) => r == InterfaceAction::SetTicket(t),
            ServerLocalData::AddRoomUI(d) => r == InterfaceAction::AddRoom(d),
            ServerLocalData::RemoveRoomUI(id) => r == InterfaceAction::RemoveRoom(id),
            _ => r == InterfaceAction::Ignore,
        },
{
    match data {
        ServerLocalData::ServerTicket(t) => InterfaceAction::SetTicket(t),
        ServerLocalData::AddRoomUI(d) => InterfaceAction::AddRoom(d),
        ServerLocalData::RemoveRoomUI(id) => InterfaceAction::RemoveRoom(id),
        _ => InterfaceAction::Ignore,
    }
}

/// What the window sends to the app task for a user action; copying the ticket goes
/// to the clipboard and sends nothing.
pub fn request_for(event: WindowEvent) -> (r: Option<ServerLocalData>)
    ensures
        match event {
            WindowEvent::CopyTicket(_) => r == None::<ServerLocalData>,
            WindowEvent::CreateRoom(name) => r == Some(ServerLocalData::CreateRoomRequest(name)),
            WindowEvent::DeleteRoom(id) => r == Some(ServerLocalData::DeleteRoomRequest(id)),
        },
{
    match event {
        WindowEvent::CopyTicket(_) => None,
        WindowEvent::CreateRoom(name) => Some(ServerLocalData::CreateRoomRequest(name)),
        WindowEvent::DeleteRoom(id) => Some(ServerLocalData::DeleteRoomRequest(id)),
    }
}

}
