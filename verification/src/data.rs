use vstd::prelude::*;

verus! {

#[derive(Debug, PartialEq, Eq)]
/// The address of a peer, held in its canonical textual form.
/// Two peers are the same exactly when their texts are equal.
pub struct PeerAddr {
    pub text: String,
}

impl View for PeerAddr {
    type V = Seq<char>;

    open spec fn view(&self) -> Seq<char> {
        self.text@
    }
}

impl PeerAddr {
    pub fn new(text: String) -> (r: PeerAddr)
        ensures
            r.text == text,
    {
        PeerAddr { text }
    }

    /// Whether two addresses name the same peer.
    pub fn same(&self, other: &PeerAddr) -> (r: bool)
        ensures
            r == (self@ == other@),
    {
        self.text == other.text
    }
}

impl Clone for PeerAddr {
    fn clone(&self) -> (r: PeerAddr)
        ensures
            r == *self,
    {
        PeerAddr { text: self.text.clone() }
    }
}

/// What a peer hands out so that others can reach it: its address.
#[derive(Debug, PartialEq, Eq)]
pub struct PeerTicket {
    pub addr: PeerAddr,
}

impl View for PeerTicket {
    type V = Seq<char>;

    open spec fn view(&self) -> Seq<char> {
        self.addr@
    }
}

impl PeerTicket {
    pub fn new(addr: PeerAddr) -> (r: PeerTicket)
        ensures
            r.addr == addr,
    {
        PeerTicket { addr }
    }

    /// The address that this ticket leads to.
    pub fn endpoint_addr(&self) -> (r: &PeerAddr)
        ensures
            *r == self.addr,
    {
        &self.addr
    }
}

impl Clone for PeerTicket {
    fn clone(&self) -> (r: PeerTicket)
        ensures
            r == *self,
    {
        PeerTicket { addr: self.addr.clone() }
    }
}

/// A chat room: its identifier and its display name.
#[derive(Debug, PartialEq, Eq)]
pub struct RoomData {
    pub id: String,
    pub name: String,
}

impl RoomData {
    pub fn new(id: &str, name: &str) -> (r: RoomData)
        ensures
            r.id@ == id@,
            r.name@ == name@,
    {
        RoomData { name: name.to_owned(), id: id.to_owned() }
    }
}

impl Clone for RoomData {
    fn clone(&self) -> (r: RoomData)
        ensures
            r == *self,
    {
        RoomData { id: self.id.clone(), name: self.name.clone() }
    }
}

/// One chat message: the room it was posted in, its author and its text.
#[derive(Debug, PartialEq, Eq)]
pub struct UserMessageData {
    pub room_id: String,
    pub user_name: String,
    pub content: String,
}

impl UserMessageData {
    pub fn new(room_id: &str, user_name: &str, content: &str) -> (r: UserMessageData)
        ensures
            r.room_id@ == room_id@,
            r.user_name@ == user_name@,
            r.content@ == content@,
    {
        UserMessageData {
            room_id: room_id.to_owned(),
            user_name: user_name.to_owned(),
            content: content.to_owned(),
        }
    }
}

impl Clone for UserMessageData {
    fn clone(&self) -> (r: UserMessageData)
        ensures
            r == *self,
    {
        UserMessageData {
            room_id: self.room_id.clone(),
            user_name: self.user_name.clone(),
            content: self.content.clone(),
        }
    }
}

/// Data that the server sends to a client over the network.
#[derive(Debug, PartialEq, Eq)]
pub enum ClientNetworkData {
    ReceiveMessages(Vec<UserMessageData>),
    JoinAccepted(String),
    RoomAdded(RoomData),
}

/// Data that the tasks of a client hand to one another.
#[derive(Debug, PartialEq, Eq)]
pub enum ClientLocalData {
    Shutdown,
    UserName(String),
    ServerAddr(PeerAddr),
    AddRoomsUI(Vec<RoomData>),
    RemoveRoomUI(String),
    ChatView,
    ReceiveMessages(Vec<UserMessageData>),
    AddRoomRequest(String),
    AddRoomAccepted(RoomData),
    JoinRequest(String),
    LeaveRequest(String),
    JoinAccepted(String),
    SendMessage(String),
    SendMessageInit(UserMessageData),
}

/// Data that a client sends to the server over the network.
#[derive(Debug, PartialEq, Eq)]
pub enum ServerNetworkData {
    Test,
    Joined(PeerTicket, String),
    Left(PeerTicket, String),
    AddRoomRequest(PeerTicket, String),
    MessageSent(UserMessageData),
}

/// Data that the tasks of the server hand to one another.
#[derive(Debug, PartialEq, Eq)]
pub enum ServerLocalData {
    Shutdown,
    ServerTicket(PeerTicket),
    CreateRoomRequest(String),
    DeleteRoomRequest(String),
    AddRoomUI(RoomData),
    RemoveRoomUI(String),
    Joined(PeerAddr, String),
    Left(PeerAddr, String),
    SendMessages(PeerAddr, Vec<UserMessageData>),
    ChatView(PeerAddr),
    JoinAccepted(PeerAddr, String),
    HandleAddRoomRequest(PeerAddr, String),
    MessageReceived(UserMessageData),
}

}
