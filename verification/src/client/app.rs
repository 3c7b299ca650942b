use vstd::prelude::*;

use crate::data::{ClientLocalData, RoomData, UserMessageData};

verus! {

/// Every message belongs to the current room; with no current room, there is no
/// message at all.
pub open spec fn all_in_room(ms: Seq<UserMessageData>, current: Option<String>) -> bool {
    match current {
        Some(c) => forall|i: int| 0 <= i < ms.len() ==> (#[trigger] ms[i]).room_id@ == c@,
        None => ms.len() == 0,
    }
}

/// The text of a room identifier, if there is one.
pub open spec fn room_view(room: Option<String>) -> Option<Seq<char>> {
    match room {
        Some(r) => Some(r@),
        None => None,
    }
}

/// How one piece of channel data changes the session (user name, current room): a
/// new name, a room joined, or nothing.
pub open spec fn session_after(
    name: Seq<char>,
    room: Option<Seq<char>>,
    data: ClientLocalData,
) -> (Seq<char>, Option<Seq<char>>) {
    match data {
        ClientLocalData::UserName(n) => (n@, room),
        ClientLocalData::JoinAccepted(r) => (name, Some(r@)),
        _ => (name, room),
    }
}

/// The session after the app task has taken each of `ds` off its channel, in order.
pub open spec fn session_after_all(
    name: Seq<char>,
    room: Option<Seq<char>>,
    ds: Seq<ClientLocalData>,
) -> (Seq<char>, Option<Seq<char>>)
    decreases ds.len(),
{
    if ds.len() == 0 {
        (name, room)
    } else {
        let (n, r) = session_after_all(name, room, ds.drop_last());
        session_after(n, r, ds.last())
    }
}

/// The name in the last `UserName` of `ds`; `default` when there is none.
pub open spec fn last_user_name(ds: Seq<ClientLocalData>, default: Seq<char>) -> Seq<char>
    decreases ds.len(),
{
    if ds.len() == 0 {
        default
    } else {
        match ds.last() {
            ClientLocalData::UserName(n) => n@,
            _ => last_user_name(ds.drop_last(), default),
        }
    }
}

/// The room in the last `JoinAccepted` of `ds`; `default` when there is none.
pub open spec fn last_joined_room(ds: Seq<ClientLocalData>, default: Option<Seq<char>>) -> Option<
    Seq<char>,
>
    decreases ds.len(),
{
    if ds.len() == 0 {
        default
    } else {
        match ds.last() {
            ClientLocalData::JoinAccepted(r) => Some(r@),
            _ => last_joined_room(ds.drop_last(), default),
        }
    }
}

/// The last name given wins and the last room joined wins; no other data changes
/// either.
pub proof fn lemma_last_name_and_room_win(
    name: Seq<char>,
    room: Option<Seq<char>>,
    ds: Seq<ClientLocalData>,
)
    ensures
        session_after_all(name, room, ds) == (last_user_name(ds, name), last_joined_room(ds, room)),
    decreases ds.len(),
{
    if ds.len() > 0 {
        lemma_last_name_and_room_win(name, room, ds.drop_last());
    }
}

/// A batch is for the current room exactly when each of its messages, the first
/// included, names the current room; with no current room only the empty batch is.
pub proof fn lemma_all_in_room_is_every_message(ms: Seq<UserMessageData>, current: Option<String>)
    ensures
        all_in_room(ms, current) <==> forall|i: int|
            0 <= i < ms.len() ==> room_view(current) == Some((#[trigger] ms[i]).room_id@),
{
    if current is None && ms.len() > 0 {
        assert(room_view(current) != Some(ms[0].room_id@));
    }
}

/// One message of another room keeps the whole batch from the window.
pub proof fn lemma_foreign_message_blocks_batch(
    ms: Seq<UserMessageData>,
    current: Option<String>,
    i: int,
)
    requires
        0 <= i < ms.len(),
        room_view(current) != Some(ms[i].room_id@),
    ensures
        !all_in_room(ms, current),
{
    lemma_all_in_room_is_every_message(ms, current);
}

/// What the client's app task does after it has taken one piece of data off its channel.
#[derive(Debug, PartialEq, Eq)]
pub enum AppAction {
    /// Nothing to do.
    Ignore,
    /// Tell the network task to shut down, wait for it, close the channel.
    Shutdown,
    /// Pass this on to the window.
    ToInterface(ClientLocalData),
    /// Pass this on to the network task.
    ToClient(ClientLocalData),
    /// Store the room, then call `on_room_inserted`.
    InsertRoom(RoomData),
}

/// The user's session: the name the user chose and the room the user is in.
pub struct App {
    pub user_name: String,
    pub current_room_id: Option<String>,
}

impl App {
    /// A session with no name and no room.
    pub fn new() -> (r: App)
        ensures
            r.user_name@ == Seq::<char>::empty(),
            r.current_room_id == None::<String>,
    {
        App { user_name: String::new(), current_room_id: None }
    }

    /// One step of the app task: what it does with one piece of data from its channel,
    /// and how the session changes.
    pub fn recv(&mut self, data: ClientLocalData) -> (r: AppAction)
        ensures
            (final(self).user_name@, room_view(final(self).current_room_id)) == session_after(
                old(self).user_name@,
                room_view(old(self).current_room_id),
                data,
            ),
            match data {
                ClientLocalData::UserName(name) => r == AppAction::Ignore && final(self).user_name
                    == name && final(self).current_room_id == old(self).current_room_id,
                ClientLocalData::JoinAccepted(room_id) => r == AppAction::ToInterface(
                    ClientLocalData::ChatView,
                ) && final(self).current_room_id == Some(room_id) && final(self).user_name == old(self).user_name,
                _ => *final(self) == *old(self),
            },
            match data {
                ClientLocalData::Shutdown => r == AppAction::Shutdown,
                ClientLocalData::UserName(_) => r == AppAction::Ignore,
                ClientLocalData::ServerAddr(a) => r == AppAction::ToClient(
                    ClientLocalData::ServerAddr(a),
                ),
                ClientLocalData::JoinRequest(id) => if old(self).user_name@.len() > 0 {
                    r == AppAction::ToClient(ClientLocalData::JoinRequest(id))
                } else {
                    r == AppAction::Ignore
                },
                ClientLocalData::LeaveRequest(_) => match old(self).current_room_id {
                    Some(id) => r == AppAction::ToClient(ClientLocalData::LeaveRequest(id)),
                    None => r == AppAction::Ignore,
                },
                ClientLocalData::ReceiveMessages(ms) => if all_in_room(
                    ms@,
                    old(self).current_room_id,
                ) {
                    r == AppAction::ToInterface(ClientLocalData::ReceiveMessages(ms))
                } else {
                    r == AppAction::Ignore
                },
                ClientLocalData::JoinAccepted(_) => r == AppAction::ToInterface(
                    ClientLocalData::ChatView,
                ),
                ClientLocalData::AddRoomRequest(id) => r == AppAction::ToClient(
                    ClientLocalData::AddRoomRequest(id),
                ),
                ClientLocalData::AddRoomAccepted(d) => r == AppAction::InsertRoom(d),
                ClientLocalData::SendMessage(text) => match old(self).current_room_id {
                    Some(room_id) => if old(self).user_name@.len() > 0 {
                        r matches AppAction::ToClient(ClientLocalData::SendMessageInit(m))
                            && m.room_id@ == room_id@ && m.user_name@ == old(self).user_name@
                            && m.content@ == text@
                    } else {
                        r == AppAction::Ignore
                    },
                    None => r == AppAction::Ignore,
                },
                _ => r == AppAction::Ignore,
            },
    {
        match data {
            ClientLocalData::Shutdown => AppAction::Shutdown,
            ClientLocalData::UserName(name) => {
                self.user_name = name;
                AppAction::Ignore
            },
            ClientLocalData::ServerAddr(a) => AppAction::ToClient(ClientLocalData::ServerAddr(a)),
            ClientLocalData::JoinRequest(id) => {
                if !self.user_name.as_str().is_empty() {
                    AppAction::ToClient(ClientLocalData::JoinRequest(id))
                } else {
                    AppAction::Ignore
                }
            },
            ClientLocalData::LeaveRequest(_) => {
                match &self.current_room_id {
                    Some(id) => AppAction::ToClient(ClientLocalData::LeaveRequest(id.clone())),
                    None => AppAction::Ignore,
                }
            },
            ClientLocalData::ReceiveMessages(ms) => {
                if self.all_in_current_room(&ms) {
                    AppAction::ToInterface(ClientLocalData::ReceiveMessages(ms))
                } else {
                    AppAction::Ignore
                }
            },
            ClientLocalData::JoinAccepted(room_id) => {
                self.current_room_id = Some(room_id);
                AppAction::ToInterface(ClientLocalData::ChatView)
            },
            ClientLocalData::AddRoomRequest(id) => AppAction::ToClient(
                ClientLocalData::AddRoomRequest(id),
            ),
            ClientLocalData::AddRoomAccepted(d) => AppAction::InsertRoom(d),
            ClientLocalData::SendMessage(text) => {
                if !self.user_name.as_str().is_empty() {
                    match &self.current_room_id {
                        Some(room_id) => {
                            let m = UserMessageData::new(
                                room_id.as_str(),
                                self.user_name.as_str(),
                                text.as_str(),
                            );
                            AppAction::ToClient(ClientLocalData::SendMessageInit(m))
                        },
                        None => AppAction::Ignore,
                    }
                } else {
                    AppAction::Ignore
                }
            },
            _ => AppAction::Ignore,
        }
    }

    /// Whether every message belongs to the room the user is in.
    pub fn all_in_current_room(&self, ms: &Vec<UserMessageData>) -> (r: bool)
        ensures
            r == all_in_room(ms@, self.current_room_id),
            r <==> forall|i: int|
                0 <= i < ms@.len() ==> room_view(self.current_room_id) == Some(
                    (#[trigger] ms@[i]).room_id@,
                ),
    {
        proof {
            lemma_all_in_room_is_every_message(ms@, self.current_room_id);
        }
        match &self.current_room_id {
            None => ms.len() == 0,
            Some(c) => {
                let mut i: usize = 0;
                while i < ms.len()
                    invariant
                        i <= ms@.len(),
                        self.current_room_id == Some(*c),
                        forall|j: int| 0 <= j < i ==> (#[trigger] ms@[j]).room_id@ == c@,
                    decreases ms.len() - i,
                {
                    if ms[i].room_id != *c {
                        assert(ms@[i as int].room_id@ != c@);
                        return false;
                    }
                    i = i + 1;
                }
                true
            },
        }
    }

    /// After the store was asked to keep an accepted room: the window shows it when the
    /// store took it, and nothing happens otherwise.
    pub fn on_room_inserted(&self, data: RoomData, inserted: bool) -> (r: Option<ClientLocalData>)
        ensures
            inserted ==> (r matches Some(ClientLocalData::AddRoomsUI(v)) && v@ == seq![data]),
            !inserted ==> r == None::<ClientLocalData>,
    {
        if inserted {
            let mut v: Vec<RoomData> = Vec::new();
            v.push(data);
            Some(ClientLocalData::AddRoomsUI(v))
        } else {
            None
        }
    }
}

}
