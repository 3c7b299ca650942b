use vstd::prelude::*;

use crate::data::{PeerAddr, RoomData, ServerLocalData, UserMessageData};
use crate::room_id::{generate_room_id, is_room_id};

verus! {

/// How many stored messages a client is sent when it joins a room.
pub const MESSAGE_HISTORY_LIMIT: usize = 10;

/// The set of peers named by a sequence of addresses.
pub open spec fn addr_set(s: Seq<PeerAddr>) -> Set<Seq<char>> {
    Set::new(|x: Seq<char>| exists|j: int| 0 <= j < s.len() && #[trigger] s[j]@ == x)
}

/// No peer occurs twice in a sequence of addresses.
pub open spec fn distinct_addrs(s: Seq<PeerAddr>) -> bool {
    forall|i: int, j: int| 0 <= i < s.len() && 0 <= j < s.len() && i != j ==> s[i]@ != s[j]@
}

/// Membership after a peer joins a room: the room gets the peer, and is created if it
/// had no member yet.
pub open spec fn joined_view(
    v: Map<Seq<char>, Set<Seq<char>>>,
    addr: Seq<char>,
    room: Seq<char>,
) -> Map<Seq<char>, Set<Seq<char>>> {
    let old_members = if v.contains_key(room) {
        v[room]
    } else {
        Set::empty()
    };
    v.insert(room, old_members.insert(addr))
}

/// Membership after a peer leaves a room: the peer is taken out, and a room left
/// without members is dropped. A room that is not there stays away.
pub open spec fn left_view(
    v: Map<Seq<char>, Set<Seq<char>>>,
    addr: Seq<char>,
    room: Seq<char>,
) -> Map<Seq<char>, Set<Seq<char>>> {
    if v.contains_key(room) {
        let rest = v[room].remove(addr);
        if rest == Set::<Seq<char>>::empty() {
            v.remove(room)
        } else {
            v.insert(room, rest)
        }
    } else {
        v
    }
}

/// How one piece of the app task's channel data changes the membership: a peer joins,
/// a peer leaves, or nothing changes.
pub open spec fn membership_after(
    v: Map<Seq<char>, Set<Seq<char>>>,
    data: ServerLocalData,
) -> Map<Seq<char>, Set<Seq<char>>> {
    match data {
        ServerLocalData::Joined(a, r) => joined_view(v, a@, r@),
        ServerLocalData::Left(a, r) => left_view(v, a@, r@),
        _ => v,
    }
}

/// The membership after the app task has taken each of `ds` off its channel, in order.
pub open spec fn membership_after_all(
    v: Map<Seq<char>, Set<Seq<char>>>,
    ds: Seq<ServerLocalData>,
) -> Map<Seq<char>, Set<Seq<char>>>
    decreases ds.len(),
{
    if ds.len() == 0 {
        v
    } else {
        membership_after(membership_after_all(v, ds.drop_last()), ds.last())
    }
}

/// The members of a room, none when the room is not there.
pub open spec fn members_of(v: Map<Seq<char>, Set<Seq<char>>>, room: Seq<char>) -> Set<Seq<char>> {
    if v.contains_key(room) {
        v[room]
    } else {
        Set::empty()
    }
}

/// Every room of a membership map has at least one member.
pub open spec fn no_empty_room(v: Map<Seq<char>, Set<Seq<char>>>) -> bool {
    forall|r: Seq<char>| #[trigger] v.contains_key(r) ==> v[r] != Set::<Seq<char>>::empty()
}

/// The peer that a `SendMessages` is addressed to.
pub open spec fn recipient(d: ServerLocalData) -> Seq<char> {
    match d {
        ServerLocalData::SendMessages(a, _) => a@,
        _ => Seq::empty(),
    }
}

/// `sends` hands `data` to each member of `members` once, and to nobody else.
pub open spec fn is_broadcast(
    sends: Seq<ServerLocalData>,
    data: UserMessageData,
    members: Set<Seq<char>>,
) -> bool {
    &&& forall|i: int|
        0 <= i < sends.len() ==> (#[trigger] sends[i] matches ServerLocalData::SendMessages(a, ms)
            && ms@ == seq![data] && members.contains(a@))
    &&& forall|x: Seq<char>|
        members.contains(x) ==> exists|i: int| 0 <= i < sends.len() && #[trigger] recipient(sends[i]) == x
    &&& forall|i: int, j: int|
        0 <= i < sends.len() && 0 <= j < sends.len() && i != j ==> recipient(sends[i]) != recipient(
            sends[j],
        )
}

/// What the server's app task is asked to do for a stored message history.
#[derive(Debug, PartialEq, Eq)]
pub struct HistoryRequest {
    pub addr: PeerAddr,
    pub room_id: String,
    pub limit: usize,
}

/// What the app task does after it has taken one piece of data off its channel.
#[derive(Debug, PartialEq, Eq)]
pub enum AppAction {
    /// Nothing to do.
    Ignore,
    /// Tell the network task to shut down, wait for it, close the channel.
    Shutdown,
    /// Pass this on to the window.
    ToInterface(ServerLocalData),
    /// Create a room of this name, in a task of its own.
    CreateRoom(String),
    /// Delete the room of this identifier, in a task of its own.
    DeleteRoom(String),
    /// A peer joined: send it the history (in a task of its own), then send this to the
    /// network task.
    ClientJoined { history: HistoryRequest, to_server: ServerLocalData },
    /// Look up whether the message's room exists, then call `on_message_received`.
    CheckRoom(UserMessageData),
}

/// What becomes of a message that a peer sent.
#[derive(Debug, PartialEq, Eq)]
pub enum MessageOutcome {
    /// Its room does not exist: it is dropped.
    Drop,
    /// Store the message, then send each of these to the network task.
    SaveAndSend { message: UserMessageData, sends: Vec<ServerLocalData> },
}

struct RoomClients {
    room_id: String,
    addrs: Vec<PeerAddr>,
}

spec fn ids_distinct(rs: Seq<RoomClients>) -> bool {
    forall|i: int, j: int|
        0 <= i < rs.len() && 0 <= j < rs.len() && i != j ==> rs[i].room_id@ != rs[j].room_id@
}

spec fn has_room(rs: Seq<RoomClients>, k: Seq<char>) -> bool {
    exists|i: int| 0 <= i < rs.len() && #[trigger] rs[i].room_id@ == k
}

spec fn room_index(rs: Seq<RoomClients>, k: Seq<char>) -> int {
    choose|i: int| 0 <= i < rs.len() && #[trigger] rs[i].room_id@ == k
}

spec fn rooms_view(rs: Seq<RoomClients>) -> Map<Seq<char>, Set<Seq<char>>> {
    Map::new(|k: Seq<char>| has_room(rs, k), |k: Seq<char>| addr_set(rs[room_index(rs, k)].addrs@))
}

proof fn lemma_view_at(rs: Seq<RoomClients>, i: int)
    requires
        ids_distinct(rs),
        0 <= i < rs.len(),
    ensures
        rooms_view(rs).contains_key(rs[i].room_id@),
        rooms_view(rs)[rs[i].room_id@] == addr_set(rs[i].addrs@),
{
    let k = rs[i].room_id@;
    assert(has_room(rs, k));
    let j = room_index(rs, k);
    assert(rs[j].room_id@ == k);
}

proof fn lemma_view_absent(rs: Seq<RoomClients>, k: Seq<char>)
    requires
        forall|i: int| 0 <= i < rs.len() ==> rs[i].room_id@ != k,
    ensures
        !rooms_view(rs).contains_key(k),
{
}

proof fn lemma_addr_set_push(s: Seq<PeerAddr>, a: PeerAddr)
    ensures
        addr_set(s.push(a)) == addr_set(s).insert(a@),
{
    let t = s.push(a);
    assert forall|x: Seq<char>| addr_set(t).contains(x) <==> addr_set(s).insert(a@).contains(x) by {
        if addr_set(s).contains(x) && x != a@ {
            let j = choose|j: int| 0 <= j < s.len() && #[trigger] s[j]@ == x;
            assert(t[j]@ == x);
        }
        if x == a@ {
            assert(t[s.len() as int]@ == x);
        }
        if addr_set(t).contains(x) {
            let j = choose|j: int| 0 <= j < t.len() && #[trigger] t[j]@ == x;
            if j < s.len() {
                assert(s[j]@ == x);
            }
        }
    }
    assert(addr_set(s.push(a)) =~= addr_set(s).insert(a@));
}

proof fn lemma_addr_set_remove(s: Seq<PeerAddr>, j: int)
    requires
        distinct_addrs(s),
        0 <= j < s.len(),
    ensures
        addr_set(s.remove(j)) == addr_set(s).remove(s[j]@),
        distinct_addrs(s.remove(j)),
{
    let t = s.remove(j);
    assert forall|x: Seq<char>| addr_set(t).contains(x) <==> addr_set(s).remove(s[j]@).contains(x) by {
        if addr_set(t).contains(x) {
            let k = choose|k: int| 0 <= k < t.len() && #[trigger] t[k]@ == x;
            if k < j {
                assert(s[k]@ == x);
            } else {
                assert(s[k + 1]@ == x);
            }
        }
        if addr_set(s).remove(s[j]@).contains(x) {
            let k = choose|k: int| 0 <= k < s.len() && #[trigger] s[k]@ == x;
            assert(k != j);
            if k < j {
                assert(t[k]@ == x);
            } else {
                assert(t[k - 1]@ == x);
            }
        }
    }
    assert(addr_set(s.remove(j)) =~= addr_set(s).remove(s[j]@));
}

proof fn lemma_addr_set_empty(s: Seq<PeerAddr>)
    ensures
        (addr_set(s) == Set::<Seq<char>>::empty()) <==> s.len() == 0,
{
    if s.len() > 0 {
        assert(addr_set(s).contains(s[0]@));
    } else {
        assert(addr_set(s) =~= Set::<Seq<char>>::empty());
    }
}

proof fn lemma_addr_set_absent(s: Seq<PeerAddr>, a: Seq<char>)
    requires
        forall|j: int| 0 <= j < s.len() ==> s[j]@ != a,
    ensures
        !addr_set(s).contains(a),
{
}

/// Which peers are in which room: the state of the server's app task.
pub struct App {
    rooms: Vec<RoomClients>,
}

impl View for App {
    type V = Map<Seq<char>, Set<Seq<char>>>;

    closed spec fn view(&self) -> Map<Seq<char>, Set<Seq<char>>> {
        rooms_view(self.rooms@)
    }
}

impl App {
    /// No room occurs twice, no peer occurs twice in a room, and no room is empty.
    pub closed spec fn wf(&self) -> bool {
        &&& ids_distinct(self.rooms@)
        &&& forall|i: int|
            0 <= i < self.rooms@.len() ==> distinct_addrs(#[trigger] self.rooms@[i].addrs@)
                && self.rooms@[i].addrs@.len() > 0
    }

    /// The membership of a well-formed state has no empty room.
    pub proof fn lemma_wf_no_empty_room(&self)
        requires
            self.wf(),
        ensures
            no_empty_room(self@),
    {
        assert forall|r: Seq<char>| #[trigger] self@.contains_key(r) implies self@[r]
            != Set::<Seq<char>>::empty() by {
            let i = room_index(self.rooms@, r);
            lemma_view_at(self.rooms@, i);
            lemma_addr_set_empty(self.rooms@[i].addrs@);
        }
    }

    /// A state in which no peer is in any room.
    pub fn new() -> (r: App)
        ensures
            r.wf(),
            r@ == Map::<Seq<char>, Set<Seq<char>>>::empty(),
    {
        let r = App { rooms: Vec::new() };
        assert(r@ =~= Map::<Seq<char>, Set<Seq<char>>>::empty());
        r
    }

    fn find_room(&self, room_id: &String) -> (r: Option<usize>)
        ensures
            match r {
                Some(i) => i < self.rooms@.len() && self.rooms@[i as int].room_id@ == room_id@,
                None => forall|i: int|
                    0 <= i < self.rooms@.len() ==> self.rooms@[i].room_id@ != room_id@,
            },
    {
        let mut i: usize = 0;
        while i < self.rooms.len()
            invariant
                i <= self.rooms@.len(),
                forall|j: int| 0 <= j < i ==> self.rooms@[j].room_id@ != room_id@,
            decreases self.rooms.len() - i,
        {
            if self.rooms[i].room_id == *room_id {
                return Some(i);
            }
            i = i + 1;
        }
        None
    }

    /// Whether a peer is in a room.
    pub fn is_member(&self, addr: &PeerAddr, room_id: &String) -> (r: bool)
        requires
            self.wf(),
        ensures
            r == members_of(self@, room_id@).contains(addr@),
    {
        match self.find_room(room_id) {
            None => {
                proof {
                    lemma_view_absent(self.rooms@, room_id@);
                }
                false
            },
            Some(i) => {
                proof {
                    lemma_view_at(self.rooms@, i as int);
                }
                match find_addr(&self.rooms[i].addrs, addr) {
                    Some(_) => true,
                    None => {
                        proof {
                            lemma_addr_set_absent(self.rooms@[i as int].addrs@, addr@);
                        }
                        false
                    },
                }
            },
        }
    }

    /// Puts a peer into a room.
    fn add_member(&mut self, addr: &PeerAddr, room_id: &String)
        requires
            old(self).wf(),
        ensures
            final(self).wf(),
            final(self)@ == joined_view(old(self)@, addr@, room_id@),
    {
        let ghost old_rooms = self.rooms@;
        match self.find_room(room_id) {
            None => {
                let mut addrs: Vec<PeerAddr> = Vec::new();
                addrs.push(addr.clone());
                let rc = RoomClients { room_id: room_id.clone(), addrs };
                self.rooms.push(rc);
                proof {
                    let rs = self.rooms@;
                    let n = old_rooms.len() as int;
                    lemma_view_absent(old_rooms, room_id@);
                    assert(addr_set(rs[n].addrs@) =~= Set::<Seq<char>>::empty().insert(addr@)) by {
                        lemma_addr_set_push(Seq::<PeerAddr>::empty(), *addr);
                        assert(rs[n].addrs@ == Seq::<PeerAddr>::empty().push(*addr));
                        assert(addr_set(Seq::<PeerAddr>::empty()) =~= Set::<Seq<char>>::empty());
                    }
                    lemma_view_at(rs, n);
                    assert forall|k: Seq<char>|
                        rooms_view(rs).contains_key(k) <==> joined_view(
                            rooms_view(old_rooms),
                            addr@,
                            room_id@,
                        ).contains_key(k) by {
                        if has_room(old_rooms, k) {
                            let j = choose|j: int| 0 <= j < old_rooms.len() && #[trigger] old_rooms[j].room_id@ == k;
                            assert(rs[j].room_id@ == k);
                        }
                        if has_room(rs, k) && k != room_id@ {
                            let j = choose|j: int| 0 <= j < rs.len() && #[trigger] rs[j].room_id@ == k;
                            assert(j != n);
                            assert(old_rooms[j].room_id@ == k);
                        }
                    }
                    assert forall|k: Seq<char>| #[trigger]
                        rooms_view(rs).contains_key(k) && k != room_id@ implies rooms_view(rs)[k]
                        == rooms_view(old_rooms)[k] by {
                        let j = choose|j: int| 0 <= j < rs.len() && #[trigger] rs[j].room_id@ == k;
                        assert(j != n);
                        lemma_view_at(rs, j);
                        assert(old_rooms[j] == rs[j]);
                        lemma_view_at(old_rooms, j);
                    }
                    assert(rooms_view(rs) =~= joined_view(rooms_view(old_rooms), addr@, room_id@));
                }
            },
            Some(i) => {
                proof {
                    lemma_view_at(old_rooms, i as int);
                }
                match find_addr(&self.rooms[i].addrs, addr) {
                    Some(_) => {
                        assert(rooms_view(old_rooms)[room_id@].contains(addr@));
                        assert(rooms_view(old_rooms)[room_id@].insert(addr@) =~= rooms_view(
                            old_rooms,
                        )[room_id@]);
                        assert(joined_view(rooms_view(old_rooms), addr@, room_id@) =~= rooms_view(
                            old_rooms,
                        ));
                    },
                    None => {
                        let mut rc = self.rooms.remove(i);
                        let ghost old_addrs = rc.addrs@;
                        rc.addrs.push(addr.clone());
                        self.rooms.insert(i, rc);
                        proof {
                            let rs = self.rooms@;
                            assert(rs =~= old_rooms.update(i as int, rs[i as int]));
                            lemma_addr_set_push(old_addrs, *addr);
                            lemma_view_at(rs, i as int);
                            assert(distinct_addrs(rs[i as int].addrs@));
                            Self::lemma_update_view(old_rooms, i as int, rs[i as int]);
                            assert(rooms_view(rs) =~= joined_view(
                                rooms_view(old_rooms),
                                addr@,
                                room_id@,
                            ));
                        }
                    },
                }
            },
        }
    }

    /// Records that a peer joined a room, and what follows: the peer is to be sent the
    /// room's last `MESSAGE_HISTORY_LIMIT` stored messages, and the network task is to
    /// be told to show it the chat view.
    pub fn on_client_joined(&mut self, addr: PeerAddr, room_id: String) -> (r: AppAction)
        requires
            old(self).wf(),
        ensures
            final(self).wf(),
            final(self)@ == joined_view(old(self)@, addr@, room_id@),
            r == (AppAction::ClientJoined {
                history: HistoryRequest { addr, room_id, limit: MESSAGE_HISTORY_LIMIT },
                to_server: ServerLocalData::ChatView(addr),
            }),
    {
        self.add_member(&addr, &room_id);
        let history = HistoryRequest { addr: addr.clone(), room_id, limit: MESSAGE_HISTORY_LIMIT };
        AppAction::ClientJoined { history, to_server: ServerLocalData::ChatView(addr) }
    }

    proof fn lemma_update_view(rs: Seq<RoomClients>, i: int, rc: RoomClients)
        requires
            ids_distinct(rs),
            0 <= i < rs.len(),
            rc.room_id@ == rs[i].room_id@,
        ensures
            ids_distinct(rs.update(i, rc)),
            rooms_view(rs.update(i, rc)) == rooms_view(rs).insert(rc.room_id@, addr_set(rc.addrs@)),
    {
        let t = rs.update(i, rc);
        let k0 = rc.room_id@;
        assert forall|k: Seq<char>| has_room(t, k) <==> has_room(rs, k) by {
            if has_room(t, k) {
                let j = choose|j: int| 0 <= j < t.len() && #[trigger] t[j].room_id@ == k;
                assert(rs[j].room_id@ == k);
            }
            if has_room(rs, k) {
                let j = choose|j: int| 0 <= j < rs.len() && #[trigger] rs[j].room_id@ == k;
                assert(t[j].room_id@ == k);
            }
        }
        lemma_view_at(t, i);
        assert forall|k: Seq<char>| #[trigger]
            rooms_view(t).contains_key(k) && k != k0 implies rooms_view(t)[k] == rooms_view(rs)[k] by {
            let j = choose|j: int| 0 <= j < t.len() && #[trigger] t[j].room_id@ == k;
            assert(j != i);
            lemma_view_at(t, j);
            lemma_view_at(rs, j);
        }
        lemma_view_at(rs, i);
        assert(rooms_view(t) =~= rooms_view(rs).insert(k0, addr_set(rc.addrs@)));
    }

    proof fn lemma_remove_view(rs: Seq<RoomClients>, i: int)
        requires
            ids_distinct(rs),
            0 <= i < rs.len(),
        ensures
            ids_distinct(rs.remove(i)),
            rooms_view(rs.remove(i)) == rooms_view(rs).remove(rs[i].room_id@),
    {
        let t = rs.remove(i);
        let k0 = rs[i].room_id@;
        assert forall|k: Seq<char>| has_room(t, k) <==> (has_room(rs, k) && k != k0) by {
            if has_room(t, k) {
                let j = choose|j: int| 0 <= j < t.len() && #[trigger] t[j].room_id@ == k;
                if j < i {
                    assert(rs[j].room_id@ == k);
                } else {
                    assert(rs[j + 1].room_id@ == k);
                }
            }
            if has_room(rs, k) && k != k0 {
                let j = choose|j: int| 0 <= j < rs.len() && #[trigger] rs[j].room_id@ == k;
                if j < i {
                    assert(t[j].room_id@ == k);
                } else {
                    assert(t[j - 1].room_id@ == k);
                }
            }
        }
        assert forall|k: Seq<char>| #[trigger] rooms_view(t).contains_key(k) implies rooms_view(t)[k]
            == rooms_view(rs)[k] by {
            let j = choose|j: int| 0 <= j < t.len() && #[trigger] t[j].room_id@ == k;
            lemma_view_at(t, j);
            if j < i {
                lemma_view_at(rs, j);
            } else {
                lemma_view_at(rs, j + 1);
            }
        }
        assert(rooms_view(t) =~= rooms_view(rs).remove(k0));
    }

    /// Records that a peer left a room.
    pub fn on_client_left(&mut self, addr: &PeerAddr, room_id: &String)
        requires
            old(self).wf(),
        ensures
            final(self).wf(),
            final(self)@ == left_view(old(self)@, addr@, room_id@),
    {
        let ghost old_rooms = self.rooms@;
        match self.find_room(room_id) {
            None => {
                proof {
                    lemma_view_absent(old_rooms, room_id@);
                }
            },
            Some(i) => {
                proof {
                    lemma_view_at(old_rooms, i as int);
                }
                match find_addr(&self.rooms[i].addrs, addr) {
                    None => {
                        proof {
                            let s = old_rooms[i as int].addrs@;
                            lemma_addr_set_absent(s, addr@);
                            lemma_addr_set_empty(s);
                            assert(addr_set(s).remove(addr@) =~= addr_set(s));
                            assert(rooms_view(old_rooms).insert(room_id@, addr_set(s)) =~= rooms_view(
                                old_rooms,
                            ));
                        }
                    },
                    Some(j) => {
                        let mut rc = self.rooms.remove(i);
                        let ghost old_addrs = rc.addrs@;
                        rc.addrs.remove(j);
                        proof {
                            lemma_addr_set_remove(old_addrs, j as int);
                            lemma_addr_set_empty(rc.addrs@);
                        }
                        if rc.addrs.len() == 0 {
                            proof {
                                Self::lemma_remove_view(old_rooms, i as int);
                                assert forall|a: int|
                                    0 <= a < self.rooms@.len() implies distinct_addrs(
                                    #[trigger] self.rooms@[a].addrs@,
                                ) && self.rooms@[a].addrs@.len() > 0 by {
                                    if a < i {
                                        assert(self.rooms@[a] == old_rooms[a]);
                                    } else {
                                        assert(self.rooms@[a] == old_rooms[a + 1]);
                                    }
                                }
                            }
                        } else {
                            self.rooms.insert(i, rc);
                            proof {
                                let rs = self.rooms@;
                                assert(rs =~= old_rooms.update(i as int, rs[i as int]));
                                Self::lemma_update_view(old_rooms, i as int, rs[i as int]);
                            }
                        }
                    },
                }
            },
        }
    }

    /// The peers in a room, each once.
    pub fn members(&self, room_id: &String) -> (r: Vec<PeerAddr>)
        requires
            self.wf(),
        ensures
            addr_set(r@) == members_of(self@, room_id@),
            distinct_addrs(r@),
    {
        match self.find_room(room_id) {
            None => {
                proof {
                    lemma_view_absent(self.rooms@, room_id@);
                    assert(addr_set(Seq::<PeerAddr>::empty()) =~= Set::<Seq<char>>::empty());
                }
                Vec::new()
            },
            Some(i) => {
                proof {
                    lemma_view_at(self.rooms@, i as int);
                }
                let src = &self.rooms[i].addrs;
                let mut r: Vec<PeerAddr> = Vec::new();
                let mut j: usize = 0;
                while j < src.len()
                    invariant
                        j <= src@.len(),
                        r@ == src@.subrange(0, j as int),
                    decreases src.len() - j,
                {
                    r.push(src[j].clone());
                    j = j + 1;
                    assert(r@ =~= src@.subrange(0, j as int));
                }
                assert(r@ =~= src@);
                r
            },
        }
    }

    /// The fan-out of a message that a peer sent: dropped when its room does not exist
    /// (`room_exists` says whether the store has it), else stored and sent to every peer
    /// in its room.
    pub fn on_message_received(&self, data: UserMessageData, room_exists: bool) -> (r:
        MessageOutcome)
        requires
            self.wf(),
        ensures
            !room_exists ==> r == MessageOutcome::Drop,
            room_exists ==> (r matches MessageOutcome::SaveAndSend { message, sends } && message
                == data && is_broadcast(sends@, data, members_of(self@, data.room_id@))),
    {
        if !room_exists {
            return MessageOutcome::Drop;
        }
        let addrs = self.members(&data.room_id);
        let ghost members = members_of(self@, data.room_id@);
        let mut sends: Vec<ServerLocalData> = Vec::new();
        let mut j: usize = 0;
        while j < addrs.len()
            invariant
                j <= addrs@.len(),
                sends@.len() == j,
                addr_set(addrs@) == members,
                distinct_addrs(addrs@),
                forall|i: int|
                    0 <= i < j ==> (#[trigger] sends@[i] matches ServerLocalData::SendMessages(a, ms)
                        && ms@ == seq![data] && a@ == addrs@[i]@),
            decreases addrs.len() - j,
        {
            let mut ms: Vec<UserMessageData> = Vec::new();
            ms.push(data.clone());
            sends.push(ServerLocalData::SendMessages(addrs[j].clone(), ms));
            j = j + 1;
        }
        proof {
            assert forall|i: int| 0 <= i < sends@.len() implies (#[trigger] sends@[i] matches ServerLocalData::SendMessages(a, ms)
                && ms@ == seq![data] && members.contains(a@)) by {
                assert(addr_set(addrs@).contains(addrs@[i]@));
            }
            assert forall|x: Seq<char>| members.contains(x) implies exists|i: int|
                0 <= i < sends@.len() && #[trigger] recipient(sends@[i]) == x by {
                let i = choose|i: int| 0 <= i < addrs@.len() && #[trigger] addrs@[i]@ == x;
                assert(recipient(sends@[i]) == x);
            }
            assert forall|a: int, b: int|
                0 <= a < sends@.len() && 0 <= b < sends@.len() && a != b implies recipient(
                sends@[a],
            ) != recipient(sends@[b]) by {
                assert(recipient(sends@[a]) == addrs@[a]@);
                assert(recipient(sends@[b]) == addrs@[b]@);
            }
        }
        MessageOutcome::SaveAndSend { message: data, sends }
    }

    /// One step of the app task: what it does with one piece of data from its channel,
    /// and how the membership changes.
    pub fn recv(&mut self, data: ServerLocalData) -> (r: AppAction)
        requires
            old(self).wf(),
        ensures
            final(self).wf(),
            final(self)@ == membership_after(old(self)@, data),
            match data {
                ServerLocalData::Shutdown => r == AppAction::Shutdown && final(self)@ == old(self)@,
                ServerLocalData::ServerTicket(t) => r == AppAction::ToInterface(
                    ServerLocalData::ServerTicket(t),
                ) && final(self)@ == old(self)@,
                ServerLocalData::CreateRoomRequest(name) => r == AppAction::CreateRoom(name)
                    && final(self)@ == old(self)@,
                ServerLocalData::DeleteRoomRequest(id) => r == AppAction::DeleteRoom(id) && final(self)@ == old(self)@,
                ServerLocalData::Joined(addr, room_id) => r == (AppAction::ClientJoined {
                    history: HistoryRequest { addr, room_id, limit: MESSAGE_HISTORY_LIMIT },
                    to_server: ServerLocalData::ChatView(addr),
                }) && final(self)@ == joined_view(old(self)@, addr@, room_id@),
                ServerLocalData::Left(addr, room_id) => r == AppAction::Ignore && final(self)@
                    == left_view(old(self)@, addr@, room_id@),
                ServerLocalData::MessageReceived(m) => r == AppAction::CheckRoom(m) && final(self)@ == old(self)@,
                _ => r == AppAction::Ignore && final(self)@ == old(self)@,
            },
    {
        match data {
            ServerLocalData::Shutdown => AppAction::Shutdown,
            ServerLocalData::ServerTicket(t) => AppAction::ToInterface(
                ServerLocalData::ServerTicket(t),
            ),
            ServerLocalData::CreateRoomRequest(name) => AppAction::CreateRoom(name),
            ServerLocalData::DeleteRoomRequest(id) => AppAction::DeleteRoom(id),
            ServerLocalData::Joined(addr, room_id) => self.on_client_joined(addr, room_id),
            ServerLocalData::Left(addr, room_id) => {
                self.on_client_left(&addr, &room_id);
                AppAction::Ignore
            },
            ServerLocalData::MessageReceived(m) => AppAction::CheckRoom(m),
            _ => AppAction::Ignore,
        }
    }
}

fn find_addr(addrs: &Vec<PeerAddr>, addr: &PeerAddr) -> (r: Option<usize>)
    ensures
        match r {
            Some(j) => j < addrs@.len() && addrs@[j as int]@ == addr@,
            None => forall|j: int| 0 <= j < addrs@.len() ==> addrs@[j]@ != addr@,
        },
{
    let mut j: usize = 0;
    while j < addrs.len()
        invariant
            j <= addrs@.len(),
            forall|k: int| 0 <= k < j ==> addrs@[k]@ != addr@,
        decreases addrs.len() - j,
    {
        if addrs[j].same(addr) {
            return Some(j);
        }
        j = j + 1;
    }
    None
}

/// A new room of the given name with a fresh random identifier, and what the window is
/// told once the room is stored.
pub fn handle_create_room_request(name: &str) -> (r: (RoomData, ServerLocalData))
    ensures
        r.0.name@ == name@,
        is_room_id(r.0.id@),
        r.1 == ServerLocalData::AddRoomUI(r.0),
{
    let id = generate_room_id();
    let data = RoomData::new(id.as_str(), name);
    (data.clone(), ServerLocalData::AddRoomUI(data))
}

/// Leaving a room undoes joining it, for a peer that was not in it before.
pub proof fn lemma_leave_undoes_join(app: &App, addr: Seq<char>, room: Seq<char>)
    requires
        app.wf(),
        !members_of(app@, room).contains(addr),
    ensures
        left_view(joined_view(app@, addr, room), addr, room) == app@,
{
    app.lemma_wf_no_empty_room();
    let v = app@;
    let j = joined_view(v, addr, room);
    if v.contains_key(room) {
        assert(j[room].remove(addr) =~= v[room]);
        assert(v.insert(room, v[room]) =~= v);
    } else {
        assert(j[room].remove(addr) =~= Set::<Seq<char>>::empty());
        assert(j.remove(room) =~= v);
    }
}

/// Joining a room twice is joining it once.
pub proof fn lemma_join_idempotent(v: Map<Seq<char>, Set<Seq<char>>>, addr: Seq<char>, room: Seq<char>)
    ensures
        joined_view(joined_view(v, addr, room), addr, room) == joined_view(v, addr, room),
{
    let j = joined_view(v, addr, room);
    assert(j[room].insert(addr) =~= j[room]);
    assert(j.insert(room, j[room]) =~= j);
}

/// A peer that leaves a room is no longer in it, and no other room changes.
pub proof fn lemma_left_not_member(v: Map<Seq<char>, Set<Seq<char>>>, addr: Seq<char>, room: Seq<char>)
    ensures
        !members_of(left_view(v, addr, room), room).contains(addr),
        forall|r: Seq<char>| r != room ==> members_of(left_view(v, addr, room), r) == members_of(v, r),
{
}

/// A peer that joins a room is in it, and no other room changes.
pub proof fn lemma_joined_member(v: Map<Seq<char>, Set<Seq<char>>>, addr: Seq<char>, room: Seq<char>)
    ensures
        members_of(joined_view(v, addr, room), room) == members_of(v, room).insert(addr),
        forall|r: Seq<char>| r != room ==> members_of(joined_view(v, addr, room), r) == members_of(v, r),
{
}

/// One piece of channel data leaves no room empty that was not empty before.
pub proof fn lemma_step_keeps_rooms_nonempty(v: Map<Seq<char>, Set<Seq<char>>>, data: ServerLocalData)
    requires
        no_empty_room(v),
    ensures
        no_empty_room(membership_after(v, data)),
{
    match data {
        ServerLocalData::Joined(a, r) => {
            let w = joined_view(v, a@, r@);
            assert forall|k: Seq<char>| #[trigger] w.contains_key(k) implies w[k] != Set::<
                Seq<char>,
            >::empty() by {
                if k == r@ {
                    assert(w[k].contains(a@));
                }
            }
        },
        ServerLocalData::Left(a, r) => {},
        _ => {},
    }
}

/// No room is ever empty: from a membership without empty rooms, whatever the app
/// task takes off its channel, every room it keeps has a member.
pub proof fn lemma_no_room_ever_empty(v: Map<Seq<char>, Set<Seq<char>>>, ds: Seq<ServerLocalData>)
    requires
        no_empty_room(v),
    ensures
        no_empty_room(membership_after_all(v, ds)),
    decreases ds.len(),
{
    if ds.len() > 0 {
        lemma_no_room_ever_empty(v, ds.drop_last());
        lemma_step_keeps_rooms_nonempty(membership_after_all(v, ds.drop_last()), ds.last());
    }
}

/// Starting from no members at all, no room is ever empty.
pub proof fn lemma_no_room_empty_from_start(ds: Seq<ServerLocalData>)
    ensures
        no_empty_room(membership_after_all(Map::<Seq<char>, Set<Seq<char>>>::empty(), ds)),
{
    lemma_no_room_ever_empty(Map::<Seq<char>, Set<Seq<char>>>::empty(), ds);
}

/// The stored messages that a joining peer is sent, gathered row by row from the store:
/// the first `limit` rows, in the store's order.
pub struct History {
    limit: usize,
    messages: Vec<UserMessageData>,
}

impl View for History {
    type V = Seq<UserMessageData>;

    closed spec fn view(&self) -> Seq<UserMessageData> {
        self.messages@
    }
}

/// What a history gathered up to `limit` rows keeps of the rows it was offered.
pub open spec fn gathered(limit: nat, rows: Seq<UserMessageData>) -> Seq<UserMessageData>
    decreases rows.len(),
{
    if rows.len() == 0 {
        Seq::empty()
    } else {
        let before = gathered(limit, rows.drop_last());
        if before.len() < limit {
            before.push(rows.last())
        } else {
            before
        }
    }
}

/// A history keeps the first `limit` rows it is offered, in order.
pub proof fn lemma_history_keeps_first_rows(limit: nat, rows: Seq<UserMessageData>)
    ensures
        gathered(limit, rows) == rows.subrange(
            0,
            if rows.len() < limit {
                rows.len() as int
            } else {
                limit as int
            },
        ),
    decreases rows.len(),
{
    if rows.len() > 0 {
        let t = rows.drop_last();
        lemma_history_keeps_first_rows(limit, t);
        if t.len() < limit {
            assert(t.subrange(0, t.len() as int).push(rows.last()) =~= rows.subrange(
                0,
                rows.len() as int,
            ));
        } else {
            assert(t.subrange(0, limit as int) =~= rows.subrange(0, limit as int));
        }
    }
}

impl History {
    /// The most rows the history keeps.
    pub closed spec fn limit(&self) -> nat {
        self.limit as nat
    }

    /// An empty history that keeps up to `limit` rows.
    pub fn new(limit: usize) -> (r: History)
        ensures
            r@ == Seq::<UserMessageData>::empty(),
            r.limit() == limit,
    {
        History { limit, messages: Vec::new() }
    }

    /// Whether another row would still be kept.
    pub fn wants_more(&self) -> (r: bool)
        ensures
            r == (self@.len() < self.limit()),
    {
        self.messages.len() < self.limit
    }

    /// Offers the next row of the store: it is kept while the history is not full.
    pub fn offer(&mut self, m: UserMessageData)
        ensures
            final(self).limit() == old(self).limit(),
            old(self)@.len() < old(self).limit() ==> final(self)@ == old(self)@.push(m),
            old(self)@.len() >= old(self).limit() ==> final(self)@ == old(self)@,
    {
        if self.messages.len() < self.limit {
            self.messages.push(m);
        }
    }

    /// The rows kept, in order.
    pub fn into_messages(self) -> (r: Vec<UserMessageData>)
        ensures
            r@ == self@,
    {
        self.messages
    }
}

}
