use vstd::prelude::*;

use crate::data::RoomData;

verus! {

/// The position of the last room in `s` whose identifier is `id`.
pub open spec fn last_match(s: Seq<RoomData>, id: Seq<char>) -> Option<int>
    decreases s.len(),
{
    if s.len() == 0 {
        None
    } else if s.last().id@ == id {
        Some(s.len() - 1)
    } else {
        last_match(s.drop_last(), id)
    }
}

/// The list after the room of identifier `id` is taken off it: the last room that has
/// that identifier goes, nothing changes when there is none.
pub open spec fn without_room(s: Seq<RoomData>, id: Seq<char>) -> Seq<RoomData> {
    match last_match(s, id) {
        Some(i) => s.remove(i),
        None => s,
    }
}

proof fn lemma_last_match_bounds(s: Seq<RoomData>, id: Seq<char>)
    ensures
        match last_match(s, id) {
            Some(i) => 0 <= i < s.len() && s[i].id@ == id && forall|j: int|
                i < j < s.len() ==> s[j].id@ != id,
            None => forall|j: int| 0 <= j < s.len() ==> s[j].id@ != id,
        },
    decreases s.len(),
{
    if s.len() > 0 {
        let t = s.drop_last();
        lemma_last_match_bounds(t, id);
        assert forall|j: int| 0 <= j < t.len() implies t[j] == s[j] by {}
    }
}

/// The rooms shown in a window's room list, in the order they were added.
pub struct RoomList {
    rooms: Vec<RoomData>,
}

impl View for RoomList {
    type V = Seq<RoomData>;

    closed spec fn view(&self) -> Seq<RoomData> {
        self.rooms@
    }
}

impl RoomList {
    /// An empty list.
    pub fn new() -> (r: RoomList)
        ensures
            r@ == Seq::<RoomData>::empty(),
    {
        RoomList { rooms: Vec::new() }
    }

    /// A list that shows these rooms, as loaded from the store.
    pub fn from_rooms(rooms: Vec<RoomData>) -> (r: RoomList)
        ensures
            r@ == rooms@,
    {
        RoomList { rooms }
    }

    /// The rooms, in order.
    pub fn rooms(&self) -> (r: &Vec<RoomData>)
        ensures
            r@ == self@,
    {
        &self.rooms
    }

    /// Shows one more room at the end of the list.
    pub fn add_room_ui(&mut self, data: RoomData)
        ensures
            final(self)@ == old(self)@.push(data),
    {
        self.rooms.push(data);
    }

    /// Shows these rooms at the end of the list, in order.
    pub fn add_rooms_ui(&mut self, data: Vec<RoomData>)
        ensures
            final(self)@ == old(self)@ + data@,
    {
        let ghost start = self.rooms@;
        let mut i: usize = 0;
        while i < data.len()
            invariant
                i <= data@.len(),
                self.rooms@ == start + data@.subrange(0, i as int),
            decreases data.len() - i,
        {
            self.rooms.push(data[i].clone());
            i = i + 1;
            assert(self.rooms@ =~= start + data@.subrange(0, i as int));
        }
        assert(data@.subrange(0, data@.len() as int) =~= data@);
    }

    /// The position of the last room of identifier `id`, if there is one.
    pub fn index_to_remove(&self, id: &str) -> (r: Option<usize>)
        ensures
            match (r, last_match(self@, id@)) {
                (Some(i), Some(j)) => i == j,
                (None, None) => true,
                _ => false,
            },
    {
        let target = id.to_owned();
        let mut idx: Option<usize> = None;
        let mut count: usize = 0;
        while count < self.rooms.len()
            invariant
                count <= self.rooms@.len(),
                target@ == id@,
                match (idx, last_match(self.rooms@.subrange(0, count as int), id@)) {
                    (Some(i), Some(j)) => i == j,
                    (None, None) => true,
                    _ => false,
                },
            decreases self.rooms.len() - count,
        {
            let ghost before = self.rooms@.subrange(0, count as int);
            if self.rooms[count].id == target {
                idx = Some(count);
            }
            count = count + 1;
            assert(self.rooms@.subrange(0, count as int).drop_last() =~= before);
        }
        assert(self.rooms@.subrange(0, self.rooms@.len() as int) =~= self.rooms@);
        idx
    }

    /// Takes the room of identifier `id` off the list.
    pub fn remove_room_ui(&mut self, id: &str)
        ensures
            final(self)@ == without_room(old(self)@, id@),
            (exists|i: int| 0 <= i < old(self)@.len() && old(self)@[i].id@ == id@) ==> exists|i: int|
                0 <= i < old(self)@.len() && old(self)@[i].id@ == id@ && (forall|j: int|
                    i < j < old(self)@.len() ==> old(self)@[j].id@ != id@) && final(self)@ == old(self)@.remove(i),
            (forall|i: int| 0 <= i < old(self)@.len() ==> old(self)@[i].id@ != id@) ==> final(self)@ == old(self)@,
    {
        proof {
            lemma_last_match_bounds(self.rooms@, id@);
        }
        match self.index_to_remove(id) {
            Some(i) => {
                self.rooms.remove(i);
            },
            None => {},
        }
    }
}

/// Taking a room off the list loses no room of another identifier, brings in no room
/// that was not shown, and takes exactly one room off when one has that identifier.
pub proof fn lemma_remove_keeps_other_rooms(s: Seq<RoomData>, id: Seq<char>)
    ensures
        forall|j: int|
            0 <= j < s.len() && s[j].id@ != id ==> without_room(s, id).contains(#[trigger] s[j]),
        forall|k: int|
            0 <= k < without_room(s, id).len() ==> s.contains(#[trigger] without_room(s, id)[k]),
        (exists|i: int| 0 <= i < s.len() && s[i].id@ == id) ==> without_room(s, id).len() == s.len()
            - 1,
        (forall|i: int| 0 <= i < s.len() ==> s[i].id@ != id) ==> without_room(s, id) == s,
{
    lemma_last_match_bounds(s, id);
    let t = without_room(s, id);
    match last_match(s, id) {
        Some(i) => {
            assert forall|j: int| 0 <= j < s.len() && s[j].id@ != id implies t.contains(
                #[trigger] s[j],
            ) by {
                assert(j != i);
                if j < i {
                    assert(t[j] == s[j]);
                } else {
                    assert(t[j - 1] == s[j]);
                }
            }
            assert forall|k: int| 0 <= k < t.len() implies s.contains(#[trigger] t[k]) by {
                if k < i {
                    assert(t[k] == s[k]);
                } else {
                    assert(t[k] == s[k + 1]);
                }
            }
        },
        None => {},
    }
}

/// Taking a room off the list undoes adding it, when no room of that identifier was
/// shown before.
pub proof fn lemma_remove_undoes_add(s: Seq<RoomData>, data: RoomData)
    requires
        forall|j: int| 0 <= j < s.len() ==> s[j].id@ != data.id@,
    ensures
        without_room(s.push(data), data.id@) == s,
{
    assert(s.push(data).last() == data);
    assert(s.push(data).remove(s.len() as int) =~= s);
}

/// Taking a room off the list leaves no more rooms of that identifier than before,
/// and one fewer when there was one.
pub proof fn lemma_remove_shrinks(s: Seq<RoomData>, id: Seq<char>)
    ensures
        last_match(s, id) is Some ==> without_room(s, id).len() == s.len() - 1,
        last_match(s, id) is None ==> without_room(s, id) == s,
{
    lemma_last_match_bounds(s, id);
}

}
