use vstd::prelude::*;

verus! {

/// Number of rooms (wagons and locomotive) in the train.
pub const ROOMS_COUNT: usize = 7;

/// The train: the entity of each of its rooms, front to back.
#[derive(Clone, Copy, Debug)]
pub struct Train {
    pub rooms: [u64; ROOMS_COUNT],
}

/// `i` is the first position at which `room_id` stands in `rooms`.
pub open spec fn is_first_index(rooms: Seq<u64>, room_id: u64, i: int) -> bool {
    &&& 0 <= i < rooms.len()
    &&& rooms[i] == room_id
    &&& forall|j: int| 0 <= j < i ==> rooms[j] != room_id
}

/// The first position of `room_id` in `rooms` (meaningful when it occurs).
pub open spec fn first_index_of(rooms: Seq<u64>, room_id: u64) -> int {
    choose|i: int| is_first_index(rooms, room_id, i)
}

/// There is only one first position.
pub proof fn lemma_first_index_unique(rooms: Seq<u64>, room_id: u64, i: int, k: int)
    requires
        is_first_index(rooms, room_id, i),
        is_first_index(rooms, room_id, k),
    ensures
        i == k,
{
}

/// A room that stands in the train has a first position, and `first_index_of`
/// names it.
pub proof fn lemma_first_index_exists(rooms: Seq<u64>, room_id: u64)
    requires
        rooms.contains(room_id),
    ensures
        is_first_index(rooms, room_id, first_index_of(rooms, room_id)),
    decreases rooms.len(),
{
    let w = choose|w: int| 0 <= w < rooms.len() && rooms[w] == room_id;
    if exists|j: int| 0 <= j < w && rooms[j] == room_id {
        let j = choose|j: int| 0 <= j < w && rooms[j] == room_id;
        let prefix = rooms.subrange(0, w);
        assert(prefix[j] == room_id);
        lemma_first_index_exists(prefix, room_id);
        let i = first_index_of(prefix, room_id);
        assert forall|k: int| 0 <= k < i implies rooms[k] != room_id by {
            assert(prefix[k] == rooms[k]);
        }
        assert(is_first_index(rooms, room_id, i));
    } else {
        assert(is_first_index(rooms, room_id, w));
    }
}

impl Train {
    /// Position in the train of the room `room_id`: the first one, or `None`
    /// when the room is not part of the train.
    pub fn room_index(&self, room_id: u64) -> (idx: Option<usize>)
        ensures
            match idx {
                Some(i) => is_first_index(self.rooms@, room_id, i as int)
                    && i == first_index_of(self.rooms@, room_id),
                None => !self.rooms@.contains(room_id),
            },
    {
        let mut i: usize = 0;
        while i < ROOMS_COUNT
            invariant
                i <= ROOMS_COUNT,
                self.rooms@.len() == ROOMS_COUNT,
                forall|j: int| 0 <= j < i ==> self.rooms@[j] != room_id,
            decreases ROOMS_COUNT - i,
        {
            if self.rooms[i] == room_id {
                proof {
                    assert(self.rooms@.contains(room_id));
                    lemma_first_index_exists(self.rooms@, room_id);
                    lemma_first_index_unique(
                        self.rooms@,
                        room_id,
                        i as int,
                        first_index_of(self.rooms@, room_id),
                    );
                }
                return Some(i);
            }
            i = i + 1;
        }
        None
    }
}

} // verus!
