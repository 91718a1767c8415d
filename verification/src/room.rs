use vstd::prelude::*;

verus! {

/// The character slots of one room: the entity standing in each slot, if any.
#[derive(Debug)]
pub struct RoomCharacterStorage(pub Vec<Option<u64>>);

/// Number of occupied slots.
pub open spec fn count_present(slots: Seq<Option<u64>>) -> nat
    decreases slots.len(),
{
    if slots.len() == 0 {
        0
    } else {
        count_present(slots.drop_last()) + if slots.last() is Some { 1nat } else { 0nat }
    }
}

/// A room never holds more characters than it has slots.
pub proof fn lemma_count_present_bounded(slots: Seq<Option<u64>>)
    ensures
        count_present(slots) <= slots.len(),
    decreases slots.len(),
{
    if slots.len() > 0 {
        lemma_count_present_bounded(slots.drop_last());
    }
}

/// Counting characters adds up over the parts of a room: a slot holding a
/// character counts one, an empty slot none.
pub proof fn lemma_count_present_adds(a: Seq<Option<u64>>, b: Seq<Option<u64>>)
    ensures
        count_present(a + b) == count_present(a) + count_present(b),
        count_present(seq![Option::<u64>::None]) == 0,
        forall|c: u64| count_present(seq![Some(c)]) == 1,
    decreases b.len(),
{
    assert(count_present(Seq::<Option<u64>>::empty()) == 0);
    assert(seq![Option::<u64>::None].drop_last() =~= Seq::<Option<u64>>::empty());
    assert(count_present(seq![Option::<u64>::None]) == 0);
    assert forall|c: u64| count_present(seq![Some(c)]) == 1 by {
        assert(seq![Some(c)].drop_last() =~= Seq::<Option<u64>>::empty());
        assert(seq![Some(c)].last() == Some(c));
    }
    if b.len() == 0 {
        assert(a + b =~= a);
    } else {
        lemma_count_present_adds(a, b.drop_last());
        assert((a + b).drop_last() =~= a + b.drop_last());
        assert((a + b).last() == b.last());
    }
}

impl RoomCharacterStorage {
    /// Number of characters present in the room.
    pub fn count_characters(&self) -> (n: usize)
        ensures
            n == count_present(self.0@),
    {
        let mut n: usize = 0;
        let mut i: usize = 0;
        while i < self.0.len()
            invariant
                i <= self.0@.len(),
                n == count_present(self.0@.subrange(0, i as int)),
            decreases self.0@.len() - i,
        {
            proof {
                assert(self.0@.subrange(0, i as int + 1).drop_last() =~= self.0@.subrange(0, i as int));
                lemma_count_present_bounded(self.0@.subrange(0, i as int));
            }
            if self.0[i].is_some() {
                n = n + 1;
            }
            i = i + 1;
        }
        assert(self.0@.subrange(0, i as int) =~= self.0@);
        n
    }
}

} // verus!
