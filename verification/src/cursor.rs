use vstd::prelude::*;

verus! {

/// The low-water mark used to avoid re-delivering already-seen
/// in-game events. Owned exclusively by the poller and updated once
/// per poll cycle.
pub struct EventCursor {
    pub next_id: u32,
}

/// The largest id in a batch of polled events (-1 for an empty batch).
pub open spec fn seq_max(ids: Seq<u64>) -> int
    decreases ids.len(),
{
    if ids.len() == 0 {
        -1
    } else if ids.last() as int >= seq_max(ids.drop_last()) {
        ids.last() as int
    } else {
        seq_max(ids.drop_last())
    }
}

/// Where the cursor stands after observing a non-empty batch: one past
/// the largest id seen, capped at the type's maximum. A batch whose
/// maximum sits below the cursor (the authoritative id sequence
/// restarted) resets the cursor first, but the unconditional advance
/// past the maximum lands it in the same place.
pub open spec fn cursor_after(ids: Seq<u64>) -> u32 {
    if seq_max(ids) + 1 <= u32::MAX as int {
        (seq_max(ids) + 1) as u32
    } else {
        u32::MAX
    }
}

impl EventCursor {
    pub fn new() -> (r: Self)
        ensures
            r.next_id == 0,
    {
        Self { next_id: 0 }
    }

    /// Observes the event ids returned by one poll. An empty batch
    /// (including a failed poll, which the caller reports as empty)
    /// leaves the cursor unchanged; otherwise the cursor detects a
    /// regression of the id sequence, resets, and advances to one past
    /// the largest id seen — all within the same poll.
    pub fn advance(&mut self, ids: &Vec<u64>)
        ensures
            ids@.len() == 0 ==> final(self).next_id == old(self).next_id,
            ids@.len() > 0 ==> final(self).next_id == cursor_after(ids@),
    {
        if ids.len() == 0 {
            return;
        }
        let mut m: u64 = ids[0];
        let mut i: usize = 1;
        proof {
            assert(ids@.take(1).drop_last() =~= Seq::<u64>::empty());
            assert(ids@.take(1).last() == ids@[0]);
            assert(seq_max(Seq::<u64>::empty()) == -1);
            assert(seq_max(ids@.take(1)) == ids@[0] as int);
        }
        while i < ids.len()
            invariant
                1 <= i <= ids@.len(),
                m as int == seq_max(ids@.take(i as int)),
            decreases ids@.len() - i,
        {
            if ids[i] > m {
                m = ids[i];
            }
            proof {
                assert(ids@.take(i as int + 1).drop_last() =~= ids@.take(i as int));
                assert(ids@.take(i as int + 1).last() == ids@[i as int]);
            }
            i += 1;
        }
        proof {
            assert(ids@.take(ids@.len() as int) =~= ids@);
        }
        // A maximum below the cursor means the id sequence restarted:
        // reset, as specified, even though the unconditional advance
        // below overwrites the reset's value.
        if m < self.next_id as u64 {
            self.next_id = 0;
        }
        if m < u32::MAX as u64 {
            self.next_id = (m + 1) as u32;
        } else {
            self.next_id = u32::MAX;
        }
    }
}

/// Cursor monotonicity: over any poll with events the cursor never
/// moves backward, except immediately after a detected regression of
/// the id sequence, after which it resets and advances to one past the
/// new maximum within the same poll.
pub proof fn lemma_cursor_monotonic(next: u32, ids: Seq<u64>)
    requires
        ids.len() > 0,
    ensures
        seq_max(ids) >= next ==> cursor_after(ids) >= next,
        seq_max(ids) < next ==> cursor_after(ids) == seq_max(ids) + 1,
{
}

} // verus!
