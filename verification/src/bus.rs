use vstd::prelude::*;
use crate::text::str_eq;

verus! {

/// The subscriber bookkeeping shared by both event buses: an ordered
/// list of live subscription handles. Handles are allocated from a
/// counter, so they are unique, and the list keeps registration order —
/// delivery iterates it in that order. The subscribers themselves
/// (tasks, closures) live with the caller, keyed by handle.
pub struct SubscriberSet {
    pub handles: Vec<u64>,
    pub next_handle: u64,
}

pub open spec fn strictly_increasing(s: Seq<u64>) -> bool {
    forall|i: int, j: int| 0 <= i < j < s.len() ==> s[i] < s[j]
}

/// `s` with every occurrence of `h` removed, order kept.
pub open spec fn without_handle(s: Seq<u64>, h: u64) -> Seq<u64>
    decreases s.len(),
{
    if s.len() == 0 {
        Seq::empty()
    } else if s.last() == h {
        without_handle(s.drop_last(), h)
    } else {
        without_handle(s.drop_last(), h).push(s.last())
    }
}

proof fn lemma_contains_push(s: Seq<u64>, v: u64, x: u64)
    ensures
        s.push(v).contains(x) <==> (s.contains(x) || x == v),
{
    if s.contains(x) {
        let i = choose|i: int| 0 <= i < s.len() && s[i] == x;
        assert(s.push(v)[i] == x);
    }
    if x == v {
        assert(s.push(v)[s.len() as int] == x);
    }
    if s.push(v).contains(x) && x != v {
        let i = choose|i: int| 0 <= i < s.push(v).len() && s.push(v)[i] == x;
        assert(s[i] == x);
    }
}

proof fn lemma_without_handle_props(s: Seq<u64>, h: u64)
    requires
        strictly_increasing(s),
    ensures
        strictly_increasing(without_handle(s, h)),
        !without_handle(s, h).contains(h),
        forall|i: int|
            0 <= i < without_handle(s, h).len() ==> s.contains(#[trigger] without_handle(s, h)[i]),
        forall|x: u64| x != h ==> (without_handle(s, h).contains(x) <==> s.contains(x)),
    decreases s.len(),
{
    if s.len() > 0 {
        let dl = s.drop_last();
        let last = s.last();
        assert(strictly_increasing(dl));
        lemma_without_handle_props(dl, h);
        let w0 = without_handle(dl, h);
        assert(s =~= dl.push(last));
        assert forall|x: u64| #[trigger] s.contains(x) <==> dl.contains(x) || x == last by {
            lemma_contains_push(dl, last, x);
        }
        assert(s.contains(last));
        if last == h {
            // the last action removed: the scan result is that of the prefix
            assert(without_handle(s, h) == w0);
            assert forall|i: int| 0 <= i < w0.len() implies s.contains(#[trigger] w0[i]) by {
                assert(dl.contains(w0[i]));
            }
        } else {
            let w = without_handle(s, h);
            assert(w == w0.push(last));
            assert forall|x: u64| #[trigger] w.contains(x) <==> w0.contains(x) || x == last by {
                lemma_contains_push(w0, last, x);
            }
            // every surviving element of the prefix sits below the last one
            assert(forall|x: u64| dl.contains(x) ==> x < last) by {
                assert(forall|j: int| 0 <= j < dl.len() ==> dl[j] == s[j] && s[j] < last);
            }
            assert forall|i: int| 0 <= i < w0.len() implies w0[i] < last by {
                assert(dl.contains(w0[i]));
            }
            assert(strictly_increasing(w)) by {
                assert(forall|i: int| 0 <= i < w0.len() ==> w[i] == w0[i]);
                assert(w[w.len() - 1] == last);
            }
            assert forall|i: int| 0 <= i < w.len() implies s.contains(#[trigger] w[i]) by {
                if i < w0.len() {
                    assert(w[i] == w0[i]);
                    assert(dl.contains(w0[i]));
                } else {
                    assert(w[i] == last);
                }
            }
        }
    }
}

impl SubscriberSet {
    /// Handles are unique and listed in registration order; every
    /// handle sits below the allocation counter.
    pub open spec fn well_formed(&self) -> bool {
        &&& strictly_increasing(self.handles@)
        &&& forall|i: int| 0 <= i < self.handles@.len() ==> self.handles@[i] < self.next_handle
    }

    pub fn new() -> (r: Self)
        ensures
            r.well_formed(),
            r.handles@ == Seq::<u64>::empty(),
            r.next_handle == 0,
    {
        Self { handles: Vec::new(), next_handle: 0 }
    }

    /// Registers one subscriber and returns its fresh handle, appended
    /// after every existing registration.
    pub fn subscribe(&mut self) -> (h: u64)
        requires
            old(self).well_formed(),
            old(self).next_handle < u64::MAX,
        ensures
            final(self).well_formed(),
            h == old(self).next_handle,
            !old(self).handles@.contains(h),
            final(self).handles@ == old(self).handles@.push(h),
            final(self).next_handle == old(self).next_handle + 1,
    {
        let h = self.next_handle;
        self.handles.push(h);
        self.next_handle = self.next_handle + 1;
        proof {
            assert(!old(self).handles@.contains(h)) by {
                assert(forall|i: int|
                    0 <= i < old(self).handles@.len() ==> old(self).handles@[i] != h);
            }
        }
        h
    }

    /// Removes the subscription with handle `h`, if live; every other
    /// registration stays, in order.
    pub fn unsubscribe(&mut self, h: u64)
        requires
            old(self).well_formed(),
        ensures
            final(self).well_formed(),
            final(self).handles@ == without_handle(old(self).handles@, h),
            !final(self).handles@.contains(h),
            forall|x: u64|
                x != h ==> (final(self).handles@.contains(x) <==> old(self).handles@.contains(x)),
            final(self).next_handle == old(self).next_handle,
    {
        let mut out: Vec<u64> = Vec::new();
        let n = self.handles.len();
        let mut i: usize = 0;
        proof {
            assert(self.handles@.take(0) =~= Seq::<u64>::empty());
        }
        while i < n
            invariant
                i <= n,
                n == self.handles@.len(),
                self.handles@ == old(self).handles@,
                out@ == without_handle(self.handles@.take(i as int), h),
            decreases n - i,
        {
            let x = self.handles[i];
            if x != h {
                out.push(x);
            }
            proof {
                assert(self.handles@.take(i as int + 1).drop_last() =~= self.handles@.take(i as int));
                assert(self.handles@.take(i as int + 1).last() == self.handles@[i as int]);
            }
            i += 1;
        }
        proof {
            assert(self.handles@.take(n as int) =~= self.handles@);
            lemma_without_handle_props(old(self).handles@, h);
        }
        self.handles = out;
        proof {
            assert(forall|i2: int| 0 <= i2 < self.handles@.len() ==> self.handles@[i2]
                < self.next_handle) by {
                assert(forall|x: u64|
                    old(self).handles@.contains(x) ==> x < self.next_handle);
            }
        }
    }

    /// The live handles, in registration order; delivery iterates
    /// these in order, handing each subscriber off independently.
    pub fn handles(&self) -> (r: &Vec<u64>)
        ensures
            r@ == self.handles@,
    {
        &self.handles
    }

    pub fn len(&self) -> (r: usize)
        ensures
            r == self.handles@.len(),
    {
        self.handles.len()
    }
}

/// How a gameflow-session phase drives the in-game bus's "active"
/// flag: the flag that gates each tick of the in-game poller.
pub open spec fn spec_active_after(phase: Seq<char>, current: bool) -> bool {
    if phase == "Loading"@ || phase == "GameStart"@ || phase == "InProgress"@ {
        true
    } else if phase == "PreEndOfGame"@ || phase == "EndOfGame"@ || phase == "WaitingForStats"@ {
        false
    } else {
        current
    }
}

/// The new value of the in-game bus's "active" flag after a
/// gameflow-session event reports `phase`. Only the six listed phases
/// change the flag; every other value leaves it as it was.
pub fn active_after_phase(phase: &str, current: bool) -> (r: bool)
    ensures
        r == spec_active_after(phase@, current),
{
    if str_eq(phase, "Loading") || str_eq(phase, "GameStart") || str_eq(phase, "InProgress") {
        true
    } else if str_eq(phase, "PreEndOfGame") || str_eq(phase, "EndOfGame") || str_eq(
        phase,
        "WaitingForStats",
    ) {
        false
    } else {
        current
    }
}

} // verus!
