//! The counter that numbers inbound requests, so that every log line of one
//! request can be found by its id.
use vstd::prelude::*;

verus! {

/// Hands out request ids in increasing order, starting at 1.
///
/// One counter is owned by the proxy and shared by its connection handlers.
pub struct RequestIds {
    next: u64,
}

/// Whether drawing from a counter in state `before` returned `id` and left it
/// in state `after`.
pub open spec fn issues(before: RequestIds, id: u64, after: RequestIds) -> bool {
    before.spec_next() == id && after.spec_next() == id + 1
}

impl RequestIds {
    /// The id that the next draw returns.
    pub closed spec fn spec_next(self) -> nat {
        self.next as nat
    }

    /// A counter whose first id is 1.
    pub fn new() -> (r: RequestIds)
        ensures
            r.spec_next() == 1,
    {
        RequestIds { next: 1 }
    }

    /// The id that the next draw returns.
    pub fn peek(&self) -> (r: u64)
        ensures
            r == self.spec_next(),
    {
        self.next
    }

    /// Draws the next id; `None` once every id that fits in a `u64` has been
    /// handed out, in which case the counter is left as it was.
    pub fn next_id(&mut self) -> (r: Option<u64>)
        ensures
            match r {
                Some(id) => issues(*old(self), id, *final(self)),
                None => old(self).spec_next() == u64::MAX && *final(self) == *old(self),
            },
    {
        if self.next == u64::MAX {
            None
        } else {
            let id = self.next;
            self.next = self.next + 1;
            Some(id)
        }
    }
}

/// Ids drawn one after another from one counter are strictly increasing, and
/// so no two of them are equal, whatever order their requests complete in.
///
/// `states[i]` is the counter before the `i`-th draw and `states[i + 1]` after
/// it; `ids[i]` is what that draw returned.
pub proof fn lemma_ids_strictly_increase(states: Seq<RequestIds>, ids: Seq<u64>)
    requires
        states.len() == ids.len() + 1,
        forall|i: int| 0 <= i < ids.len() ==> issues(#[trigger] states[i], ids[i], states[i + 1]),
    ensures
        forall|i: int, j: int| 0 <= i < j < ids.len() ==> ids[i] < ids[j],
        forall|i: int| 0 <= i < ids.len() ==> ids[i] < states.last().spec_next(),
    decreases ids.len(),
{
    if ids.len() > 0 {
        let n = ids.len() - 1;
        let s = states.drop_last();
        let d = ids.drop_last();
        assert forall|i: int| 0 <= i < d.len() implies issues(#[trigger] s[i], d[i], s[i + 1]) by {
            assert(s[i] == states[i] && s[i + 1] == states[i + 1] && d[i] == ids[i]);
        }
        lemma_ids_strictly_increase(s, d);
        assert(issues(states[n], ids[n], states[n + 1]));
        assert forall|i: int, j: int| 0 <= i < j < ids.len() implies ids[i] < ids[j] by {
            if j < n {
                assert(d[i] < d[j]);
            } else {
                assert(d[i] < s.last().spec_next());
            }
        }
    }
}

} // verus!
