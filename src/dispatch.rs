//! The single collection point of a batch: every launched request delivers
//! at most one outcome, and the batch always ends with exactly one outcome
//! per sequence id, whatever arrived.
use vstd::prelude::*;
use crate::outcome::{RequestResult, is_failure};

verus! {

/// Fewest requests in one batch.
pub const MIN_REQUESTS: u32 = 1;

/// Most requests in one batch.
pub const MAX_REQUESTS: u32 = 200;

/// The cause recorded for a request whose task ended without delivering an
/// outcome (for instance because it faulted).
pub open spec fn lost_cause() -> Seq<char> {
    "Request task ended without delivering a result"@
}

/// The first outcome in `arrivals` that carries sequence id `id`, if any.
pub open spec fn first_with_id(arrivals: Seq<RequestResult>, id: int) -> Option<RequestResult>
    decreases arrivals.len(),
{
    if arrivals.len() == 0 {
        None
    } else {
        let earlier = first_with_id(arrivals.drop_last(), id);
        if earlier is Some {
            earlier
        } else if arrivals.last().id() == id {
            Some(arrivals.last())
        } else {
            None
        }
    }
}

/// What a batch of `count` requests reports once it has collected
/// `arrivals`: exactly `count` outcomes, the one at index `i` for sequence id
/// `i`; the first outcome that arrived for an id is kept, and an id for which
/// none arrived is reported as a lost request.
pub open spec fn batch_report(count: nat, arrivals: Seq<RequestResult>, r: Seq<RequestResult>) -> bool {
    &&& r.len() == count
    &&& forall|i: int| 0 <= i < count ==> (#[trigger] r[i]).id() == i
    &&& forall|i: int|
        0 <= i < count ==> match first_with_id(arrivals, i) {
            Some(x) => r[i] == x,
            None => is_failure(#[trigger] r[i], i as u32, lost_cause()),
        }
}

/// The collection point of one batch of requests.
pub struct Batch {
    slots: Vec<Option<RequestResult>>,
}

impl Batch {
    /// The outcome collected so far for each sequence id.
    pub closed spec fn view(&self) -> Seq<Option<RequestResult>> {
        self.slots@
    }

    pub closed spec fn wf(&self) -> bool {
        &&& self.slots@.len() <= MAX_REQUESTS
        &&& forall|i: int| 0 <= i < self.slots@.len() && (#[trigger] self.slots@[i]) is Some
            ==> self.slots@[i]->0.id() == i
    }

    /// An empty batch awaiting `count` outcomes.
    pub fn new(count: u32) -> (b: Batch)
        requires
            MIN_REQUESTS <= count <= MAX_REQUESTS,
        ensures
            b.wf(),
            b@.len() == count,
            forall|i: int| 0 <= i < count ==> (#[trigger] b@[i]) is None,
    {
        let mut slots: Vec<Option<RequestResult>> = Vec::new();
        let mut i: u32 = 0;
        while i < count
            invariant
                i <= count,
                slots@.len() == i,
                forall|j: int| 0 <= j < i ==> (#[trigger] slots@[j]) is None,
            decreases count - i,
        {
            slots.push(None);
            i = i + 1;
        }
        Batch { slots }
    }

    /// Number of outcomes the batch awaits in all.
    pub fn count(&self) -> (r: usize)
        ensures
            r == self@.len(),
    {
        self.slots.len()
    }

    /// Takes one delivered outcome. It is kept when its sequence id belongs to
    /// the batch and no outcome for that id was kept before; otherwise it is
    /// ignored. Returns whether it was kept.
    pub fn deliver(&mut self, r: RequestResult) -> (kept: bool)
        requires
            old(self).wf(),
        ensures
            final(self).wf(),
            kept == ((r.id() as int) < old(self)@.len() && old(self)@[r.id() as int] is None),
            kept ==> final(self)@ == old(self)@.update(r.id() as int, Some(r)),
            !kept ==> final(self)@ == old(self)@,
    {
        let id = r.sequence_id() as usize;
        if id < self.slots.len() && self.slots[id].is_none() {
            self.slots.set(id, Some(r));
            true
        } else {
            false
        }
    }

    /// Whether an outcome was kept for every sequence id.
    pub fn is_complete(&self) -> (r: bool)
        ensures
            r == forall|i: int| 0 <= i < self@.len() ==> (#[trigger] self@[i]) is Some,
    {
        let mut i: usize = 0;
        while i < self.slots.len()
            invariant
                i <= self.slots@.len(),
                forall|j: int| 0 <= j < i ==> (#[trigger] self.slots@[j]) is Some,
            decreases self.slots@.len() - i,
        {
            if self.slots[i].is_none() {
                return false;
            }
            i = i + 1;
        }
        true
    }

    /// Ends the batch: one outcome per sequence id, in sequence-id order.
    /// Every kept outcome is reported as it arrived; an id that received none
    /// is reported as a lost request, so a task that faulted never costs the
    /// batch its other outcomes.
    pub fn finish(self) -> (r: Vec<RequestResult>)
        requires
            self.wf(),
        ensures
            r@.len() == self@.len(),
            forall|i: int| 0 <= i < r@.len() ==> (#[trigger] r@[i]).id() == i,
            forall|i: int|
                0 <= i < r@.len() ==> match self@[i] {
                    Some(x) => r@[i] == x,
                    None => is_failure(#[trigger] r@[i], i as u32, lost_cause()),
                },
    {
        let Batch { slots } = self;
        let ghost start = slots@;
        let mut slots = slots;
        let mut r: Vec<RequestResult> = Vec::new();
        let n = slots.len();
        let mut i: usize = 0;
        while i < n
            invariant
                n == start.len(),
                n <= u32::MAX,
                i <= n,
                slots@ == start.subrange(i as int, n as int),
                r@.len() == i,
                forall|j: int| 0 <= j < n && (#[trigger] start[j]) is Some ==> start[j]->0.id() == j,
                forall|j: int| 0 <= j < i ==> (#[trigger] r@[j]).id() == j,
                forall|j: int|
                    0 <= j < i ==> match start[j] {
                        Some(x) => r@[j] == x,
                        None => is_failure(#[trigger] r@[j], j as u32, lost_cause()),
                    },
            decreases n - i,
        {
            let slot = slots.remove(0);
            assert(slot == start[i as int]);
            match slot {
                Some(x) => r.push(x),
                None => {
                    let cause = String::from_str("Request task ended without delivering a result");
                    proof { reveal_strlit("Request task ended without delivering a result"); }
                    r.push(RequestResult::Failure { sequence_id: i as u32, cause });
                },
            }
            i = i + 1;
        }
        r
    }
}

/// Collects a batch of `count` requests whose outcomes arrived in the order
/// of `arrivals`. Whatever arrived (in any order, with ids missing, repeated
/// or out of range), the report holds exactly `count` outcomes, one per
/// sequence id.
pub fn collect(count: u32, arrivals: Vec<RequestResult>) -> (r: Vec<RequestResult>)
    requires
        MIN_REQUESTS <= count <= MAX_REQUESTS,
    ensures
        batch_report(count as nat, arrivals@, r@),
{
    let ghost all = arrivals@;
    let mut rest = arrivals;
    let mut batch = Batch::new(count);
    let total = rest.len();
    let mut k: usize = 0;
    while k < total
        invariant
            total == all.len(),
            k <= total,
            rest@ == all.subrange(k as int, total as int),
            batch.wf(),
            batch@.len() == count,
            forall|i: int| 0 <= i < count ==> (#[trigger] batch@[i]) == first_with_id(all.take(k as int), i),
        decreases total - k,
    {
        let x = rest.remove(0);
        assert(x == all[k as int]);
        proof {
            assert(all.take(k + 1).drop_last() =~= all.take(k as int));
            assert(all.take(k + 1).last() == x);
        }
        batch.deliver(x);
        k = k + 1;
    }
    assert(all.take(total as int) =~= all);
    batch.finish()
}

} // verus!
