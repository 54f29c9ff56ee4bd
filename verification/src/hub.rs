//! Bounded fan-out of snapshots to any number of subscribers.
//!
//! The hub retains a window of the most recently published snapshots,
//! `HUB_CAPACITY` deep.  Each subscription is a cursor into the
//! publication history: it starts at the publication count of the
//! moment it was taken, so a subscriber observes exactly the snapshots
//! published after it subscribed, in publication order.  A subscriber
//! whose cursor falls behind the retained window is told so once
//! (`Lagged`) rather than stalling the publisher; publishing never
//! blocks and never fails.

use vstd::prelude::*;
use crate::HUB_CAPACITY;
use crate::record::MempoolTransaction;

verus! {

/// One complete published batch of snapshot records.
pub type Snapshot = Vec<MempoolTransaction>;

/// What one poll of a subscription yields.
#[derive(Debug)]
pub enum RecvOutcome {
    /// The next snapshot in publication order.
    Message(Snapshot),
    /// The subscriber fell behind the retained window; its cursor has
    /// been moved to the oldest retained snapshot.
    Lagged,
    /// Nothing published beyond the cursor yet.
    Pending,
}

/// Publishes snapshots to any number of cursor-based subscriptions.
pub struct Hub {
    log: Vec<Snapshot>,
    base: u64,
    hist: Ghost<Seq<Snapshot>>,
}

/// A private receiving handle: a cursor into one hub's history.
pub struct Subscription {
    next: u64,
}

impl Subscription {
    /// Index into the publication history of the next snapshot this
    /// subscription will observe.
    pub closed spec fn cursor(&self) -> int {
        self.next as int
    }
}

impl Hub {
    /// Every snapshot ever published through this hub, oldest first.
    pub closed spec fn history(&self) -> Seq<Snapshot> {
        self.hist@
    }

    /// How many snapshots have been published.
    pub open spec fn count(&self) -> int {
        self.history().len() as int
    }

    /// How many of the oldest snapshots are no longer retained.
    pub closed spec fn dropped(&self) -> int {
        self.base as int
    }

    /// The retained window is the tail of the history, at most
    /// `HUB_CAPACITY` deep.
    pub closed spec fn wf(&self) -> bool {
        &&& self.log@.len() <= HUB_CAPACITY
        &&& self.base + self.log@.len() == self.hist@.len()
        &&& self.hist@.len() <= u64::MAX
        &&& forall|i: int|
            0 <= i < self.log@.len() ==> self.log@[i] == self.hist@[self.base + i]
    }

    /// The window sits inside the history and is never deeper than
    /// `HUB_CAPACITY`.
    pub proof fn lemma_wf_bounds(&self)
        requires
            self.wf(),
        ensures
            0 <= self.dropped() <= self.count(),
            self.count() - self.dropped() <= HUB_CAPACITY,
            self.count() <= u64::MAX,
    {
    }

    /// A hub starts with nothing published.
    pub fn new() -> (h: Hub)
        ensures
            h.wf(),
            h.history() == Seq::<Snapshot>::empty(),
    {
        Hub { log: Vec::new(), base: 0, hist: Ghost(Seq::empty()) }
    }

    /// The publication count, for callers.
    pub fn published(&self) -> (n: u64)
        requires
            self.wf(),
        ensures
            n as int == self.count(),
    {
        self.base + self.log.len() as u64
    }

    /// Publishes one snapshot: it is appended to the history, and the
    /// oldest retained snapshot is let go once the window is full.
    /// Publishing never fails, whether or not anyone subscribed.
    pub fn publish(&mut self, s: Snapshot)
        requires
            old(self).wf(),
            old(self).count() < u64::MAX,
        ensures
            final(self).wf(),
            final(self).history() == old(self).history().push(s),
            final(self).dropped() >= old(self).dropped(),
    {
        if self.log.len() >= HUB_CAPACITY {
            self.log.remove(0);
            self.base = self.base + 1;
        }
        let ghost snap = s;
        self.log.push(s);
        proof {
            self.hist@ = self.hist@.push(snap);
        }
    }

    /// Takes a new subscription: its cursor starts at the current
    /// publication count, so none of the snapshots already published
    /// can ever reach it.
    pub fn subscribe(&self) -> (sub: Subscription)
        requires
            self.wf(),
        ensures
            sub.cursor() == self.count(),
    {
        Subscription { next: self.base + self.log.len() as u64 }
    }

    /// Advances a subscription by one observation.  In publication
    /// order: the snapshot at the cursor when it is still retained; a
    /// single `Lagged` notice when the window has moved past the
    /// cursor; `Pending` when the subscriber has seen everything.  The
    /// cursor never moves backwards, so nothing is observed twice.
    pub fn poll_next(&self, sub: &mut Subscription) -> (r: RecvOutcome)
        requires
            self.wf(),
            old(sub).cursor() <= self.count(),
        ensures
            old(sub).cursor() <= final(sub).cursor() <= self.count(),
            old(sub).cursor() == self.count() ==> r is Pending && final(sub).cursor() == old(
                sub,
            ).cursor(),
            old(sub).cursor() < self.dropped() ==> r is Lagged && final(sub).cursor()
                == self.dropped(),
            self.dropped() <= old(sub).cursor() < self.count() ==> (match r {
                RecvOutcome::Message(m) => m@ == self.history()[old(sub).cursor()]@
                    && final(sub).cursor() == old(sub).cursor() + 1,
                _ => false,
            }),
            (match r {
                RecvOutcome::Message(m) => spec_delivery(*self, old(sub).cursor()) == Some(m@),
                _ => true,
            }),
    {
        let here = self.base + self.log.len() as u64;
        if sub.next >= here {
            RecvOutcome::Pending
        } else if sub.next < self.base {
            sub.next = self.base;
            RecvOutcome::Lagged
        } else {
            let idx = sub.next - self.base;
            let m = copy_snapshot(&self.log[idx as usize]);
            sub.next = sub.next + 1;
            RecvOutcome::Message(m)
        }
    }
}

/// Copies a snapshot record by record.
fn copy_snapshot(v: &Snapshot) -> (r: Snapshot)
    ensures
        r@ == v@,
{
    let r = v.clone();
    proof {
        assert forall|i: int| 0 <= i < v@.len() implies v@[i] == r@[i] by {
            assert(cloned::<MempoolTransaction>(v@[i], r@[i]));
        }
        assert(v@ =~= r@);
    }
    r
}

/// What a poll at cursor `c` can deliver: the records of the snapshot
/// at publication index `c` when it is still retained and already
/// published, and nothing otherwise.
pub open spec fn spec_delivery(h: Hub, c: int) -> Option<Seq<MempoolTransaction>> {
    if h.dropped() <= c < h.count() {
        Some(h.history()[c]@)
    } else {
        None
    }
}

/// Law: a subscription taken when `n0` snapshots had been published
/// never observes any of those first `n0`.  Its cursor starts at `n0`
/// and never decreases, and anything delivered is the history entry at
/// the cursor itself — so every delivered snapshot has publication
/// index at least `n0`, and the first one it can observe is exactly
/// the one published after it subscribed (index `n0`).
pub proof fn lemma_no_replay(h: Hub, cursor: int, n0: int)
    requires
        h.wf(),
        n0 <= cursor,
    ensures
        spec_delivery(h, cursor) is Some ==> n0 <= cursor < h.count() && spec_delivery(h, cursor)
            == Some(h.history()[cursor]@),
        spec_delivery(h, cursor) is Some && cursor == n0 ==> spec_delivery(h, cursor) == Some(
            h.history()[n0]@,
        ),
{
}

} // verus!
