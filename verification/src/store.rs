//! The segment store: a monotonically increasing ordinal counter and
//! the bounded retention window of segment files it implies. The store
//! decides which ordinal a finished segment is published under and
//! which old segment must be pruned; the caller performs the rename
//! and the deletion it is told.

use vstd::prelude::*;
use vstd::set_lib::set_int_range;
use vstd::set_lib::lemma_int_range;

verus! {

/// How many recent segment files are kept on disk.
pub const RETENTION: u64 = 8;

/// The ordinals whose segment files are on disk when the latest
/// published ordinal is `current` and `retention` files are kept:
/// the most recent `retention` ordinals, starting no earlier than 1.
pub open spec fn live_ordinals(current: int, retention: int) -> Set<int> {
    set_int_range(
        if current - retention + 1 > 1 {
            current - retention + 1
        } else {
            1
        },
        current + 1,
    )
}

/// The retention window holds exactly `min(current, retention)`
/// ordinals, and they are precisely the most recent ones: after `n`
/// publications with retention `r`, `min(n, r)` segment files exist,
/// and a file for ordinal `k` exists if and only if
/// `n - r < k <= n` and `k >= 1`.
pub proof fn lemma_retention_window(current: int, retention: int)
    requires
        0 <= current,
        1 <= retention,
    ensures
        live_ordinals(current, retention).finite(),
        live_ordinals(current, retention).len() == (if current <= retention {
            current
        } else {
            retention
        }),
        forall|k: int|
            live_ordinals(current, retention).contains(k) <==> (1 <= k && current - retention < k
                && k <= current),
{
    let lo = if current - retention + 1 > 1 {
        current - retention + 1
    } else {
        1
    };
    lemma_int_range(lo, current + 1);
}

/// What one publication asks of the filesystem: the finished segment
/// is renamed into place under `ordinal`, and if `prune` names an
/// ordinal, that segment file has left the retention window and is
/// deleted.
pub struct Publication {
    pub ordinal: u64,
    pub prune: Option<u64>,
}

/// The single source of truth readers consult: the latest published
/// segment ordinal (0 while none is published yet) and the fixed
/// number of recent segments kept on disk.
pub struct SegmentStore {
    counter: u64,
    retention: u64,
}

impl SegmentStore {
    /// The latest published ordinal; 0 means no segment yet.
    pub closed spec fn current(self) -> u64 {
        self.counter
    }

    /// How many recent segments are kept.
    pub closed spec fn retention(self) -> u64 {
        self.retention
    }

    pub open spec fn wf(self) -> bool {
        self.retention() >= 1
    }

    /// A store with nothing published.
    pub fn new(retention: u64) -> (s: Self)
        requires
            retention >= 1,
        ensures
            s.wf(),
            s.current() == 0,
            s.retention() == retention,
    {
        SegmentStore { counter: 0, retention }
    }

    /// The latest published ordinal, as readers see it.
    pub fn current_ordinal(&self) -> (r: u64)
        ensures
            r == self.current(),
    {
        self.counter
    }

    /// Publishes one finished segment: the counter advances by exactly
    /// 1 — never skipping, never repeating — and the new ordinal is
    /// assigned to the segment. The ordinal `retention` behind it, if
    /// it exists, is pruned, so the set of live ordinals stays the
    /// most recent `min(current, retention)`.
    pub fn publish(&mut self) -> (p: Publication)
        requires
            old(self).wf(),
            old(self).current() < u64::MAX,
        ensures
            final(self).wf(),
            final(self).retention() == old(self).retention(),
            final(self).current() == old(self).current() + 1,
            p.ordinal == final(self).current(),
            p.prune == (if old(self).current() >= old(self).retention() {
                Some((old(self).current() + 1 - old(self).retention()) as u64)
            } else {
                None::<u64>
            }),
            ({
                let before = live_ordinals(old(self).current() as int, old(self).retention() as int);
                let after = live_ordinals(final(self).current() as int, final(self).retention() as int);
                after == (match p.prune {
                    Some(pr) => before.insert(p.ordinal as int).remove(pr as int),
                    None => before.insert(p.ordinal as int),
                })
            }),
    {
        let next = self.counter + 1;
        self.counter = next;
        let p = if next > self.retention {
            Publication { ordinal: next, prune: Some(next - self.retention) }
        } else {
            Publication { ordinal: next, prune: None }
        };
        proof {
            let before = live_ordinals(next - 1, self.retention as int);
            let after = live_ordinals(next as int, self.retention as int);
            if next > self.retention {
                assert(after =~= before.insert(next as int).remove(next - self.retention as int));
            } else {
                assert(after =~= before.insert(next as int));
            }
        }
        p
    }
}

} // verus!
