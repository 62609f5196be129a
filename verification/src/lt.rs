//! Logical-time allocation.
//!
//! One counter is shared by every transaction of a block-production
//! session; each execution draws from it a logical time strictly
//! greater than the block's logical time and strictly greater than
//! everything drawn before.  The counter is the only state shared
//! between executions, and the caller serializes access to it (the
//! surrounding program may keep it behind an atomic integer; the
//! increment itself is what the contract here pins down).

use vstd::prelude::*;

verus! {

/// Monotonic logical-time counter.
#[derive(Clone, Copy, Debug, PartialEq, Eq, Structural)]
pub struct LtCounter {
    /// The smallest logical time a future allocation may return.
    pub next: u64,
}

/// The logical time a counter at `next` hands out against block time
/// `block_lt`: fetch-and-increment, floored just above the block time.
pub open spec fn next_lt(next: u64, block_lt: u64) -> u64
    recommends
        block_lt < u64::MAX,
{
    if next > block_lt {
        next
    } else {
        (block_lt + 1) as u64
    }
}

impl LtCounter {
    pub fn new(start: u64) -> (r: LtCounter)
        ensures
            r.next == start,
    {
        LtCounter { next: start }
    }

    /// Draws the next logical time: exactly `next_lt` of the counter
    /// and the block logical time, so equal counters draw equal
    /// times; strictly greater than `block_lt`, no smaller than
    /// everything drawn before, and never to be drawn again.
    pub fn take_next(&mut self, block_lt: u64) -> (r: u64)
        requires
            old(self).next <= u64::MAX - 1,
            block_lt <= u64::MAX - 2,
        ensures
            r == next_lt(old(self).next, block_lt),
            r > block_lt,
            r >= old(self).next,
            final(self).next == r + 1,
    {
        let lt = if self.next > block_lt {
            self.next
        } else {
            block_lt + 1
        };
        self.next = lt + 1;
        lt
    }
}

proof fn lemma_lt_chain(lts: Seq<u64>, floors: Seq<u64>, i: int, j: int)
    requires
        floors.len() == lts.len() + 1,
        forall|k: int| 0 <= k < lts.len() ==> #[trigger] lts[k] >= floors[k],
        forall|k: int| 0 <= k < lts.len() ==> #[trigger] floors[k + 1] == lts[k] + 1,
        0 <= i < j < lts.len(),
    ensures
        lts[i] < lts[j],
    decreases j - i,
{
    assert(floors[i + 1] == lts[i] + 1);
    if j == i + 1 {
        assert(lts[j] >= floors[j]);
    } else {
        lemma_lt_chain(lts, floors, i + 1, j);
        assert(lts[i + 1] >= floors[i + 1]);
    }
}

/// Law: in any run of allocations from one counter, every drawn
/// logical time exceeds the block logical time it was drawn against,
/// and the drawn times are strictly increasing — no two executions
/// ever receive the same one.  `lts[k]` is the time drawn by the
/// `k`-th allocation, `floors[k]` the counter's `next` before it, and
/// `blocks[k]` the block logical time it was drawn against; the
/// premises are exactly what `take_next` ensures.
pub proof fn law_logical_time_monotonic(lts: Seq<u64>, floors: Seq<u64>, blocks: Seq<u64>)
    requires
        floors.len() == lts.len() + 1,
        blocks.len() == lts.len(),
        forall|k: int| 0 <= k < lts.len() ==> #[trigger] lts[k] >= floors[k],
        forall|k: int| 0 <= k < lts.len() ==> #[trigger] floors[k + 1] == lts[k] + 1,
        forall|k: int| 0 <= k < lts.len() ==> #[trigger] lts[k] > blocks[k],
    ensures
        forall|i: int, j: int| 0 <= i < j < lts.len() ==> #[trigger] lts[i] < #[trigger] lts[j],
{
    assert forall|i: int, j: int| 0 <= i < j < lts.len() implies #[trigger] lts[i]
        < #[trigger] lts[j] by {
        lemma_lt_chain(lts, floors, i, j);
    }
}

} // verus!
