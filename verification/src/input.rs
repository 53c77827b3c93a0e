//! Buffered pointer-motion input.
//!
//! Pointer motion arrives as a stream of deltas; a tick consumes every
//! delta buffered since the previous tick, in arrival order. The buffer
//! keeps a read cursor instead of removing events, mirroring an event
//! reader over a growing event list.

use vstd::prelude::*;

verus! {

/// One pointer-motion event: horizontal and vertical delta, in the
/// input surface's raw units.
#[derive(Clone, Copy, PartialEq, Eq, Structural, Debug)]
pub struct MotionDelta {
    pub dx: i64,
    pub dy: i64,
}

/// Sum of the horizontal deltas of a sequence of motion events.
pub open spec fn sum_dx(s: Seq<MotionDelta>) -> int
    decreases s.len(),
{
    if s.len() == 0 {
        0
    } else {
        sum_dx(s.drop_last()) + s.last().dx
    }
}

/// Sum of the vertical deltas of a sequence of motion events.
pub open spec fn sum_dy(s: Seq<MotionDelta>) -> int
    decreases s.len(),
{
    if s.len() == 0 {
        0
    } else {
        sum_dy(s.drop_last()) + s.last().dy
    }
}

/// Extending a prefix by one event extends both sums by that event's deltas.
pub proof fn lemma_sum_prefix(s: Seq<MotionDelta>, i: int)
    requires
        0 <= i < s.len(),
    ensures
        sum_dx(s.subrange(0, i + 1)) == sum_dx(s.subrange(0, i)) + s[i].dx,
        sum_dy(s.subrange(0, i + 1)) == sum_dy(s.subrange(0, i)) + s[i].dy,
{
    let t = s.subrange(0, i + 1);
    assert(t.drop_last() =~= s.subrange(0, i));
}

/// A buffer of pointer-motion events with a read cursor: events before
/// the cursor have been consumed by an earlier tick.
pub struct MotionBuffer {
    pub events: Vec<MotionDelta>,
    pub cursor: usize,
}

impl MotionBuffer {
    pub open spec fn wf(self) -> bool {
        self.cursor <= self.events@.len()
    }

    /// The events buffered since the last drain, in arrival order.
    pub open spec fn unread(self) -> Seq<MotionDelta> {
        self.events@.skip(self.cursor as int)
    }

    pub fn new() -> (b: MotionBuffer)
        ensures
            b.wf(),
            b.events@ == Seq::<MotionDelta>::empty(),
            b.cursor == 0,
    {
        MotionBuffer { events: Vec::new(), cursor: 0 }
    }

    /// Buffers one more event; nothing already buffered moves.
    pub fn push(&mut self, ev: MotionDelta)
        requires
            old(self).wf(),
        ensures
            final(self).wf(),
            final(self).events@ == old(self).events@.push(ev),
            final(self).cursor == old(self).cursor,
            final(self).unread() == old(self).unread().push(ev),
    {
        self.events.push(ev);
        proof {
            assert(self.unread() =~= old(self).unread().push(ev));
        }
    }

    /// Consumes every buffered-but-unread event, in arrival order, and
    /// returns them; afterwards nothing is left unread.
    pub fn drain(&mut self) -> (evs: Vec<MotionDelta>)
        requires
            old(self).wf(),
        ensures
            final(self).wf(),
            evs@ == old(self).unread(),
            final(self).events@ == old(self).events@,
            final(self).cursor == final(self).events@.len(),
            final(self).unread() == Seq::<MotionDelta>::empty(),
    {
        let mut evs: Vec<MotionDelta> = Vec::new();
        let n = self.events.len();
        let mut i: usize = self.cursor;
        while i < n
            invariant
                self.wf(),
                self.cursor <= i <= n,
                n == self.events@.len(),
                evs@ == self.events@.subrange(self.cursor as int, i as int),
            decreases n - i,
        {
            evs.push(self.events[i]);
            i = i + 1;
        }
        self.cursor = n;
        proof {
            assert(evs@ =~= old(self).unread());
            assert(self.unread() =~= Seq::<MotionDelta>::empty());
        }
        evs
    }
}

} // verus!
