//! The interrupt-to-dispatcher handoff queue.
//!
//! The two receive handlers run at elevated priority and must not block:
//! each drains one frame from its hardware queue and pushes it here with
//! a non-blocking, fire-and-forget enqueue. The dispatcher is the sole
//! consumer and drains in first-in-first-out order. The queue is bounded
//! and allocates nothing after construction; when it is full the newest
//! frame is dropped, mirroring the hardware receive queue's own behavior
//! under a bounded burst — a documented limitation, not an error.

use vstd::prelude::*;

use crate::frame::RawFrame;

verus! {

/// A bounded first-in-first-out queue of received frames.
pub struct FrameChannel {
    entries: Vec<RawFrame>,
    capacity: usize,
}

impl FrameChannel {
    /// The queued frames, oldest first.
    pub closed spec fn view(self) -> Seq<RawFrame> {
        self.entries@
    }

    /// The fixed bound the queue was created with.
    pub closed spec fn spec_capacity(self) -> usize {
        self.capacity
    }

    /// The queue never holds more than its bound.
    pub open spec fn wf(self) -> bool {
        self@.len() <= self.spec_capacity() && self.spec_capacity() > 0
    }

    /// An empty queue with the given bound.
    pub fn new(capacity: usize) -> (channel: FrameChannel)
        requires
            capacity > 0,
        ensures
            channel.wf(),
            channel@ == Seq::<RawFrame>::empty(),
            channel.spec_capacity() == capacity,
    {
        FrameChannel { entries: Vec::new(), capacity }
    }

    /// How many frames are queued.
    pub fn len(&self) -> (n: usize)
        ensures
            n == self@.len(),
    {
        self.entries.len()
    }

    /// Non-blocking enqueue. A frame pushed onto a full queue is dropped
    /// — the drop-newest overflow policy — and the push reports whether
    /// the frame was kept.
    pub fn push(&mut self, frame: RawFrame) -> (kept: bool)
        requires
            old(self).wf(),
        ensures
            final(self).wf(),
            final(self).spec_capacity() == old(self).spec_capacity(),
            kept == (old(self)@.len() < old(self).spec_capacity()),
            kept ==> final(self)@ == old(self)@.push(frame),
            !kept ==> final(self)@ == old(self)@,
    {
        if self.entries.len() < self.capacity {
            self.entries.push(frame);
            true
        } else {
            false
        }
    }

    /// Dequeue the oldest frame, if any: strict first-in-first-out.
    pub fn pop(&mut self) -> (frame: Option<RawFrame>)
        requires
            old(self).wf(),
        ensures
            final(self).wf(),
            final(self).spec_capacity() == old(self).spec_capacity(),
            match frame {
                Some(f) => old(self)@.len() > 0 && f == old(self)@[0] && final(self)@ == old(
                    self,
                )@.subrange(1, old(self)@.len() as int),
                None => old(self)@.len() == 0 && final(self)@ == old(self)@,
            },
    {
        if self.entries.len() > 0 {
            let frame = self.entries.remove(0);
            Some(frame)
        } else {
            None
        }
    }
}

/// One invocation of a receive handler, past the hardware drain: hand the
/// drained frame off to the dispatcher's queue without blocking, or do
/// nothing when the interrupt fired spuriously and no frame was present.
/// Either way the handler never fails: a dropped frame is reported, not
/// an error.
pub fn handle_rx_drain(queue: &mut FrameChannel, drained: Option<RawFrame>) -> (kept: bool)
    requires
        old(queue).wf(),
    ensures
        final(queue).wf(),
        final(queue).spec_capacity() == old(queue).spec_capacity(),
        match drained {
            Some(frame) => {
                &&& kept == (old(queue)@.len() < old(queue).spec_capacity())
                &&& kept ==> final(queue)@ == old(queue)@.push(frame)
                &&& !kept ==> final(queue)@ == old(queue)@
            },
            None => !kept && final(queue)@ == old(queue)@,
        },
{
    match drained {
        Some(frame) => queue.push(frame),
        None => false,
    }
}

} // verus!
