//! The node's core state and its life cycle.
//!
//! The node starts in an initialization phase: the watchdog is armed
//! first, before anything that could block, then the shared light record
//! and the receive handoff queue are created empty. Once the periodic
//! tasks are scheduled the node runs in steady state until a watchdog
//! reset restarts the whole system; there is no software shutdown.

use vstd::prelude::*;

use crate::channel::FrameChannel;
use crate::dispatch::{can_receive, spec_dispatch, Dispatch};
use crate::lights::SharedLights;
use crate::watchdog::{Watchdog, WATCHDOG_TIMEOUT_MS};

verus! {

/// How many drained frames the receive handoff queue can hold before its
/// drop-newest policy applies.
pub const RX_QUEUE_CAPACITY: usize = 16;

/// Everything the periodic tasks share: the light record behind its
/// critical section, the armed watchdog, and the receive handoff queue.
/// Owned by the scheduling runtime; each task reaches it only through an
/// exclusive-access handle.
pub struct CoreState {
    pub lights: SharedLights,
    pub watchdog: Watchdog,
    pub rx_queue: FrameChannel,
}

impl CoreState {
    /// The core state is well formed: the watchdog keeps its configured
    /// timeout and the queue its bound.
    pub open spec fn wf(self) -> bool {
        &&& self.watchdog.wf()
        &&& self.watchdog.spec_timeout() == WATCHDOG_TIMEOUT_MS
        &&& self.rx_queue.wf()
    }
}

/// Initialize the core: arm the watchdog at the very start, with every
/// light off and the receive queue empty. Peripheral bring-up happens
/// around this call and must complete before the first timeout elapses.
pub fn init(now_ms: u64) -> (core: CoreState)
    ensures
        core.wf(),
        core.watchdog.spec_last_feed() == now_ms,
        core.lights@ == (crate::lights::Lights {
            left_indicator: 0,
            right_indicator: 0,
            day_light: 0,
        }),
        core.rx_queue@ == Seq::<crate::frame::RawFrame>::empty(),
        core.rx_queue.spec_capacity() == RX_QUEUE_CAPACITY,
{
    let watchdog = Watchdog::start(now_ms, WATCHDOG_TIMEOUT_MS);
    let lights = SharedLights::new();
    let rx_queue = FrameChannel::new(RX_QUEUE_CAPACITY);
    CoreState { lights, watchdog, rx_queue }
}

/// One pass of the dispatcher task: dequeue the oldest pending frame and
/// route it. Returns what the pass did, or nothing when the queue was
/// empty; the dispatcher then suspends until new input arrives.
pub fn dispatch_next(core: &mut CoreState) -> (outcome: Option<Dispatch>)
    requires
        old(core).wf(),
    ensures
        final(core).wf(),
        final(core).watchdog == old(core).watchdog,
        final(core).rx_queue.spec_capacity() == old(core).rx_queue.spec_capacity(),
        match outcome {
            Some(d) => {
                &&& old(core).rx_queue@.len() > 0
                &&& final(core).rx_queue@ == old(core).rx_queue@.subrange(
                    1,
                    old(core).rx_queue@.len() as int,
                )
                &&& d == spec_dispatch(old(core).rx_queue@[0], old(core).lights@).0
                &&& final(core).lights@ == spec_dispatch(old(core).rx_queue@[0], old(core).lights@).1
            },
            None => {
                &&& old(core).rx_queue@.len() == 0
                &&& final(core).rx_queue@ == old(core).rx_queue@
                &&& final(core).lights@ == old(core).lights@
            },
        },
{
    match core.rx_queue.pop() {
        Some(frame) => Some(can_receive(frame, &mut core.lights)),
        None => None,
    }
}

} // verus!
