//! Shared lighting state and the exclusive-access discipline on it.

use vstd::prelude::*;

verus! {

/// Per-light activation level: 0 is off, any greater value is on.
/// Written only by the dispatcher's lighting handler, read by the three
/// actuation tasks.
#[derive(Clone, Copy, Debug, PartialEq, Eq, Structural)]
pub struct Lights {
    pub left_indicator: u8,
    pub right_indicator: u8,
    pub day_light: u8,
}

impl Lights {
    /// All lights off, the state the node starts in.
    pub fn all_off() -> (lights: Lights)
        ensures
            lights == (Lights { left_indicator: 0, right_indicator: 0, day_light: 0 }),
    {
        Lights { left_indicator: 0, right_indicator: 0, day_light: 0 }
    }
}

/// The shared light record behind its critical section. The record can
/// only be read or replaced whole, in one exclusive access each: no
/// caller can observe or leave a partially updated record, and neither
/// operation suspends, so a critical section never spans a scheduling
/// suspension point.
pub struct SharedLights {
    lights: Lights,
}

impl SharedLights {
    /// The record currently held.
    pub closed spec fn view(self) -> Lights {
        self.lights
    }

    /// Start with every light off.
    pub fn new() -> (shared: SharedLights)
        ensures
            shared@ == (Lights { left_indicator: 0, right_indicator: 0, day_light: 0 }),
    {
        SharedLights { lights: Lights::all_off() }
    }

    /// One critical section: copy the whole record out.
    pub fn read(&self) -> (lights: Lights)
        ensures
            lights == self@,
    {
        self.lights
    }

    /// One critical section: replace the whole record.
    pub fn write(&mut self, lights: Lights)
        ensures
            final(self)@ == lights,
    {
        self.lights = lights;
    }
}

/// One exclusive access to the shared record, as the interleaving model
/// sees it: either the dispatcher writes a whole record or an actuation
/// task reads the current one.
#[derive(Clone, Copy, Debug, PartialEq, Eq, Structural)]
pub enum Access {
    Write(Lights),
    Read,
}

/// The record visible after the first `i` accesses of a trace have run,
/// starting from `init`: the last record written so far, or `init` when
/// nothing was written yet.
pub open spec fn state_at(init: Lights, trace: Seq<Access>, i: int) -> Lights
    decreases i,
{
    if i <= 0 {
        init
    } else {
        match trace[i - 1] {
            Access::Write(lights) => lights,
            Access::Read => state_at(init, trace, i - 1),
        }
    }
}

/// No torn records: under the whole-record access discipline, whatever
/// order dispatcher writes and actuation-task reads interleave in, every
/// record visible at any point of the trace is the initial record or one
/// that some single earlier write put there whole — never a mixture of
/// two records' fields.
pub proof fn lemma_no_torn_records(init: Lights, trace: Seq<Access>, i: int)
    requires
        0 <= i <= trace.len(),
    ensures
        state_at(init, trace, i) == init || exists|j: int|
            0 <= j < i && trace[j] == Access::Write(state_at(init, trace, i)),
    decreases i,
{
    if i > 0 {
        match trace[i - 1] {
            Access::Write(lights) => {
                assert(trace[i - 1] == Access::Write(state_at(init, trace, i)));
            },
            Access::Read => {
                lemma_no_torn_records(init, trace, i - 1);
                if state_at(init, trace, i - 1) != init {
                    let j = choose|j: int|
                        0 <= j < i - 1 && trace[j] == Access::Write(state_at(init, trace, i - 1));
                    assert(trace[j] == Access::Write(state_at(init, trace, i)));
                }
            },
        }
    }
}

} // verus!
