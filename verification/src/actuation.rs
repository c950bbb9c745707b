//! The light actuation tasks' output logic.
//!
//! Three independent periodic tasks each read the shared light record and
//! drive one physical output. The indicator tasks gate their output on a
//! square wave derived from the monotonic clock; the day-light task is
//! level-only. Each function here computes the pin state one task writes
//! on one invocation; the pin write itself happens outside this crate,
//! after the critical section is released. The logic is level-triggered:
//! a stale read self-corrects on the next tick.

use vstd::prelude::*;

use crate::lights::SharedLights;

verus! {

/// The period of the indicator blink wave, in monotonic milliseconds.
pub const BLINK_PERIOD_MS: u64 = 1000;

/// The phase within the blink period above which an active indicator is
/// lit: a 50%-duty square wave.
pub const BLINK_ON_ABOVE_MS: u64 = 500;

/// Where the monotonic clock stands within the blink period.
pub open spec fn spec_blink_phase(now_ms: u64) -> u64 {
    now_ms % BLINK_PERIOD_MS
}

/// Whether an indicator with the given activation level is lit at the
/// given monotonic time: on iff the level is nonzero and the blink phase
/// is in the upper half of the period.
pub open spec fn spec_indicator_on(now_ms: u64, level: u8) -> bool {
    level > 0 && spec_blink_phase(now_ms) > BLINK_ON_ABOVE_MS
}

/// Compute the indicator pin state for one invocation.
pub fn indicator_output(now_ms: u64, level: u8) -> (on: bool)
    ensures
        on == spec_indicator_on(now_ms, level),
{
    let on: bool = (now_ms % BLINK_PERIOD_MS) > BLINK_ON_ABOVE_MS;
    on && level > 0
}

/// Compute the day-light pin state: on iff the activation level is
/// nonzero, with no time gate.
pub fn day_light_output(level: u8) -> (on: bool)
    ensures
        on == (level > 0),
{
    level > 0
}

/// One invocation of the left-indicator task: read the shared record in
/// its critical section and compute the pin state to write.
pub fn toggle_left_indicator(shared: &SharedLights, now_ms: u64) -> (on: bool)
    ensures
        on == spec_indicator_on(now_ms, shared@.left_indicator),
{
    let lights = shared.read();
    indicator_output(now_ms, lights.left_indicator)
}

/// One invocation of the right-indicator task: read the shared record in
/// its critical section and compute the pin state to write.
pub fn toggle_right_indicator(shared: &SharedLights, now_ms: u64) -> (on: bool)
    ensures
        on == spec_indicator_on(now_ms, shared@.right_indicator),
{
    let lights = shared.read();
    indicator_output(now_ms, lights.right_indicator)
}

/// One invocation of the day-light task: read the shared record in its
/// critical section and compute the pin state to write.
pub fn toggle_day_lights(shared: &SharedLights) -> (on: bool)
    ensures
        on == (shared@.day_light > 0),
{
    let lights = shared.read();
    day_light_output(lights.day_light)
}

/// The blink law: with a nonzero activation level the output is on for
/// blink phases in (500, 999] and off for phases in [0, 500]; with the
/// level at zero the output is off at every phase.
pub proof fn lemma_blink(now_ms: u64, level: u8)
    ensures
        0 <= spec_blink_phase(now_ms) <= 999,
        level > 0 ==> (spec_indicator_on(now_ms, level) <==> 500 < spec_blink_phase(now_ms)
            <= 999),
        level == 0 ==> !spec_indicator_on(now_ms, level),
{
}

} // verus!
