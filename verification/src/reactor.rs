//! Timer-driven loops.
//!
//! A loop runs a callback every `interval` milliseconds while it is active.
//! Each time its timer fires, the loop first checks that its handle is still
//! alive (dropping the handle stops the loop for good), then runs the
//! callback if the loop is active, then schedules the next firing. The next
//! firing is due one interval, as the interval is at any moment, after the
//! last firing: when the interval changes while a firing is pending, the
//! pending firing is moved so that the new interval already applies to it.
//! A heartbeat is a loop that is always active.
//!
//! The timer itself belongs to the UI event loop; this module decides what
//! each firing does.

use vstd::prelude::*;

verus! {

/// The reactor that timer-driven loops are added to.
pub struct Reactor;

impl Reactor {
    /// A reactor.
    pub fn new() -> (r: Self) {
        Reactor
    }
}

/// What a loop does when its timer fires.
#[derive(Clone, Copy, Debug, PartialEq, Eq, Structural)]
pub enum LoopStep {
    /// The handle was dropped: do nothing and schedule nothing.
    Stop,
    /// Run the callback when `fire`, then schedule the next firing.
    Continue { fire: bool },
}

/// The step of a loop whose handle is alive (`running`) and whose activity
/// signal reads `active`.
pub open spec fn loop_step_of(running: bool, active: bool) -> LoopStep {
    if !running {
        LoopStep::Stop
    } else {
        LoopStep::Continue { fire: active }
    }
}

/// What a loop does when its timer fires.
pub fn loop_step(running: bool, active: bool) -> (r: LoopStep)
    ensures
        r == loop_step_of(running, active),
{
    if !running {
        LoopStep::Stop
    } else {
        LoopStep::Continue { fire: active }
    }
}

/// What a heartbeat does when its timer fires: a heartbeat is always active.
pub fn heartbeat_step(running: bool) -> (r: LoopStep)
    ensures
        r == loop_step_of(running, true),
{
    loop_step(running, true)
}


/// Milliseconds until the next firing of a loop whose last firing (or
/// start) was `since_last` milliseconds ago and whose interval is now
/// `interval`: what is left of the interval, or nothing when it has passed.
pub open spec fn next_delay_of(interval: u64, since_last: u64) -> u64 {
    if since_last < interval {
        (interval - since_last) as u64
    } else {
        0
    }
}

/// The delay after which a loop fires next, counted from now, when it last
/// fired (or started) `since_last` milliseconds ago and its interval is now
/// `interval`.
pub fn next_delay(interval: u64, since_last: u64) -> (r: u64)
    ensures
        r == next_delay_of(interval, since_last),
{
    if since_last < interval {
        interval - since_last
    } else {
        0
    }
}

/// The next firing comes one current interval after the last one: right
/// after a firing the delay is the whole interval, and a firing whose
/// interval has not passed yet is due exactly when it has; one whose
/// interval has already passed is due at once.
pub proof fn law_next_firing_one_interval_after_last(interval: u64, since_last: u64)
    ensures
        next_delay_of(interval, 0) == interval,
        since_last < interval ==> since_last + next_delay_of(interval, since_last) == interval,
        since_last >= interval ==> next_delay_of(interval, since_last) == 0,
{
}

/// Once a loop's handle is dropped the loop never runs its callback again
/// and schedules nothing, whatever its activity; while the handle lives the
/// loop keeps being scheduled and runs exactly when active.
pub proof fn law_dropped_loop_stops(active: bool)
    ensures
        loop_step_of(false, active) == LoopStep::Stop,
        loop_step_of(true, active) == (LoopStep::Continue { fire: active }),
{
}

/// A heartbeat runs its callback at every firing while its handle lives.
pub proof fn law_heartbeat_always_fires()
    ensures
        loop_step_of(true, true) == (LoopStep::Continue { fire: true }),
{
}

} // verus!
