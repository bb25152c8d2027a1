//! The decisions of one frame.
//!
//! A frame begins by draining the event queue into the controls and ends by
//! deciding whether its duration is worth reporting.  What lies between
//! (moving the boat towards the intent, drawing) is the host's business.

use vstd::prelude::*;
use crate::events::{Event, EventQueue};
use crate::geometry::Vec2i;
use crate::mapper::{new_viewport, run, Controls};

verus! {

/// Nanoseconds in a second.
pub const NANOS_PER_SEC: u64 = 1_000_000_000;

/// The frame time to report for a frame that began at `start` and ended at
/// `now`, both in nanoseconds on the same clock: the part of the duration
/// below one second.  A frame whose clock did not advance reports nothing.
pub open spec fn spec_frame_time(start: u64, now: u64) -> Option<u32> {
    if now > start {
        Some(((now - start) % (NANOS_PER_SEC as int)) as u32)
    } else {
        None
    }
}

/// Begins a frame: takes every queued event, oldest first, into `controls`
/// and leaves the queue empty.  Where a resize was queued, returns the
/// viewport for which the camera has to be set up again before drawing.
pub fn begin_frame(queue: &mut EventQueue, controls: &mut Controls) -> (resized: Option<Vec2i>)
    ensures
        final(queue)@ == Seq::<Event>::empty(),
        *final(controls) == run(*old(controls), old(queue)@),
        resized == new_viewport(*old(controls), old(queue)@),
        old(controls).wf() ==> final(controls).wf(),
{
    let events = queue.drain();
    controls.map_events(&events)
}

/// The frame time to report, in nanoseconds below one second, for a frame
/// that began at `start` and ended at `now`; `None` where the clock did not
/// advance, so that nothing is reported for such a frame.
pub fn frame_time(start: u64, now: u64) -> (report: Option<u32>)
    ensures
        report == spec_frame_time(start, now),
        report matches Some(nanos) ==> nanos < NANOS_PER_SEC,
{
    if now > start {
        Some(((now - start) % NANOS_PER_SEC) as u32)
    } else {
        None
    }
}

} // verus!
