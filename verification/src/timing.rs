//! The clockwork of the loop: counting frames and filling up the frame time.

use vstd::prelude::*;

verus! {

/// The frames that the loop aims to show in a second.
pub const FRAMES_PER_SECOND: u32 = 60;

/// The time between two reports of the frame rate, in nanoseconds.
pub const REPORT_INTERVAL_NANOS: u128 = 1_000_000_000;

/// Counts the frames since the last report of the frame rate.
#[derive(Debug)]
pub struct FrameCounter {
    frames: i32,
}

impl View for FrameCounter {
    type V = int;

    closed spec fn view(&self) -> int {
        self.frames as int
    }
}

impl FrameCounter {
    /// A counter that has seen no frame.
    pub fn new() -> (counter: FrameCounter)
        ensures
            counter@ == 0,
    {
        FrameCounter { frames: 0 }
    }

    /// The frames counted since the last report.
    pub fn frames(&self) -> (frames: i32)
        ensures
            frames == self@,
    {
        self.frames
    }

    /// Counts one more frame, `elapsed_nanos` after the last report. Once a
    /// second has gone by a report is due: the result is then the number of
    /// frames to report, this one included, and counting starts again.
    pub fn tick(&mut self, elapsed_nanos: u128) -> (due: Option<i32>)
        requires
            old(self)@ < i32::MAX,
        ensures
            elapsed_nanos >= REPORT_INTERVAL_NANOS ==> due == Some((old(self)@ + 1) as i32)
                && final(self)@ == 0,
            elapsed_nanos < REPORT_INTERVAL_NANOS ==> due.is_none() && final(self)@ == old(self)@
                + 1,
    {
        self.frames = self.frames + 1;
        if elapsed_nanos >= REPORT_INTERVAL_NANOS {
            let frames = self.frames;
            self.frames = 0;
            Some(frames)
        } else {
            None
        }
    }
}

/// How long the loop sleeps at the end of a frame that took `elapsed_nanos`
/// so that it lasts `budget_nanos`: nothing where the frame took as long or
/// longer.
pub fn idle_time(elapsed_nanos: u128, budget_nanos: u64) -> (rest: Option<u64>)
    ensures
        rest == if elapsed_nanos < budget_nanos {
            Some((budget_nanos - elapsed_nanos) as u64)
        } else {
            None
        },
{
    if elapsed_nanos < budget_nanos as u128 {
        Some(budget_nanos - elapsed_nanos as u64)
    } else {
        None
    }
}

} // verus!
