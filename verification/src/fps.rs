//! Counting the frames drawn per second.

use vstd::prelude::*;

verus! {

/// Counts frames between two reports, and keeps the last count reported.
pub struct FpsCounter {
    pub last_print: usize,
    pub frames: usize,
    pub last_fps: usize,
    pub output_enabled: bool,
}

/// The number of clock ticks after which a count is reported.
pub const REPORT_INTERVAL: usize = 1000;

/// A counter started at `current_time`, in ticks of the system clock.
pub fn init(current_time: usize) -> (result: FpsCounter)
    ensures
        result.last_print == current_time,
        result.frames == 0,
        result.last_fps == 0,
        !result.output_enabled,
{
    FpsCounter { last_print: current_time, frames: 0, last_fps: 0, output_enabled: false }
}

impl FpsCounter {
    /// The counter after one more frame, ended at `current_ticks`: more
    /// than `REPORT_INTERVAL` ticks after the last report the count is
    /// reported and starts again from zero.
    pub open spec fn spec_count_frame(self, current_ticks: usize) -> FpsCounter {
        if current_ticks - self.last_print > REPORT_INTERVAL {
            FpsCounter {
                last_print: current_ticks,
                frames: 0,
                last_fps: (self.frames + 1) as usize,
                output_enabled: self.output_enabled,
            }
        } else {
            FpsCounter {
                last_print: self.last_print,
                frames: (self.frames + 1) as usize,
                last_fps: self.last_fps,
                output_enabled: self.output_enabled,
            }
        }
    }

    /// Counts a frame that ended at `current_ticks`. Returns the count to
    /// print, when one is reported and output is enabled.
    pub fn count_frame(&mut self, current_ticks: usize) -> (result: Option<usize>)
        requires
            old(self).frames < usize::MAX,
            old(self).last_print <= current_ticks,
        ensures
            *final(self) == old(self).spec_count_frame(current_ticks),
            result == if current_ticks - old(self).last_print > REPORT_INTERVAL && old(
                self,
            ).output_enabled {
                Some((old(self).frames + 1) as usize)
            } else {
                None
            },
    {
        self.frames += 1;
        let diff_since_last_print = current_ticks - self.last_print;
        let mut report: Option<usize> = None;

        if diff_since_last_print > REPORT_INTERVAL {
            self.last_fps = self.frames;
            self.last_print = current_ticks;
            if self.output_enabled {
                report = Some(self.frames);
            }
            self.frames = 0;
        }
        report
    }
}

} // verus!
