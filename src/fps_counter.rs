//! Frames-per-second counter of the render loop. The caller reads the clock
//! and passes timestamps in milliseconds.

use vstd::prelude::*;

verus! {

/// Length of one measuring window, in milliseconds.
pub const ONE_SECOND_MS: u64 = 1000;

/// Why a tick could not be counted.
#[derive(PartialEq, Eq, Structural, Copy, Clone, Debug)]
pub enum FpsError {
    /// The timestamp lies before the start of the window.
    ClockWentBackwards,
}

/// Counts frames over windows of a little more than one second.
pub struct FpsCounter {
    start: u64,
    frames: u64,
}

impl FpsCounter {
    /// Start of the present window.
    pub closed spec fn start(&self) -> u64 {
        self.start
    }

    /// Frames counted in the present window.
    pub closed spec fn frames(&self) -> u64 {
        self.frames
    }

    /// A counter whose first window starts at `now`.
    pub fn new(now: u64) -> (r: FpsCounter)
        ensures
            r.start() == now,
            r.frames() == 0,
    {
        FpsCounter { start: now, frames: 0 }
    }

    /// Counts one frame at time `now`. Once more than a second has passed
    /// since the window started, returns the frames of the window, this one
    /// included, and starts a new window at `now`.
    pub fn tick(&mut self, now: u64) -> (r: Result<Option<u64>, FpsError>)
        ensures
            ({
                let counted = if old(self).frames() < u64::MAX {
                    (old(self).frames() + 1) as u64
                } else {
                    old(self).frames()
                };
                &&& now < old(self).start() ==> r == Err::<Option<u64>, FpsError>(FpsError::ClockWentBackwards)
                    && final(self).start() == old(self).start() && final(self).frames() == counted
                &&& now >= old(self).start() && now - old(self).start() > ONE_SECOND_MS ==> r
                    == Ok::<Option<u64>, FpsError>(Some(counted)) && final(self).start() == now
                    && final(self).frames() == 0
                &&& now >= old(self).start() && now - old(self).start() <= ONE_SECOND_MS ==> r
                    == Ok::<Option<u64>, FpsError>(None) && final(self).start() == old(self).start()
                    && final(self).frames() == counted
            }),
    {
        if self.frames < u64::MAX {
            self.frames = self.frames + 1;
        }
        if now < self.start {
            return Err(FpsError::ClockWentBackwards);
        }
        if now - self.start > ONE_SECOND_MS {
            let frames = self.frames;
            self.reset(now);
            Ok(Some(frames))
        } else {
            Ok(None)
        }
    }

    /// Starts a new, empty window at `now`.
    pub fn reset(&mut self, now: u64)
        ensures
            final(self).start() == now,
            final(self).frames() == 0,
    {
        self.start = now;
        self.frames = 0;
    }
}

} // verus!
