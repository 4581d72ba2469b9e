//! A one-shot countdown driven by frame time.

use vstd::prelude::*;

verus! {

/// Counts elapsed nanoseconds up to a fixed duration and then stays
/// finished until it is reset.
#[derive(Clone, Copy, Debug, PartialEq, Eq, Structural)]
pub struct FrameTimer {
    pub duration: u64,
    pub elapsed: u64,
}

/// The elapsed time after a tick of `delta`: it grows by `delta` and stops
/// at the duration.
pub open spec fn ticked(t: FrameTimer, delta: u64) -> FrameTimer {
    FrameTimer {
        duration: t.duration,
        elapsed: if t.elapsed as int + delta as int >= t.duration as int {
            t.duration
        } else {
            (t.elapsed + delta) as u64
        },
    }
}

impl FrameTimer {
    pub open spec fn is_finished(self) -> bool {
        self.elapsed >= self.duration
    }

    pub fn new(duration: u64) -> (r: FrameTimer)
        ensures
            r == (FrameTimer { duration, elapsed: 0 }),
    {
        FrameTimer { duration, elapsed: 0 }
    }

    pub fn tick(&mut self, delta: u64)
        ensures
            *final(self) == ticked(*old(self), delta),
    {
        if self.elapsed >= self.duration || delta >= self.duration - self.elapsed {
            self.elapsed = self.duration;
        } else {
            self.elapsed = self.elapsed + delta;
        }
    }

    pub fn finished(&self) -> (r: bool)
        ensures
            r == self.is_finished(),
    {
        self.elapsed >= self.duration
    }

    pub fn reset(&mut self)
        ensures
            *final(self) == (FrameTimer { duration: old(self).duration, elapsed: 0 }),
    {
        self.elapsed = 0;
    }

    /// Changes the duration and keeps the elapsed time.
    pub fn set_duration(&mut self, duration: u64)
        ensures
            *final(self) == (FrameTimer { duration, elapsed: old(self).elapsed }),
    {
        self.duration = duration;
    }
}

} // verus!
