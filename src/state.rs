//! The per-entity debounce state machine.
//!
//! An entity is stable while no target is pending. A lookup that names
//! another level makes that level the pending target and starts the
//! transition timer; the timer keeps running while later lookups name the
//! same target, starts again when they name a different one, and the target
//! is dropped when a lookup names the current level again. A lookup that
//! matches no row changes nothing. A target whose timer has run out is due,
//! and committing it makes it the current level.

use vstd::prelude::*;
use crate::level::{LODLevel, period_of};
use crate::timer::{FrameTimer, ticked};

verus! {

/// How long, in nanoseconds, a new target must hold before it is due.
pub const DEFAULT_TRANSITION_DELAY: u64 = 100_000_000;

#[derive(Clone, Copy, Debug)]
pub struct LODState {
    pub current_level: LODLevel,
    pub target_level: Option<LODLevel>,
    pub transition_timer: FrameTimer,
    pub update_timer: FrameTimer,
}

/// The timer `t` started again from zero.
pub open spec fn restarted(t: FrameTimer) -> FrameTimer {
    FrameTimer { duration: t.duration, elapsed: 0 }
}

/// The state after a frame whose lookup gave `lookup` and which lasted
/// `delta` nanoseconds.
pub open spec fn observed(s: LODState, lookup: Option<LODLevel>, delta: u64) -> LODState {
    match lookup {
        None => s,
        Some(l) => if l == s.current_level {
            LODState { target_level: None, transition_timer: restarted(s.transition_timer), ..s }
        } else if s.target_level == Some(l) {
            LODState { transition_timer: ticked(s.transition_timer, delta), ..s }
        } else {
            LODState {
                target_level: Some(l),
                transition_timer: ticked(restarted(s.transition_timer), delta),
                ..s
            }
        },
    }
}

/// The state after its pending target has been committed.
pub open spec fn committed(s: LODState) -> LODState {
    let t = s.target_level->Some_0;
    LODState {
        current_level: t,
        target_level: None,
        transition_timer: restarted(s.transition_timer),
        update_timer: FrameTimer { duration: period_of(t.update_frequency), elapsed: s.update_timer.elapsed },
    }
}

impl LODState {
    /// A pending target never equals the current level.
    pub open spec fn wf(self) -> bool {
        self.target_level != Some(self.current_level)
    }

    /// A pending target whose timer has run out.
    pub open spec fn due(self) -> bool {
        self.target_level is Some && self.transition_timer.is_finished()
    }

    /// A stable state at `initial_level` with the default transition delay.
    pub fn new(initial_level: LODLevel) -> (r: LODState)
        ensures
            r.current_level == initial_level,
            r.target_level is None,
            r.transition_timer == (FrameTimer { duration: DEFAULT_TRANSITION_DELAY, elapsed: 0 }),
            r.update_timer == (FrameTimer { duration: period_of(initial_level.update_frequency), elapsed: 0 }),
            r.wf(),
    {
        LODState::with_transition_delay(initial_level, DEFAULT_TRANSITION_DELAY)
    }

    /// A stable state at `initial_level` whose targets must hold for `delay`
    /// nanoseconds.
    pub fn with_transition_delay(initial_level: LODLevel, delay: u64) -> (r: LODState)
        ensures
            r.current_level == initial_level,
            r.target_level is None,
            r.transition_timer == (FrameTimer { duration: delay, elapsed: 0 }),
            r.update_timer == (FrameTimer { duration: period_of(initial_level.update_frequency), elapsed: 0 }),
            r.wf(),
    {
        LODState {
            current_level: initial_level,
            target_level: None,
            transition_timer: FrameTimer::new(delay),
            update_timer: FrameTimer::new(initial_level.update_period()),
        }
    }

    /// Takes in one frame's lookup result and the frame's length.
    pub fn observe(&mut self, lookup: Option<LODLevel>, delta: u64)
        ensures
            *final(self) == observed(*old(self), lookup, delta),
            old(self).wf() ==> final(self).wf(),
    {
        match lookup {
            None => {},
            Some(l) => {
                if l == self.current_level {
                    self.target_level = None;
                    self.transition_timer.reset();
                } else if self.target_level == Some(l) {
                    self.transition_timer.tick(delta);
                } else {
                    self.target_level = Some(l);
                    self.transition_timer.reset();
                    self.transition_timer.tick(delta);
                }
            },
        }
    }

    pub fn is_due(&self) -> (r: bool)
        ensures
            r == self.due(),
    {
        self.target_level.is_some() && self.transition_timer.finished()
    }

    /// Makes the pending target the current level and sets the refresh
    /// period to the new level's.
    pub fn commit(&mut self)
        requires
            old(self).target_level is Some,
        ensures
            *final(self) == committed(*old(self)),
            final(self).wf(),
    {
        let t = self.target_level.unwrap();
        self.current_level = t;
        self.target_level = None;
        self.transition_timer.reset();
        self.update_timer.set_duration(t.update_period());
    }
}

/// One frame of one entity while the budget has room: the lookup is taken
/// in, then a due target is committed.
pub open spec fn frame_step(s: LODState, lookup: Option<LODLevel>, delta: u64) -> LODState {
    let o = observed(s, lookup, delta);
    if o.due() {
        committed(o)
    } else {
        o
    }
}

/// The state after a sequence of frames, each a lookup result and a length.
pub open spec fn run_frames(s: LODState, frames: Seq<(Option<LODLevel>, u64)>) -> LODState
    decreases frames.len(),
{
    if frames.len() == 0 {
        s
    } else {
        frame_step(run_frames(s, frames.drop_last()), frames.last().0, frames.last().1)
    }
}

/// How long the lookup of frame `k` has held: the total length of the run of
/// frames that ends at `k` and all gave that same lookup.
pub open spec fn held_for(frames: Seq<(Option<LODLevel>, u64)>, k: int) -> nat
    decreases k,
{
    if k < 0 || k >= frames.len() {
        0
    } else if k > 0 && frames[k - 1].0 == frames[k].0 {
        (frames[k].1 + held_for(frames, k - 1)) as nat
    } else {
        frames[k].1 as nat
    }
}

proof fn lemma_stable_prefix(s: LODState, frames: Seq<(Option<LODLevel>, u64)>, n: int)
    requires
        s.target_level is None,
        0 <= n <= frames.len(),
        forall|k: int| 0 <= k < frames.len() ==> (#[trigger] frames[k]).0 is Some,
        forall|k: int|
            0 <= k < frames.len() && (#[trigger] frames[k]).0 != Some(s.current_level) ==> held_for(frames, k)
                < s.transition_timer.duration,
    ensures
        ({
            let r = run_frames(s, frames.take(n));
            &&& r.current_level == s.current_level
            &&& r.update_timer == s.update_timer
            &&& r.transition_timer.duration == s.transition_timer.duration
            &&& n == 0 ==> r.target_level is None
            &&& n > 0 && frames[n - 1].0 == Some(s.current_level) ==> r.target_level is None
            &&& n > 0 && frames[n - 1].0 != Some(s.current_level) ==> r.target_level == frames[n - 1].0
                && r.transition_timer.elapsed == held_for(frames, n - 1)
        }),
    decreases n,
{
    if n == 0 {
        assert(frames.take(0) =~= Seq::<(Option<LODLevel>, u64)>::empty());
    } else {
        lemma_stable_prefix(s, frames, n - 1);
        assert(frames.take(n).drop_last() =~= frames.take(n - 1));
        assert(frames.take(n).last() == frames[n - 1]);
        let k = n - 1;
        assert(frames[k].0 is Some);
        if frames[k].0 != Some(s.current_level) {
            assert(held_for(frames, k) < s.transition_timer.duration);
        }
    }
}

/// An entity whose lookups keep changing before any level other than the
/// current one has held for the full transition delay never changes level:
/// through every sequence of frames that start from a stable state, in which
/// each run of frames that names one other level lasts less than the delay,
/// the current level stays where it was.
pub proof fn lemma_debounce_stability(s: LODState, frames: Seq<(Option<LODLevel>, u64)>)
    requires
        s.target_level is None,
        forall|k: int| 0 <= k < frames.len() ==> (#[trigger] frames[k]).0 is Some,
        forall|k: int|
            0 <= k < frames.len() && (#[trigger] frames[k]).0 != Some(s.current_level) ==> held_for(frames, k)
                < s.transition_timer.duration,
    ensures
        forall|n: int| 0 <= n <= frames.len() ==> (#[trigger] run_frames(s, frames.take(n))).current_level
            == s.current_level,
{
    assert forall|n: int| 0 <= n <= frames.len() implies (#[trigger] run_frames(s, frames.take(n))).current_level
        == s.current_level by {
        lemma_stable_prefix(s, frames, n);
    }
}

} // verus!
