//! The shared tick clock: a one-shot timer that gates when the next gesture
//! may be chosen.
use crate::player::{GridTransform, NextGridTransform};
use vstd::prelude::*;

verus! {

/// A one-shot timer, in microseconds.
#[derive(Clone, Copy, Debug, PartialEq, Eq, Structural)]
pub struct AnimationTick {
    pub elapsed_us: u64,
    pub duration_us: u64,
    pub finished: bool,
}

/// The clock's duration when it is created, in microseconds.
pub const FIRST_TICK_US: u64 = 200_000;

/// The clock's duration when no gesture could be chosen, in microseconds.
pub const IDLE_TICK_US: u64 = 250_000;

/// The clock restarted on a new duration.
pub open spec fn restarted(duration_us: u64) -> AnimationTick {
    AnimationTick { elapsed_us: 0, duration_us, finished: false }
}

impl AnimationTick {
    /// Elapsed time never exceeds the duration.
    pub open spec fn wf(&self) -> bool {
        self.elapsed_us <= self.duration_us
    }

    /// A running clock of the given duration.
    pub fn new(duration_us: u64) -> (r: AnimationTick)
        ensures
            r == restarted(duration_us),
            r.wf(),
    {
        AnimationTick { elapsed_us: 0, duration_us, finished: false }
    }

    pub fn is_finished(&self) -> (r: bool)
        ensures
            r == self.finished,
    {
        self.finished
    }

    /// Sets a new duration and starts over.
    pub fn restart(&mut self, duration_us: u64)
        ensures
            *final(self) == restarted(duration_us),
            final(self).wf(),
    {
        self.elapsed_us = 0;
        self.duration_us = duration_us;
        self.finished = false;
    }

    /// Advances the clock by `delta_us`; returns whether it finished on this
    /// advance. A finished clock stays as it is.
    pub fn tick(&mut self, delta_us: u64) -> (just_finished: bool)
        requires
            old(self).wf(),
        ensures
            final(self).wf(),
            final(self).duration_us == old(self).duration_us,
            old(self).finished ==> *final(self) == *old(self) && !just_finished,
            !old(self).finished && old(self).elapsed_us + delta_us >= old(self).duration_us ==> {
                &&& just_finished
                &&& final(self).finished
                &&& final(self).elapsed_us == old(self).duration_us
            },
            !old(self).finished && old(self).elapsed_us + delta_us < old(self).duration_us ==> {
                &&& !just_finished
                &&& !final(self).finished
                &&& final(self).elapsed_us == old(self).elapsed_us + delta_us
            },
    {
        if self.finished {
            return false;
        }
        if delta_us >= self.duration_us - self.elapsed_us {
            self.elapsed_us = self.duration_us;
            self.finished = true;
            true
        } else {
            self.elapsed_us = self.elapsed_us + delta_us;
            false
        }
    }
}

/// Advances the clock by `delta_us`; when it finishes on this advance, every
/// body rests on the cell its gesture ended on. Returns whether it finished.
pub fn update_tick_timer(
    tick: &mut AnimationTick,
    delta_us: u64,
    grids: &mut Vec<GridTransform>,
    nexts: &Vec<NextGridTransform>,
) -> (just_finished: bool)
    requires
        old(tick).wf(),
        old(grids)@.len() == nexts@.len(),
    ensures
        final(tick).wf(),
        final(grids)@.len() == old(grids)@.len(),
        old(tick).finished ==> *final(tick) == *old(tick) && !just_finished,
        !old(tick).finished ==> just_finished == (old(tick).elapsed_us + delta_us
            >= old(tick).duration_us) && final(tick).finished == just_finished,
        just_finished ==> forall|i: int|
            0 <= i < nexts@.len() ==> (#[trigger] final(grids)@[i]).0 == nexts@[i].0,
        !just_finished ==> *final(grids) == *old(grids),
{
    let just_finished = tick.tick(delta_us);
    if just_finished {
        let mut i: usize = 0;
        while i < nexts.len()
            invariant
                i <= nexts@.len(),
                grids@.len() == nexts@.len(),
                forall|j: int| 0 <= j < i ==> (#[trigger] grids@[j]).0 == nexts@[j].0,
            decreases nexts@.len() - i,
        {
            grids.set(i, GridTransform(nexts[i].0));
            i = i + 1;
        }
    }
    just_finished
}

} // verus!
