//! Hazards that swing between two cells in step with the avatar's ticks.
use crate::clock::AnimationTick;
use crate::grid::{in_grid, in_i32, Cell};
use crate::player::{GridTransform, NextGridTransform};
use vstd::prelude::*;

verus! {

/// Where a hazard starts and the offset it swings by.
#[derive(Clone, Copy, Debug, PartialEq, Eq, Structural)]
pub struct SpawnObstacle {
    pub pos: Cell,
    pub dir: Cell,
}

/// The height of the level in cells, which turns the level data's downward
/// y-axis of a hazard's target into the grid's upward one.
pub const LEVEL_HEIGHT: i32 = 64;

/// Whether both components of an offset can be negated within `i32`.
pub open spec fn negatable(d: Cell) -> bool {
    d.x > i32::MIN && d.y > i32::MIN
}

/// The swing offset of a hazard at `pos` whose level data names `move_to`.
pub open spec fn swing(pos: Cell, move_to: Option<Cell>) -> (int, int) {
    match move_to {
        Some(p) => (p.x - pos.x, LEVEL_HEIGHT - p.y - pos.y),
        None => (0, 0),
    }
}

impl SpawnObstacle {
    /// The hazard at `pos` that swings to the level data's point `move_to`
    /// (given with y counted downwards), or stays put when there is none.
    pub fn from_level(pos: Cell, move_to: Option<Cell>) -> (r: SpawnObstacle)
        requires
            move_to matches Some(p) ==> in_i32(LEVEL_HEIGHT - p.y) && in_grid(swing(pos, move_to)),
        ensures
            r.pos == pos,
            r.dir.pt() == swing(pos, move_to),
    {
        let dest = match move_to {
            Some(p) => Cell::new(p.x, LEVEL_HEIGHT - p.y),
            None => pos,
        };
        SpawnObstacle { pos, dir: dest.minus(pos) }
    }
}

/// A hazard: the offset of its next swing and where it started.
#[derive(Clone, Copy, Debug, PartialEq, Eq, Structural)]
pub struct Obstacle {
    pub dir: Cell,
    pub spawn: SpawnObstacle,
}

impl Obstacle {
    /// Both offsets can be negated.
    pub open spec fn wf(&self) -> bool {
        negatable(self.dir) && negatable(self.spawn.dir)
    }

    pub fn new(spawn: SpawnObstacle) -> (r: Obstacle)
        requires
            negatable(spawn.dir),
        ensures
            r.wf(),
            r.dir == spawn.dir,
            r.spawn == spawn,
    {
        Obstacle { dir: spawn.dir, spawn }
    }

    /// Reacts to a frame's tick starts: after an odd number of them the hazard
    /// heads for its current cell plus its offset, and the offset turns round.
    /// A reset puts it back where it started.
    pub fn movement(
        &mut self,
        grid: &mut GridTransform,
        next_grid: &mut NextGridTransform,
        ticks: usize,
        reset: bool,
    )
        requires
            old(self).wf(),
            ticks % 2 == 1 ==> in_grid(
                (old(grid).0.x + old(self).dir.x, old(grid).0.y + old(self).dir.y),
            ),
        ensures
            final(self).wf(),
            final(self).spawn == old(self).spawn,
            reset ==> {
                &&& final(self).dir == old(self).spawn.dir
                &&& final(grid).0 == old(self).spawn.pos
                &&& final(next_grid).0 == old(self).spawn.pos
            },
            !reset && ticks % 2 == 1 ==> {
                &&& final(self).dir.pt() == (-old(self).dir.x, -old(self).dir.y)
                &&& final(next_grid).0.pt() == (
                    old(grid).0.x + old(self).dir.x,
                    old(grid).0.y + old(self).dir.y,
                )
                &&& *final(grid) == *old(grid)
            },
            !reset && ticks % 2 == 0 ==> {
                &&& *final(self) == *old(self)
                &&& *final(grid) == *old(grid)
                &&& *final(next_grid) == *old(next_grid)
            },
    {
        if ticks % 2 == 1 {
            next_grid.0 = grid.0.plus(self.dir);
            self.dir = Cell::new(-self.dir.x, -self.dir.y);
        }
        if reset {
            self.dir = self.spawn.dir;
            grid.0 = self.spawn.pos;
            next_grid.0 = self.spawn.pos;
        }
    }
}

/// The frame of a hazard's four-frame animation at the clock's progress.
pub open spec fn hazard_frame_of(tick: AnimationTick) -> int {
    let f = if tick.duration_us == 0 {
        4
    } else {
        (4 * tick.elapsed_us) / (tick.duration_us as int)
    };
    if f < 3 {
        f
    } else {
        3
    }
}

/// The frame of a hazard's four-frame animation at the clock's progress.
pub fn hazard_frame(tick: &AnimationTick) -> (r: usize)
    requires
        tick.wf(),
    ensures
        r == hazard_frame_of(*tick),
{
    let f: u128 = if tick.duration_us == 0 {
        4
    } else {
        (4 * tick.elapsed_us as u128) / (tick.duration_us as u128)
    };
    if f < 3 {
        f as usize
    } else {
        3
    }
}

} // verus!
