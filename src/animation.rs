//! The gesture catalog: for each animation, the squares it passes through,
//! its duration and where its frames lie in the sprite sheet.
use crate::grid::{is_facing, Cell};
use vstd::prelude::*;

verus! {

/// The mathematical content of an `AnimationResource`.
pub struct AnimationModel {
    pub squares: Seq<Cell>,
    pub duration_us: u64,
    pub frame_count: usize,
    pub row_number: usize,
}

/// One gesture: the squares it passes through, relative to its start and in
/// travel order for a right-facing avatar, and how it is shown.
pub struct AnimationResource {
    pub squares: Vec<Cell>,
    /// Duration in microseconds.
    pub duration_us: u64,
    /// Frames of the gesture in its sheet row.
    pub frame_count: usize,
    /// Row of the sprite sheet holding its frames.
    pub row_number: usize,
}

/// Columns of the avatar's sprite sheet.
pub const ANIM_COLUMNS: usize = 16;

/// Rows of the avatar's sprite sheet.
pub const ANIM_ROWS: usize = 8;

impl View for AnimationResource {
    type V = AnimationModel;

    open spec fn view(&self) -> AnimationModel {
        AnimationModel {
            squares: self.squares@,
            duration_us: self.duration_us,
            frame_count: self.frame_count,
            row_number: self.row_number,
        }
    }
}

impl AnimationModel {
    /// Every square mirrors within `i32` and the frames lie in the sheet.
    pub open spec fn wf(self) -> bool {
        &&& forall|i: int| 0 <= i < self.squares.len() ==> (#[trigger] self.squares[i]).mirrorable()
        &&& self.row_number < ANIM_ROWS
        &&& self.frame_count <= ANIM_COLUMNS
    }
}

impl AnimationResource {
    pub open spec fn wf(&self) -> bool {
        self@.wf()
    }

    /// A gesture through `squares`, drawn from `frame_count` frames of sheet row `row_number`.
    pub fn new(squares: Vec<Cell>, duration_us: u64, frame_count: usize, row_number: usize) -> (r:
        AnimationResource)
        requires
            forall|i: int| 0 <= i < squares@.len() ==> (#[trigger] squares@[i]).mirrorable(),
            row_number < ANIM_ROWS,
            frame_count <= ANIM_COLUMNS,
        ensures
            r@ == (AnimationModel { squares: squares@, duration_us, frame_count, row_number }),
            r.wf(),
    {
        AnimationResource { squares, duration_us, frame_count, row_number }
    }

    /// A copy with the same content.
    pub fn duplicate(&self) -> (r: AnimationResource)
        ensures
            r@ == self@,
    {
        let mut squares: Vec<Cell> = Vec::new();
        let mut i: usize = 0;
        while i < self.squares.len()
            invariant
                i <= self.squares@.len(),
                squares@ == self.squares@.subrange(0, i as int),
            decreases self.squares@.len() - i,
        {
            squares.push(self.squares[i]);
            i = i + 1;
            assert(squares@ =~= self.squares@.subrange(0, i as int));
        }
        assert(squares@ =~= self.squares@);
        AnimationResource {
            squares,
            duration_us: self.duration_us,
            frame_count: self.frame_count,
            row_number: self.row_number,
        }
    }

    /// The displacement of the whole gesture when facing `x_dir`: its last
    /// square mirrored, or zero for a stationary gesture.
    pub fn final_offset(&self, x_dir: i32) -> (r: Cell)
        requires
            is_facing(x_dir),
            self.wf(),
        ensures
            r.pt() == crate::action::final_offset_of(self@, x_dir as int),
    {
        let n = self.squares.len();
        if n == 0 {
            Cell::zero()
        } else {
            let last = self.squares[n - 1];
            assert(self.squares@[n - 1] == self.squares@.last());
            assert(self@.squares[n - 1].mirrorable());
            last.mirror(x_dir)
        }
    }
}

/// The sprite-sheet frame of a gesture at the clock's progress: its row's
/// start plus the share of its frames that has elapsed; frame 0 when idle.
pub open spec fn frame_of(anim: Option<AnimationModel>, elapsed_us: u64, duration_us: u64) -> int {
    match anim {
        None => 0,
        Some(a) => a.row_number * ANIM_COLUMNS + if duration_us == 0 {
            a.frame_count as int
        } else {
            (elapsed_us * a.frame_count) / (duration_us as int)
        },
    }
}

/// The sprite-sheet frame of the playing gesture (see `frame_of`).
pub fn frame_index(anim: &Option<AnimationResource>, tick: &crate::clock::AnimationTick) -> (r: usize)
    requires
        tick.wf(),
        anim matches Some(a) ==> a.wf(),
    ensures
        r == frame_of(
            match anim {
                Some(a) => Some(a@),
                None => None,
            },
            tick.elapsed_us,
            tick.duration_us,
        ),
{
    match anim {
        None => 0,
        Some(a) => {
            assert(tick.elapsed_us * a.frame_count <= 0xffff_ffff_ffff_ffff * 16) by (nonlinear_arith)
                requires
                    tick.elapsed_us <= 0xffff_ffff_ffff_ffff,
                    a.frame_count <= 16,
            ;
            let within: u128 = if tick.duration_us == 0 {
                a.frame_count as u128
            } else {
                (tick.elapsed_us as u128 * a.frame_count as u128) / (tick.duration_us as u128)
            };
            proof {
                if tick.duration_us > 0 {
                    assert(tick.elapsed_us * a.frame_count <= tick.duration_us * a.frame_count)
                        by (nonlinear_arith)
                        requires
                            tick.elapsed_us <= tick.duration_us,
                    ;
                    assert((tick.elapsed_us * a.frame_count) / (tick.duration_us as int)
                        <= a.frame_count) by (nonlinear_arith)
                        requires
                            tick.elapsed_us * a.frame_count <= tick.duration_us * a.frame_count,
                            tick.duration_us > 0,
                    ;
                }
            }
            a.row_number * ANIM_COLUMNS + within as usize
        },
    }
}

/// The avatar's gestures.
pub struct PlayerAssets {
    pub idle: AnimationResource,
    pub walk: AnimationResource,
    pub climb: AnimationResource,
    pub drop: AnimationResource,
    pub drop2: AnimationResource,
    pub jump: AnimationResource,
    pub turn: AnimationResource,
}

/// Duration of every gesture of the catalog, in microseconds.
pub const GESTURE_US: u64 = 800_000;

/// The squares of the catalog's gestures, facing right.
pub open spec fn walk_squares() -> Seq<(int, int)> {
    seq![(1, 0)]
}

pub open spec fn climb_squares() -> Seq<(int, int)> {
    seq![(0, 1), (1, 1)]
}

pub open spec fn drop_squares() -> Seq<(int, int)> {
    seq![(1, 0), (1, -1)]
}

pub open spec fn long_drop_squares() -> Seq<(int, int)> {
    seq![(1, 0), (1, -1), (1, -2)]
}

pub open spec fn jump_squares() -> Seq<(int, int)> {
    seq![(1, 0), (0, 1), (1, 1), (2, 1)]
}

/// The points of a list of cells.
pub open spec fn points(s: Seq<Cell>) -> Seq<(int, int)> {
    s.map_values(|c: Cell| c.pt())
}

impl PlayerAssets {
    /// All gestures are well formed, and a turn happens in place.
    pub open spec fn wf(&self) -> bool {
        &&& self.turn.squares@.len() == 0
        &&& self.idle.wf()
        &&& self.walk.wf()
        &&& self.climb.wf()
        &&& self.drop.wf()
        &&& self.drop2.wf()
        &&& self.jump.wf()
        &&& self.turn.wf()
    }

    /// `a` is one of the gestures.
    pub open spec fn has(&self, a: AnimationResource) -> bool {
        ||| a == self.idle
        ||| a == self.walk
        ||| a == self.climb
        ||| a == self.drop
        ||| a == self.drop2
        ||| a == self.jump
        ||| a == self.turn
    }

    /// The gestures hold the catalog's squares and durations.
    pub open spec fn is_catalog(&self) -> bool {
        &&& self.idle.squares@.len() == 0
        &&& self.turn.squares@.len() == 0
        &&& points(self.walk.squares@) == walk_squares()
        &&& points(self.climb.squares@) == climb_squares()
        &&& points(self.drop.squares@) == drop_squares()
        &&& points(self.drop2.squares@) == long_drop_squares()
        &&& points(self.jump.squares@) == jump_squares()
        &&& self.idle.duration_us == GESTURE_US
        &&& self.walk.duration_us == GESTURE_US
        &&& self.climb.duration_us == GESTURE_US
        &&& self.drop.duration_us == GESTURE_US
        &&& self.drop2.duration_us == GESTURE_US
        &&& self.jump.duration_us == GESTURE_US
        &&& self.turn.duration_us == GESTURE_US
    }

    /// Each gesture's frame count and sprite-sheet row.
    pub open spec fn is_sheet(&self) -> bool {
        &&& self.idle.frame_count == 4 && self.idle.row_number == 0
        &&& self.walk.frame_count == 12 && self.walk.row_number == 1
        &&& self.climb.frame_count == 10 && self.climb.row_number == 2
        &&& self.turn.frame_count == 7 && self.turn.row_number == 3
        &&& self.drop.frame_count == 11 && self.drop.row_number == 4
        &&& self.drop2.frame_count == 12 && self.drop2.row_number == 5
        &&& self.jump.frame_count == 13 && self.jump.row_number == 6
    }

    /// The avatar's gesture catalog.
    pub fn new() -> (r: PlayerAssets)
        ensures
            r.wf(),
            r.is_catalog(),
            r.is_sheet(),
    {
        let up = Cell::up();
        let right = Cell::right();
        let ur = Cell::new(1, 1);
        let dr = Cell::new(1, -1);
        let ddr = Cell::new(1, -2);
        let uur = Cell::new(2, 1);
        let r = PlayerAssets {
            idle: AnimationResource::new(vec![], GESTURE_US, 4, 0),
            walk: AnimationResource::new(vec![right], GESTURE_US, 12, 1),
            climb: AnimationResource::new(vec![up, ur], GESTURE_US, 10, 2),
            turn: AnimationResource::new(vec![], GESTURE_US, 7, 3),
            drop: AnimationResource::new(vec![right, dr], GESTURE_US, 11, 4),
            drop2: AnimationResource::new(vec![right, dr, ddr], GESTURE_US, 12, 5),
            jump: AnimationResource::new(vec![right, up, ur, uur], GESTURE_US, 13, 6),
        };
        assert(points(r.walk.squares@) =~= walk_squares());
        assert(points(r.climb.squares@) =~= climb_squares());
        assert(points(r.drop.squares@) =~= drop_squares());
        assert(points(r.drop2.squares@) =~= long_drop_squares());
        assert(points(r.jump.squares@) =~= jump_squares());
        r
    }
}

} // verus!
