//! The script commands and the validity of a movement gesture on a level.
use crate::animation::{AnimationModel, AnimationResource, PlayerAssets};
use crate::grid::{in_grid, is_facing, Cell};
use crate::level::Level;
use vstd::prelude::*;

verus! {

/// One entry of a script: a movement primitive or a loop bracket.
#[derive(Clone, Copy, Debug, PartialEq, Eq, Structural)]
pub enum ScriptCommand {
    Walk,
    Climb,
    Drop,
    Idle,
    Turn,
    Jump,
    OpenBracket,
    CloseBracket,
}

impl ScriptCommand {
    /// Whether the command is one of the two structural brackets.
    pub open spec fn is_bracket(self) -> bool {
        self is OpenBracket || self is CloseBracket
    }

    /// The gestures that perform a movement command, in the order they are tried.
    pub open spec fn resources(self, assets: PlayerAssets) -> Seq<AnimationModel> {
        match self {
            ScriptCommand::Walk => seq![assets.walk@],
            ScriptCommand::Climb => seq![assets.climb@],
            ScriptCommand::Drop => seq![assets.drop@, assets.drop2@],
            ScriptCommand::Idle => seq![assets.idle@],
            ScriptCommand::Turn => seq![assets.turn@],
            ScriptCommand::Jump => seq![assets.jump@],
            _ => Seq::empty(),
        }
    }

    /// The gestures that perform this movement command, in the order they are tried.
    pub fn get_resource<'a>(self, assets: &'a PlayerAssets) -> (r: Vec<&'a AnimationResource>)
        requires
            !self.is_bracket(),
        ensures
            r@.len() == self.resources(*assets).len(),
            forall|i: int| 0 <= i < r@.len() ==> #[trigger] r@[i]@ == self.resources(*assets)[i],
            forall|i: int| 0 <= i < r@.len() ==> assets.has(*#[trigger] r@[i]),
    {
        match self {
            ScriptCommand::Walk => vec![&assets.walk],
            ScriptCommand::Climb => vec![&assets.climb],
            ScriptCommand::Drop => vec![&assets.drop, &assets.drop2],
            ScriptCommand::Idle => vec![&assets.idle],
            ScriptCommand::Turn => vec![&assets.turn],
            ScriptCommand::Jump => vec![&assets.jump],
            _ => Vec::new(),
        }
    }
}

/// The point that a gesture square covers from `pos` when facing `x_dir`.
pub open spec fn touched(pos: Cell, square: Cell, x_dir: int) -> (int, int) {
    (pos.x + x_dir * square.x, pos.y + square.y)
}

/// The displacement of a whole gesture: its last square mirrored, or zero.
pub open spec fn final_offset_of(a: AnimationModel, x_dir: int) -> (int, int) {
    if a.squares.len() == 0 {
        (0, 0)
    } else {
        a.squares.last().mirrored(x_dir)
    }
}

/// Where a gesture started at `pos` ends.
pub open spec fn landing(pos: Cell, a: AnimationModel, x_dir: int) -> (int, int) {
    let d = final_offset_of(a, x_dir);
    (pos.x + d.0, pos.y + d.1)
}

/// No square that the gesture passes through is solid.
pub open spec fn path_clear(level: Level, pos: Cell, a: AnimationModel, x_dir: int) -> bool {
    forall|i: int|
        0 <= i < a.squares.len() ==> !level.solid_at(#[trigger] touched(pos, a.squares[i], x_dir))
}

/// A cell of the grid with solid ground directly below it.
pub open spec fn grounded(level: Level, p: (int, int)) -> bool {
    in_grid(p) && level.solid_at((p.0, p.1 - 1))
}

/// A gesture may be played: its path is clear and it lands on solid ground.
pub open spec fn gesture_valid(level: Level, pos: Cell, a: AnimationModel, x_dir: int) -> bool {
    path_clear(level, pos, a, x_dir) && grounded(level, landing(pos, a, x_dir))
}

/// The first gesture of `rs` that may be played, if any.
pub open spec fn first_valid(level: Level, pos: Cell, rs: Seq<AnimationModel>, x_dir: int) -> Option<
    AnimationModel,
>
    decreases rs.len(),
{
    if rs.len() == 0 {
        None
    } else if gesture_valid(level, pos, rs[0], x_dir) {
        Some(rs[0])
    } else {
        first_valid(level, pos, rs.drop_first(), x_dir)
    }
}

/// What checking `action` at `pos` facing `x_dir` yields.
pub open spec fn validity(
    level: Level,
    pos: Cell,
    action: ScriptCommand,
    x_dir: int,
    assets: PlayerAssets,
) -> Option<AnimationModel> {
    first_valid(level, pos, action.resources(assets), x_dir)
}

/// The gesture that checking yields may be played and is one of those tried.
pub proof fn lemma_first_valid_sound(level: Level, pos: Cell, rs: Seq<AnimationModel>, x_dir: int)
    ensures
        first_valid(level, pos, rs, x_dir) matches Some(m) ==> gesture_valid(level, pos, m, x_dir)
            && rs.contains(m),
    decreases rs.len(),
{
    if rs.len() > 0 && !gesture_valid(level, pos, rs[0], x_dir) {
        lemma_first_valid_sound(level, pos, rs.drop_first(), x_dir);
        match first_valid(level, pos, rs, x_dir) {
            Some(m) => {
                let i = choose|i: int| 0 <= i < rs.drop_first().len() && rs.drop_first()[i] == m;
                assert(rs[i + 1] == m);
            },
            None => {},
        }
    } else if rs.len() > 0 {
        assert(rs[0] == rs[0]);
    }
}

/// A gesture that checking yields lands on a cell of the grid; a turn lands
/// where it started, whichever way the avatar faces afterwards.
pub proof fn lemma_validity_lands(
    level: Level,
    pos: Cell,
    action: ScriptCommand,
    x_dir: int,
    assets: PlayerAssets,
)
    requires
        assets.wf(),
    ensures
        validity(level, pos, action, x_dir, assets) matches Some(m) ==> {
            &&& gesture_valid(level, pos, m, x_dir)
            &&& in_grid(landing(pos, m, x_dir))
            &&& m.wf()
            &&& (action is Turn ==> m.squares.len() == 0 && landing(pos, m, -x_dir) == pos.pt())
        },
{
    let rs = action.resources(assets);
    lemma_first_valid_sound(level, pos, rs, x_dir);
    match validity(level, pos, action, x_dir, assets) {
        Some(m) => {
            let i = choose|i: int| 0 <= i < rs.len() && rs[i] == m;
            assert(rs[i] == m);
        },
        None => {},
    }
}

/// A stationary command (`Idle` or `Turn`) of the catalog may be played
/// exactly when the cell below the avatar is solid; no path is scanned.
pub proof fn lemma_stationary_rule(
    level: Level,
    pos: Cell,
    action: ScriptCommand,
    x_dir: int,
    assets: PlayerAssets,
)
    requires
        assets.is_catalog(),
        action is Idle || action is Turn,
    ensures
        validity(level, pos, action, x_dir, assets) is Some <==> level.solid_at((pos.x as int, pos.y - 1)),
{
    let rs = action.resources(assets);
    let g = rs[0];
    assert(g.squares.len() == 0);
    assert(landing(pos, g, x_dir) == (pos.x as int, pos.y as int));
    assert(path_clear(level, pos, g, x_dir));
    assert(in_grid((pos.x as int, pos.y as int)));
    assert(gesture_valid(level, pos, g, x_dir) <==> level.solid_at((pos.x as int, pos.y - 1)));
    assert(rs.drop_first().len() == 0);
    assert(first_valid(level, pos, rs.drop_first(), x_dir) is None);
}

/// Validity of a movement command: the gesture it yields passes only through
/// cells that are not solid, with each square's x mirrored by the facing, and
/// lands with solid ground below. A command with a single gesture is valid
/// exactly when that gesture meets both conditions.
pub proof fn lemma_validity_rule(
    level: Level,
    pos: Cell,
    action: ScriptCommand,
    x_dir: int,
    assets: PlayerAssets,
)
    requires
        !action.is_bracket(),
    ensures
        validity(level, pos, action, x_dir, assets) matches Some(m) ==> {
            &&& forall|i: int|
                0 <= i < m.squares.len() ==> !level.solid_at(
                    (pos.x + x_dir * m.squares[i].x, pos.y + m.squares[i].y),
                )
            &&& level.solid_at(
                (landing(pos, m, x_dir).0, landing(pos, m, x_dir).1 - 1),
            )
        },
        action.resources(assets).len() == 1 ==> (validity(level, pos, action, x_dir, assets) is Some
            <==> gesture_valid(level, pos, action.resources(assets)[0], x_dir)),
{
    let rs = action.resources(assets);
    lemma_first_valid_sound(level, pos, rs, x_dir);
    match validity(level, pos, action, x_dir, assets) {
        Some(m) => {
            assert forall|i: int| 0 <= i < m.squares.len() implies !level.solid_at(
                (pos.x + x_dir * m.squares[i].x, pos.y + m.squares[i].y),
            ) by {
                assert(touched(pos, m.squares[i], x_dir) == (
                    pos.x + x_dir * m.squares[i].x,
                    pos.y + m.squares[i].y,
                ));
            }
        },
        None => {},
    }
    if rs.len() == 1 {
        assert(rs.drop_first().len() == 0);
    }
}

/// Turning the facing round mirrors every square a gesture passes through, and
/// its displacement, in x about the start cell; y is never mirrored.
pub proof fn lemma_mirror(pos: Cell, a: AnimationModel, x_dir: int)
    requires
        x_dir == 1 || x_dir == -1,
    ensures
        forall|i: int|
            0 <= i < a.squares.len() ==> #[trigger] touched(pos, a.squares[i], -x_dir) == (
                2 * pos.x - touched(pos, a.squares[i], x_dir).0,
                touched(pos, a.squares[i], x_dir).1,
            ),
        final_offset_of(a, -x_dir) == (
            -final_offset_of(a, x_dir).0,
            final_offset_of(a, x_dir).1,
        ),
{
    assert forall|i: int| 0 <= i < a.squares.len() implies #[trigger] touched(
        pos,
        a.squares[i],
        -x_dir,
    ) == (2 * pos.x - touched(pos, a.squares[i], x_dir).0, touched(pos, a.squares[i], x_dir).1) by {
        let sq = a.squares[i];
        assert((-x_dir) * sq.x == -(x_dir * sq.x)) by (nonlinear_arith);
    }
    if a.squares.len() > 0 {
        let sq = a.squares.last();
        assert((-x_dir) * sq.x == -(x_dir * sq.x)) by (nonlinear_arith);
    }
}

impl Level {
    /// Whether the gesture `anim` may be played from `pos` facing `x_dir`.
    pub fn gesture_fits(&self, pos: Cell, anim: &AnimationResource, x_dir: i32) -> (r: bool)
        requires
            is_facing(x_dir),
            anim.wf(),
        ensures
            r == gesture_valid(*self, pos, anim@, x_dir as int),
    {
        let n = anim.squares.len();
        let mut i: usize = 0;
        while i < n
            invariant
                n == anim.squares@.len(),
                i <= n,
                is_facing(x_dir),
                forall|j: int|
                    0 <= j < i ==> !self.solid_at(
                        #[trigger] touched(pos, anim.squares@[j], x_dir as int),
                    ),
            decreases n - i,
        {
            let sq = anim.squares[i];
            let dx: i64 = if x_dir == 1 {
                sq.x as i64
            } else {
                -(sq.x as i64)
            };
            if self.solid_i64(pos.x as i64 + dx, pos.y as i64 + sq.y as i64) {
                assert(touched(pos, anim.squares@[i as int], x_dir as int) == (
                    pos.x + dx,
                    pos.y + sq.y,
                ));
                return false;
            }
            i = i + 1;
        }
        let d = anim.final_offset(x_dir);
        let lx: i64 = pos.x as i64 + d.x as i64;
        let ly: i64 = pos.y as i64 + d.y as i64;
        if lx < i32::MIN as i64 || lx > i32::MAX as i64 || ly < i32::MIN as i64 || ly > i32::MAX
            as i64 {
            return false;
        }
        self.solid_i64(lx, ly - 1)
    }

    /// The gesture that performs `action` from `pos` facing `x_dir`: the first
    /// of its gestures whose path is clear and that lands on solid ground.
    pub fn check_valid(&self, pos: Cell, action: ScriptCommand, x_dir: i32, assets: &PlayerAssets) -> (r:
        Option<AnimationResource>)
        requires
            is_facing(x_dir),
            !action.is_bracket(),
            assets.wf(),
        ensures
            r is None <==> validity(*self, pos, action, x_dir as int, *assets) is None,
            r is Some ==> validity(*self, pos, action, x_dir as int, *assets) == Some(r->0@),
            r is Some ==> r->0.wf(),
    {
        let anims = action.get_resource(assets);
        let ghost rs = action.resources(*assets);
        let n = anims.len();
        let mut i: usize = 0;
        assert(rs.skip(0) =~= rs);
        while i < n
            invariant
                n == anims@.len(),
                n == rs.len(),
                i <= n,
                is_facing(x_dir),
                assets.wf(),
                rs == action.resources(*assets),
                forall|j: int| 0 <= j < n ==> #[trigger] anims@[j]@ == rs[j],
                forall|j: int| 0 <= j < n ==> assets.has(*#[trigger] anims@[j]),
                first_valid(*self, pos, rs, x_dir as int) == first_valid(
                    *self,
                    pos,
                    rs.skip(i as int),
                    x_dir as int,
                ),
            decreases n - i,
        {
            let anim = anims[i];
            proof {
                assert(assets.has(*anims@[i as int]));
                assert(rs.skip(i as int)[0] == rs[i as int]);
                assert(rs.skip(i as int).drop_first() =~= rs.skip(i + 1));
            }
            if self.gesture_fits(pos, anim, x_dir) {
                return Some(anim.duplicate());
            }
            i = i + 1;
        }
        proof {
            assert(rs.skip(n as int).len() == 0);
        }
        None
    }
}

} // verus!
