//! The level: its solid cells, its checkpoints and the player's progress.
use crate::action::ScriptCommand;
use crate::collections::{CellSet, Unlock, UnlockMap, UnlockTable};
use crate::grid::{in_grid, Cell};
use vstd::prelude::*;
use vstd::string::StrSliceExecFns;

verus! {

/// The static geometry of a level and the progress made in it.
pub struct Level {
    /// The solid cells.
    pub walls: CellSet,
    /// The checkpoints and what each grants.
    pub unlocks: UnlockMap,
    /// The commands the player may use.
    pub unlocked: Vec<ScriptCommand>,
    /// The longest script the player may submit.
    pub command_count: usize,
    /// Where the avatar respawns.
    pub last_checkpoint: Cell,
}

/// A checkpoint as the level data gives it.
#[derive(Clone, Copy, Debug)]
pub struct CheckpointRecord {
    pub cell: Cell,
    pub unlock: Option<ScriptCommand>,
    /// The command budget it grants; a negative count grants nothing.
    pub command_count: i32,
}

impl Level {
    /// The solid cells.
    pub open spec fn walls_view(&self) -> Set<(i32, i32)> {
        self.walls@
    }

    /// The checkpoints and what each grants.
    pub open spec fn unlocks_view(&self) -> Map<(i32, i32), Unlock> {
        self.unlocks@
    }

    /// Whether the point is a solid cell; points off the grid are open air.
    pub open spec fn solid_at(&self, p: (int, int)) -> bool {
        in_grid(p) && self.walls_view().contains((p.0 as i32, p.1 as i32))
    }

    /// Whether the cell is a checkpoint.
    pub open spec fn checkpoint_at(&self, c: Cell) -> bool {
        self.unlocks_view().contains_key((c.x, c.y))
    }

    /// Check whether the position is solid terrain.
    pub fn is_solid(&self, pos: Cell) -> (r: bool)
        ensures
            r == self.solid_at(pos.pt()),
    {
        self.walls.contains((pos.x, pos.y))
    }

    /// Whether the point `(x, y)` is solid terrain.
    pub fn solid_i64(&self, x: i64, y: i64) -> (r: bool)
        ensures
            r == self.solid_at((x as int, y as int)),
    {
        if x < i32::MIN as i64 || x > i32::MAX as i64 || y < i32::MIN as i64 || y > i32::MAX as i64 {
            false
        } else {
            self.walls.contains((x as i32, y as i32))
        }
    }

    /// Check whether the position is a checkpoint.
    pub fn is_checkpoint(&self, pos: Cell) -> (r: bool)
        ensures
            r == self.checkpoint_at(pos),
    {
        self.unlocks.contains_key((pos.x, pos.y))
    }

    /// What the checkpoint at `pos` grants, if `pos` is a checkpoint.
    pub fn unlock_info(&self, pos: Cell) -> (r: Option<Unlock>)
        ensures
            self.checkpoint_at(pos) ==> r == Some(self.unlocks_view()[(pos.x, pos.y)]),
            !self.checkpoint_at(pos) ==> r is None,
    {
        self.unlocks.get((pos.x, pos.y))
    }

    pub fn get_spawn(&self) -> (r: Cell)
        ensures
            r == self.last_checkpoint,
    {
        self.last_checkpoint
    }

    /// Replaces the level's geometry with the given walls and checkpoints and,
    /// where `start` is given, sets the respawn cell to it.
    pub fn load(&mut self, walls: &Vec<Cell>, checkpoints: &Vec<CheckpointRecord>, start: Option<Cell>)
        ensures
            forall|p: (i32, i32)|
                final(self).walls_view().contains(p) <==> exists|i: int|
                    0 <= i < walls@.len() && (#[trigger] walls@[i]) == (Cell { x: p.0, y: p.1 }),
            final(self).unlocks_view() == records_map(checkpoints@),
            final(self).unlocked == old(self).unlocked,
            final(self).command_count == old(self).command_count,
            final(self).last_checkpoint == (match start {
                Some(s) => s,
                None => old(self).last_checkpoint,
            }),
    {
        let mut cells = CellSet::empty();
        let mut i: usize = 0;
        while i < walls.len()
            invariant
                i <= walls@.len(),
                forall|p: (i32, i32)|
                    cells@.contains(p) <==> exists|j: int|
                        0 <= j < i && (#[trigger] walls@[j]) == (Cell { x: p.0, y: p.1 }),
            decreases walls@.len() - i,
        {
            let w = walls[i];
            let ghost before = cells@;
            cells.insert((w.x, w.y));
            proof {
                assert forall|p: (i32, i32)|
                    cells@.contains(p) <==> exists|j: int|
                        0 <= j < i + 1 && (#[trigger] walls@[j]) == (Cell { x: p.0, y: p.1 }) by {
                    if cells@.contains(p) {
                        if p == (w.x, w.y) {
                            assert(walls@[i as int] == (Cell { x: p.0, y: p.1 }));
                        } else {
                            assert(before.contains(p));
                            let j = choose|j: int|
                                0 <= j < i && (#[trigger] walls@[j]) == (Cell { x: p.0, y: p.1 });
                            assert(0 <= j < i + 1 && walls@[j] == (Cell { x: p.0, y: p.1 }));
                        }
                    }
                    if exists|j: int|
                        0 <= j < i + 1 && (#[trigger] walls@[j]) == (Cell { x: p.0, y: p.1 }) {
                        let j = choose|j: int|
                            0 <= j < i + 1 && (#[trigger] walls@[j]) == (Cell { x: p.0, y: p.1 });
                        if j < i {
                            assert(before.contains(p));
                        } else {
                            assert(p == (w.x, w.y));
                        }
                    }
                }
            }
            i = i + 1;
        }
        let mut unlocks = UnlockMap::empty();
        let mut k: usize = 0;
        while k < checkpoints.len()
            invariant
                k <= checkpoints@.len(),
                unlocks@ == records_map(checkpoints@.subrange(0, k as int)),
            decreases checkpoints@.len() - k,
        {
            let c = checkpoints[k];
            let budget: usize = if c.command_count < 0 {
                0
            } else {
                c.command_count as usize
            };
            unlocks.insert((c.cell.x, c.cell.y), (c.unlock, budget));
            proof {
                let s = checkpoints@.subrange(0, k + 1);
                assert(s.drop_last() =~= checkpoints@.subrange(0, k as int));
            }
            k = k + 1;
        }
        assert(checkpoints@.subrange(0, checkpoints@.len() as int) =~= checkpoints@);
        self.walls = cells;
        self.unlocks = unlocks;
        match start {
            Some(s) => {
                self.last_checkpoint = s;
            },
            None => {},
        }
    }
}

/// The budget a checkpoint record grants: its count, or zero when negative.
pub open spec fn record_budget(r: CheckpointRecord) -> usize {
    if r.command_count < 0 {
        0
    } else {
        r.command_count as usize
    }
}

/// The checkpoint table that a list of records gives; a later record of the
/// same cell replaces an earlier one.
pub open spec fn records_map(rs: Seq<CheckpointRecord>) -> Map<(i32, i32), Unlock>
    decreases rs.len(),
{
    if rs.len() == 0 {
        Map::empty()
    } else {
        let r = rs.last();
        records_map(rs.drop_last()).insert((r.cell.x, r.cell.y), (r.unlock, record_budget(r)))
    }
}

/// The command that a checkpoint's unlock name stands for; `Brackets`
/// unlocks both brackets through the opening one.
pub open spec fn unlock_named(name: Seq<char>) -> Option<ScriptCommand> {
    if name == "Walk"@ {
        Some(ScriptCommand::Walk)
    } else if name == "Climb"@ {
        Some(ScriptCommand::Climb)
    } else if name == "Idle"@ {
        Some(ScriptCommand::Idle)
    } else if name == "Jump"@ {
        Some(ScriptCommand::Jump)
    } else if name == "Drop"@ {
        Some(ScriptCommand::Drop)
    } else if name == "Turn"@ {
        Some(ScriptCommand::Turn)
    } else if name == "Brackets"@ {
        Some(ScriptCommand::OpenBracket)
    } else {
        None
    }
}

/// Whether two strings hold the same characters.
pub fn same_text(a: &str, b: &str) -> (r: bool)
    ensures
        r == (a@ == b@),
{
    let n = a.unicode_len();
    if n != b.unicode_len() {
        return false;
    }
    let mut i: usize = 0;
    while i < n
        invariant
            n == a@.len(),
            n == b@.len(),
            i <= n,
            forall|j: int| 0 <= j < i ==> a@[j] == b@[j],
        decreases n - i,
    {
        if a.get_char(i) != b.get_char(i) {
            return false;
        }
        i = i + 1;
    }
    assert(a@ =~= b@);
    true
}

/// The command that a checkpoint's unlock name stands for, if the name is known.
pub fn unlock_from_name(name: &str) -> (r: Option<ScriptCommand>)
    ensures
        r == unlock_named(name@),
{
    if same_text(name, "Walk") {
        Some(ScriptCommand::Walk)
    } else if same_text(name, "Climb") {
        Some(ScriptCommand::Climb)
    } else if same_text(name, "Idle") {
        Some(ScriptCommand::Idle)
    } else if same_text(name, "Jump") {
        Some(ScriptCommand::Jump)
    } else if same_text(name, "Drop") {
        Some(ScriptCommand::Drop)
    } else if same_text(name, "Turn") {
        Some(ScriptCommand::Turn)
    } else if same_text(name, "Brackets") {
        Some(ScriptCommand::OpenBracket)
    } else {
        None
    }
}

/// The progress a player has made in a level.
pub struct ProgressModel {
    pub last_checkpoint: Cell,
    pub unlocked: Seq<ScriptCommand>,
    pub command_count: nat,
}

/// What standing on a checkpoint reports.
#[derive(Clone, Copy, Debug, PartialEq, Eq)]
pub struct CheckpointOutcome {
    /// A checkpoint other than the current respawn cell was reached.
    pub reached: bool,
    /// The command it unlocked, when that command was not yet unlocked.
    pub unlocked: Option<ScriptCommand>,
}

/// Progress after standing on `pos`: a checkpoint other than the current
/// respawn cell becomes the respawn cell, adds its command to the unlocked
/// ones (once) and raises the command budget to what it grants.
pub open spec fn reach(p: ProgressModel, table: Map<(i32, i32), Unlock>, pos: Cell) -> ProgressModel {
    if table.contains_key((pos.x, pos.y)) && p.last_checkpoint != pos {
        let (unlock, count) = table[(pos.x, pos.y)];
        let unlocked = match unlock {
            Some(c) => if p.unlocked.contains(c) {
                p.unlocked
            } else {
                p.unlocked.push(c)
            },
            None => p.unlocked,
        };
        ProgressModel {
            last_checkpoint: pos,
            unlocked,
            command_count: if count > p.command_count {
                count as nat
            } else {
                p.command_count
            },
        }
    } else {
        p
    }
}

/// Standing on the same checkpoint again, with no other checkpoint in
/// between, changes nothing: not the respawn cell, not the unlocked commands,
/// not the command budget.
pub proof fn lemma_reach_idempotent(p: ProgressModel, table: Map<(i32, i32), Unlock>, pos: Cell)
    ensures
        reach(reach(p, table, pos), table, pos) == reach(p, table, pos),
{
}

impl Level {
    /// The progress recorded in the level.
    pub open spec fn progress(&self) -> ProgressModel {
        ProgressModel {
            last_checkpoint: self.last_checkpoint,
            unlocked: self.unlocked@,
            command_count: self.command_count as nat,
        }
    }

    /// Records standing on `pos` (see `reach`).
    pub fn reach_checkpoint(&mut self, pos: Cell) -> (r: CheckpointOutcome)
        ensures
            final(self).progress() == reach(old(self).progress(), old(self).unlocks_view(), pos),
            final(self).walls == old(self).walls,
            final(self).unlocks == old(self).unlocks,
            r.reached == (old(self).checkpoint_at(pos) && old(self).last_checkpoint != pos),
            r.unlocked matches Some(c) ==> r.reached && !old(self).unlocked@.contains(c)
                && final(self).unlocked@ == old(self).unlocked@.push(c),
            r.unlocked is None ==> final(self).unlocked == old(self).unlocked,
    {
        if !(self.is_checkpoint(pos) && self.last_checkpoint != pos) {
            return CheckpointOutcome { reached: false, unlocked: None };
        }
        self.last_checkpoint = pos;
        let mut newly: Option<ScriptCommand> = None;
        match self.unlocks.get((pos.x, pos.y)) {
            Some((new_unlock, command_count)) => {
                if let Some(script_command) = new_unlock {
                    if !crate::editor::contains_command(&self.unlocked, script_command) {
                        self.unlocked.push(script_command);
                        newly = Some(script_command);
                    }
                }
                if command_count > self.command_count {
                    self.command_count = command_count;
                }
            },
            None => {},
        }
        CheckpointOutcome { reached: true, unlocked: newly }
    }
}

impl Default for Level {
    /// An empty level where only `Walk` is unlocked, with a budget of one command.
    fn default() -> (r: Level)
        ensures
            r.walls_view() == Set::<(i32, i32)>::empty(),
            r.unlocks_view() == UnlockTable::empty(),
            r.unlocked@ == seq![ScriptCommand::Walk],
            r.command_count == 1,
            r.last_checkpoint == (Cell { x: 0, y: 0 }),
    {
        Level {
            walls: CellSet::empty(),
            unlocks: UnlockMap::empty(),
            last_checkpoint: Cell::zero(),
            unlocked: vec![ScriptCommand::Walk],
            command_count: 1,
        }
    }
}

} // verus!
