//! The script interpreter: each tick it scans the script from its cursor for
//! the next command to play, looping at closing brackets and leaving a bracket
//! scope whose command cannot be played.
use crate::action::{validity, ScriptCommand};
use crate::animation::{AnimationModel, AnimationResource, PlayerAssets};
use crate::grid::{is_facing, Cell};
use crate::level::Level;
use vstd::prelude::*;

verus! {

/// The index of the opening bracket that matches a closing bracket standing
/// just after index `j - 1`, seen at bracket depth `depth`; 0 if there is none.
pub open spec fn open_match_from(seq: Seq<ScriptCommand>, j: int, depth: int) -> int
    decreases j,
{
    if j <= 0 {
        0
    } else {
        let k = j - 1;
        if seq[k] is CloseBracket {
            open_match_from(seq, k, depth + 1)
        } else if seq[k] is OpenBracket {
            if depth == 0 {
                k
            } else {
                open_match_from(seq, k, depth - 1)
            }
        } else {
            open_match_from(seq, k, depth)
        }
    }
}

/// The opening bracket that matches the closing bracket at `i`.
pub open spec fn matching_open(seq: Seq<ScriptCommand>, i: int) -> int {
    open_match_from(seq, i, 0)
}

/// The index just past the closing bracket that ends the scope holding index
/// `k`, seen at bracket depth `depth`, wrapped to the start; 0 if there is none.
pub open spec fn close_match_from(seq: Seq<ScriptCommand>, k: int, depth: int) -> int
    decreases seq.len() - k,
{
    if k < 0 || k >= seq.len() {
        0
    } else if seq[k] is OpenBracket {
        close_match_from(seq, k + 1, depth + 1)
    } else if seq[k] is CloseBracket {
        if depth == 0 {
            (k + 1) % (seq.len() as int)
        } else {
            close_match_from(seq, k + 1, depth - 1)
        }
    } else {
        close_match_from(seq, k + 1, depth)
    }
}

/// Where the scan resumes after the command at `i` could not be played: just
/// past the end of its enclosing scope.
pub open spec fn skip_scope(seq: Seq<ScriptCommand>, i: int) -> int {
    close_match_from(seq, i, 0)
}

/// What one tick of the interpreter finds.
pub enum ScanOutcome {
    /// The command at `index` is played; the cursor moves to `cursor`.
    Taken { index: int, cursor: int, anim: AnimationModel },
    /// The command at `index` cannot be played; the cursor moves to `cursor`.
    Blocked { index: int, cursor: int },
    /// No command was reached within the scan's bound; it stopped at `cursor`.
    Exhausted { cursor: int },
}

/// The scan from `cursor` that may visit at most `fuel` more slots.
pub open spec fn scan(
    level: Level,
    assets: PlayerAssets,
    seq: Seq<ScriptCommand>,
    pos: Cell,
    x_dir: int,
    cursor: int,
    fuel: nat,
) -> ScanOutcome
    decreases fuel,
{
    if fuel == 0 {
        ScanOutcome::Exhausted { cursor }
    } else {
        let n = seq.len() as int;
        let c = seq[cursor];
        if c is OpenBracket {
            scan(level, assets, seq, pos, x_dir, (cursor + 1) % n, (fuel - 1) as nat)
        } else if c is CloseBracket {
            scan(
                level,
                assets,
                seq,
                pos,
                x_dir,
                (matching_open(seq, cursor) + 1) % n,
                (fuel - 1) as nat,
            )
        } else {
            match validity(level, pos, c, x_dir, assets) {
                Some(a) => ScanOutcome::Taken { index: cursor, cursor: (cursor + 1) % n, anim: a },
                None => ScanOutcome::Blocked { index: cursor, cursor: skip_scope(seq, cursor) },
            }
        }
    }
}

/// How many slots the scan visits before it returns.
pub open spec fn scan_visits(
    level: Level,
    assets: PlayerAssets,
    seq: Seq<ScriptCommand>,
    pos: Cell,
    x_dir: int,
    cursor: int,
    fuel: nat,
) -> nat
    decreases fuel,
{
    if fuel == 0 {
        0
    } else {
        let n = seq.len() as int;
        let c = seq[cursor];
        if c is OpenBracket {
            1 + scan_visits(level, assets, seq, pos, x_dir, (cursor + 1) % n, (fuel - 1) as nat)
        } else if c is CloseBracket {
            1 + scan_visits(
                level,
                assets,
                seq,
                pos,
                x_dir,
                (matching_open(seq, cursor) + 1) % n,
                (fuel - 1) as nat,
            )
        } else {
            1
        }
    }
}

/// One tick of the interpreter on a script: the whole scan is bounded by the
/// script's length.
pub open spec fn interpret(
    level: Level,
    assets: PlayerAssets,
    seq: Seq<ScriptCommand>,
    pos: Cell,
    x_dir: int,
    cursor: int,
) -> ScanOutcome {
    scan(level, assets, seq, pos, x_dir, cursor, seq.len())
}

/// A matching opening bracket lies before the closing one (or is 0).
pub proof fn lemma_open_match_range(seq: Seq<ScriptCommand>, j: int, depth: int)
    requires
        j <= seq.len(),
    ensures
        0 <= open_match_from(seq, j, depth),
        j > 0 ==> open_match_from(seq, j, depth) < j,
    decreases j,
{
    if j > 0 {
        let k = j - 1;
        lemma_open_match_range(seq, k, depth + 1);
        lemma_open_match_range(seq, k, depth - 1);
        lemma_open_match_range(seq, k, depth);
    }
}

/// A command that the scan plays stands in the script, is no bracket, and its
/// check yields the gesture.
pub proof fn lemma_scan_taken(
    level: Level,
    assets: PlayerAssets,
    seq: Seq<ScriptCommand>,
    pos: Cell,
    x_dir: int,
    cursor: int,
    fuel: nat,
)
    requires
        0 <= cursor < seq.len(),
    ensures
        scan(level, assets, seq, pos, x_dir, cursor, fuel) matches ScanOutcome::Taken {
            index,
            anim,
            ..
        } ==> 0 <= index < seq.len() && !seq[index].is_bracket() && validity(
            level,
            pos,
            seq[index],
            x_dir,
            assets,
        ) == Some(anim),
    decreases fuel,
{
    if fuel > 0 {
        let n = seq.len() as int;
        lemma_open_match_range(seq, cursor, 0);
        if seq[cursor] is OpenBracket {
            lemma_scan_taken(level, assets, seq, pos, x_dir, (cursor + 1) % n, (fuel - 1) as nat);
        } else if seq[cursor] is CloseBracket {
            lemma_scan_taken(
                level,
                assets,
                seq,
                pos,
                x_dir,
                (matching_open(seq, cursor) + 1) % n,
                (fuel - 1) as nat,
            );
        }
    }
}

/// The interpreter stops: a tick visits at most as many script slots as the
/// script holds, however many scopes it loops over or skips.
pub proof fn lemma_scan_bounded(
    level: Level,
    assets: PlayerAssets,
    seq: Seq<ScriptCommand>,
    pos: Cell,
    x_dir: int,
    cursor: int,
    fuel: nat,
)
    ensures
        scan_visits(level, assets, seq, pos, x_dir, cursor, fuel) <= fuel,
    decreases fuel,
{
    if fuel > 0 {
        let n = seq.len() as int;
        lemma_scan_bounded(level, assets, seq, pos, x_dir, (cursor + 1) % n, (fuel - 1) as nat);
        lemma_scan_bounded(
            level,
            assets,
            seq,
            pos,
            x_dir,
            (matching_open(seq, cursor) + 1) % n,
            (fuel - 1) as nat,
        );
    }
}

/// A tick of the interpreter on a script of `n` slots visits at most `n`.
pub proof fn lemma_interpreter_terminates(
    level: Level,
    assets: PlayerAssets,
    seq: Seq<ScriptCommand>,
    pos: Cell,
    x_dir: int,
    cursor: int,
)
    ensures
        scan_visits(level, assets, seq, pos, x_dir, cursor, seq.len()) <= seq.len(),
{
    lemma_scan_bounded(level, assets, seq, pos, x_dir, cursor, seq.len());
}

/// Checking a command depends on the level only through its solid cells and
/// on the gestures only through their content.
pub proof fn lemma_validity_deterministic(
    l1: Level,
    l2: Level,
    a1: PlayerAssets,
    a2: PlayerAssets,
    pos: Cell,
    c: ScriptCommand,
    x_dir: int,
)
    requires
        l1.walls_view() == l2.walls_view(),
        same_gestures(a1, a2),
    ensures
        validity(l1, pos, c, x_dir, a1) == validity(l2, pos, c, x_dir, a2),
{
    let rs = c.resources(a1);
    assert(rs =~= c.resources(a2));
    lemma_first_valid_same(l1, l2, pos, rs, x_dir);
}

/// The first valid gesture is the same on levels with the same solid cells.
proof fn lemma_first_valid_same(l1: Level, l2: Level, pos: Cell, rs: Seq<AnimationModel>, x_dir: int)
    requires
        l1.walls_view() == l2.walls_view(),
    ensures
        crate::action::first_valid(l1, pos, rs, x_dir) == crate::action::first_valid(
            l2,
            pos,
            rs,
            x_dir,
        ),
    decreases rs.len(),
{
    if rs.len() > 0 {
        assert(crate::action::gesture_valid(l1, pos, rs[0], x_dir)
            == crate::action::gesture_valid(l2, pos, rs[0], x_dir));
        lemma_first_valid_same(l1, l2, pos, rs.drop_first(), x_dir);
    }
}

/// Two gesture catalogs hold the same gestures.
pub open spec fn same_gestures(a1: PlayerAssets, a2: PlayerAssets) -> bool {
    &&& a1.idle@ == a2.idle@
    &&& a1.walk@ == a2.walk@
    &&& a1.climb@ == a2.climb@
    &&& a1.drop@ == a2.drop@
    &&& a1.drop2@ == a2.drop2@
    &&& a1.jump@ == a2.jump@
    &&& a1.turn@ == a2.turn@
}

/// The interpreter is deterministic: the same script, cursor, position and
/// facing on levels with the same solid cells and with the same gestures give
/// the same outcome (index, gesture, cursor, and so facing).
pub proof fn lemma_interpreter_deterministic(
    l1: Level,
    l2: Level,
    a1: PlayerAssets,
    a2: PlayerAssets,
    seq: Seq<ScriptCommand>,
    pos: Cell,
    x_dir: int,
    cursor: int,
    fuel: nat,
)
    requires
        l1.walls_view() == l2.walls_view(),
        same_gestures(a1, a2),
    ensures
        scan(l1, a1, seq, pos, x_dir, cursor, fuel) == scan(l2, a2, seq, pos, x_dir, cursor, fuel),
    decreases fuel,
{
    if fuel > 0 {
        let n = seq.len() as int;
        lemma_validity_deterministic(l1, l2, a1, a2, pos, seq[cursor], x_dir);
        lemma_interpreter_deterministic(
            l1,
            l2,
            a1,
            a2,
            seq,
            pos,
            x_dir,
            (cursor + 1) % n,
            (fuel - 1) as nat,
        );
        lemma_interpreter_deterministic(
            l1,
            l2,
            a1,
            a2,
            seq,
            pos,
            x_dir,
            (matching_open(seq, cursor) + 1) % n,
            (fuel - 1) as nat,
        );
    }
}

/// The opening bracket that matches the closing bracket at `cursor`.
pub fn find_matching_open_bracket(sequence: &Vec<ScriptCommand>, cursor: usize) -> (r: usize)
    requires
        cursor < sequence@.len(),
    ensures
        r as int == matching_open(sequence@, cursor as int),
        r <= cursor,
{
    let ghost seq = sequence@;
    let mut depth: usize = 0;
    let mut j: usize = cursor;
    while j > 0
        invariant
            j <= cursor < seq.len(),
            seq == sequence@,
            depth <= cursor - j,
            open_match_from(seq, cursor as int, 0) == open_match_from(seq, j as int, depth as int),
        decreases j,
    {
        let k = j - 1;
        match sequence[k] {
            ScriptCommand::CloseBracket => {
                depth = depth + 1;
            },
            ScriptCommand::OpenBracket => {
                if depth == 0 {
                    return k;
                }
                depth = depth - 1;
            },
            _ => {},
        }
        j = k;
    }
    0
}

/// Just past the closing bracket that ends the scope holding `cursor`,
/// wrapped to the start; 0 if the scope is never closed.
pub fn find_matching_close_bracket(sequence: &Vec<ScriptCommand>, cursor: usize) -> (r: usize)
    requires
        cursor < sequence@.len(),
    ensures
        r as int == skip_scope(sequence@, cursor as int),
        r < sequence@.len(),
{
    let ghost seq = sequence@;
    let n = sequence.len();
    let mut depth: usize = 0;
    let mut k: usize = cursor;
    while k < n
        invariant
            cursor <= k <= n,
            n == seq.len(),
            seq == sequence@,
            depth <= k - cursor,
            skip_scope(seq, cursor as int) == close_match_from(seq, k as int, depth as int),
        decreases n - k,
    {
        match sequence[k] {
            ScriptCommand::OpenBracket => {
                depth = depth + 1;
            },
            ScriptCommand::CloseBracket => {
                if depth == 0 {
                    return (k + 1) % n;
                }
                depth = depth - 1;
            },
            _ => {},
        }
        k = k + 1;
    }
    0
}

} // verus!
