//! The player's avatar: its facing, its script and the gesture it plays.
use crate::action::{landing, validity, ScriptCommand};
use crate::animation::{AnimationModel, AnimationResource, PlayerAssets};
use crate::clock::{restarted, AnimationTick, IDLE_TICK_US};
use crate::grid::{is_facing, Cell};
use crate::interpreter::{
    find_matching_close_bracket, find_matching_open_bracket, interpret, matching_open, scan,
    skip_scope, ScanOutcome,
};
use crate::editor::EditorState;
use crate::level::{reach, Level};
use vstd::prelude::*;

verus! {

/// The avatar's resting cell.
#[derive(Clone, Copy, Debug, PartialEq, Eq, Structural)]
pub struct GridTransform(pub Cell);

/// The cell the avatar's current gesture ends on.
#[derive(Clone, Copy, Debug, PartialEq, Eq, Structural)]
pub struct NextGridTransform(pub Cell);

/// The avatar's state.
pub struct PlayerState {
    /// The facing, 1 or -1.
    pub x_dir: i32,
    /// The gesture being played, if any.
    pub animation: Option<AnimationResource>,
    /// The submitted script.
    pub sequence: Vec<ScriptCommand>,
    /// The next script index to run.
    pub cursor: usize,
    /// Whether the script runs without being stepped by hand.
    pub autoplay: bool,
}

impl PlayerState {
    /// The facing is one of the two directions, the cursor lies in the script
    /// (or is 0 for an empty one) and the playing gesture is well formed.
    pub open spec fn wf(&self) -> bool {
        &&& is_facing(self.x_dir)
        &&& if self.sequence@.len() == 0 {
            self.cursor == 0
        } else {
            self.cursor < self.sequence@.len()
        }
        &&& (self.animation matches Some(a) ==> a.wf())
    }

    /// An avatar facing right, with no script, in autoplay.
    pub fn new() -> (r: PlayerState)
        ensures
            r.wf(),
            r.x_dir == 1,
            r.animation is None,
            r.sequence@.len() == 0,
            r.cursor == 0,
            r.autoplay,
    {
        PlayerState { x_dir: 1, animation: None, sequence: Vec::new(), cursor: 0, autoplay: true }
    }
}

/// Runs one tick of the script interpreter from the state's cursor. Returns
/// the index of the script entry to highlight and the gesture to play, if
/// any. A played command moves the cursor past it (a `Turn` also flips the
/// facing); a blocked command moves the cursor past the end of its scope.
pub fn action_interpreter(
    state: &mut PlayerState,
    pos: &GridTransform,
    level: &Level,
    assets: &PlayerAssets,
) -> (r: (usize, Option<AnimationResource>))
    requires
        old(state).wf(),
        assets.wf(),
    ensures
        final(state).wf(),
        final(state).sequence == old(state).sequence,
        final(state).animation == old(state).animation,
        final(state).autoplay == old(state).autoplay,
        old(state).sequence@.len() == 0 ==> r.0 == 0 && r.1 is None && *final(state) == *old(state),
        old(state).sequence@.len() > 0 ==> match interpret(
            *level,
            *assets,
            old(state).sequence@,
            pos.0,
            old(state).x_dir as int,
            old(state).cursor as int,
        ) {
            ScanOutcome::Taken { index, cursor, anim } => {
                &&& r.0 == index
                &&& r.1 matches Some(a) && a@ == anim
                &&& final(state).cursor == cursor
                &&& final(state).x_dir == if old(state).sequence@[index] is Turn {
                    -old(state).x_dir
                } else {
                    old(state).x_dir as int
                }
            },
            ScanOutcome::Blocked { index, cursor } => {
                &&& r.0 == index
                &&& r.1 is None
                &&& final(state).cursor == cursor
                &&& final(state).x_dir == old(state).x_dir
            },
            ScanOutcome::Exhausted { cursor } => {
                &&& r.0 == cursor
                &&& r.1 is None
                &&& final(state).cursor == cursor
                &&& final(state).x_dir == old(state).x_dir
            },
        },
{
    let n = state.sequence.len();
    if n == 0 {
        return (0, None);
    }
    let ghost seq = state.sequence@;
    let ghost x_dir = state.x_dir as int;
    let ghost start = state.cursor as int;
    let mut it: usize = 0;
    while it < n
        invariant
            n == seq.len(),
            n > 0,
            it <= n,
            state.sequence@ == seq,
            state.x_dir == x_dir,
            state.wf(),
            assets.wf(),
            state.animation == old(state).animation,
            state.autoplay == old(state).autoplay,
            state.sequence == old(state).sequence,
            old(state).x_dir == x_dir,
            old(state).sequence@ == seq,
            old(state).cursor == start,
            interpret(*level, *assets, seq, pos.0, x_dir, start) == scan(
                *level,
                *assets,
                seq,
                pos.0,
                x_dir,
                state.cursor as int,
                (n - it) as nat,
            ),
        decreases n - it,
    {
        let item_index = state.cursor;
        let command = state.sequence[item_index];
        match command {
            ScriptCommand::OpenBracket => {},
            ScriptCommand::CloseBracket => {
                state.cursor = find_matching_open_bracket(&state.sequence, state.cursor);
            },
            _ => {
                match level.check_valid(pos.0, command, state.x_dir, assets) {
                    Some(anim) => {
                        state.cursor = (state.cursor + 1) % n;
                        if let ScriptCommand::Turn = command {
                            state.x_dir = -state.x_dir;
                        }
                        return (item_index, Some(anim));
                    },
                    None => {
                        state.cursor = find_matching_close_bracket(&state.sequence, state.cursor);
                        return (item_index, None);
                    },
                }
            },
        }
        state.cursor = (state.cursor + 1) % n;
        it = it + 1;
    }
    (state.cursor, None)
}

/// What a respawn check reports.
#[derive(Clone, Copy, Debug, PartialEq, Eq)]
pub struct RespawnOutcome {
    /// The avatar was put back on its respawn cell.
    pub respawned: bool,
    /// A command that a newly reached checkpoint unlocked.
    pub unlocked: Option<ScriptCommand>,
}

/// Whether a hazard stands on the cell.
pub open spec fn hit(obstacles: Seq<GridTransform>, c: Cell) -> bool {
    exists|i: int| 0 <= i < obstacles.len() && (#[trigger] obstacles[i]).0 == c
}

/// Puts the avatar back on its respawn cell: it rests there facing right, its
/// script starts over, no gesture plays, and the editor opens again.
pub fn reset_player(
    state: &mut PlayerState,
    pos: &mut GridTransform,
    next_pos: &mut NextGridTransform,
    level: &Level,
    editor: &mut EditorState,
)
    requires
        old(state).wf(),
    ensures
        final(state).wf(),
        final(pos).0 == level.last_checkpoint,
        final(next_pos).0 == level.last_checkpoint,
        final(state).x_dir == 1,
        final(state).cursor == 0,
        final(state).animation is None,
        final(state).sequence == old(state).sequence,
        final(state).autoplay == old(state).autoplay,
        final(editor).enabled,
        final(editor).entered == old(editor).entered,
        final(editor).cursor == old(editor).cursor,
{
    pos.0 = level.last_checkpoint;
    next_pos.0 = level.last_checkpoint;
    state.x_dir = 1;
    state.cursor = 0;
    state.animation = None;
    editor.enabled = true;
}

/// Checks the avatar's resting cell: a newly reached checkpoint is recorded
/// (see `reach`), and the avatar respawns when that happened, when a hazard
/// stands on its cell, or when a respawn is asked for.
pub fn respawn(
    state: &mut PlayerState,
    pos: &mut GridTransform,
    next_pos: &mut NextGridTransform,
    obstacles: &Vec<GridTransform>,
    reset_pressed: bool,
    level: &mut Level,
    editor: &mut EditorState,
) -> (r: RespawnOutcome)
    requires
        old(state).wf(),
    ensures
        final(state).wf(),
        final(level).progress() == reach(
            old(level).progress(),
            old(level).unlocks_view(),
            old(pos).0,
        ),
        final(level).walls == old(level).walls,
        final(level).unlocks == old(level).unlocks,
        r.respawned == (reset_pressed || hit(obstacles@, old(pos).0) || (old(level).checkpoint_at(
            old(pos).0,
        ) && old(level).last_checkpoint != old(pos).0)),
        r.unlocked matches Some(c) ==> final(level).unlocked@ == old(level).unlocked@.push(c)
            && !old(level).unlocked@.contains(c),
        r.unlocked is None ==> final(level).unlocked == old(level).unlocked,
        r.respawned ==> {
            &&& final(pos).0 == final(level).last_checkpoint
            &&& final(next_pos).0 == final(level).last_checkpoint
            &&& final(state).x_dir == 1
            &&& final(state).cursor == 0
            &&& final(state).animation is None
            &&& final(state).sequence == old(state).sequence
            &&& final(state).autoplay == old(state).autoplay
            &&& final(editor).enabled
            &&& final(editor).entered == old(editor).entered
            &&& final(editor).cursor == old(editor).cursor
        },
        !r.respawned ==> {
            &&& *final(state) == *old(state)
            &&& *final(pos) == *old(pos)
            &&& *final(next_pos) == *old(next_pos)
            &&& *final(editor) == *old(editor)
        },
{
    let mut collided = false;
    let mut i: usize = 0;
    while i < obstacles.len()
        invariant
            i <= obstacles@.len(),
            collided == exists|j: int| 0 <= j < i && (#[trigger] obstacles@[j]).0 == pos.0,
        decreases obstacles@.len() - i,
    {
        if obstacles[i].0 == pos.0 {
            collided = true;
        }
        i = i + 1;
    }
    let progress = level.reach_checkpoint(pos.0);
    if progress.reached {
        collided = true;
    }
    if reset_pressed || collided {
        reset_player(state, pos, next_pos, level, editor);
    }
    RespawnOutcome { respawned: reset_pressed || collided, unlocked: progress.unlocked }
}

/// The direction keys held for control by hand.
#[derive(Clone, Copy, Debug)]
pub struct ManualKeys {
    pub left: bool,
    pub right: bool,
    pub up: bool,
    pub down: bool,
    pub idle: bool,
}

/// The command that the held keys ask for: a horizontal key against the
/// facing turns, along it walks; up climbs, down drops, idle waits, each
/// overriding the ones before.
pub open spec fn manual_command(keys: ManualKeys, x_dir: int) -> Option<ScriptCommand> {
    let facing = (if keys.right {
        1int
    } else {
        0
    }) - (if keys.left {
        1int
    } else {
        0
    });
    if facing != 0 && x_dir != facing {
        Some(ScriptCommand::Turn)
    } else if keys.idle {
        Some(ScriptCommand::Idle)
    } else if keys.down {
        Some(ScriptCommand::Drop)
    } else if keys.up {
        Some(ScriptCommand::Climb)
    } else if facing != 0 {
        Some(ScriptCommand::Walk)
    } else {
        None
    }
}

/// The command that the held keys ask for (see `manual_command`).
pub fn debug_actions(keys: &ManualKeys, x_dir: i32) -> (r: Option<ScriptCommand>)
    ensures
        r == manual_command(*keys, x_dir as int),
        r matches Some(c) ==> !c.is_bracket(),
{
    let mut action: Option<ScriptCommand> = None;
    let mut facing: i32 = 0;
    if keys.left {
        facing = facing - 1;
    }
    if keys.right {
        facing = facing + 1;
    }
    if facing != 0 {
        if x_dir != facing {
            return Some(ScriptCommand::Turn);
        }
        action = Some(ScriptCommand::Walk);
    }
    if keys.up {
        action = Some(ScriptCommand::Climb);
    }
    if keys.down {
        action = Some(ScriptCommand::Drop);
    }
    if keys.idle {
        action = Some(ScriptCommand::Idle);
    }
    action
}

/// What the frame's input asks of the avatar.
#[derive(Clone, Copy, Debug)]
pub struct FrameInput {
    /// Autoplay is switched on or off.
    pub toggle_autoplay: bool,
    /// The step key is held: one script step in manual mode, fast forward in autoplay.
    pub step: bool,
    /// A command given by hand, in builds with manual control.
    pub manual: Option<ScriptCommand>,
}

/// What a frame's decision reports.
#[derive(Clone, Copy, Debug, PartialEq, Eq)]
pub struct FrameOutcome {
    /// The script entry that ran and whether it was played, when the script ran.
    pub highlight: Option<(usize, bool)>,
    /// A gesture started, and with it a new tick.
    pub tick_started: bool,
}

/// The decision of a frame in which the clock allows a new gesture.
pub struct Decision {
    pub x_dir: int,
    pub cursor: int,
    pub anim: Option<AnimationModel>,
    pub highlight: Option<(int, bool)>,
}

/// The facing after a command given by hand: a `Turn` flips it at once.
pub open spec fn manual_facing(x_dir: int, manual: Option<ScriptCommand>) -> int {
    if manual == Some(ScriptCommand::Turn) {
        -x_dir
    } else {
        x_dir
    }
}

/// The choice of the next gesture: first the command given by hand, then, when
/// the script runs, the interpreter's result in its place.
pub open spec fn decide(
    level: Level,
    assets: PlayerAssets,
    seq: Seq<ScriptCommand>,
    pos: Cell,
    x_dir: int,
    cursor: int,
    manual: Option<ScriptCommand>,
    run_script: bool,
) -> Decision {
    let x1 = manual_facing(x_dir, manual);
    let by_hand = match manual {
        Some(c) => validity(level, pos, c, x1, assets),
        None => None,
    };
    if !run_script {
        Decision { x_dir: x1, cursor, anim: by_hand, highlight: None }
    } else if seq.len() == 0 {
        Decision { x_dir: x1, cursor, anim: None, highlight: Some((0, false)) }
    } else {
        match interpret(level, assets, seq, pos, x1, cursor) {
            ScanOutcome::Taken { index, cursor, anim } => Decision {
                x_dir: if seq[index] is Turn {
                    -x1
                } else {
                    x1
                },
                cursor,
                anim: Some(anim),
                highlight: Some((index, true)),
            },
            ScanOutcome::Blocked { index, cursor } => Decision {
                x_dir: x1,
                cursor,
                anim: None,
                highlight: Some((index, false)),
            },
            ScanOutcome::Exhausted { cursor } => Decision {
                x_dir: x1,
                cursor,
                anim: None,
                highlight: Some((cursor, false)),
            },
        }
    }
}

/// The model of an optional gesture.
pub open spec fn anim_view(a: Option<AnimationResource>) -> Option<AnimationModel> {
    match a {
        Some(r) => Some(r@),
        None => None,
    }
}

/// A duration, quartered when fast forward is on.
pub open spec fn scaled(d: u64, fast: bool) -> u64 {
    if fast {
        (d / 4) as u64
    } else {
        d
    }
}

/// One frame of the avatar's control. Nothing moves while the editor is open
/// or the clock runs; otherwise the next gesture is chosen (see `decide`), the
/// clock restarts on its duration and the gesture's end cell is committed. When
/// no gesture is chosen in autoplay, the clock restarts on a short idle tick.
pub fn update_animation(
    input: &FrameInput,
    tick: &mut AnimationTick,
    state: &mut PlayerState,
    pos: &GridTransform,
    next_pos: &mut NextGridTransform,
    level: &Level,
    assets: &PlayerAssets,
    editor_enabled: bool,
) -> (r: FrameOutcome)
    requires
        old(state).wf(),
        old(tick).wf(),
        assets.wf(),
        input.manual matches Some(c) ==> !c.is_bracket(),
    ensures
        final(state).wf(),
        final(tick).wf(),
        final(state).sequence == old(state).sequence,
        final(state).autoplay == (old(state).autoplay != input.toggle_autoplay),
        editor_enabled || !old(tick).finished ==> {
            &&& final(state).x_dir == old(state).x_dir
            &&& final(state).cursor == old(state).cursor
            &&& final(state).animation == old(state).animation
            &&& *final(tick) == *old(tick)
            &&& *final(next_pos) == *old(next_pos)
            &&& r == (FrameOutcome { highlight: None, tick_started: false })
        },
        !editor_enabled && old(tick).finished ==> {
            let autoplay = final(state).autoplay;
            let fast = autoplay && input.step;
            let d = decide(
                *level,
                *assets,
                old(state).sequence@,
                pos.0,
                old(state).x_dir as int,
                old(state).cursor as int,
                input.manual,
                input.step || autoplay,
            );
            &&& final(state).x_dir == d.x_dir
            &&& final(state).cursor == d.cursor
            &&& anim_view(final(state).animation) == d.anim
            &&& (r.highlight matches Some(h) ==> d.highlight == Some((h.0 as int, h.1)))
            &&& (r.highlight is None <==> d.highlight is None)
            &&& r.tick_started == d.anim is Some
            &&& (final(state).animation matches Some(a) ==> {
                &&& *final(tick) == restarted(scaled(a.duration_us, fast))
                &&& final(next_pos).0.pt() == landing(pos.0, a@, d.x_dir)
            })
            &&& (final(state).animation is None ==> {
                &&& *final(next_pos) == *old(next_pos)
                &&& autoplay ==> *final(tick) == restarted(scaled(IDLE_TICK_US, fast))
                &&& !autoplay ==> *final(tick) == *old(tick)
            })
        },
{
    if input.toggle_autoplay {
        state.autoplay = !state.autoplay;
    }
    if editor_enabled {
        return FrameOutcome { highlight: None, tick_started: false };
    }
    if !tick.is_finished() {
        return FrameOutcome { highlight: None, tick_started: false };
    }
    state.animation = None;
    let ghost seq = state.sequence@;
    let ghost x0 = state.x_dir as int;
    let ghost c0 = state.cursor as int;
    if let Some(action) = input.manual {
        if let ScriptCommand::Turn = action {
            state.x_dir = -state.x_dir;
        }
        state.animation = level.check_valid(pos.0, action, state.x_dir, assets);
        proof {
            crate::action::lemma_validity_lands(*level, pos.0, action, state.x_dir as int, *assets);
        }
    }
    let ghost x1 = state.x_dir as int;
    assert(x1 == manual_facing(x0, input.manual));
    let mut highlight: Option<(usize, bool)> = None;
    if input.step || state.autoplay {
        let (script_index, animation) = action_interpreter(state, pos, level, assets);
        proof {
            if seq.len() > 0 {
                crate::interpreter::lemma_scan_taken(
                    *level,
                    *assets,
                    seq,
                    pos.0,
                    x1,
                    c0,
                    seq.len(),
                );
                match interpret(*level, *assets, seq, pos.0, x1, c0) {
                    ScanOutcome::Taken { index, .. } => {
                        crate::action::lemma_validity_lands(
                            *level,
                            pos.0,
                            seq[index],
                            x1,
                            *assets,
                        );
                    },
                    _ => {},
                }
            }
        }
        let played = animation.is_some();
        state.animation = animation;
        highlight = Some((script_index, played));
    }
    let fast = state.autoplay && input.step;
    match &state.animation {
        Some(animation) => {
            let d = if fast {
                animation.duration_us / 4
            } else {
                animation.duration_us
            };
            tick.restart(d);
            let offset = animation.final_offset(state.x_dir);
            next_pos.0 = pos.0.plus(offset);
            FrameOutcome { highlight, tick_started: true }
        },
        None => {
            if state.autoplay {
                let d = if fast {
                    IDLE_TICK_US / 4
                } else {
                    IDLE_TICK_US
                };
                tick.restart(d);
            }
            FrameOutcome { highlight, tick_started: false }
        },
    }
}

} // verus!
