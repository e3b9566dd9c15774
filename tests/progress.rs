use gridbot::action::ScriptCommand;
use gridbot::animation::{frame_index, PlayerAssets};
use gridbot::clock::{update_tick_timer, AnimationTick};
use gridbot::editor::EditorState;
use gridbot::grid::Cell;
use gridbot::level::{unlock_from_name, CheckpointRecord, Level};
use gridbot::obstacle::{hazard_frame, Obstacle, SpawnObstacle};
use gridbot::player::{
    debug_actions, reset_player, respawn, GridTransform, ManualKeys, NextGridTransform, PlayerState,
};

fn level_with_checkpoints() -> Level {
    let mut level = Level::default();
    let records = vec![
        CheckpointRecord { cell: Cell::new(3, 1), unlock: Some(ScriptCommand::Jump), command_count: 5 },
        CheckpointRecord { cell: Cell::new(6, 1), unlock: Some(ScriptCommand::Walk), command_count: 2 },
    ];
    let walls: Vec<Cell> = (0..=8).map(|x| Cell::new(x, 0)).collect();
    level.load(&walls, &records, Some(Cell::new(0, 1)));
    level
}

#[test]
fn checkpoint_is_recorded_once() {
    let mut level = level_with_checkpoints();
    let first = level.reach_checkpoint(Cell::new(3, 1));
    assert!(first.reached);
    assert_eq!(first.unlocked, Some(ScriptCommand::Jump));
    assert_eq!(level.last_checkpoint, Cell::new(3, 1));
    assert_eq!(level.unlocked, vec![ScriptCommand::Walk, ScriptCommand::Jump]);
    assert_eq!(level.command_count, 5);
    let again = level.reach_checkpoint(Cell::new(3, 1));
    assert!(!again.reached);
    assert_eq!(again.unlocked, None);
    assert_eq!(level.last_checkpoint, Cell::new(3, 1));
    assert_eq!(level.unlocked, vec![ScriptCommand::Walk, ScriptCommand::Jump]);
    assert_eq!(level.command_count, 5);
}

#[test]
fn known_unlock_and_smaller_budget_change_nothing_else() {
    let mut level = level_with_checkpoints();
    level.reach_checkpoint(Cell::new(3, 1));
    let out = level.reach_checkpoint(Cell::new(6, 1));
    assert!(out.reached);
    assert_eq!(out.unlocked, None);
    assert_eq!(level.last_checkpoint, Cell::new(6, 1));
    assert_eq!(level.unlocked.len(), 2);
    assert_eq!(level.command_count, 5);
    assert!(!level.reach_checkpoint(Cell::new(4, 1)).reached);
}

#[test]
fn respawn_resets_the_avatar() {
    let level = level_with_checkpoints();
    let mut state = PlayerState::new();
    state.x_dir = -1;
    state.sequence = vec![ScriptCommand::Walk, ScriptCommand::Walk];
    state.cursor = 1;
    state.animation = Some(PlayerAssets::new().walk);
    let mut pos = GridTransform(Cell::new(5, 1));
    let mut next = NextGridTransform(Cell::new(6, 1));
    let mut editor = EditorState::new();
    editor.enabled = false;
    reset_player(&mut state, &mut pos, &mut next, &level, &mut editor);
    assert_eq!(pos.0, Cell::new(0, 1));
    assert_eq!(next.0, Cell::new(0, 1));
    assert_eq!((state.x_dir, state.cursor), (1, 0));
    assert!(state.animation.is_none());
    assert_eq!(state.sequence.len(), 2);
    assert!(editor.enabled);
}

#[test]
fn hazard_contact_respawns() {
    let mut level = level_with_checkpoints();
    let mut state = PlayerState::new();
    state.sequence = vec![ScriptCommand::Walk];
    let mut pos = GridTransform(Cell::new(2, 1));
    let mut next = NextGridTransform(Cell::new(2, 1));
    let mut editor = EditorState::new();
    editor.enabled = false;
    let far = vec![GridTransform(Cell::new(7, 1))];
    let out = respawn(&mut state, &mut pos, &mut next, &far, false, &mut level, &mut editor);
    assert!(!out.respawned);
    assert_eq!(pos.0, Cell::new(2, 1));
    assert!(!editor.enabled);
    let near = vec![GridTransform(Cell::new(7, 1)), GridTransform(Cell::new(2, 1))];
    let out = respawn(&mut state, &mut pos, &mut next, &near, false, &mut level, &mut editor);
    assert!(out.respawned);
    assert_eq!(pos.0, Cell::new(0, 1));
    assert!(editor.enabled);
}

#[test]
fn new_checkpoint_and_reset_key_respawn() {
    let mut level = level_with_checkpoints();
    let mut state = PlayerState::new();
    let mut pos = GridTransform(Cell::new(3, 1));
    let mut next = NextGridTransform(Cell::new(3, 1));
    let mut editor = EditorState::new();
    let out = respawn(&mut state, &mut pos, &mut next, &Vec::new(), false, &mut level, &mut editor);
    assert!(out.respawned);
    assert_eq!(out.unlocked, Some(ScriptCommand::Jump));
    assert_eq!(pos.0, Cell::new(3, 1));
    let out = respawn(&mut state, &mut pos, &mut next, &Vec::new(), false, &mut level, &mut editor);
    assert!(!out.respawned);
    pos.0 = Cell::new(5, 1);
    let out = respawn(&mut state, &mut pos, &mut next, &Vec::new(), true, &mut level, &mut editor);
    assert!(out.respawned);
    assert_eq!(pos.0, Cell::new(3, 1));
}

#[test]
fn clock_finishes_once() {
    let mut tick = AnimationTick::new(100);
    assert!(!tick.tick(40));
    assert_eq!(tick.elapsed_us, 40);
    assert!(tick.tick(100));
    assert_eq!(tick.elapsed_us, 100);
    assert!(tick.is_finished());
    assert!(!tick.tick(10));
    tick.restart(0);
    assert!(!tick.is_finished());
    assert!(tick.tick(0));
}

#[test]
fn finished_tick_moves_bodies_to_their_next_cells() {
    let mut tick = AnimationTick::new(100);
    let mut grids = vec![GridTransform(Cell::new(0, 1)), GridTransform(Cell::new(4, 4))];
    let nexts = vec![NextGridTransform(Cell::new(1, 1)), NextGridTransform(Cell::new(4, 5))];
    assert!(!update_tick_timer(&mut tick, 50, &mut grids, &nexts));
    assert_eq!(grids[0].0, Cell::new(0, 1));
    assert!(update_tick_timer(&mut tick, 50, &mut grids, &nexts));
    assert_eq!(grids[0].0, Cell::new(1, 1));
    assert_eq!(grids[1].0, Cell::new(4, 5));
}

#[test]
fn frames_follow_the_clock() {
    let assets = PlayerAssets::new();
    let mut tick = AnimationTick::new(800_000);
    tick.tick(400_000);
    assert_eq!(frame_index(&Some(assets.walk.duplicate()), &tick), 16 + 6);
    assert_eq!(frame_index(&None, &tick), 0);
    assert_eq!(hazard_frame(&tick), 2);
    tick.tick(400_000);
    assert_eq!(frame_index(&Some(assets.idle.duplicate()), &tick), 4);
    assert_eq!(hazard_frame(&tick), 3);
}

#[test]
fn hazards_swing_on_odd_tick_counts() {
    let spawn = SpawnObstacle::from_level(Cell::new(4, 2), Some(Cell::new(6, 62)));
    assert_eq!(spawn.dir, Cell::new(2, 0));
    let mut hazard = Obstacle::new(spawn);
    let mut grid = GridTransform(Cell::new(4, 2));
    let mut next = NextGridTransform(Cell::new(4, 2));
    hazard.movement(&mut grid, &mut next, 1, false);
    assert_eq!(next.0, Cell::new(6, 2));
    assert_eq!(hazard.dir, Cell::new(-2, 0));
    grid.0 = next.0;
    hazard.movement(&mut grid, &mut next, 2, false);
    assert_eq!(next.0, Cell::new(6, 2));
    hazard.movement(&mut grid, &mut next, 1, false);
    assert_eq!(next.0, Cell::new(4, 2));
    hazard.movement(&mut grid, &mut next, 0, true);
    assert_eq!((grid.0, next.0, hazard.dir), (Cell::new(4, 2), Cell::new(4, 2), Cell::new(2, 0)));
    let still = SpawnObstacle::from_level(Cell::new(1, 1), None);
    assert_eq!(still.dir, Cell::new(0, 0));
}

#[test]
fn manual_keys_choose_a_command() {
    let none = ManualKeys { left: false, right: false, up: false, down: false, idle: false };
    assert_eq!(debug_actions(&none, 1), None);
    assert_eq!(debug_actions(&ManualKeys { right: true, ..none }, 1), Some(ScriptCommand::Walk));
    assert_eq!(debug_actions(&ManualKeys { left: true, up: true, ..none }, 1), Some(ScriptCommand::Turn));
    assert_eq!(debug_actions(&ManualKeys { right: true, up: true, ..none }, 1), Some(ScriptCommand::Climb));
    assert_eq!(debug_actions(&ManualKeys { down: true, idle: true, ..none }, -1), Some(ScriptCommand::Idle));
    assert_eq!(debug_actions(&ManualKeys { left: true, right: true, down: true, ..none }, 1), Some(ScriptCommand::Drop));
}

#[test]
fn unlock_names_map_to_commands() {
    assert_eq!(unlock_from_name("Jump"), Some(ScriptCommand::Jump));
    assert_eq!(unlock_from_name("Brackets"), Some(ScriptCommand::OpenBracket));
    assert_eq!(unlock_from_name("Walk"), Some(ScriptCommand::Walk));
    assert_eq!(unlock_from_name("walk"), None);
    assert_eq!(unlock_from_name(""), None);
}
