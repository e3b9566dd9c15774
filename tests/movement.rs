use gridbot::action::ScriptCommand;
use gridbot::animation::PlayerAssets;
use gridbot::grid::Cell;
use gridbot::level::{CheckpointRecord, Level};

fn floor_level() -> Level {
    let mut level = Level::default();
    let walls: Vec<Cell> = (0..=5).map(|x| Cell::new(x, 0)).collect();
    level.load(&walls, &Vec::new(), Some(Cell::new(0, 1)));
    level
}

#[test]
fn walk_onto_floor_lands_one_cell_right() {
    let level = floor_level();
    let assets = PlayerAssets::new();
    let anim = level
        .check_valid(Cell::new(0, 1), ScriptCommand::Walk, 1, &assets)
        .expect("walk is valid on the floor");
    let offset = anim.final_offset(1);
    assert_eq!(Cell::new(0, 1).plus(offset), Cell::new(1, 1));
}

#[test]
fn walk_off_the_edge_is_invalid() {
    let level = floor_level();
    let assets = PlayerAssets::new();
    assert!(level.check_valid(Cell::new(5, 1), ScriptCommand::Walk, 1, &assets).is_none());
}

#[test]
fn idle_and_turn_need_ground_below() {
    let level = floor_level();
    let assets = PlayerAssets::new();
    for cmd in [ScriptCommand::Idle, ScriptCommand::Turn] {
        for dir in [1, -1] {
            assert!(level.check_valid(Cell::new(3, 1), cmd, dir, &assets).is_some());
            assert!(level.check_valid(Cell::new(3, 2), cmd, dir, &assets).is_none());
            assert!(level.check_valid(Cell::new(6, 1), cmd, dir, &assets).is_none());
        }
    }
}

#[test]
fn facing_left_mirrors_walk() {
    let level = floor_level();
    let assets = PlayerAssets::new();
    let anim = level.check_valid(Cell::new(1, 1), ScriptCommand::Walk, -1, &assets).unwrap();
    assert_eq!(anim.final_offset(-1), Cell::new(-1, 0));
    assert!(level.check_valid(Cell::new(0, 1), ScriptCommand::Walk, -1, &assets).is_none());
}

#[test]
fn blocked_path_makes_walk_invalid() {
    let mut level = Level::default();
    let walls = vec![Cell::new(0, 0), Cell::new(1, 0), Cell::new(1, 1)];
    level.load(&walls, &Vec::new(), None);
    let assets = PlayerAssets::new();
    assert!(level.check_valid(Cell::new(0, 1), ScriptCommand::Walk, 1, &assets).is_none());
    let climb = level.check_valid(Cell::new(0, 1), ScriptCommand::Climb, 1, &assets).unwrap();
    assert_eq!(climb.final_offset(1), Cell::new(1, 1));
}

#[test]
fn climb_needs_clear_headroom() {
    let mut level = Level::default();
    let walls = vec![Cell::new(0, 0), Cell::new(1, 0), Cell::new(1, 1), Cell::new(0, 2)];
    level.load(&walls, &Vec::new(), None);
    let assets = PlayerAssets::new();
    assert!(level.check_valid(Cell::new(0, 1), ScriptCommand::Climb, 1, &assets).is_none());
}

#[test]
fn drop_prefers_the_short_fall() {
    let assets = PlayerAssets::new();
    let mut one_step = Level::default();
    one_step.load(&vec![Cell::new(0, 0), Cell::new(1, -1)], &Vec::new(), None);
    let short = one_step.check_valid(Cell::new(0, 1), ScriptCommand::Drop, 1, &assets).unwrap();
    assert_eq!(short.final_offset(1), Cell::new(1, -1));
    assert_eq!(short.row_number, 4);

    let mut two_steps = Level::default();
    two_steps.load(&vec![Cell::new(0, 0), Cell::new(1, -2)], &Vec::new(), None);
    let long = two_steps.check_valid(Cell::new(0, 1), ScriptCommand::Drop, 1, &assets).unwrap();
    assert_eq!(long.final_offset(1), Cell::new(1, -2));
    assert_eq!(long.row_number, 5);

    let mut cliff = Level::default();
    cliff.load(&vec![Cell::new(0, 0)], &Vec::new(), None);
    assert!(cliff.check_valid(Cell::new(0, 1), ScriptCommand::Drop, 1, &assets).is_none());
}

#[test]
fn jump_crosses_a_gap() {
    let mut level = Level::default();
    level.load(&vec![Cell::new(0, 0), Cell::new(2, 1)], &Vec::new(), None);
    let assets = PlayerAssets::new();
    let jump = level.check_valid(Cell::new(0, 1), ScriptCommand::Jump, 1, &assets).unwrap();
    assert_eq!(jump.final_offset(1), Cell::new(2, 1));
    assert_eq!(jump.squares.len(), 4);
    let left = level.check_valid(Cell::new(4, 1), ScriptCommand::Jump, -1, &assets).unwrap();
    assert_eq!(left.final_offset(-1), Cell::new(-2, 1));
}

#[test]
fn load_replaces_walls_and_reads_checkpoints() {
    let mut level = Level::default();
    level.load(&vec![Cell::new(7, 7)], &Vec::new(), None);
    assert!(level.is_solid(Cell::new(7, 7)));
    let records = vec![
        CheckpointRecord { cell: Cell::new(2, 1), unlock: Some(ScriptCommand::Jump), command_count: 4 },
        CheckpointRecord { cell: Cell::new(3, 1), unlock: None, command_count: -2 },
    ];
    level.load(&vec![Cell::new(1, 1)], &records, None);
    assert!(!level.is_solid(Cell::new(7, 7)));
    assert!(level.is_solid(Cell::new(1, 1)));
    assert!(level.is_checkpoint(Cell::new(2, 1)));
    assert!(!level.is_checkpoint(Cell::new(1, 1)));
    assert_eq!(level.unlock_info(Cell::new(2, 1)), Some((Some(ScriptCommand::Jump), 4)));
    assert_eq!(level.unlock_info(Cell::new(3, 1)), Some((None, 0)));
    assert_eq!(level.unlock_info(Cell::new(9, 9)), None);
    assert_eq!(level.get_spawn(), Cell::new(0, 0));
}

#[test]
fn default_level_unlocks_walk_only() {
    let level = Level::default();
    assert_eq!(level.unlocked, vec![ScriptCommand::Walk]);
    assert_eq!(level.command_count, 1);
    assert_eq!(level.last_checkpoint, Cell::new(0, 0));
    assert!(!level.is_solid(Cell::new(0, 0)));
}

#[test]
fn cells_beyond_the_grid_are_open_air() {
    let mut level = Level::default();
    level.load(&vec![Cell::new(i32::MAX, 0)], &Vec::new(), None);
    assert!(level.solid_i64(i32::MAX as i64, 0));
    assert!(!level.solid_i64(i32::MAX as i64 + 1, 0));
    let assets = PlayerAssets::new();
    assert!(level.check_valid(Cell::new(i32::MAX, 1), ScriptCommand::Walk, 1, &assets).is_none());
}
