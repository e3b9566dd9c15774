use gridbot::action::ScriptCommand;
use gridbot::animation::PlayerAssets;
use gridbot::clock::{AnimationTick, FIRST_TICK_US, IDLE_TICK_US};
use gridbot::script::parse_script;
use gridbot::grid::Cell;
use gridbot::interpreter::{find_matching_close_bracket, find_matching_open_bracket};
use gridbot::level::Level;
use gridbot::player::{
    action_interpreter, update_animation, FrameInput, GridTransform, NextGridTransform, PlayerState,
};

fn floor_level() -> Level {
    let mut level = Level::default();
    let walls: Vec<Cell> = (0..=5).map(|x| Cell::new(x, 0)).collect();
    level.load(&walls, &Vec::new(), Some(Cell::new(0, 1)));
    level
}

fn state_with(script: &str) -> PlayerState {
    let mut state = PlayerState::new();
    state.sequence = parse_script(script);
    state
}

#[test]
fn failed_command_skips_its_scope() {
    let level = floor_level();
    let assets = PlayerAssets::new();
    let mut state = state_with("(cw)");
    let pos = GridTransform(Cell::new(0, 1));
    let (index, anim) = action_interpreter(&mut state, &pos, &level, &assets);
    assert_eq!(index, 1);
    assert!(anim.is_none());
    assert_eq!(state.cursor, 0);
    assert_eq!(state.x_dir, 1);
    let (index, anim) = action_interpreter(&mut state, &pos, &level, &assets);
    assert_eq!(index, 1);
    assert!(anim.is_none());
    assert_eq!(state.cursor, 0);
}

#[test]
fn skipped_scope_resumes_after_its_close() {
    let level = floor_level();
    let assets = PlayerAssets::new();
    let mut state = state_with("(c)w");
    let pos = GridTransform(Cell::new(0, 1));
    let (index, anim) = action_interpreter(&mut state, &pos, &level, &assets);
    assert_eq!((index, anim.is_none()), (1, true));
    assert_eq!(state.cursor, 3);
    let (index, anim) = action_interpreter(&mut state, &pos, &level, &assets);
    assert_eq!(index, 3);
    assert_eq!(anim.unwrap().final_offset(1), Cell::new(1, 0));
    assert_eq!(state.cursor, 0);
}

#[test]
fn close_bracket_loops_back() {
    let level = floor_level();
    let assets = PlayerAssets::new();
    let mut state = state_with("i(w)");
    state.cursor = 3;
    let pos = GridTransform(Cell::new(0, 1));
    let (index, anim) = action_interpreter(&mut state, &pos, &level, &assets);
    assert_eq!(index, 2);
    assert!(anim.is_some());
    assert_eq!(state.cursor, 3);
}

#[test]
fn turn_flips_the_facing() {
    let level = floor_level();
    let assets = PlayerAssets::new();
    let mut state = state_with("t");
    let pos = GridTransform(Cell::new(2, 1));
    let (index, anim) = action_interpreter(&mut state, &pos, &level, &assets);
    assert_eq!(index, 0);
    assert_eq!(anim.unwrap().final_offset(-1), Cell::new(0, 0));
    assert_eq!(state.x_dir, -1);
    action_interpreter(&mut state, &pos, &level, &assets);
    assert_eq!(state.x_dir, 1);
}

#[test]
fn brackets_only_script_exhausts_its_scan() {
    let level = floor_level();
    let assets = PlayerAssets::new();
    let mut state = state_with("()");
    let pos = GridTransform(Cell::new(0, 1));
    let (index, anim) = action_interpreter(&mut state, &pos, &level, &assets);
    assert!(anim.is_none());
    assert_eq!(index, state.cursor);
    assert_eq!(state.cursor, 1);
}

#[test]
fn empty_script_plays_nothing() {
    let level = floor_level();
    let assets = PlayerAssets::new();
    let mut state = PlayerState::new();
    let pos = GridTransform(Cell::new(0, 1));
    let (index, anim) = action_interpreter(&mut state, &pos, &level, &assets);
    assert_eq!(index, 0);
    assert!(anim.is_none());
    assert_eq!(state.cursor, 0);
}

#[test]
fn same_inputs_give_same_outcome() {
    let level = floor_level();
    let assets = PlayerAssets::new();
    let pos = GridTransform(Cell::new(0, 1));
    let mut a = state_with("(jc)(w)t");
    let mut b = state_with("(jc)(w)t");
    for _ in 0..6 {
        let (ia, aa) = action_interpreter(&mut a, &pos, &level, &assets);
        let (ib, ab) = action_interpreter(&mut b, &pos, &level, &assets);
        assert_eq!(ia, ib);
        assert_eq!(aa.map(|x| x.row_number), ab.map(|x| x.row_number));
        assert_eq!((a.cursor, a.x_dir), (b.cursor, b.x_dir));
    }
}

#[test]
fn bracket_matching_counts_nesting() {
    let seq = parse_script("(w(c)d)i");
    assert_eq!(find_matching_open_bracket(&seq, 6), 0);
    assert_eq!(find_matching_open_bracket(&seq, 4), 2);
    assert_eq!(find_matching_close_bracket(&seq, 1), 7);
    assert_eq!(find_matching_close_bracket(&seq, 3), 5);
    assert_eq!(find_matching_close_bracket(&seq, 7), 0);
    let unclosed = parse_script("w)");
    assert_eq!(find_matching_open_bracket(&unclosed, 1), 0);
    let wraps = parse_script("(w)");
    assert_eq!(find_matching_close_bracket(&wraps, 1), 0);
}

#[test]
fn frame_waits_for_the_clock_and_the_editor() {
    let level = floor_level();
    let assets = PlayerAssets::new();
    let mut state = state_with("w");
    let pos = GridTransform(Cell::new(0, 1));
    let mut next = NextGridTransform(Cell::new(0, 1));
    let mut tick = AnimationTick::new(FIRST_TICK_US);
    let input = FrameInput { toggle_autoplay: false, step: false, manual: None };
    let out = update_animation(&input, &mut tick, &mut state, &pos, &mut next, &level, &assets, false);
    assert_eq!(out.highlight, None);
    assert!(!out.tick_started);
    tick.tick(FIRST_TICK_US);
    let out = update_animation(&input, &mut tick, &mut state, &pos, &mut next, &level, &assets, true);
    assert!(!out.tick_started);
    assert_eq!(next.0, Cell::new(0, 1));
}

#[test]
fn frame_commits_the_chosen_gesture() {
    let level = floor_level();
    let assets = PlayerAssets::new();
    let mut state = state_with("w");
    let pos = GridTransform(Cell::new(0, 1));
    let mut next = NextGridTransform(Cell::new(0, 1));
    let mut tick = AnimationTick::new(FIRST_TICK_US);
    tick.tick(FIRST_TICK_US);
    let input = FrameInput { toggle_autoplay: false, step: false, manual: None };
    let out = update_animation(&input, &mut tick, &mut state, &pos, &mut next, &level, &assets, false);
    assert_eq!(out.highlight, Some((0, true)));
    assert!(out.tick_started);
    assert_eq!(next.0, Cell::new(1, 1));
    assert_eq!(tick.duration_us, 800_000);
    assert_eq!(tick.elapsed_us, 0);
    assert!(!tick.is_finished());
    assert!(state.animation.is_some());
}

#[test]
fn fast_forward_quarters_the_tick() {
    let level = floor_level();
    let assets = PlayerAssets::new();
    let mut state = state_with("w");
    let pos = GridTransform(Cell::new(5, 1));
    let mut next = NextGridTransform(Cell::new(5, 1));
    let mut tick = AnimationTick::new(FIRST_TICK_US);
    tick.tick(FIRST_TICK_US);
    let input = FrameInput { toggle_autoplay: false, step: true, manual: None };
    let out = update_animation(&input, &mut tick, &mut state, &pos, &mut next, &level, &assets, false);
    assert_eq!(out.highlight, Some((0, false)));
    assert!(!out.tick_started);
    assert_eq!(tick.duration_us, IDLE_TICK_US / 4);
    assert_eq!(next.0, Cell::new(5, 1));
}

#[test]
fn manual_mode_waits_for_a_step() {
    let level = floor_level();
    let assets = PlayerAssets::new();
    let mut state = state_with("w");
    let pos = GridTransform(Cell::new(0, 1));
    let mut next = NextGridTransform(Cell::new(0, 1));
    let mut tick = AnimationTick::new(FIRST_TICK_US);
    tick.tick(FIRST_TICK_US);
    let toggle = FrameInput { toggle_autoplay: true, step: false, manual: None };
    let out = update_animation(&toggle, &mut tick, &mut state, &pos, &mut next, &level, &assets, false);
    assert!(!state.autoplay);
    assert_eq!(out.highlight, None);
    assert!(tick.is_finished());
    let step = FrameInput { toggle_autoplay: false, step: true, manual: None };
    let out = update_animation(&step, &mut tick, &mut state, &pos, &mut next, &level, &assets, false);
    assert!(out.tick_started);
    assert_eq!(tick.duration_us, 800_000);
}

#[test]
fn manual_turn_flips_before_checking() {
    let level = floor_level();
    let assets = PlayerAssets::new();
    let mut state = PlayerState::new();
    state.autoplay = false;
    let pos = GridTransform(Cell::new(2, 1));
    let mut next = NextGridTransform(Cell::new(2, 1));
    let mut tick = AnimationTick::new(FIRST_TICK_US);
    tick.tick(FIRST_TICK_US);
    let input = FrameInput { toggle_autoplay: false, step: false, manual: Some(ScriptCommand::Turn) };
    let out = update_animation(&input, &mut tick, &mut state, &pos, &mut next, &level, &assets, false);
    assert!(out.tick_started);
    assert_eq!(state.x_dir, -1);
    let walk = FrameInput { toggle_autoplay: false, step: false, manual: Some(ScriptCommand::Walk) };
    tick.tick(800_000);
    update_animation(&walk, &mut tick, &mut state, &pos, &mut next, &level, &assets, false);
    assert_eq!(next.0, Cell::new(1, 1));
}
