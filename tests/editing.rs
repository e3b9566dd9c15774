use gridbot::action::ScriptCommand;
use gridbot::editor::{
    show_script, EditorAssets, EditorInput, EditorItem, EditorState, SubmitOutcome, Tint,
};
use gridbot::script::{balance_script, bracket_padding, command_char, command_from_char, parse_script};
use gridbot::level::Level;
use gridbot::player::PlayerState;

use gridbot::action::ScriptCommand::{CloseBracket as Close, OpenBracket as Open};

fn running_balance_ok(s: &[ScriptCommand]) -> bool {
    let mut depth: i64 = 0;
    for c in s {
        match c {
            Open => depth += 1,
            Close => depth -= 1,
            _ => {}
        }
        if depth < 0 {
            return false;
        }
    }
    depth == 0
}

fn no_keys() -> EditorInput {
    EditorInput {
        typed: Vec::new(),
        right: false,
        left: false,
        home: false,
        end: false,
        backspace: false,
        delete: false,
    }
}

#[test]
fn raw_close_walk_open_is_padded_both_ways() {
    let padded = balance_script(&parse_script(")w("));
    assert_eq!(padded, vec![Open, Close, ScriptCommand::Walk, Open, Close]);
    assert!(running_balance_ok(&padded));
}

#[test]
fn padding_balances_every_script() {
    for text in ["", "w", "((w", "w))", ")(", "(w)", "))((", "(()", "x(yw)z)"] {
        let padded = balance_script(&parse_script(text));
        assert!(running_balance_ok(&padded), "{text}");
    }
    assert_eq!(bracket_padding(&parse_script("((w")), (0, 2));
    assert_eq!(bracket_padding(&parse_script("w))")), (2, 0));
    assert_eq!(bracket_padding(&parse_script("(w)")), (0, 0));
}

#[test]
fn parse_drops_unknown_characters() {
    assert_eq!(
        parse_script("W c-D?i T j"),
        vec![
            ScriptCommand::Walk,
            ScriptCommand::Climb,
            ScriptCommand::Drop,
            ScriptCommand::Idle,
            ScriptCommand::Turn,
            ScriptCommand::Jump
        ]
    );
    assert!(parse_script("xyz").is_empty());
    assert_eq!(command_from_char('('), Some(Open));
    assert_eq!(command_from_char('q'), None);
    assert_eq!(command_char(Close), ')');
}

#[test]
fn typing_needs_the_command_unlocked() {
    let mut level = Level::default();
    let mut editor = EditorState::new();
    let mut keys = no_keys();
    keys.typed = vec![ScriptCommand::Walk, ScriptCommand::Jump, Close];
    assert!(editor.edit_script(&keys, &level));
    assert_eq!(editor.entered, vec![ScriptCommand::Walk]);
    assert_eq!(editor.cursor, 1);
    level.unlocked.push(Open);
    assert!(editor.edit_script(&keys, &level));
    assert_eq!(editor.entered, vec![ScriptCommand::Walk, ScriptCommand::Walk, Close]);
    assert!(!editor.edit_script(&no_keys(), &level));
}

#[test]
fn cursor_moves_and_deletes() {
    let level = Level::default();
    let mut editor = EditorState::new();
    let mut keys = no_keys();
    keys.typed = vec![ScriptCommand::Walk, ScriptCommand::Walk, ScriptCommand::Walk];
    editor.edit_script(&keys, &level);
    let mut right = no_keys();
    right.right = true;
    editor.edit_script(&right, &level);
    assert_eq!(editor.cursor, 3);
    let mut home = no_keys();
    home.home = true;
    editor.edit_script(&home, &level);
    assert_eq!(editor.cursor, 0);
    let mut back = no_keys();
    back.backspace = true;
    editor.edit_script(&back, &level);
    assert_eq!((editor.entered.len(), editor.cursor), (3, 0));
    let mut del = no_keys();
    del.delete = true;
    editor.edit_script(&del, &level);
    assert_eq!((editor.entered.len(), editor.cursor), (2, 0));
    let mut end_back = no_keys();
    end_back.end = true;
    end_back.backspace = true;
    editor.edit_script(&end_back, &level);
    assert_eq!((editor.entered.len(), editor.cursor), (1, 1));
    let mut left = no_keys();
    left.left = true;
    editor.edit_script(&left, &level);
    assert_eq!(editor.cursor, 0);
}

#[test]
fn closed_editor_ignores_keys() {
    let level = Level::default();
    let mut editor = EditorState::new();
    editor.enabled = false;
    let mut keys = no_keys();
    keys.typed = vec![ScriptCommand::Walk];
    keys.end = true;
    assert!(!editor.edit_script(&keys, &level));
    assert!(editor.entered.is_empty());
}

#[test]
fn submit_pads_and_checks_the_budget() {
    let mut level = Level::default();
    let mut editor = EditorState::new();
    let mut player = PlayerState::new();
    assert_eq!(editor.submit_script(&mut player, &level), SubmitOutcome::Empty);

    editor.entered = parse_script("w)");
    editor.cursor = 0;
    assert_eq!(editor.submit_script(&mut player, &level), SubmitOutcome::OverBudget);
    assert_eq!(editor.entered, vec![Open, ScriptCommand::Walk, Close]);
    assert_eq!(editor.cursor, 3);
    assert!(editor.enabled);
    assert!(player.sequence.is_empty());

    level.command_count = 3;
    player.cursor = 0;
    assert_eq!(editor.submit_script(&mut player, &level), SubmitOutcome::Accepted);
    assert!(!editor.enabled);
    assert_eq!(player.sequence, vec![Open, ScriptCommand::Walk, Close]);
    assert_eq!(player.cursor, 0);
}

#[test]
fn display_shows_padding_cursor_and_free_slots() {
    let mut editor = EditorState::new();
    editor.entered = parse_script("w)");
    editor.cursor = 1;
    let items = show_script(&editor, None, 4);
    let open = EditorItem::Command { command: Open, tint: Tint::InBudget, padding: true };
    let walk = EditorItem::Command { command: ScriptCommand::Walk, tint: Tint::InBudget, padding: false };
    let close = EditorItem::Command { command: Close, tint: Tint::InBudget, padding: false };
    assert_eq!(items, vec![open, walk, EditorItem::Cursor, close, EditorItem::Empty]);

    let running = show_script(&editor, Some((0, false)), 2);
    let blocked = EditorItem::Command { command: ScriptCommand::Walk, tint: Tint::Blocked, padding: false };
    let over = EditorItem::Command { command: Close, tint: Tint::OverBudget, padding: false };
    assert_eq!(running, vec![open, blocked, over]);
}

#[test]
fn icons_follow_the_command_list() {
    assert_eq!(EditorAssets::get_atlas_index(&ScriptCommand::Walk), 0);
    assert_eq!(EditorAssets::get_atlas_index(&ScriptCommand::Jump), 5);
    assert_eq!(EditorAssets::get_atlas_index(&Close), 7);
    assert_eq!(EditorAssets::EMPTY_SLOT, 8);
}
