//! Text entry: entering and leaving the two sub-modes, editing the
//! query, and the caret policy.

use kmon::command::ModuleCommand;
use kmon::focus::Blocks;
use kmon::input::InputMode;
use kmon::key::Key;
use kmon::scroll::ScrollDirection;
use kmon::session::{Action, Session};

fn module_names() -> Vec<String> {
    vec!["ext4".to_string(), "kvm".to_string(), "fuse".to_string()]
}

fn type_query(s: &mut Session, text: &str) {
    for c in text.chars() {
        s.handle_key(Key::Char(c));
    }
}

#[test]
fn load_trigger_clears_query_enter_preserves_it() {
    // Build up a query, leave search mode, then re-enter text entry.
    let mut s = Session::new(module_names(), 0, 0, 1);
    s.handle_key(Key::Char('s'));
    type_query(&mut s, "kv");
    s.handle_key(Key::Char('\t'));
    assert_eq!(s.input_mode, InputMode::Idle);
    assert_eq!(s.input_query, "kv");
    // The 'm' trigger selects Load and clears the old query.
    s.handle_key(Key::Char('m'));
    assert_eq!(s.input_mode, InputMode::Load);
    assert_eq!(s.input_query, "");
    s.handle_key(Key::Esc);

    let mut s2 = Session::new(module_names(), 0, 0, 1);
    s2.handle_key(Key::Char('s'));
    type_query(&mut s2, "kv");
    s2.handle_key(Key::Char('\t'));
    // The enter trigger resumes the previous query.
    s2.handle_key(Key::Char('\n'));
    assert_eq!(s2.input_mode, InputMode::Search);
    assert_eq!(s2.input_query, "kv");
}

#[test]
fn entry_triggers_pick_sub_mode_and_focus() {
    for (k, mode) in [
        (Key::Char('s'), InputMode::Search),
        (Key::Char('S'), InputMode::Search),
        (Key::Char('/'), InputMode::Search),
        (Key::Insert, InputMode::Search),
        (Key::Char('\n'), InputMode::Search),
        (Key::Char('m'), InputMode::Load),
        (Key::Char('M'), InputMode::Load),
        (Key::Char('i'), InputMode::Load),
        (Key::Char('I'), InputMode::Load),
        (Key::Char('+'), InputMode::Load),
    ] {
        let mut s = Session::new(module_names(), 0, 0, 1);
        s.handle_key(k);
        assert_eq!(s.input_mode, mode);
        assert_eq!(s.selected_block, Blocks::UserInput);
    }
}

#[test]
fn typing_edits_query_and_resets_selection() {
    let mut s = Session::new(module_names(), 0, 0, 1);
    s.handle_key(Key::Down);
    assert_eq!(s.list_index, 1);
    s.handle_key(Key::Char('s'));
    type_query(&mut s, "fu");
    assert_eq!(s.input_query, "fu");
    assert_eq!(s.list_index, 0);
    s.handle_key(Key::Backspace);
    assert_eq!(s.input_query, "f");
    s.handle_key(Key::Delete);
    assert_eq!(s.input_query, "");
    // Deleting from an empty query stays empty.
    s.handle_key(Key::Backspace);
    assert_eq!(s.input_query, "");
}

#[test]
fn sub_mode_switch_clears_query() {
    let mut s = Session::new(module_names(), 0, 0, 1);
    s.handle_key(Key::Char('s'));
    type_query(&mut s, "abc");
    s.handle_key(Key::Down);
    assert_eq!(s.input_mode, InputMode::Load);
    assert_eq!(s.input_query, "");
    type_query(&mut s, "xy");
    s.handle_key(Key::Up);
    assert_eq!(s.input_mode, InputMode::Search);
    assert_eq!(s.input_query, "");
    s.handle_key(Key::Up);
    assert_eq!(s.input_mode, InputMode::Load);
    s.handle_key(Key::Down);
    assert_eq!(s.input_mode, InputMode::Search);
}

#[test]
fn leaving_search_keeps_query_for_filtering() {
    let mut s = Session::new(module_names(), 0, 0, 1);
    s.handle_key(Key::Char('/'));
    type_query(&mut s, "kv");
    s.handle_key(Key::Right);
    assert_eq!(s.input_mode, InputMode::Idle);
    assert_eq!(s.input_query, "kv");
    assert_eq!(s.selected_block, Blocks::ModuleTable);
    assert_eq!(s.command, ModuleCommand::Idle);
}

#[test]
fn leaving_search_at_top_rescrolls_to_top() {
    let mut s = Session::new(module_names(), 0, 0, 1);
    s.handle_key(Key::Down);
    s.handle_key(Key::Char('s'));
    type_query(&mut s, "e");
    assert_eq!(s.list_index, 0);
    s.handle_key(Key::Char('\n'));
    assert_eq!(s.list_scroll, ScrollDirection::Top);
    assert_eq!(s.selected_block, Blocks::ModuleTable);
}

#[test]
fn submitting_load_stages_typed_module_name() {
    let mut s = Session::new(module_names(), 0, 0, 1);
    s.handle_key(Key::Char('m'));
    type_query(&mut s, "dummy");
    s.handle_key(Key::Char('\n'));
    assert_eq!(s.input_mode, InputMode::Idle);
    assert_eq!(s.command, ModuleCommand::Load);
    assert_eq!(s.command_target, "dummy");
    assert_eq!(s.input_query, "");
    assert_eq!(s.selected_block, Blocks::ModuleInfo);
    assert_eq!(s.handle_key(Key::Char('y')), Action::Execute);
}

#[test]
fn submitting_load_with_empty_query_is_noop() {
    let mut s = Session::new(module_names(), 0, 0, 1);
    s.handle_key(Key::Char('i'));
    s.handle_key(Key::Char('\n'));
    assert_eq!(s.input_mode, InputMode::Idle);
    assert_eq!(s.command, ModuleCommand::Idle);
    assert_eq!(s.selected_block, Blocks::ModuleInfo);
}

#[test]
fn leftward_exit_steps_focus_backward() {
    let mut s = Session::new(module_names(), 0, 0, 1);
    s.handle_key(Key::Char('s'));
    assert_eq!(s.selected_block, Blocks::UserInput);
    s.handle_key(Key::Down);
    s.handle_key(Key::Left);
    assert_eq!(s.input_mode, InputMode::Idle);
    assert_eq!(s.selected_block, Blocks::Activities);
}

#[test]
fn quit_keys_work_inside_text_entry() {
    let mut s = Session::new(module_names(), 0, 0, 1);
    s.handle_key(Key::Char('s'));
    assert_eq!(s.handle_key(Key::Ctrl('c')), Action::Quit);
    let mut s2 = Session::new(module_names(), 0, 0, 1);
    s2.handle_key(Key::Char('m'));
    assert_eq!(s2.handle_key(Key::Esc), Action::Quit);
    // Plain quit letters are ordinary characters here.
    let mut s3 = Session::new(module_names(), 0, 0, 1);
    s3.handle_key(Key::Char('s'));
    assert_eq!(s3.handle_key(Key::Char('q')), Action::Nothing);
    assert_eq!(s3.input_query, "q");
}

#[test]
fn caret_hidden_at_rest_and_tracks_query_width() {
    let mut s = Session::new(module_names(), 0, 0, 1);
    assert_eq!(s.cursor_position(), None);
    s.handle_key(Key::Char('s'));
    assert_eq!(s.cursor_position(), Some((2, 2)));
    type_query(&mut s, "ab");
    assert_eq!(s.cursor_position(), Some((4, 2)));
}

#[test]
fn caret_column_counts_display_width_not_chars() {
    let mut s = Session::new(module_names(), 0, 0, 1);
    s.handle_key(Key::Char('s'));
    // One ideographic character occupies two columns.
    s.handle_key(Key::Char('\u{3042}'));
    assert_eq!(s.cursor_position(), Some((4, 2)));
    // A combining mark occupies none.
    s.handle_key(Key::Char('\u{0301}'));
    assert_eq!(s.cursor_position(), Some((4, 2)));
}
