use cian_tui::lang::Lang;
use cian_tui::state::{
    App, Config, Effect, Entry, FocusedPane, KeyCode, KeyPress, Layout, Mode, OpState, Pane, Popup,
    UndoAction,
};

fn entry(name: &str) -> Entry {
    Entry { name: name.to_string(), path: format!("/w/{name}"), is_dir: false, is_parent: false }
}

fn app() -> App {
    let left = Pane::new("/w".to_string(), vec![entry("a"), entry("b"), entry("c")]);
    let right = Pane::new("/v".to_string(), Vec::new());
    App::new(
        Lang::En,
        left,
        right,
        Config::default(),
        OpState::new(30, 5, 10),
        "sh".to_string(),
        Layout { main_pct: 60, panes_pct: 50, min_pct: 10 },
    )
}

fn key(c: char) -> KeyPress {
    KeyPress { code: KeyCode::Char(c), ctrl: false, shift: false, alt: false }
}

fn ctrl(c: char) -> KeyPress {
    KeyPress { code: KeyCode::Char(c), ctrl: true, shift: false, alt: false }
}

#[test]
fn j_and_k_move_within_the_listing() {
    let mut a = app();
    a.handle_normal_key(key('k'));
    assert_eq!(a.left.tabs[0].cursor, 0, "the cursor does not go above the first row");
    a.handle_normal_key(key('j'));
    a.handle_normal_key(KeyPress { code: KeyCode::Down, ctrl: false, shift: false, alt: false });
    a.handle_normal_key(key('j'));
    assert_eq!(a.left.tabs[0].cursor, 2, "nor below the last");
    a.handle_normal_key(key('U'));
    assert_eq!(a.left.tabs[0].cursor, 0);
    a.handle_normal_key(key('G'));
    assert_eq!(a.left.tabs[0].cursor, 2);
    a.handle_normal_key(key('g'));
    a.handle_normal_key(key('g'));
    assert_eq!(a.left.tabs[0].cursor, 0);
}

#[test]
fn space_marks_and_moves_on() {
    let mut a = app();
    a.handle_normal_key(key(' '));
    assert_eq!(a.left.tabs[0].marks, vec!["/w/a".to_string()]);
    assert_eq!(a.left.tabs[0].cursor, 1);
    a.handle_normal_key(KeyPress { code: KeyCode::Char(' '), ctrl: false, shift: true, alt: false });
    assert_eq!(a.left.tabs[0].marks.len(), 2);
    assert_eq!(a.left.tabs[0].cursor, 0);
    a.handle_normal_key(key(' '));
    assert_eq!(a.left.tabs[0].marks, vec!["/w/b".to_string()], "a second Space unmarks");
}

#[test]
fn ctrl_a_marks_everything() {
    let mut a = app();
    a.handle_normal_key(ctrl('a'));
    assert_eq!(a.left.tabs[0].marks.len(), 3);
}

#[test]
fn q_asks_before_quitting_and_colon_opens_the_command_line() {
    let mut a = app();
    a.handle_normal_key(key('q'));
    assert!(matches!(a.popup, Popup::ConfirmQuit));
    let mut b = app();
    b.handle_normal_key(key(':'));
    assert_eq!(b.mode, Mode::Command);
}

#[test]
fn the_arrows_switch_panes() {
    let mut a = app();
    a.handle_normal_key(KeyPress { code: KeyCode::Right, ctrl: false, shift: false, alt: false });
    assert_eq!(a.focused, FocusedPane::Right);
    a.handle_normal_key(KeyPress { code: KeyCode::Left, ctrl: false, shift: false, alt: false });
    assert_eq!(a.focused, FocusedPane::Left);
}

#[test]
fn u_hands_the_last_step_over() {
    let mut a = app();
    a.ops.undo_stack.push(UndoAction::Created { path: "/w/n".into() });
    a.handle_normal_key(key('u'));
    assert!(a.ops.undo_stack.is_empty());
    assert!(matches!(a.effects.last(), Some(Effect::Undo { action: UndoAction::Created { path } }) if path == "/w/n"));
    let before = a.effects.len();
    a.handle_normal_key(key('u'));
    assert_eq!(a.effects.len(), before, "with nothing to undo nothing is handed over");
}

#[test]
fn an_unbound_key_goes_to_the_front_end() {
    let mut a = app();
    a.handle_normal_key(key('~'));
    assert!(matches!(a.effects.last(), Some(Effect::NormalKey { .. })));
}
