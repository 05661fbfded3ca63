use cian_tui::count::group;
use cian_tui::lang::Lang;
use cian_tui::ops::UNDO_CAP;
use cian_tui::state::{App, Config, Entry, Layout, OpState, Pane, UndoAction};

fn app() -> App {
    let left = Pane::new("/w".to_string(), Vec::<Entry>::new());
    let right = Pane::new("/v".to_string(), Vec::new());
    App::new(
        Lang::En,
        left,
        right,
        Config::default(),
        OpState::new(30, 5, 10),
        "sh".to_string(),
        Layout { main_pct: 60, panes_pct: 50, min_pct: 10 },
    )
}

#[test]
fn groups_thousands_everywhere() {
    assert_eq!(group(0), "0");
    assert_eq!(group(999), "999");
    assert_eq!(group(1000), "1,000");
    assert_eq!(group(12345678), "12,345,678");
}

#[test]
fn the_undo_stack_keeps_only_the_newest() {
    let mut a = app();
    a.ops.redo_stack.push(UndoAction::Created { path: "/r".into() });
    for i in 0..(UNDO_CAP + 6) {
        a.record_undo(UndoAction::Created { path: format!("/f{i}") });
    }
    assert_eq!(a.ops.undo_stack.len(), UNDO_CAP);
    assert!(a.ops.redo_stack.is_empty(), "doing something new ends the redo chain");
    assert!(matches!(a.ops.undo_stack.last(), Some(UndoAction::Created { path }) if path == &format!("/f{}", UNDO_CAP + 5)));
    assert!(matches!(a.ops.undo_stack.first(), Some(UndoAction::Created { path }) if path == "/f6"));
}

#[test]
fn walking_back_and_forward_returns_to_the_draft() {
    let mut a = app();
    a.cmd.history = vec!["ls".into(), "pwd".into()];
    a.set_command_line("half".into());
    a.walk_command_history(-1);
    assert_eq!(a.cmd.buffer, "pwd");
    a.walk_command_history(-1);
    assert_eq!(a.cmd.buffer, "ls");
    a.walk_command_history(-1);
    assert_eq!(a.cmd.buffer, "ls", "the oldest stays");
    a.walk_command_history(1);
    a.walk_command_history(1);
    assert_eq!(a.cmd.buffer, "half", "past the newest is what was being typed");
}
