use cian_tui::lang::Lang;
use cian_tui::state::{App, Config, Effect, Entry, Layout, OpState, Pane, UndoAction};
use cian_tui::undo::{RedoOutcome, UndoOutcome};

fn app() -> App {
    let left = Pane::new("/w".to_string(), Vec::<Entry>::new());
    let right = Pane::new("/v".to_string(), Vec::new());
    App::new(
        Lang::En,
        left,
        right,
        Config::default(),
        OpState::new(30, 5, 10),
        "sh".to_string(),
        Layout { main_pct: 60, panes_pct: 50, min_pct: 10 },
    )
}

#[test]
fn nothing_to_undo_or_redo_is_said() {
    let mut a = app();
    assert!(a.undo_last().is_none());
    assert_eq!(a.message.as_deref(), Some("nothing to undo"));
    assert!(a.redo_last().is_none());
    assert_eq!(a.message.as_deref(), Some("nothing to redo"));
}

#[test]
fn undo_then_redo_walks_the_same_chain() {
    let mut a = app();
    a.record_undo(UndoAction::Rename { from: "/w/a".into(), to: "/w/b".into() });
    let u = a.undo_last().unwrap();
    assert!(matches!(&u, UndoAction::Rename { from, .. } if from == "/w/a"));
    assert!(a.ops.undo_stack.is_empty());
    assert_eq!(a.ops.redo_stack.len(), 1);
    a.finish_undo(UndoOutcome::RenamedBack { from: "/w/a".into(), result: Ok(()) });
    assert_eq!(a.message.as_deref(), Some("undo: renamed back to /w/a"));
    assert!(matches!(a.effects.last(), Some(Effect::ReloadPanes)));
    let r = a.redo_last().unwrap();
    assert!(matches!(&r, UndoAction::Rename { to, .. } if to == "/w/b"));
    assert_eq!(a.ops.undo_stack.len(), 1);
    assert!(a.ops.redo_stack.is_empty());
    a.finish_redo(RedoOutcome::Renamed { to: "/w/b".into(), result: Ok(()) });
    assert_eq!(a.message.as_deref(), Some("redo: renamed to /w/b"));
}

#[test]
fn a_made_file_cannot_be_redone() {
    let mut a = app();
    a.record_undo(UndoAction::Created { path: "/w/new".into() });
    a.undo_last();
    assert!(a.ops.redo_stack.is_empty());
    a.finish_undo(UndoOutcome::Removed { path: "/w/new".into(), result: Err("not empty".into()) });
    assert_eq!(a.message.as_deref(), Some("undo failed: not empty"));
}

#[test]
fn moves_report_what_could_not_be_undone() {
    let mut a = app();
    a.finish_undo(UndoOutcome::MovedBack { ok: 2, fail: 1 });
    assert_eq!(a.message.as_deref(), Some("undo: moved 2 back, 1 could not be undone"));
    a.finish_redo(RedoOutcome::MovedAgain { ok: 3, fail: 0 });
    assert_eq!(a.message.as_deref(), Some("redo: moved 3 again"));
}

#[test]
fn copies_left_behind_stay_undoable() {
    let mut a = app();
    a.ops.redo_stack.push(UndoAction::Created { path: "/x".into() });
    a.finish_undo(UndoOutcome::Trashed {
        ok: 1,
        errors: vec!["/v/b: denied".into()],
        srcs: vec!["/w/a".into(), "/w/b".into()],
        dest: "/v".into(),
        left: vec!["/v/b".into()],
    });
    assert_eq!(a.message.as_deref(), Some("undo: 1 to the trash, 1 left — /v/b: denied"));
    assert!(a.ops.redo_stack.is_empty());
    assert!(matches!(a.ops.undo_stack.last(), Some(UndoAction::Copied { paths, .. }) if paths == &vec!["/v/b".to_string()]));
}
