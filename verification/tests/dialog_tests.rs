use cian_tui::lang::Lang;
use cian_tui::state::{
    App, Config, Effect, Entry, InputKind, KeyCode, Layout, OpState, OpWork, Pane, PendingOp, Popup,
    Shortcut, UndoAction,
};

fn app() -> App {
    let left = Pane::new("/w".to_string(), Vec::<Entry>::new());
    let right = Pane::new("/v".to_string(), Vec::new());
    App::new(
        Lang::En,
        left,
        right,
        Config::default(),
        OpState::new(30, 5, 10),
        "sh".to_string(),
        Layout { main_pct: 60, panes_pct: 50, min_pct: 10 },
    )
}

fn saved(_: &Vec<Shortcut>) -> Result<(), String> {
    Ok(())
}

#[test]
fn yes_to_a_move_starts_it_with_its_undo() {
    let mut a = app();
    a.popup = Popup::ConfirmTransfer { op: PendingOp::Move, targets: vec!["/w/a.txt".into()], dest: "/v".into() };
    a.confirm_dialog_key(KeyCode::Enter, 7, Vec::new(), saved);
    assert!(matches!(a.popup, Popup::Closed));
    assert_eq!(a.ops.dest_history, vec!["/v".to_string()]);
    let job = a.ops.job.as_ref().expect("the move runs");
    assert_eq!(job.label, "moving");
    assert!(matches!(&job.undo, Some(UndoAction::Moved { pairs }) if pairs.len() == 1 && pairs[0].1 == "/w/a.txt"));
    assert!(matches!(a.effects.last(), Some(Effect::SpawnOp { work: OpWork::Transfer { op: PendingOp::Move, .. }, .. })));
}

#[test]
fn a_copy_that_creates_nothing_has_nothing_to_undo() {
    let mut a = app();
    a.popup = Popup::ConfirmTransfer { op: PendingOp::Copy, targets: vec!["/w/a".into()], dest: "/v".into() };
    a.confirm_dialog_key(KeyCode::Char('a'), 7, Vec::new(), saved);
    let job = a.ops.job.as_ref().unwrap();
    assert!(job.undo.is_none());
    assert!(matches!(a.effects.last(), Some(Effect::SpawnOp { work: OpWork::Transfer { conflict: cian_tui::state::Conflict::Overwrite, .. }, .. })));
}

#[test]
fn a_delete_goes_to_the_trash_unless_a_is_pressed() {
    let mut a = app();
    a.popup = Popup::ConfirmDelete { targets: vec!["/w/a".into()] };
    a.confirm_dialog_key(KeyCode::Char('y'), 1, Vec::new(), saved);
    assert!(matches!(a.effects.last(), Some(Effect::SpawnOp { work: OpWork::Delete { permanent: false, .. }, .. })));
    let mut b = app();
    b.popup = Popup::ConfirmDelete { targets: vec!["/w/a".into()] };
    b.confirm_dialog_key(KeyCode::Char('a'), 1, Vec::new(), saved);
    assert!(matches!(b.effects.last(), Some(Effect::SpawnOp { work: OpWork::Delete { permanent: true, .. }, .. })));
}

#[test]
fn r_renames_a_single_item_on_its_way() {
    let mut a = app();
    a.popup = Popup::ConfirmTransfer { op: PendingOp::Copy, targets: vec!["/w/a.txt".into()], dest: "/v".into() };
    a.confirm_dialog_key(KeyCode::Char('r'), 0, Vec::new(), saved);
    assert!(matches!(&a.popup, Popup::TextInput { title, buffer, kind: InputKind::TransferAs { .. }, .. } if title == "copy as" && buffer == "a.txt"));
    let mut b = app();
    b.popup = Popup::ConfirmTransfer { op: PendingOp::Copy, targets: vec!["/w/a".into(), "/w/b".into()], dest: "/v".into() };
    b.confirm_dialog_key(KeyCode::Char('r'), 0, Vec::new(), saved);
    assert_eq!(b.message.as_deref(), Some("rename applies to a single item"));
}

#[test]
fn quitting_asks_first() {
    let mut a = app();
    a.start_quit_confirm();
    a.confirm_dialog_key(KeyCode::Char('x'), 0, Vec::new(), saved);
    assert!(matches!(a.popup, Popup::ConfirmQuit));
    a.confirm_dialog_key(KeyCode::Char('y'), 0, Vec::new(), saved);
    assert!(matches!(a.effects.last(), Some(Effect::Quit)));
}
