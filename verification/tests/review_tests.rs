use cian_tui::drop::percent_decode;
use cian_tui::keymap::Action;
use cian_tui::lang::Lang;
use cian_tui::state::{
    App, Config, Effect, Entry, FocusedPane, KeyCode, KeyPress, Layout, Mode, NavTarget, OpState, Pane,
    PendingOp, Popup, UndoAction,
};

fn entry(name: &str, dir: bool) -> Entry {
    Entry { name: name.into(), path: format!("/w/{name}"), is_dir: dir, is_parent: false }
}

fn app() -> App {
    let left = Pane::new("/w".to_string(), vec![entry("a", false), entry("d", true)]);
    let right = Pane::new("/v".to_string(), Vec::new());
    App::new(
        Lang::En,
        left,
        right,
        Config::default(),
        OpState::new(30, 5, 10),
        "sh".to_string(),
        Layout { main_pct: 60, panes_pct: 50, min_pct: 10 },
    )
}

fn key(code: KeyCode) -> KeyPress {
    KeyPress { code, ctrl: false, shift: false, alt: false }
}

fn run(a: &mut App, line: &str) {
    a.enter_command_mode();
    for c in line.chars() {
        a.handle_command_key(key(KeyCode::Char(c)), None);
    }
    a.handle_command_key(key(KeyCode::Enter), None);
}

#[test]
fn rm_with_a_name_says_it_takes_none() {
    let mut a = app();
    let before = a.effects.len();
    run(&mut a, "rm oldfile.txt");
    assert_eq!(a.message.as_deref(), Some("rm works on the marks, or the file under the cursor — it takes no name"));
    assert_eq!(a.effects.len(), before);
    assert!(matches!(a.popup, Popup::Closed));
    run(&mut a, "rm");
    assert!(matches!(&a.popup, Popup::ConfirmDelete { targets } if targets == &vec!["/w/a".to_string()]));
}

#[test]
fn stepping_forward_outside_the_history_keeps_the_line() {
    let mut a = app();
    run(&mut a, "hidden");
    a.enter_command_mode();
    a.set_command_line("typed".to_string());
    a.walk_command_history(1);
    assert_eq!(a.cmd.buffer, "typed");
    a.walk_command_history(-1);
    assert_eq!(a.cmd.buffer, "hidden");
    a.walk_command_history(1);
    assert_eq!(a.cmd.buffer, "typed");
    assert_eq!(a.cmd.cursor, 5);
    assert!(a.cmd.hist_at.is_none());
}

#[test]
fn only_two_hex_digits_make_an_escape() {
    assert_eq!(percent_decode("/d/My%20File.txt"), "/d/My File.txt");
    assert_eq!(percent_decode("100%"), "100%");
    assert_eq!(percent_decode("a%zzb"), "a%zzb");
    assert_eq!(percent_decode("a%+1b"), "a%+1b");
}

#[test]
fn c_asks_to_copy_to_the_other_pane() {
    let mut a = app();
    a.handle_normal_key(key(KeyCode::Char('c')));
    assert!(matches!(&a.popup, Popup::ConfirmTransfer { op: PendingOp::Copy, targets, dest }
        if targets == &vec!["/w/a".to_string()] && dest == "/v"));
}

#[test]
fn moving_out_of_an_archive_is_refused_and_copying_extracts() {
    let mut a = app();
    a.left.tabs[0].in_archive = true;
    a.start_transfer(PendingOp::Move);
    assert_eq!(a.message.as_deref(), Some("an archive cannot be moved out of. copy extracts instead"));
    a.start_transfer(PendingOp::Copy);
    assert!(matches!(a.effects.last(), Some(Effect::ArchiveCopyOut { dest }) if dest == "/v"));
}

#[test]
fn copying_toward_a_zip_adds_to_it_and_nothing_to_copy_is_said() {
    let mut a = app();
    a.right.tabs[0].in_archive = true;
    a.start_transfer(PendingOp::Move);
    assert_eq!(a.message.as_deref(), Some("copy adds to the zip; move is not supported"));
    a.start_transfer(PendingOp::Copy);
    assert!(matches!(a.effects.last(), Some(Effect::ZipAdd { sources }) if sources == &vec!["/w/a".to_string()]));
    let mut b = app();
    b.left.tabs[0] = Pane::new("/w".to_string(), Vec::new());
    b.start_transfer(PendingOp::Copy);
    assert_eq!(b.message.as_deref(), Some("nothing to operate on"));
}

#[test]
fn a_bound_key_runs_its_action_and_others_keep_their_default() {
    let mut a = app();
    a.bind_key('x', false, false, Action::Delete);
    a.bind_key('j', false, false, Action::CursorBottom);
    a.handle_normal_key(key(KeyCode::Char('x')));
    assert!(matches!(a.popup, Popup::ConfirmDelete { .. }));
    a.popup = Popup::Closed;
    a.handle_normal_key(key(KeyCode::Char('j')));
    assert_eq!(a.left.tabs[0].cursor, 1);
    a.handle_normal_key(key(KeyCode::Char('k')));
    assert_eq!(a.left.tabs[0].cursor, 0, "an unbound key keeps its default");
    a.bind_key('j', false, false, Action::Nop);
    a.handle_normal_key(key(KeyCode::Char('j')));
    assert_eq!(a.left.tabs[0].cursor, 0, "the later binding wins");
}

#[test]
fn enter_dir_and_refresh_actions() {
    let mut a = app();
    a.execute_action(Action::CursorDown);
    a.execute_action(Action::EnterDir);
    assert!(matches!(a.effects.last(), Some(Effect::Navigate { to: NavTarget::Path(p) }) if p == "/w/d"));
    a.execute_action(Action::Refresh);
    assert!(matches!(a.effects.last(), Some(Effect::ReloadPanes)));
    assert_eq!(a.message.as_deref(), Some("refreshed"));
    a.execute_action(Action::Command);
    assert_eq!(a.mode, Mode::Command);
}

#[test]
fn file_tabs_switch_and_close_after_asking() {
    let mut a = app();
    a.left.add_tab(Pane::new("/x".to_string(), Vec::new()));
    assert_eq!(a.left.active, 1);
    a.handle_normal_key(KeyPress { code: KeyCode::F(2), ctrl: false, shift: true, alt: false });
    assert_eq!(a.left.active, 0, "stepping on from the last tab goes round");
    a.handle_normal_key(KeyPress { code: KeyCode::F(1), ctrl: false, shift: true, alt: false });
    assert_eq!(a.left.active, 1);
    a.handle_normal_key(KeyPress { code: KeyCode::F(10), ctrl: false, shift: true, alt: false });
    assert!(matches!(a.popup, Popup::ConfirmCloseTab { side: FocusedPane::Left }));
    a.close_tab_key(KeyCode::Char('n'));
    assert_eq!(a.left.tabs.len(), 2);
    a.ask_close_tab();
    a.close_tab_key(KeyCode::Char('y'));
    assert_eq!(a.left.tabs.len(), 1);
    assert_eq!(a.left.active, 0);
    assert_eq!(a.left.tabs[0].cwd, "/w");
    a.close_file_tab();
    assert_eq!(a.left.tabs.len(), 1, "the only tab stays");
}

#[test]
fn ctrl_r_redoes_what_u_undid() {
    let mut a = app();
    a.ops.undo_stack.push(UndoAction::Rename { from: "/w/x".into(), to: "/w/y".into() });
    a.handle_normal_key(key(KeyCode::Char('u')));
    assert!(a.ops.undo_stack.is_empty());
    assert_eq!(a.ops.redo_stack.len(), 1);
    a.handle_normal_key(KeyPress { code: KeyCode::Char('r'), ctrl: true, shift: false, alt: false });
    assert!(a.ops.redo_stack.is_empty());
    assert!(matches!(a.ops.undo_stack.last(), Some(UndoAction::Rename { from, to }) if from == "/w/x" && to == "/w/y"));
    assert!(matches!(a.effects.last(), Some(Effect::Redo { .. })));
}

#[test]
fn shift_v_turns_the_marks_over_and_backspace_peels_a_layer() {
    let mut a = app();
    a.handle_normal_key(key(KeyCode::Char(' ')));
    assert_eq!(a.left.tabs[0].marks, vec!["/w/a".to_string()]);
    a.handle_normal_key(KeyPress { code: KeyCode::Char('V'), ctrl: false, shift: true, alt: false });
    assert_eq!(a.left.tabs[0].marks, vec!["/w/d".to_string()]);
    a.left.tabs[0].filter = "d".into();
    a.filter_buffer = "d".into();
    a.handle_normal_key(key(KeyCode::Backspace));
    assert!(a.left.tabs[0].filter.is_empty() && a.filter_buffer.is_empty());
    a.handle_normal_key(key(KeyCode::Backspace));
    assert!(matches!(a.effects.last(), Some(Effect::Navigate { to: NavTarget::Parent })));
}

#[test]
fn esc_drops_marks_and_filter_and_enter_opens_the_selection() {
    let mut a = app();
    a.handle_normal_key(key(KeyCode::Char(' ')));
    a.left.tabs[0].filter = "a".into();
    a.handle_normal_key(key(KeyCode::Esc));
    assert!(a.left.tabs[0].marks.is_empty() && a.left.tabs[0].filter.is_empty());
    a.left.tabs[0].flat = true;
    a.handle_normal_key(key(KeyCode::Esc));
    assert!(matches!(a.effects.last(), Some(Effect::Navigate { to: NavTarget::LeaveListing })));
    a.handle_normal_key(key(KeyCode::Enter));
    assert!(matches!(a.effects.last(), Some(Effect::OpenSelected)));
}
