use cian_tui::dispatch::KeyContext;
use cian_tui::lang::Lang;
use cian_tui::pane_keys::RemoteKey;
use cian_tui::shortcut_keys::{shortcut_plan, ShortcutPlan};
use cian_tui::state::{
    App, Config, Effect, Entry, FocusedPane, KeyCode, KeyPress, Layout, NavTarget, OpState, Pane, PendingOp,
    Popup, Shortcut,
};
use cian_tui::viewer_open::{viewer_layout_of, ViewKind};

fn entry(name: &str) -> Entry {
    Entry { name: name.into(), path: format!("/w/{name}"), is_dir: false, is_parent: false }
}

fn app() -> App {
    let left = Pane::new("/w".to_string(), vec![entry("a"), entry("b")]);
    let right = Pane::new("/v".to_string(), Vec::new());
    App::new(
        Lang::En,
        left,
        right,
        Config::default(),
        OpState::new(30, 5, 10),
        "sh".to_string(),
        Layout { main_pct: 60, panes_pct: 50, min_pct: 10 },
    )
}

fn k(code: KeyCode, ctrl: bool, shift: bool, alt: bool) -> KeyPress {
    KeyPress { code, ctrl, shift, alt }
}

fn key(c: char) -> KeyPress {
    k(KeyCode::Char(c), false, false, false)
}

fn ctx() -> KeyContext {
    KeyContext {
        clipboard: None,
        now: 1,
        made: Vec::new(),
        alt_screen: false,
        dragged: false,
        shell_height: 20,
        split_across: false,
        split_stacked: false,
    }
}

fn save(_v: &Vec<Shortcut>) -> Result<(), String> {
    Ok(())
}

#[test]
fn p_copies_the_paths_and_the_outcome_is_reported() {
    let mut a = app();
    a.handle_normal_key(key(' '));
    a.handle_normal_key(key(' '));
    a.handle_normal_key(key('p'));
    assert!(matches!(a.effects.last(), Some(Effect::CopyPaths { text, count: 2 }) if text == "/w/a\n/w/b"));
    a.after_clipboard(2, Some(Ok(())));
    assert_eq!(a.message.as_deref(), Some("◂ copied 2 path(s) to clipboard"));
    a.after_clipboard(2, Some(Err("busy".into())));
    assert_eq!(a.message.as_deref(), Some("clipboard error: busy"));
    a.after_clipboard(2, None);
    assert_eq!(a.message.as_deref(), Some("clipboard unavailable"));
    a.after_file_refs(3, Ok(()));
    assert_eq!(a.message.as_deref(), Some("◂ copied 3 file ref(s) to clipboard"));
}

#[test]
fn cut_then_paste_offers_a_move_into_the_other_pane() {
    let mut a = app();
    a.handle_normal_key(k(KeyCode::Char('x'), true, false, false));
    assert!(a.keys.file_clip.as_ref().is_some_and(|c| c.cut && c.paths == vec!["/w/a".to_string()]));
    a.handle_normal_key(k(KeyCode::Right, false, false, false));
    a.handle_normal_key(key('y'));
    assert!(matches!(&a.popup, Popup::ConfirmTransfer { op: PendingOp::Move, targets, dest }
        if targets == &vec!["/w/a".to_string()] && dest == "/v"));
    assert!(a.keys.file_clip.is_none(), "a cut is pasted once");
    let mut b = app();
    b.handle_normal_key(k(KeyCode::Char('v'), true, false, false));
    assert!(matches!(b.effects.last(), Some(Effect::PasteFiles)));
    b.paste_paths(Vec::new());
    assert_eq!(b.message.as_deref(), Some("nothing to paste"));
}

#[test]
fn shift_hjkl_move_the_keyboard_and_alt_arrows_walk_history() {
    let mut a = app();
    a.handle_normal_key(k(KeyCode::Char('L'), false, true, false));
    assert_eq!(a.focused, FocusedPane::Right);
    a.handle_normal_key(k(KeyCode::Char('J'), false, true, false));
    assert_eq!(a.focused, FocusedPane::Shell);
    assert_eq!(a.last_file_pane, FocusedPane::Right);
    a.focus_direction('k');
    assert_eq!(a.focused, FocusedPane::Right);
    a.handle_normal_key(k(KeyCode::Char('h'), true, false, false));
    assert_eq!(a.focused, FocusedPane::Left);
    a.handle_normal_key(k(KeyCode::Left, false, false, true));
    assert!(matches!(a.effects.last(), Some(Effect::Navigate { to: NavTarget::Back })));
    a.handle_normal_key(k(KeyCode::Char('l'), false, false, true));
    assert!(matches!(a.effects.last(), Some(Effect::Navigate { to: NavTarget::Forward })));
    a.pane_go_back(false);
    assert_eq!(a.message.as_deref(), Some("no earlier directory"));
}

#[test]
fn full_width_keys_count_as_ascii_and_shift_matters_where_it_did() {
    let mut a = app();
    a.handle_normal_key(key('ｊ'));
    assert_eq!(a.left.tabs[0].cursor, 1);
    a.handle_normal_key(k(KeyCode::Char('t'), false, true, false));
    assert!(matches!(a.popup, Popup::Closed), "Shift+t is not t");
    a.handle_normal_key(key('t'));
    assert!(matches!(a.popup, Popup::ConfirmNewTab { .. }));
}

#[test]
fn the_key_report_shows_each_key() {
    let mut a = app();
    a.enter_command_mode();
    for c in "key".chars() {
        a.handle_command_key(key(c), None);
    }
    a.handle_command_key(k(KeyCode::Enter, false, false, false), None);
    assert!(a.keys.probe);
    assert_eq!(
        a.message.as_deref(),
        Some("showing every key as cian receives it. :keys again to stop [keyboard: legacy]")
    );
    a.handle_key(k(KeyCode::Char('x'), true, false, false), ctx(), save);
    assert_eq!(a.message.as_deref(), Some("key: Char('x')  Ctrl   (:keys to stop)"));
    a.handle_key(k(KeyCode::F(5), false, false, false), ctx(), save);
    assert_eq!(a.message.as_deref(), Some("key: F(5)  no modifier   (:keys to stop)"));
    a.toggle_key_probe();
    assert_eq!(a.message.as_deref(), Some("key report off"));
}

#[test]
fn the_viewer_starts_where_asked_within_the_file() {
    let l = viewer_layout_of("/d/README.Md", 40, 10, ViewKind::Text, false);
    assert_eq!((l.line, l.scroll, l.markdown, l.editable, l.highlight), (9, 5, true, true, false));
    let l = viewer_layout_of("/d/main.rs", 2, 0, ViewKind::Text, true);
    assert_eq!((l.line, l.scroll, l.markdown, l.editable, l.highlight), (0, 0, false, false, false));
    let l = viewer_layout_of("/d/.md", 3, 100, ViewKind::Binary, false);
    assert_eq!((l.line, l.scroll, l.markdown, l.editable, l.highlight), (3, 0, false, true, true));
    let mut a = app();
    let l = a.open_viewer_at("/w/a".into(), "a".into(), vec!["x".into(); 7], 6, ViewKind::Other, false);
    assert_eq!(l.line, 6);
    assert!(!l.editable);
    assert!(matches!(&a.popup, Popup::Viewer { line: 6, path, .. } if path == "/w/a"));
    assert!(matches!(a.effects.last(), Some(Effect::NoteRecentFile { path }) if path == "/w/a"));
}

#[test]
fn a_bookmark_target_is_read_as_an_address_or_a_place() {
    assert!(matches!(shortcut_plan("https://x.example", "/home/u"), ShortcutPlan::Address));
    assert!(matches!(shortcut_plan("~/src", "/home/u"), ShortcutPlan::Place { path, app_bundle: false } if path == "/home/u/src"));
    assert!(matches!(shortcut_plan("~", "/home/u"), ShortcutPlan::Place { path, .. } if path == "/home/u"));
    assert!(matches!(shortcut_plan("/Applications/Mail.APP/", "/h"), ShortcutPlan::Place { app_bundle: true, .. }));
    assert!(matches!(shortcut_plan("/x/.app", "/h"), ShortcutPlan::Place { app_bundle: false, .. }));
}

#[test]
fn remembering_a_destination_twice_is_remembering_it_once() {
    let mut a = app();
    a.remember_dest("/x");
    a.remember_dest("/y");
    a.remember_dest("/x");
    let once = a.ops.dest_history.clone();
    a.remember_dest("/x");
    assert_eq!(a.ops.dest_history, once);
    assert_eq!(once, vec!["/x".to_string(), "/y".to_string()]);
}

#[test]
fn a_remote_pane_reads_its_own_keys() {
    let mut a = app();
    a.left.tabs[0].remote = true;
    a.handle_normal_key(key('l'));
    assert!(matches!(a.effects.last(), Some(Effect::RemoteKey { action: RemoteKey::Enter })));
    a.handle_normal_key(key('m'));
    assert!(matches!(a.effects.last(), Some(Effect::RemoteTransfer { moving: true })));
    a.handle_normal_key(key('x'));
    assert_eq!(a.message.as_deref(), Some("remote pane: not available (c copy, m move, A/a/r/d write)"));
    a.handle_normal_key(key('j'));
    assert_eq!(a.left.tabs[0].cursor, 1, "moving still works on the fetched list");
}
