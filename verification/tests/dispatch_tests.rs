use cian_tui::dispatch::KeyContext;
use cian_tui::lang::Lang;
use cian_tui::shell_keys::{shell_key_action, ShellKey};
use cian_tui::state::{
    App, Config, Effect, Entry, FocusedPane, KeyCode, KeyPress, Layout, Mode, OpJob, OpState, Pane,
    Popup, Shortcut,
};

fn entry(name: &str) -> Entry {
    Entry { name: name.to_string(), path: format!("/w/{name}"), is_dir: false, is_parent: false }
}

fn app() -> App {
    let left = Pane::new("/w".to_string(), vec![entry("a"), entry("b")]);
    let right = Pane::new("/v".to_string(), Vec::new());
    App::new(
        Lang::En,
        left,
        right,
        Config::default(),
        OpState::new(30, 5, 10),
        "sh".to_string(),
        Layout { main_pct: 60, panes_pct: 50, min_pct: 10 },
    )
}

fn ctx() -> KeyContext {
    KeyContext {
        clipboard: None,
        now: 100,
        made: Vec::new(),
        alt_screen: false,
        dragged: false,
        shell_height: 20,
        split_across: false,
        split_stacked: false,
    }
}

fn press(code: KeyCode) -> KeyPress {
    KeyPress { code, ctrl: false, shift: false, alt: false }
}

fn save(_v: &Vec<Shortcut>) -> Result<(), String> {
    Ok(())
}

#[test]
fn tab_crosses_to_the_other_pane() {
    let mut a = app();
    a.handle_key(press(KeyCode::Tab), ctx(), save);
    assert_eq!(a.focused, FocusedPane::Right);
    a.handle_key(press(KeyCode::Tab), ctx(), save);
    assert_eq!(a.focused, FocusedPane::Left);
}

#[test]
fn keys_reach_normal_mode_and_the_popup_on_top() {
    let mut a = app();
    a.handle_key(press(KeyCode::Char('j')), ctx(), save);
    assert_eq!(a.left.tabs[0].cursor, 1);
    a.handle_key(press(KeyCode::Char('q')), ctx(), save);
    assert!(matches!(a.popup, Popup::ConfirmQuit));
    a.handle_key(press(KeyCode::Char('n')), ctx(), save);
    assert!(matches!(a.popup, Popup::Closed));
}

#[test]
fn a_running_operation_owns_the_keyboard() {
    let mut a = app();
    a.ops.job = Some(OpJob {
        label: "copying".into(),
        started: 1,
        cancel: false,
        cancel_requested: None,
        last_progress: 1,
        latest: (0, 0),
        undo: None,
    });
    a.handle_key(press(KeyCode::Char('j')), ctx(), save);
    assert_eq!(a.left.tabs[0].cursor, 0, "j is swallowed while the bar is up");
    a.handle_key(press(KeyCode::Char('b')), ctx(), save);
    assert!(a.ops.bar_hidden);
    assert_eq!(a.message.as_deref(), Some("running in the background — :queue to manage"));
    assert!(a.message_fresh);
    a.handle_key(press(KeyCode::Char('j')), ctx(), save);
    assert_eq!(a.left.tabs[0].cursor, 1, "tucked away, keys mean what they always do");
    assert_eq!(a.message.as_deref(), Some("running in the background — :queue to manage"));
    assert!(!a.message_fresh, "a key that says nothing leaves the old message, not fresh");
}

#[test]
fn question_mark_opens_the_manual_and_ctrl_shift_arrows_resize() {
    let mut a = app();
    a.handle_key(press(KeyCode::Char('?')), ctx(), save);
    assert!(matches!(a.effects.last(), Some(Effect::OpenManual)));
    a.handle_key(KeyPress { code: KeyCode::Right, ctrl: true, shift: true, alt: false }, ctx(), save);
    assert_eq!(a.layout.panes_pct, 54);
}

#[test]
fn a_full_width_colon_is_noticed_as_an_input_method() {
    let mut a = app();
    a.handle_key(press(KeyCode::Char('：')), ctx(), save);
    assert!(a.ime_warned);
    assert!(a.message.is_some());
    assert_eq!(a.mode, Mode::Command, "the full-width colon still opens the command line");
    a.handle_key(press(KeyCode::Esc), ctx(), save);
    a.handle_key(press(KeyCode::Char(':')), ctx(), save);
    assert!(!a.ime_warned);
    assert_eq!(a.mode, Mode::Command);
}

#[test]
fn the_shell_pane_reads_its_keys() {
    let k = |code, shift, ctrl| KeyPress { code, ctrl, shift, alt: false };
    assert_eq!(shell_key_action(k(KeyCode::PageUp, true, false), false, false, 20), ShellKey::ScrollBack { by: 18 });
    assert_eq!(shell_key_action(k(KeyCode::PageUp, true, false), true, false, 20), ShellKey::Forward);
    assert_eq!(shell_key_action(k(KeyCode::Esc, false, false), false, false, 20), ShellKey::FocusFiles);
    assert_eq!(shell_key_action(k(KeyCode::Esc, false, false), true, false, 20), ShellKey::Forward);
    assert_eq!(shell_key_action(k(KeyCode::F(3), false, false), false, false, 20), ShellKey::SelectTab { index: 2 });
    assert_eq!(shell_key_action(k(KeyCode::F(1), true, false), false, false, 20), ShellKey::PrevPane);
    assert_eq!(shell_key_action(k(KeyCode::Char('c'), false, true), false, true, 20), ShellKey::CopySelection);
    assert_eq!(shell_key_action(k(KeyCode::Char('c'), false, true), false, false, 20), ShellKey::Forward);
    assert_eq!(shell_key_action(k(KeyCode::Char('v'), false, true), false, false, 20), ShellKey::Paste);
    assert_eq!(shell_key_action(k(KeyCode::Up, true, false), false, false, 2), ShellKey::ScrollBack { by: 1 });
}

#[test]
fn esc_in_the_shell_returns_to_the_files_and_scrolling_says_where() {
    let mut a = app();
    a.focus(FocusedPane::Shell);
    a.handle_key(press(KeyCode::Esc), ctx(), save);
    assert_eq!(a.focused, FocusedPane::Left);
    a.after_scroll_back(12);
    assert_eq!(a.message.as_deref(), Some("12 lines back — typing returns to the end"));
    a.after_scroll_back(0);
    assert_eq!(a.message.as_deref(), Some("live output"));
}

#[test]
fn the_bookmark_list_goes_into_folders_and_opens_bookmarks() {
    let mut a = app();
    a.shortcuts = vec![
        Shortcut {
            name: "work".into(),
            target: String::new(),
            children: Some(vec![Shortcut { name: "site".into(), target: "https://x.example".into(), children: None }]),
        },
        Shortcut { name: "home".into(), target: "/home/u".into(), children: None },
    ];
    a.start_shortcuts();
    a.handle_key(press(KeyCode::Enter), ctx(), save);
    assert!(matches!(&a.popup, Popup::Shortcuts { cursor: 0, path } if path == &vec![0]));
    a.handle_key(press(KeyCode::Enter), ctx(), save);
    assert!(matches!(a.popup, Popup::Closed));
    assert!(matches!(a.effects.last(), Some(Effect::OpenShortcut { url: true, name, .. }) if name == "site"));
    a.after_shortcut_open("site", Ok(()));
    assert_eq!(a.message.as_deref(), Some("◂ site"));
    a.start_shortcuts();
    a.handle_key(press(KeyCode::Char('j')), ctx(), save);
    a.handle_key(press(KeyCode::Char('p')), ctx(), save);
    assert!(matches!(a.effects.last(), Some(Effect::CopyShortcutTarget { target }) if target == "/home/u"));
    a.handle_key(press(KeyCode::Esc), ctx(), save);
    assert!(matches!(a.popup, Popup::Closed));
}
