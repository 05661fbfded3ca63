use cian_tui::lang::Lang;
use cian_tui::state::{
    App, Config, Effect, Entry, FocusedPane, KeyCode, KeyPress, Layout, Mode, OpState, Pane, Popup,
};

fn app() -> App {
    let e = Entry { name: "a".into(), path: "/w/a".into(), is_dir: false, is_parent: false };
    let left = Pane::new("/w".to_string(), vec![e]);
    let right = Pane::new("/v".to_string(), Vec::new());
    App::new(
        Lang::En,
        left,
        right,
        Config::default(),
        OpState::new(30, 5, 10),
        "sh".to_string(),
        Layout { main_pct: 60, panes_pct: 50, min_pct: 10 },
    )
}

fn key(code: KeyCode) -> KeyPress {
    KeyPress { code, ctrl: false, shift: false, alt: false }
}

fn type_line(a: &mut App, s: &str) {
    a.enter_command_mode();
    for c in s.chars() {
        a.handle_command_key(key(KeyCode::Char(c)), None);
    }
}

#[test]
fn a_line_is_run_and_remembered_once() {
    let mut a = app();
    type_line(&mut a, "  shell ");
    a.handle_command_key(key(KeyCode::Enter), None);
    assert_eq!(a.mode, Mode::Normal);
    assert_eq!(a.focused, FocusedPane::Shell);
    assert_eq!(a.cmd.history, vec!["shell".to_string()]);
    a.focused = FocusedPane::Left;
    type_line(&mut a, "shell");
    a.handle_command_key(key(KeyCode::Enter), None);
    assert_eq!(a.cmd.history.len(), 1, "the same line twice is kept once");
}

#[test]
fn unknown_verbs_go_to_the_front_end_and_bang_to_the_shell() {
    let mut a = app();
    type_line(&mut a, "chmod  644 ");
    a.handle_command_key(key(KeyCode::Enter), None);
    assert!(matches!(a.effects.last(), Some(Effect::RunCommand { verb, rest }) if verb == "chmod" && rest == "644"));
    type_line(&mut a, "!ls %");
    a.handle_command_key(key(KeyCode::Enter), None);
    assert!(matches!(a.effects.last(), Some(Effect::ShellEscape { command }) if command == "ls %"));
}

#[test]
fn editing_the_line() {
    let mut a = app();
    type_line(&mut a, "abc");
    a.handle_command_key(key(KeyCode::Backspace), None);
    assert_eq!(a.cmd.buffer, "ab");
    a.handle_command_key(KeyPress { code: KeyCode::Char('u'), ctrl: true, shift: false, alt: false }, None);
    assert_eq!(a.cmd.buffer, "");
    a.handle_command_key(KeyPress { code: KeyCode::Char('v'), ctrl: true, shift: false, alt: false }, Some("x\ny".into()));
    assert_eq!(a.cmd.buffer, "xy", "a pasted line break is dropped");
    a.handle_command_key(key(KeyCode::Esc), None);
    assert_eq!(a.mode, Mode::Normal);
    assert_eq!(a.cmd.buffer, "");
}

#[test]
fn markall_from_the_line() {
    let mut a = app();
    type_line(&mut a, "markall");
    a.handle_command_key(key(KeyCode::Enter), None);
    assert_eq!(a.message.as_deref(), Some("1 marked — Space unmarks one, Esc clears them"));
}

#[test]
fn a_paste_into_the_shell_keeps_its_lines() {
    let mut a = app();
    a.focused = FocusedPane::Shell;
    a.insert_into_active_text("echo 1\necho 2\n");
    assert!(matches!(a.effects.last(), Some(Effect::WriteShell { text }) if text == "echo 1\necho 2\n"));
    a.popup = Popup::Search { buffer: "ab".into() };
    a.insert_into_active_text("c\r\n");
    assert!(matches!(&a.popup, Popup::Search { buffer } if buffer == "abc"));
}
