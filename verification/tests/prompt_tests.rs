use cian_tui::actions::text_input;
use cian_tui::lang::Lang;
use cian_tui::state::{
    App, Config, Effect, Entry, InputKind, KeyCode, KeyPress, Layout, OpState, Pane, PathKind,
    Popup, Shortcut, UndoAction, Vcs,
};

fn app() -> App {
    let file = Entry {
        name: "a.txt".to_string(),
        path: "/w/a.txt".to_string(),
        is_dir: false,
        is_parent: false,
    };
    let left = Pane::new("/w".to_string(), vec![file]);
    let right = Pane::new("/v".to_string(), Vec::new());
    App::new(
        Lang::En,
        left,
        right,
        Config::default(),
        OpState::new(30, 5, 10),
        "sh".to_string(),
        Layout { main_pct: 60, panes_pct: 50, min_pct: 10 },
    )
}

fn key(code: KeyCode) -> KeyPress {
    KeyPress { code, ctrl: false, shift: false, alt: false }
}

fn ctrl(c: char) -> KeyPress {
    KeyPress { code: KeyCode::Char(c), ctrl: true, shift: false, alt: false }
}

fn no_save(_: &Vec<Shortcut>) -> Result<(), String> {
    Ok(())
}

fn buffer(app: &App) -> (String, usize, bool) {
    match &app.popup {
        Popup::TextInput { buffer, cursor, select_all, .. } => (buffer.clone(), *cursor, *select_all),
        other => panic!("no prompt: {:?}", other),
    }
}

fn press(app: &mut App, k: KeyPress) {
    app.text_input_key(k, None, 0, no_save);
}

#[test]
fn typing_goes_in_at_the_caret() {
    let mut a = app();
    a.popup = text_input("rename", "new name:", "ac".to_string(), InputKind::JumpPath);
    assert_eq!(buffer(&a), ("ac".to_string(), 2, false));
    press(&mut a, key(KeyCode::Left));
    press(&mut a, key(KeyCode::Char('b')));
    assert_eq!(buffer(&a), ("abc".to_string(), 2, false));
    press(&mut a, key(KeyCode::Home));
    press(&mut a, key(KeyCode::Delete));
    assert_eq!(buffer(&a), ("bc".to_string(), 0, false));
    press(&mut a, key(KeyCode::End));
    press(&mut a, key(KeyCode::Backspace));
    assert_eq!(buffer(&a), ("b".to_string(), 1, false));
    press(&mut a, key(KeyCode::Right));
    assert_eq!(buffer(&a).1, 1, "the caret stops at the end");
}

#[test]
fn select_all_then_typing_replaces_the_text() {
    let mut a = app();
    a.popup = text_input("t", "p:", "old".to_string(), InputKind::JumpPath);
    press(&mut a, ctrl('a'));
    assert_eq!(buffer(&a), ("old".to_string(), 3, true));
    press(&mut a, key(KeyCode::Char('n')));
    assert_eq!(buffer(&a), ("n".to_string(), 1, false));
    press(&mut a, ctrl('a'));
    press(&mut a, key(KeyCode::Backspace));
    assert_eq!(buffer(&a), (String::new(), 0, false));
}

#[test]
fn paste_drops_the_trailing_newline_and_copy_cut_use_the_clipboard() {
    let mut a = app();
    a.popup = text_input("t", "p:", "/x".to_string(), InputKind::JumpPath);
    a.text_input_key(ctrl('v'), Some("/y\r\n".to_string()), 0, no_save);
    assert_eq!(buffer(&a), ("/x/y".to_string(), 4, false));
    a.text_input_key(ctrl('v'), None, 0, no_save);
    assert_eq!(a.message.as_deref(), Some("clipboard has no text"));
    press(&mut a, ctrl('x'));
    assert_eq!(buffer(&a), (String::new(), 0, false));
    assert!(matches!(a.effects.last(), Some(Effect::SetClipboard { text }) if text == "/x/y"));
}

#[test]
fn escape_from_an_adjustment_goes_back_to_the_command() {
    let mut a = app();
    a.popup = text_input(
        "adjust",
        "what?",
        String::new(),
        InputKind::AiShellRefine { description: "list".to_string(), rejected: "ls".to_string() },
    );
    press(&mut a, key(KeyCode::Esc));
    assert!(matches!(&a.popup, Popup::AiShellConfirm { command, description } if command == "ls" && description == "list"));
    a.popup = text_input("t", "p:", "x".to_string(), InputKind::JumpPath);
    press(&mut a, key(KeyCode::Esc));
    assert!(matches!(a.popup, Popup::Closed));
}

#[test]
fn an_empty_answer_cancels() {
    let mut a = app();
    a.popup = text_input("rename", "new name:", "   ".to_string(), InputKind::Rename { original: "/w/a.txt".into() });
    press(&mut a, key(KeyCode::Enter));
    assert!(matches!(a.popup, Popup::Closed));
    assert_eq!(a.message.as_deref(), Some("cancelled (empty name)"));
    assert!(a.effects.is_empty());
}

#[test]
fn a_rename_is_asked_for_and_its_outcome_is_remembered() {
    let mut a = app();
    a.popup = text_input("rename", "new name:", " b.txt ".to_string(), InputKind::Rename { original: "/w/a.txt".into() });
    press(&mut a, key(KeyCode::Enter));
    assert!(matches!(a.effects.last(), Some(Effect::RenameInPlace { original, name }) if original == "/w/a.txt" && name == "b.txt"));
    a.after_rename("/w/a.txt".to_string(), Ok("/w/b.txt".to_string()));
    assert_eq!(a.message.as_deref(), Some("renamed: /w/b.txt"));
    assert!(matches!(a.ops.undo_stack.last(), Some(UndoAction::Rename { from, to }) if from == "/w/a.txt" && to == "/w/b.txt"));
    assert!(matches!(a.effects.last(), Some(Effect::ReloadActive)));
}

#[test]
fn a_failed_creation_is_shown_and_not_remembered() {
    let mut a = app();
    a.after_create(true, Err("exists".to_string()));
    assert!(matches!(&a.popup, Popup::Notice { lines } if lines == &vec!["exists".to_string()]));
    assert!(a.ops.undo_stack.is_empty());
    a.popup = Popup::Closed;
    a.after_create(true, Ok("/w/new".to_string()));
    assert_eq!(a.message.as_deref(), Some("mkdir: /w/new"));
}

#[test]
fn a_typed_path_goes_where_it_leads() {
    let mut a = app();
    a.finish_jump_path("/nope".to_string(), PathKind::Missing);
    assert_eq!(a.message.as_deref(), Some("no such path: /nope"));
    a.finish_jump_path("/etc".to_string(), PathKind::Dir);
    assert_eq!(a.message.as_deref(), Some("→ /etc"));
    a.finish_jump_path("/etc/hosts".to_string(), PathKind::File);
    assert!(matches!(a.effects.last(), Some(Effect::OpenSelected)));
}

#[test]
fn a_password_prompt_starts_the_encrypted_zip() {
    let mut a = app();
    a.popup = text_input(
        "zip password",
        "password:",
        "s3cret".to_string(),
        InputKind::ZipPassword { dest: "/w/a.zip".to_string(), sources: vec!["/w/a.txt".to_string()] },
    );
    press(&mut a, key(KeyCode::Enter));
    assert!(a.ops.job.is_some());
    let started = a.effects.iter().any(|e| format!("{:?}", e).contains("s3cret"));
    assert!(started, "{:?}", a.effects);
}

#[test]
fn svn_commit_counts_the_paths() {
    let mut a = app();
    let paths = vec!["/w/a.txt".to_string(), "/w/b.txt".to_string()];
    a.svn_commit(paths.clone(), "msg".to_string(), Some(Vcs::Svn), |_d: &String, _p: &Vec<String>, _m: &String| Ok(()));
    assert_eq!(a.message.as_deref(), Some("● committed 2 path(s)"));
    a.svn_commit(paths, "msg".to_string(), Some(Vcs::Svn), |_d: &String, _p: &Vec<String>, _m: &String| Err("locked".to_string()));
    assert_eq!(a.message.as_deref(), Some("svn commit: locked"));
}
