use cian_tui::lang::Lang;
use cian_tui::state::{
    App, Config, Effect, Entry, InputKind, KeyCode, KeyPress, Layout, Mode, OpState, Pane,
    PendingOp, Popup, Snippet, StoredChat, ChatMode, ChatSkin,
};

fn entry(name: &str) -> Entry {
    Entry { name: name.to_string(), path: format!("/w/{name}"), is_dir: false, is_parent: false }
}

fn app_with(config: Config, entries: Vec<Entry>) -> App {
    let left = Pane::new("/w".to_string(), entries);
    let right = Pane::new("/v".to_string(), Vec::new());
    App::new(
        Lang::En,
        left,
        right,
        config,
        OpState::new(30, 5, 10),
        "sh".to_string(),
        Layout { main_pct: 60, panes_pct: 50, min_pct: 10 },
    )
}

fn app() -> App {
    app_with(Config::default(), vec![entry("a"), entry("b"), entry("c"), entry("d")])
}

#[test]
fn visual_mode_moves_and_marks_the_range() {
    let mut a = app();
    a.visual_start();
    a.handle_visual_key(KeyCode::Char('j'));
    a.handle_visual_key(KeyCode::Down);
    assert_eq!(a.left.tabs[0].cursor, 2);
    a.handle_visual_key(KeyCode::Enter);
    assert_eq!(a.mode, Mode::Normal);
    let mut marks = a.left.tabs[0].marks.clone();
    marks.sort();
    assert_eq!(marks, vec!["/w/a".to_string(), "/w/b".to_string(), "/w/c".to_string()]);
}

#[test]
fn gg_goes_to_the_top_and_g_to_the_bottom() {
    let mut a = app();
    a.visual_start();
    a.handle_visual_key(KeyCode::Char('G'));
    assert_eq!(a.left.tabs[0].cursor, 3);
    a.handle_visual_key(KeyCode::Char('g'));
    assert!(a.pending_g);
    a.handle_visual_key(KeyCode::Char('g'));
    assert_eq!(a.left.tabs[0].cursor, 0);
    assert!(!a.pending_g);
    a.handle_visual_key(KeyCode::PageDown);
    assert_eq!(a.left.tabs[0].cursor, 3, "a page down stops at the last row");
    a.handle_visual_key(KeyCode::Esc);
    assert!(a.left.tabs[0].marks.is_empty());
}

#[test]
fn the_search_box_types_and_finds() {
    let mut a = app();
    a.popup = Popup::Search { buffer: String::new() };
    let k = |code| KeyPress { code, ctrl: false, shift: false, alt: false };
    a.search_key(k(KeyCode::Char('c')));
    a.search_key(k(KeyCode::Char('x')));
    a.search_key(k(KeyCode::Backspace));
    assert!(matches!(&a.popup, Popup::Search { buffer } if buffer == "c"));
    a.search_key(k(KeyCode::Enter));
    assert!(matches!(a.popup, Popup::Closed));
    assert_eq!(a.left.tabs[0].cursor, 2);
    assert_eq!(a.last_search_query.as_deref(), Some("c"));
}

#[test]
fn a_notice_can_be_copied() {
    let mut a = app();
    a.popup = Popup::Notice { lines: vec!["one".into(), "two".into()] };
    a.notice_key(KeyCode::Char('y'));
    assert!(matches!(a.effects.last(), Some(Effect::SetClipboard { text }) if text == "one\ntwo"));
    assert_eq!(a.message.as_deref(), Some("copied"));
    assert!(matches!(a.popup, Popup::Closed));
}

#[test]
fn the_queue_cursor_stays_on_the_lines() {
    let mut a = app();
    a.popup = Popup::OpQueue { cursor: 0 };
    a.op_queue_key(KeyCode::Down, 0);
    assert!(matches!(a.popup, Popup::OpQueue { cursor: 0 }), "only the running line");
    a.op_queue_key(KeyCode::Char('x'), 0);
    assert_eq!(a.message.as_deref(), Some("nothing is running — x on a queued line removes it"));
}

fn snippet(name: &str, cmd: &str, confirm: bool) -> Snippet {
    Snippet { name: name.into(), cmd: cmd.into(), enter: true, confirm }
}

#[test]
fn the_snippet_filter_ignores_case() {
    let mut config = Config::default();
    config.snippets = vec![snippet("Build", "make", false), snippet("list", "ls -la", true), snippet("x", "BUILDX", false)];
    let a = app_with(config, Vec::new());
    assert_eq!(a.snippet_matches("build"), vec![0, 2]);
    assert_eq!(a.snippet_matches(""), vec![0, 1, 2]);
    assert_eq!(a.snippet_matches("zzz"), Vec::<usize>::new());
}

#[test]
fn choosing_a_snippet_that_asks_first_shows_the_question() {
    let mut config = Config::default();
    config.snippets = vec![snippet("Build", "make", false), snippet("list", "ls -la", true)];
    let mut a = app_with(config, Vec::new());
    a.popup = Popup::Snippets { cursor: 0, filter: String::new() };
    a.snippets_key(KeyCode::Char('l'));
    a.snippets_key(KeyCode::Char('i'));
    assert!(matches!(&a.popup, Popup::Snippets { cursor: 0, filter } if filter == "li"));
    a.snippets_key(KeyCode::Down);
    assert!(matches!(a.popup, Popup::Snippets { cursor: 0, .. }), "one row shown");
    a.snippets_key(KeyCode::Enter);
    assert!(matches!(&a.popup, Popup::ConfirmSnippet { cmd, .. } if cmd == "ls -la"));
}

#[test]
fn the_destination_picker_offers_the_other_pane_first() {
    let mut a = app();
    a.popup = Popup::DestPicker { op: PendingOp::Copy, targets: vec!["/w/a".into()], cursor: 0 };
    a.dest_picker_key(KeyCode::Enter);
    assert!(matches!(&a.popup, Popup::ConfirmTransfer { op: PendingOp::Copy, dest, .. } if dest == "/v"));
    a.popup = Popup::DestPicker { op: PendingOp::Move, targets: vec!["/w/a".into()], cursor: 0 };
    a.dest_picker_key(KeyCode::Char('n'));
    assert!(matches!(&a.popup, Popup::TextInput { buffer, kind: InputKind::DestPath { op: PendingOp::Move, .. }, .. } if buffer == "/v"));
    a.finish_dest_path(PendingOp::Move, vec!["/w/a".into()], "/nowhere".into(), false);
    assert_eq!(a.message.as_deref(), Some("not a directory: /nowhere"));
}

#[test]
fn the_conversation_list_moves_and_deletes() {
    let mut a = app();
    for t in ["one", "two"] {
        let skin = ChatSkin { title: t.into(), simple: false };
        a.ai.history.push(StoredChat::new(ChatMode::Ai, skin, Vec::new()));
    }
    a.popup = Popup::AiHistory { cursor: 0 };
    a.ai_history_key(KeyCode::End);
    assert!(matches!(a.popup, Popup::AiHistory { cursor: 1 }));
    a.ai_history_key(KeyCode::Char('d'));
    assert_eq!(a.ai.history.len(), 1);
    assert!(matches!(a.popup, Popup::AiHistory { cursor: 0 }), "the cursor stays on the list");
}
