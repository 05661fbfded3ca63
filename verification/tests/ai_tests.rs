use cian_tui::lang::Lang;
use cian_tui::state::{
    AiOptions, AiPurpose, App, ChatMode, ChatMsg, ChatSkin, Config, Effect, Entry, Layout, OpState,
    Pane, Popup, RenameItem,
};

fn entry(name: &str, parent: bool) -> Entry {
    Entry { name: name.to_string(), path: format!("/w/{name}"), is_dir: parent, is_parent: parent }
}

fn app(config: Config) -> App {
    let left = Pane::new("/w".to_string(), vec![entry("..", true), entry("a.txt", false), entry("b.txt", false)]);
    let right = Pane::new("/v".to_string(), Vec::new());
    App::new(
        Lang::En,
        left,
        right,
        config,
        OpState::new(30, 5, 10),
        "sh".to_string(),
        Layout { main_pct: 60, panes_pct: 50, min_pct: 10 },
    )
}

#[test]
fn a_proposed_command_goes_up_for_approval() {
    let mut a = app(Config::default());
    a.ai.job = true;
    a.poll_ai_job(
        AiPurpose::ShellCommand { description: "list files".into() },
        Ok("```sh\n`ls -la`\n```".into()),
    );
    assert!(!a.ai.job);
    assert!(matches!(&a.popup, Popup::AiShellConfirm { command, description } if command == "ls -la" && description == "list files"));
    let mut b = app(Config::default());
    b.poll_ai_job(AiPurpose::ShellCommand { description: "x".into() }, Ok("```\n```".into()));
    assert_eq!(b.message.as_deref(), Some("AI returned no command"));
    b.poll_ai_job(AiPurpose::CommitMessage, Err("timeout".into()));
    assert_eq!(b.message.as_deref(), Some("AI: timeout"));
}

#[test]
fn a_chat_answer_joins_the_transcript() {
    let mut a = app(Config::default());
    a.popup = Popup::AiChat {
        input: String::new(),
        log: vec![ChatMsg { user: true, text: "hi".into() }],
        scroll: 0,
        pending: true,
        sel: None,
        mode: ChatMode::Ai,
        skin: ChatSkin { title: "AI".into(), simple: true },
    };
    a.poll_ai_job(AiPurpose::Chat, Err("down".into()));
    match &a.popup {
        Popup::AiChat { log, pending, scroll, .. } => {
            assert_eq!(log.len(), 2);
            assert_eq!(log[1].text, "[error] down");
            assert!(!log[1].user && !pending && *scroll == usize::MAX);
        }
        other => panic!("{:?}", other),
    }
}

#[test]
fn an_ai_rename_asks_about_every_file_but_the_parent_row() {
    let mut config = Config::default();
    config.ai = Some(AiOptions { auth_mode: "none".into(), endpoint: "http://x".into(), api_base_url: String::new() });
    let mut a = app(config);
    a.start_ai_rename("  snake case ");
    assert_eq!(a.message.as_deref(), Some("asking AI for new names…"));
    match a.effects.last() {
        Some(Effect::AiRequest { purpose: AiPurpose::Rename { names }, request }) => {
            assert_eq!(names.len(), 2);
            assert_eq!(request, "Instruction: snake case\n\nFiles:\na.txt\nb.txt\n");
        }
        other => panic!("{:?}", other),
    }
    assert!(a.ai.job);
    a.start_ai_rename("again");
    assert_eq!(a.message.as_deref(), Some("AI is busy"));
}

#[test]
fn nothing_proposed_is_said() {
    let mut a = app(Config::default());
    a.offer_ai_renames(Vec::<RenameItem>::new());
    assert_eq!(a.message.as_deref(), Some("AI proposed no renames"));
    a.show_ai_hits(vec!["/w/a.txt".into()]);
    assert_eq!(a.message.as_deref(), Some("1 relevant file(s) — Enter previews"));
}

#[test]
fn a_search_is_refused_on_a_blank_question() {
    let mut a = app(Config::default());
    a.start_ai_search("   ");
    assert_eq!(a.message.as_deref(), Some("cancelled (no query)"));
    a.start_ai_search("where is auth");
    assert!(matches!(a.effects.last(), Some(Effect::AiSearch { root, query }) if root == "/w" && query == "where is auth"));
}

#[test]
fn the_persona_names_the_assistant_and_a_placeholder_pane_is_empty() {
    assert!(cian_tui::chat::persona().contains("AI - simple"));
    let p = cian_tui::state::placeholder_pane();
    assert!(p.cwd.is_empty() && p.entries.is_empty() && p.marks.is_empty() && p.cursor == 0);
}
