use cian_tui::ime::note;
use cian_tui::lang::Lang;
use cian_tui::state::{
    App, Config, Entry, FocusedPane, ImeOptions, Layout, Mode, OpState, Pane, Popup, SwitchLog,
};

fn app(config: Config) -> App {
    let file = Entry {
        name: "notes.txt".to_string(),
        path: "/w/notes.txt".to_string(),
        is_dir: false,
        is_parent: false,
    };
    let left = Pane::new("/w".to_string(), vec![file]);
    let right = Pane::new("/w".to_string(), Vec::new());
    App::new(Lang::En, left, right, config, OpState::new(30, 5, 10), "sh".to_string(), Layout { main_pct: 60, panes_pct: 50, min_pct: 10 })
}

fn opts() -> ImeOptions {
    ImeOptions { helper: None, query: None, set: None, off: None, restore: false }
}

#[test]
fn text_and_command_states_are_told_apart() {
    let mut app = app(Config::default());

    assert!(!app.wants_text_input(), "the panes in normal mode are commands");
    app.mode = Mode::Command;
    assert!(app.wants_text_input(), "the `:` line is text");
    app.mode = Mode::Filter;
    assert!(app.wants_text_input(), "so is a filter");
    app.mode = Mode::Normal;
    app.focused = FocusedPane::Shell;
    assert!(app.wants_text_input(), "and so is the shell");
    app.focused = FocusedPane::Left;

    app.popup = Popup::Notice { lines: Vec::new() };
    assert!(!app.wants_text_input(), "a notice is answered with one key");
    app.start_rename();
    assert!(app.wants_text_input(), "a rename is text");
}

#[test]
fn the_switch_moves_only_when_the_answer_changes() {
    let mut config = Config::default();
    config.ime = Some(ImeOptions { restore: true, ..opts() });
    let mut app = app(config);
    let mut log: Option<SwitchLog> = None;

    assert_eq!(app.ime_on, None, "nothing decided before the first sync");
    app.sync_ime(&mut log);
    assert_eq!(app.ime_on, Some(false), "driving cian — input method off");
    assert_eq!(app.effects.len(), 1);
    app.sync_ime(&mut log);
    assert_eq!(app.ime_on, Some(false), "still off, and nothing to re-run");
    assert_eq!(app.effects.len(), 1);

    app.mode = Mode::Command;
    app.sync_ime(&mut log);
    assert_eq!(app.ime_on, Some(true), "the `:` line takes text");
    app.mode = Mode::Normal;
    app.sync_ime(&mut log);
    assert_eq!(app.ime_on, Some(false), "and back off on the way out");
    assert_eq!(app.effects.len(), 3);
}

#[test]
fn a_failed_switch_is_reported_once() {
    let mut config = Config::default();
    config.ime = Some(ImeOptions {
        helper: Some("exit 3 #".into()),
        off: Some("ABC".into()),
        ..opts()
    });
    let mut app = app(config);
    let mut log: Option<SwitchLog> = None;
    app.sync_ime(&mut log);
    let cmd = app.config.ime.as_ref().unwrap().set_cmd("ABC").unwrap();
    note(&mut log, &cmd, Some("exit status: 3".to_string()));
    app.sync_ime(&mut log);
    let said = app.message.clone().expect("a failed switch is reported");
    assert!(said.contains("ime:") && said.contains("exit 3"), "{said}");
    app.message = None;
    app.sync_ime(&mut log);
    assert!(app.message.is_none(), "a failure is said once, not every frame");
}

#[test]
fn one_helper_field_gives_both_commands() {
    let c = ImeOptions { helper: Some("macism".into()), ..opts() };
    assert_eq!(c.query_cmd().as_deref(), Some("macism"));
    assert_eq!(c.set_cmd("x.y").as_deref(), Some("macism x.y"));
    let c = ImeOptions { set: Some("switch --to {} --now".into()), ..opts() };
    assert_eq!(c.set_cmd("x.y").as_deref(), Some("switch --to x.y --now"));
    assert!(opts().set_cmd("x").is_none());
}

#[test]
fn the_keyboard_is_handed_back_only_when_cian_turned_it_off() {
    let mut config = Config::default();
    config.ime = Some(ImeOptions { restore: true, ..opts() });
    let mut app = app(config);
    assert!(!app.release_ime(), "nothing switched yet");
    let mut log: Option<SwitchLog> = None;
    app.sync_ime(&mut log);
    assert!(app.release_ime());
}
