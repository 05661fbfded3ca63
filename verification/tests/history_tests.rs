use cian_tui::lang::Lang;
use cian_tui::state::{App, Config, Effect, Entry, InputKind, KeyCode, Layout, NavTarget, OpState, Pane, Popup};

fn app() -> App {
    let mut left = Pane::new("/w".to_string(), Vec::<Entry>::new());
    left.history = vec!["/a".to_string(), "/b".to_string()];
    let right = Pane::new("/v".to_string(), Vec::new());
    App::new(
        Lang::En,
        left,
        right,
        Config::default(),
        OpState::new(30, 5, 10),
        "sh".to_string(),
        Layout { main_pct: 60, panes_pct: 50, min_pct: 10 },
    )
}

#[test]
fn moving_through_the_history_stays_on_it() {
    let mut a = app();
    a.start_history();
    a.history_key(KeyCode::Up);
    assert!(matches!(a.popup, Popup::History { cursor: 0, .. }));
    a.history_key(KeyCode::Char('j'));
    a.history_key(KeyCode::Down);
    assert!(matches!(a.popup, Popup::History { cursor: 1, .. }));
    a.history_key(KeyCode::Enter);
    assert!(matches!(a.popup, Popup::Closed));
    assert!(matches!(a.effects.last(), Some(Effect::Navigate { to: NavTarget::Path(p) }) if p == "/b"));
}

#[test]
fn a_bookmark_made_from_the_history_starts_from_its_path() {
    let mut a = app();
    a.start_history();
    a.history_key(KeyCode::Char('a'));
    assert_eq!(a.pending_shortcut_target.as_deref(), Some("/a"));
    assert!(matches!(&a.popup, Popup::TextInput { kind: InputKind::ShortcutName { group: false, .. }, .. }));
}
