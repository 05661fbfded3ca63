use cian_tui::lang::Lang;
use cian_tui::state::{App, Config, Entry, Layout, OpState, Pane, Popup, Shortcut};

fn app() -> App {
    let left = Pane::new("/w".to_string(), Vec::<Entry>::new());
    let right = Pane::new("/v".to_string(), Vec::new());
    App::new(
        Lang::En,
        left,
        right,
        Config::default(),
        OpState::new(30, 5, 10),
        "sh".to_string(),
        Layout { main_pct: 60, panes_pct: 50, min_pct: 10 },
    )
}

fn saved(_: &Vec<Shortcut>) -> Result<(), String> {
    Ok(())
}

#[test]
fn a_new_folder_is_made_and_the_list_comes_back_on_it() {
    let mut a = app();
    let r = a.finish_shortcut_name(Vec::new(), None, true, "work".to_string(), saved);
    assert!(r.is_ok());
    assert_eq!(a.shortcuts.len(), 1);
    assert_eq!(a.shortcuts[0].name, "work");
    assert!(matches!(&a.shortcuts[0].children, Some(c) if c.is_empty()));
    assert!(matches!(a.popup, Popup::Shortcuts { cursor: 0, .. }));
}

#[test]
fn a_bookmark_goes_into_its_folder_and_a_failed_save_is_said() {
    let mut a = app();
    a.finish_shortcut_name(Vec::new(), None, true, "work".to_string(), saved).unwrap();
    let r = a.finish_shortcut_target(vec![0], None, "repo".to_string(), "/src/repo".to_string(), |_: &Vec<Shortcut>| {
        Err("disk full".to_string())
    });
    assert!(r.is_err());
    let inside = a.shortcuts[0].children.as_ref().unwrap();
    assert_eq!(inside.len(), 1);
    assert_eq!(inside[0].target, "/src/repo");
    assert!(matches!(&a.popup, Popup::Notice { lines } if lines[1] == "disk full"));
}

#[test]
fn the_target_prompt_starts_from_the_target_picked_elsewhere() {
    let mut a = app();
    a.pending_shortcut_target = Some("/picked".to_string());
    a.finish_shortcut_name(Vec::new(), None, false, "p".to_string(), saved).unwrap();
    assert!(a.pending_shortcut_target.is_none());
    assert!(matches!(&a.popup, Popup::TextInput { buffer, .. } if buffer == "/picked"));
}
