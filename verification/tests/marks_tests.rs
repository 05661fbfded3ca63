use cian_tui::lang::Lang;
use cian_tui::state::{App, Config, Entry, Layout, OpState, Pane, Popup};

fn entry(name: &str, parent: bool) -> Entry {
    Entry { name: name.to_string(), path: format!("/w/{name}"), is_dir: parent, is_parent: parent }
}

fn app(entries: Vec<Entry>) -> App {
    let left = Pane::new("/w".to_string(), entries);
    let right = Pane::new("/v".to_string(), Vec::new());
    App::new(
        Lang::En,
        left,
        right,
        Config::default(),
        OpState::new(30, 5, 10),
        "sh".to_string(),
        Layout { main_pct: 60, panes_pct: 50, min_pct: 10 },
    )
}

#[test]
fn marking_all_leaves_the_parent_row_out() {
    let mut a = app(vec![entry("..", true), entry("a", false), entry("b", false)]);
    a.mark_all();
    let mut marks = a.left.tabs[0].marks.clone();
    marks.sort();
    assert_eq!(marks, vec!["/w/a".to_string(), "/w/b".to_string()]);
    assert_eq!(a.message.as_deref(), Some("2 marked — Space unmarks one, Esc clears them"));
    a.mark_all();
    assert_eq!(a.left.tabs[0].marks.len(), 2, "marking twice marks nothing twice");
}

#[test]
fn in_the_viewer_every_line_is_selected() {
    let mut a = app(Vec::new());
    a.popup = Popup::Viewer {
        title: "f".into(),
        path: "/w/f".into(),
        lines: vec!["one".into(), "two".into(), "three".into()],
        find_input: false,
        sub_input: false,
        block_input: false,
        editing: false,
        anchor: (2, 1),
        line: 0,
        col: 4,
        goal: 4,
        visual_lines: false,
    };
    a.mark_all();
    assert!(matches!(a.popup, Popup::Viewer { anchor: (0, 0), line: 2, col: 0, goal: 0, visual_lines: true, .. }));
    assert_eq!(a.message.as_deref(), Some("all 3 line(s) selected — y copies, Esc clears"));
}

#[test]
fn visual_select_all_runs_to_the_last_entry() {
    let mut a = app(vec![entry("a", false), entry("b", false), entry("c", false)]);
    a.visual_select_all();
    assert_eq!(a.visual_anchor, Some(0));
    assert_eq!(a.left.tabs[0].cursor, 2);
}
