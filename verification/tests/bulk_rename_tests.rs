use cian_tui::lang::Lang;
use cian_tui::state::{App, Config, Effect, Entry, Layout, OpState, Pane, Popup};

fn app() -> App {
    let left = Pane::new("/w".to_string(), Vec::<Entry>::new());
    let right = Pane::new("/v".to_string(), Vec::new());
    App::new(
        Lang::En,
        left,
        right,
        Config::default(),
        OpState::new(30, 5, 10),
        "sh".to_string(),
        Layout { main_pct: 60, panes_pct: 50, min_pct: 10 },
    )
}

#[test]
fn the_names_go_to_be_planned() {
    let mut a = app();
    a.build_bulk_rename(vec!["/w/a.txt".into(), "/w/b.txt".into()], "x_{n}".into());
    assert!(matches!(a.effects.last(), Some(Effect::PlanBulkRename { names, pattern, .. })
        if names == &vec!["a.txt".to_string(), "b.txt".to_string()] && pattern == "x_{n}"));
}

#[test]
fn only_real_changes_are_offered() {
    let mut a = app();
    let targets = vec!["/w/a".to_string(), "/w/b".to_string(), "/w/c".to_string(), "/w/d".to_string()];
    let names = vec!["a".to_string(), "b".to_string(), "c".to_string(), "d".to_string()];
    let news = vec!["a".to_string(), "".to_string(), "x/c".to_string(), "dd".to_string()];
    a.offer_bulk_rename(targets, names, Ok(news));
    match &a.popup {
        Popup::RenameReview { items, .. } => {
            assert_eq!(items.len(), 1);
            assert_eq!((items[0].path.as_str(), items[0].new.as_str()), ("/w/d", "dd"));
            assert!(items[0].selected);
        }
        other => panic!("{:?}", other),
    }
    let mut b = app();
    b.offer_bulk_rename(vec!["/w/a".into()], vec!["a".into()], Ok(vec!["a".into()]));
    assert_eq!(b.message.as_deref(), Some("the pattern changed no names"));
    b.offer_bulk_rename(vec!["/w/a".into()], vec!["a".into()], Err("bad token".into()));
    assert_eq!(b.message.as_deref(), Some("rename pattern: bad token"));
}
