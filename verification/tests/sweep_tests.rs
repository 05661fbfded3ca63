use cian_tui::lang::Lang;
use cian_tui::state::{App, Config, Effect, Entry, Layout, OpState, Pane};
use cian_tui::sweep::apply_to_each;

fn entry(name: &str) -> Entry {
    Entry { name: name.to_string(), path: format!("/w/{name}"), is_dir: false, is_parent: false }
}

fn app(lang: Lang, entries: Vec<Entry>) -> App {
    let left = Pane::new("/w".to_string(), entries);
    let right = Pane::new("/v".to_string(), Vec::new());
    App::new(
        lang,
        left,
        right,
        Config::default(),
        OpState::new(30, 5, 10),
        "sh".to_string(),
        Layout { main_pct: 60, panes_pct: 50, min_pct: 10 },
    )
}

#[test]
fn every_path_is_tried_and_the_first_complaint_kept() {
    let paths = vec!["/a".to_string(), "/b".to_string(), "/c".to_string()];
    let (ok, err) = apply_to_each(&paths, |p: &String| if p == "/a" { Ok(()) } else { Err(format!("no {p}")) });
    assert_eq!(ok, 1);
    assert_eq!(err.as_deref(), Some("/b: no /b"));
}

#[test]
fn the_report_tells_both_halves() {
    let a = app(Lang::En, Vec::new());
    assert_eq!(a.each_report("chmod 644", 3, 3, None), "chmod 644 on 3 item(s)");
    assert_eq!(a.each_report("chmod 644", 0, 2, Some("x: denied".into())), "chmod 644: all 2 failed — x: denied");
    assert_eq!(a.each_report("chmod 644", 1, 3, Some("x: denied".into())), "chmod 644 on 1 item(s) — 2 failed: x: denied");
    assert_eq!(a.each_report("chmod 644", 1, 3, None), "chmod 644 on 1 item(s) — 2 failed");
    let j = app(Lang::Ja, Vec::new());
    assert_eq!(j.each_report("chmod", 2, 2, None), "chmod: 2 件");
    assert_eq!(j.each_report("chmod", 1, 2, None), "chmod: 1 件成功、1 件失敗");
}

#[test]
fn chmod_with_nothing_selected_says_so() {
    let mut a = app(Lang::En, Vec::new());
    a.set_attr_command("755", |_p: &String| Ok(()));
    assert_eq!(a.message.as_deref(), Some("nothing selected"));
    assert!(a.effects.is_empty());
}

#[test]
fn readonly_over_the_marks_reloads_and_reports() {
    let mut a = app(Lang::En, vec![entry("a"), entry("b")]);
    a.left.tabs[0].marks = vec!["/w/a".to_string(), "/w/b".to_string()];
    a.set_readonly_command(true, |p: &String| if p == "/w/a" { Ok(()) } else { Err("locked".into()) });
    assert_eq!(a.message.as_deref(), Some("read-only set on 1 item(s) — 1 failed: /w/b: locked"));
    assert!(matches!(a.effects.last(), Some(Effect::ReloadPanes)));
}
