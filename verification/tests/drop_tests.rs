use cian_tui::drop::read_dropped;
use cian_tui::lang::Lang;
use cian_tui::state::{App, Config, Entry, FocusedPane, Layout, OpState, Pane, PendingOp, Popup};

fn there(files: &[&str]) -> impl Fn(&String) -> bool {
    let files: Vec<String> = files.iter().map(|s| s.to_string()).collect();
    move |p: &String| files.contains(p)
}

#[test]
fn every_terminals_drop_format_finds_the_file() {
    let f = "/tmp/d/My File.txt";
    let is_there = there(&[f]);
    let backslashed = f.replace(' ', "\\ ");
    let quoted = format!("\"{}\"", f);
    let uri = format!("file://{}", f.replace(' ', "%20"));
    for form in [f.to_string(), quoted, uri] {
        assert_eq!(read_dropped(&form, true, &is_there), vec![f.to_string()], "form: {form}");
    }
    assert_eq!(read_dropped(&backslashed, true, &is_there), vec![f.to_string()]);
}

#[test]
fn several_files_arrive_together() {
    let (a, b) = ("/tmp/d/a.txt", "/tmp/d/b b.txt");
    let is_there = there(&[a, b]);
    let esc = |p: &str| p.replace(' ', "\\ ");
    let one_line = format!("{} {}", esc(a), esc(b));
    assert_eq!(read_dropped(&one_line, true, &is_there), vec![a.to_string(), b.to_string()]);
    let per_line = format!("{}\n{}\n", esc(a), esc(b));
    assert_eq!(read_dropped(&per_line, true, &is_there), vec![a.to_string(), b.to_string()]);
}

#[test]
fn prose_is_not_a_drop() {
    let f = "/tmp/d/real.txt";
    let is_there = there(&[f]);
    assert!(read_dropped("", true, &is_there).is_empty());
    assert!(read_dropped("just some words", true, &is_there).is_empty());
    assert!(read_dropped("SELECT * FROM t WHERE x = 1;", true, &is_there).is_empty());
    assert!(
        read_dropped(&format!("look at {} please", f), true, &is_there).is_empty(),
        "one real path among words is prose, not a drop"
    );
    assert!(
        read_dropped(&format!("{}\n{}", f, "/tmp/d/gone.txt"), true, &is_there).is_empty(),
        "all items must exist, or it is not a drop"
    );
}

fn app(cwd: &str) -> App {
    let left = Pane::new(cwd.to_string(), Vec::<Entry>::new());
    let right = Pane::new("/v".to_string(), Vec::new());
    App::new(
        Lang::En,
        left,
        right,
        Config::default(),
        OpState::new(30, 5, 10),
        "sh".to_string(),
        Layout { main_pct: 60, panes_pct: 50, min_pct: 10 },
    )
}

#[test]
fn a_drop_asks_to_move_the_files_here() {
    let mut a = app("/home/u");
    assert!(a.accept_drop("/tmp/d/a.txt", there(&["/tmp/d/a.txt"])));
    assert!(matches!(&a.popup, Popup::ConfirmTransfer { op: PendingOp::Move, targets, dest }
        if targets == &vec!["/tmp/d/a.txt".to_string()] && dest == "/home/u"));
}

#[test]
fn files_already_here_are_not_moved() {
    let mut a = app("/tmp/d/");
    assert!(a.accept_drop("/tmp/d/a.txt", there(&["/tmp/d/a.txt"])));
    assert!(matches!(a.popup, Popup::Closed));
    assert_eq!(a.message.as_deref(), Some("those files are already here"));
}

#[test]
fn the_shell_keeps_its_pastes() {
    let mut a = app("/home/u");
    a.focused = FocusedPane::Shell;
    assert!(!a.accept_drop("/tmp/d/a.txt", there(&["/tmp/d/a.txt"])));
    let mut b = app("/home/u");
    assert!(!b.accept_drop("hello world", there(&[])), "text is a paste");
    assert!(b.message.is_none());
}
