use cian_tui::lang::Lang;
use cian_tui::state::{App, Config, DividerTarget, Effect, FocusedPane, KeyCode, Layout, OpState, Pane};

fn app(main: u16, panes: u16) -> App {
    let left = Pane::new("/w".to_string(), Vec::new());
    let right = Pane::new("/v".to_string(), Vec::new());
    App::new(
        Lang::En,
        left,
        right,
        Config::default(),
        OpState::new(30, 5, 10),
        "sh".to_string(),
        Layout { main_pct: main, panes_pct: panes, min_pct: 10 },
    )
}

#[test]
fn a_step_moves_the_divider_and_stops_at_the_edge() {
    let mut a = app(60, 50);
    a.resize_split(KeyCode::Right, false);
    assert_eq!(a.layout.panes_pct, 54);
    a.resize_split(KeyCode::Up, false);
    assert_eq!(a.layout.main_pct, 56);
    let mut b = app(88, 12);
    b.resize_split(KeyCode::Down, false);
    assert_eq!(b.layout.main_pct, 90, "no closer than the minimum to the edge");
    b.resize_split(KeyCode::Left, false);
    assert_eq!(b.layout.panes_pct, 10);
}

#[test]
fn in_the_shell_the_inner_split_moves_first() {
    let mut a = app(60, 50);
    a.focused = FocusedPane::Shell;
    a.resize_split(KeyCode::Left, true);
    assert!(matches!(a.effects.last(), Some(Effect::NudgeShellSplit { across: true, delta: -4 })));
    a.resize_split(KeyCode::Down, false);
    assert_eq!(a.layout.main_pct, 64, "no inner split: the outer divider moves");
}

#[test]
fn a_drag_sets_the_ratio() {
    let mut a = app(60, 50);
    a.set_divider_ratio(DividerTarget::Panes, 33);
    assert_eq!(a.layout.panes_pct, 33);
    a.set_divider_ratio(DividerTarget::ShellSplit { tab: 0, node: 2 }, 70);
    assert!(matches!(a.effects.last(), Some(Effect::SetShellSplit { tab: 0, node: 2, pct: 70 })));
}
