use cian_tui::lang::Lang;
use cian_tui::state::{App, Config, Entry, FontOptions, Layout, OpState, Pane};

fn app(config: Config) -> App {
    let left = Pane::new("/w".to_string(), Vec::<Entry>::new());
    let right = Pane::new("/w".to_string(), Vec::<Entry>::new());
    App::new(Lang::En, left, right, config, OpState::new(30, 5, 10), "sh".to_string(), Layout { main_pct: 60, panes_pct: 50, min_pct: 10 })
}

fn cfg() -> FontOptions {
    FontOptions {
        set: Some("echo {}".into()),
        bigger: None,
        smaller: None,
        start: 13,
        min: 10,
        max: 16,
    }
}

#[test]
fn stepping_stays_inside_the_range_and_says_so() {
    let mut config = Config::default();
    config.font = Some(cfg());
    let mut app = app(config);
    app.font_level = 15;
    app.font_step(1);
    assert_eq!(app.font_level, 16);
    app.font_step(1);
    assert_eq!(app.font_level, 16, "the top is the top");
    assert!(app.message.as_deref().is_some_and(|m| !m.is_empty()), "and it says so");
    for _ in 0..10 {
        app.font_step(-1);
    }
    assert_eq!(app.font_level, 10, "…and the bottom is the bottom");
}

#[test]
fn unconfigured_says_where_the_setting_is() {
    let mut app = app(Config::default());
    app.font_step(1);
    assert!(
        app.message.as_deref().is_some_and(|m| m.contains("cian.font")),
        "{:?}",
        app.message
    );
}

#[test]
fn a_step_runs_the_set_command_with_the_new_level() {
    let mut config = Config::default();
    config.font = Some(cfg());
    let mut app = app(config);
    app.font_step(1);
    assert_eq!(app.font_level, 14);
    let ran = app.effects.iter().any(|e| format!("{:?}", e).contains("echo 14"));
    assert!(ran, "{:?}", app.effects);
}

#[test]
fn the_saved_level_is_used_only_inside_the_range() {
    let c = cfg();
    assert_eq!(App::font_level_start(&c, Some("12".to_string())), 12);
    assert_eq!(App::font_level_start(&c, Some("40".to_string())), 13);
    assert_eq!(App::font_level_start(&c, Some("big".to_string())), 13);
    assert_eq!(App::font_level_start(&c, None), 13);
}
