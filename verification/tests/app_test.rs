use databricks_tui::app::{App, Panel, ThemeMode, Update};
use databricks_tui::shape::{BadgeData, Shape, Status, ListItem};

fn list(name: &str) -> Shape {
    Shape::List(vec![ListItem {
        name: name.to_string(),
        status: Status::Running,
        detail: None,
        id: None,
        history: vec![],
    }])
}

fn first_name(shape: &Option<Shape>) -> Option<String> {
    match shape {
        Some(Shape::List(items)) => Some(items[0].name.clone()),
        _ => None,
    }
}

#[test]
fn theme_toggles_back_and_forth() {
    assert_eq!(ThemeMode::Dark.toggled(), ThemeMode::Light);
    assert_eq!(ThemeMode::Light.toggled(), ThemeMode::Dark);
    assert_eq!(ThemeMode::Dark.toggled().toggled(), ThemeMode::Dark);
}

#[test]
fn panel_titles_and_icons() {
    assert_eq!(Panel::Clusters.title(), "Clusters");
    assert_eq!(Panel::Jobs.title(), "Jobs");
    assert_eq!(Panel::Pipelines.title(), "Pipelines");
    assert_eq!(Panel::Warehouses.title(), "Warehouses");
    assert_eq!(Panel::Clusters.icon(), "◆");
    assert_eq!(Panel::Jobs.icon(), "◈");
    assert_eq!(Panel::Pipelines.icon(), "⇶");
    assert_eq!(Panel::Warehouses.icon(), "▣");
}

#[test]
fn panel_positions() {
    let all = Panel::all();
    assert_eq!(all, vec![Panel::Clusters, Panel::Jobs, Panel::Pipelines, Panel::Warehouses]);
    for (i, p) in all.iter().enumerate() {
        assert_eq!(p.index(), i);
        assert_eq!(Panel::from_index(i), *p);
    }
}

#[test]
fn new_app_starts_on_clusters_and_is_due() {
    let app = App::new(30, ThemeMode::Dark, 100_000);
    assert_eq!(app.focus, Panel::Clusters);
    assert_eq!(app.shapes.len(), 4);
    assert!(app.shapes.iter().all(|s| s.is_none()));
    assert!(!app.loading);
    assert_eq!(app.last_refresh_ms, 100_000 - 31_000);
    assert!(app.needs_refresh(100_000));
}

#[test]
fn new_app_on_a_young_clock_waits_an_interval() {
    let app = App::new(30, ThemeMode::Light, 5_000);
    assert_eq!(app.last_refresh_ms, 5_000);
    assert!(!app.needs_refresh(5_000));
    assert!(!app.needs_refresh(34_999));
    assert!(app.needs_refresh(35_000));
}

#[test]
fn huge_interval_does_not_overflow() {
    let app = App::new(u64::MAX - 1, ThemeMode::Dark, 7);
    assert_eq!(app.last_refresh_ms, 7);
    assert!(!app.needs_refresh(u64::MAX));
}

#[test]
fn focus_cycles_through_all_panels() {
    let mut app = App::new(30, ThemeMode::Dark, 0);
    let mut seen = vec![app.focus];
    for _ in 0..4 {
        app.focus_next();
        seen.push(app.focus);
    }
    assert_eq!(
        seen,
        vec![Panel::Clusters, Panel::Jobs, Panel::Pipelines, Panel::Warehouses, Panel::Clusters]
    );
    app.focus_prev();
    assert_eq!(app.focus, Panel::Warehouses);
    app.focus_next();
    assert_eq!(app.focus, Panel::Clusters);
}

#[test]
fn zoom_toggles() {
    let mut app = App::new(30, ThemeMode::Dark, 0);
    app.toggle_zoom();
    assert!(app.zoomed);
    app.toggle_zoom();
    assert!(!app.zoomed);
}

#[test]
fn spinner_cycles_through_ten_frames() {
    let mut app = App::new(30, ThemeMode::Dark, 0);
    let frames = ["⠋", "⠙", "⠹", "⠸", "⠼", "⠴", "⠦", "⠧", "⠇", "⠏"];
    for k in 0..20 {
        assert_eq!(app.spinner(), frames[k % 10]);
        app.tick_spinner();
    }
}

#[test]
fn spinner_counter_wraps() {
    let mut app = App::new(30, ThemeMode::Dark, 0);
    app.spinner_frame = usize::MAX;
    app.tick_spinner();
    assert_eq!(app.spinner_frame, 0);
    assert_eq!(app.spinner(), "⠋");
}

#[test]
fn last_refresh_age_saturates() {
    let app = App::new(30, ThemeMode::Dark, 100_000);
    assert_eq!(app.last_refresh_age(100_000), 31_000);
    assert_eq!(app.last_refresh_age(0), 0);
}

#[test]
fn start_refresh_is_refused_while_loading() {
    let mut app = App::new(30, ThemeMode::Dark, 100_000);
    app.error = Some("old".to_string());
    assert!(app.start_refresh(100_000));
    assert!(app.loading);
    assert!(app.pending);
    assert_eq!(app.in_flight, 5);
    assert_eq!(app.error, None);
    assert_eq!(app.last_refresh_ms, 100_000);
    assert!(!app.needs_refresh(1_000_000));
    assert!(!app.start_refresh(200_000));
    assert_eq!(app.last_refresh_ms, 100_000);
}

#[test]
fn full_refresh_fills_panels_and_ends() {
    let mut app = App::new(30, ThemeMode::Dark, 100_000);
    assert!(app.start_refresh(100_000));
    let first = vec![Update::Panel(0, Some(list("c1"))), Update::Panel(2, Some(list("p1")))];
    assert!(app.poll_refresh(first, false));
    assert!(app.loading);
    assert_eq!(app.in_flight, 3);
    assert_eq!(first_name(&app.shapes[0]).as_deref(), Some("c1"));
    assert_eq!(first_name(&app.shapes[2]).as_deref(), Some("p1"));
    assert!(!app.poll_refresh(vec![], false));
    let badge = Shape::Badge(BadgeData { label: "Logged in as".to_string(), value: "ann".to_string() });
    let rest = vec![Update::Panel(1, Some(list("j1"))), Update::Panel(3, None), Update::Badge(Some(badge))];
    assert!(app.poll_refresh(rest, false));
    assert!(!app.loading);
    assert!(!app.pending);
    assert_eq!(app.in_flight, 0);
    assert!(app.shapes[3].is_none());
    assert!(matches!(&app.user_badge, Some(Shape::Badge(b)) if b.value == "ann"));
    assert!(!app.needs_refresh(129_999));
    assert!(app.needs_refresh(130_000));
    assert!(!app.poll_refresh(vec![], false));
}

#[test]
fn failed_fetch_keeps_previous_data() {
    let mut app = App::new(30, ThemeMode::Dark, 100_000);
    app.start_refresh(100_000);
    app.poll_refresh(vec![Update::Panel(1, Some(list("old")))], false);
    app.poll_refresh(vec![], true);
    assert!(!app.loading);
    app.start_refresh(200_000);
    assert!(app.poll_refresh(vec![Update::Panel(1, None), Update::Badge(None)], false));
    assert_eq!(first_name(&app.shapes[1]).as_deref(), Some("old"));
    assert!(app.user_badge.is_none());
    assert!(app.loading);
}

#[test]
fn closed_channel_ends_refresh() {
    let mut app = App::new(30, ThemeMode::Dark, 100_000);
    app.start_refresh(100_000);
    assert!(app.poll_refresh(vec![], true));
    assert!(!app.loading);
    assert!(!app.pending);
    assert_eq!(app.in_flight, 0);
}

#[test]
fn poll_without_refresh_does_nothing() {
    let mut app = App::new(30, ThemeMode::Dark, 100_000);
    assert!(!app.poll_refresh(vec![], true));
    assert!(!app.loading);
}

#[test]
fn every_step_keeps_four_panel_slots() {
    let mut app = App::new(30, ThemeMode::Dark, 100_000);
    app.focus_next();
    app.focus_prev();
    app.toggle_zoom();
    app.tick_spinner();
    app.start_refresh(100_000);
    app.poll_refresh(vec![Update::Panel(3, Some(list("w")))], false);
    assert_eq!(app.shapes.len(), 4);
    app.poll_refresh(vec![], true);
    assert_eq!(app.shapes.len(), 4);
}
