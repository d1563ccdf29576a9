use databricks_tui::app::{App, Panel, ThemeMode, Update};
use databricks_tui::keys::{command_for, Command, Key};
use databricks_tui::shape::{BadgeData, ListItem, Shape, Status, TableData};
use databricks_tui::text::{decimal_text, join};
use databricks_tui::view::{
    accent, badge_text, body, column_widths, count_suffix, empty_text, header_badge_text,
    list_line, loading_text, panel_heading, panel_looks, status_color, status_line, visible_panels,
    zoom_hint,
    zoom_title, Body, Look, Tone,
};

fn item(name: &str, status: Status, detail: Option<&str>) -> ListItem {
    ListItem {
        name: name.to_string(),
        status,
        detail: detail.map(|d| d.to_string()),
        id: None,
        history: vec![],
    }
}

#[test]
fn decimal_matches_display() {
    for n in [0u64, 7, 10, 99, 100, 12345, u64::MAX] {
        assert_eq!(decimal_text(n), n.to_string());
    }
    assert_eq!(join("ab", "cd"), "abcd");
}

#[test]
fn accents_and_status_colours() {
    assert_eq!(accent(Panel::Clusters), Tone::Cyan);
    assert_eq!(accent(Panel::Jobs), Tone::Magenta);
    assert_eq!(accent(Panel::Pipelines), Tone::Green);
    assert_eq!(accent(Panel::Warehouses), Tone::Blue);
    assert_eq!(status_color(&Status::Running), Tone::Green);
    assert_eq!(status_color(&Status::Stopped), Tone::DarkGray);
    assert_eq!(status_color(&Status::Pending), Tone::Yellow);
    assert_eq!(status_color(&Status::Failed), Tone::Red);
    assert_eq!(status_color(&Status::Unknown("X".to_string())), Tone::White);
}

#[test]
fn panel_looks_follow_focus() {
    let (border, title) = panel_looks(Panel::Jobs, true);
    assert_eq!(border, Look { tone: Tone::Magenta, bold: true, dim: false });
    assert_eq!(title, Look { tone: Tone::White, bold: true, dim: false });
    let (border, title) = panel_looks(Panel::Jobs, false);
    assert_eq!(border, Look { tone: Tone::DarkGray, bold: false, dim: false });
    assert_eq!(title, Look { tone: Tone::Gray, bold: false, dim: false });
}

#[test]
fn headings_count_entries() {
    let two = Shape::List(vec![item("a", Status::Running, None), item("b", Status::Failed, None)]);
    assert_eq!(count_suffix(Some(&two)), " · 2");
    let table = Shape::Table(TableData { headers: vec![], rows: vec![vec![]; 12] });
    assert_eq!(count_suffix(Some(&table)), " · 12");
    assert_eq!(count_suffix(None), "");
    let text = Shape::Text("hi".to_string());
    assert_eq!(count_suffix(Some(&text)), "");
    assert_eq!(
        panel_heading(Panel::Clusters, Some(&two)),
        (" ◆ ".to_string(), "Clusters · 2 ".to_string())
    );
    assert_eq!(panel_heading(Panel::Jobs, None), (" ◈ ".to_string(), "Jobs ".to_string()));
}

#[test]
fn bodies_by_shape() {
    assert_eq!(body(None), Body::Loading);
    assert_eq!(body(Some(&Shape::List(vec![]))), Body::Empty);
    assert_eq!(body(Some(&Shape::List(vec![item("a", Status::Running, None)]))), Body::List);
    let table = Shape::Table(TableData { headers: vec![], rows: vec![] });
    assert_eq!(body(Some(&table)), Body::Table);
    let badge = Shape::Badge(BadgeData { label: "l".to_string(), value: "v".to_string() });
    assert_eq!(body(Some(&badge)), Body::Badge);
    assert_eq!(body(Some(&Shape::Text("t".to_string()))), Body::Text);
    assert_eq!(loading_text("⠋"), "⠋ Loading…");
    assert_eq!(empty_text(), "— none —");
}

#[test]
fn list_lines_show_label_and_dimmed_detail() {
    let line = list_line(&item("etl", Status::Stopped, Some("0101")));
    assert_eq!(line.bullet, "● ");
    assert_eq!(line.name, "etl");
    assert_eq!(line.status_text, "  IDLE");
    assert_eq!(line.detail_text.as_deref(), Some("  0101"));
    assert_eq!(line.tone, Tone::DarkGray);
    let bare = list_line(&item("x", Status::Unknown("QUEUED".to_string()), None));
    assert_eq!(bare.status_text, "  QUEUED");
    assert_eq!(bare.detail_text, None);
}

#[test]
fn badge_and_header_texts() {
    let b = BadgeData { label: "Logged in as".to_string(), value: "ann".to_string() };
    assert_eq!(badge_text(&b), "Logged in as: ann");
    assert_eq!(header_badge_text(&b), "Logged in as ann");
    assert_eq!(zoom_title(Panel::Pipelines), "⛶ Pipelines");
    assert_eq!(zoom_hint(true), " unzoom   ");
    assert_eq!(zoom_hint(false), " zoom   ");
}

#[test]
fn status_line_shows_age_or_spinner() {
    let mut app = App::new(30, ThemeMode::Dark, 100_000);
    assert_eq!(status_line(&app, 100_999), ("updated 31s ago ".to_string(), Tone::DarkGray));
    app.start_refresh(100_000);
    app.tick_spinner();
    assert_eq!(status_line(&app, 100_500), ("⠙ refreshing ".to_string(), Tone::Yellow));
    app.poll_refresh(vec![Update::Badge(None)], true);
    assert_eq!(status_line(&app, 102_500), ("updated 2s ago ".to_string(), Tone::DarkGray));
}

#[test]
fn column_widths_share_the_width() {
    assert_eq!(column_widths(4), vec![25, 25, 25, 25]);
    assert_eq!(column_widths(3), vec![33, 33, 33]);
    assert!(column_widths(0).is_empty());
}

#[test]
fn keys_map_to_commands() {
    assert_eq!(command_for(Key::Char('q'), false), Command::Quit);
    assert_eq!(command_for(Key::Char('c'), true), Command::Quit);
    assert_eq!(command_for(Key::Char('c'), false), Command::Ignore);
    for k in [Key::Tab, Key::Right, Key::Char('l')] {
        assert_eq!(command_for(k, false), Command::FocusNext);
    }
    for k in [Key::BackTab, Key::Left, Key::Char('h')] {
        assert_eq!(command_for(k, true), Command::FocusPrev);
    }
    assert_eq!(command_for(Key::Char('r'), false), Command::Refresh);
    assert_eq!(command_for(Key::Char('z'), false), Command::Zoom);
    assert_eq!(command_for(Key::Char('x'), false), Command::Ignore);
    assert_eq!(command_for(Key::Other, false), Command::Ignore);
}

#[test]
fn zoom_shows_the_focused_panel_alone() {
    let mut app = App::new(30, ThemeMode::Dark, 0);
    app.focus_next();
    assert_eq!(
        visible_panels(&app),
        vec![
            (Panel::Clusters, false),
            (Panel::Jobs, true),
            (Panel::Pipelines, false),
            (Panel::Warehouses, false),
        ]
    );
    app.toggle_zoom();
    assert_eq!(visible_panels(&app), vec![(Panel::Jobs, true)]);
}
