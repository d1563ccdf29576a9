use vstd::prelude::*;
use crate::app::{panel_at, spinner_glyph, App, AppView, Panel, PANEL_COUNT, SPINNER_FRAME_COUNT};
use crate::shape::{opt_text, BadgeData, ListItem, Shape, Status, StatusView, label_of};
use crate::text::{decimal, decimal_text, join};

verus! {

/// The colours the dashboard draws with.
#[derive(Debug, Clone, Copy, PartialEq, Eq, Structural)]
pub enum Tone {
    Cyan,
    Magenta,
    Green,
    Blue,
    DarkGray,
    Gray,
    Yellow,
    Red,
    White,
}

/// How a piece of text is drawn.
#[derive(Debug, Clone, Copy, PartialEq, Eq, Structural)]
pub struct Look {
    pub tone: Tone,
    pub bold: bool,
    pub dim: bool,
}

/// What the body of a panel shows.
#[derive(Debug, Clone, Copy, PartialEq, Eq, Structural)]
pub enum Body {
    /// Nothing has arrived yet.
    Loading,
    /// A list without entries.
    Empty,
    List,
    Table,
    Badge,
    Text,
}

/// A panel's accent colour.
pub open spec fn accent_of(panel: Panel) -> Tone {
    match panel {
        Panel::Clusters => Tone::Cyan,
        Panel::Jobs => Tone::Magenta,
        Panel::Pipelines => Tone::Green,
        Panel::Warehouses => Tone::Blue,
    }
}

/// The colour of a status.
pub open spec fn status_tone(s: StatusView) -> Tone {
    match s {
        StatusView::Running => Tone::Green,
        StatusView::Stopped => Tone::DarkGray,
        StatusView::Pending => Tone::Yellow,
        StatusView::Failed => Tone::Red,
        StatusView::Unknown(_) => Tone::White,
    }
}

/// The number of entries a panel's title counts: list entries or table rows.
pub open spec fn entry_count(shape: Option<Shape>) -> Option<nat> {
    match shape {
        Some(Shape::List(items)) => Some(items@.len()),
        Some(Shape::Table(t)) => Some(t.rows@.len()),
        _ => None,
    }
}

/// The count shown after a panel's title: ` · n`, or nothing.
pub open spec fn count_suffix_text(shape: Option<Shape>) -> Seq<char> {
    match entry_count(shape) {
        Some(n) => " · "@ + decimal(n),
        None => ""@,
    }
}

/// What a panel's body shows.
pub open spec fn body_of(shape: Option<Shape>) -> Body {
    match shape {
        None => Body::Loading,
        Some(Shape::List(items)) => if items@.len() == 0 {
            Body::Empty
        } else {
            Body::List
        },
        Some(Shape::Table(_)) => Body::Table,
        Some(Shape::Badge(_)) => Body::Badge,
        Some(Shape::Text(_)) => Body::Text,
    }
}

/// The look of a panel's border and of its title.
pub open spec fn panel_looks_of(panel: Panel, focused: bool) -> (Look, Look) {
    if focused {
        (
            Look { tone: accent_of(panel), bold: true, dim: false },
            Look { tone: Tone::White, bold: true, dim: false },
        )
    } else {
        (
            Look { tone: Tone::DarkGray, bold: false, dim: false },
            Look { tone: Tone::Gray, bold: false, dim: false },
        )
    }
}

/// The shape behind an optional reference.
pub open spec fn shape_of(shape: Option<&Shape>) -> Option<Shape> {
    match shape {
        Some(s) => Some(*s),
        None => None,
    }
}

/// Optional text set off by two spaces.
pub open spec fn indented(o: Option<Seq<char>>) -> Option<Seq<char>> {
    match o {
        Some(t) => Some("  "@ + t),
        None => None,
    }
}

/// A panel's accent colour.
pub fn accent(panel: Panel) -> (r: Tone)
    ensures
        r == accent_of(panel),
{
    match panel {
        Panel::Clusters => Tone::Cyan,
        Panel::Jobs => Tone::Magenta,
        Panel::Pipelines => Tone::Green,
        Panel::Warehouses => Tone::Blue,
    }
}

/// The colour of a status.
pub fn status_color(status: &Status) -> (r: Tone)
    ensures
        r == status_tone(status@),
{
    match status {
        Status::Running => Tone::Green,
        Status::Stopped => Tone::DarkGray,
        Status::Pending => Tone::Yellow,
        Status::Failed => Tone::Red,
        Status::Unknown(_) => Tone::White,
    }
}

/// The look of a panel's border and of its title: the accent in bold where
/// focused, greys elsewhere.
pub fn panel_looks(panel: Panel, focused: bool) -> (r: (Look, Look))
    ensures
        r == panel_looks_of(panel, focused),
{
    if focused {
        (
            Look { tone: accent(panel), bold: true, dim: false },
            Look { tone: Tone::White, bold: true, dim: false },
        )
    } else {
        (
            Look { tone: Tone::DarkGray, bold: false, dim: false },
            Look { tone: Tone::Gray, bold: false, dim: false },
        )
    }
}

/// What a panel's body shows.
pub fn body(shape: Option<&Shape>) -> (r: Body)
    ensures
        r == body_of(shape_of(shape)),
{
    match shape {
        None => Body::Loading,
        Some(Shape::List(items)) => if items.len() == 0 {
            Body::Empty
        } else {
            Body::List
        },
        Some(Shape::Table(_)) => Body::Table,
        Some(Shape::Badge(_)) => Body::Badge,
        Some(Shape::Text(_)) => Body::Text,
    }
}

/// The count shown after a panel's title: ` · n` for a list of `n` entries
/// or a table of `n` rows, nothing otherwise.
pub fn count_suffix(shape: Option<&Shape>) -> (r: String)
    ensures
        r@ == count_suffix_text(shape_of(shape)),
{
    match shape {
        Some(Shape::List(items)) => join(" · ", decimal_text(items.len() as u64).as_str()),
        Some(Shape::Table(t)) => join(" · ", decimal_text(t.rows.len() as u64).as_str()),
        _ => "".to_owned(),
    }
}

/// The two parts of a panel's title: ` icon ` and `Title · n `.
pub fn panel_heading(panel: Panel, shape: Option<&Shape>) -> (r: (String, String))
    ensures
        r.0@ == " "@ + panel.icon_text() + " "@,
        r.1@ == panel.title_text() + count_suffix_text(shape_of(shape)) + " "@,
{
    let icon = join(join(" ", panel.icon()).as_str(), " ");
    let title = join(join(panel.title(), count_suffix(shape).as_str()).as_str(), " ");
    (icon, title)
}

/// What a panel shows before its first data arrives.
pub fn loading_text(spinner: &str) -> (r: String)
    ensures
        r@ == spinner@ + " Loading…"@,
{
    join(spinner, " Loading…")
}

/// What a panel shows for a list without entries.
pub fn empty_text() -> (r: &'static str)
    ensures
        r@ == "— none —"@,
{
    "— none —"
}

/// One drawn list entry: a bullet and the name, then the status label and
/// the detail, each set off by two spaces.
pub struct ListLine {
    pub bullet: String,
    pub name: String,
    pub status_text: String,
    pub detail_text: Option<String>,
    /// The colour of the bullet and of the status label.
    pub tone: Tone,
}

/// How one list entry is drawn.
pub fn list_line(item: &ListItem) -> (r: ListLine)
    ensures
        r.bullet@ == "● "@,
        r.name@ == item.name@,
        r.status_text@ == "  "@ + label_of(item.status@),
        opt_text(r.detail_text) == indented(opt_text(item.detail)),
        r.tone == status_tone(item.status@),
{
    let detail_text = match &item.detail {
        Some(d) => Some(join("  ", d.as_str())),
        None => None,
    };
    ListLine {
        bullet: "● ".to_owned(),
        name: item.name.clone(),
        status_text: join("  ", item.status.label()),
        detail_text,
        tone: status_color(&item.status),
    }
}

/// What a badge panel shows: `label: value`.
pub fn badge_text(b: &BadgeData) -> (r: String)
    ensures
        r@ == b.label@ + ": "@ + b.value@,
{
    join(join(b.label.as_str(), ": ").as_str(), b.value.as_str())
}

/// The signed-in badge in the header: `label value`.
pub fn header_badge_text(b: &BadgeData) -> (r: String)
    ensures
        r@ == b.label@ + " "@ + b.value@,
{
    join(join(b.label.as_str(), " ").as_str(), b.value.as_str())
}

/// The header's note on the zoomed panel.
pub fn zoom_title(panel: Panel) -> (r: String)
    ensures
        r@ == "⛶ "@ + panel.title_text(),
{
    join("⛶ ", panel.title())
}

/// The text on the right of the header: the spinner while a refresh runs,
/// else the whole seconds since the last refresh started.
pub open spec fn status_line_text(a: AppView, now: u64) -> Seq<char> {
    if a.loading {
        spinner_glyph((a.spinner_frame % SPINNER_FRAME_COUNT) as int) + " refreshing "@
    } else {
        "updated "@ + decimal((a.elapsed_ms(now) / 1000) as nat) + "s ago "@
    }
}

/// The text on the right of the header, and its colour.
pub fn status_line(app: &App, now_ms: u64) -> (r: (String, Tone))
    ensures
        r.0@ == status_line_text(app@, now_ms),
        r.1 == (if app.loading {
            Tone::Yellow
        } else {
            Tone::DarkGray
        }),
{
    if app.loading {
        (join(app.spinner(), " refreshing "), Tone::Yellow)
    } else {
        let secs = decimal_text(app.last_refresh_age(now_ms) / 1000);
        (join(join("updated ", secs.as_str()).as_str(), "s ago "), Tone::DarkGray)
    }
}

/// The footer's hint for the zoom key.
pub fn zoom_hint(zoomed: bool) -> (r: &'static str)
    ensures
        r@ == (if zoomed {
            " unzoom   "@
        } else {
            " zoom   "@
        }),
{
    if zoomed {
        " unzoom   "
    } else {
        " zoom   "
    }
}

/// The widths, in percent, of the columns of a table with `n` columns: each
/// gets `100 / n`, with the column count taken as a `u16` as it is drawn.
pub fn column_widths(n: usize) -> (r: Vec<u16>)
    requires
        n == 0 || n % 0x10000 != 0,
    ensures
        r@.len() == n,
        forall|i: int| 0 <= i < n ==> #[trigger] r@[i] == 100int / (n as int % 0x10000),
{
    let mut r: Vec<u16> = Vec::new();
    if n == 0 {
        return r;
    }
    let d = (n % 0x10000) as u16;
    let w = 100 / d;
    for i in 0..n
        invariant
            d == n % 0x10000,
            d != 0,
            w == 100int / (d as int),
            r@.len() == i,
            forall|k: int| 0 <= k < i ==> #[trigger] r@[k] == 100int / (n as int % 0x10000),
    {
        r.push(w);
    }
    r
}

/// The panels drawn, each with whether it has the focus: the focused panel
/// alone when zoomed, else all four in focus order.
pub open spec fn visible_of(focus: Panel, zoomed: bool) -> Seq<(Panel, bool)> {
    if zoomed {
        seq![(focus, true)]
    } else {
        seq![
            (Panel::Clusters, focus == Panel::Clusters),
            (Panel::Jobs, focus == Panel::Jobs),
            (Panel::Pipelines, focus == Panel::Pipelines),
            (Panel::Warehouses, focus == Panel::Warehouses),
        ]
    }
}

/// The panels to draw, each with whether it has the focus.
pub fn visible_panels(app: &App) -> (r: Vec<(Panel, bool)>)
    ensures
        r@ == visible_of(app.focus, app.zoomed),
{
    if app.zoomed {
        vec![(app.focus, true)]
    } else {
        let f = app.focus;
        vec![
            (Panel::Clusters, f == Panel::Clusters),
            (Panel::Jobs, f == Panel::Jobs),
            (Panel::Pipelines, f == Panel::Pipelines),
            (Panel::Warehouses, f == Panel::Warehouses),
        ]
    }
}

/// Unzoomed, the four panels are drawn in focus order and exactly the focused
/// one is marked; zoomed, only the focused panel is drawn, marked.
pub proof fn lemma_visible_panels(focus: Panel, zoomed: bool)
    ensures
        !zoomed ==> visible_of(focus, zoomed).len() == PANEL_COUNT,
        !zoomed ==> forall|k: int|
            0 <= k < PANEL_COUNT ==> (#[trigger] visible_of(focus, zoomed)[k]).0 == panel_at(k),
        !zoomed ==> forall|k: int|
            0 <= k < PANEL_COUNT ==> ((#[trigger] visible_of(focus, zoomed)[k]).1 <==> panel_at(k)
                == focus),
        !zoomed ==> visible_of(focus, zoomed)[focus.position()].1,
        !zoomed ==> forall|j: int, k: int|
            0 <= j < PANEL_COUNT && 0 <= k < PANEL_COUNT && (#[trigger] visible_of(
                focus,
                zoomed,
            )[j]).1 && (#[trigger] visible_of(focus, zoomed)[k]).1 ==> j == k,
        zoomed ==> visible_of(focus, zoomed) == seq![(focus, true)],
{
    if !zoomed {
        let r = visible_of(focus, zoomed);
        assert forall|k: int| 0 <= k < PANEL_COUNT implies (#[trigger] r[k]).0 == panel_at(k) && (r[k].1
            <==> panel_at(k) == focus) by {
            if k == 0 {
            } else if k == 1 {
            } else if k == 2 {
            } else {
            }
        }
    }
}

} // verus!
