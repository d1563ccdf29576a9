use vstd::prelude::*;
use crate::shape::Shape;

verus! {

/// The number of panels on the dashboard.
pub const PANEL_COUNT: usize = 4;

/// The number of fetches one refresh starts: one per panel and one for the
/// signed-in user's badge.
pub const FETCHES_PER_REFRESH: usize = 5;

/// The number of frames of the busy spinner.
pub const SPINNER_FRAME_COUNT: usize = 10;

/// Colour scheme of the dashboard.
#[derive(Debug, Clone, Copy, PartialEq, Eq, Structural)]
pub enum ThemeMode {
    Dark,
    Light,
}

impl ThemeMode {
    /// The other theme.
    pub open spec fn flipped(self) -> ThemeMode {
        match self {
            ThemeMode::Dark => ThemeMode::Light,
            ThemeMode::Light => ThemeMode::Dark,
        }
    }

    /// Switches between the dark and the light theme.
    pub fn toggled(self) -> (r: Self)
        ensures
            r == self.flipped(),
    {
        match self {
            ThemeMode::Dark => ThemeMode::Light,
            ThemeMode::Light => ThemeMode::Dark,
        }
    }
}

/// The panels of the dashboard, in the order in which focus moves through
/// them.
#[derive(Debug, Clone, Copy, PartialEq, Eq, Structural)]
pub enum Panel {
    Clusters,
    Jobs,
    Pipelines,
    Warehouses,
}

/// The panel at position `i` (`0 <= i < 4`) of the focus order.
pub open spec fn panel_at(i: int) -> Panel {
    if i == 0 {
        Panel::Clusters
    } else if i == 1 {
        Panel::Jobs
    } else if i == 2 {
        Panel::Pipelines
    } else {
        Panel::Warehouses
    }
}

impl Panel {
    /// This panel's position in the focus order.
    pub open spec fn position(self) -> int {
        match self {
            Panel::Clusters => 0,
            Panel::Jobs => 1,
            Panel::Pipelines => 2,
            Panel::Warehouses => 3,
        }
    }

    /// The panel after this one, wrapping from the last to the first.
    pub open spec fn next(self) -> Panel {
        panel_at((self.position() + 1) % (PANEL_COUNT as int))
    }

    /// The panel before this one, wrapping from the first to the last.
    pub open spec fn prev(self) -> Panel {
        panel_at((self.position() + PANEL_COUNT - 1) % (PANEL_COUNT as int))
    }

    /// The panel's title.
    pub open spec fn title_text(self) -> Seq<char> {
        match self {
            Panel::Clusters => "Clusters"@,
            Panel::Jobs => "Jobs"@,
            Panel::Pipelines => "Pipelines"@,
            Panel::Warehouses => "Warehouses"@,
        }
    }

    /// The panel's icon.
    pub open spec fn icon_text(self) -> Seq<char> {
        match self {
            Panel::Clusters => "◆"@,
            Panel::Jobs => "◈"@,
            Panel::Pipelines => "⇶"@,
            Panel::Warehouses => "▣"@,
        }
    }

    /// This panel's position in the focus order.
    pub fn index(&self) -> (r: usize)
        ensures
            r == self.position(),
    {
        match self {
            Panel::Clusters => 0,
            Panel::Jobs => 1,
            Panel::Pipelines => 2,
            Panel::Warehouses => 3,
        }
    }

    /// The panel at position `i` of the focus order.
    pub fn from_index(i: usize) -> (r: Panel)
        requires
            i < PANEL_COUNT,
        ensures
            r == panel_at(i as int),
            r.position() == i,
    {
        if i == 0 {
            Panel::Clusters
        } else if i == 1 {
            Panel::Jobs
        } else if i == 2 {
            Panel::Pipelines
        } else {
            Panel::Warehouses
        }
    }

    /// All panels in focus order.
    pub fn all() -> (r: Vec<Panel>)
        ensures
            r@ == seq![Panel::Clusters, Panel::Jobs, Panel::Pipelines, Panel::Warehouses],
    {
        vec![Panel::Clusters, Panel::Jobs, Panel::Pipelines, Panel::Warehouses]
    }

    /// The panel's title.
    pub fn title(&self) -> (r: &'static str)
        ensures
            r@ == self.title_text(),
    {
        match self {
            Panel::Clusters => "Clusters",
            Panel::Jobs => "Jobs",
            Panel::Pipelines => "Pipelines",
            Panel::Warehouses => "Warehouses",
        }
    }

    /// The panel's icon.
    pub fn icon(&self) -> (r: &'static str)
        ensures
            r@ == self.icon_text(),
    {
        match self {
            Panel::Clusters => "◆",
            Panel::Jobs => "◈",
            Panel::Pipelines => "⇶",
            Panel::Warehouses => "▣",
        }
    }
}

/// The spinner frame at position `i` (`0 <= i < 10`).
pub open spec fn spinner_glyph(i: int) -> Seq<char> {
    if i == 0 {
        "⠋"@
    } else if i == 1 {
        "⠙"@
    } else if i == 2 {
        "⠹"@
    } else if i == 3 {
        "⠸"@
    } else if i == 4 {
        "⠼"@
    } else if i == 5 {
        "⠴"@
    } else if i == 6 {
        "⠦"@
    } else if i == 7 {
        "⠧"@
    } else if i == 8 {
        "⠇"@
    } else {
        "⠏"@
    }
}

/// The result of one fetch started by a refresh; `None` where the fetch
/// failed.
#[derive(Debug)]
pub enum Update {
    /// The shape for the panel at the given position.
    Panel(usize, Option<Shape>),
    /// The signed-in user's badge.
    Badge(Option<Shape>),
}

/// The dashboard's state. Times are milliseconds on a clock that the caller
/// reads; the state only compares and subtracts them.
pub struct App {
    pub focus: Panel,
    pub theme: ThemeMode,
    pub zoomed: bool,
    /// One slot per panel, in focus order; `None` until its first fetch lands.
    pub shapes: Vec<Option<Shape>>,
    pub user_badge: Option<Shape>,
    pub error: Option<String>,
    pub refresh_interval_secs: u64,
    /// When the last refresh started.
    pub last_refresh_ms: u64,
    pub loading: bool,
    /// Whether fetches of the current refresh may still report.
    pub pending: bool,
    /// How many fetches of the current refresh have not reported yet.
    pub in_flight: usize,
    pub spinner_frame: usize,
}

/// Mathematical model of an [`App`].
pub struct AppView {
    pub focus: Panel,
    pub theme: ThemeMode,
    pub zoomed: bool,
    pub shapes: Seq<Option<Shape>>,
    pub user_badge: Option<Shape>,
    pub error: Option<Seq<char>>,
    pub refresh_interval_secs: u64,
    pub last_refresh_ms: u64,
    pub loading: bool,
    pub pending: bool,
    pub in_flight: usize,
    pub spinner_frame: usize,
}

impl View for App {
    type V = AppView;

    open spec fn view(&self) -> AppView {
        AppView {
            focus: self.focus,
            theme: self.theme,
            zoomed: self.zoomed,
            shapes: self.shapes@,
            user_badge: self.user_badge,
            error: crate::shape::opt_text(self.error),
            refresh_interval_secs: self.refresh_interval_secs,
            last_refresh_ms: self.last_refresh_ms,
            loading: self.loading,
            pending: self.pending,
            in_flight: self.in_flight,
            spinner_frame: self.spinner_frame,
        }
    }
}

/// When a new dashboard takes its last refresh to have started: one second
/// more than a refresh interval before `now`, or `now` itself where the clock
/// has not run that long.
pub open spec fn initial_last_refresh(refresh_secs: u64, now: u64) -> u64 {
    let back = (refresh_secs + 1) * 1000;
    if back <= now {
        (now - back) as u64
    } else {
        now
    }
}

/// A new dashboard: focus on the first panel, nothing loaded, no refresh
/// running.
pub open spec fn initial_view(refresh_secs: u64, theme: ThemeMode, now: u64) -> AppView {
    AppView {
        focus: Panel::Clusters,
        theme: theme,
        zoomed: false,
        shapes: seq![None, None, None, None],
        user_badge: None,
        error: None,
        refresh_interval_secs: refresh_secs,
        last_refresh_ms: initial_last_refresh(refresh_secs, now),
        loading: false,
        pending: false,
        in_flight: 0,
        spinner_frame: 0,
    }
}

/// Every report for a panel names one of the panels.
pub open spec fn reports_name_panels(ups: Seq<Update>) -> bool {
    forall|k: int|
        0 <= k < ups.len() ==> (#[trigger] ups[k] matches Update::Panel(i, _) ==> i < PANEL_COUNT)
}

impl AppView {
    /// One slot per panel.
    pub open spec fn wf(self) -> bool {
        self.shapes.len() == PANEL_COUNT
    }

    /// The state with the spinner one frame further (the counter wraps).
    pub open spec fn ticked(self) -> AppView {
        AppView {
            spinner_frame: if self.spinner_frame < usize::MAX {
                (self.spinner_frame + 1) as usize
            } else {
                0
            },
            ..self
        }
    }

    /// The state with the zoom switched.
    pub open spec fn zoom_toggled(self) -> AppView {
        AppView { zoomed: !self.zoomed, ..self }
    }

    /// The state with the focus on `p`.
    pub open spec fn focused(self, p: Panel) -> AppView {
        AppView { focus: p, ..self }
    }

    /// Time since the last refresh started; zero where the clock reads earlier.
    pub open spec fn elapsed_ms(self, now: u64) -> int {
        if now >= self.last_refresh_ms {
            now - self.last_refresh_ms
        } else {
            0
        }
    }

    /// No refresh is running and a whole interval has passed since the last.
    pub open spec fn due(self, now: u64) -> bool {
        !self.loading && self.elapsed_ms(now) >= self.refresh_interval_secs * 1000
    }

    /// The state after starting a refresh at `now`; unchanged while one runs.
    pub open spec fn started(self, now: u64) -> AppView {
        if self.loading {
            self
        } else {
            AppView {
                loading: true,
                error: None,
                last_refresh_ms: now,
                pending: true,
                in_flight: FETCHES_PER_REFRESH,
                ..self
            }
        }
    }

    /// The state after one fetch reported: a shape replaces the previous one,
    /// a failed fetch keeps it.
    pub open spec fn with_update(self, u: Update) -> AppView {
        let counted = AppView { in_flight: (self.in_flight - 1) as usize, ..self };
        match u {
            Update::Panel(i, Some(s)) => AppView {
                shapes: self.shapes.update(i as int, Some(s)),
                ..counted
            },
            Update::Badge(Some(b)) => AppView { user_badge: Some(b), ..counted },
            _ => counted,
        }
    }

    /// The state after the fetches reported in the order given.
    pub open spec fn with_updates(self, ups: Seq<Update>) -> AppView
        decreases ups.len(),
    {
        if ups.len() == 0 {
            self
        } else {
            self.with_updates(ups.drop_last()).with_update(ups.last())
        }
    }

    /// The state after taking in the reports `ups` of the running refresh,
    /// followed, where `closed`, by word that no more will come. The refresh
    /// ends when every fetch has reported or no more can.
    pub open spec fn polled(self, ups: Seq<Update>, closed: bool) -> AppView {
        if !self.pending {
            self
        } else {
            let applied = self.with_updates(ups);
            let counted = if closed {
                AppView { in_flight: 0, ..applied }
            } else {
                applied
            };
            if counted.in_flight == 0 {
                AppView { loading: false, pending: false, ..counted }
            } else {
                counted
            }
        }
    }

    /// Whether taking in those reports changes what is shown.
    pub open spec fn poll_changes(self, ups: Seq<Update>, closed: bool) -> bool {
        self.pending && (ups.len() > 0 || closed || self.in_flight == ups.len())
    }

    /// The reports are no more than the fetches still out, and every report
    /// names one of the panels.
    pub open spec fn reports_fit(self, ups: Seq<Update>) -> bool {
        &&& ups.len() <= self.in_flight
        &&& reports_name_panels(ups)
    }
}

impl App {
    /// One slot per panel.
    pub open spec fn wf(&self) -> bool {
        self@.wf()
    }

    /// A new dashboard refreshing every `refresh_secs` seconds, created at
    /// `now_ms`; it is due for a refresh at once where the clock allows.
    pub fn new(refresh_secs: u64, theme: ThemeMode, now_ms: u64) -> (r: App)
        requires
            refresh_secs < u64::MAX,
        ensures
            r@ == initial_view(refresh_secs, theme, now_ms),
            r.wf(),
    {
        let last = match (refresh_secs + 1).checked_mul(1000) {
            Some(back) => if back <= now_ms {
                now_ms - back
            } else {
                now_ms
            },
            None => now_ms,
        };
        App {
            focus: Panel::Clusters,
            theme,
            zoomed: false,
            shapes: vec![None, None, None, None],
            user_badge: None,
            error: None,
            refresh_interval_secs: refresh_secs,
            last_refresh_ms: last,
            loading: false,
            pending: false,
            in_flight: 0,
            spinner_frame: 0,
        }
    }

    /// Milliseconds since the last refresh started.
    pub fn last_refresh_age(&self, now_ms: u64) -> (r: u64)
        ensures
            r == self@.elapsed_ms(now_ms),
    {
        now_ms.saturating_sub(self.last_refresh_ms)
    }

    /// The current frame of the busy spinner.
    pub fn spinner(&self) -> (r: &'static str)
        ensures
            r@ == spinner_glyph((self.spinner_frame % SPINNER_FRAME_COUNT) as int),
    {
        let i = self.spinner_frame % SPINNER_FRAME_COUNT;
        if i == 0 {
            "⠋"
        } else if i == 1 {
            "⠙"
        } else if i == 2 {
            "⠹"
        } else if i == 3 {
            "⠸"
        } else if i == 4 {
            "⠼"
        } else if i == 5 {
            "⠴"
        } else if i == 6 {
            "⠦"
        } else if i == 7 {
            "⠧"
        } else if i == 8 {
            "⠇"
        } else {
            "⠏"
        }
    }

    /// Advances the spinner by one frame (the frame counter wraps around).
    pub fn tick_spinner(&mut self)
        ensures
            final(self)@ == old(self)@.ticked(),
            old(self).wf() ==> final(self).wf(),
    {
        self.spinner_frame = self.spinner_frame.wrapping_add(1);
    }

    /// Shows the focused panel alone, or all panels again.
    pub fn toggle_zoom(&mut self)
        ensures
            final(self)@ == old(self)@.zoom_toggled(),
            old(self).wf() ==> final(self).wf(),
    {
        self.zoomed = !self.zoomed;
    }

    /// Moves the focus to the next panel.
    pub fn focus_next(&mut self)
        ensures
            final(self)@ == old(self)@.focused(old(self).focus.next()),
            old(self).wf() ==> final(self).wf(),
    {
        let idx = self.focus.index();
        self.focus = Panel::from_index((idx + 1) % PANEL_COUNT);
    }

    /// Moves the focus to the previous panel.
    pub fn focus_prev(&mut self)
        ensures
            final(self)@ == old(self)@.focused(old(self).focus.prev()),
            old(self).wf() ==> final(self).wf(),
    {
        let idx = self.focus.index();
        self.focus = Panel::from_index((idx + PANEL_COUNT - 1) % PANEL_COUNT);
    }

    /// Whether a refresh should start at `now_ms`.
    pub fn needs_refresh(&self, now_ms: u64) -> (r: bool)
        ensures
            r == self@.due(now_ms),
    {
        let elapsed = now_ms.saturating_sub(self.last_refresh_ms);
        let n = self.refresh_interval_secs;
        assert((elapsed / 1000 >= n) == (elapsed >= n * 1000)) by (nonlinear_arith);
        !self.loading && elapsed / 1000 >= n
    }

    /// Starts a refresh at `now_ms` unless one is running; returns whether it
    /// did, in which case the caller launches the five fetches and hands their
    /// reports to [`App::poll_refresh`].
    pub fn start_refresh(&mut self, now_ms: u64) -> (launch: bool)
        ensures
            launch == !old(self).loading,
            final(self)@ == old(self)@.started(now_ms),
            old(self).wf() ==> final(self).wf(),
    {
        if self.loading {
            return false;
        }
        self.loading = true;
        self.error = None;
        self.last_refresh_ms = now_ms;
        self.pending = true;
        self.in_flight = FETCHES_PER_REFRESH;
        true
    }

    /// Takes in the reports that arrived since the last call, in arrival
    /// order, and whether the fetches can send no more; returns whether
    /// what is shown should be redrawn. A failed fetch keeps the previous
    /// data so that panels do not blank out.
    pub fn poll_refresh(&mut self, batch: Vec<Update>, closed: bool) -> (changed: bool)
        requires
            old(self).wf(),
            old(self).pending ==> old(self)@.reports_fit(batch@),
        ensures
            final(self)@ == old(self)@.polled(batch@, closed),
            changed == old(self)@.poll_changes(batch@, closed),
            final(self).wf(),
    {
        if !self.pending {
            return false;
        }
        let ghost start = self@;
        let ghost all = batch@;
        let mut changed = false;
        for u in it: batch.into_iter()
            invariant
                it.seq() == all,
                start.wf(),
                start.reports_fit(all),
                start.pending,
                self@ == start.with_updates(all.take(it.index() as int)),
                self.in_flight == start.in_flight - it.index(),
                self.wf(),
                changed == (it.index() > 0),
        {
            proof {
                assert(all.take(it.index() + 1).drop_last() =~= all.take(it.index() as int));
                assert(all.take(it.index() + 1).last() == all[it.index() as int]);
            }
            match u {
                Update::Panel(i, shape) => {
                    proof {
                        assert(all[it.index() as int] matches Update::Panel(j, _) ==> j < PANEL_COUNT);
                    }
                    if shape.is_some() {
                        self.shapes.set(i, shape);
                    }
                },
                Update::Badge(badge) => {
                    if badge.is_some() {
                        self.user_badge = badge;
                    }
                },
            }
            self.in_flight = self.in_flight - 1;
            changed = true;
        }
        proof {
            assert(all.take(all.len() as int) =~= all);
        }
        if closed {
            self.in_flight = 0;
        }
        if self.in_flight == 0 {
            self.loading = false;
            self.pending = false;
            changed = true;
        }
        changed
    }
}

/// Switching the theme twice gives the theme back, and a switch always
/// changes it.
pub proof fn lemma_theme_toggle_involution(t: ThemeMode)
    ensures
        t.flipped().flipped() == t,
        t.flipped() != t,
{
}

/// Moving the focus forward and then back, or back and then forward, leaves
/// it on the panel where it started.
pub proof fn lemma_focus_prev_undoes_next(p: Panel)
    ensures
        p.next().prev() == p,
        p.prev().next() == p,
{
}

/// Moving the focus forward passes through every panel once and then comes
/// back to the first.
pub proof fn lemma_focus_visits_every_panel(p: Panel)
    ensures
        p.next().next().next().next() == p,
        p != p.next(),
        p != p.next().next(),
        p != p.next().next().next(),
        p.next() != p.next().next(),
        p.next() != p.next().next().next(),
        p.next().next() != p.next().next().next(),
{
}

/// Every step of the dashboard keeps one slot per panel: a new dashboard has
/// them, and focusing, zooming, ticking, starting a refresh and taking in the
/// reports of the running refresh keep them.
pub proof fn lemma_every_step_keeps_panel_slots(
    a: AppView,
    refresh_secs: u64,
    theme: ThemeMode,
    now: u64,
    p: Panel,
    ups: Seq<Update>,
    closed: bool,
)
    requires
        a.wf(),
        reports_name_panels(ups),
    ensures
        initial_view(refresh_secs, theme, now).wf(),
        a.focused(p).wf(),
        a.zoom_toggled().wf(),
        a.ticked().wf(),
        a.started(now).wf(),
        a.polled(ups, closed).wf(),
{
    lemma_reports_keep_panel_slots(a, ups);
}

/// Reports that name panels keep one slot per panel, however many of them
/// arrive.
pub proof fn lemma_reports_keep_panel_slots(a: AppView, ups: Seq<Update>)
    requires
        a.wf(),
        reports_name_panels(ups),
    ensures
        a.with_updates(ups).wf(),
    decreases ups.len(),
{
    if ups.len() > 0 {
        let init = ups.drop_last();
        assert(reports_name_panels(init)) by {
            assert forall|k: int| 0 <= k < init.len() implies (#[trigger] init[k] matches Update::Panel(
                i,
                _,
            ) ==> i < PANEL_COUNT) by {
                assert(init[k] == ups[k]);
            }
        }
        lemma_reports_keep_panel_slots(a, init);
        assert(ups.last() == ups[ups.len() - 1]);
    }
}

/// A report that carries data shows it: in the reports taken in, the last
/// report for panel `i` that carries data decides what slot `i` holds,
/// whatever the slot held before.
pub proof fn lemma_reports_last_data_wins(a: AppView, ups: Seq<Update>, k: int, i: usize, s: Shape)
    requires
        a.wf(),
        reports_name_panels(ups),
        0 <= k < ups.len(),
        ups[k] == Update::Panel(i, Some(s)),
        forall|m: int|
            k < m < ups.len() ==> !(#[trigger] ups[m] matches Update::Panel(j, Some(_)) && j == i),
    ensures
        a.with_updates(ups).shapes[i as int] == Some(s),
    decreases ups.len(),
{
    let init = ups.drop_last();
    assert(reports_name_panels(init)) by {
        assert forall|m: int| 0 <= m < init.len() implies (#[trigger] init[m] matches Update::Panel(
            j,
            _,
        ) ==> j < PANEL_COUNT) by {
            assert(init[m] == ups[m]);
        }
    }
    lemma_reports_keep_panel_slots(a, init);
    assert(ups.last() == ups[ups.len() - 1]);
    assert(i < PANEL_COUNT) by {
        assert(ups[k] matches Update::Panel(j, _) ==> j < PANEL_COUNT);
    }
    if k < ups.len() - 1 {
        assert forall|m: int| k < m < init.len() implies !(#[trigger] init[m] matches Update::Panel(
            j,
            Some(_),
        ) && j == i) by {
            assert(init[m] == ups[m]);
        }
        assert(init[k] == ups[k]);
        lemma_reports_last_data_wins(a, init, k, i, s);
    }
}

/// A fetch that lands replaces what its panel showed before: taking in the
/// reports of a running refresh whose last report for panel `i` carries a
/// shape leaves that shape in slot `i`, even where the slot already held
/// data; a report for one panel leaves every other panel as it was.
pub proof fn lemma_landed_fetch_replaces_panel(
    a: AppView,
    ups: Seq<Update>,
    closed: bool,
    k: int,
    i: usize,
    s: Shape,
)
    requires
        a.wf(),
        a.pending,
        reports_name_panels(ups),
        0 <= k < ups.len(),
        ups[k] == Update::Panel(i, Some(s)),
        forall|m: int|
            k < m < ups.len() ==> !(#[trigger] ups[m] matches Update::Panel(j, Some(_)) && j == i),
    ensures
        a.polled(ups, closed).shapes[i as int] == Some(s),
        forall|j: int|
            0 <= j < PANEL_COUNT && j != i ==> #[trigger] a.with_update(ups[k]).shapes[j]
                == a.shapes[j],
{
    lemma_reports_last_data_wins(a, ups, k, i, s);
}

/// Zooming twice restores the view.
pub proof fn lemma_zoom_toggle_involution(a: AppView)
    ensures
        a.zoom_toggled().zoom_toggled() == a,
{
}

/// Each tick shows the next spinner frame, the last frame being followed by
/// the first, as long as the frame counter does not wrap around.
pub proof fn lemma_tick_advances_spinner(a: AppView)
    requires
        a.spinner_frame < usize::MAX,
    ensures
        a.ticked().spinner_frame % SPINNER_FRAME_COUNT == (a.spinner_frame % SPINNER_FRAME_COUNT
            + 1) % (SPINNER_FRAME_COUNT as int),
{
}

/// While a refresh runs, starting another one changes nothing, and no
/// refresh is due.
pub proof fn lemma_no_second_refresh_while_loading(a: AppView, now: u64, later: u64)
    requires
        a.loading,
    ensures
        a.started(now) == a,
        !a.due(later),
{
}

/// Reports that arrive change only the panels, the badge and the count of
/// fetches still out.
pub proof fn lemma_reports_touch_only_data(a: AppView, ups: Seq<Update>)
    requires
        a.wf(),
        a.reports_fit(ups),
    ensures
        a.with_updates(ups).in_flight == a.in_flight - ups.len(),
        a.with_updates(ups).shapes.len() == a.shapes.len(),
        a.with_updates(ups).loading == a.loading,
        a.with_updates(ups).pending == a.pending,
        a.with_updates(ups).last_refresh_ms == a.last_refresh_ms,
        a.with_updates(ups).refresh_interval_secs == a.refresh_interval_secs,
        a.with_updates(ups).focus == a.focus,
        a.with_updates(ups).zoomed == a.zoomed,
    decreases ups.len(),
{
    if ups.len() > 0 {
        let init = ups.drop_last();
        assert(a.reports_fit(init)) by {
            assert forall|k: int| 0 <= k < init.len() implies (#[trigger] init[k] matches Update::Panel(
                i,
                _,
            ) ==> i < PANEL_COUNT) by {
                assert(init[k] == ups[k]);
            }
        }
        lemma_reports_touch_only_data(a, init);
        assert(ups.last() == ups[ups.len() - 1]);
    }
}

/// A fetch that failed keeps what its panel or badge showed before: reports
/// that all carry no data leave every panel and the badge as they were.
pub proof fn lemma_failed_fetches_keep_data(a: AppView, ups: Seq<Update>, closed: bool)
    requires
        a.reports_fit(ups),
        forall|k: int|
            0 <= k < ups.len() ==> match #[trigger] ups[k] {
                Update::Panel(_, s) => s is None,
                Update::Badge(b) => b is None,
            },
    ensures
        a.polled(ups, closed).shapes == a.shapes,
        a.polled(ups, closed).user_badge == a.user_badge,
    decreases ups.len(),
{
    if ups.len() > 0 {
        let init = ups.drop_last();
        assert forall|k: int| 0 <= k < init.len() implies (#[trigger] init[k] matches Update::Panel(
            i,
            _,
        ) ==> i < PANEL_COUNT) && match init[k] {
            Update::Panel(_, s) => s is None,
            Update::Badge(b) => b is None,
        } by {
            assert(init[k] == ups[k]);
        }
        lemma_failed_fetches_keep_data(a, init, false);
        assert(ups.last() == ups[ups.len() - 1]);
        if a.pending {
            assert(a.with_updates(init).shapes == a.shapes);
        }
    }
}

/// A refresh ends once all five fetches have reported, or once no more can
/// report; before that it keeps running.
pub proof fn lemma_refresh_ends_when_all_reported(a: AppView, now: u64, ups: Seq<Update>, closed: bool)
    requires
        a.wf(),
        !a.loading,
        a.started(now).reports_fit(ups),
    ensures
        (ups.len() == FETCHES_PER_REFRESH || closed) ==> {
            let b = a.started(now).polled(ups, closed);
            !b.loading && !b.pending && b.in_flight == 0
        },
        (ups.len() < FETCHES_PER_REFRESH && !closed) ==> {
            let b = a.started(now).polled(ups, closed);
            b.loading && b.pending && b.in_flight == FETCHES_PER_REFRESH - ups.len()
        },
{
    lemma_reports_touch_only_data(a.started(now), ups);
}

/// After a refresh started at `now` has ended, the next one is due exactly
/// when a whole interval has passed since `now`.
pub proof fn lemma_next_refresh_after_interval(
    a: AppView,
    now: u64,
    ups: Seq<Update>,
    closed: bool,
    later: u64,
)
    requires
        a.wf(),
        !a.loading,
        a.started(now).reports_fit(ups),
        ups.len() == FETCHES_PER_REFRESH || closed,
        later >= now,
    ensures
        a.started(now).polled(ups, closed).due(later) <==> later - now
            >= a.refresh_interval_secs * 1000,
{
    lemma_refresh_ends_when_all_reported(a, now, ups, closed);
    lemma_reports_touch_only_data(a.started(now), ups);
}

/// A new dashboard is due for a refresh at once, where the clock has run
/// longer than one interval and a second.
pub proof fn lemma_new_dashboard_refreshes_at_once(refresh_secs: u64, theme: ThemeMode, now: u64)
    requires
        (refresh_secs + 1) * 1000 <= now,
    ensures
        initial_view(refresh_secs, theme, now).due(now),
{
}

} // verus!
