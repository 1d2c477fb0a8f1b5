//! Tab strip vocabulary and geometry: cells sized by display columns with a
//! one-cell gap, column hit-testing, and the strip's enums.

use vstd::prelude::*;
use crate::geometry::{sat_add, sat_sub};
use crate::text::{display_cols, str_width};
use vstd::laws_eq::obeys_concrete_eq;
use crate::geometry::{Position, Rect};
use crate::style::DesignSystem;
use crate::input::{KeyCode, KeyEvent, KeyEventKind, KeyModifiers, MouseButton, MouseEvent, MouseEventKind};
use crate::interaction::{lemma_roving_lands_on_enabled, roving_move, roving_target, same, HitRegion, NavigationMove, RovingOrientation, UiIntent};

verus! {

/// Blank cells between adjacent tab cells.
pub const TAB_GAP: u16 = 1;
/// Width under which a strip prefers a select-like collapse.
pub const TABS_SELECT_MAX_WIDTH: u16 = 18;
/// Width under which an overflow `…` is preferred.
pub const TABS_OVERFLOW_MAX_WIDTH: u16 = 42;

/// Geometry of one painted tab.
#[derive(Debug, Clone, Copy, PartialEq, Eq)]
pub struct TabCell<'a> {
    /// Label.
    pub label: &'a str,
    /// Whether the tab is active.
    pub active: bool,
    /// First painted column, relative to the strip.
    pub start_col: u16,
    /// Painted columns of the hit region.
    pub cell_cols: u16,
}

/// Columns of a tab cell: the label (saturated to `u16`) plus one on each
/// side.
pub open spec fn cell_cols_spec(label: Seq<char>) -> int {
    let w = if str_width(label) > u16::MAX { u16::MAX as int } else { str_width(label) as int };
    sat_add(w, 2)
}

/// Start column of cell `k`: cells follow each other with a one-cell gap.
pub open spec fn cell_start_spec(labels: Seq<(&str, bool)>, start: int, k: int) -> int
    decreases k,
{
    if k <= 0 {
        start
    } else {
        sat_add(sat_add(cell_start_spec(labels, start, k - 1), cell_cols_spec(labels[k - 1].0@)), TAB_GAP as int)
    }
}

/// Lays tabs out from `start_col`, one cell per `(label, active)` pair.
pub fn lay_out_tabs<'a>(labels: &[(&'a str, bool)], start_col: u16) -> (v: Vec<TabCell<'a>>)
    ensures
        v@.len() == labels@.len(),
        forall|k: int| 0 <= k < labels@.len() ==> {
            &&& (#[trigger] v@[k]).label == labels@[k].0
            &&& v@[k].active == labels@[k].1
            &&& v@[k].start_col == cell_start_spec(labels@, start_col as int, k)
            &&& v@[k].cell_cols == cell_cols_spec(labels@[k].0@)
        },
{
    let mut col = start_col;
    let mut out: Vec<TabCell<'a>> = Vec::new();
    let mut k: usize = 0;
    while k < labels.len()
        invariant
            k <= labels@.len(),
            out@.len() == k,
            col == cell_start_spec(labels@, start_col as int, k as int),
            forall|j: int| 0 <= j < k ==> {
                &&& (#[trigger] out@[j]).label == labels@[j].0
                &&& out@[j].active == labels@[j].1
                &&& out@[j].start_col == cell_start_spec(labels@, start_col as int, j)
                &&& out@[j].cell_cols == cell_cols_spec(labels@[j].0@)
            },
        decreases labels@.len() - k,
    {
        let (label, active) = labels[k];
        let w = display_cols(label);
        let label_cols: u16 = if w > 65535 { 65535 } else { w as u16 };
        let cell_cols = label_cols.saturating_add(2);
        out.push(TabCell { label, active, start_col: col, cell_cols });
        col = col.saturating_add(cell_cols).saturating_add(TAB_GAP);
        k = k + 1;
    }
    out
}

/// Whether column `col` falls in a cell.
pub open spec fn cell_hit(cell: TabCell, col: u16) -> bool {
    cell.start_col <= col && col < sat_add(cell.start_col as int, cell.cell_cols as int)
}

/// Index of the first cell whose column range holds `col`.
pub fn tab_at_column(cells: &[TabCell<'_>], col: u16) -> (r: Option<usize>)
    ensures
        match r {
            Some(i) => i < cells@.len() && cell_hit(cells@[i as int], col)
                && forall|j: int| 0 <= j < i ==> !cell_hit(#[trigger] cells@[j], col),
            None => forall|j: int| 0 <= j < cells@.len() ==> !cell_hit(#[trigger] cells@[j], col),
        },
{
    let mut i: usize = 0;
    while i < cells.len()
        invariant
            i <= cells@.len(),
            forall|j: int| 0 <= j < i ==> !cell_hit(#[trigger] cells@[j], col),
        decreases cells@.len() - i,
    {
        let c = cells[i];
        if col >= c.start_col && col < c.start_col.saturating_add(c.cell_cols) {
            return Some(i);
        }
        i = i + 1;
    }
    None
}

/// Strip orientation.
#[derive(Debug, Clone, Copy, PartialEq, Eq, Hash, Structural)]
pub enum TabsOrientation {
    /// Left to right.
    Horizontal,
    /// Top to bottom.
    Vertical,
}

impl Default for TabsOrientation {
    /// `Horizontal`.
    fn default() -> (r: TabsOrientation)
        ensures
            r == TabsOrientation::Horizontal,
    {
        TabsOrientation::Horizontal
    }
}

impl TabsOrientation {
    /// Stable id.
    pub fn id(self) -> (s: &'static str)
        ensures
            s@ == match self {
                TabsOrientation::Horizontal => "horizontal"@,
                TabsOrientation::Vertical => "vertical"@,
            },
    {
        match self {
            TabsOrientation::Horizontal => "horizontal",
            TabsOrientation::Vertical => "vertical",
        }
    }
}

/// When focus becomes selection.
#[derive(Debug, Clone, Copy, PartialEq, Eq, Hash, Structural)]
pub enum TabsActivation {
    /// Moving focus selects.
    Automatic,
    /// Enter or a click selects.
    Manual,
}

impl Default for TabsActivation {
    /// `Automatic`.
    fn default() -> (r: TabsActivation)
        ensures
            r == TabsActivation::Automatic,
    {
        TabsActivation::Automatic
    }
}

impl TabsActivation {
    /// Stable id.
    pub fn id(self) -> (s: &'static str)
        ensures
            s@ == match self {
                TabsActivation::Automatic => "automatic"@,
                TabsActivation::Manual => "manual"@,
            },
    {
        match self {
            TabsActivation::Automatic => "automatic",
            TabsActivation::Manual => "manual",
        }
    }
}

/// Presentation under width pressure.
#[derive(Debug, Clone, Copy, PartialEq, Eq, Hash, Structural)]
pub enum TabsPresentation {
    /// Everything visible.
    Expanded,
    /// A scrolled window.
    Scrolling,
    /// Some tabs behind `…`.
    Overflow,
    /// A select-like trigger.
    Select,
}

impl Default for TabsPresentation {
    /// `Expanded`.
    fn default() -> (r: TabsPresentation)
        ensures
            r == TabsPresentation::Expanded,
    {
        TabsPresentation::Expanded
    }
}

impl TabsPresentation {
    /// Stable id.
    pub fn id(self) -> (s: &'static str)
        ensures
            s@ == match self {
                TabsPresentation::Expanded => "expanded"@,
                TabsPresentation::Scrolling => "scrolling"@,
                TabsPresentation::Overflow => "overflow"@,
                TabsPresentation::Select => "select"@,
            },
    {
        match self {
            TabsPresentation::Expanded => "expanded",
            TabsPresentation::Scrolling => "scrolling",
            TabsPresentation::Overflow => "overflow",
            TabsPresentation::Select => "select",
        }
    }
}

/// Non-color status of a tab.
#[derive(Debug, Clone, Copy, PartialEq, Eq, Hash, Structural)]
pub enum TabStatus {
    /// No mark.
    Plain,
    /// Busy.
    Running,
    /// Success.
    Success,
    /// Warning.
    Warning,
    /// Error.
    Error,
    /// Unsaved.
    Dirty,
}

impl Default for TabStatus {
    /// `Plain`.
    fn default() -> (r: TabStatus)
        ensures
            r == TabStatus::Plain,
    {
        TabStatus::Plain
    }
}

impl TabStatus {
    /// Stable id.
    pub fn id(self) -> (s: &'static str)
        ensures
            s@ == match self {
                TabStatus::Plain => "none"@,
                TabStatus::Running => "running"@,
                TabStatus::Success => "success"@,
                TabStatus::Warning => "warning"@,
                TabStatus::Error => "error"@,
                TabStatus::Dirty => "dirty"@,
            },
    {
        match self {
            TabStatus::Plain => "none",
            TabStatus::Running => "running",
            TabStatus::Success => "success",
            TabStatus::Warning => "warning",
            TabStatus::Error => "error",
            TabStatus::Dirty => "dirty",
        }
    }

    /// The mark, ASCII or Unicode; none for a plain tab.
    pub open spec fn mark_spec(self, ascii: bool) -> Option<Seq<char>> {
        match self {
            TabStatus::Plain => None,
            TabStatus::Running => Some(if ascii { "*"@ } else { "●"@ }),
            TabStatus::Success => Some(if ascii { "+"@ } else { "✓"@ }),
            TabStatus::Warning => Some(if ascii { "!"@ } else { "⚠"@ }),
            TabStatus::Error => Some("!"@),
            TabStatus::Dirty => Some(if ascii { "."@ } else { "•"@ }),
        }
    }

    /// The mark, ASCII or Unicode.
    pub fn mark(self, ascii: bool) -> (r: Option<&'static str>)
        ensures
            match r { Some(s) => self.mark_spec(ascii) == Some(s@), None => self.mark_spec(ascii) is None },
    {
        match self {
            TabStatus::Plain => None,
            TabStatus::Running => Some(if ascii { "*" } else { "●" }),
            TabStatus::Success => Some(if ascii { "+" } else { "✓" }),
            TabStatus::Warning => Some(if ascii { "!" } else { "⚠" }),
            TabStatus::Error => Some("!"),
            TabStatus::Dirty => Some(if ascii { "." } else { "•" }),
        }
    }
}

/// How the active tab is marked.
#[derive(Debug, Clone, Copy, PartialEq, Eq, Hash, Structural)]
pub enum TabsActiveCue {
    /// Bold label, host draws the rule.
    AccentPill,
    /// Joined to the pane below.
    Connected,
    /// Leading marker plus weight.
    Marker,
    /// A rule under the active tab.
    Rule,
}

impl Default for TabsActiveCue {
    /// `Rule`.
    fn default() -> (r: TabsActiveCue)
        ensures
            r == TabsActiveCue::Rule,
    {
        TabsActiveCue::Rule
    }
}

impl TabsActiveCue {
    /// Stable id.
    pub fn id(self) -> (s: &'static str)
        ensures
            s@ == match self {
                TabsActiveCue::AccentPill => "accent-pill"@,
                TabsActiveCue::Connected => "connected"@,
                TabsActiveCue::Marker => "marker"@,
                TabsActiveCue::Rule => "rule"@,
            },
    {
        match self {
            TabsActiveCue::AccentPill => "accent-pill",
            TabsActiveCue::Connected => "connected",
            TabsActiveCue::Marker => "marker",
            TabsActiveCue::Rule => "rule",
        }
    }
}

/// Outcome of a tab-strip event.
#[derive(Debug, Clone, PartialEq, Eq)]
pub enum TabsOutcome<Id> {
    /// No effect.
    Ignored,
    /// Chrome, hover or scroll changed.
    Changed,
    /// The roving focus moved.
    FocusChanged {
        /// Focused tab.
        id: Option<Id>,
    },
    /// The selected panel changed.
    SelectionChanged {
        /// Selected tab.
        id: Id,
    },
    /// Closing a tab was requested.
    CloseRequested {
        /// Tab to close.
        id: Id,
    },
    /// The overflow menu opens over the tabs not shown inline.
    OverflowOpened {
        /// Tabs not shown inline.
        overflow_ids: Vec<Id>,
    },
    /// The overflow menu closed.
    OverflowClosed,
    /// Moving a tab was requested (the order is the host's).
    ReorderRequested {
        /// Position in the current tabs.
        from: usize,
        /// Target position.
        to: usize,
    },
    /// The presentation changed.
    PresentationChanged {
        /// New presentation.
        presentation: TabsPresentation,
    },
}

} // verus!

verus! {

// ── Scroll window ───────────────────────────────────────────────────────────

/// Tabs from `j` on that fit after `used` cells within `avail`: the first
/// costs its width, each later one its width and the gap.
pub open spec fn fit_from(widths: Seq<u16>, gap: int, avail: int, j: int, used: int, first: bool) -> int
    decreases widths.len() - j,
{
    if j < 0 || j >= widths.len() {
        0
    } else {
        let need = if first { widths[j] as int } else { sat_add(widths[j] as int, gap) };
        if sat_add(used, need) > avail {
            0
        } else {
            1 + fit_from(widths, gap, avail, j + 1, sat_add(used, need), false)
        }
    }
}

/// Tabs shown from `offset`: those that fit, but at least one.
pub open spec fn window_fit(widths: Seq<u16>, gap: int, avail: int, offset: int) -> int {
    let f = fit_from(widths, gap, avail, offset, 0, true);
    if f == 0 && widths.len() > 0 { 1 } else { f }
}

/// The first tab shown: moved on from `offset` while the selected tab
/// lies past the window and tabs remain.
pub open spec fn settle_offset(widths: Seq<u16>, gap: int, avail: int, selected: Option<usize>, offset: int) -> int
    decreases widths.len() - offset,
{
    match selected {
        Some(i) => if i >= offset + window_fit(widths, gap, avail, offset) && offset + 1 < widths.len() {
            settle_offset(widths, gap, avail, selected, offset + 1)
        } else {
            offset
        },
        None => offset,
    }
}

/// A scrolled strip's window.
#[derive(Debug, Clone, Copy, PartialEq, Eq, Hash, Structural)]
pub struct TabWindow {
    /// First tab shown.
    pub offset: usize,
    /// How many tabs show from it.
    pub fit: usize,
    /// Whether the tabs overflow the width, so `‹` and `›` take three cells
    /// at each end.
    pub chevrons: bool,
}

/// The window of a scrolled strip `width` cells wide over tabs of
/// `widths` joined by `gap`: when they overflow, three cells go to each
/// chevron; the offset is pulled back to a selected tab before it, then
/// moved on until the selected tab shows.
pub open spec fn tab_window_spec(widths: Seq<u16>, gap: int, width: int, selected: Option<usize>, offset: int) -> TabWindow {
    let total = fit_total(widths, gap, widths.len() as int);
    let chevrons = total > width;
    let avail = sat_sub(width, if chevrons { 6 } else { 0 });
    let o1 = match selected { Some(i) => if (i as int) < offset { i as int } else { offset }, None => offset };
    let o = settle_offset(widths, gap, avail, selected, o1);
    TabWindow { offset: o as usize, fit: window_fit(widths, gap, avail, o) as usize, chevrons }
}

/// Width of the first `k` tabs joined by gaps (saturating).
pub open spec fn fit_total(widths: Seq<u16>, gap: int, k: int) -> int
    decreases k,
{
    if k <= 0 {
        0
    } else {
        let prev = fit_total(widths, gap, k - 1);
        let with_tab = sat_add(prev, widths[k - 1] as int);
        if k < widths.len() { sat_add(with_tab, gap) } else { with_tab }
    }
}

fn fit_count(widths: &Vec<u16>, gap: u16, avail: u16, offset: usize) -> (f: usize)
    ensures
        f as int == window_fit(widths@, gap as int, avail as int, offset as int),
{
    let n = widths.len();
    let mut fit: usize = 0;
    let mut used: u16 = 0;
    let mut j = offset;
    let mut stopped = false;
    let ghost start = offset as int;
    while j < n && !stopped
        invariant
            n == widths@.len(),
            offset <= j,
            fit == j - offset,
            stopped ==> fit_from(widths@, gap as int, avail as int, j as int, used as int, fit == 0) == 0,
            fit_from(widths@, gap as int, avail as int, start, 0, true)
                == fit + fit_from(widths@, gap as int, avail as int, j as int, used as int, fit == 0),
        decreases n - j + (if stopped { 0int } else { 1int }),
    {
        let w = widths[j];
        let need = if fit == 0 { w } else { w.saturating_add(gap) };
        if used.saturating_add(need) > avail {
            stopped = true;
        } else {
            used = used.saturating_add(need);
            fit = fit + 1;
            j = j + 1;
        }
    }
    if fit == 0 && n > 0 { 1 } else { fit }
}

/// The window of a scrolled strip (see [`tab_window_spec`]); `selected` is
/// the selected tab's index.
pub fn tab_window(widths: &Vec<u16>, gap: u16, width: u16, selected: Option<usize>, offset: usize) -> (w: TabWindow)
    ensures
        w == tab_window_spec(widths@, gap as int, width as int, selected, offset as int),
{
    let n = widths.len();
    let mut total: u16 = 0;
    let mut k: usize = 0;
    while k < n
        invariant
            n == widths@.len(),
            k <= n,
            total as int == fit_total(widths@, gap as int, k as int),
        decreases n - k,
    {
        total = total.saturating_add(widths[k]);
        if k + 1 < n {
            total = total.saturating_add(gap);
        }
        k = k + 1;
    }
    let chevrons = total > width;
    let avail = width.saturating_sub(if chevrons { 6 } else { 0 });
    let mut o = match selected {
        Some(i) => if i < offset { i } else { offset },
        None => offset,
    };
    let ghost o1 = o as int;
    loop
        invariant
            n == widths@.len(),
            chevrons == (fit_total(widths@, gap as int, n as int) > width),
            avail as int == sat_sub(width as int, if chevrons { 6 } else { 0 }),
            o1 == (match selected { Some(i) => if (i as int) < offset { i as int } else { offset as int }, None => offset as int }),
            settle_offset(widths@, gap as int, avail as int, selected, o1)
                == settle_offset(widths@, gap as int, avail as int, selected, o as int),
        decreases n - o,
    {
        let fit = fit_count(widths, gap, avail, o);
        let more = match selected {
            Some(i) => i >= o && i - o >= fit && n > 0 && o < n - 1,
            None => false,
        };
        if !more {
            return TabWindow { offset: o, fit, chevrons };
        }
        o = o + 1;
    }
}

proof fn lemma_fit_from_nonneg(widths: Seq<u16>, gap: int, avail: int, j: int, used: int, first: bool)
    ensures
        fit_from(widths, gap, avail, j, used, first) >= 0,
    decreases widths.len() - j,
{
    if 0 <= j < widths.len() {
        let need = if first { widths[j] as int } else { sat_add(widths[j] as int, gap) };
        if sat_add(used, need) <= avail {
            lemma_fit_from_nonneg(widths, gap, avail, j + 1, sat_add(used, need), false);
        }
    }
}

proof fn lemma_fit_from_bounded(widths: Seq<u16>, gap: int, avail: int, j: int, used: int, first: bool)
    requires
        j >= 0,
    ensures
        fit_from(widths, gap, avail, j, used, first) <= (if j < widths.len() { widths.len() - j } else { 0 }),
    decreases widths.len() - j,
{
    if 0 <= j < widths.len() {
        let need = if first { widths[j] as int } else { sat_add(widths[j] as int, gap) };
        if sat_add(used, need) <= avail {
            lemma_fit_from_bounded(widths, gap, avail, j + 1, sat_add(used, need), false);
        }
    }
}

proof fn lemma_fit_positive(widths: Seq<u16>, gap: int, avail: int, offset: int)
    requires
        widths.len() > 0,
    ensures
        window_fit(widths, gap, avail, offset) >= 1,
{
    lemma_fit_from_nonneg(widths, gap, avail, offset, 0, true);
}

proof fn lemma_settle(widths: Seq<u16>, gap: int, avail: int, i: usize, offset: int)
    requires
        0 <= offset <= i < widths.len(),
    ensures
        ({
            let o = settle_offset(widths, gap, avail, Some(i), offset);
            o <= i < o + window_fit(widths, gap, avail, o)
        }),
    decreases widths.len() - offset,
{
    lemma_fit_positive(widths, gap, avail, offset);
    if i >= offset + window_fit(widths, gap, avail, offset) && offset + 1 < widths.len() {
        lemma_settle(widths, gap, avail, i, offset + 1);
    }
}

/// A scrolled strip always shows its selected tab: the window starts at or
/// before it and reaches past it.
pub proof fn law_window_shows_selected(widths: Seq<u16>, gap: int, width: int, i: usize, offset: int)
    requires
        i < widths.len() <= usize::MAX,
        offset >= 0,
    ensures
        ({
            let w = tab_window_spec(widths, gap, width, Some(i), offset);
            w.offset <= i < w.offset + w.fit
        }),
{
    let total = fit_total(widths, gap, widths.len() as int);
    let avail = sat_sub(width, if total > width { 6 } else { 0 });
    let o1 = if (i as int) < offset { i as int } else { offset };
    lemma_settle(widths, gap, avail, i, o1);
    let o = settle_offset(widths, gap, avail, Some(i), o1);
    lemma_fit_from_bounded(widths, gap, avail, o, 0, true);
    lemma_fit_from_nonneg(widths, gap, avail, o, 0, true);
}

} // verus!

verus! {

// ── Tabs and their state ────────────────────────────────────────────────────

/// A styled run of text (carried to the painter unchanged).
#[verifier::external_type_specification]
#[verifier::external_body]
pub struct ExSpan<'a>(ratatui_core::text::Span<'a>);

/// One tab as the strip sees it. Panel content is the host's, keyed by id.
#[derive(Debug, Clone)]
pub struct Tab<'a, Id> {
    /// Stable identity for selection and activation.
    pub id: Id,
    /// Label.
    pub label: &'a str,
    /// Styled glyph before the label.
    pub glyph: Option<ratatui_core::text::Span<'a>>,
    /// Badge after the label.
    pub badge: Option<&'a str>,
    /// Status.
    pub status: TabStatus,
    /// Whether the tab takes focus and activation.
    pub enabled: bool,
    /// Whether the tab offers closing.
    pub closable: bool,
}

impl<'a, Id> Tab<'a, Id> {
    /// An enabled, plain tab.
    pub fn new(id: Id, label: &'a str) -> (t: Self)
        ensures
            t.id == id,
            t.label@ == label@,
            t.glyph is None,
            t.badge is None,
            t.status == TabStatus::Plain,
            t.enabled,
            !t.closable,
    {
        Tab { id, label, glyph: None, badge: None, status: TabStatus::Plain, enabled: true, closable: false }
    }

    /// Sets the glyph.
    pub fn glyph(self, glyph: ratatui_core::text::Span<'a>) -> (t: Self)
        ensures
            t == (Tab { glyph: Some(glyph), ..self }),
    {
        Tab { glyph: Some(glyph), ..self }
    }

    /// Sets the badge.
    pub fn badge(self, badge: &'a str) -> (t: Self)
        ensures
            t == (Tab { badge: Some(badge), ..self }),
    {
        Tab { badge: Some(badge), ..self }
    }

    /// Sets the status.
    pub fn status(self, status: TabStatus) -> (t: Self)
        ensures
            t == (Tab { status, ..self }),
    {
        Tab { status, ..self }
    }

    /// Sets whether the tab is enabled.
    pub fn enabled(self, on: bool) -> (t: Self)
        ensures
            t == (Tab { enabled: on, ..self }),
    {
        Tab { enabled: on, ..self }
    }

    /// Sets whether the tab offers closing.
    pub fn closable(self, on: bool) -> (t: Self)
        ensures
            t == (Tab { closable: on, ..self }),
    {
        Tab { closable: on, ..self }
    }
}

/// What an event meant, as the contracts state it (the overflow list of
/// [`TabsOutcome::OverflowOpened`] is stated apart).
pub enum TabsReply<Id> {
    /// [`TabsOutcome::Ignored`].
    Ignored,
    /// [`TabsOutcome::Changed`].
    Changed,
    /// [`TabsOutcome::FocusChanged`].
    FocusChanged(Option<Id>),
    /// [`TabsOutcome::SelectionChanged`].
    SelectionChanged(Id),
    /// [`TabsOutcome::CloseRequested`].
    CloseRequested(Id),
    /// [`TabsOutcome::OverflowOpened`].
    OverflowOpened,
    /// [`TabsOutcome::OverflowClosed`].
    OverflowClosed,
    /// [`TabsOutcome::ReorderRequested`].
    ReorderRequested(usize, usize),
    /// [`TabsOutcome::PresentationChanged`].
    PresentationChanged(TabsPresentation),
}

/// The reply an outcome carries.
pub open spec fn reply_of<Id>(r: TabsOutcome<Id>) -> TabsReply<Id> {
    match r {
        TabsOutcome::Ignored => TabsReply::Ignored,
        TabsOutcome::Changed => TabsReply::Changed,
        TabsOutcome::FocusChanged { id } => TabsReply::FocusChanged(id),
        TabsOutcome::SelectionChanged { id } => TabsReply::SelectionChanged(id),
        TabsOutcome::CloseRequested { id } => TabsReply::CloseRequested(id),
        TabsOutcome::OverflowOpened { .. } => TabsReply::OverflowOpened,
        TabsOutcome::OverflowClosed => TabsReply::OverflowClosed,
        TabsOutcome::ReorderRequested { from, to } => TabsReply::ReorderRequested(from, to),
        TabsOutcome::PresentationChanged { presentation } => TabsReply::PresentationChanged(presentation),
    }
}

/// A tab strip's state as plain values.
pub struct TabsModel<Id> {
    /// Selected (shown) panel.
    pub selected: Option<Id>,
    /// Tab under the pointer.
    pub hovered: Option<Id>,
    /// Whether the strip owns keyboard focus.
    pub focused: bool,
    /// Painted tab regions.
    pub regions: Seq<HitRegion<Id>>,
    /// Painted close glyphs.
    pub close_regions: Seq<(Id, Rect)>,
    /// Painted overflow trigger.
    pub overflow_trigger: Option<Rect>,
    /// Painted left scroll chevron.
    pub overflow_left: Option<Rect>,
    /// Tabs not shown inline.
    pub overflow_ids: Seq<Id>,
    /// Close glyph under the pointer.
    pub hovered_close: Option<Id>,
    /// Roving focus.
    pub active: Option<Id>,
    /// Activation mode.
    pub activation: TabsActivation,
    /// Orientation.
    pub orientation: TabsOrientation,
    /// Presentation.
    pub presentation: TabsPresentation,
    /// First tab shown when scrolling.
    pub scroll_offset: usize,
    /// Whether the overflow menu is open.
    pub overflow_open: bool,
    /// Whether the strip takes input.
    pub enabled: bool,
    /// Painted area.
    pub root: Rect,
    /// Tab the strip is moving away from.
    pub previous: Option<Id>,
    /// When the active tab last changed, in milliseconds.
    pub changed_at_ms: u64,
}

/// State of a tab strip. Panel state is not kept here.
#[derive(Debug, Clone, PartialEq, Eq)]
pub struct TabsState<Id> {
    /// Selected (shown) panel.
    pub selected: Option<Id>,
    /// Tab under the pointer.
    pub hovered: Option<Id>,
    /// Whether the strip owns keyboard focus.
    pub focused: bool,
    /// Tab regions of the latest paint.
    pub regions: Vec<HitRegion<Id>>,
    /// Close glyphs of the latest paint.
    pub close_regions: Vec<(Id, Rect)>,
    /// Overflow trigger of the latest paint.
    pub overflow_trigger: Option<Rect>,
    /// Left scroll chevron of the latest paint.
    pub overflow_left: Option<Rect>,
    /// Tabs not shown inline.
    pub overflow_ids: Vec<Id>,
    /// Close glyph under the pointer.
    pub hovered_close: Option<Id>,
    active: Option<Id>,
    activation: TabsActivation,
    orientation: TabsOrientation,
    presentation: TabsPresentation,
    scroll_offset: usize,
    overflow_open: bool,
    enabled: bool,
    root: Rect,
    previous: Option<Id>,
    changed_at_ms: u64,
}

impl<Id> View for TabsState<Id> {
    type V = TabsModel<Id>;

    closed spec fn view(&self) -> TabsModel<Id> {
        TabsModel {
            selected: self.selected,
            hovered: self.hovered,
            focused: self.focused,
            regions: self.regions@,
            close_regions: self.close_regions@,
            overflow_trigger: self.overflow_trigger,
            overflow_left: self.overflow_left,
            overflow_ids: self.overflow_ids@,
            hovered_close: self.hovered_close,
            active: self.active,
            activation: self.activation,
            orientation: self.orientation,
            presentation: self.presentation,
            scroll_offset: self.scroll_offset,
            overflow_open: self.overflow_open,
            enabled: self.enabled,
            root: self.root,
            previous: self.previous,
            changed_at_ms: self.changed_at_ms,
        }
    }
}

/// A fresh strip: nothing selected or painted, automatic activation,
/// horizontal, expanded, enabled, unfocused.
pub open spec fn tabs_new_spec<Id>() -> TabsModel<Id> {
    TabsModel {
        selected: None,
        hovered: None,
        focused: false,
        regions: Seq::empty(),
        close_regions: Seq::empty(),
        overflow_trigger: None,
        overflow_left: None,
        overflow_ids: Seq::empty(),
        hovered_close: None,
        active: None,
        activation: TabsActivation::Automatic,
        orientation: TabsOrientation::Horizontal,
        presentation: TabsPresentation::Expanded,
        scroll_offset: 0,
        overflow_open: false,
        enabled: true,
        root: Rect { x: 0, y: 0, width: 0, height: 0 },
        previous: None,
        changed_at_ms: 0,
    }
}

/// Enabled flags of the tabs.
pub open spec fn tab_flags<'a, Id>(tabs: Seq<Tab<'a, Id>>) -> Seq<bool> {
    Seq::new(tabs.len(), |k: int| tabs[k].enabled)
}

/// Position of the first tab with identity `id`, from tab `i` on.
pub open spec fn tab_position<'a, Id>(tabs: Seq<Tab<'a, Id>>, id: Id, i: int) -> Option<int>
    decreases tabs.len() - i,
{
    if i < 0 || i >= tabs.len() {
        None
    } else if tabs[i].id == id {
        Some(i)
    } else {
        tab_position(tabs, id, i + 1)
    }
}

/// Position of the roving focus among the tabs.
pub open spec fn active_position<'a, Id>(m: TabsModel<Id>, tabs: Seq<Tab<'a, Id>>) -> Option<int> {
    match m.active {
        Some(a) => tab_position(tabs, a, 0),
        None => None,
    }
}

/// Axis of the strip's roving focus.
pub open spec fn tabs_axis(o: TabsOrientation) -> RovingOrientation {
    match o {
        TabsOrientation::Horizontal => RovingOrientation::Horizontal,
        TabsOrientation::Vertical => RovingOrientation::Vertical,
    }
}

/// Whether some tab has identity `id` (and is enabled, or closable, when
/// asked).
pub open spec fn has_tab<'a, Id>(tabs: Seq<Tab<'a, Id>>, id: Id, need_enabled: bool, need_closable: bool) -> bool {
    exists|k: int| 0 <= k < tabs.len() && #[trigger] tabs[k].id == id
        && (tabs[k].enabled || !need_enabled) && (tabs[k].closable || !need_closable)
}

/// Activating `id`: only an enabled tab; activating the selected tab is a
/// change of nothing but chrome; otherwise the selection and focus move to
/// it and the old selection is remembered.
pub open spec fn activate_tab_spec<'a, Id>(m: TabsModel<Id>, tabs: Seq<Tab<'a, Id>>, id: Id) -> (TabsModel<Id>, TabsReply<Id>) {
    if !has_tab(tabs, id, true, false) {
        (m, TabsReply::Ignored)
    } else if m.selected == Some(id) {
        (m, TabsReply::Changed)
    } else {
        (TabsModel { previous: m.selected, selected: Some(id), active: Some(id), ..m }, TabsReply::SelectionChanged(id))
    }
}

/// A roving move to tab `target` (when there is one and it differs from the
/// focus): focus moves there, the scroll window is pulled back to it when
/// `reveal_focus`, and automatic activation selects it too.
pub open spec fn focus_move_spec<'a, Id>(
    m: TabsModel<Id>,
    tabs: Seq<Tab<'a, Id>>,
    target: Option<int>,
    reveal_focus: bool,
) -> (TabsModel<Id>, TabsReply<Id>) {
    match target {
        Some(t) => if Some(t) == active_position(m, tabs) {
            (m, TabsReply::Ignored)
        } else {
            let id = tabs[t].id;
            let at = match tab_position(tabs, id, 0) {
                Some(p) => p,
                None => t,
            };
            let m1 = TabsModel {
                active: Some(id),
                scroll_offset: if reveal_focus && at < m.scroll_offset { at as usize } else { m.scroll_offset },
                ..m
            };
            match m.activation {
                TabsActivation::Automatic => (activate_tab_spec(m1, tabs, id).0, TabsReply::FocusChanged(Some(id))),
                TabsActivation::Manual => (m1, TabsReply::FocusChanged(Some(id))),
            }
        },
        None => (m, TabsReply::Ignored),
    }
}

/// Where a roving move of the strip goes.
pub open spec fn tabs_target<'a, Id>(m: TabsModel<Id>, tabs: Seq<Tab<'a, Id>>, mv: NavigationMove) -> Option<int> {
    roving_target(tab_flags(tabs), active_position(m, tabs), mv, true, tabs_axis(m.orientation))
}

/// The move an arrow key makes.
pub open spec fn arrow_move(code: KeyCode) -> Option<NavigationMove> {
    match code {
        KeyCode::Left => Some(NavigationMove::Left),
        KeyCode::Right => Some(NavigationMove::Right),
        KeyCode::Up => Some(NavigationMove::Up),
        KeyCode::Down => Some(NavigationMove::Down),
        _ => None,
    }
}

/// Whether a key asks to close the focused tab: Ctrl+W or Delete.
pub open spec fn close_key(key: KeyEvent) -> bool {
    ||| key.code == KeyCode::Delete
    ||| key.modifiers == KeyModifiers::CONTROL && (key.code == KeyCode::Char('w') || key.code == KeyCode::Char('W'))
}

/// Toggling the overflow menu.
pub open spec fn toggle_overflow_spec<Id>(m: TabsModel<Id>) -> (TabsModel<Id>, TabsReply<Id>) {
    if m.overflow_open {
        (TabsModel { overflow_open: false, ..m }, TabsReply::OverflowClosed)
    } else {
        (TabsModel { overflow_open: true, ..m }, TabsReply::OverflowOpened)
    }
}

/// What a key does to a focused, enabled strip, in order: Ctrl+W or Delete
/// closes a closable enabled focused tab; `o` toggles the overflow menu of an
/// overflowing strip; Esc closes an open overflow menu; Ctrl or Alt with an
/// arrow requests moving the focused tab; Enter activates the focused tab;
/// Home and End jump; arrows of the strip's axis move the focus.
pub open spec fn tabs_key_spec<'a, Id>(m: TabsModel<Id>, tabs: Seq<Tab<'a, Id>>, key: KeyEvent) -> (TabsModel<Id>, TabsReply<Id>) {
    let ctrl = key.modifiers == KeyModifiers::CONTROL;
    let alt = key.modifiers == KeyModifiers::ALT;
    let overflowing = m.presentation == TabsPresentation::Overflow || m.presentation == TabsPresentation::Select;
    if key.kind == KeyEventKind::Release || !m.enabled || !m.focused {
        (m, TabsReply::Ignored)
    } else if close_key(key) && (m.active matches Some(id) && has_tab(tabs, id, true, true)) {
        (m, TabsReply::CloseRequested(m.active.unwrap()))
    } else if (key.code == KeyCode::Char('o') || key.code == KeyCode::Char('O')) && overflowing {
        toggle_overflow_spec(m)
    } else if key.code == KeyCode::Esc && m.overflow_open {
        (TabsModel { overflow_open: false, ..m }, TabsReply::OverflowClosed)
    } else if (ctrl || alt) && arrow_move(key.code) is Some {
        match active_position(m, tabs) {
            Some(from) => {
                let to = if key.code == KeyCode::Left || key.code == KeyCode::Up {
                    if from > 0 { from - 1 } else { 0 }
                } else if from + 1 < tabs.len() - 1 {
                    from + 1
                } else {
                    sat_sub(tabs.len() as int, 1)
                };
                if to != from {
                    (m, TabsReply::ReorderRequested(from as usize, to as usize))
                } else {
                    (m, TabsReply::Ignored)
                }
            },
            None => (m, TabsReply::Ignored),
        }
    } else if key.code == KeyCode::Enter && key.modifiers == KeyModifiers::NONE {
        match m.active {
            Some(id) => activate_tab_spec(m, tabs, id),
            None => (m, TabsReply::Ignored),
        }
    } else if key.code == KeyCode::Home {
        focus_move_spec(m, tabs, tabs_target(m, tabs, NavigationMove::First), false)
    } else if key.code == KeyCode::End {
        focus_move_spec(m, tabs, tabs_target(m, tabs, NavigationMove::Last), false)
    } else {
        match arrow_move(key.code) {
            Some(mv) => focus_move_spec(m, tabs, tabs_target(m, tabs, mv), true),
            None => (m, TabsReply::Ignored),
        }
    }
}

/// What an intent does to a focused, enabled strip: Activate and Submit
/// activate the focused tab; Close closes an open overflow menu, else asks
/// to close a closable focused tab; moves move the focus.
pub open spec fn tabs_intent_spec<'a, Id>(m: TabsModel<Id>, tabs: Seq<Tab<'a, Id>>, intent: UiIntent) -> (TabsModel<Id>, TabsReply<Id>) {
    if !m.enabled || !m.focused {
        (m, TabsReply::Ignored)
    } else {
        match intent {
            UiIntent::Activate | UiIntent::Submit => match m.active {
                Some(id) => activate_tab_spec(m, tabs, id),
                None => (m, TabsReply::Ignored),
            },
            UiIntent::Close => if m.overflow_open {
                (TabsModel { overflow_open: false, ..m }, TabsReply::OverflowClosed)
            } else if m.active matches Some(id) && has_tab(tabs, id, false, true) {
                (m, TabsReply::CloseRequested(m.active.unwrap()))
            } else {
                (m, TabsReply::Ignored)
            },
            UiIntent::Move(mv) => focus_move_spec(m, tabs, tabs_target(m, tabs, mv), false),
            _ => (m, TabsReply::Ignored),
        }
    }
}

/// The first painted tab containing `p`.
pub open spec fn region_hit_from<Id>(rs: Seq<HitRegion<Id>>, p: Position, i: int) -> Option<int>
    decreases rs.len() - i,
{
    if i < 0 || i >= rs.len() {
        None
    } else if rs[i].area.contains_spec(p) {
        Some(i)
    } else {
        region_hit_from(rs, p, i + 1)
    }
}

/// The first painted close glyph containing `p`.
pub open spec fn close_hit_from<Id>(cs: Seq<(Id, Rect)>, p: Position, i: int) -> Option<int>
    decreases cs.len() - i,
{
    if i < 0 || i >= cs.len() {
        None
    } else if cs[i].1.contains_spec(p) {
        Some(i)
    } else {
        close_hit_from(cs, p, i + 1)
    }
}

/// Whether an optional painted area contains `p`.
pub open spec fn opt_contains(r: Option<Rect>, p: Position) -> bool {
    match r {
        Some(a) => a.contains_spec(p),
        None => false,
    }
}

/// What a pointer event does to an enabled strip: motion follows the tab and
/// close glyph under it; a primary press focuses the strip and, in order,
/// asks to close, scrolls back, works the overflow trigger, or focuses and
/// activates the tab under it.
pub open spec fn tabs_mouse_spec<'a, Id>(m: TabsModel<Id>, tabs: Seq<Tab<'a, Id>>, event: MouseEvent) -> (TabsModel<Id>, TabsReply<Id>) {
    let p = event.position;
    if !m.enabled {
        (m, TabsReply::Ignored)
    } else {
        match event.kind {
            MouseEventKind::Moved | MouseEventKind::Drag(MouseButton::Left) => {
                let close = match close_hit_from(m.close_regions, p, 0) {
                    Some(k) => Some(m.close_regions[k].0),
                    None => None,
                };
                let tab = match region_hit_from(m.regions, p, 0) {
                    Some(k) => Some(m.regions[k].id),
                    None => None,
                };
                let changed = close != m.hovered_close || tab != m.hovered;
                (TabsModel { hovered_close: close, hovered: tab, ..m }, if changed { TabsReply::Changed } else { TabsReply::Ignored })
            },
            MouseEventKind::Down(MouseButton::Left) => {
                let m1 = TabsModel { focused: true, ..m };
                if close_hit_from(m.close_regions, p, 0) is Some {
                    (m1, TabsReply::CloseRequested(m.close_regions[close_hit_from(m.close_regions, p, 0).unwrap()].0))
                } else if opt_contains(m.overflow_left, p) {
                    (TabsModel { scroll_offset: sat_sub(m.scroll_offset as int, 1) as usize, ..m1 }, TabsReply::Changed)
                } else if opt_contains(m.overflow_trigger, p) {
                    match m.presentation {
                        TabsPresentation::Scrolling => (
                            TabsModel { scroll_offset: (if m.scroll_offset == usize::MAX { usize::MAX as int } else { m.scroll_offset + 1 }) as usize, ..m1 },
                            TabsReply::Changed,
                        ),
                        TabsPresentation::Overflow | TabsPresentation::Select => toggle_overflow_spec(m1),
                        TabsPresentation::Expanded => (m1, TabsReply::Ignored),
                    }
                } else {
                    match region_hit_from(m.regions, p, 0) {
                        Some(k) => {
                            let id = m.regions[k].id;
                            activate_tab_spec(TabsModel { active: Some(id), ..m1 }, tabs, id)
                        },
                        None => (m1, TabsReply::Ignored),
                    }
                }
            },
            _ => (m, TabsReply::Ignored),
        }
    }
}


/// Enabled flags of the tabs.
fn tab_flags_exec<Id>(tabs: &[Tab<'_, Id>]) -> (v: Vec<bool>)
    ensures
        v@ == tab_flags(tabs@),
{
    let mut v: Vec<bool> = Vec::new();
    let mut i: usize = 0;
    while i < tabs.len()
        invariant
            i <= tabs.len(),
            v@.len() == i,
            forall|k: int| 0 <= k < i ==> v@[k] == tabs@[k].enabled,
        decreases tabs.len() - i,
    {
        v.push(tabs[i].enabled);
        i = i + 1;
    }
    assert(v@ =~= tab_flags(tabs@));
    v
}

/// Position of the first tab with identity `id`.
fn tab_pos<Id: PartialEq>(tabs: &[Tab<'_, Id>], id: &Id) -> (r: Option<usize>)
    requires
        obeys_concrete_eq::<Id>(),
    ensures
        match r { Some(k) => tab_position(tabs@, *id, 0) == Some(k as int) && k < tabs@.len(), None => tab_position(tabs@, *id, 0) is None },
{
    let mut i: usize = 0;
    while i < tabs.len()
        invariant
            i <= tabs.len(),
            obeys_concrete_eq::<Id>(),
            tab_position(tabs@, *id, 0) == tab_position(tabs@, *id, i as int),
        decreases tabs.len() - i,
    {
        if same(&tabs[i].id, id) {
            return Some(i);
        }
        i = i + 1;
    }
    None
}

/// Whether some tab has identity `id` (enabled, closable, when asked).
fn has_tab_exec<Id: PartialEq>(tabs: &[Tab<'_, Id>], id: &Id, need_enabled: bool, need_closable: bool) -> (b: bool)
    requires
        obeys_concrete_eq::<Id>(),
    ensures
        b == has_tab(tabs@, *id, need_enabled, need_closable),
{
    let mut i: usize = 0;
    while i < tabs.len()
        invariant
            i <= tabs.len(),
            obeys_concrete_eq::<Id>(),
            forall|k: int| 0 <= k < i ==> !(#[trigger] tabs@[k].id == *id
                && (tabs@[k].enabled || !need_enabled) && (tabs@[k].closable || !need_closable)),
        decreases tabs.len() - i,
    {
        if same(&tabs[i].id, id) && (tabs[i].enabled || !need_enabled) && (tabs[i].closable || !need_closable) {
            return true;
        }
        i = i + 1;
    }
    false
}

/// The first painted tab containing `p`.
fn region_hit<Id>(rs: &Vec<HitRegion<Id>>, p: Position) -> (r: Option<usize>)
    ensures
        match r { Some(k) => region_hit_from(rs@, p, 0) == Some(k as int) && k < rs@.len(), None => region_hit_from(rs@, p, 0) is None },
{
    let mut i: usize = 0;
    while i < rs.len()
        invariant
            i <= rs.len(),
            region_hit_from(rs@, p, 0) == region_hit_from(rs@, p, i as int),
        decreases rs.len() - i,
    {
        if rs[i].area.contains(p) {
            return Some(i);
        }
        i = i + 1;
    }
    None
}

/// The first painted close glyph containing `p`.
fn close_hit<Id>(cs: &Vec<(Id, Rect)>, p: Position) -> (r: Option<usize>)
    ensures
        match r { Some(k) => close_hit_from(cs@, p, 0) == Some(k as int) && k < cs@.len(), None => close_hit_from(cs@, p, 0) is None },
{
    let mut i: usize = 0;
    while i < cs.len()
        invariant
            i <= cs.len(),
            close_hit_from(cs@, p, 0) == close_hit_from(cs@, p, i as int),
        decreases cs.len() - i,
    {
        if cs[i].1.contains(p) {
            return Some(i);
        }
        i = i + 1;
    }
    None
}

/// A copy of a list of identities.
fn copy_ids<Id: Copy>(v: &Vec<Id>) -> (r: Vec<Id>)
    ensures
        r@ == v@,
{
    let mut r: Vec<Id> = Vec::new();
    let mut i: usize = 0;
    while i < v.len()
        invariant
            i <= v.len(),
            r@ == v@.take(i as int),
        decreases v.len() - i,
    {
        r.push(v[i]);
        i = i + 1;
        assert(r@ =~= v@.take(i as int));
    }
    assert(v@.take(v.len() as int) =~= v@);
    r
}

/// Whether an optional painted area contains `p`.
fn area_contains(r: Option<Rect>, p: Position) -> (b: bool)
    ensures
        b == opt_contains(r, p),
{
    match r {
        Some(a) => a.contains(p),
        None => false,
    }
}

/// An optional borrowed identity, read.
pub open spec fn read_id<Id>(o: Option<&Id>) -> Option<Id> {
    match o {
        Some(x) => Some(*x),
        None => None,
    }
}

/// The presentation a strip takes in `bounds`: a vertical strip collapses
/// to a select under four rows; a horizontal one collapses to a select under
/// the select width and to an overflow menu under the overflow width.
pub open spec fn presentation_for_bounds_spec(bounds: Rect, orientation: TabsOrientation) -> TabsPresentation {
    match orientation {
        TabsOrientation::Vertical => if bounds.height < 4 { TabsPresentation::Select } else { TabsPresentation::Expanded },
        TabsOrientation::Horizontal => if bounds.width < TABS_SELECT_MAX_WIDTH {
            TabsPresentation::Select
        } else if bounds.width < TABS_OVERFLOW_MAX_WIDTH {
            TabsPresentation::Overflow
        } else {
            TabsPresentation::Expanded
        },
    }
}

/// The presentation a paint settles on: a strip whose tabs fit (or that has
/// at most one tab) is expanded; otherwise a vertical strip collapses to a
/// select under four rows and to an overflow menu above, and a horizontal
/// one to a select, an overflow menu or a scrolling window by width.
pub open spec fn paint_presentation(orientation: TabsOrientation, area: Rect, count: int, total_width: int) -> TabsPresentation {
    match orientation {
        TabsOrientation::Vertical => if count <= 1 || area.height >= count {
            TabsPresentation::Expanded
        } else if area.height < 4 {
            TabsPresentation::Select
        } else {
            TabsPresentation::Overflow
        },
        TabsOrientation::Horizontal => if count <= 1 || total_width <= area.width {
            TabsPresentation::Expanded
        } else if area.width < TABS_SELECT_MAX_WIDTH {
            TabsPresentation::Select
        } else if area.width < TABS_OVERFLOW_MAX_WIDTH {
            TabsPresentation::Overflow
        } else {
            TabsPresentation::Scrolling
        },
    }
}

/// Preparing a paint of `tabs` into `area`: painted regions are cleared
/// for the painter to refill; with something to paint, a focus whose tab is
/// gone is dropped, the first enabled tab is selected when nothing is, the
/// focus starts on the selection, and the presentation follows the area.
pub open spec fn prepare_spec<'a, Id>(m: TabsModel<Id>, tabs: Seq<Tab<'a, Id>>, area: Rect, total_width: int) -> TabsModel<Id> {
    let m0 = TabsModel {
        regions: Seq::empty(),
        close_regions: Seq::empty(),
        overflow_trigger: None,
        overflow_left: None,
        overflow_ids: Seq::empty(),
        root: area,
        ..m
    };
    if area.width == 0 || area.height == 0 || tabs.len() == 0 {
        m0
    } else {
        let active = match m.active {
            Some(a) => if tab_position(tabs, a, 0) is Some { Some(a) } else { None },
            None => None,
        };
        let selected = match m.selected {
            Some(s) => Some(s),
            None => match next_enabled_tab(tabs, 0) {
                Some(k) => Some(tabs[k].id),
                None => None,
            },
        };
        TabsModel {
            active: if active is None { selected } else { active },
            selected,
            presentation: paint_presentation(m.orientation, area, tabs.len() as int, total_width),
            ..m0
        }
    }
}

/// The first enabled tab from tab `i` on.
pub open spec fn next_enabled_tab<'a, Id>(tabs: Seq<Tab<'a, Id>>, i: int) -> Option<int>
    decreases tabs.len() - i,
{
    if i < 0 || i >= tabs.len() {
        None
    } else if tabs[i].enabled {
        Some(i)
    } else {
        next_enabled_tab(tabs, i + 1)
    }
}

impl<Id> Default for TabsState<Id> {
    fn default() -> (s: Self)
        ensures
            s@ == tabs_new_spec::<Id>(),
    {
        TabsState {
            selected: None,
            hovered: None,
            focused: false,
            regions: Vec::new(),
            close_regions: Vec::new(),
            overflow_trigger: None,
            overflow_left: None,
            overflow_ids: Vec::new(),
            hovered_close: None,
            active: None,
            activation: TabsActivation::Automatic,
            orientation: TabsOrientation::Horizontal,
            presentation: TabsPresentation::Expanded,
            scroll_offset: 0,
            overflow_open: false,
            enabled: true,
            root: Rect { x: 0, y: 0, width: 0, height: 0 },
            previous: None,
            changed_at_ms: 0,
        }
    }
}

impl<Id: Copy + PartialEq> TabsState<Id> {
    /// A fresh strip.
    pub fn new() -> (s: Self)
        ensures
            s@ == tabs_new_spec::<Id>(),
    {
        Self::default()
    }

    /// Sets the activation mode.
    pub fn with_activation(self, activation: TabsActivation) -> (s: Self)
        ensures
            s@ == (TabsModel { activation, ..self@ }),
    {
        let mut s = self;
        s.activation = activation;
        s
    }

    /// Sets the orientation (and the axis of the roving focus with it).
    pub fn with_orientation(self, orientation: TabsOrientation) -> (s: Self)
        ensures
            s@ == (TabsModel { orientation, ..self@ }),
    {
        let mut s = self;
        s.orientation = orientation;
        s
    }

    /// Selects and focuses `id`.
    pub fn with_selected(self, id: Id) -> (s: Self)
        ensures
            s@ == (TabsModel { selected: Some(id), active: Some(id), ..self@ }),
    {
        let mut s = self;
        s.selected = Some(id);
        s.active = Some(id);
        s
    }

    /// The selected tab.
    pub fn selected(&self) -> (r: Option<&Id>)
        ensures
            read_id(r) == self@.selected,
    {
        match &self.selected {
            Some(id) => Some(id),
            None => None,
        }
    }

    /// The focused tab.
    pub fn focused_tab(&self) -> (r: Option<&Id>)
        ensures
            read_id(r) == self@.active,
    {
        match &self.active {
            Some(id) => Some(id),
            None => None,
        }
    }

    /// The activation mode.
    pub fn activation(&self) -> (a: TabsActivation)
        ensures
            a == self@.activation,
    {
        self.activation
    }

    /// The orientation.
    pub fn orientation(&self) -> (o: TabsOrientation)
        ensures
            o == self@.orientation,
    {
        self.orientation
    }

    /// The presentation of the latest paint.
    pub fn presentation(&self) -> (p: TabsPresentation)
        ensures
            p == self@.presentation,
    {
        self.presentation
    }

    /// Whether the overflow menu is open.
    pub fn is_overflow_open(&self) -> (b: bool)
        ensures
            b == self@.overflow_open,
    {
        self.overflow_open
    }

    /// Gives or takes keyboard focus.
    pub fn set_focused(&mut self, on: bool)
        ensures
            final(self)@ == (TabsModel { focused: on, ..old(self)@ }),
    {
        self.focused = on;
    }

    /// Enables or disables input.
    pub fn set_enabled(&mut self, on: bool)
        ensures
            final(self)@ == (TabsModel { enabled: on, ..old(self)@ }),
    {
        self.enabled = on;
    }

    /// Sets the selected panel; a change remembers the old selection, and a
    /// selection moves the focus to it.
    pub fn set_selected(&mut self, id: Option<Id>)
        requires
            obeys_concrete_eq::<Id>(),
        ensures
            final(self)@ == (TabsModel {
                previous: if old(self)@.selected != id { old(self)@.selected } else { old(self)@.previous },
                selected: id,
                active: if id is Some { id } else { old(self)@.active },
                ..old(self)@
            }),
    {
        let differ = match (&self.selected, &id) {
            (Some(a), Some(b)) => !same(a, b),
            (None, None) => false,
            _ => true,
        };
        if differ {
            self.previous = self.selected;
        }
        self.selected = id;
        if id.is_some() {
            self.active = id;
        }
    }

    /// Records when the selected tab changed.
    pub fn mark_changed_at(&mut self, elapsed_ms: u64)
        ensures
            final(self)@ == (TabsModel { changed_at_ms: elapsed_ms, ..old(self)@ }),
    {
        self.changed_at_ms = elapsed_ms;
    }

    /// Milliseconds the selection blend has run at `elapsed_ms`, or `None`
    /// once it has settled (no earlier selection, no duration, or the whole
    /// duration passed); the blend fraction is this over `duration_ms`.
    pub fn blend_progress(&self, elapsed_ms: u64, duration_ms: u64) -> (r: Option<u64>)
        ensures
            ({
                let since = sat_sub(elapsed_ms as int, self@.changed_at_ms as int);
                if self@.previous is None || duration_ms == 0 || since >= duration_ms {
                    r is None
                } else {
                    r == Some(since as u64)
                }
            }),
    {
        if self.previous.is_none() || duration_ms == 0 {
            return None;
        }
        let since = elapsed_ms.saturating_sub(self.changed_at_ms);
        if since >= duration_ms {
            return None;
        }
        Some(since)
    }

    /// The presentation a strip takes in `bounds`.
    pub fn presentation_for_bounds(bounds: Rect, orientation: TabsOrientation) -> (p: TabsPresentation)
        ensures
            p == presentation_for_bounds_spec(bounds, orientation),
    {
        match orientation {
            TabsOrientation::Vertical => if bounds.height < 4 { TabsPresentation::Select } else { TabsPresentation::Expanded },
            TabsOrientation::Horizontal => if bounds.width < TABS_SELECT_MAX_WIDTH {
                TabsPresentation::Select
            } else if bounds.width < TABS_OVERFLOW_MAX_WIDTH {
                TabsPresentation::Overflow
            } else {
                TabsPresentation::Expanded
            },
        }
    }

    /// Activates `id`.
    fn activate(&mut self, id: Id, tabs: &[Tab<'_, Id>]) -> (r: TabsOutcome<Id>)
        requires
            obeys_concrete_eq::<Id>(),
        ensures
            (final(self)@, reply_of(r)) == activate_tab_spec(old(self)@, tabs@, id),
    {
        if !has_tab_exec(tabs, &id, true, false) {
            return TabsOutcome::Ignored;
        }
        if let Some(s) = &self.selected {
            if same(s, &id) {
                return TabsOutcome::Changed;
            }
        }
        self.previous = self.selected;
        self.selected = Some(id);
        self.active = Some(id);
        TabsOutcome::SelectionChanged { id }
    }

    /// Position of the focus among the tabs.
    fn active_index(&self, tabs: &[Tab<'_, Id>]) -> (r: Option<usize>)
        requires
            obeys_concrete_eq::<Id>(),
        ensures
            match r { Some(k) => active_position(self@, tabs@) == Some(k as int) && k < tabs@.len(), None => active_position(self@, tabs@) is None },
    {
        match &self.active {
            Some(a) => tab_pos(tabs, a),
            None => None,
        }
    }

    /// A roving move to `target`.
    fn focus_move(&mut self, tabs: &[Tab<'_, Id>], target: Option<usize>, reveal_focus: bool) -> (r: TabsOutcome<Id>)
        requires
            obeys_concrete_eq::<Id>(),
            target matches Some(t) ==> t < tabs@.len(),
        ensures
            (final(self)@, reply_of(r)) == focus_move_spec(old(self)@, tabs@,
                match target { Some(t) => Some(t as int), None => None }, reveal_focus),
    {
        let t = match target {
            Some(t) => t,
            None => return TabsOutcome::Ignored,
        };
        let at = self.active_index(tabs);
        if at == Some(t) {
            return TabsOutcome::Ignored;
        }
        let id = tabs[t].id;
        self.active = Some(id);
        if reveal_focus {
            let p = match tab_pos(tabs, &id) {
                Some(p) => p,
                None => t,
            };
            if p < self.scroll_offset {
                self.scroll_offset = p;
            }
        }
        match self.activation {
            TabsActivation::Automatic => {
                let _ = self.activate(id, tabs);
            },
            TabsActivation::Manual => {},
        }
        TabsOutcome::FocusChanged { id: Some(id) }
    }

    /// Where a roving move of the strip goes.
    fn target(&self, tabs: &[Tab<'_, Id>], mv: NavigationMove) -> (r: Option<usize>)
        requires
            obeys_concrete_eq::<Id>(),
        ensures
            match r { Some(k) => tabs_target(self@, tabs@, mv) == Some(k as int) && k < tabs@.len(), None => tabs_target(self@, tabs@, mv) is None },
    {
        let flags = tab_flags_exec(tabs);
        let at = self.active_index(tabs);
        let axis = match self.orientation {
            TabsOrientation::Horizontal => RovingOrientation::Horizontal,
            TabsOrientation::Vertical => RovingOrientation::Vertical,
        };
        let r = roving_move(&flags, at, mv, true, axis);
        proof {
            lemma_roving_lands_on_enabled(tab_flags(tabs@), match at { Some(i) => Some(i as int), None => None }, mv, true, axis);
        }
        r
    }

    /// Opens or closes the overflow menu.
    fn toggle_overflow(&mut self) -> (r: TabsOutcome<Id>)
        ensures
            (final(self)@, reply_of(r)) == toggle_overflow_spec(old(self)@),
            r matches TabsOutcome::OverflowOpened { overflow_ids } ==> overflow_ids@ == old(self)@.overflow_ids,
    {
        if self.overflow_open {
            self.overflow_open = false;
            TabsOutcome::OverflowClosed
        } else {
            self.overflow_open = true;
            TabsOutcome::OverflowOpened { overflow_ids: copy_ids(&self.overflow_ids) }
        }
    }
}

/// The first enabled tab.
fn first_enabled_tab<Id>(tabs: &[Tab<'_, Id>]) -> (r: Option<usize>)
    ensures
        match r { Some(k) => next_enabled_tab(tabs@, 0) == Some(k as int) && k < tabs@.len(), None => next_enabled_tab(tabs@, 0) is None },
{
    let mut i: usize = 0;
    while i < tabs.len()
        invariant
            i <= tabs.len(),
            next_enabled_tab(tabs@, 0) == next_enabled_tab(tabs@, i as int),
        decreases tabs.len() - i,
    {
        if tabs[i].enabled {
            return Some(i);
        }
        i = i + 1;
    }
    None
}

/// Picking `id` from the overflow menu: only a listed tab; it is selected
/// and focused and the menu closes.
pub open spec fn select_overflow_spec<Id>(m: TabsModel<Id>, id: Id) -> (TabsModel<Id>, TabsReply<Id>) {
    if !m.overflow_ids.contains(id) {
        (m, TabsReply::Ignored)
    } else {
        (TabsModel { overflow_open: false, previous: m.selected, selected: Some(id), active: Some(id), ..m }, TabsReply::SelectionChanged(id))
    }
}

impl<Id: Copy + PartialEq> TabsState<Id> {
    /// Handles a key (see [`tabs_key_spec`]).
    pub fn handle_key(&mut self, key: KeyEvent, tabs: &[Tab<'_, Id>]) -> (r: TabsOutcome<Id>)
        requires
            obeys_concrete_eq::<Id>(),
        ensures
            (final(self)@, reply_of(r)) == tabs_key_spec(old(self)@, tabs@, key),
            r matches TabsOutcome::OverflowOpened { overflow_ids } ==> overflow_ids@ == old(self)@.overflow_ids,
    {
        if key.is_release() || !self.enabled || !self.focused {
            return TabsOutcome::Ignored;
        }
        let ctrl = match key.modifiers {
            KeyModifiers::CONTROL => true,
            _ => false,
        };
        let alt = match key.modifiers {
            KeyModifiers::ALT => true,
            _ => false,
        };
        let no_modifier = match key.modifiers {
            KeyModifiers::NONE => true,
            _ => false,
        };
        let is_close = match key.code {
            KeyCode::Delete => true,
            KeyCode::Char(c) => ctrl && (c == 'w' || c == 'W'),
            _ => false,
        };
        if is_close {
            if let Some(id) = self.active {
                if has_tab_exec(tabs, &id, true, true) {
                    return TabsOutcome::CloseRequested { id };
                }
            }
        }
        let is_o = match key.code {
            KeyCode::Char(c) => c == 'o' || c == 'O',
            _ => false,
        };
        let overflowing = match self.presentation {
            TabsPresentation::Overflow | TabsPresentation::Select => true,
            _ => false,
        };
        if is_o && overflowing {
            return self.toggle_overflow();
        }
        let is_esc = match key.code {
            KeyCode::Esc => true,
            _ => false,
        };
        if is_esc && self.overflow_open {
            self.overflow_open = false;
            return TabsOutcome::OverflowClosed;
        }
        let arrow = match key.code {
            KeyCode::Left => Some(NavigationMove::Left),
            KeyCode::Right => Some(NavigationMove::Right),
            KeyCode::Up => Some(NavigationMove::Up),
            KeyCode::Down => Some(NavigationMove::Down),
            _ => None,
        };
        if (ctrl || alt) && arrow.is_some() {
            if let Some(from) = self.active_index(tabs) {
                let back = match key.code {
                    KeyCode::Left | KeyCode::Up => true,
                    _ => false,
                };
                let last = tabs.len() - 1;
                let to = if back {
                    if from > 0 { from - 1 } else { 0 }
                } else if from + 1 < last {
                    from + 1
                } else {
                    last
                };
                if to != from {
                    return TabsOutcome::ReorderRequested { from, to };
                }
            }
            return TabsOutcome::Ignored;
        }
        let is_enter = match key.code {
            KeyCode::Enter => true,
            _ => false,
        };
        if is_enter && no_modifier {
            return match self.active {
                Some(id) => self.activate(id, tabs),
                None => TabsOutcome::Ignored,
            };
        }
        match key.code {
            KeyCode::Home => {
                let t = self.target(tabs, NavigationMove::First);
                return self.focus_move(tabs, t, false);
            },
            KeyCode::End => {
                let t = self.target(tabs, NavigationMove::Last);
                return self.focus_move(tabs, t, false);
            },
            _ => {},
        }
        match arrow {
            Some(mv) => {
                let t = self.target(tabs, mv);
                self.focus_move(tabs, t, true)
            },
            None => TabsOutcome::Ignored,
        }
    }

    /// Applies an intent (see [`tabs_intent_spec`]).
    pub fn handle_intent(&mut self, intent: UiIntent, tabs: &[Tab<'_, Id>]) -> (r: TabsOutcome<Id>)
        requires
            obeys_concrete_eq::<Id>(),
        ensures
            (final(self)@, reply_of(r)) == tabs_intent_spec(old(self)@, tabs@, intent),
    {
        if !self.enabled || !self.focused {
            return TabsOutcome::Ignored;
        }
        match intent {
            UiIntent::Activate | UiIntent::Submit => match self.active {
                Some(id) => self.activate(id, tabs),
                None => TabsOutcome::Ignored,
            },
            UiIntent::Close => {
                if self.overflow_open {
                    self.overflow_open = false;
                    return TabsOutcome::OverflowClosed;
                }
                if let Some(id) = self.active {
                    if has_tab_exec(tabs, &id, false, true) {
                        return TabsOutcome::CloseRequested { id };
                    }
                }
                TabsOutcome::Ignored
            },
            UiIntent::Move(mv) => {
                let t = self.target(tabs, mv);
                self.focus_move(tabs, t, false)
            },
            _ => TabsOutcome::Ignored,
        }
    }

    /// Handles a pointer event (see [`tabs_mouse_spec`]).
    pub fn handle_mouse(&mut self, event: MouseEvent, tabs: &[Tab<'_, Id>]) -> (r: TabsOutcome<Id>)
        requires
            obeys_concrete_eq::<Id>(),
        ensures
            (final(self)@, reply_of(r)) == tabs_mouse_spec(old(self)@, tabs@, event),
            r matches TabsOutcome::OverflowOpened { overflow_ids } ==> overflow_ids@ == old(self)@.overflow_ids,
    {
        if !self.enabled {
            return TabsOutcome::Ignored;
        }
        let p = event.position;
        match event.kind {
            MouseEventKind::Moved | MouseEventKind::Drag(MouseButton::Left) => {
                let close = match close_hit(&self.close_regions, p) {
                    Some(k) => Some(self.close_regions[k].0),
                    None => None,
                };
                let tab = match region_hit(&self.regions, p) {
                    Some(k) => Some(self.regions[k].id),
                    None => None,
                };
                let close_same = match (&close, &self.hovered_close) {
                    (Some(a), Some(b)) => same(a, b),
                    (None, None) => true,
                    _ => false,
                };
                let tab_same = match (&tab, &self.hovered) {
                    (Some(a), Some(b)) => same(a, b),
                    (None, None) => true,
                    _ => false,
                };
                self.hovered_close = close;
                self.hovered = tab;
                if !close_same || !tab_same {
                    TabsOutcome::Changed
                } else {
                    TabsOutcome::Ignored
                }
            },
            MouseEventKind::Down(MouseButton::Left) => {
                self.focused = true;
                if let Some(k) = close_hit(&self.close_regions, p) {
                    return TabsOutcome::CloseRequested { id: self.close_regions[k].0 };
                }
                if area_contains(self.overflow_left, p) {
                    self.scroll_offset = self.scroll_offset.saturating_sub(1);
                    return TabsOutcome::Changed;
                }
                if area_contains(self.overflow_trigger, p) {
                    return match self.presentation {
                        TabsPresentation::Scrolling => {
                            self.scroll_offset = self.scroll_offset.saturating_add(1);
                            TabsOutcome::Changed
                        },
                        TabsPresentation::Overflow | TabsPresentation::Select => self.toggle_overflow(),
                        TabsPresentation::Expanded => TabsOutcome::Ignored,
                    };
                }
                match region_hit(&self.regions, p) {
                    Some(k) => {
                        let id = self.regions[k].id;
                        self.active = Some(id);
                        self.activate(id, tabs)
                    },
                    None => TabsOutcome::Ignored,
                }
            },
            _ => TabsOutcome::Ignored,
        }
    }

    /// Selects `id` from the overflow menu (see [`select_overflow_spec`]).
    pub fn select_overflow_id(&mut self, id: Id) -> (r: TabsOutcome<Id>)
        requires
            obeys_concrete_eq::<Id>(),
        ensures
            (final(self)@, reply_of(r)) == select_overflow_spec(old(self)@, id),
    {
        let mut listed = false;
        let mut i: usize = 0;
        while i < self.overflow_ids.len()
            invariant
                i <= self.overflow_ids.len(),
                obeys_concrete_eq::<Id>(),
                listed == (exists|k: int| 0 <= k < i && self.overflow_ids@[k] == id),
            decreases self.overflow_ids.len() - i,
        {
            if same(&self.overflow_ids[i], &id) {
                listed = true;
            }
            i = i + 1;
        }
        if !listed {
            return TabsOutcome::Ignored;
        }
        self.overflow_open = false;
        self.previous = self.selected;
        self.selected = Some(id);
        self.active = Some(id);
        TabsOutcome::SelectionChanged { id }
    }

    /// Prepares a paint of `tabs` into `area`, the tabs and gaps measuring
    /// `total_width` columns in a row (see [`prepare_spec`]).
    pub fn prepare(&mut self, area: Rect, tabs: &[Tab<'_, Id>], total_width: u16)
        requires
            obeys_concrete_eq::<Id>(),
        ensures
            final(self)@ == prepare_spec(old(self)@, tabs@, area, total_width as int),
    {
        self.regions = Vec::new();
        self.close_regions = Vec::new();
        self.overflow_trigger = None;
        self.overflow_left = None;
        self.overflow_ids = Vec::new();
        self.root = area;
        if area.width == 0 || area.height == 0 || tabs.len() == 0 {
            return;
        }
        if let Some(a) = self.active {
            if tab_pos(tabs, &a).is_none() {
                self.active = None;
            }
        }
        if self.selected.is_none() {
            if let Some(k) = first_enabled_tab(tabs) {
                self.selected = Some(tabs[k].id);
            }
        }
        if self.active.is_none() {
            self.active = self.selected;
        }
        let n = tabs.len();
        self.presentation = match self.orientation {
            TabsOrientation::Vertical => if n <= 1 || (area.height as usize) >= n {
                TabsPresentation::Expanded
            } else if area.height < 4 {
                TabsPresentation::Select
            } else {
                TabsPresentation::Overflow
            },
            TabsOrientation::Horizontal => if n <= 1 || total_width <= area.width {
                TabsPresentation::Expanded
            } else if area.width < TABS_SELECT_MAX_WIDTH {
                TabsPresentation::Select
            } else if area.width < TABS_OVERFLOW_MAX_WIDTH {
                TabsPresentation::Overflow
            } else {
                TabsPresentation::Scrolling
            },
        };
    }
}

/// `f` moved the selection and the focus, if at all, onto enabled tabs.
pub open spec fn moves_to_enabled<'a, Id>(m: TabsModel<Id>, tabs: Seq<Tab<'a, Id>>, f: TabsModel<Id>, focus_too: bool) -> bool {
    &&& f.selected != m.selected ==> (f.selected matches Some(id) && has_tab(tabs, id, true, false))
    &&& (focus_too && f.active != m.active) ==> (f.active matches Some(id) && has_tab(tabs, id, true, false))
}

proof fn lemma_focus_move_to_enabled<'a, Id>(m: TabsModel<Id>, tabs: Seq<Tab<'a, Id>>, mv: NavigationMove, reveal_focus: bool)
    ensures
        moves_to_enabled(m, tabs, focus_move_spec(m, tabs, tabs_target(m, tabs, mv), reveal_focus).0, true),
{
    let at = active_position(m, tabs);
    lemma_tab_position(tabs, m.active, 0);
    lemma_roving_lands_on_enabled(tab_flags(tabs), at, mv, true, tabs_axis(m.orientation));
    if let Some(t) = tabs_target(m, tabs, mv) {
        assert(tabs[t].enabled);
        assert(has_tab(tabs, tabs[t].id, true, false));
    }
}

proof fn lemma_tab_position<'a, Id>(tabs: Seq<Tab<'a, Id>>, active: Option<Id>, i: int)
    requires
        0 <= i,
    ensures
        active matches Some(a) ==> (tab_position(tabs, a, i) matches Some(k) ==> i <= k < tabs.len()),
    decreases tabs.len() - i,
{
    if let Some(a) = active {
        if i < tabs.len() && tabs[i].id != a {
            lemma_tab_position(tabs, active, i + 1);
        }
    }
}

/// Keys and intents move the selection and the roving focus only onto
/// enabled tabs: a disabled tab is neither focused nor activated by the
/// keyboard.
pub proof fn law_keys_reach_only_enabled_tabs<'a, Id>(
    m: TabsModel<Id>,
    tabs: Seq<Tab<'a, Id>>,
    key: KeyEvent,
    intent: UiIntent,
)
    ensures
        moves_to_enabled(m, tabs, tabs_key_spec(m, tabs, key).0, true),
        moves_to_enabled(m, tabs, tabs_intent_spec(m, tabs, intent).0, true),
{
    lemma_focus_move_to_enabled(m, tabs, NavigationMove::First, false);
    lemma_focus_move_to_enabled(m, tabs, NavigationMove::Last, false);
    lemma_focus_move_to_enabled(m, tabs, NavigationMove::Left, true);
    lemma_focus_move_to_enabled(m, tabs, NavigationMove::Right, true);
    lemma_focus_move_to_enabled(m, tabs, NavigationMove::Up, true);
    lemma_focus_move_to_enabled(m, tabs, NavigationMove::Down, true);
    if let UiIntent::Move(mv) = intent {
        lemma_focus_move_to_enabled(m, tabs, mv, false);
    }
}

/// A focus move answers according to the activation mode: automatic
/// activation selects the newly focused tab, manual activation leaves the
/// selection alone.
pub open spec fn focus_follows_mode<Id>(m: TabsModel<Id>, f: TabsModel<Id>, r: TabsReply<Id>) -> bool {
    r matches TabsReply::FocusChanged(to) ==> {
        &&& f.active == to
        &&& m.activation == TabsActivation::Automatic ==> f.selected == to
        &&& m.activation == TabsActivation::Manual ==> f.selected == m.selected
    }
}

proof fn lemma_focus_move_follows_mode<'a, Id>(m: TabsModel<Id>, tabs: Seq<Tab<'a, Id>>, mv: NavigationMove, reveal_focus: bool)
    ensures
        focus_follows_mode(m, focus_move_spec(m, tabs, tabs_target(m, tabs, mv), reveal_focus).0,
            focus_move_spec(m, tabs, tabs_target(m, tabs, mv), reveal_focus).1),
{
    lemma_tab_position(tabs, m.active, 0);
    lemma_roving_lands_on_enabled(tab_flags(tabs), active_position(m, tabs), mv, true, tabs_axis(m.orientation));
    if let Some(t) = tabs_target(m, tabs, mv) {
        assert(has_tab(tabs, tabs[t].id, true, false));
    }
}

/// With automatic activation, every key or intent that moves the focus also
/// selects the focused tab; with manual activation, focus moves never change
/// the selection (Enter does).
pub proof fn law_activation_mode_decides_selection<'a, Id>(
    m: TabsModel<Id>,
    tabs: Seq<Tab<'a, Id>>,
    key: KeyEvent,
    intent: UiIntent,
)
    ensures
        focus_follows_mode(m, tabs_key_spec(m, tabs, key).0, tabs_key_spec(m, tabs, key).1),
        focus_follows_mode(m, tabs_intent_spec(m, tabs, intent).0, tabs_intent_spec(m, tabs, intent).1),
{
    lemma_focus_move_follows_mode(m, tabs, NavigationMove::First, false);
    lemma_focus_move_follows_mode(m, tabs, NavigationMove::Last, false);
    lemma_focus_move_follows_mode(m, tabs, NavigationMove::Left, true);
    lemma_focus_move_follows_mode(m, tabs, NavigationMove::Right, true);
    lemma_focus_move_follows_mode(m, tabs, NavigationMove::Up, true);
    lemma_focus_move_follows_mode(m, tabs, NavigationMove::Down, true);
    if let UiIntent::Move(mv) = intent {
        lemma_focus_move_follows_mode(m, tabs, mv, false);
    }
}

/// A click moves the selection only onto an enabled tab.
pub proof fn law_clicks_select_only_enabled_tabs<'a, Id>(m: TabsModel<Id>, tabs: Seq<Tab<'a, Id>>, event: MouseEvent)
    ensures
        moves_to_enabled(m, tabs, tabs_mouse_spec(m, tabs, event).0, false),
{
}

/// A disabled strip ignores keys, intents and the pointer and stays as it is.
pub proof fn law_disabled_strip_ignores_input<'a, Id>(
    m: TabsModel<Id>,
    tabs: Seq<Tab<'a, Id>>,
    key: KeyEvent,
    intent: UiIntent,
    event: MouseEvent,
)
    requires
        !m.enabled,
    ensures
        tabs_key_spec(m, tabs, key) == (m, TabsReply::<Id>::Ignored),
        tabs_intent_spec(m, tabs, intent) == (m, TabsReply::<Id>::Ignored),
        tabs_mouse_spec(m, tabs, event) == (m, TabsReply::<Id>::Ignored),
{
}


/// A keyboard- and pointer-navigable tab strip over borrowed tabs.
#[derive(Debug, Clone, Copy)]
pub struct Tabs<'a, Id> {
    /// Tabs in order.
    pub tabs: &'a [Tab<'a, Id>],
    /// Blank cells between adjacent tabs.
    pub gap: u16,
    /// Design tokens.
    pub system: &'a DesignSystem,
    /// Whether closable tabs show a close glyph.
    pub show_close: bool,
    /// How the active tab is marked.
    pub active_cue: TabsActiveCue,
    /// Secondary strip: the active rule is border-strong, not accent.
    pub quiet: bool,
}

impl<'a, Id> Tabs<'a, Id> {
    /// A strip with the rule cue, the standard gap and close glyphs.
    pub fn new(tabs: &'a [Tab<'a, Id>], system: &'a DesignSystem) -> (t: Self)
        ensures
            t.tabs == tabs,
            t.system == system,
            t.gap == TAB_GAP,
            t.show_close,
            t.active_cue == TabsActiveCue::Rule,
            !t.quiet,
    {
        Tabs { tabs, gap: TAB_GAP, system, show_close: true, active_cue: TabsActiveCue::Rule, quiet: false }
    }

    /// Sets how the active tab is marked.
    pub fn active_cue(self, cue: TabsActiveCue) -> (t: Self)
        ensures
            t == (Tabs { active_cue: cue, ..self }),
    {
        Tabs { active_cue: cue, ..self }
    }

    /// Makes the strip secondary.
    pub fn quiet(self, on: bool) -> (t: Self)
        ensures
            t == (Tabs { quiet: on, ..self }),
    {
        Tabs { quiet: on, ..self }
    }

    /// Sets the gap between tabs.
    pub fn gap(self, gap: u16) -> (t: Self)
        ensures
            t == (Tabs { gap, ..self }),
    {
        Tabs { gap, ..self }
    }

    /// Shows or hides close glyphs.
    pub fn show_close(self, on: bool) -> (t: Self)
        ensures
            t == (Tabs { show_close: on, ..self }),
    {
        Tabs { show_close: on, ..self }
    }
}


// ── One tab's anatomy ───────────────────────────────────────────────────────

/// Where one painted tab puts its parts, by column on the tab's first row.
#[derive(Debug, Clone, Copy, PartialEq, Eq)]
pub struct TabAnatomy {
    /// Column of the active-tab marker.
    pub marker_x: Option<u16>,
    /// Column of the status glyph or mark.
    pub status_x: Option<u16>,
    /// Column and cells available for the label.
    pub label: Option<(u16, u16)>,
    /// Column and cells available for the badge.
    pub badge: Option<(u16, u16)>,
    /// Cell of the close glyph.
    pub close: Option<Rect>,
    /// Close glyph that takes clicks (enabled tabs only).
    pub close_hit: Option<Rect>,
    /// Columns `start..end` and row of the active rule under the label.
    pub rule: Option<(u16, u16, u16)>,
    /// Region that takes clicks (enabled tabs only).
    pub hit: Option<Rect>,
}

/// Cells a tab takes in a row: its gutter, label and padding, a status glyph
/// (`glyph_cols` wide) or mark when shown, its badge, and a close glyph when
/// offered; every sum saturating.
pub open spec fn tab_width_spec<'a, Id>(tab: Tab<'a, Id>, show_status: bool, show_close: bool, glyph_cols: int) -> int {
    let c0 = sat_add(sat_add(1, (str_width(tab.label@) as u16) as int), 2);
    let c1 = if show_status {
        if tab.glyph is Some {
            sat_add(sat_add(c0, glyph_cols), 1)
        } else if tab.status.mark_spec(false) is Some {
            sat_add(c0, 2)
        } else {
            c0
        }
    } else {
        c0
    };
    let c2 = match tab.badge {
        Some(b) => sat_add(sat_add(c1, (str_width(b@) as u16) as int), 1),
        None => c1,
    };
    if show_close && tab.closable { sat_add(c2, 2) } else { c2 }
}

/// Right edge of a tab's row.
pub open spec fn row_right(rect: Rect) -> int {
    sat_add(rect.x as int, rect.width as int)
}

/// Whether the marker shows.
pub open spec fn shows_marker(rect: Rect, marker: bool) -> bool {
    marker && sat_add(rect.x as int, 1) < row_right(rect)
}

/// Column after the gutter and marker.
pub open spec fn col_after_marker(rect: Rect, marker: bool) -> int {
    let c0 = sat_add(rect.x as int, 1);
    if shows_marker(rect, marker) { sat_add(c0, 2) } else { c0 }
}

/// Whether a status glyph shows.
pub open spec fn shows_glyph<'a, Id>(tab: Tab<'a, Id>, rect: Rect, show_status: bool, marker: bool) -> bool {
    show_status && col_after_marker(rect, marker) < row_right(rect) && tab.glyph is Some
}

/// Whether a status mark shows.
pub open spec fn shows_mark<'a, Id>(tab: Tab<'a, Id>, rect: Rect, show_status: bool, marker: bool) -> bool {
    show_status && col_after_marker(rect, marker) < row_right(rect) && tab.glyph is None && tab.status.mark_spec(false) is Some
}

/// Column after the status.
pub open spec fn col_after_status<'a, Id>(tab: Tab<'a, Id>, rect: Rect, show_status: bool, marker: bool, glyph_cols: int) -> int {
    let c1 = col_after_marker(rect, marker);
    if shows_glyph(tab, rect, show_status, marker) {
        sat_add(sat_add(c1, glyph_cols), 1)
    } else if shows_mark(tab, rect, show_status, marker) {
        sat_add(c1, 2)
    } else {
        c1
    }
}

/// Column after the label.
pub open spec fn col_after_label<'a, Id>(tab: Tab<'a, Id>, rect: Rect, show_status: bool, marker: bool, glyph_cols: int) -> int {
    let c2 = col_after_status(tab, rect, show_status, marker, glyph_cols);
    if c2 < row_right(rect) { sat_add(c2, (str_width(tab.label@) as u16) as int) } else { c2 }
}

/// Whether the badge shows.
pub open spec fn shows_badge<'a, Id>(tab: Tab<'a, Id>, rect: Rect, show_status: bool, marker: bool, glyph_cols: int) -> bool {
    tab.badge is Some && sat_add(col_after_label(tab, rect, show_status, marker, glyph_cols), 1) < row_right(rect)
}

/// Column after the badge.
pub open spec fn col_after_badge<'a, Id>(tab: Tab<'a, Id>, rect: Rect, show_status: bool, marker: bool, glyph_cols: int) -> int {
    let c3 = col_after_label(tab, rect, show_status, marker, glyph_cols);
    if shows_badge(tab, rect, show_status, marker, glyph_cols) {
        sat_add(sat_add(c3, 1), (str_width(tab.badge->0@) as u16) as int)
    } else {
        c3
    }
}

/// Where one tab's parts go in `rect`. Along the first row, after the
/// gutter cell: the marker (`marker`: the tab is selected under the marker
/// cue) and a blank, the status glyph (`glyph_cols` wide) or mark when
/// `show_status` and a blank, the label in the cells left, then a blank and
/// the badge, then a blank and the close glyph when `show_close` and the tab
/// is closable; each only while it starts before the row's end. The rule
/// (`rule`: the tab is selected under the rule cue) runs on the second row
/// between the gutter and the last cell. An enabled tab takes clicks on up to
/// two rows and on its close glyph. An empty `rect` has no parts.
pub open spec fn tab_anatomy_spec<'a, Id>(
    tab: Tab<'a, Id>,
    rect: Rect,
    show_status: bool,
    show_close: bool,
    marker: bool,
    rule: bool,
    glyph_cols: int,
) -> TabAnatomy {
    if rect.width == 0 || rect.height == 0 {
        TabAnatomy { marker_x: None, status_x: None, label: None, badge: None, close: None, close_hit: None, rule: None, hit: None }
    } else {
        let right = row_right(rect);
        let c0 = sat_add(rect.x as int, 1);
        let c1 = col_after_marker(rect, marker);
        let c2 = col_after_status(tab, rect, show_status, marker, glyph_cols);
        let c3 = col_after_label(tab, rect, show_status, marker, glyph_cols);
        let b0 = sat_add(c3, 1);
        let c4 = col_after_badge(tab, rect, show_status, marker, glyph_cols);
        let close = if show_close && tab.closable && sat_add(c4, 1) < right {
            Some(Rect { x: sat_add(c4, 1) as u16, y: rect.y, width: 1, height: 1 })
        } else {
            None
        };
        TabAnatomy {
            marker_x: if shows_marker(rect, marker) { Some(c0 as u16) } else { None },
            status_x: if shows_glyph(tab, rect, show_status, marker) || shows_mark(tab, rect, show_status, marker) { Some(c1 as u16) } else { None },
            label: if c2 < right { Some((c2 as u16, (right - c2) as u16)) } else { None },
            badge: if shows_badge(tab, rect, show_status, marker, glyph_cols) { Some((b0 as u16, (right - b0) as u16)) } else { None },
            close,
            close_hit: if tab.enabled { close } else { None },
            rule: if rule && rect.height > 1 {
                Some((c0 as u16, sat_sub(right, 1) as u16, sat_add(rect.y as int, 1) as u16))
            } else {
                None
            },
            hit: if tab.enabled {
                Some(Rect { x: rect.x, y: rect.y, width: rect.width, height: if rect.height < 2 { rect.height } else { 2 } })
            } else {
                None
            },
        }
    }
}

/// Recording one painted tab: its click region and its close glyph join the
/// strip's regions.
pub open spec fn record_tab_spec<Id>(m: TabsModel<Id>, id: Id, a: TabAnatomy) -> TabsModel<Id> {
    TabsModel {
        regions: match a.hit { Some(r) => m.regions.push(HitRegion { id, area: r }), None => m.regions },
        close_regions: match a.close_hit { Some(r) => m.close_regions.push((id, r)), None => m.close_regions },
        ..m
    }
}

/// Cells a tab takes in a row (see [`tab_width_spec`]).
pub fn tab_width<'a, Id>(tab: &Tab<'a, Id>, show_status: bool, show_close: bool, glyph_cols: u16) -> (w: u16)
    ensures
        w == tab_width_spec(*tab, show_status, show_close, glyph_cols as int),
{
    let label_cols = display_cols(tab.label) as u16;
    let c0 = 1u16.saturating_add(label_cols).saturating_add(2);
    let c1 = if show_status {
        if tab.glyph.is_some() {
            c0.saturating_add(glyph_cols).saturating_add(1)
        } else if tab.status.mark(false).is_some() {
            c0.saturating_add(2)
        } else {
            c0
        }
    } else {
        c0
    };
    let c2 = match tab.badge {
        Some(b) => c1.saturating_add(display_cols(b) as u16).saturating_add(1),
        None => c1,
    };
    if show_close && tab.closable { c2.saturating_add(2) } else { c2 }
}

/// Column after the gutter, marker and status.
fn status_end<'a, Id>(tab: &Tab<'a, Id>, rect: Rect, show_status: bool, marker: bool, glyph_cols: u16) -> (r: (u16, bool, bool, bool))
    ensures
        r.0 == col_after_status(*tab, rect, show_status, marker, glyph_cols as int),
        r.1 == shows_marker(rect, marker),
        r.2 == shows_glyph(*tab, rect, show_status, marker),
        r.3 == shows_mark(*tab, rect, show_status, marker),
{
    let right = rect.x.saturating_add(rect.width);
    let c0 = rect.x.saturating_add(1);
    let mk = marker && c0 < right;
    let c1 = if mk { c0.saturating_add(2) } else { c0 };
    let st_glyph = show_status && c1 < right && tab.glyph.is_some();
    let st_mark = show_status && c1 < right && tab.glyph.is_none() && tab.status.mark(false).is_some();
    let c2 = if st_glyph {
        c1.saturating_add(glyph_cols).saturating_add(1)
    } else if st_mark {
        c1.saturating_add(2)
    } else {
        c1
    };
    (c2, mk, st_glyph, st_mark)
}

/// Columns after the label and after the badge, and whether the badge shows.
fn text_end<'a, Id>(tab: &Tab<'a, Id>, rect: Rect, show_status: bool, marker: bool, glyph_cols: u16, c2: u16) -> (r: (u16, u16, bool))
    requires
        c2 == col_after_status(*tab, rect, show_status, marker, glyph_cols as int),
    ensures
        r.0 == col_after_label(*tab, rect, show_status, marker, glyph_cols as int),
        r.1 == col_after_badge(*tab, rect, show_status, marker, glyph_cols as int),
        r.2 == shows_badge(*tab, rect, show_status, marker, glyph_cols as int),
{
    let right = rect.x.saturating_add(rect.width);
    let c3 = if c2 < right { c2.saturating_add(display_cols(tab.label) as u16) } else { c2 };
    let b0 = c3.saturating_add(1);
    let bad = tab.badge.is_some() && b0 < right;
    let c4 = if bad {
        match tab.badge {
            Some(b) => b0.saturating_add(display_cols(b) as u16),
            None => c3,
        }
    } else {
        c3
    };
    (c3, c4, bad)
}

/// Where one tab's parts go in `rect` (see [`tab_anatomy_spec`]).
#[verifier::rlimit(50)]
pub fn tab_anatomy<'a, Id>(
    tab: &Tab<'a, Id>,
    rect: Rect,
    show_status: bool,
    show_close: bool,
    marker: bool,
    rule: bool,
    glyph_cols: u16,
) -> (a: TabAnatomy)
    ensures
        a == tab_anatomy_spec(*tab, rect, show_status, show_close, marker, rule, glyph_cols as int),
{
    if rect.width == 0 || rect.height == 0 {
        return TabAnatomy { marker_x: None, status_x: None, label: None, badge: None, close: None, close_hit: None, rule: None, hit: None };
    }
    let right = rect.x.saturating_add(rect.width);
    let c0 = rect.x.saturating_add(1);
    let (c2, mk, st_glyph, st_mark) = status_end(tab, rect, show_status, marker, glyph_cols);
    let c1 = if mk { c0.saturating_add(2) } else { c0 };
    let (c3, c4, bad) = text_end(tab, rect, show_status, marker, glyph_cols, c2);
    let b0 = c3.saturating_add(1);
    assert(right == row_right(rect));
    assert(c0 == sat_add(rect.x as int, 1));
    assert(c1 == col_after_marker(rect, marker));
    assert(b0 == sat_add(c3 as int, 1));
    let cl = show_close && tab.closable && c4.saturating_add(1) < right;
    let close = if cl { Some(Rect { x: c4.saturating_add(1), y: rect.y, width: 1, height: 1 }) } else { None };
    TabAnatomy {
        marker_x: if mk { Some(c0) } else { None },
        status_x: if st_glyph || st_mark { Some(c1) } else { None },
        label: if c2 < right { Some((c2, right - c2)) } else { None },
        badge: if bad { Some((b0, right - b0)) } else { None },
        close,
        close_hit: if tab.enabled { close } else { None },
        rule: if rule && rect.height > 1 { Some((c0, right.saturating_sub(1), rect.y.saturating_add(1))) } else { None },
        hit: if tab.enabled {
            Some(Rect { x: rect.x, y: rect.y, width: rect.width, height: if rect.height < 2 { rect.height } else { 2 } })
        } else {
            None
        },
    }
}

/// Index of the selected tab, when it is among `tabs`.
pub open spec fn selected_index<'a, Id>(m: TabsModel<Id>, tabs: Seq<Tab<'a, Id>>) -> Option<usize> {
    match m.selected {
        Some(id) => match tab_position(tabs, id, 0) {
            Some(k) => Some(k as usize),
            None => None,
        },
        None => None,
    }
}

impl<Id: Copy + PartialEq> TabsState<Id> {
    /// Settles the window of a scrolled strip `width` cells wide over
    /// `tabs` measuring `widths` joined by `gap` (see [`tab_window_spec`]),
    /// and keeps its first tab as the scroll offset.
    pub fn scroll_window(&mut self, tabs: &[Tab<'_, Id>], widths: &Vec<u16>, gap: u16, width: u16) -> (w: TabWindow)
        requires
            obeys_concrete_eq::<Id>(),
        ensures
            w == tab_window_spec(widths@, gap as int, width as int, selected_index(old(self)@, tabs@),
                old(self)@.scroll_offset as int),
            final(self)@ == (TabsModel { scroll_offset: w.offset, ..old(self)@ }),
    {
        let sel = match self.selected {
            Some(id) => tab_pos(tabs, &id),
            None => None,
        };
        let w = tab_window(widths, gap, width, sel, self.scroll_offset);
        self.scroll_offset = w.offset;
        w
    }

    /// Records one painted tab's click region and close glyph.
    pub fn record_tab(&mut self, id: Id, a: TabAnatomy)
        ensures
            final(self)@ == record_tab_spec(old(self)@, id, a),
    {
        if let Some(r) = a.hit {
            self.regions.push(HitRegion { id, area: r });
        }
        if let Some(r) = a.close_hit {
            self.close_regions.push((id, r));
        }
    }
}

} // verus!

verus! {

proof fn lemma_no_close_hit<Id>(cs: Seq<(Id, Rect)>, p: Position, i: int)
    requires
        0 <= i,
        forall|k: int| 0 <= k < cs.len() ==> !(#[trigger] cs[k]).1.contains_spec(p),
    ensures
        close_hit_from(cs, p, i) is None,
    decreases cs.len() - i,
{
    if i < cs.len() {
        lemma_no_close_hit(cs, p, i + 1);
    }
}

/// The overflow chevrons scroll the way they point: a primary press on the
/// left chevron (away from any close glyph) moves the window one tab back
/// toward the start, never forward, stopping at the first tab; one on the
/// right chevron of a scrolling strip moves it one tab forward.
pub proof fn law_chevrons_scroll_their_way<'a, Id>(m: TabsModel<Id>, tabs: Seq<Tab<'a, Id>>, event: MouseEvent)
    requires
        m.enabled,
        event.kind == MouseEventKind::Down(MouseButton::Left),
        forall|k: int| 0 <= k < m.close_regions.len() ==> !(#[trigger] m.close_regions[k]).1.contains_spec(event.position),
    ensures
        opt_contains(m.overflow_left, event.position) ==> {
            let (f, r) = tabs_mouse_spec(m, tabs, event);
            &&& f.scroll_offset <= m.scroll_offset
            &&& f.scroll_offset == (if m.scroll_offset > 0 { m.scroll_offset - 1 } else { 0 })
            &&& r == TabsReply::<Id>::Changed
        },
        (!opt_contains(m.overflow_left, event.position) && opt_contains(m.overflow_trigger, event.position)
            && m.presentation == TabsPresentation::Scrolling) ==> {
            let (f, r) = tabs_mouse_spec(m, tabs, event);
            &&& f.scroll_offset >= m.scroll_offset
            &&& f.scroll_offset == (if m.scroll_offset < usize::MAX { m.scroll_offset + 1 } else { m.scroll_offset as int })
            &&& r == TabsReply::<Id>::Changed
        },
{
    lemma_no_close_hit(m.close_regions, event.position, 0);
}


proof fn lemma_first_close_hit<Id>(cs: Seq<(Id, Rect)>, p: Position, i: int, k: int)
    requires
        0 <= i <= k < cs.len(),
        cs[k].1.contains_spec(p),
        forall|j: int| 0 <= j < k ==> !(#[trigger] cs[j]).1.contains_spec(p),
    ensures
        close_hit_from(cs, p, i) == Some(k),
    decreases k - i,
{
    if i < k {
        lemma_first_close_hit(cs, p, i + 1, k);
    }
}

/// A primary press on a close glyph of an enabled strip asks to close that
/// glyph's tab (the first glyph under the pointer) and changes nothing but
/// the strip's focus.
pub proof fn law_close_glyph_requests_close<'a, Id>(m: TabsModel<Id>, tabs: Seq<Tab<'a, Id>>, event: MouseEvent, k: int)
    requires
        m.enabled,
        event.kind == MouseEventKind::Down(MouseButton::Left),
        0 <= k < m.close_regions.len(),
        m.close_regions[k].1.contains_spec(event.position),
        forall|j: int| 0 <= j < k ==> !(#[trigger] m.close_regions[j]).1.contains_spec(event.position),
    ensures
        tabs_mouse_spec(m, tabs, event) == (TabsModel { focused: true, ..m }, TabsReply::CloseRequested(m.close_regions[k].0)),
{
    lemma_first_close_hit(m.close_regions, event.position, 0, k);
}

} // verus!
