//! Table interaction: rows as the table sees them, and the selection,
//! hover, scrolling and cell-cursor state that keyboard and pointer input
//! drive. Row and column identities are compared with `==`, which the
//! contracts take to be equality.

use vstd::prelude::*;
use vstd::laws_eq::obeys_concrete_eq;
use crate::geometry::{sat_add, sat_sub, Position, Rect};
use crate::input::{KeyCode, KeyEvent, KeyEventKind, KeyModifiers, MouseButton, MouseEvent, MouseEventKind};
use crate::interaction::{same, default_table_intent, table_intent_spec, NavigationMove, PageMove, UiIntent};
use crate::table::{layout_visible, layout_widths, resolve_layout_into, ColumnWidth, TableBodyState, TableOutcome, TableRecipe};

verus! {

/// Styled text of one line (carried to the painter unchanged).
#[verifier::external_type_specification]
#[verifier::external_body]
pub struct ExLine<'a>(ratatui_core::text::Line<'a>);

/// A terminal style (carried to the painter unchanged).
#[verifier::external_type_specification]
#[verifier::external_body]
pub struct ExStyle(ratatui_core::style::Style);

/// One row as the table sees it.
#[derive(Debug, Clone, PartialEq, Eq)]
pub struct TableRow<'a, Id> {
    /// Stable row identity.
    pub id: Id,
    /// Styled cells in column order.
    pub cells: &'a [ratatui_core::text::Line<'a>],
    /// Leading status or icon before the first cell.
    pub leading: Option<ratatui_core::text::Line<'a>>,
    /// Trailing badge after the last cell.
    pub badge: Option<ratatui_core::text::Line<'a>>,
    /// Whether selection, activation and pointer input reach the row.
    pub enabled: bool,
    /// Whether the row paints with the accent role.
    pub emphasis: bool,
    /// Row-wide style override.
    pub style: Option<ratatui_core::style::Style>,
}

impl<'a, Id> TableRow<'a, Id> {
    /// An enabled row with ordinary emphasis.
    pub fn new(id: Id, cells: &'a [ratatui_core::text::Line<'a>]) -> (r: Self)
        ensures
            r.id == id,
            r.cells == cells,
            r.leading is None,
            r.badge is None,
            r.enabled,
            !r.emphasis,
            r.style is None,
    {
        TableRow { id, cells, leading: None, badge: None, enabled: true, emphasis: false, style: None }
    }

    /// Sets whether input reaches the row.
    pub fn enabled(self, enabled: bool) -> (r: Self)
        ensures
            r == (TableRow { enabled, ..self }),
    {
        TableRow { enabled, ..self }
    }

    /// Sets accent emphasis.
    pub fn emphasis(self, emphasis: bool) -> (r: Self)
        ensures
            r == (TableRow { emphasis, ..self }),
    {
        TableRow { emphasis, ..self }
    }

    /// Overrides the row-wide style.
    pub fn style(self, style: ratatui_core::style::Style) -> (r: Self)
        ensures
            r == (TableRow { style: Some(style), ..self }),
    {
        TableRow { style: Some(style), ..self }
    }
}

/// A painted row, for pointer routing.
#[derive(Debug, Clone, Copy, PartialEq, Eq)]
pub struct TableRowRegion<Id> {
    /// Row identity.
    pub id: Id,
    /// Row index in the projection.
    pub index: usize,
    /// Painted cells.
    pub area: Rect,
}

/// A painted header, for sort routing.
#[derive(Debug, Clone, Copy, PartialEq, Eq)]
pub struct TableHeaderRegion<Id> {
    /// Column identity.
    pub id: Id,
    /// Painted cells.
    pub area: Rect,
    /// Whether a click requests sorting.
    pub sortable: bool,
}

// ── Row scans ───────────────────────────────────────────────────────────────

/// The first enabled row with identity `id`, from row `i` on.
pub open spec fn find_enabled_from<'a, Id>(rows: Seq<TableRow<'a, Id>>, id: Id, i: int) -> Option<int>
    decreases rows.len() - i,
{
    if i < 0 || i >= rows.len() {
        None
    } else if rows[i].enabled && rows[i].id == id {
        Some(i)
    } else {
        find_enabled_from(rows, id, i + 1)
    }
}

/// Enabled rows among the first `k`.
pub open spec fn enabled_count<'a, Id>(rows: Seq<TableRow<'a, Id>>, k: int) -> int
    decreases k,
{
    if k <= 0 {
        0
    } else {
        enabled_count(rows, k - 1) + (if rows[k - 1].enabled { 1int } else { 0 })
    }
}

/// Position among the enabled rows (from rank `r` at row `i` on) of the
/// first enabled row with identity `id`.
pub open spec fn enabled_rank_from<'a, Id>(rows: Seq<TableRow<'a, Id>>, id: Id, i: int, r: int) -> Option<int>
    decreases rows.len() - i,
{
    if i < 0 || i >= rows.len() {
        None
    } else if rows[i].enabled {
        if rows[i].id == id { Some(r) } else { enabled_rank_from(rows, id, i + 1, r + 1) }
    } else {
        enabled_rank_from(rows, id, i + 1, r)
    }
}

/// Row index of the `n`-th enabled row from row `i` on (row zero when there
/// is none).
pub open spec fn nth_enabled_from<'a, Id>(rows: Seq<TableRow<'a, Id>>, n: int, i: int) -> int
    decreases rows.len() - i,
{
    if i < 0 || i >= rows.len() {
        0
    } else if rows[i].enabled {
        if n == 0 { i } else { nth_enabled_from(rows, n - 1, i + 1) }
    } else {
        nth_enabled_from(rows, n, i + 1)
    }
}

/// Distance between two indices.
pub open spec fn index_distance(a: int, b: int) -> int {
    if a >= b { a - b } else { b - a }
}

/// The enabled row nearest to `anchor` (the first of equally near ones),
/// scanning from row `i` with the best so far.
pub open spec fn nearest_enabled_from<'a, Id>(rows: Seq<TableRow<'a, Id>>, anchor: int, i: int, best: Option<int>) -> Option<int>
    decreases rows.len() - i,
{
    if i < 0 || i >= rows.len() {
        best
    } else {
        let better = rows[i].enabled && match best {
            Some(b) => index_distance(i, anchor) < index_distance(b, anchor),
            None => true,
        };
        nearest_enabled_from(rows, anchor, i + 1, if better { Some(i) } else { best })
    }
}

/// Whether row `i`'s identity occurs in no earlier row.
pub open spec fn first_occurrence<'a, Id>(rows: Seq<TableRow<'a, Id>>, i: int) -> bool {
    forall|j: int| 0 <= j < i ==> rows[j].id != rows[i].id
}

// ── State ───────────────────────────────────────────────────────────────────

/// A table's interaction state as plain values.
pub struct TableModel<RowId, ColumnId> {
    /// Selected row.
    pub selected: Option<RowId>,
    /// Hovered row.
    pub hovered: Option<RowId>,
    /// Hovered header.
    pub hovered_column: Option<ColumnId>,
    /// Column of the cell cursor.
    pub focused_column: Option<ColumnId>,
    /// Whether Left and Right move a cell cursor.
    pub cell_nav: bool,
    /// Last pointer position.
    pub pointer: Option<Position>,
    /// First body row shown.
    pub offset: usize,
    /// Horizontal content offset in columns.
    pub h_offset: u16,
    /// Body rows the viewport shows.
    pub viewport_rows: usize,
    /// Painted content width (columns and gaps).
    pub content_width: u16,
    /// Columns the viewport shows.
    pub viewport_width: u16,
    /// Index of the selected row when last seen.
    pub previous_index: Option<usize>,
    /// Painted area.
    pub painted_area: Rect,
    /// Painted enabled rows.
    pub row_regions: Seq<TableRowRegion<RowId>>,
    /// Painted headers.
    pub header_regions: Seq<TableHeaderRegion<ColumnId>>,
    /// Resolved width of every declared column.
    pub resolved_widths: Seq<u16>,
    /// Columns kept by the last layout.
    pub visible_columns: Seq<usize>,
    /// For each row, whether its identity occurs first there.
    pub first_row_ids: Seq<bool>,
}

/// Interaction and viewport state of a table.
#[derive(Debug, Clone, PartialEq, Eq)]
pub struct TableState<RowId, ColumnId> {
    selected: Option<RowId>,
    hovered: Option<RowId>,
    hovered_column: Option<ColumnId>,
    focused_column: Option<ColumnId>,
    cell_nav: bool,
    pointer: Option<Position>,
    offset: usize,
    h_offset: u16,
    viewport_rows: usize,
    content_width: u16,
    viewport_width: u16,
    previous_index: Option<usize>,
    painted_area: Rect,
    /// Painted enabled rows of the latest layout.
    pub row_regions: Vec<TableRowRegion<RowId>>,
    /// Painted headers of the latest layout.
    pub header_regions: Vec<TableHeaderRegion<ColumnId>>,
    /// Resolved width of every declared column of the latest layout.
    pub resolved_widths: Vec<u16>,
    visible_columns: Vec<usize>,
    first_row_ids: Vec<bool>,
}

impl<RowId, ColumnId> View for TableState<RowId, ColumnId> {
    type V = TableModel<RowId, ColumnId>;

    closed spec fn view(&self) -> TableModel<RowId, ColumnId> {
        TableModel {
            selected: self.selected,
            hovered: self.hovered,
            hovered_column: self.hovered_column,
            focused_column: self.focused_column,
            cell_nav: self.cell_nav,
            pointer: self.pointer,
            offset: self.offset,
            h_offset: self.h_offset,
            viewport_rows: self.viewport_rows,
            content_width: self.content_width,
            viewport_width: self.viewport_width,
            previous_index: self.previous_index,
            painted_area: self.painted_area,
            row_regions: self.row_regions@,
            header_regions: self.header_regions@,
            resolved_widths: self.resolved_widths@,
            visible_columns: self.visible_columns@,
            first_row_ids: self.first_row_ids@,
        }
    }
}

/// A table with `selected` selected and nothing else: no hover, no cursor,
/// nothing painted, scrolled to the top.
pub open spec fn table_new_spec<RowId, ColumnId>(selected: Option<RowId>) -> TableModel<RowId, ColumnId> {
    TableModel {
        selected,
        hovered: None,
        hovered_column: None,
        focused_column: None,
        cell_nav: false,
        pointer: None,
        offset: 0,
        h_offset: 0,
        viewport_rows: 0,
        content_width: 0,
        viewport_width: 0,
        previous_index: None,
        painted_area: Rect { x: 0, y: 0, width: 0, height: 0 },
        row_regions: Seq::empty(),
        header_regions: Seq::empty(),
        resolved_widths: Seq::empty(),
        visible_columns: Seq::empty(),
        first_row_ids: Seq::empty(),
    }
}

/// The offset that shows row `index`: unchanged without a viewport; pulled
/// back to it, or moved on so that it is the last row shown; then at most
/// the last full page.
pub open spec fn reveal_spec<RowId, ColumnId>(m: TableModel<RowId, ColumnId>, index: int, row_count: int) -> usize {
    if m.viewport_rows == 0 {
        m.offset
    } else {
        let o = if index < m.offset {
            index
        } else if index >= m.offset + m.viewport_rows {
            index + 1 - m.viewport_rows
        } else {
            m.offset as int
        };
        let cap = sat_sub_usize(row_count, m.viewport_rows as int);
        (if o < cap { o } else { cap }) as usize
    }
}

/// `a - b`, floored at zero.
pub open spec fn sat_sub_usize(a: int, b: int) -> int {
    if a < b { 0 } else { a - b }
}


/// First enabled row from row `i` on.
pub open spec fn first_enabled_from<'a, Id>(rows: Seq<TableRow<'a, Id>>, i: int) -> Option<int>
    decreases rows.len() - i,
{
    if i < 0 || i >= rows.len() {
        None
    } else if rows[i].enabled {
        Some(i)
    } else {
        first_enabled_from(rows, i + 1)
    }
}

/// Last enabled row among the first `k`.
pub open spec fn last_enabled_before<'a, Id>(rows: Seq<TableRow<'a, Id>>, k: int) -> Option<int>
    decreases k,
{
    if k <= 0 || k > rows.len() {
        None
    } else if rows[k - 1].enabled {
        Some(k - 1)
    } else {
        last_enabled_before(rows, k - 1)
    }
}

/// An optional index as a mathematical integer.
pub open spec fn opt_int(o: Option<usize>) -> Option<int> {
    match o {
        Some(x) => Some(x as int),
        None => None,
    }
}


/// Number of enabled rows.
fn count_enabled<'a, Id>(rows: &[TableRow<'a, Id>]) -> (n: usize)
    ensures
        n == enabled_count(rows@, rows@.len() as int),
        n <= rows@.len(),
{
    let mut n: usize = 0;
    let mut i: usize = 0;
    while i < rows.len()
        invariant
            i <= rows.len(),
            n == enabled_count(rows@, i as int),
            n <= i,
        decreases rows.len() - i,
    {
        if rows[i].enabled {
            n = n + 1;
        }
        i = i + 1;
    }
    n
}

/// Position among the enabled rows of the first enabled row with `id`.
fn enabled_rank<'a, Id: PartialEq>(rows: &[TableRow<'a, Id>], id: &Id) -> (r: Option<usize>)
    requires
        obeys_concrete_eq::<Id>(),
    ensures
        opt_int(r) == enabled_rank_from(rows@, *id, 0, 0),
        r matches Some(k) ==> k < rows@.len(),
{
    let mut i: usize = 0;
    let mut seen: usize = 0;
    while i < rows.len()
        invariant
            i <= rows.len(),
            seen <= i,
            obeys_concrete_eq::<Id>(),
            enabled_rank_from(rows@, *id, 0, 0) == enabled_rank_from(rows@, *id, i as int, seen as int),
        decreases rows.len() - i,
    {
        if rows[i].enabled {
            if same(&rows[i].id, id) {
                return Some(seen);
            }
            seen = seen + 1;
        }
        i = i + 1;
    }
    None
}

/// Row index of the `n`-th enabled row (row zero when there is none).
fn nth_enabled<'a, Id>(rows: &[TableRow<'a, Id>], n: usize) -> (r: usize)
    ensures
        r == nth_enabled_from(rows@, n as int, 0),
{
    let mut i: usize = 0;
    let mut left: usize = n;
    while i < rows.len()
        invariant
            i <= rows.len(),
            nth_enabled_from(rows@, n as int, 0) == nth_enabled_from(rows@, left as int, i as int),
        decreases rows.len() - i,
    {
        if rows[i].enabled {
            if left == 0 {
                return i;
            }
            left = left - 1;
        }
        i = i + 1;
    }
    0
}

/// The first enabled row with `id`.
fn find_enabled<'a, Id: PartialEq>(rows: &[TableRow<'a, Id>], id: &Id) -> (r: Option<usize>)
    requires
        obeys_concrete_eq::<Id>(),
    ensures
        opt_int(r) == find_enabled_from(rows@, *id, 0),
        r matches Some(k) ==> k < rows@.len() && rows@[k as int].enabled && rows@[k as int].id == *id,
{
    let mut i: usize = 0;
    while i < rows.len()
        invariant
            i <= rows.len(),
            obeys_concrete_eq::<Id>(),
            find_enabled_from(rows@, *id, 0) == find_enabled_from(rows@, *id, i as int),
        decreases rows.len() - i,
    {
        if rows[i].enabled && same(&rows[i].id, id) {
            return Some(i);
        }
        i = i + 1;
    }
    None
}

/// The first enabled row.
fn first_enabled<'a, Id>(rows: &[TableRow<'a, Id>]) -> (r: Option<usize>)
    ensures
        opt_int(r) == first_enabled_from(rows@, 0),
        r matches Some(k) ==> k < rows@.len(),
{
    let mut i: usize = 0;
    while i < rows.len()
        invariant
            i <= rows.len(),
            first_enabled_from(rows@, 0) == first_enabled_from(rows@, i as int),
        decreases rows.len() - i,
    {
        if rows[i].enabled {
            return Some(i);
        }
        i = i + 1;
    }
    None
}

/// The last enabled row.
fn last_enabled<'a, Id>(rows: &[TableRow<'a, Id>]) -> (r: Option<usize>)
    ensures
        opt_int(r) == last_enabled_before(rows@, rows@.len() as int),
        r matches Some(k) ==> k < rows@.len(),
{
    let mut k: usize = rows.len();
    while k > 0
        invariant
            k <= rows.len(),
            last_enabled_before(rows@, rows@.len() as int) == last_enabled_before(rows@, k as int),
        decreases k,
    {
        if rows[k - 1].enabled {
            return Some(k - 1);
        }
        k = k - 1;
    }
    None
}

/// The enabled row nearest to `anchor` (the first of equally near ones).
fn nearest_enabled<'a, Id>(rows: &[TableRow<'a, Id>], anchor: usize) -> (r: Option<usize>)
    ensures
        opt_int(r) == nearest_enabled_from(rows@, anchor as int, 0, None),
        r matches Some(k) ==> k < rows@.len(),
{
    let mut best: Option<usize> = None;
    let mut best_distance: usize = 0;
    let mut i: usize = 0;
    while i < rows.len()
        invariant
            i <= rows.len(),
            nearest_enabled_from(rows@, anchor as int, 0, None)
                == nearest_enabled_from(rows@, anchor as int, i as int, opt_int(best)),
            best matches Some(b) ==> b < i && best_distance == index_distance(b as int, anchor as int),
        decreases rows.len() - i,
    {
        let d: usize = if i >= anchor { i - anchor } else { anchor - i };
        if rows[i].enabled {
            let better = match best {
                Some(_) => d < best_distance,
                None => true,
            };
            if better {
                best = Some(i);
                best_distance = d;
            }
        }
        i = i + 1;
    }
    best
}

/// For each row, whether its identity occurs in no earlier row.
fn first_occurrences<'a, Id: PartialEq>(rows: &[TableRow<'a, Id>]) -> (v: Vec<bool>)
    requires
        obeys_concrete_eq::<Id>(),
    ensures
        v@.len() == rows@.len(),
        forall|k: int| 0 <= k < rows@.len() ==> v@[k] == first_occurrence(rows@, k),
{
    let mut v: Vec<bool> = Vec::new();
    let mut i: usize = 0;
    while i < rows.len()
        invariant
            i <= rows.len(),
            v@.len() == i,
            obeys_concrete_eq::<Id>(),
            forall|k: int| 0 <= k < i ==> v@[k] == first_occurrence(rows@, k),
        decreases rows.len() - i,
    {
        let mut all: bool = true;
        let mut j: usize = 0;
        while j < i
            invariant
                j <= i,
                i < rows.len(),
                obeys_concrete_eq::<Id>(),
                all == (forall|q: int| 0 <= q < j ==> rows@[q].id != rows@[i as int].id),
            decreases i - j,
        {
            if same(&rows[j].id, &rows[i].id) {
                all = false;
            }
            j = j + 1;
        }
        v.push(all);
        i = i + 1;
    }
    v
}


// ── Transitions ─────────────────────────────────────────────────────────────

/// Enabled rows in all.
pub open spec fn enabled_total<'a, Id>(rows: Seq<TableRow<'a, Id>>) -> int {
    enabled_count(rows, rows.len() as int)
}

/// Position among the enabled rows of the selected row (zero when nothing
/// enabled is selected).
pub open spec fn current_rank<'a, Id>(rows: Seq<TableRow<'a, Id>>, selected: Option<Id>) -> int {
    match selected {
        Some(id) => match enabled_rank_from(rows, id, 0, 0) {
            Some(r) => r,
            None => 0,
        },
        None => 0,
    }
}

/// Enabled-row position after moving `delta` from `current` among `n`:
/// a single step past either end wraps when `wrap` is set; any other move
/// stops at the ends.
pub open spec fn move_rank(current: int, n: int, delta: int, wrap: bool) -> int {
    if wrap && delta == -1 && current == 0 {
        n - 1
    } else if wrap && delta == 1 && current == n - 1 {
        0
    } else if current + delta < 0 {
        0
    } else if current + delta > n - 1 {
        n - 1
    } else {
        current + delta
    }
}

/// Selecting row `index`: its identity and index are remembered and the
/// viewport scrolls to show it.
pub open spec fn select_index_spec<'a, RowId, ColumnId>(
    m: TableModel<RowId, ColumnId>,
    rows: Seq<TableRow<'a, RowId>>,
    index: int,
) -> (TableModel<RowId, ColumnId>, TableOutcome<RowId, ColumnId>) {
    (
        TableModel {
            selected: Some(rows[index].id),
            previous_index: Some(index as usize),
            offset: reveal_spec(m, index, rows.len() as int),
            ..m
        },
        TableOutcome::Selected(rows[index].id),
    )
}

/// Moving the selection `delta` enabled rows.
pub open spec fn move_by_spec<'a, RowId, ColumnId>(
    m: TableModel<RowId, ColumnId>,
    rows: Seq<TableRow<'a, RowId>>,
    delta: int,
    wrap: bool,
) -> (TableModel<RowId, ColumnId>, TableOutcome<RowId, ColumnId>) {
    let n = enabled_total(rows);
    if n == 0 {
        (m, TableOutcome::Ignored)
    } else {
        let next = move_rank(current_rank(rows, m.selected), n, delta, wrap);
        select_index_spec(m, rows, nth_enabled_from(rows, next, 0))
    }
}

/// Selecting the first (or last) enabled row.
pub open spec fn select_edge_spec<'a, RowId, ColumnId>(
    m: TableModel<RowId, ColumnId>,
    rows: Seq<TableRow<'a, RowId>>,
    last: bool,
) -> (TableModel<RowId, ColumnId>, TableOutcome<RowId, ColumnId>) {
    let target = if last { last_enabled_before(rows, rows.len() as int) } else { first_enabled_from(rows, 0) };
    match target {
        Some(index) => select_index_spec(m, rows, index),
        None => (m, TableOutcome::Ignored),
    }
}

/// Activation reaches the selected row only while it is present and enabled.
pub open spec fn activate_spec<'a, RowId, ColumnId>(
    m: TableModel<RowId, ColumnId>,
    rows: Seq<TableRow<'a, RowId>>,
) -> TableOutcome<RowId, ColumnId> {
    match m.selected {
        Some(id) => if find_enabled_from(rows, id, 0) is Some {
            TableOutcome::Activated(id)
        } else {
            TableOutcome::Ignored
        },
        None => TableOutcome::Ignored,
    }
}

/// Horizontal offset after scrolling `delta` columns: saturating, and never
/// past the overflow of the content over the viewport when moving right.
pub open spec fn h_scroll_spec<RowId, ColumnId>(m: TableModel<RowId, ColumnId>, delta: int) -> u16 {
    if delta >= 0 {
        let max = sat_sub(m.content_width as int, m.viewport_width as int);
        let t = sat_add(m.h_offset as int, delta);
        (if t < max { t } else { max }) as u16
    } else {
        sat_sub(m.h_offset as int, -delta) as u16
    }
}

/// Position of the first header with identity `id`, from header `i` on.
pub open spec fn header_index_from<ColumnId>(hs: Seq<TableHeaderRegion<ColumnId>>, id: ColumnId, i: int) -> Option<int>
    decreases hs.len() - i,
{
    if i < 0 || i >= hs.len() {
        None
    } else if hs[i].id == id {
        Some(i)
    } else {
        header_index_from(hs, id, i + 1)
    }
}

/// Header the cell cursor moves to: one step within the painted headers,
/// or the last (first) one when no painted header has the cursor.
pub open spec fn cell_target<RowId, ColumnId>(m: TableModel<RowId, ColumnId>, delta: int) -> int {
    let n = m.header_regions.len() as int;
    let current = match m.focused_column {
        Some(id) => header_index_from(m.header_regions, id, 0),
        None => None,
    };
    match current {
        Some(i) => if delta < 0 { sat_sub(i, 1) } else if i + 1 < n - 1 { i + 1 } else { n - 1 },
        None => if delta < 0 { n - 1 } else { 0 },
    }
}

/// Moving the cell cursor: onto the neighbouring header, or, already at
/// the edge, scrolling horizontally instead.
pub open spec fn cell_move_spec<RowId, ColumnId>(m: TableModel<RowId, ColumnId>, delta: int) -> TableModel<RowId, ColumnId> {
    if m.header_regions.len() == 0 {
        m
    } else {
        let id = m.header_regions[cell_target(m, delta)].id;
        if m.focused_column == Some(id) {
            TableModel { h_offset: h_scroll_spec(m, delta), ..m }
        } else {
            TableModel { focused_column: Some(id), ..m }
        }
    }
}

/// Whether Left and Right may move a cell cursor: cell navigation is on,
/// headers are painted and the selected row is present and enabled.
pub open spec fn can_cell_spec<'a, RowId, ColumnId>(m: TableModel<RowId, ColumnId>, rows: Seq<TableRow<'a, RowId>>) -> bool {
    &&& m.cell_nav
    &&& m.header_regions.len() > 0
    &&& match m.selected {
        Some(id) => find_enabled_from(rows, id, 0) is Some,
        None => false,
    }
}

/// Left or Right: the cell cursor moves when it can and is placed (or the
/// content fits); otherwise the content scrolls; when it cannot scroll
/// further the cell cursor moves after all.
pub open spec fn horizontal_spec<'a, RowId, ColumnId>(
    m: TableModel<RowId, ColumnId>,
    rows: Seq<TableRow<'a, RowId>>,
    delta: int,
) -> TableModel<RowId, ColumnId> {
    let can_cell = can_cell_spec(m, rows);
    if can_cell && (m.focused_column is Some || m.content_width <= m.viewport_width) {
        cell_move_spec(m, delta)
    } else if h_scroll_spec(m, delta) != m.h_offset {
        TableModel { h_offset: h_scroll_spec(m, delta), ..m }
    } else if can_cell {
        cell_move_spec(m, delta)
    } else {
        m
    }
}

/// Rows in one page: the viewport, at least one, at most `isize::MAX`.
pub open spec fn page_rows<RowId, ColumnId>(m: TableModel<RowId, ColumnId>) -> int {
    if m.viewport_rows == 0 {
        1
    } else if m.viewport_rows > isize::MAX {
        isize::MAX as int
    } else {
        m.viewport_rows as int
    }
}

/// What a semantic intent does to a table.
pub open spec fn intent_spec<'a, RowId, ColumnId>(
    m: TableModel<RowId, ColumnId>,
    rows: Seq<TableRow<'a, RowId>>,
    intent: UiIntent,
) -> (TableModel<RowId, ColumnId>, TableOutcome<RowId, ColumnId>) {
    match intent {
        UiIntent::Move(NavigationMove::Previous) | UiIntent::Move(NavigationMove::Up) => move_by_spec(m, rows, -1, true),
        UiIntent::Move(NavigationMove::Next) | UiIntent::Move(NavigationMove::Down) => move_by_spec(m, rows, 1, true),
        UiIntent::Move(NavigationMove::First) => select_edge_spec(m, rows, false),
        UiIntent::Move(NavigationMove::Last) => select_edge_spec(m, rows, true),
        UiIntent::Move(NavigationMove::Left) | UiIntent::Collapse => (horizontal_spec(m, rows, -1), TableOutcome::Ignored),
        UiIntent::Move(NavigationMove::Right) | UiIntent::Expand => (horizontal_spec(m, rows, 1), TableOutcome::Ignored),
        UiIntent::Page(PageMove::Backward) => move_by_spec(m, rows, -page_rows(m), false),
        UiIntent::Page(PageMove::Forward) => move_by_spec(m, rows, page_rows(m), false),
        UiIntent::Activate | UiIntent::Open | UiIntent::Submit => (m, activate_spec(m, rows)),
        UiIntent::Cancel | UiIntent::Close => (m, TableOutcome::Cancelled),
        UiIntent::Toggle => (m, TableOutcome::Ignored),
    }
}

/// The first sortable header from header `i` on.
pub open spec fn sortable_from<ColumnId>(hs: Seq<TableHeaderRegion<ColumnId>>, i: int) -> Option<int>
    decreases hs.len() - i,
{
    if i < 0 || i >= hs.len() {
        None
    } else if hs[i].sortable {
        Some(i)
    } else {
        sortable_from(hs, i + 1)
    }
}

/// Whether a sortable header has identity `id`.
pub open spec fn sortable_with_id<ColumnId>(hs: Seq<TableHeaderRegion<ColumnId>>, id: ColumnId) -> bool {
    exists|k: int| 0 <= k < hs.len() && #[trigger] hs[k].sortable && hs[k].id == id
}

/// The `s` key: sort by the cursor's column when it is sortable, else by the
/// first sortable column.
pub open spec fn sort_spec<RowId, ColumnId>(m: TableModel<RowId, ColumnId>) -> TableOutcome<RowId, ColumnId> {
    match m.focused_column {
        Some(id) if sortable_with_id(m.header_regions, id) => TableOutcome::SortRequested(id),
        _ => match sortable_from(m.header_regions, 0) {
            Some(k) => TableOutcome::SortRequested(m.header_regions[k].id),
            None => TableOutcome::Ignored,
        },
    }
}

/// What a key does to a table: modified keys and releases do nothing; the
/// table key map decides, `s` requests sorting, and activation needs a press.
pub open spec fn key_spec<'a, RowId, ColumnId>(
    m: TableModel<RowId, ColumnId>,
    rows: Seq<TableRow<'a, RowId>>,
    key: KeyEvent,
) -> (TableModel<RowId, ColumnId>, TableOutcome<RowId, ColumnId>) {
    if key.kind == KeyEventKind::Release || key.modifiers != KeyModifiers::NONE {
        (m, TableOutcome::Ignored)
    } else {
        match table_intent_spec(key) {
            None => if key.kind == KeyEventKind::Press && key.code == KeyCode::Char('s') {
                (m, sort_spec(m))
            } else {
                (m, TableOutcome::Ignored)
            },
            Some(intent) => if intent == UiIntent::Activate && key.kind != KeyEventKind::Press {
                (m, TableOutcome::Ignored)
            } else {
                intent_spec(m, rows, intent)
            },
        }
    }
}


/// The first painted row containing `p`, from region `i` on.
pub open spec fn row_hit_from<RowId>(rs: Seq<TableRowRegion<RowId>>, p: Position, i: int) -> Option<int>
    decreases rs.len() - i,
{
    if i < 0 || i >= rs.len() {
        None
    } else if rs[i].area.contains_spec(p) {
        Some(i)
    } else {
        row_hit_from(rs, p, i + 1)
    }
}

/// The first painted header containing `p` (and sortable, when
/// `sortable_only`), from region `i` on.
pub open spec fn header_hit_from<ColumnId>(hs: Seq<TableHeaderRegion<ColumnId>>, p: Position, sortable_only: bool, i: int) -> Option<int>
    decreases hs.len() - i,
{
    if i < 0 || i >= hs.len() {
        None
    } else if (hs[i].sortable || !sortable_only) && hs[i].area.contains_spec(p) {
        Some(i)
    } else {
        header_hit_from(hs, p, sortable_only, i + 1)
    }
}

/// Identity of the painted row under `p`.
pub open spec fn row_under<RowId, ColumnId>(m: TableModel<RowId, ColumnId>, p: Position) -> Option<RowId> {
    match row_hit_from(m.row_regions, p, 0) {
        Some(k) => Some(m.row_regions[k].id),
        None => None,
    }
}

/// Identity of the painted header under `p`.
pub open spec fn header_under<RowId, ColumnId>(m: TableModel<RowId, ColumnId>, p: Position) -> Option<ColumnId> {
    match header_hit_from(m.header_regions, p, false, 0) {
        Some(k) => Some(m.header_regions[k].id),
        None => None,
    }
}

/// Hover at `p`: the pointer, hovered row and hovered header follow it.
pub open spec fn hover_spec<RowId, ColumnId>(m: TableModel<RowId, ColumnId>, p: Position) -> TableModel<RowId, ColumnId> {
    TableModel { pointer: Some(p), hovered: row_under(m, p), hovered_column: header_under(m, p), ..m }
}

/// A primary click at `p`: a sortable header under it requests sorting;
/// else a painted row under it is selected; else nothing.
pub open spec fn click_spec<RowId, ColumnId>(
    m: TableModel<RowId, ColumnId>,
    p: Position,
) -> (TableModel<RowId, ColumnId>, TableOutcome<RowId, ColumnId>) {
    let m1 = TableModel { pointer: Some(p), ..m };
    match header_hit_from(m.header_regions, p, true, 0) {
        Some(k) => (m1, TableOutcome::SortRequested(m.header_regions[k].id)),
        None => match row_hit_from(m.row_regions, p, 0) {
            Some(k) => (
                TableModel { selected: Some(m.row_regions[k].id), previous_index: Some(m.row_regions[k].index), ..m1 },
                TableOutcome::Selected(m.row_regions[k].id),
            ),
            None => (m1, TableOutcome::Ignored),
        },
    }
}

/// Body offset after scrolling `delta` rows of `row_count`: saturating, and
/// at most the last full page.
pub open spec fn scroll_spec<RowId, ColumnId>(m: TableModel<RowId, ColumnId>, delta: int, row_count: int) -> usize {
    let maximum = sat_sub_usize(row_count, m.viewport_rows as int);
    let t = if m.offset + delta < 0 { 0 } else if m.offset + delta > usize::MAX { usize::MAX as int } else { m.offset + delta };
    (if t < maximum { t } else { maximum }) as usize
}

/// What a pointer event does: motion hovers, a primary press clicks, and the
/// wheel scrolls by one row while over the painted table.
pub open spec fn mouse_spec<RowId, ColumnId>(
    m: TableModel<RowId, ColumnId>,
    event: MouseEvent,
    row_count: int,
) -> (TableModel<RowId, ColumnId>, TableOutcome<RowId, ColumnId>) {
    match event.kind {
        MouseEventKind::Moved => (hover_spec(m, event.position), TableOutcome::Ignored),
        MouseEventKind::Down(MouseButton::Left) => click_spec(m, event.position),
        MouseEventKind::ScrollUp => if m.painted_area.contains_spec(event.position) {
            (TableModel { offset: scroll_spec(m, -1, row_count), ..m }, TableOutcome::Ignored)
        } else {
            (m, TableOutcome::Ignored)
        },
        MouseEventKind::ScrollDown => if m.painted_area.contains_spec(event.position) {
            (TableModel { offset: scroll_spec(m, 1, row_count), ..m }, TableOutcome::Ignored)
        } else {
            (m, TableOutcome::Ignored)
        },
        _ => (m, TableOutcome::Ignored),
    }
}

/// Reconciling with the rows: first occurrences are recorded; an enabled row
/// with the selected identity keeps the selection; otherwise the enabled row
/// nearest to the last selected index is selected; with no enabled row,
/// nothing is selected and the viewport returns to the top.
pub open spec fn reconcile_spec<'a, RowId, ColumnId>(
    m: TableModel<RowId, ColumnId>,
    rows: Seq<TableRow<'a, RowId>>,
) -> TableModel<RowId, ColumnId> {
    let m1 = TableModel { first_row_ids: Seq::new(rows.len(), |k: int| first_occurrence(rows, k)), ..m };
    let kept = match m.selected {
        Some(id) => find_enabled_from(rows, id, 0),
        None => None,
    };
    match kept {
        Some(index) => TableModel {
            previous_index: Some(index as usize),
            offset: reveal_spec(m1, index, rows.len() as int),
            ..m1
        },
        None => {
            let anchor = match m.previous_index {
                Some(a) => a as int,
                None => 0,
            };
            match nearest_enabled_from(rows, anchor, 0, None) {
                Some(index) => select_index_spec(m1, rows, index).0,
                None => TableModel { selected: None, offset: 0, ..m1 },
            }
        },
    }
}


/// The first header with identity `id`.
fn header_index<ColumnId: PartialEq>(hs: &Vec<TableHeaderRegion<ColumnId>>, id: &ColumnId) -> (r: Option<usize>)
    requires
        obeys_concrete_eq::<ColumnId>(),
    ensures
        opt_int(r) == header_index_from(hs@, *id, 0),
        r matches Some(k) ==> k < hs@.len(),
{
    let mut i: usize = 0;
    while i < hs.len()
        invariant
            i <= hs.len(),
            obeys_concrete_eq::<ColumnId>(),
            header_index_from(hs@, *id, 0) == header_index_from(hs@, *id, i as int),
        decreases hs.len() - i,
    {
        if same(&hs[i].id, id) {
            return Some(i);
        }
        i = i + 1;
    }
    None
}

/// The first sortable header.
fn first_sortable<ColumnId>(hs: &Vec<TableHeaderRegion<ColumnId>>) -> (r: Option<usize>)
    ensures
        opt_int(r) == sortable_from(hs@, 0),
        r matches Some(k) ==> k < hs@.len(),
{
    let mut i: usize = 0;
    while i < hs.len()
        invariant
            i <= hs.len(),
            sortable_from(hs@, 0) == sortable_from(hs@, i as int),
        decreases hs.len() - i,
    {
        if hs[i].sortable {
            return Some(i);
        }
        i = i + 1;
    }
    None
}

/// Whether a sortable header has identity `id`.
fn has_sortable_id<ColumnId: PartialEq>(hs: &Vec<TableHeaderRegion<ColumnId>>, id: &ColumnId) -> (r: bool)
    requires
        obeys_concrete_eq::<ColumnId>(),
    ensures
        r == sortable_with_id(hs@, *id),
{
    let mut i: usize = 0;
    while i < hs.len()
        invariant
            i <= hs.len(),
            obeys_concrete_eq::<ColumnId>(),
            forall|k: int| 0 <= k < i ==> !(#[trigger] hs@[k].sortable && hs@[k].id == *id),
        decreases hs.len() - i,
    {
        if hs[i].sortable && same(&hs[i].id, id) {
            return true;
        }
        i = i + 1;
    }
    false
}

/// The first header containing `p` (and sortable, when asked).
fn header_hit<ColumnId>(hs: &Vec<TableHeaderRegion<ColumnId>>, p: Position, sortable_only: bool) -> (r: Option<usize>)
    ensures
        opt_int(r) == header_hit_from(hs@, p, sortable_only, 0),
        r matches Some(k) ==> k < hs@.len(),
{
    let mut i: usize = 0;
    while i < hs.len()
        invariant
            i <= hs.len(),
            header_hit_from(hs@, p, sortable_only, 0) == header_hit_from(hs@, p, sortable_only, i as int),
        decreases hs.len() - i,
    {
        if (hs[i].sortable || !sortable_only) && hs[i].area.contains(p) {
            return Some(i);
        }
        i = i + 1;
    }
    None
}

/// The first painted row containing `p`.
fn row_hit<RowId>(rs: &Vec<TableRowRegion<RowId>>, p: Position) -> (r: Option<usize>)
    ensures
        opt_int(r) == row_hit_from(rs@, p, 0),
        r matches Some(k) ==> k < rs@.len(),
{
    let mut i: usize = 0;
    while i < rs.len()
        invariant
            i <= rs.len(),
            row_hit_from(rs@, p, 0) == row_hit_from(rs@, p, i as int),
        decreases rs.len() - i,
    {
        if rs[i].area.contains(p) {
            return Some(i);
        }
        i = i + 1;
    }
    None
}

/// Whether two optional identities are equal.
fn same_opt<T: PartialEq>(a: &Option<T>, b: &Option<T>) -> (r: bool)
    requires
        obeys_concrete_eq::<T>(),
    ensures
        r == (*a == *b),
{
    match (a, b) {
        (Some(x), Some(y)) => same(x, y),
        (None, None) => true,
        _ => false,
    }
}

/// `base + delta`, clamped to `0..=usize::MAX`.
fn add_signed(base: usize, delta: isize) -> (r: usize)
    ensures
        r == (if base + delta < 0 { 0 } else if base + delta > usize::MAX { usize::MAX as int } else { base + delta }),
{
    if delta >= 0 {
        base.saturating_add(delta as usize)
    } else {
        let magnitude: usize = ((-(delta + 1)) as usize) + 1;
        base.saturating_sub(magnitude)
    }
}

/// An optional borrowed value, read.
pub open spec fn read_opt<T>(o: Option<&T>) -> Option<T> {
    match o {
        Some(x) => Some(*x),
        None => None,
    }
}

impl<RowId, ColumnId> Default for TableState<RowId, ColumnId> {
    fn default() -> (s: Self)
        ensures
            s@ == table_new_spec::<RowId, ColumnId>(None),
    {
        TableState {
            selected: None,
            hovered: None,
            hovered_column: None,
            focused_column: None,
            cell_nav: false,
            pointer: None,
            offset: 0,
            h_offset: 0,
            viewport_rows: 0,
            content_width: 0,
            viewport_width: 0,
            previous_index: None,
            painted_area: Rect { x: 0, y: 0, width: 0, height: 0 },
            row_regions: Vec::new(),
            header_regions: Vec::new(),
            resolved_widths: Vec::new(),
            visible_columns: Vec::new(),
            first_row_ids: Vec::new(),
        }
    }
}

impl<RowId: Copy + PartialEq, ColumnId: Copy + PartialEq> TableState<RowId, ColumnId> {
    /// State with `selected` selected and nothing else.
    pub fn new(selected: Option<RowId>) -> (s: Self)
        ensures
            s@ == table_new_spec::<RowId, ColumnId>(selected),
    {
        let mut s = Self::default();
        s.selected = selected;
        s
    }

    /// The selected row identity.
    pub fn selected(&self) -> (r: Option<&RowId>)
        ensures
            read_opt(r) == self@.selected,
    {
        match &self.selected {
            Some(id) => Some(id),
            None => None,
        }
    }

    /// The hovered row identity.
    pub fn hovered(&self) -> (r: Option<&RowId>)
        ensures
            read_opt(r) == self@.hovered,
    {
        match &self.hovered {
            Some(id) => Some(id),
            None => None,
        }
    }

    /// The hovered header identity.
    pub fn hovered_column(&self) -> (r: Option<&ColumnId>)
        ensures
            read_opt(r) == self@.hovered_column,
    {
        match &self.hovered_column {
            Some(id) => Some(id),
            None => None,
        }
    }

    /// The column of the cell cursor.
    pub fn focused_column(&self) -> (r: Option<&ColumnId>)
        ensures
            read_opt(r) == self@.focused_column,
    {
        match &self.focused_column {
            Some(id) => Some(id),
            None => None,
        }
    }

    /// Places the cell cursor (row selection stays as it is).
    pub fn set_focused_column(&mut self, column: Option<ColumnId>)
        ensures
            final(self)@ == (TableModel { focused_column: column, ..old(self)@ }),
    {
        self.focused_column = column;
    }

    /// Whether Left and Right move a cell cursor.
    pub fn cell_nav(&self) -> (b: bool)
        ensures
            b == self@.cell_nav,
    {
        self.cell_nav
    }

    /// Turns cell navigation on or off.
    pub fn set_cell_nav(&mut self, on: bool)
        ensures
            final(self)@ == (TableModel { cell_nav: on, ..old(self)@ }),
    {
        self.cell_nav = on;
    }

    /// First body row shown.
    pub fn offset(&self) -> (o: usize)
        ensures
            o == self@.offset,
    {
        self.offset
    }

    /// Horizontal content offset.
    pub fn h_offset(&self) -> (o: u16)
        ensures
            o == self@.h_offset,
    {
        self.h_offset
    }

    /// Sets the horizontal content offset (the next layout clamps it).
    pub fn set_h_offset(&mut self, offset: u16)
        ensures
            final(self)@ == (TableModel { h_offset: offset, ..old(self)@ }),
    {
        self.h_offset = offset;
    }

    /// Columns kept by the last layout, in declaration order.
    pub fn visible_column_indices(&self) -> (v: &[usize])
        ensures
            v@ == self@.visible_columns,
    {
        self.visible_columns.as_slice()
    }

    /// Scrolls the content `delta` columns; returns whether the offset moved.
    pub fn scroll_horizontal(&mut self, delta: i16) -> (changed: bool)
        requires
            delta > i16::MIN,
        ensures
            final(self)@ == (TableModel { h_offset: h_scroll_spec(old(self)@, delta as int), ..old(self)@ }),
            changed == (h_scroll_spec(old(self)@, delta as int) != old(self)@.h_offset),
    {
        let max: u16 = if self.content_width > self.viewport_width { self.content_width - self.viewport_width } else { 0 };
        let next: u16 = if delta >= 0 {
            let t = self.h_offset.saturating_add(delta as u16);
            if t < max { t } else { max }
        } else {
            self.h_offset.saturating_sub((-delta) as u16)
        };
        let changed = next != self.h_offset;
        self.h_offset = next;
        changed
    }

    /// Scrolls the body `delta` rows of `row_count`; returns whether the
    /// offset moved.
    pub fn scroll_by(&mut self, delta: isize, row_count: usize) -> (changed: bool)
        ensures
            final(self)@ == (TableModel { offset: scroll_spec(old(self)@, delta as int, row_count as int), ..old(self)@ }),
            changed == (scroll_spec(old(self)@, delta as int, row_count as int) != old(self)@.offset),
    {
        let maximum: usize = if row_count > self.viewport_rows { row_count - self.viewport_rows } else { 0 };
        let t = add_signed(self.offset, delta);
        let next = if t < maximum { t } else { maximum };
        let changed = next != self.offset;
        self.offset = next;
        changed
    }

    /// Moves the offset so that row `index` is shown.
    fn scroll_to_show(&mut self, index: usize, row_count: usize)
        ensures
            final(self)@ == (TableModel { offset: reveal_spec(old(self)@, index as int, row_count as int), ..old(self)@ }),
    {
        if self.viewport_rows == 0 {
            return;
        }
        let mut o = self.offset;
        if index < o {
            o = index;
        } else if index - o >= self.viewport_rows {
            o = index - (self.viewport_rows - 1);
        }
        let cap: usize = if row_count > self.viewport_rows { row_count - self.viewport_rows } else { 0 };
        if o >= cap {
            o = cap;
        }
        self.offset = o;
    }

    /// Selects row `index`.
    fn select_index(&mut self, rows: &[TableRow<'_, RowId>], index: usize) -> (r: TableOutcome<RowId, ColumnId>)
        requires
            index < rows@.len(),
        ensures
            (final(self)@, r) == select_index_spec(old(self)@, rows@, index as int),
    {
        let id = rows[index].id;
        self.selected = Some(id);
        self.previous_index = Some(index);
        self.scroll_to_show(index, rows.len());
        TableOutcome::Selected(id)
    }

    /// Moves the selection `delta` enabled rows.
    fn move_by(&mut self, rows: &[TableRow<'_, RowId>], delta: isize, wrap: bool) -> (r: TableOutcome<RowId, ColumnId>)
        requires
            obeys_concrete_eq::<RowId>(),
        ensures
            (final(self)@, r) == move_by_spec(old(self)@, rows@, delta as int, wrap),
    {
        let n = count_enabled(rows);
        if n == 0 {
            return TableOutcome::Ignored;
        }
        let current: usize = match &self.selected {
            Some(id) => match enabled_rank(rows, id) {
                Some(r) => r,
                None => 0,
            },
            None => 0,
        };
        let next: usize = if wrap && delta == -1 && current == 0 {
            n - 1
        } else if wrap && delta == 1 && current == n - 1 {
            0
        } else {
            let t = add_signed(current, delta);
            if t < n - 1 { t } else { n - 1 }
        };
        let index = nth_enabled(rows, next);
        proof {
            lemma_nth_in_range(rows@, next as int, 0);
        }
        self.select_index(rows, index)
    }

    /// Selects the first (or last) enabled row.
    fn select_edge(&mut self, rows: &[TableRow<'_, RowId>], last: bool) -> (r: TableOutcome<RowId, ColumnId>)
        ensures
            (final(self)@, r) == select_edge_spec(old(self)@, rows@, last),
    {
        let target = if last { last_enabled(rows) } else { first_enabled(rows) };
        match target {
            Some(index) => self.select_index(rows, index),
            None => TableOutcome::Ignored,
        }
    }

    /// Moves the cell cursor one header, or scrolls at the edge.
    fn move_cell_focus(&mut self, delta: i16)
        requires
            delta == 1 || delta == -1,
            obeys_concrete_eq::<ColumnId>(),
        ensures
            final(self)@ == cell_move_spec(old(self)@, delta as int),
    {
        let n = self.header_regions.len();
        if n == 0 {
            return;
        }
        let current = match &self.focused_column {
            Some(id) => header_index(&self.header_regions, id),
            None => None,
        };
        let next: usize = match current {
            Some(i) => if delta < 0 {
                if i > 0 { i - 1 } else { 0 }
            } else if i + 1 < n - 1 {
                i + 1
            } else {
                n - 1
            },
            None => if delta < 0 { n - 1 } else { 0 },
        };
        let id = self.header_regions[next].id;
        let at_edge = match &self.focused_column {
            Some(f) => same(f, &id),
            None => false,
        };
        if at_edge {
            let _ = self.scroll_horizontal(delta);
            return;
        }
        self.focused_column = Some(id);
    }

    /// Left or Right.
    fn horizontal_nav(&mut self, rows: &[TableRow<'_, RowId>], delta: i16)
        requires
            delta == 1 || delta == -1,
            obeys_concrete_eq::<RowId>(),
            obeys_concrete_eq::<ColumnId>(),
        ensures
            final(self)@ == horizontal_spec(old(self)@, rows@, delta as int),
    {
        let present = match &self.selected {
            Some(id) => find_enabled(rows, id).is_some(),
            None => false,
        };
        let can_cell = self.cell_nav && self.header_regions.len() > 0 && present;
        if can_cell && (self.focused_column.is_some() || self.content_width <= self.viewport_width) {
            self.move_cell_focus(delta);
            return;
        }
        if self.scroll_horizontal(delta) {
            return;
        }
        if can_cell {
            self.move_cell_focus(delta);
        }
    }

    /// The sort request of the `s` key.
    fn sort_from_cursor(&self) -> (r: TableOutcome<RowId, ColumnId>)
        requires
            obeys_concrete_eq::<ColumnId>(),
        ensures
            r == sort_spec(self@),
    {
        if let Some(id) = &self.focused_column {
            if has_sortable_id(&self.header_regions, id) {
                return TableOutcome::SortRequested(*id);
            }
        }
        match first_sortable(&self.header_regions) {
            Some(k) => TableOutcome::SortRequested(self.header_regions[k].id),
            None => TableOutcome::Ignored,
        }
    }

    /// Applies a semantic intent.
    pub fn handle_intent(&mut self, rows: &[TableRow<'_, RowId>], intent: UiIntent) -> (r: TableOutcome<RowId, ColumnId>)
        requires
            obeys_concrete_eq::<RowId>(),
            obeys_concrete_eq::<ColumnId>(),
        ensures
            (final(self)@, r) == intent_spec(old(self)@, rows@, intent),
    {
        match intent {
            UiIntent::Move(NavigationMove::Previous) | UiIntent::Move(NavigationMove::Up) => self.move_by(rows, -1, true),
            UiIntent::Move(NavigationMove::Next) | UiIntent::Move(NavigationMove::Down) => self.move_by(rows, 1, true),
            UiIntent::Move(NavigationMove::First) => self.select_edge(rows, false),
            UiIntent::Move(NavigationMove::Last) => self.select_edge(rows, true),
            UiIntent::Move(NavigationMove::Left) | UiIntent::Collapse => {
                self.horizontal_nav(rows, -1);
                TableOutcome::Ignored
            },
            UiIntent::Move(NavigationMove::Right) | UiIntent::Expand => {
                self.horizontal_nav(rows, 1);
                TableOutcome::Ignored
            },
            UiIntent::Page(PageMove::Backward) => {
                let page = self.page();
                self.move_by(rows, -page, false)
            },
            UiIntent::Page(PageMove::Forward) => {
                let page = self.page();
                self.move_by(rows, page, false)
            },
            UiIntent::Activate | UiIntent::Open | UiIntent::Submit => match &self.selected {
                Some(id) => if find_enabled(rows, id).is_some() {
                    TableOutcome::Activated(*id)
                } else {
                    TableOutcome::Ignored
                },
                None => TableOutcome::Ignored,
            },
            UiIntent::Cancel | UiIntent::Close => TableOutcome::Cancelled,
            UiIntent::Toggle => TableOutcome::Ignored,
        }
    }

    /// Rows in one page.
    fn page(&self) -> (p: isize)
        ensures
            p == page_rows(self@),
            p >= 1,
    {
        if self.viewport_rows == 0 {
            1
        } else if self.viewport_rows > (isize::MAX as usize) {
            isize::MAX
        } else {
            self.viewport_rows as isize
        }
    }

    /// Handles a key: releases and modified keys are ignored; the table key
    /// map applies, `s` requests sorting, and activation needs a press.
    pub fn handle_key(&mut self, rows: &[TableRow<'_, RowId>], key: KeyEvent) -> (r: TableOutcome<RowId, ColumnId>)
        requires
            obeys_concrete_eq::<RowId>(),
            obeys_concrete_eq::<ColumnId>(),
        ensures
            (final(self)@, r) == key_spec(old(self)@, rows@, key),
    {
        if key.is_release() {
            return TableOutcome::Ignored;
        }
        match key.modifiers {
            KeyModifiers::NONE => {},
            _ => return TableOutcome::Ignored,
        }
        match default_table_intent(key) {
            None => {
                let is_s = match key.code {
                    KeyCode::Char(c) => c == 's',
                    _ => false,
                };
                if key.is_press() && is_s {
                    self.sort_from_cursor()
                } else {
                    TableOutcome::Ignored
                }
            },
            Some(intent) => {
                let activate = match intent {
                    UiIntent::Activate => true,
                    _ => false,
                };
                if activate && !key.is_press() {
                    TableOutcome::Ignored
                } else {
                    self.handle_intent(rows, intent)
                }
            },
        }
    }

    /// Hover at `p`; returns whether the hovered row or header changed.
    pub fn hover(&mut self, p: Position) -> (changed: bool)
        requires
            obeys_concrete_eq::<RowId>(),
            obeys_concrete_eq::<ColumnId>(),
        ensures
            final(self)@ == hover_spec(old(self)@, p),
            changed == (row_under(old(self)@, p) != old(self)@.hovered
                || header_under(old(self)@, p) != old(self)@.hovered_column),
    {
        self.pointer = Some(p);
        let row = match row_hit(&self.row_regions, p) {
            Some(k) => Some(self.row_regions[k].id),
            None => None,
        };
        let column = match header_hit(&self.header_regions, p, false) {
            Some(k) => Some(self.header_regions[k].id),
            None => None,
        };
        let changed = !same_opt(&row, &self.hovered) || !same_opt(&column, &self.hovered_column);
        self.hovered = row;
        self.hovered_column = column;
        changed
    }

    /// A primary click at `p`.
    pub fn click(&mut self, p: Position) -> (r: TableOutcome<RowId, ColumnId>)
        ensures
            (final(self)@, r) == click_spec(old(self)@, p),
    {
        self.pointer = Some(p);
        if let Some(k) = header_hit(&self.header_regions, p, true) {
            return TableOutcome::SortRequested(self.header_regions[k].id);
        }
        if let Some(k) = row_hit(&self.row_regions, p) {
            let id = self.row_regions[k].id;
            self.selected = Some(id);
            self.previous_index = Some(self.row_regions[k].index);
            return TableOutcome::Selected(id);
        }
        TableOutcome::Ignored
    }

    /// Routes pointer motion, primary presses and the wheel.
    pub fn handle_mouse(&mut self, event: MouseEvent, row_count: usize) -> (r: TableOutcome<RowId, ColumnId>)
        requires
            obeys_concrete_eq::<RowId>(),
            obeys_concrete_eq::<ColumnId>(),
        ensures
            (final(self)@, r) == mouse_spec(old(self)@, event, row_count as int),
    {
        match event.kind {
            MouseEventKind::Moved => {
                let _ = self.hover(event.position);
                TableOutcome::Ignored
            },
            MouseEventKind::Down(MouseButton::Left) => self.click(event.position),
            MouseEventKind::ScrollUp => {
                if self.painted_area.contains(event.position) {
                    let _ = self.scroll_by(-1, row_count);
                }
                TableOutcome::Ignored
            },
            MouseEventKind::ScrollDown => {
                if self.painted_area.contains(event.position) {
                    let _ = self.scroll_by(1, row_count);
                }
                TableOutcome::Ignored
            },
            _ => TableOutcome::Ignored,
        }
    }

    /// Reconciles the selection with the rows after they were sorted,
    /// filtered or replaced.
    pub fn reconcile(&mut self, rows: &[TableRow<'_, RowId>])
        requires
            obeys_concrete_eq::<RowId>(),
        ensures
            final(self)@ == reconcile_spec(old(self)@, rows@),
    {
        let firsts = first_occurrences(rows);
        proof {
            assert(firsts@ =~= Seq::new(rows@.len(), |k: int| first_occurrence(rows@, k)));
        }
        self.first_row_ids = firsts;
        let kept = match &self.selected {
            Some(id) => find_enabled(rows, id),
            None => None,
        };
        if let Some(index) = kept {
            self.previous_index = Some(index);
            self.scroll_to_show(index, rows.len());
            return;
        }
        let anchor: usize = match self.previous_index {
            Some(a) => a,
            None => 0,
        };
        match nearest_enabled(rows, anchor) {
            Some(index) => {
                let _ = self.select_index(rows, index);
            },
            None => {
                self.selected = None;
                self.offset = 0;
            },
        }
    }
}

/// The `n`-th enabled row lies within the rows when there are any.
proof fn lemma_nth_in_range<'a, Id>(rows: Seq<TableRow<'a, Id>>, n: int, i: int)
    requires
        rows.len() > 0,
    ensures
        0 <= nth_enabled_from(rows, n, i) < rows.len(),
    decreases rows.len() - i,
{
    if i >= 0 && i < rows.len() {
        if !(rows[i].enabled && n == 0) {
            if rows[i].enabled {
                lemma_nth_in_range(rows, n - 1, i + 1);
            } else {
                lemma_nth_in_range(rows, n, i + 1);
            }
        }
    }
}


// ── Layout record ───────────────────────────────────────────────────────────

/// Header rows of a table `height` rows tall: none unless the header is
/// sticky; two for a bordered recipe with room for them, else one.
pub open spec fn header_rows(sticky_header: bool, bordered: bool, height: int) -> int {
    if !sticky_header {
        0
    } else if bordered && height >= 2 {
        2
    } else if height >= 1 {
        1
    } else {
        0
    }
}

/// Columns left for cells in an area `area_width` wide: the row gutter, a
/// scrollbar column when shown and the trailing overflow cells come off,
/// keeping at least one column at each step.
pub open spec fn column_budget(area_width: int, scrollbar: bool) -> int {
    let inner0 = sat_sub(sat_sub(area_width, 3), if scrollbar { 1 } else { 0 });
    let inner = if inner0 < 1 { 1 } else { inner0 };
    let chrome = sat_sub(inner, 2);
    if chrome < 1 { 1 } else { chrome }
}

/// Saturating sum of the widths of the first `k` visible columns (a column
/// without a width counts zero).
pub open spec fn visible_width_sum(visible: Seq<usize>, widths: Seq<u16>, k: int) -> int
    decreases k,
{
    if k <= 0 {
        0
    } else {
        let i = visible[k - 1] as int;
        sat_add(visible_width_sum(visible, widths, k - 1), if i < widths.len() { widths[i] as int } else { 0 })
    }
}

/// Painted content width: visible column widths plus the gaps between
/// them, saturating.
pub open spec fn content_width_spec(visible: Seq<usize>, widths: Seq<u16>, gap: int) -> int {
    if visible.len() == 0 {
        0
    } else {
        let g = if visible.len() - 1 <= u16::MAX { visible.len() - 1 } else { 0 };
        let gaps = if gap * g > u16::MAX { u16::MAX as int } else { gap * g };
        sat_add(visible_width_sum(visible, widths, visible.len() as int), gaps)
    }
}

/// The cell cursor after a layout: in cell navigation with no cursor yet, it
/// starts on the first visible column.
pub open spec fn seeded_cursor<RowId, ColumnId>(
    m: TableModel<RowId, ColumnId>,
    column_ids: Seq<ColumnId>,
    visible: Seq<usize>,
) -> Option<ColumnId> {
    if m.cell_nav && m.focused_column is None && column_ids.len() > 0 {
        let idx = if visible.len() > 0 && (visible[0] as int) < column_ids.len() { visible[0] as int } else { 0 };
        Some(column_ids[idx])
    } else {
        m.focused_column
    }
}

/// Saturating content width of the visible columns with their gaps.
fn content_width(visible: &Vec<usize>, widths: &Vec<u16>, gap: u16) -> (w: u16)
    ensures
        w == content_width_spec(visible@, widths@, gap as int),
{
    if visible.len() == 0 {
        return 0;
    }
    let mut cols: u16 = 0;
    let mut k: usize = 0;
    while k < visible.len()
        invariant
            k <= visible.len(),
            cols == visible_width_sum(visible@, widths@, k as int),
        decreases visible.len() - k,
    {
        let i = visible[k];
        let w: u16 = if i < widths.len() { widths[i] } else { 0 };
        cols = cols.saturating_add(w);
        k = k + 1;
    }
    let g: u16 = if visible.len() - 1 <= 65535 { (visible.len() - 1) as u16 } else { 0 };
    assert((gap as int) * (g as int) <= 65535 * 65535) by (nonlinear_arith)
        requires
            gap <= 65535,
            g <= 65535,
    ;
    let product: u32 = (gap as u32) * (g as u32);
    let gaps: u16 = if product > 65535 { 65535 } else { product as u16 };
    cols.saturating_add(gaps)
}

impl<RowId: Copy + PartialEq, ColumnId: Copy + PartialEq> TableState<RowId, ColumnId> {
    /// Records the layout of a paint into `area`: painted regions are
    /// cleared until [`TableState::record_paint`] refills them, the viewport and column budget
    /// follow the area, columns are resolved by width policy and priority,
    /// offsets are clamped to what can scroll, and in cell navigation the
    /// cursor is seeded on the first visible column.
    pub fn layout(
        &mut self,
        rows: &[TableRow<'_, RowId>],
        area: Rect,
        sticky_header: bool,
        bordered: bool,
        column_ids: &[ColumnId],
        policies: &[ColumnWidth],
        priorities: &[u8],
        gap: u16,
    )
        requires
            obeys_concrete_eq::<RowId>(),
        ensures
            ({
                let m = old(self)@;
                let f = final(self)@;
                let vr = sat_sub(area.height as int, header_rows(sticky_header, bordered, area.height as int));
                let page = if vr < 1 { 1 } else { vr };
                let chrome = column_budget(area.width as int, rows@.len() > page);
                let cw = content_width_spec(f.visible_columns, f.resolved_widths, gap as int);
                let max_offset = sat_sub_usize(rows@.len() as int, vr);
                let max_h = sat_sub(cw, chrome);
                &&& f.resolved_widths.map_values(|x: u16| x as int)
                    == layout_widths(policies@, priorities@, chrome, gap as int)
                &&& f == TableModel {
                    painted_area: area,
                    viewport_rows: vr as usize,
                    offset: (if m.offset < max_offset { m.offset as int } else { max_offset }) as usize,
                    visible_columns: layout_visible(policies@, priorities@, chrome, gap as int),
                    resolved_widths: f.resolved_widths,
                    viewport_width: chrome as u16,
                    content_width: cw as u16,
                    h_offset: (if m.h_offset < max_h { m.h_offset as int } else { max_h }) as u16,
                    focused_column: seeded_cursor(m, column_ids@, f.visible_columns),
                    row_regions: Seq::empty(),
                    header_regions: Seq::empty(),
                    first_row_ids: Seq::new(rows@.len(), |k: int| first_occurrence(rows@, k)),
                    ..m
                }
            }),
    {
        self.row_regions = Vec::new();
        self.header_regions = Vec::new();
        self.painted_area = area;
        let firsts = first_occurrences(rows);
        proof {
            assert(firsts@ =~= Seq::new(rows@.len(), |k: int| first_occurrence(rows@, k)));
        }
        self.first_row_ids = firsts;
        let header_h: u16 = if !sticky_header {
            0
        } else if bordered && area.height >= 2 {
            2
        } else if area.height >= 1 {
            1
        } else {
            0
        };
        let vr: usize = (area.height - header_h) as usize;
        self.viewport_rows = vr;
        let max_offset: usize = if rows.len() > vr { rows.len() - vr } else { 0 };
        if self.offset >= max_offset {
            self.offset = max_offset;
        }
        let page: usize = if vr < 1 { 1 } else { vr };
        let scrollbar: u16 = if rows.len() > page { 1 } else { 0 };
        let inner0 = area.width.saturating_sub(3).saturating_sub(scrollbar);
        let inner: u16 = if inner0 < 1 { 1 } else { inner0 };
        let chrome0 = inner.saturating_sub(2);
        let chrome: u16 = if chrome0 < 1 { 1 } else { chrome0 };
        let mut widths: Vec<u16> = Vec::new();
        let mut visible: Vec<usize> = Vec::new();
        let mut scratch: Vec<u16> = Vec::new();
        let mut scratch_policies: Vec<ColumnWidth> = Vec::new();
        resolve_layout_into(policies, priorities, chrome, gap, &mut widths, &mut visible, &mut scratch, &mut scratch_policies);
        let cw = content_width(&visible, &widths, gap);
        self.resolved_widths = widths;
        self.visible_columns = visible;
        self.viewport_width = chrome;
        self.content_width = cw;
        let max_h: u16 = if cw > chrome { cw - chrome } else { 0 };
        if self.h_offset >= max_h {
            self.h_offset = max_h;
        }
        if self.cell_nav && self.focused_column.is_none() && column_ids.len() > 0 {
            let idx: usize = if self.visible_columns.len() > 0 && self.visible_columns[0] < column_ids.len() {
                self.visible_columns[0]
            } else {
                0
            };
            self.focused_column = Some(column_ids[idx]);
        }
    }
}


// ── Laws ────────────────────────────────────────────────────────────────────

/// Enabled rows from row `i` on.
pub open spec fn enabled_after<'a, Id>(rows: Seq<TableRow<'a, Id>>, i: int) -> int
    decreases rows.len() - i,
{
    if i < 0 || i >= rows.len() {
        0
    } else {
        (if rows[i].enabled { 1int } else { 0 }) + enabled_after(rows, i + 1)
    }
}

proof fn lemma_enabled_split<'a, Id>(rows: Seq<TableRow<'a, Id>>, i: int)
    requires
        0 <= i <= rows.len(),
    ensures
        enabled_count(rows, i) + enabled_after(rows, i) == enabled_total(rows),
        enabled_after(rows, i) >= 0,
    decreases rows.len() - i,
{
    if i < rows.len() {
        lemma_enabled_split(rows, i + 1);
    }
}

proof fn lemma_nth_enabled<'a, Id>(rows: Seq<TableRow<'a, Id>>, n: int, i: int)
    requires
        0 <= i,
        0 <= n < enabled_after(rows, i),
    ensures
        i <= nth_enabled_from(rows, n, i) < rows.len(),
        rows[nth_enabled_from(rows, n, i)].enabled,
    decreases rows.len() - i,
{
    if rows[i].enabled {
        if n > 0 {
            lemma_nth_enabled(rows, n - 1, i + 1);
        }
    } else {
        lemma_nth_enabled(rows, n, i + 1);
    }
}

proof fn lemma_first_enabled<'a, Id>(rows: Seq<TableRow<'a, Id>>, i: int)
    requires
        0 <= i,
    ensures
        first_enabled_from(rows, i) matches Some(k) ==> i <= k < rows.len() && rows[k].enabled,
    decreases rows.len() - i,
{
    if i < rows.len() && !rows[i].enabled {
        lemma_first_enabled(rows, i + 1);
    }
}

proof fn lemma_last_enabled<'a, Id>(rows: Seq<TableRow<'a, Id>>, k: int)
    ensures
        last_enabled_before(rows, k) matches Some(j) ==> 0 <= j < k <= rows.len() && rows[j].enabled,
    decreases k,
{
    if k > 0 && k <= rows.len() && !rows[k - 1].enabled {
        lemma_last_enabled(rows, k - 1);
    }
}

proof fn lemma_find_enabled<'a, Id>(rows: Seq<TableRow<'a, Id>>, id: Id, i: int)
    requires
        0 <= i,
    ensures
        find_enabled_from(rows, id, i) matches Some(k) ==> i <= k < rows.len() && rows[k].enabled && rows[k].id == id,
        find_enabled_from(rows, id, i) is None ==> forall|k: int| i <= k < rows.len() ==> !(rows[k].enabled && rows[k].id == id),
    decreases rows.len() - i,
{
    if i < rows.len() && !(rows[i].enabled && rows[i].id == id) {
        lemma_find_enabled(rows, id, i + 1);
    }
}

proof fn lemma_nearest_enabled<'a, Id>(rows: Seq<TableRow<'a, Id>>, anchor: int, i: int, best: Option<int>)
    requires
        0 <= i,
        best matches Some(b) ==> 0 <= b < rows.len() && rows[b].enabled,
    ensures
        nearest_enabled_from(rows, anchor, i, best) matches Some(k) ==> 0 <= k < rows.len() && rows[k].enabled,
        nearest_enabled_from(rows, anchor, i, best) is None ==> best is None
            && forall|k: int| i <= k < rows.len() ==> !rows[k].enabled,
    decreases rows.len() - i,
{
    if i < rows.len() {
        let better = rows[i].enabled && match best {
            Some(b) => index_distance(i, anchor) < index_distance(b, anchor),
            None => true,
        };
        lemma_nearest_enabled(rows, anchor, i + 1, if better { Some(i) } else { best });
    }
}

proof fn lemma_nearest_is_nearest<'a, Id>(rows: Seq<TableRow<'a, Id>>, anchor: int, i: int, best: Option<int>)
    requires
        0 <= i,
    ensures
        nearest_enabled_from(rows, anchor, i, best) matches Some(r) ==> {
            &&& forall|k: int| i <= k < rows.len() && #[trigger] rows[k].enabled ==> index_distance(r, anchor) <= index_distance(k, anchor)
            &&& (best matches Some(b) ==> index_distance(r, anchor) <= index_distance(b, anchor))
        },
    decreases rows.len() - i,
{
    if i < rows.len() {
        let better = rows[i].enabled && match best {
            Some(b) => index_distance(i, anchor) < index_distance(b, anchor),
            None => true,
        };
        lemma_nearest_is_nearest(rows, anchor, i + 1, if better { Some(i) } else { best });
    }
}

proof fn lemma_reveal_shows<RowId, ColumnId>(m: TableModel<RowId, ColumnId>, index: int, row_count: int)
    requires
        m.viewport_rows > 0,
        0 <= index < row_count <= usize::MAX,
    ensures
        reveal_spec(m, index, row_count) <= index < reveal_spec(m, index, row_count) + m.viewport_rows,
{
}

/// Selecting a row by index keeps the model's record of it and shows it
/// in a non-empty viewport.
proof fn lemma_select_index<'a, RowId, ColumnId>(m: TableModel<RowId, ColumnId>, rows: Seq<TableRow<'a, RowId>>, index: int)
    requires
        0 <= index < rows.len() <= usize::MAX,
    ensures
        select_index_spec(m, rows, index).0.previous_index == Some(index as usize),
        select_index_spec(m, rows, index).0.viewport_rows == m.viewport_rows,
        m.viewport_rows > 0 ==> select_index_spec(m, rows, index).0.offset <= index
            < select_index_spec(m, rows, index).0.offset + m.viewport_rows,
{
    if m.viewport_rows > 0 {
        lemma_reveal_shows(m, index, rows.len() as int);
    }
}

/// `r` answers `Selected(id)` only with `f` selecting `id` and remembering
/// an enabled row of that identity, shown when the viewport has rows.
pub open spec fn selects_enabled_in_view<'a, RowId, ColumnId>(
    m: TableModel<RowId, ColumnId>,
    rows: Seq<TableRow<'a, RowId>>,
    f: TableModel<RowId, ColumnId>,
    r: TableOutcome<RowId, ColumnId>,
) -> bool {
    r matches TableOutcome::Selected(id) ==> {
        &&& f.selected == Some(id)
        &&& f.previous_index is Some
        &&& (f.previous_index.unwrap() as int) < rows.len()
        &&& rows[f.previous_index.unwrap() as int].enabled
        &&& rows[f.previous_index.unwrap() as int].id == id
        &&& (m.viewport_rows > 0 ==> f.offset <= f.previous_index.unwrap() < f.offset + f.viewport_rows)
    }
}

proof fn lemma_select_enabled<'a, RowId, ColumnId>(m: TableModel<RowId, ColumnId>, rows: Seq<TableRow<'a, RowId>>, index: int)
    requires
        0 <= index < rows.len() <= usize::MAX,
        rows[index].enabled,
    ensures
        selects_enabled_in_view(m, rows, select_index_spec(m, rows, index).0, select_index_spec(m, rows, index).1),
{
    lemma_select_index(m, rows, index);
}

proof fn lemma_move_selects_enabled<'a, RowId, ColumnId>(m: TableModel<RowId, ColumnId>, rows: Seq<TableRow<'a, RowId>>, delta: int, wrap: bool)
    requires
        rows.len() <= usize::MAX,
    ensures
        selects_enabled_in_view(m, rows, move_by_spec(m, rows, delta, wrap).0, move_by_spec(m, rows, delta, wrap).1),
{
    lemma_enabled_split(rows, 0);
    let n = enabled_total(rows);
    if n > 0 {
        let next = move_rank(current_rank(rows, m.selected), n, delta, wrap);
        lemma_nth_enabled(rows, next, 0);
        lemma_select_enabled(m, rows, nth_enabled_from(rows, next, 0));
    }
}

proof fn lemma_edge_selects_enabled<'a, RowId, ColumnId>(m: TableModel<RowId, ColumnId>, rows: Seq<TableRow<'a, RowId>>, last: bool)
    requires
        rows.len() <= usize::MAX,
    ensures
        selects_enabled_in_view(m, rows, select_edge_spec(m, rows, last).0, select_edge_spec(m, rows, last).1),
{
    if last {
        lemma_last_enabled(rows, rows.len() as int);
        if let Some(k) = last_enabled_before(rows, rows.len() as int) {
            lemma_select_enabled(m, rows, k);
        }
    } else {
        lemma_first_enabled(rows, 0);
        if let Some(k) = first_enabled_from(rows, 0) {
            lemma_select_enabled(m, rows, k);
        }
    }
}

/// Keyboard and semantic navigation select only enabled rows: whenever an
/// intent answers `Selected(id)`, the selection is `id`, the remembered
/// index is an enabled row with that identity, and a viewport of at least
/// one row shows it.
pub proof fn law_navigation_selects_enabled_rows_in_view<'a, RowId, ColumnId>(
    m: TableModel<RowId, ColumnId>,
    rows: Seq<TableRow<'a, RowId>>,
    intent: UiIntent,
)
    requires
        rows.len() <= usize::MAX,
    ensures
        selects_enabled_in_view(m, rows, intent_spec(m, rows, intent).0, intent_spec(m, rows, intent).1),
{
    match intent {
        UiIntent::Move(NavigationMove::First) => lemma_edge_selects_enabled(m, rows, false),
        UiIntent::Move(NavigationMove::Last) => lemma_edge_selects_enabled(m, rows, true),
        UiIntent::Move(NavigationMove::Previous) | UiIntent::Move(NavigationMove::Up) => lemma_move_selects_enabled(m, rows, -1, true),
        UiIntent::Move(NavigationMove::Next) | UiIntent::Move(NavigationMove::Down) => lemma_move_selects_enabled(m, rows, 1, true),
        UiIntent::Page(PageMove::Backward) => lemma_move_selects_enabled(m, rows, -page_rows(m), false),
        UiIntent::Page(PageMove::Forward) => lemma_move_selects_enabled(m, rows, page_rows(m), false),
        _ => {},
    }
}

/// Reconciling keeps a selection whose row is still present and enabled;
/// otherwise it selects the enabled row nearest to the last selected index,
/// and it leaves nothing selected only when no row is enabled. The selected
/// row is shown in a viewport of at least one row.
pub proof fn law_reconcile_selects_an_enabled_row<'a, RowId, ColumnId>(
    m: TableModel<RowId, ColumnId>,
    rows: Seq<TableRow<'a, RowId>>,
)
    requires
        rows.len() <= usize::MAX,
    ensures
        ({
            let f = reconcile_spec(m, rows);
            &&& (m.selected matches Some(id) && find_enabled_from(rows, id, 0) is Some) ==> f.selected == m.selected
            &&& f.selected matches Some(id) ==> f.previous_index matches Some(i) && {
                &&& (i as int) < rows.len()
                &&& rows[i as int].enabled
                &&& rows[i as int].id == id
                &&& (m.viewport_rows > 0 ==> f.offset <= i < f.offset + f.viewport_rows)
            }
            &&& f.selected is None ==> forall|k: int| 0 <= k < rows.len() ==> !rows[k].enabled
            &&& !(m.selected matches Some(id) && find_enabled_from(rows, id, 0) is Some) ==> (f.previous_index matches Some(i) ==>
                forall|k: int| 0 <= k < rows.len() && #[trigger] rows[k].enabled
                    ==> index_distance(i as int, match m.previous_index { Some(a) => a as int, None => 0 })
                        <= index_distance(k, match m.previous_index { Some(a) => a as int, None => 0 }))
        }),
{
    let m1 = TableModel { first_row_ids: Seq::new(rows.len(), |k: int| first_occurrence(rows, k)), ..m };
    match m.selected {
        Some(id) => {
            lemma_find_enabled(rows, id, 0);
            if let Some(index) = find_enabled_from(rows, id, 0) {
                if m.viewport_rows > 0 {
                    lemma_reveal_shows(m1, index, rows.len() as int);
                }
                return;
            }
        },
        None => {},
    }
    let anchor = match m.previous_index {
        Some(a) => a as int,
        None => 0,
    };
    lemma_nearest_enabled(rows, anchor, 0, None);
    lemma_nearest_is_nearest(rows, anchor, 0, None);
    if let Some(index) = nearest_enabled_from(rows, anchor, 0, None) {
        lemma_select_index(m1, rows, index);
    }
}


// ── Paint record ────────────────────────────────────────────────────────────

/// One header cell a paint draws.
#[derive(Debug, Clone, Copy, PartialEq, Eq)]
pub struct HeaderCell {
    /// Declared column index.
    pub column: usize,
    /// First painted cell.
    pub x: u16,
    /// Painted cells.
    pub width: u16,
    /// Whether the column starts in view, so its title is drawn.
    pub title: bool,
    /// Whether the column ends in view, so its suffix is drawn.
    pub suffix: bool,
    /// Whether this header shows the table's sort direction.
    pub sort: bool,
}

/// One body row a paint draws.
#[derive(Debug, Clone, Copy, PartialEq, Eq)]
pub struct PaintedRow {
    /// Row index in the projection.
    pub index: usize,
    /// Screen row.
    pub y: u16,
    /// Whether the row paints as the selection.
    pub selected: bool,
    /// Whether the pointer is over the (enabled) row.
    pub hovered: bool,
    /// Whether the row takes the alternate stripe.
    pub striped: bool,
    /// Where the row's leading mark, cells and badge go.
    pub span: RowSpan,
}

/// Where one body row puts its parts: the leading mark after the row
/// gutter, then one blank, then the cells up to `cells_right`, and the
/// badge flush right.
#[derive(Debug, Clone, Copy, PartialEq, Eq)]
pub struct RowSpan {
    /// First column of the cells.
    pub cells_x: u16,
    /// Column past the last cell.
    pub cells_right: u16,
    /// Column and cells of the leading mark, when it shows.
    pub leading: Option<(u16, u16)>,
    /// Column and cells of the badge, when it shows.
    pub badge: Option<(u16, u16)>,
}

/// The smaller of two integers.
pub open spec fn min_int(a: int, b: int) -> int {
    if a < b { a } else { b }
}

/// Where a row in `area` puts its parts, with `budget` columns for cells,
/// a leading mark `leading` cells wide and a badge `badge` cells wide (each
/// when shown): the mark starts after the three-cell gutter and takes what
/// is left of the row, the cells start one blank after it; the badge keeps
/// its width and one blank off the cells' right edge, which is also held to
/// the gutter plus the budget, and paints flush right.
pub open spec fn row_span_spec(area: Rect, budget: int, leading: Option<u16>, badge: Option<u16>) -> RowSpan {
    let right = sat_add(area.x as int, area.width as int);
    let base = sat_add(area.x as int, 3);
    let lw = match leading {
        Some(w) => min_int(w as int, sat_sub(right, base)),
        None => 0,
    };
    let cx = if lw > 0 { sat_add(sat_add(base, lw), 1) } else { base };
    let reserve = match badge {
        Some(b) => min_int(sat_add(b as int, 1), sat_sub(right, cx)),
        None => 0,
    };
    let bw = match badge {
        Some(b) => min_int(b as int, area.width as int),
        None => 0,
    };
    RowSpan {
        cells_x: cx as u16,
        cells_right: min_int(sat_add(base, budget), sat_sub(right, reserve)) as u16,
        leading: if lw > 0 { Some((base as u16, lw as u16)) } else { None },
        badge: if bw > 0 { Some((sat_sub(right, bw) as u16, bw as u16)) } else { None },
    }
}

/// Where a row in `area` puts its parts (see [`row_span_spec`]).
pub fn row_span(area: Rect, budget: u16, leading: Option<u16>, badge: Option<u16>) -> (s: RowSpan)
    ensures
        s == row_span_spec(area, budget as int, leading, badge),
{
    let right = area.x.saturating_add(area.width);
    let base = area.x.saturating_add(3);
    let room = right.saturating_sub(base);
    let lw: u16 = match leading {
        Some(w) => if w < room { w } else { room },
        None => 0,
    };
    let cx = if lw > 0 { base.saturating_add(lw).saturating_add(1) } else { base };
    let left_of_badge = right.saturating_sub(cx);
    let reserve: u16 = match badge {
        Some(b) => {
            let r = b.saturating_add(1);
            if r < left_of_badge { r } else { left_of_badge }
        },
        None => 0,
    };
    let bw: u16 = match badge {
        Some(b) => if b < area.width { b } else { area.width },
        None => 0,
    };
    let cr0 = base.saturating_add(budget);
    let lim = right.saturating_sub(reserve);
    RowSpan {
        cells_x: cx,
        cells_right: if cr0 < lim { cr0 } else { lim },
        leading: if lw > 0 { Some((base, lw)) } else { None },
        badge: if bw > 0 { Some((right.saturating_sub(bw), bw)) } else { None },
    }
}

/// One data cell a row paints.
#[derive(Debug, Clone, Copy, PartialEq, Eq)]
pub struct DataCell {
    /// Declared column index.
    pub column: usize,
    /// First painted cell.
    pub x: u16,
    /// Painted cells.
    pub width: u16,
    /// Whether the column starts in view, so its text is drawn (else only its
    /// style is).
    pub text: bool,
}

/// Data cells from visible column `k` on, the column starting at logical
/// column `lx`: each column takes its resolved width and the gap follows all
/// but the last; a column paints the part of it between `clip_left` and
/// `clip_right`.
pub open spec fn data_scan(
    visible: Seq<usize>,
    widths: Seq<u16>,
    clip_left: int,
    clip_right: int,
    gap: int,
    k: int,
    lx: int,
    cells: Seq<DataCell>,
) -> Seq<DataCell>
    decreases visible.len() - k,
{
    if k < 0 || k >= visible.len() {
        cells
    } else {
        let ci = visible[k] as int;
        let w = if ci < widths.len() { widths[ci] as int } else { 0 };
        let right = lx + w;
        let next = if k + 1 < visible.len() { right + gap } else { right };
        let px = if lx > clip_left { lx } else { clip_left };
        let pe = if right < clip_right { right } else { clip_right };
        if right > clip_left && lx < clip_right && pe > px {
            let cell = DataCell { column: ci as usize, x: px as u16, width: (pe - px) as u16, text: lx >= clip_left };
            data_scan(visible, widths, clip_left, clip_right, gap, k + 1, next, cells.push(cell))
        } else {
            data_scan(visible, widths, clip_left, clip_right, gap, k + 1, next, cells)
        }
    }
}

/// Once a column starts at or past `clip_right`, no more data cells paint.
proof fn lemma_data_scan_done(
    visible: Seq<usize>,
    widths: Seq<u16>,
    clip_left: int,
    clip_right: int,
    gap: int,
    k: int,
    lx: int,
    cells: Seq<DataCell>,
)
    requires
        lx >= clip_right,
        gap >= 0,
    ensures
        data_scan(visible, widths, clip_left, clip_right, gap, k, lx, cells) == cells,
    decreases visible.len() - k,
{
    if 0 <= k < visible.len() {
        let ci = visible[k] as int;
        let w = if ci < widths.len() { widths[ci] as int } else { 0 };
        let right = lx + w;
        let next = if k + 1 < visible.len() { right + gap } else { right };
        lemma_data_scan_done(visible, widths, clip_left, clip_right, gap, k + 1, next, cells);
    }
}

/// Data cells of the visible columns between `clip_left` and `clip_right`,
/// the first starting at logical column `lx0`.
fn data_cells_in(visible: &Vec<usize>, widths: &Vec<u16>, clip_left: u16, clip_right: u16, gap: u16, lx0: i64)
    -> (r: Vec<DataCell>)
    requires
        -65536 <= lx0 <= 65536,
    ensures
        r@ == data_scan(visible@, widths@, clip_left as int, clip_right as int, gap as int, 0, lx0 as int, Seq::empty()),
{
    let mut cells: Vec<DataCell> = Vec::new();
    let mut k: usize = 0;
    let mut lx: i64 = lx0;
    let cl = clip_left as i64;
    let cr = clip_right as i64;
    while k < visible.len() && lx < cr
        invariant
            k <= visible.len(),
            -65536 <= lx <= 4 * 65536,
            cl == clip_left,
            cr == clip_right,
            data_scan(visible@, widths@, clip_left as int, clip_right as int, gap as int, 0, lx0 as int, Seq::empty())
                == data_scan(visible@, widths@, clip_left as int, clip_right as int, gap as int, k as int, lx as int, cells@),
        decreases visible.len() - k,
    {
        let ci = visible[k];
        let w: i64 = if ci < widths.len() { widths[ci] as i64 } else { 0 };
        let right = lx + w;
        let next = if k + 1 < visible.len() { right + gap as i64 } else { right };
        let px = if lx > cl { lx } else { cl };
        let pe = if right < cr { right } else { cr };
        if right > cl && lx < cr && pe > px {
            cells.push(DataCell { column: ci, x: px as u16, width: (pe - px) as u16, text: lx >= cl });
        }
        lx = next;
        k = k + 1;
    }
    if k < visible.len() {
        proof {
            lemma_data_scan_done(visible@, widths@, clip_left as int, clip_right as int, gap as int, k as int,
                lx as int, cells@);
        }
    }
    cells
}

/// What one paint of a table draws.
#[derive(Debug, Clone, PartialEq, Eq)]
pub struct TablePlan {
    /// Header cells, left to right.
    pub header: Vec<HeaderCell>,
    /// Whether columns are hidden to the left of the header.
    pub more_left: bool,
    /// Column of the cue for columns hidden to the right, when it fits.
    pub more_right: Option<u16>,
    /// Screen row of the loading, error or empty line, when one replaces the rows.
    pub status_y: Option<u16>,
    /// Body rows, top to bottom.
    pub rows: Vec<PaintedRow>,
}

/// A paint plan as plain values.
pub struct TablePlanModel {
    /// Header cells, left to right.
    pub header: Seq<HeaderCell>,
    /// Whether columns are hidden to the left of the header.
    pub more_left: bool,
    /// Column of the cue for columns hidden to the right.
    pub more_right: Option<u16>,
    /// Screen row of the status line.
    pub status_y: Option<u16>,
    /// Body rows, top to bottom.
    pub rows: Seq<PaintedRow>,
}

impl View for TablePlan {
    type V = TablePlanModel;

    open spec fn view(&self) -> TablePlanModel {
        TablePlanModel {
            header: self.header@,
            more_left: self.more_left,
            more_right: self.more_right,
            status_y: self.status_y,
            rows: self.rows@,
        }
    }
}

/// Whether a header region for `id` is already recorded.
pub open spec fn has_header_id<ColumnId>(hs: Seq<TableHeaderRegion<ColumnId>>, id: ColumnId) -> bool {
    exists|j: int| 0 <= j < hs.len() && #[trigger] hs[j].id == id
}

/// Header cells and regions from visible column `k` on, the column starting
/// at logical column `lx`: each column takes its resolved width and the gap
/// follows all but the last; a column paints the part of it between
/// `clip_left` and `clip_right`, its region records once per identity, and
/// the first sortable column with a direction shows the sort.
pub open spec fn header_scan<ColumnId>(
    visible: Seq<usize>,
    widths: Seq<u16>,
    ids: Seq<ColumnId>,
    sortable: Seq<bool>,
    sorted: Seq<bool>,
    y: int,
    clip_left: int,
    clip_right: int,
    gap: int,
    k: int,
    lx: int,
    shown: bool,
    cells: Seq<HeaderCell>,
    regions: Seq<TableHeaderRegion<ColumnId>>,
) -> (Seq<HeaderCell>, Seq<TableHeaderRegion<ColumnId>>)
    decreases visible.len() - k,
{
    if k < 0 || k >= visible.len() {
        (cells, regions)
    } else {
        let ci = visible[k] as int;
        let w = if ci < widths.len() { widths[ci] as int } else { 0 };
        let right = lx + w;
        let next = if k + 1 < visible.len() { right + gap } else { right };
        let px = if lx > clip_left { lx } else { clip_left };
        let pe = if right < clip_right { right } else { clip_right };
        if right > clip_left && lx < clip_right && pe > px && ci < ids.len() {
            let srt = ci < sortable.len() && sortable[ci];
            let sort = srt && ci < sorted.len() && sorted[ci] && !shown;
            let cell = HeaderCell {
                column: ci as usize,
                x: px as u16,
                width: (pe - px) as u16,
                title: lx >= clip_left,
                suffix: right <= clip_right,
                sort,
            };
            let region = TableHeaderRegion {
                id: ids[ci],
                area: Rect { x: px as u16, y: y as u16, width: (pe - px) as u16, height: 1 },
                sortable: srt,
            };
            let regions2 = if has_header_id(regions, ids[ci]) { regions } else { regions.push(region) };
            header_scan(visible, widths, ids, sortable, sorted, y, clip_left, clip_right, gap, k + 1, next, shown || sort, cells.push(cell), regions2)
        } else {
            header_scan(visible, widths, ids, sortable, sorted, y, clip_left, clip_right, gap, k + 1, next, shown, cells, regions)
        }
    }
}

/// Body rows and row regions from painted row `p` on (row `offset + p`,
/// before row `end`): each row takes one screen row; the first row that
/// owns its identity and is selected paints as the selection; an enabled
/// row under the pointer is hovered; every other row is striped when
/// `striped`; an enabled row that owns its identity records a region.
pub open spec fn rows_scan<'a, RowId, ColumnId>(
    rows: Seq<TableRow<'a, RowId>>,
    m: TableModel<RowId, ColumnId>,
    area: Rect,
    body_y: int,
    striped: bool,
    chrome: Seq<(Option<u16>, Option<u16>)>,
    end: int,
    p: int,
    done: bool,
    acc: Seq<PaintedRow>,
    regions: Seq<TableRowRegion<RowId>>,
) -> (Seq<PaintedRow>, Seq<TableRowRegion<RowId>>)
    decreases end - (m.offset + p),
{
    let idx = m.offset + p;
    if p < 0 || idx >= end || idx >= rows.len() {
        (acc, regions)
    } else {
        let row = rows[idx];
        let y = sat_add(body_y, if p > u16::MAX { u16::MAX as int } else { p });
        let owns = if idx < m.first_row_ids.len() { m.first_row_ids[idx] } else { true };
        let selected = owns && !done && m.selected == Some(row.id);
        let ra = Rect { x: area.x, y: y as u16, width: area.width, height: 1 };
        let hovered = row.enabled && match m.pointer {
            Some(q) => ra.contains_spec(q),
            None => false,
        };
        let marks = if idx < chrome.len() { chrome[idx] } else { (None, None) };
        let pr = PaintedRow {
            index: idx as usize,
            y: y as u16,
            selected,
            hovered,
            striped: striped && p % 2 == 1,
            span: row_span_spec(area, m.viewport_width as int, marks.0, marks.1),
        };
        let regions2 = if owns && row.enabled {
            regions.push(TableRowRegion { id: row.id, index: idx as usize, area: ra })
        } else {
            regions
        };
        rows_scan(rows, m, area, body_y, striped, chrome, end, p + 1, done || selected, acc.push(pr), regions2)
    }
}

/// Whether the body shows a status line in place of rows: while loading, on
/// error, or when ready with no rows and an empty message.
pub open spec fn shows_status<'a, RowId>(body: TableBodyState, rows: Seq<TableRow<'a, RowId>>, empty_message: bool) -> bool {
    match body {
        TableBodyState::Loading => true,
        TableBodyState::Error => true,
        TableBodyState::Ready => rows.len() == 0 && empty_message,
    }
}

/// Whether a paint into `area` draws the header: it is sticky, has a row,
/// and some column is visible.
pub open spec fn paints_header<RowId, ColumnId>(m: TableModel<RowId, ColumnId>, area: Rect, sticky_header: bool, recipe: TableRecipe) -> bool {
    &&& area.width > 0 && area.height > 0
    &&& sticky_header
    &&& header_rows(sticky_header, recipe == TableRecipe::Bordered, area.height as int) > 0
    &&& m.visible_columns.len() > 0
}

/// Header cells and regions of a paint into `area`.
pub open spec fn header_plan<RowId, ColumnId>(
    m: TableModel<RowId, ColumnId>,
    ids: Seq<ColumnId>,
    sortable: Seq<bool>,
    sorted: Seq<bool>,
    area: Rect,
    sticky_header: bool,
    recipe: TableRecipe,
    gap: int,
) -> (Seq<HeaderCell>, Seq<TableHeaderRegion<ColumnId>>) {
    if paints_header(m, area, sticky_header, recipe) {
        let origin = sat_add(area.x as int, 3);
        let edge = sat_add(area.x as int, area.width as int);
        let cr = sat_add(origin, m.viewport_width as int);
        header_scan(m.visible_columns, m.resolved_widths, ids, sortable, sorted, area.y as int, origin,
            if cr < edge { cr } else { edge }, gap, 0, origin - m.h_offset, false, Seq::empty(), Seq::empty())
    } else {
        (Seq::empty(), Seq::empty())
    }
}

/// First body row of a paint into `area`.
pub open spec fn body_top(area: Rect, sticky_header: bool, recipe: TableRecipe) -> int {
    sat_add(area.y as int, header_rows(sticky_header, recipe == TableRecipe::Bordered, area.height as int))
}

/// Body rows of a paint into `area`.
pub open spec fn body_rows(area: Rect, sticky_header: bool, recipe: TableRecipe) -> int {
    area.height - header_rows(sticky_header, recipe == TableRecipe::Bordered, area.height as int)
}

/// Whether a paint into `area` draws body rows (and so re-reads hover).
pub open spec fn paints_rows<'a, RowId, ColumnId>(
    m: TableModel<RowId, ColumnId>,
    rows: Seq<TableRow<'a, RowId>>,
    area: Rect,
    sticky_header: bool,
    recipe: TableRecipe,
    body: TableBodyState,
    empty_message: bool,
) -> bool {
    &&& area.width > 0 && area.height > 0
    &&& body_rows(area, sticky_header, recipe) > 0
    &&& !shows_status(body, rows, empty_message)
    &&& m.visible_columns.len() > 0
}

/// Body rows and row regions of a paint into `area`.
pub open spec fn body_plan<'a, RowId, ColumnId>(
    m: TableModel<RowId, ColumnId>,
    rows: Seq<TableRow<'a, RowId>>,
    area: Rect,
    sticky_header: bool,
    recipe: TableRecipe,
    body: TableBodyState,
    empty_message: bool,
    chrome: Seq<(Option<u16>, Option<u16>)>,
) -> (Seq<PaintedRow>, Seq<TableRowRegion<RowId>>) {
    if paints_rows(m, rows, area, sticky_header, recipe, body, empty_message) {
        let e = m.offset + m.viewport_rows;
        rows_scan(rows, m, area, body_top(area, sticky_header, recipe), recipe == TableRecipe::Striped, chrome,
            if e < rows.len() { e } else { rows.len() as int }, 0, false, Seq::empty(), Seq::empty())
    } else {
        (Seq::empty(), Seq::empty())
    }
}

/// State after a paint into `area`: the header and row regions are what was
/// painted, and when rows were painted the hovered row and header are
/// re-read from the pointer.
pub open spec fn record_paint_spec<'a, RowId, ColumnId>(
    m: TableModel<RowId, ColumnId>,
    rows: Seq<TableRow<'a, RowId>>,
    ids: Seq<ColumnId>,
    sortable: Seq<bool>,
    sorted: Seq<bool>,
    area: Rect,
    sticky_header: bool,
    recipe: TableRecipe,
    gap: int,
    body: TableBodyState,
    empty_message: bool,
    chrome: Seq<(Option<u16>, Option<u16>)>,
) -> TableModel<RowId, ColumnId> {
    let m2 = TableModel {
        header_regions: header_plan(m, ids, sortable, sorted, area, sticky_header, recipe, gap).1,
        row_regions: body_plan(m, rows, area, sticky_header, recipe, body, empty_message, chrome).1,
        ..m
    };
    if paints_rows(m, rows, area, sticky_header, recipe, body, empty_message) {
        TableModel {
            hovered: match m.pointer { Some(q) => row_under(m2, q), None => None },
            hovered_column: match m.pointer { Some(q) => header_under(m2, q), None => None },
            ..m2
        }
    } else {
        m2
    }
}

/// What a paint into `area` draws: the header cells with the cues for
/// columns hidden left or right (the right one just past the column budget,
/// when that is inside the area), the status line centred in the body when
/// one replaces the rows, and the body rows.
pub open spec fn table_plan_spec<'a, RowId, ColumnId>(
    m: TableModel<RowId, ColumnId>,
    rows: Seq<TableRow<'a, RowId>>,
    ids: Seq<ColumnId>,
    sortable: Seq<bool>,
    sorted: Seq<bool>,
    area: Rect,
    sticky_header: bool,
    recipe: TableRecipe,
    gap: int,
    body: TableBodyState,
    empty_message: bool,
    chrome: Seq<(Option<u16>, Option<u16>)>,
) -> TablePlanModel {
    let hdr = paints_header(m, area, sticky_header, recipe);
    let bh = body_rows(area, sticky_header, recipe);
    TablePlanModel {
        header: header_plan(m, ids, sortable, sorted, area, sticky_header, recipe, gap).0,
        more_left: hdr && (m.h_offset > 0 || m.visible_columns[0] > 0),
        more_right: {
            let x = sat_add(sat_add(sat_add(area.x as int, 3), m.viewport_width as int), 1);
            if hdr && (ids.len() > m.visible_columns.len() || sat_sub(m.content_width as int, m.h_offset as int) > m.viewport_width)
                && x < sat_add(area.x as int, area.width as int) {
                Some(x as u16)
            } else {
                None
            }
        },
        status_y: if area.width > 0 && area.height > 0 && bh > 0 && shows_status(body, rows, empty_message) {
            Some(sat_add(body_top(area, sticky_header, recipe), bh / 2) as u16)
        } else {
            None
        },
        rows: body_plan(m, rows, area, sticky_header, recipe, body, empty_message, chrome).0,
    }
}

/// Once a column starts at or past `clip_right`, nothing more paints.
proof fn lemma_header_scan_done<ColumnId>(
    visible: Seq<usize>,
    widths: Seq<u16>,
    ids: Seq<ColumnId>,
    sortable: Seq<bool>,
    sorted: Seq<bool>,
    y: int,
    clip_left: int,
    clip_right: int,
    gap: int,
    k: int,
    lx: int,
    shown: bool,
    cells: Seq<HeaderCell>,
    regions: Seq<TableHeaderRegion<ColumnId>>,
)
    requires
        lx >= clip_right,
        gap >= 0,
    ensures
        header_scan(visible, widths, ids, sortable, sorted, y, clip_left, clip_right, gap, k, lx, shown, cells, regions)
            == (cells, regions),
    decreases visible.len() - k,
{
    if 0 <= k < visible.len() {
        let ci = visible[k] as int;
        let w = if ci < widths.len() { widths[ci] as int } else { 0 };
        let right = lx + w;
        let next = if k + 1 < visible.len() { right + gap } else { right };
        lemma_header_scan_done(visible, widths, ids, sortable, sorted, y, clip_left, clip_right, gap, k + 1, next, shown, cells, regions);
    }
}

/// Whether `hs` records a header for `id`.
fn find_header_id<ColumnId: PartialEq>(hs: &Vec<TableHeaderRegion<ColumnId>>, id: &ColumnId) -> (r: bool)
    requires
        obeys_concrete_eq::<ColumnId>(),
    ensures
        r == has_header_id(hs@, *id),
{
    let mut j: usize = 0;
    while j < hs.len()
        invariant
            j <= hs.len(),
            obeys_concrete_eq::<ColumnId>(),
            forall|i: int| 0 <= i < j ==> hs@[i].id != *id,
        decreases hs.len() - j,
    {
        if same(&hs[j].id, id) {
            return true;
        }
        j = j + 1;
    }
    false
}


/// Header cells and regions of the visible columns, the first starting at
/// logical column `lx0`.
fn header_cells<ColumnId: Copy + PartialEq>(
    visible: &Vec<usize>,
    widths: &Vec<u16>,
    ids: &[ColumnId],
    sortable: &[bool],
    sorted: &[bool],
    y: u16,
    clip_left: u16,
    clip_right: u16,
    gap: u16,
    lx0: i64,
) -> (r: (Vec<HeaderCell>, Vec<TableHeaderRegion<ColumnId>>))
    requires
        obeys_concrete_eq::<ColumnId>(),
        -65536 <= lx0 <= 65536,
    ensures
        (r.0@, r.1@) == header_scan(visible@, widths@, ids@, sortable@, sorted@, y as int, clip_left as int,
            clip_right as int, gap as int, 0, lx0 as int, false, Seq::empty(), Seq::empty()),
{
    let mut cells: Vec<HeaderCell> = Vec::new();
    let mut regions: Vec<TableHeaderRegion<ColumnId>> = Vec::new();
    let mut k: usize = 0;
    let mut lx: i64 = lx0;
    let mut shown = false;
    let cl = clip_left as i64;
    let cr = clip_right as i64;
    while k < visible.len() && lx < cr
        invariant
            k <= visible.len(),
            -65536 <= lx <= 4 * 65536,
            cl == clip_left,
            cr == clip_right,
            obeys_concrete_eq::<ColumnId>(),
            header_scan(visible@, widths@, ids@, sortable@, sorted@, y as int, clip_left as int, clip_right as int,
                gap as int, 0, lx0 as int, false, Seq::empty(), Seq::empty())
                == header_scan(visible@, widths@, ids@, sortable@, sorted@, y as int, clip_left as int,
                clip_right as int, gap as int, k as int, lx as int, shown, cells@, regions@),
        decreases visible.len() - k,
    {
        let ci = visible[k];
        let w: i64 = if ci < widths.len() { widths[ci] as i64 } else { 0 };
        let right = lx + w;
        let next = if k + 1 < visible.len() { right + gap as i64 } else { right };
        let px = if lx > cl { lx } else { cl };
        let pe = if right < cr { right } else { cr };
        if right > cl && lx < cr && pe > px && ci < ids.len() {
            let srt = ci < sortable.len() && sortable[ci];
            let sort = srt && ci < sorted.len() && sorted[ci] && !shown;
            cells.push(HeaderCell {
                column: ci,
                x: px as u16,
                width: (pe - px) as u16,
                title: lx >= cl,
                suffix: right <= cr,
                sort,
            });
            if !find_header_id(&regions, &ids[ci]) {
                regions.push(TableHeaderRegion {
                    id: ids[ci],
                    area: Rect { x: px as u16, y, width: (pe - px) as u16, height: 1 },
                    sortable: srt,
                });
            }
            shown = shown || sort;
        }
        lx = next;
        k = k + 1;
    }
    if k < visible.len() {
        proof {
            lemma_header_scan_done(visible@, widths@, ids@, sortable@, sorted@, y as int, clip_left as int,
                clip_right as int, gap as int, k as int, lx as int, shown, cells@, regions@);
        }
    }
    (cells, regions)
}

impl<RowId: Copy + PartialEq, ColumnId: Copy + PartialEq> TableState<RowId, ColumnId> {
    /// Body rows and row regions from the first row shown up to `end`.
    fn body_cells(&self, rows: &[TableRow<'_, RowId>], area: Rect, body_y: u16, striped: bool,
        chrome: &[(Option<u16>, Option<u16>)], end: usize)
        -> (r: (Vec<PaintedRow>, Vec<TableRowRegion<RowId>>))
        requires
            obeys_concrete_eq::<RowId>(),
            end <= rows@.len(),
        ensures
            (r.0@, r.1@) == rows_scan(rows@, self@, area, body_y as int, striped, chrome@, end as int, 0, false,
                Seq::empty(), Seq::empty()),
    {
        let mut acc: Vec<PaintedRow> = Vec::new();
        let mut regions: Vec<TableRowRegion<RowId>> = Vec::new();
        let count: usize = if end > self.offset { end - self.offset } else { 0 };
        let mut p: usize = 0;
        let mut done = false;
        while p < count
            invariant
                p <= count,
                count == (if end > self.offset { end - self.offset } else { 0 }),
                end <= rows@.len(),
                obeys_concrete_eq::<RowId>(),
                rows_scan(rows@, self@, area, body_y as int, striped, chrome@, end as int, 0, false, Seq::empty(), Seq::empty())
                    == rows_scan(rows@, self@, area, body_y as int, striped, chrome@, end as int, p as int, done, acc@, regions@),
            decreases count - p,
        {
            let idx = self.offset + p;
            let row = &rows[idx];
            let y = body_y.saturating_add(if p > 65535 { 65535u16 } else { p as u16 });
            let owns = if idx < self.first_row_ids.len() { self.first_row_ids[idx] } else { true };
            let selected = owns && !done && same_opt(&self.selected, &Some(row.id));
            let ra = Rect { x: area.x, y, width: area.width, height: 1 };
            let hovered = row.enabled && match self.pointer {
                Some(q) => ra.contains(q),
                None => false,
            };
            let marks: (Option<u16>, Option<u16>) = if idx < chrome.len() { chrome[idx] } else { (None, None) };
            let span = row_span(area, self.viewport_width, marks.0, marks.1);
            acc.push(PaintedRow { index: idx, y, selected, hovered, striped: striped && p % 2 == 1, span });
            if owns && row.enabled {
                regions.push(TableRowRegion { id: row.id, index: idx, area: ra });
            }
            done = done || selected;
            p = p + 1;
        }
        (acc, regions)
    }

    /// Data cells of a painted row whose span is `span`, columns `gap` apart:
    /// the visible columns are laid out from the span's first column, less
    /// the horizontal offset, and clipped to the span.
    pub fn data_cells(&self, span: RowSpan, gap: u16) -> (v: Vec<DataCell>)
        ensures
            v@ == data_scan(self@.visible_columns, self@.resolved_widths, span.cells_x as int, span.cells_right as int,
                gap as int, 0, span.cells_x - self@.h_offset, Seq::empty()),
    {
        data_cells_in(&self.visible_columns, &self.resolved_widths, span.cells_x, span.cells_right, gap,
            span.cells_x as i64 - self.h_offset as i64)
    }

    /// Records what a paint into `area` draws, after [`TableState::layout`]
    /// for the same area: the header and row regions are refilled from what
    /// is painted, hover is re-read from the pointer when rows are painted,
    /// and the plan lists the header cells, the status line and the rows.
    pub fn record_paint(
        &mut self,
        rows: &[TableRow<'_, RowId>],
        column_ids: &[ColumnId],
        sortable: &[bool],
        sorted: &[bool],
        area: Rect,
        sticky_header: bool,
        recipe: TableRecipe,
        gap: u16,
        body: TableBodyState,
        empty_message: bool,
        chrome: &[(Option<u16>, Option<u16>)],
    ) -> (plan: TablePlan)
        requires
            obeys_concrete_eq::<RowId>(),
            obeys_concrete_eq::<ColumnId>(),
        ensures
            final(self)@ == record_paint_spec(old(self)@, rows@, column_ids@, sortable@, sorted@, area,
                sticky_header, recipe, gap as int, body, empty_message, chrome@),
            plan@ == table_plan_spec(old(self)@, rows@, column_ids@, sortable@, sorted@, area, sticky_header,
                recipe, gap as int, body, empty_message, chrome@),
    {
        let ghost m = self@;
        let bordered = recipe == TableRecipe::Bordered;
        let hh: u16 = if !sticky_header {
            0
        } else if bordered && area.height >= 2 {
            2
        } else if area.height >= 1 {
            1
        } else {
            0
        };
        let nonempty = area.width > 0 && area.height > 0;
        let hdr = nonempty && sticky_header && hh > 0 && self.visible_columns.len() > 0;
        let (cells, hregs) = if hdr {
            let origin = area.x.saturating_add(3);
            let edge = area.x.saturating_add(area.width);
            let cr0 = origin.saturating_add(self.viewport_width);
            let clip = if cr0 < edge { cr0 } else { edge };
            header_cells(&self.visible_columns, &self.resolved_widths, column_ids, sortable, sorted, area.y, origin,
                clip, gap, origin as i64 - self.h_offset as i64)
        } else {
            (Vec::new(), Vec::new())
        };
        let more_left = hdr && (self.h_offset > 0 || self.visible_columns[0] > 0);
        let rx = area.x.saturating_add(3).saturating_add(self.viewport_width).saturating_add(1);
        let more_right = if hdr && (column_ids.len() > self.visible_columns.len()
            || self.content_width.saturating_sub(self.h_offset) > self.viewport_width)
            && rx < area.x.saturating_add(area.width) {
            Some(rx)
        } else {
            None
        };
        let body_y = area.y.saturating_add(hh);
        let bh: u16 = area.height - hh;
        let status = match body {
            TableBodyState::Loading => true,
            TableBodyState::Error => true,
            TableBodyState::Ready => rows.len() == 0 && empty_message,
        };
        let status_y = if nonempty && bh > 0 && status { Some(body_y.saturating_add(bh / 2)) } else { None };
        let rp = nonempty && bh > 0 && !status && self.visible_columns.len() > 0;
        let (painted, rregs) = if rp {
            let e = self.offset.saturating_add(self.viewport_rows);
            let end = if e < rows.len() { e } else { rows.len() };
            self.body_cells(rows, area, body_y, recipe == TableRecipe::Striped, chrome, end)
        } else {
            (Vec::new(), Vec::new())
        };
        self.header_regions = hregs;
        self.row_regions = rregs;
        if rp {
            match self.pointer {
                Some(q) => {
                    self.hovered = match row_hit(&self.row_regions, q) {
                        Some(k) => Some(self.row_regions[k].id),
                        None => None,
                    };
                    self.hovered_column = match header_hit(&self.header_regions, q, false) {
                        Some(k) => Some(self.header_regions[k].id),
                        None => None,
                    };
                },
                None => {
                    self.hovered = None;
                    self.hovered_column = None;
                },
            }
        }
        TablePlan { header: cells, more_left, more_right, status_y, rows: painted }
    }
}

} // verus!
