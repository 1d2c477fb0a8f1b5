use ratatui_core::text::Line;
use termrock::geometry::{Position, Rect};
use termrock::input::{KeyCode, KeyEvent, KeyEventKind, KeyModifiers, MouseButton, MouseEvent, MouseEventKind};
use termrock::interaction::{NavigationMove, UiIntent};
use termrock::table::{ColumnWidth, TableBodyState, TableOutcome, TableRecipe};
use termrock::table_state::{row_span, DataCell, HeaderCell, PaintedRow, RowSpan, TableHeaderRegion, TableRow, TableRowRegion, TableState};

fn cells() -> [[Line<'static>; 3]; 4] {
    [
        [Line::from("alpha"), Line::from("東京🧪"), Line::from("10%")],
        [Line::from("disabled"), Line::from("west"), Line::from("20%")],
        [Line::from("gamma"), Line::from("north"), Line::from("30%")],
        [Line::from("delta"), Line::from("south"), Line::from("40%")],
    ]
}

fn rows<'a>(cells: &'a [[Line<'static>; 3]; 4]) -> [TableRow<'a, u8>; 4] {
    [
        TableRow::new(1, &cells[0]),
        TableRow::new(2, &cells[1]).enabled(false),
        TableRow::new(3, &cells[2]).emphasis(true),
        TableRow::new(4, &cells[3]),
    ]
}

const COLUMN_IDS: [&str; 3] = ["name", "region", "cpu"];

fn policies() -> [ColumnWidth; 3] {
    [ColumnWidth::Fixed(8), ColumnWidth::Fill(1), ColumnWidth::Fixed(6)]
}

/// Lays the table out in an area with a header row and `body` body rows.
fn lay_out(state: &mut TableState<u8, &'static str>, rows: &[TableRow<'_, u8>], body: u16) {
    state.layout(rows, Rect::new(0, 0, 30, body + 1), true, false, &COLUMN_IDS, &policies(), &[50, 50, 50], 1);
}

fn key(code: KeyCode) -> KeyEvent {
    KeyEvent::new(code, KeyModifiers::NONE)
}

#[test]
fn keyboard_skips_disabled_wraps_pages_activates_and_respects_focus_modifiers() {
    let cells = cells();
    let rows = rows(&cells);
    let mut state = TableState::<u8, &str>::new(Some(1));
    lay_out(&mut state, &rows, 2);
    assert_eq!(state.handle_key(&rows, key(KeyCode::Down)), TableOutcome::Selected(3));
    assert_eq!(state.handle_key(&rows, key(KeyCode::End)), TableOutcome::Selected(4));
    assert_eq!(state.handle_key(&rows, key(KeyCode::Down)), TableOutcome::Selected(1));
    assert_eq!(state.handle_key(&rows, key(KeyCode::PageDown)), TableOutcome::Selected(4));
    assert_eq!(state.handle_key(&rows, key(KeyCode::Enter)), TableOutcome::Activated(4));
    assert_eq!(state.handle_key(&rows, key(KeyCode::Esc)), TableOutcome::Cancelled);
    assert_eq!(
        state.handle_key(&rows, KeyEvent::new(KeyCode::Down, KeyModifiers::CONTROL)),
        TableOutcome::Ignored
    );

    let mut state = TableState::<u8, &str>::new(Some(2));
    lay_out(&mut state, &rows, 2);
    assert_eq!(state.handle_key(&rows, key(KeyCode::Enter)), TableOutcome::Ignored);
    let mut state = TableState::<u8, &str>::new(Some(99));
    lay_out(&mut state, &rows, 2);
    assert_eq!(state.handle_key(&rows, key(KeyCode::Enter)), TableOutcome::Ignored);
}

#[test]
fn reconcile_is_id_sticky_then_nearest_enabled_index() {
    let cells = cells();
    let mut rows = rows(&cells);
    let mut state = TableState::<u8, &str>::new(Some(3));
    state.reconcile(&rows);
    rows.swap(0, 2);
    state.reconcile(&rows);
    assert_eq!(state.selected(), Some(&3));
    rows[0].enabled = false;
    state.reconcile(&rows);
    assert_eq!(state.selected(), Some(&1));

    let mut state = TableState::<u8, &str>::new(Some(4));
    state.reconcile(&rows);
    rows[0].enabled = false;
    rows[1].enabled = false;
    rows[3].enabled = false;
    state.reconcile(&rows);
    assert_eq!(state.selected(), Some(&1));
}

#[test]
fn reconcile_without_enabled_rows_clears_selection_and_scroll() {
    let cells = cells();
    let mut rows = rows(&cells);
    let mut state = TableState::<u8, &str>::new(Some(4));
    lay_out(&mut state, &rows, 2);
    state.reconcile(&rows);
    assert_eq!(state.offset(), 2);
    for row in rows.iter_mut() {
        row.enabled = false;
    }
    state.reconcile(&rows);
    assert_eq!(state.selected(), None);
    assert_eq!(state.offset(), 0);
}

#[test]
fn moves_reveal_the_selected_row() {
    let cells = cells();
    let rows = rows(&cells);
    let mut state = TableState::<u8, &str>::new(Some(1));
    lay_out(&mut state, &rows, 1);
    assert_eq!(state.offset(), 0);
    assert_eq!(state.handle_key(&rows, key(KeyCode::Down)), TableOutcome::Selected(3));
    assert_eq!(state.offset(), 2);
    assert_eq!(state.handle_key(&rows, key(KeyCode::Down)), TableOutcome::Selected(4));
    assert_eq!(state.offset(), 3);
    assert_eq!(state.handle_key(&rows, key(KeyCode::Home)), TableOutcome::Selected(1));
    assert_eq!(state.offset(), 0);
    assert_eq!(state.handle_key(&rows, key(KeyCode::Up)), TableOutcome::Selected(4));
    assert_eq!(state.offset(), 3);
    assert_eq!(state.handle_key(&rows, key(KeyCode::PageUp)), TableOutcome::Selected(3));
}

#[test]
fn releases_and_repeated_enter_do_nothing() {
    let cells = cells();
    let rows = rows(&cells);
    let mut state = TableState::<u8, &str>::new(Some(1));
    let release = KeyEvent::with_kind(KeyCode::Down, KeyModifiers::NONE, KeyEventKind::Release);
    assert_eq!(state.handle_key(&rows, release), TableOutcome::Ignored);
    assert_eq!(state.selected(), Some(&1));
    let repeat_enter = KeyEvent::with_kind(KeyCode::Enter, KeyModifiers::NONE, KeyEventKind::Repeat);
    assert_eq!(state.handle_key(&rows, repeat_enter), TableOutcome::Ignored);
    let repeat_down = KeyEvent::with_kind(KeyCode::Down, KeyModifiers::NONE, KeyEventKind::Repeat);
    assert_eq!(state.handle_key(&rows, repeat_down), TableOutcome::Selected(3));
    assert_eq!(state.handle_key(&rows, key(KeyCode::Char('x'))), TableOutcome::Ignored);
}

#[test]
fn navigation_without_enabled_rows_is_ignored() {
    let cells = cells();
    let mut rows = rows(&cells);
    for row in rows.iter_mut() {
        row.enabled = false;
    }
    let mut state = TableState::<u8, &str>::new(None);
    assert_eq!(state.handle_key(&rows, key(KeyCode::Down)), TableOutcome::Ignored);
    assert_eq!(state.handle_key(&rows, key(KeyCode::End)), TableOutcome::Ignored);
    assert_eq!(state.handle_key(&rows, key(KeyCode::Enter)), TableOutcome::Ignored);
    assert_eq!(state.selected(), None);
}

fn painted(state: &mut TableState<u8, &'static str>) {
    state.header_regions.push(TableHeaderRegion { id: "name", area: Rect::new(3, 0, 8, 1), sortable: true });
    state.header_regions.push(TableHeaderRegion { id: "region", area: Rect::new(12, 0, 10, 1), sortable: false });
    state.header_regions.push(TableHeaderRegion { id: "cpu", area: Rect::new(23, 0, 6, 1), sortable: true });
    state.row_regions.push(TableRowRegion { id: 1, index: 0, area: Rect::new(0, 1, 30, 1) });
    state.row_regions.push(TableRowRegion { id: 3, index: 2, area: Rect::new(0, 3, 30, 1) });
}

#[test]
fn pointer_routes_through_painted_regions() {
    let cells = cells();
    let rows = rows(&cells);
    let mut state = TableState::<u8, &str>::new(Some(1));
    lay_out(&mut state, &rows, 3);
    painted(&mut state);
    assert_eq!(state.click(Position::new(24, 0)), TableOutcome::SortRequested("cpu"));
    assert_eq!(state.click(Position::new(13, 0)), TableOutcome::Ignored);
    assert_eq!(state.click(Position::new(0, 2)), TableOutcome::Ignored);
    assert_eq!(state.click(Position::new(0, 3)), TableOutcome::Selected(3));
    assert_eq!(state.selected(), Some(&3));
    assert!(state.hover(Position::new(24, 0)));
    assert_eq!(state.hovered_column(), Some(&"cpu"));
    assert_eq!(state.hovered(), None);
    assert!(!state.hover(Position::new(25, 0)));
    assert!(state.hover(Position::new(5, 1)));
    assert_eq!(state.hovered(), Some(&1));
    assert_eq!(state.hovered_column(), None);
    let press = MouseEvent { kind: MouseEventKind::Down(MouseButton::Left), position: Position::new(4, 0) };
    assert_eq!(state.handle_mouse(press, rows.len()), TableOutcome::SortRequested("name"));
    let moved = MouseEvent { kind: MouseEventKind::Moved, position: Position::new(1, 3) };
    assert_eq!(state.handle_mouse(moved, rows.len()), TableOutcome::Ignored);
    assert_eq!(state.hovered(), Some(&3));
}

#[test]
fn wheel_scrolls_only_over_the_painted_table() {
    let cells = cells();
    let rows = rows(&cells);
    let mut state = TableState::<u8, &str>::new(None);
    lay_out(&mut state, &rows, 2);
    let outside = MouseEvent { kind: MouseEventKind::ScrollDown, position: Position::new(40, 40) };
    assert_eq!(state.handle_mouse(outside, rows.len()), TableOutcome::Ignored);
    assert_eq!(state.offset(), 0);
    let inside = MouseEvent { kind: MouseEventKind::ScrollDown, position: Position::new(2, 1) };
    assert_eq!(state.handle_mouse(inside, rows.len()), TableOutcome::Ignored);
    assert_eq!(state.offset(), 1);
    let _ = state.handle_mouse(inside, rows.len());
    let _ = state.handle_mouse(inside, rows.len());
    assert_eq!(state.offset(), 2);
    let up = MouseEvent { kind: MouseEventKind::ScrollUp, position: Position::new(2, 1) };
    let _ = state.handle_mouse(up, rows.len());
    assert_eq!(state.offset(), 1);
}

#[test]
fn scroll_by_saturates_and_clamps() {
    let cells = cells();
    let rows = rows(&cells);
    let mut state = TableState::<u8, &str>::new(None);
    lay_out(&mut state, &rows, 2);
    assert!(state.scroll_by(isize::MAX, 10));
    assert_eq!(state.offset(), 8);
    assert!(!state.scroll_by(1, 10));
    assert!(state.scroll_by(isize::MIN, 10));
    assert_eq!(state.offset(), 0);
    assert!(!state.scroll_by(-1, 10));
}

#[test]
fn horizontal_scroll_moves_left_and_right_within_overflow() {
    let mut state = TableState::<u8, &str>::new(None);
    state.set_h_offset(5);
    assert!(state.scroll_horizontal(-3));
    assert_eq!(state.h_offset(), 2);
    assert!(state.scroll_horizontal(-9));
    assert_eq!(state.h_offset(), 0);
    assert!(!state.scroll_horizontal(3));
    assert_eq!(state.h_offset(), 0);
}

#[test]
fn cell_cursor_moves_among_headers_and_stops_at_the_edges() {
    let cells = cells();
    let rows = rows(&cells);
    let mut state = TableState::<u8, &str>::new(Some(1));
    state.set_cell_nav(true);
    assert!(state.cell_nav());
    painted(&mut state);
    let right = UiIntent::Move(NavigationMove::Right);
    let left = UiIntent::Move(NavigationMove::Left);
    assert_eq!(state.handle_intent(&rows, right), TableOutcome::Ignored);
    assert_eq!(state.focused_column(), Some(&"name"));
    let _ = state.handle_intent(&rows, right);
    assert_eq!(state.focused_column(), Some(&"region"));
    let _ = state.handle_intent(&rows, right);
    let _ = state.handle_intent(&rows, right);
    assert_eq!(state.focused_column(), Some(&"cpu"));
    let _ = state.handle_intent(&rows, left);
    assert_eq!(state.focused_column(), Some(&"region"));
    state.set_focused_column(None);
    let _ = state.handle_key(&rows, key(KeyCode::Left));
    assert_eq!(state.focused_column(), Some(&"cpu"));
    assert_eq!(state.selected(), Some(&1));
}

#[test]
fn row_select_tables_keep_the_cursor_off() {
    let cells = cells();
    let rows = rows(&cells);
    let mut state = TableState::<u8, &str>::new(Some(1));
    painted(&mut state);
    let _ = state.handle_key(&rows, key(KeyCode::Right));
    assert_eq!(state.focused_column(), None);
}

#[test]
fn s_key_sorts_by_cursor_column_or_first_sortable() {
    let cells = cells();
    let rows = rows(&cells);
    let mut state = TableState::<u8, &str>::new(Some(1));
    assert_eq!(state.handle_key(&rows, key(KeyCode::Char('s'))), TableOutcome::Ignored);
    painted(&mut state);
    assert_eq!(state.handle_key(&rows, key(KeyCode::Char('s'))), TableOutcome::SortRequested("name"));
    state.set_focused_column(Some("cpu"));
    assert_eq!(state.handle_key(&rows, key(KeyCode::Char('s'))), TableOutcome::SortRequested("cpu"));
    state.set_focused_column(Some("region"));
    assert_eq!(state.handle_key(&rows, key(KeyCode::Char('s'))), TableOutcome::SortRequested("name"));
    let shifted = KeyEvent::new(KeyCode::Char('s'), KeyModifiers::SHIFT);
    assert_eq!(state.handle_key(&rows, shifted), TableOutcome::Ignored);
}

#[test]
fn layout_records_viewport_columns_and_seeds_the_cursor() {
    let cells = cells();
    let rows = rows(&cells);
    let mut state = TableState::<u8, &str>::new(Some(4));
    state.reconcile(&rows);
    state.set_cell_nav(true);
    state.set_h_offset(40);
    lay_out(&mut state, &rows, 2);
    assert_eq!(state.visible_column_indices(), &[0, 1, 2]);
    assert_eq!(state.resolved_widths.len(), 3);
    assert_eq!(state.resolved_widths[0], 8);
    assert_eq!(state.resolved_widths[2], 6);
    assert_eq!(state.h_offset(), 0);
    assert_eq!(state.focused_column(), Some(&"name"));
    assert!(state.header_regions.is_empty());
    assert!(state.row_regions.is_empty());
    lay_out(&mut state, &rows, 1);
    assert_eq!(state.offset(), 0);
}

#[test]
fn default_state_selects_nothing() {
    let state: TableState<u8, &str> = TableState::default();
    assert_eq!(state.selected(), None);
    assert_eq!(state.offset(), 0);
    assert_eq!(state.h_offset(), 0);
    assert!(!state.cell_nav());
    assert!(state.visible_column_indices().is_empty());
}

#[test]
fn record_paint_fills_header_and_row_regions() {
    let cells = cells();
    let rows = rows(&cells);
    let ids = [10u8, 11, 12];
    let policies = [ColumnWidth::Fixed(6), ColumnWidth::Fixed(6), ColumnWidth::Fixed(6)];
    let area = Rect::new(0, 0, 30, 6);
    let mut state: TableState<u8, u8> = TableState::new(None);
    state.hover(Position { x: 5, y: 3 });
    state.layout(&rows, area, true, false, &ids, &policies, &[0, 0, 0], 1);
    let plan = state.record_paint(&rows, &ids, &[true, false, false], &[true, false, false], area, true,
        TableRecipe::Quiet, 1, TableBodyState::Ready, false, &[]);
    assert_eq!(plan.header, vec![
        HeaderCell { column: 0, x: 3, width: 6, title: true, suffix: true, sort: true },
        HeaderCell { column: 1, x: 10, width: 6, title: true, suffix: true, sort: false },
        HeaderCell { column: 2, x: 17, width: 6, title: true, suffix: true, sort: false },
    ]);
    assert!(!plan.more_left);
    assert_eq!(plan.more_right, None);
    assert_eq!(plan.status_y, None);
    assert_eq!(plan.rows.len(), 4);
    assert_eq!(plan.rows[1], PaintedRow { index: 1, y: 2, selected: false, hovered: false, striped: false, span: RowSpan { cells_x: 3, cells_right: 28, leading: None, badge: None } });
    assert_eq!(plan.rows[2], PaintedRow { index: 2, y: 3, selected: false, hovered: true, striped: false, span: RowSpan { cells_x: 3, cells_right: 28, leading: None, badge: None } });
    assert_eq!(state.header_regions, vec![
        TableHeaderRegion { id: 10, area: Rect::new(3, 0, 6, 1), sortable: true },
        TableHeaderRegion { id: 11, area: Rect::new(10, 0, 6, 1), sortable: false },
        TableHeaderRegion { id: 12, area: Rect::new(17, 0, 6, 1), sortable: false },
    ]);
    assert_eq!(state.row_regions, vec![
        TableRowRegion { id: 1, index: 0, area: Rect::new(0, 1, 30, 1) },
        TableRowRegion { id: 3, index: 2, area: Rect::new(0, 3, 30, 1) },
        TableRowRegion { id: 4, index: 3, area: Rect::new(0, 4, 30, 1) },
    ]);
    assert_eq!(state.hovered(), Some(&3));
    assert_eq!(state.hovered_column(), None);
    assert_eq!(state.click(Position { x: 4, y: 0 }), TableOutcome::SortRequested(10));
    assert_eq!(state.click(Position { x: 12, y: 0 }), TableOutcome::Ignored);
    assert_eq!(state.click(Position { x: 12, y: 4 }), TableOutcome::Selected(4));
}

#[test]
fn record_paint_loading_shows_status_line_only() {
    let cells = cells();
    let rows = rows(&cells);
    let ids = [10u8, 11, 12];
    let policies = [ColumnWidth::Fixed(6), ColumnWidth::Fixed(6), ColumnWidth::Fixed(6)];
    let area = Rect::new(0, 0, 30, 6);
    let mut state: TableState<u8, u8> = TableState::new(None);
    state.layout(&rows, area, true, false, &ids, &policies, &[0, 0, 0], 1);
    let plan = state.record_paint(&rows, &ids, &[false; 3], &[false; 3], area, true, TableRecipe::Quiet, 1,
        TableBodyState::Loading, false, &[]);
    assert_eq!(plan.status_y, Some(3));
    assert!(plan.rows.is_empty());
    assert!(state.row_regions.is_empty());
    assert_eq!(state.header_regions.len(), 3);
    let striped = state.record_paint(&rows, &ids, &[false; 3], &[false; 3], area, false, TableRecipe::Striped, 1,
        TableBodyState::Ready, false, &[]);
    assert!(striped.header.is_empty());
    assert_eq!(striped.rows[1].y, 1);
    assert!(striped.rows[1].striped && !striped.rows[0].striped);
}

#[test]
fn rows_make_room_for_leading_mark_and_badge() {
    let cells = cells();
    let rows = rows(&cells);
    let ids = [10u8, 11, 12];
    let policies = [ColumnWidth::Fixed(6), ColumnWidth::Fixed(6), ColumnWidth::Fixed(6)];
    let area = Rect::new(0, 0, 30, 6);
    let mut state: TableState<u8, u8> = TableState::new(None);
    state.layout(&rows, area, true, false, &ids, &policies, &[0, 0, 0], 1);
    let chrome = [(Some(2u16), Some(3u16)), (None, None), (None, Some(5)), (None, None)];
    let plan = state.record_paint(&rows, &ids, &[false; 3], &[false; 3], area, true, TableRecipe::Quiet, 1,
        TableBodyState::Ready, false, &chrome);
    let first = plan.rows[0].span;
    assert_eq!(first, RowSpan { cells_x: 6, cells_right: 26, leading: Some((3, 2)), badge: Some((27, 3)) });
    assert_eq!(state.data_cells(first, 1), vec![
        DataCell { column: 0, x: 6, width: 6, text: true },
        DataCell { column: 1, x: 13, width: 6, text: true },
        DataCell { column: 2, x: 20, width: 6, text: true },
    ]);
    let third = plan.rows[2].span;
    assert_eq!(third, RowSpan { cells_x: 3, cells_right: 24, leading: None, badge: Some((25, 5)) });
    assert_eq!(state.data_cells(third, 1)[2], DataCell { column: 2, x: 17, width: 6, text: true });
    assert_eq!(plan.rows[1].span, RowSpan { cells_x: 3, cells_right: 28, leading: None, badge: None });
    assert_eq!(row_span(Rect::new(0, 0, 5, 1), 25, Some(9), Some(9)),
        RowSpan { cells_x: 6, cells_right: 5, leading: Some((3, 2)), badge: Some((0, 5)) });
}
