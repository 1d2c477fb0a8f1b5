use termrock::geometry::{Position, Rect};
use termrock::input::{KeyCode, KeyEvent, KeyEventKind, KeyModifiers, MouseButton, MouseEvent, MouseEventKind};
use termrock::slider::{
    handle_rect, mark_label_room, marks_row, numeric_face, numeric_only, pointer_index, range_key_command,
    range_pointer_step, range_track_cell, slider_column, slider_key_command, slider_pointer_step, slider_row,
    track_cell, vertical_handle_y, vertical_track_cell, PointerCommand, RangeKeyCommand, RangeSliderParts,
    RangeThumb, SliderKeyCommand, SliderOrientation, SliderParts, TrackCell,
};

fn key(code: KeyCode) -> KeyEvent {
    KeyEvent::new(code, KeyModifiers::NONE)
}

fn mouse(kind: MouseEventKind, x: u16, y: u16) -> MouseEvent {
    MouseEvent { kind, position: Position { x, y } }
}

#[test]
fn narrow_area_falls_back_to_number() {
    assert!(numeric_only(SliderOrientation::Horizontal, Rect::new(0, 0, 8, 1)));
    assert!(numeric_only(SliderOrientation::Horizontal, Rect::new(0, 0, 10, 1)));
    assert!(!numeric_only(SliderOrientation::Horizontal, Rect::new(0, 0, 11, 1)));
    assert!(numeric_only(SliderOrientation::Vertical, Rect::new(0, 0, 40, 9)));
}

#[test]
fn slider_row_places_label_track_and_value() {
    // 20 wide, label row, value "50" takes two cells and a gap.
    let row = slider_row(Rect::new(0, 0, 20, 3), Some(6), Some(2), false);
    assert_eq!(row.label_area, Some(Rect::new(0, 0, 6, 1)));
    assert_eq!(row.track, Rect::new(0, 1, 17, 1));
    assert_eq!(row.value_slot, Some(Rect::new(18, 1, 2, 1)));
}

#[test]
fn slider_row_single_row_has_no_label_and_keeps_minimum_track() {
    let row = slider_row(Rect::new(2, 4, 10, 1), Some(3), Some(8), false);
    assert_eq!(row.label_area, None);
    assert_eq!(row.track, Rect::new(2, 4, 6, 1));
    // Track ends at 8; the value takes the last-but-one cell on.
    assert_eq!(row.value_slot, Some(Rect::new(9, 4, 3, 1)));
}

#[test]
fn slider_row_value_touching_the_edge() {
    // Track 9 of 10 cells: a single slider's value starts in the last cell,
    // a range slider's one cell after the track, past the area.
    let single = slider_row(Rect::new(0, 0, 10, 1), None, Some(0), false);
    assert_eq!(single.track, Rect::new(0, 0, 9, 1));
    assert_eq!(single.value_slot, Some(Rect::new(9, 0, 1, 1)));
    let range = slider_row(Rect::new(0, 0, 10, 1), None, Some(0), true);
    assert_eq!(range.value_slot, Some(Rect::new(10, 0, 0, 1)));
}

#[test]
fn slider_row_without_value_fills_the_width() {
    let row = slider_row(Rect::new(0, 0, 12, 1), None, None, false);
    assert_eq!(row.track, Rect::new(0, 0, 12, 1));
    assert_eq!(row.value_slot, None);
}

#[test]
fn track_cells_fill_up_to_the_handle() {
    assert_eq!(track_cell(0, 3), TrackCell::Fill);
    assert_eq!(track_cell(3, 3), TrackCell::Handle);
    assert_eq!(track_cell(4, 3), TrackCell::Empty);
    assert_eq!(range_track_cell(1, 2, 5), TrackCell::Empty);
    assert_eq!(range_track_cell(2, 2, 5), TrackCell::Handle);
    assert_eq!(range_track_cell(3, 2, 5), TrackCell::Fill);
    assert_eq!(range_track_cell(5, 2, 5), TrackCell::Handle);
    assert_eq!(range_track_cell(6, 2, 5), TrackCell::Empty);
}

#[test]
fn marks_row_and_vertical_column() {
    let area = Rect::new(0, 0, 20, 4);
    let row = slider_row(area, Some(5), Some(2), false);
    assert_eq!(marks_row(area, true, row.track, true), Some(2));
    assert_eq!(marks_row(area, true, row.track, false), None);
    assert_eq!(marks_row(Rect::new(0, 0, 20, 2), true, row.track, true), None);
    assert_eq!(mark_label_room(area, 18), 2);
    assert_eq!(mark_label_room(area, 19), 0);
    assert_eq!(mark_label_room(area, 3), 4);

    let col = slider_column(Rect::new(0, 0, 6, 10), true);
    assert_eq!(col.track, Rect::new(0, 0, 1, 10));
    assert_eq!(col.value_slot, Some(Rect::new(2, 0, 4, 1)));
    assert_eq!(vertical_handle_y(col.track, 3), 6);
    assert_eq!(vertical_track_cell(col.track, 6, 3), TrackCell::Handle);
    assert_eq!(vertical_track_cell(col.track, 7, 3), TrackCell::Fill);
    assert_eq!(vertical_track_cell(col.track, 5, 3), TrackCell::Empty);
}

#[test]
fn numeric_face_label_then_value() {
    let f = numeric_face(Rect::new(0, 0, 8, 2), Some(5), 3);
    assert_eq!(f.label_area, Some(Rect::new(0, 0, 5, 1)));
    assert_eq!(f.value_area, Rect::new(0, 1, 3, 1));
    assert!(f.value_painted);
    let g = numeric_face(Rect::new(0, 0, 8, 1), Some(5), 12);
    assert_eq!(g.value_area, Rect::new(0, 0, 8, 1));
    assert!(!g.value_painted);
}

#[test]
fn slider_keys_map_to_steps() {
    assert_eq!(slider_key_command(true, true, false, 0, key(KeyCode::Right)), SliderKeyCommand::StepUp);
    assert_eq!(slider_key_command(true, true, false, 0, key(KeyCode::Left)), SliderKeyCommand::StepDown);
    assert_eq!(slider_key_command(true, true, false, 0, key(KeyCode::Char('l'))), SliderKeyCommand::StepUp);
    assert_eq!(slider_key_command(true, true, false, 0, key(KeyCode::Char('='))), SliderKeyCommand::StepUp);
    assert_eq!(slider_key_command(true, true, false, 0, key(KeyCode::PageUp)), SliderKeyCommand::PageUp);
    assert_eq!(slider_key_command(true, true, false, 0, key(KeyCode::Home)), SliderKeyCommand::ToMin);
    assert_eq!(slider_key_command(true, true, false, 0, key(KeyCode::End)), SliderKeyCommand::ToMax);
}

#[test]
fn slider_keys_start_and_drive_numeric_entry() {
    assert_eq!(slider_key_command(true, true, false, 0, key(KeyCode::Enter)), SliderKeyCommand::BeginEdit);
    assert_eq!(slider_key_command(true, true, false, 0, key(KeyCode::Char('7'))), SliderKeyCommand::BeginEditWith('7'));
    assert_eq!(slider_key_command(true, true, false, 0, key(KeyCode::Char('-'))), SliderKeyCommand::BeginEditWith('-'));
    assert_eq!(slider_key_command(true, true, true, 2, key(KeyCode::Char('e'))), SliderKeyCommand::PushEdit('e'));
    assert_eq!(slider_key_command(true, true, true, 24, key(KeyCode::Char('1'))), SliderKeyCommand::Ignore);
    assert_eq!(slider_key_command(true, true, true, 2, key(KeyCode::Backspace)), SliderKeyCommand::EraseEdit);
    assert_eq!(slider_key_command(true, true, true, 2, key(KeyCode::Enter)), SliderKeyCommand::CommitEdit);
    assert_eq!(slider_key_command(true, true, true, 2, key(KeyCode::Esc)), SliderKeyCommand::CancelEdit);
    // Read-only mid-entry still takes entry keys.
    assert_eq!(slider_key_command(true, false, true, 2, key(KeyCode::Esc)), SliderKeyCommand::CancelEdit);
}

#[test]
fn unfocused_or_locked_slider_ignores_keys() {
    assert_eq!(slider_key_command(true, false, false, 0, key(KeyCode::Right)), SliderKeyCommand::Ignore);
    assert_eq!(slider_key_command(false, true, false, 0, key(KeyCode::Right)), SliderKeyCommand::Ignore);
    let release = KeyEvent::with_kind(KeyCode::Right, KeyModifiers::NONE, KeyEventKind::Release);
    assert_eq!(slider_key_command(true, true, false, 0, release), SliderKeyCommand::Ignore);
    assert_eq!(range_key_command(true, false, key(KeyCode::Right)), RangeKeyCommand::Ignore);
}

#[test]
fn range_keys_switch_and_move_thumbs() {
    assert_eq!(range_key_command(true, true, key(KeyCode::Tab)), RangeKeyCommand::SwitchThumb);
    assert_eq!(range_key_command(true, true, key(KeyCode::BackTab)), RangeKeyCommand::SwitchThumb);
    assert_eq!(range_key_command(true, true, key(KeyCode::Char('-'))), RangeKeyCommand::StepDown);
    assert_eq!(range_key_command(true, true, key(KeyCode::Char('='))), RangeKeyCommand::Ignore);
    assert_eq!(range_key_command(true, true, key(KeyCode::Home)), RangeKeyCommand::Home);
}

fn painted() -> SliderParts {
    let track = Rect::new(0, 0, 16, 1);
    SliderParts {
        root: Rect::new(0, 0, 20, 1),
        track: Some(track),
        handle: Some(handle_rect(track, 4)),
        value_area: None,
        label_area: None,
        numeric_only: false,
    }
}

#[test]
fn slider_pointer_press_takes_value() {
    let down = slider_pointer_step(true, Some(painted()), false, false, mouse(MouseEventKind::Down(MouseButton::Left), 8, 0));
    assert!(down.focus);
    assert_eq!(down.dragging, Some(true));
    assert_eq!(down.command, PointerCommand::FromPointer);
    assert_eq!(pointer_index(false, painted().track, SliderOrientation::Horizontal, Position { x: 8, y: 0 }), Some((8, 15)));
    // Past the track the pointer clamps to the last cell.
    assert_eq!(pointer_index(false, painted().track, SliderOrientation::Horizontal, Position { x: 19, y: 0 }), Some((15, 15)));
    let outside = slider_pointer_step(true, Some(painted()), false, false, mouse(MouseEventKind::Down(MouseButton::Left), 30, 0));
    assert_eq!(outside.command, PointerCommand::Ignore);
    let wheel = slider_pointer_step(true, Some(painted()), false, false, mouse(MouseEventKind::ScrollUp, 3, 0));
    assert_eq!(wheel.command, PointerCommand::StepUp);
    let up = slider_pointer_step(true, Some(painted()), false, true, mouse(MouseEventKind::Up(MouseButton::Left), 3, 0));
    assert_eq!(up.dragging, Some(false));
    let unpainted = slider_pointer_step(true, None, false, false, mouse(MouseEventKind::Down(MouseButton::Left), 3, 0));
    assert_eq!(unpainted.command, PointerCommand::Ignore);
}

#[test]
fn range_pointer_press_picks_nearer_thumb() {
    let track = Rect::new(0, 0, 20, 1);
    let parts = RangeSliderParts {
        root: track,
        track: Some(track),
        start_handle: Some(handle_rect(track, 2)),
        end_handle: Some(handle_rect(track, 15)),
        value_area: None,
        numeric_only: false,
    };
    let near_end = range_pointer_step(true, Some(parts), false, RangeThumb::Start, mouse(MouseEventKind::Down(MouseButton::Left), 12, 0));
    assert_eq!(near_end.active, RangeThumb::End);
    assert!(near_end.from_pointer);
    let tie = range_pointer_step(true, Some(parts), false, RangeThumb::End, mouse(MouseEventKind::Down(MouseButton::Left), 8, 0));
    assert_eq!(tie.active, RangeThumb::Start);
    let drag = range_pointer_step(true, Some(parts), true, RangeThumb::End, mouse(MouseEventKind::Drag(MouseButton::Left), 30, 0));
    assert_eq!(drag.hovered, Some(false));
    assert!(drag.from_pointer);
}

#[test]
fn vertical_pointer_counts_from_the_bottom() {
    let track = Rect::new(0, 0, 1, 10);
    assert_eq!(pointer_index(false, Some(track), SliderOrientation::Vertical, Position { x: 0, y: 9 }), Some((0, 9)));
    assert_eq!(pointer_index(false, Some(track), SliderOrientation::Vertical, Position { x: 0, y: 0 }), Some((9, 9)));
    assert_eq!(pointer_index(true, Some(track), SliderOrientation::Vertical, Position { x: 0, y: 0 }), None);
}

#[test]
fn numeric_only_at_or_below_ten_cells() {
    assert!(numeric_only(SliderOrientation::Horizontal, Rect::new(0, 0, 6, 1)));
    assert!(numeric_only(SliderOrientation::Horizontal, Rect::new(0, 0, 10, 1)));
    assert!(!numeric_only(SliderOrientation::Horizontal, Rect::new(0, 0, 11, 1)));
    assert!(numeric_only(SliderOrientation::Vertical, Rect::new(0, 0, 1, 10)));
    assert!(!numeric_only(SliderOrientation::Vertical, Rect::new(0, 0, 1, 11)));
}

#[test]
fn slider_orientation_defaults_to_horizontal() {
    assert_eq!(SliderOrientation::default(), SliderOrientation::Horizontal);
    assert_eq!(SliderOrientation::Horizontal.id(), "horizontal");
    assert_eq!(SliderOrientation::Vertical.id(), "vertical");
}
