//! Sliders: bounded numeric controls with a track and a handle.
//!
//! The integer side lives here: when the control falls back to its number,
//! where the label, track, value and handle go, what each track cell shows,
//! what a key or a pointer event asks for, and which track cell a pointer
//! is over. Values and fractions are the caller's.

use vstd::prelude::*;
use crate::geometry::{rect_inside, sat_add, sat_sub, Position, Rect};
use crate::input::{KeyCode, KeyEvent, KeyEventKind, MouseButton, MouseEvent, MouseEventKind};
use crate::interaction::{button_intent_spec, default_button_intent, UiIntent};
use crate::style::DesignSystem;

verus! {

/// Slider orientation.
#[derive(Debug, Clone, Copy, PartialEq, Eq, Hash, Structural)]
pub enum SliderOrientation {
    /// Left to right.
    Horizontal,
    /// Bottom to top.
    Vertical,
}

impl Default for SliderOrientation {
    /// Left to right.
    fn default() -> (o: Self)
        ensures
            o == SliderOrientation::Horizontal,
    {
        SliderOrientation::Horizontal
    }
}

impl SliderOrientation {
    /// Stable id.
    pub fn id(self) -> (s: &'static str)
        ensures
            s@ == match self {
                SliderOrientation::Horizontal => "horizontal"@,
                SliderOrientation::Vertical => "vertical"@,
            },
    {
        match self {
            SliderOrientation::Horizontal => "horizontal",
            SliderOrientation::Vertical => "vertical",
        }
    }
}

/// A thumb of a range slider.
#[derive(Debug, Clone, Copy, PartialEq, Eq, Hash, Structural)]
pub enum RangeThumb {
    /// Lower bound.
    Start,
    /// Upper bound.
    End,
}

impl Default for RangeThumb {
    /// `Start`.
    fn default() -> (r: RangeThumb)
        ensures
            r == RangeThumb::Start,
    {
        RangeThumb::Start
    }
}

impl RangeThumb {
    /// Stable id.
    pub fn id(self) -> (s: &'static str)
        ensures
            s@ == match self {
                RangeThumb::Start => "start"@,
                RangeThumb::End => "end"@,
            },
    {
        match self {
            RangeThumb::Start => "start",
            RangeThumb::End => "end",
        }
    }

    /// The other thumb.
    pub fn other(self) -> (t: RangeThumb)
        ensures
            t != self,
    {
        match self {
            RangeThumb::Start => RangeThumb::End,
            RangeThumb::End => RangeThumb::Start,
        }
    }
}

/// Whether the track paints in monochrome glyphs.
pub fn mono(system: &DesignSystem, colorless: bool) -> (b: bool)
    ensures
        b == (colorless || system.monochrome),
{
    colorless || system.mono()
}

/// Thumb glyph: `*` in monochrome, `●` otherwise.
pub fn handle_glyph(system: &DesignSystem, colorless: bool) -> (s: &'static str)
    ensures
        s@ == if colorless || system.monochrome { "*"@ } else { "●"@ },
{
    if mono(system, colorless) { "*" } else { "●" }
}

/// Filled track glyph: `=` in monochrome, `━` otherwise.
pub fn fill_glyph(system: &DesignSystem, colorless: bool) -> (s: &'static str)
    ensures
        s@ == if colorless || system.monochrome { "="@ } else { "━"@ },
{
    if mono(system, colorless) { "=" } else { "━" }
}

/// Empty track glyph: `-` in monochrome, `─` otherwise.
pub fn empty_glyph(system: &DesignSystem, colorless: bool) -> (s: &'static str)
    ensures
        s@ == if colorless || system.monochrome { "-"@ } else { "─"@ },
{
    if mono(system, colorless) { "-" } else { "─" }
}

} // verus!

verus! {

/// Least track cells before the control falls back to its number.
pub const SLIDER_MIN_TRACK: u16 = 6;

/// Extent at or below which the control paints only its number.
pub const SLIDER_NUMERIC_FALLBACK_WIDTH: u16 = 10;

/// Whether a slider in `area` paints only its number: no wider (or, when
/// vertical, no taller) than the fallback extent.
pub open spec fn numeric_only_spec(orientation: SliderOrientation, area: Rect) -> bool {
    match orientation {
        SliderOrientation::Horizontal => area.width <= SLIDER_NUMERIC_FALLBACK_WIDTH,
        SliderOrientation::Vertical => area.height <= SLIDER_NUMERIC_FALLBACK_WIDTH,
    }
}

/// Whether a slider in `area` paints only its number.
pub fn numeric_only(orientation: SliderOrientation, area: Rect) -> (b: bool)
    ensures
        b == numeric_only_spec(orientation, area),
{
    match orientation {
        SliderOrientation::Horizontal => area.width <= SLIDER_NUMERIC_FALLBACK_WIDTH,
        SliderOrientation::Vertical => area.height <= SLIDER_NUMERIC_FALLBACK_WIDTH,
    }
}

/// What one track cell shows.
#[derive(Debug, Clone, Copy, PartialEq, Eq, Hash, Structural)]
pub enum TrackCell {
    /// A thumb.
    Handle,
    /// The filled part.
    Fill,
    /// The empty part.
    Empty,
}

/// Cell `i` of a track whose handle is at `handle`: the handle, fill
/// before it, empty after it.
pub open spec fn track_cell_spec(i: int, handle: int) -> TrackCell {
    if i == handle { TrackCell::Handle } else if i < handle { TrackCell::Fill } else { TrackCell::Empty }
}

/// Cell `i` of a single-thumb track.
pub fn track_cell(i: u16, handle: u16) -> (c: TrackCell)
    ensures
        c == track_cell_spec(i as int, handle as int),
{
    if i == handle { TrackCell::Handle } else if i < handle { TrackCell::Fill } else { TrackCell::Empty }
}

/// Cell `i` of a range track: both thumbs, fill between them, empty
/// outside.
pub open spec fn range_cell_spec(i: int, start: int, end: int) -> TrackCell {
    if i == start || i == end {
        TrackCell::Handle
    } else if start <= i && i <= end {
        TrackCell::Fill
    } else {
        TrackCell::Empty
    }
}

/// Cell `i` of a range track.
pub fn range_track_cell(i: u16, start: u16, end: u16) -> (c: TrackCell)
    ensures
        c == range_cell_spec(i as int, start as int, end as int),
{
    if i == start || i == end {
        TrackCell::Handle
    } else if start <= i && i <= end {
        TrackCell::Fill
    } else {
        TrackCell::Empty
    }
}

/// Where a horizontal slider paints: label row, one-row track, and the
/// slot the value text may use after the track.
#[derive(Debug, Clone, Copy, PartialEq, Eq, Structural)]
pub struct SliderRow {
    /// The label, when shown.
    pub label_area: Option<Rect>,
    /// The track.
    pub track: Rect,
    /// Room for the value text, when shown.
    pub value_slot: Option<Rect>,
}

/// Track width: the area less the value text and its gap, but never under
/// the minimum track (nor over the area).
pub open spec fn track_width_spec(area: Rect, value_cols: Option<u16>) -> int {
    let value_w = match value_cols { Some(c) => sat_add(c as int, 1), None => 0 };
    let rest = sat_sub(area.width as int, value_w);
    let floor = if SLIDER_MIN_TRACK < area.width { SLIDER_MIN_TRACK as int } else { area.width as int };
    if rest > floor { rest } else { floor }
}

/// Horizontal layout in a non-empty `area`. `label_cols` are the cells of a
/// non-empty label cut to the area's width; `value_cols` the cells of the
/// value text, when shown. A label takes the first row when there are two;
/// the track follows; the value goes one cell after the track (a range
/// slider's), or right after it when that is the last cell (a single one's).
pub open spec fn slider_row_spec(area: Rect, label_cols: Option<u16>, value_cols: Option<u16>, range: bool) -> SliderRow {
    let bottom = area.bottom_spec();
    let right = area.right_spec();
    let label_shown = label_cols is Some && area.height >= 2;
    let label_area = if label_shown {
        let c = label_cols->0;
        let w = if c < area.width { c } else { area.width };
        Some(Rect::new_spec(area.x, area.y, w as int, 1))
    } else {
        None
    };
    let y = if label_shown { sat_add(area.y as int, 1) } else { area.y as int };
    let ty = if y < sat_sub(bottom, 1) { y } else { sat_sub(bottom, 1) };
    let tw = track_width_spec(area, value_cols);
    let track = Rect::new_spec(area.x, ty as u16, tw, 1);
    let value_slot = if value_cols is Some && track.right_spec() < right {
        let after = sat_add(track.right_spec(), 1);
        let vx = if range || after < sat_sub(right, 1) { after } else { sat_sub(right, 1) };
        Some(Rect { x: vx as u16, y: track.y, width: sat_sub(right, vx) as u16, height: 1 })
    } else {
        None
    };
    SliderRow { label_area, track, value_slot }
}

/// Horizontal layout of a slider (see [`slider_row_spec`]).
pub fn slider_row(area: Rect, label_cols: Option<u16>, value_cols: Option<u16>, range: bool) -> (r: SliderRow)
    requires
        area.width > 0,
        area.height > 0,
    ensures
        r == slider_row_spec(area, label_cols, value_cols, range),
{
    let bottom = area.bottom();
    let right = area.right();
    let label_shown = label_cols.is_some() && area.height >= 2;
    let label_area = match label_cols {
        Some(c) => if area.height >= 2 {
            let w = if c < area.width { c } else { area.width };
            Some(Rect::new(area.x, area.y, w, 1))
        } else {
            None
        },
        None => None,
    };
    let y = if label_shown { area.y.saturating_add(1) } else { area.y };
    let last = bottom.saturating_sub(1);
    let ty = if y < last { y } else { last };
    let value_w: u16 = match value_cols {
        Some(c) => c.saturating_add(1),
        None => 0,
    };
    let rest = area.width.saturating_sub(value_w);
    let floor = if SLIDER_MIN_TRACK < area.width { SLIDER_MIN_TRACK } else { area.width };
    let tw = if rest > floor { rest } else { floor };
    let track = Rect::new(area.x, ty, tw, 1);
    let value_slot = if value_cols.is_some() && track.right() < right {
        let after = track.right().saturating_add(1);
        let vx = if range || after < right.saturating_sub(1) { after } else { right.saturating_sub(1) };
        Some(Rect { x: vx, y: track.y, width: right.saturating_sub(vx), height: 1 })
    } else {
        None
    };
    SliderRow { label_area, track, value_slot }
}

/// The one-cell handle at track cell `index`.
pub open spec fn handle_rect_spec(track: Rect, index: int) -> Rect {
    Rect::new_spec(sat_add(track.x as int, index) as u16, track.y, 1, 1)
}

/// The one-cell handle at track cell `index` of a horizontal track.
pub fn handle_rect(track: Rect, index: u16) -> (r: Rect)
    ensures
        r == handle_rect_spec(track, index as int),
{
    Rect::new(track.x.saturating_add(index), track.y, 1, 1)
}

/// The row of mark ticks under the track, when there is one: marks exist
/// and the area has a row for them below the label and the track.
pub open spec fn marks_row_spec(area: Rect, label_shown: bool, track: Rect, has_marks: bool) -> Option<u16> {
    let need: int = if label_shown { 3 } else { 2 };
    let my = sat_add(track.y as int, 1);
    if area.height >= need && has_marks && my < area.bottom_spec() { Some(my as u16) } else { None }
}

/// The row of mark ticks (see [`marks_row_spec`]).
pub fn marks_row(area: Rect, label_shown: bool, track: Rect, has_marks: bool) -> (r: Option<u16>)
    ensures
        r == marks_row_spec(area, label_shown, track, has_marks),
{
    let need: u16 = if label_shown { 3 } else { 2 };
    let my = track.y.saturating_add(1);
    if area.height >= need && has_marks && my < area.bottom() { Some(my) } else { None }
}

/// Cells a mark's label may take at column `gx`: up to four, none when no
/// cell is left after the tick.
pub open spec fn mark_label_room_spec(area: Rect, gx: int) -> int {
    if sat_add(gx, 1) < area.right_spec() {
        let room = sat_sub(area.right_spec(), gx);
        if room < 4 { room } else { 4 }
    } else {
        0
    }
}

/// Cells a mark's label may take (see [`mark_label_room_spec`]).
pub fn mark_label_room(area: Rect, gx: u16) -> (n: u16)
    ensures
        n as int == mark_label_room_spec(area, gx as int),
{
    if gx.saturating_add(1) < area.right() {
        let room = area.right().saturating_sub(gx);
        if room < 4 { room } else { 4 }
    } else {
        0
    }
}

/// Where a vertical slider paints: a one-column track over the full height
/// (minimum at the bottom) and, when shown and there are three columns, the
/// value two columns right of the top.
#[derive(Debug, Clone, Copy, PartialEq, Eq, Structural)]
pub struct SliderColumn {
    /// The track.
    pub track: Rect,
    /// Room for the value text, when shown.
    pub value_slot: Option<Rect>,
}

/// Vertical layout in `area` (see [`SliderColumn`]).
pub open spec fn slider_column_spec(area: Rect, show_value: bool) -> SliderColumn {
    let th: int = if area.height < 1 { 1 } else { area.height as int };
    let tw: int = if area.width < 1 { area.width as int } else { 1 };
    SliderColumn {
        track: Rect::new_spec(area.x, area.y, tw, th),
        value_slot: if show_value && area.width >= 3 {
            Some(Rect { x: sat_add(area.x as int, 2) as u16, y: area.y, width: (area.width - 2) as u16, height: 1 })
        } else {
            None
        },
    }
}

/// Vertical layout of a slider (see [`slider_column_spec`]).
pub fn slider_column(area: Rect, show_value: bool) -> (c: SliderColumn)
    ensures
        c == slider_column_spec(area, show_value),
{
    let th: u16 = if area.height < 1 { 1 } else { area.height };
    let tw: u16 = if area.width < 1 { area.width } else { 1 };
    SliderColumn {
        track: Rect::new(area.x, area.y, tw, th),
        value_slot: if show_value && area.width >= 3 {
            Some(Rect { x: area.x.saturating_add(2), y: area.y, width: area.width - 2, height: 1 })
        } else {
            None
        },
    }
}

/// Row of a vertical handle `from_bottom` cells above the track's last row.
pub open spec fn vertical_handle_y_spec(track: Rect, from_bottom: int) -> int {
    sat_sub(sat_sub(track.bottom_spec(), 1), from_bottom)
}

/// Row of a vertical handle (see [`vertical_handle_y_spec`]).
pub fn vertical_handle_y(track: Rect, from_bottom: u16) -> (y: u16)
    ensures
        y as int == vertical_handle_y_spec(track, from_bottom as int),
{
    track.bottom().saturating_sub(1).saturating_sub(from_bottom)
}

/// Cell at `row` (from the top) of a vertical track whose handle is
/// `handle_from_bottom` cells above its last row: fill below the handle.
pub open spec fn vertical_cell_spec(track: Rect, row: int, handle_from_bottom: int) -> TrackCell {
    let y = sat_add(track.y as int, row);
    let from_bottom = sat_sub(sat_sub(track.bottom_spec(), 1), y);
    if y == vertical_handle_y_spec(track, handle_from_bottom) {
        TrackCell::Handle
    } else if from_bottom < handle_from_bottom {
        TrackCell::Fill
    } else {
        TrackCell::Empty
    }
}

/// Cell of a vertical track (see [`vertical_cell_spec`]).
pub fn vertical_track_cell(track: Rect, row: u16, handle_from_bottom: u16) -> (c: TrackCell)
    ensures
        c == vertical_cell_spec(track, row as int, handle_from_bottom as int),
{
    let y = track.y.saturating_add(row);
    let from_bottom = track.bottom().saturating_sub(1).saturating_sub(y);
    if y == vertical_handle_y(track, handle_from_bottom) {
        TrackCell::Handle
    } else if from_bottom < handle_from_bottom {
        TrackCell::Fill
    } else {
        TrackCell::Empty
    }
}

/// Where the numeric face paints.
#[derive(Debug, Clone, Copy, PartialEq, Eq, Structural)]
pub struct NumericFace {
    /// The label, when there is one.
    pub label_area: Option<Rect>,
    /// The value text.
    pub value_area: Rect,
    /// Whether the value row lies inside the area.
    pub value_painted: bool,
}

/// The numeric face in a non-empty `area`: the label on the first row,
/// then the value; each cut to the area's width.
pub open spec fn numeric_face_spec(area: Rect, label_cols: Option<u16>, value_cols: u16) -> NumericFace {
    let bottom = area.bottom_spec();
    let cut = |c: u16| if c < area.width { c } else { area.width };
    let label_area = match label_cols {
        Some(c) => Some(Rect::new_spec(area.x, area.y, cut(c) as int, 1)),
        None => None,
    };
    let y = if label_cols is Some { sat_add(area.y as int, 1) } else { area.y as int };
    let vy = if y < sat_sub(bottom, 1) { y } else { sat_sub(bottom, 1) };
    NumericFace {
        label_area,
        value_area: Rect::new_spec(area.x, vy as u16, cut(value_cols) as int, 1),
        value_painted: y < bottom,
    }
}

/// The numeric face (see [`numeric_face_spec`]).
pub fn numeric_face(area: Rect, label_cols: Option<u16>, value_cols: u16) -> (f: NumericFace)
    requires
        area.width > 0,
        area.height > 0,
    ensures
        f == numeric_face_spec(area, label_cols, value_cols),
{
    let bottom = area.bottom();
    let label_area = match label_cols {
        Some(c) => Some(Rect::new(area.x, area.y, if c < area.width { c } else { area.width }, 1)),
        None => None,
    };
    let y = if label_cols.is_some() { area.y.saturating_add(1) } else { area.y };
    let last = bottom.saturating_sub(1);
    let vy = if y < last { y } else { last };
    let vw = if value_cols < area.width { value_cols } else { area.width };
    NumericFace { label_area, value_area: Rect::new(area.x, vy, vw, 1), value_painted: y < bottom }
}

} // verus!

verus! {

/// What a key asks of a single slider.
#[derive(Debug, Clone, Copy, PartialEq, Eq, Hash, Structural)]
pub enum SliderKeyCommand {
    /// Nothing.
    Ignore,
    /// Start numeric entry from the current value.
    BeginEdit,
    /// Start numeric entry with this character.
    BeginEditWith(char),
    /// One step down.
    StepDown,
    /// One step up.
    StepUp,
    /// One page down.
    PageDown,
    /// One page up.
    PageUp,
    /// To the minimum.
    ToMin,
    /// To the maximum.
    ToMax,
    /// Abandon numeric entry.
    CancelEdit,
    /// Commit numeric entry.
    CommitEdit,
    /// Erase the last entered character.
    EraseEdit,
    /// Append a character to the entry.
    PushEdit(char),
}

/// Longest numeric entry, in bytes.
pub const SLIDER_EDIT_MAX: usize = 24;

/// Whether `c` is an ASCII digit.
pub open spec fn is_digit_spec(c: char) -> bool {
    '0' <= c && c <= '9'
}

/// What a key asks of a single slider. Only presses reach a focused
/// slider, and only one that can be edited or is mid-entry. During entry:
/// Esc cancels, Enter commits, Backspace erases, and digits, sign, point
/// and exponent append while the entry is under its limit. Otherwise Enter,
/// a digit, `-` or `.` starts entry; arrows, `h`/`l`, `+`/`=` step; Page keys
/// page; Home and End jump to the bounds; an activating key starts entry.
pub open spec fn slider_key_spec(focused: bool, can_edit: bool, editing: bool, edit_len: nat, key: KeyEvent) -> SliderKeyCommand {
    if !focused || key.kind != KeyEventKind::Press || (!can_edit && !editing) {
        SliderKeyCommand::Ignore
    } else if editing {
        match key.code {
            KeyCode::Esc => SliderKeyCommand::CancelEdit,
            KeyCode::Enter => SliderKeyCommand::CommitEdit,
            KeyCode::Backspace => SliderKeyCommand::EraseEdit,
            KeyCode::Char(c) => if is_digit_spec(c) || c == '-' || c == '.' || c == 'e' || c == 'E' {
                if edit_len < SLIDER_EDIT_MAX { SliderKeyCommand::PushEdit(c) } else { SliderKeyCommand::Ignore }
            } else {
                SliderKeyCommand::Ignore
            },
            _ => SliderKeyCommand::Ignore,
        }
    } else {
        match key.code {
            KeyCode::Enter => SliderKeyCommand::BeginEdit,
            KeyCode::Char(c) => if is_digit_spec(c) || c == '-' || c == '.' {
                SliderKeyCommand::BeginEditWith(c)
            } else if c == 'h' {
                SliderKeyCommand::StepDown
            } else if c == 'l' || c == '+' || c == '=' {
                SliderKeyCommand::StepUp
            } else if button_intent_spec(key) == Some(UiIntent::Activate) {
                SliderKeyCommand::BeginEdit
            } else {
                SliderKeyCommand::Ignore
            },
            KeyCode::Left | KeyCode::Down => SliderKeyCommand::StepDown,
            KeyCode::Right | KeyCode::Up => SliderKeyCommand::StepUp,
            KeyCode::PageDown => SliderKeyCommand::PageDown,
            KeyCode::PageUp => SliderKeyCommand::PageUp,
            KeyCode::Home => SliderKeyCommand::ToMin,
            KeyCode::End => SliderKeyCommand::ToMax,
            _ => if button_intent_spec(key) == Some(UiIntent::Activate) {
                SliderKeyCommand::BeginEdit
            } else {
                SliderKeyCommand::Ignore
            },
        }
    }
}

fn is_digit(c: char) -> (b: bool)
    ensures
        b == is_digit_spec(c),
{
    '0' <= c && c <= '9'
}

fn activates(key: KeyEvent) -> (b: bool)
    ensures
        b == (button_intent_spec(key) == Some(UiIntent::Activate)),
{
    match default_button_intent(key) {
        Some(UiIntent::Activate) => true,
        _ => false,
    }
}

/// What a key asks of a single slider (see [`slider_key_spec`]).
pub fn slider_key_command(focused: bool, can_edit: bool, editing: bool, edit_len: usize, key: KeyEvent) -> (c: SliderKeyCommand)
    ensures
        c == slider_key_spec(focused, can_edit, editing, edit_len as nat, key),
{
    if !focused || !key.is_press() || (!can_edit && !editing) {
        return SliderKeyCommand::Ignore;
    }
    if editing {
        return match key.code {
            KeyCode::Esc => SliderKeyCommand::CancelEdit,
            KeyCode::Enter => SliderKeyCommand::CommitEdit,
            KeyCode::Backspace => SliderKeyCommand::EraseEdit,
            KeyCode::Char(c) => if is_digit(c) || c == '-' || c == '.' || c == 'e' || c == 'E' {
                if edit_len < SLIDER_EDIT_MAX { SliderKeyCommand::PushEdit(c) } else { SliderKeyCommand::Ignore }
            } else {
                SliderKeyCommand::Ignore
            },
            _ => SliderKeyCommand::Ignore,
        };
    }
    match key.code {
        KeyCode::Enter => SliderKeyCommand::BeginEdit,
        KeyCode::Char(c) => if is_digit(c) || c == '-' || c == '.' {
            SliderKeyCommand::BeginEditWith(c)
        } else if c == 'h' {
            SliderKeyCommand::StepDown
        } else if c == 'l' || c == '+' || c == '=' {
            SliderKeyCommand::StepUp
        } else if activates(key) {
            SliderKeyCommand::BeginEdit
        } else {
            SliderKeyCommand::Ignore
        },
        KeyCode::Left | KeyCode::Down => SliderKeyCommand::StepDown,
        KeyCode::Right | KeyCode::Up => SliderKeyCommand::StepUp,
        KeyCode::PageDown => SliderKeyCommand::PageDown,
        KeyCode::PageUp => SliderKeyCommand::PageUp,
        KeyCode::Home => SliderKeyCommand::ToMin,
        KeyCode::End => SliderKeyCommand::ToMax,
        _ => if activates(key) { SliderKeyCommand::BeginEdit } else { SliderKeyCommand::Ignore },
    }
}

/// What a key asks of a range slider.
#[derive(Debug, Clone, Copy, PartialEq, Eq, Hash, Structural)]
pub enum RangeKeyCommand {
    /// Nothing.
    Ignore,
    /// Make the other thumb active.
    SwitchThumb,
    /// Active thumb one step down.
    StepDown,
    /// Active thumb one step up.
    StepUp,
    /// Active thumb one page down.
    PageDown,
    /// Active thumb one page up.
    PageUp,
    /// Start thumb to the minimum, or end thumb onto the start.
    Home,
    /// Start thumb onto the end, or end thumb to the maximum.
    End,
}

/// What a key asks of a range slider: only presses reach a focused,
/// editable one; Tab and Shift+Tab switch thumbs; arrows, `h`/`l`, `-`/`+`
/// step the active thumb; Page keys page it; Home and End jump it.
pub open spec fn range_key_spec(focused: bool, can_edit: bool, key: KeyEvent) -> RangeKeyCommand {
    if !focused || !can_edit || key.kind != KeyEventKind::Press {
        RangeKeyCommand::Ignore
    } else {
        match key.code {
            KeyCode::Tab | KeyCode::BackTab => RangeKeyCommand::SwitchThumb,
            KeyCode::Left | KeyCode::Down => RangeKeyCommand::StepDown,
            KeyCode::Right | KeyCode::Up => RangeKeyCommand::StepUp,
            KeyCode::Char(c) => if c == 'h' || c == '-' {
                RangeKeyCommand::StepDown
            } else if c == 'l' || c == '+' {
                RangeKeyCommand::StepUp
            } else {
                RangeKeyCommand::Ignore
            },
            KeyCode::PageDown => RangeKeyCommand::PageDown,
            KeyCode::PageUp => RangeKeyCommand::PageUp,
            KeyCode::Home => RangeKeyCommand::Home,
            KeyCode::End => RangeKeyCommand::End,
            _ => RangeKeyCommand::Ignore,
        }
    }
}

/// What a key asks of a range slider (see [`range_key_spec`]).
pub fn range_key_command(focused: bool, can_edit: bool, key: KeyEvent) -> (c: RangeKeyCommand)
    ensures
        c == range_key_spec(focused, can_edit, key),
{
    if !focused || !can_edit || !key.is_press() {
        return RangeKeyCommand::Ignore;
    }
    match key.code {
        KeyCode::Tab | KeyCode::BackTab => RangeKeyCommand::SwitchThumb,
        KeyCode::Left | KeyCode::Down => RangeKeyCommand::StepDown,
        KeyCode::Right | KeyCode::Up => RangeKeyCommand::StepUp,
        KeyCode::Char(c) => if c == 'h' || c == '-' {
            RangeKeyCommand::StepDown
        } else if c == 'l' || c == '+' {
            RangeKeyCommand::StepUp
        } else {
            RangeKeyCommand::Ignore
        },
        KeyCode::PageDown => RangeKeyCommand::PageDown,
        KeyCode::PageUp => RangeKeyCommand::PageUp,
        KeyCode::Home => RangeKeyCommand::Home,
        KeyCode::End => RangeKeyCommand::End,
        _ => RangeKeyCommand::Ignore,
    }
}

/// Where a slider painted, as the pointer handling reads it.
#[derive(Debug, Clone, Copy, PartialEq, Eq, Structural)]
pub struct SliderParts {
    /// The whole control.
    pub root: Rect,
    /// The track (none on the numeric face).
    pub track: Option<Rect>,
    /// The handle cell.
    pub handle: Option<Rect>,
    /// The value text.
    pub value_area: Option<Rect>,
    /// The label.
    pub label_area: Option<Rect>,
    /// Whether only the number was painted.
    pub numeric_only: bool,
}

/// Where a range slider painted.
#[derive(Debug, Clone, Copy, PartialEq, Eq, Structural)]
pub struct RangeSliderParts {
    /// The whole control.
    pub root: Rect,
    /// The track (none on the numeric face).
    pub track: Option<Rect>,
    /// The start thumb.
    pub start_handle: Option<Rect>,
    /// The end thumb.
    pub end_handle: Option<Rect>,
    /// The value text.
    pub value_area: Option<Rect>,
    /// Whether only the numbers were painted.
    pub numeric_only: bool,
}

/// What a pointer event asks of a slider.
#[derive(Debug, Clone, Copy, PartialEq, Eq, Hash, Structural)]
pub enum PointerCommand {
    /// Nothing.
    Ignore,
    /// Take the value under the pointer.
    FromPointer,
    /// One step down.
    StepDown,
    /// One step up.
    StepUp,
}

/// A pointer event's effect on a slider's flags, and what it asks.
#[derive(Debug, Clone, Copy, PartialEq, Eq, Hash, Structural)]
pub struct PointerStep {
    /// New hover flag, when it changes.
    pub hovered: Option<bool>,
    /// Whether the slider takes focus.
    pub focus: bool,
    /// New dragging flag, when it changes.
    pub dragging: Option<bool>,
    /// The request.
    pub command: PointerCommand,
}

/// A single slider's reading of a pointer event, given whether it can be
/// edited, where it last painted, whether numeric entry is on and whether
/// a drag is under way: nothing without paint, during entry, or when it
/// cannot be edited; a move updates hover and drags the value; a left press
/// inside focuses, starts a drag and takes the value; a left release ends
/// the drag; the wheel inside focuses and steps.
pub open spec fn slider_pointer_spec(can_edit: bool, parts: Option<SliderParts>, editing: bool, dragging: bool, ev: MouseEvent) -> PointerStep {
    let none = PointerStep { hovered: None, focus: false, dragging: None, command: PointerCommand::Ignore };
    if !can_edit || parts is None || editing {
        none
    } else {
        let inside = parts->0.root.contains_spec(ev.position);
        match ev.kind {
            MouseEventKind::Moved | MouseEventKind::Drag(_) => PointerStep {
                hovered: Some(inside),
                command: if dragging { PointerCommand::FromPointer } else { PointerCommand::Ignore },
                ..none
            },
            MouseEventKind::Down(MouseButton::Left) => if inside {
                PointerStep { hovered: None, focus: true, dragging: Some(true), command: PointerCommand::FromPointer }
            } else {
                none
            },
            MouseEventKind::Up(MouseButton::Left) => PointerStep { dragging: Some(false), ..none },
            MouseEventKind::ScrollDown => if inside { PointerStep { focus: true, command: PointerCommand::StepDown, ..none } } else { none },
            MouseEventKind::ScrollUp => if inside { PointerStep { focus: true, command: PointerCommand::StepUp, ..none } } else { none },
            _ => none,
        }
    }
}

/// A single slider's reading of a pointer event (see [`slider_pointer_spec`]).
pub fn slider_pointer_step(can_edit: bool, parts: Option<SliderParts>, editing: bool, dragging: bool, ev: MouseEvent) -> (s: PointerStep)
    ensures
        s == slider_pointer_spec(can_edit, parts, editing, dragging, ev),
{
    let none = PointerStep { hovered: None, focus: false, dragging: None, command: PointerCommand::Ignore };
    let p = match parts {
        Some(p) => p,
        None => return none,
    };
    if !can_edit || editing {
        return none;
    }
    let inside = p.root.contains(ev.position);
    match ev.kind {
        MouseEventKind::Moved | MouseEventKind::Drag(_) => PointerStep {
            hovered: Some(inside),
            focus: false,
            dragging: None,
            command: if dragging { PointerCommand::FromPointer } else { PointerCommand::Ignore },
        },
        MouseEventKind::Down(MouseButton::Left) => if inside {
            PointerStep { hovered: None, focus: true, dragging: Some(true), command: PointerCommand::FromPointer }
        } else {
            none
        },
        MouseEventKind::Up(MouseButton::Left) => PointerStep { hovered: None, focus: false, dragging: Some(false), command: PointerCommand::Ignore },
        MouseEventKind::ScrollDown => if inside {
            PointerStep { hovered: None, focus: true, dragging: None, command: PointerCommand::StepDown }
        } else {
            none
        },
        MouseEventKind::ScrollUp => if inside {
            PointerStep { hovered: None, focus: true, dragging: None, command: PointerCommand::StepUp }
        } else {
            none
        },
        _ => none,
    }
}

/// A range slider's reading of a pointer event.
#[derive(Debug, Clone, Copy, PartialEq, Eq, Hash, Structural)]
pub struct RangePointerStep {
    /// New hover flag, when it changes.
    pub hovered: Option<bool>,
    /// Whether the slider takes focus.
    pub focus: bool,
    /// New dragging flag, when it changes.
    pub dragging: Option<bool>,
    /// The active thumb after the event.
    pub active: RangeThumb,
    /// Whether the active thumb takes the value under the pointer.
    pub from_pointer: bool,
}

/// The thumb nearer to column `x`; the start thumb on a tie.
pub open spec fn nearer_thumb_spec(x: int, start_x: int, end_x: int) -> RangeThumb {
    let ds = if x >= start_x { x - start_x } else { start_x - x };
    let de = if x >= end_x { x - end_x } else { end_x - x };
    if ds <= de { RangeThumb::Start } else { RangeThumb::End }
}

/// A range slider's reading of a pointer event: like a single slider's,
/// without the wheel; a left press inside also makes the nearer painted
/// thumb active.
pub open spec fn range_pointer_spec(can_edit: bool, parts: Option<RangeSliderParts>, dragging: bool, active: RangeThumb, ev: MouseEvent) -> RangePointerStep {
    let none = RangePointerStep { hovered: None, focus: false, dragging: None, active, from_pointer: false };
    if !can_edit || parts is None {
        none
    } else {
        let p = parts->0;
        let inside = p.root.contains_spec(ev.position);
        match ev.kind {
            MouseEventKind::Moved | MouseEventKind::Drag(_) => RangePointerStep { hovered: Some(inside), from_pointer: dragging, ..none },
            MouseEventKind::Down(MouseButton::Left) => if inside {
                let thumb = match (p.start_handle, p.end_handle) {
                    (Some(s), Some(e)) => nearer_thumb_spec(ev.position.x as int, s.x as int, e.x as int),
                    _ => active,
                };
                RangePointerStep { hovered: None, focus: true, dragging: Some(true), active: thumb, from_pointer: true }
            } else {
                none
            },
            MouseEventKind::Up(MouseButton::Left) => RangePointerStep { dragging: Some(false), ..none },
            _ => none,
        }
    }
}

/// A range slider's reading of a pointer event (see [`range_pointer_spec`]).
pub fn range_pointer_step(can_edit: bool, parts: Option<RangeSliderParts>, dragging: bool, active: RangeThumb, ev: MouseEvent) -> (s: RangePointerStep)
    ensures
        s == range_pointer_spec(can_edit, parts, dragging, active, ev),
{
    let none = RangePointerStep { hovered: None, focus: false, dragging: None, active, from_pointer: false };
    let p = match parts {
        Some(p) => p,
        None => return none,
    };
    if !can_edit {
        return none;
    }
    let inside = p.root.contains(ev.position);
    match ev.kind {
        MouseEventKind::Moved | MouseEventKind::Drag(_) => RangePointerStep {
            hovered: Some(inside),
            focus: false,
            dragging: None,
            active,
            from_pointer: dragging,
        },
        MouseEventKind::Down(MouseButton::Left) => if inside {
            let thumb = match (p.start_handle, p.end_handle) {
                (Some(s), Some(e)) => {
                    let x = ev.position.x;
                    let ds = if x >= s.x { x - s.x } else { s.x - x };
                    let de = if x >= e.x { x - e.x } else { e.x - x };
                    if ds <= de { RangeThumb::Start } else { RangeThumb::End }
                },
                _ => active,
            };
            RangePointerStep { hovered: None, focus: true, dragging: Some(true), active: thumb, from_pointer: true }
        } else {
            none
        },
        MouseEventKind::Up(MouseButton::Left) => RangePointerStep { hovered: None, focus: false, dragging: Some(false), active, from_pointer: false },
        _ => none,
    }
}

/// The track cell under the pointer and the track's last index: the
/// pointer is clamped onto the track (along its length: columns left to
/// right, rows bottom to top). None on the numeric face or an empty track.
pub open spec fn pointer_index_spec(parts_numeric: bool, track: Option<Rect>, orientation: SliderOrientation, pos: Position) -> Option<(u16, u16)> {
    if parts_numeric || track is None {
        None
    } else {
        let t = track->0;
        match orientation {
            SliderOrientation::Horizontal => if t.width == 0 {
                None
            } else {
                let hi = sat_sub(t.right_spec(), 1);
                let x = if (pos.x as int) < t.x { t.x as int } else if pos.x > hi { hi } else { pos.x as int };
                Some((sat_sub(x, t.x as int) as u16, (t.width - 1) as u16))
            },
            SliderOrientation::Vertical => if t.height == 0 {
                None
            } else {
                let hi = sat_sub(t.bottom_spec(), 1);
                let y = if (pos.y as int) < t.y { t.y as int } else if pos.y > hi { hi } else { pos.y as int };
                Some((sat_sub(hi, y) as u16, (t.height - 1) as u16))
            },
        }
    }
}

/// The track cell under the pointer (see [`pointer_index_spec`]).
pub fn pointer_index(numeric: bool, track: Option<Rect>, orientation: SliderOrientation, pos: Position) -> (r: Option<(u16, u16)>)
    ensures
        r == pointer_index_spec(numeric, track, orientation, pos),
{
    let t = match track {
        Some(t) => t,
        None => return None,
    };
    if numeric {
        return None;
    }
    match orientation {
        SliderOrientation::Horizontal => if t.width == 0 {
            None
        } else {
            let hi = t.right().saturating_sub(1);
            let x = if pos.x < t.x { t.x } else if pos.x > hi { hi } else { pos.x };
            Some((x.saturating_sub(t.x), t.width - 1))
        },
        SliderOrientation::Vertical => if t.height == 0 {
            None
        } else {
            let hi = t.bottom().saturating_sub(1);
            let y = if pos.y < t.y { t.y } else if pos.y > hi { hi } else { pos.y };
            Some((hi.saturating_sub(y), t.height - 1))
        },
    }
}

} // verus!

verus! {

/// A horizontal slider's parts stay apart inside its area: the track lies
/// inside it on the label's next row (or the first row), at least the
/// minimum track wide when the area allows; the value slot lies inside it,
/// on the track's row, starting at or after the track's right edge.
pub proof fn law_slider_row_inside(area: Rect, label_cols: Option<u16>, value_cols: Option<u16>, range: bool)
    requires
        area.width > 0,
        area.height > 0,
        area.x + area.width <= u16::MAX,
        area.y + area.height <= u16::MAX,
    ensures
        ({
            let r = slider_row_spec(area, label_cols, value_cols, range);
            let floor: int = if SLIDER_MIN_TRACK < area.width { SLIDER_MIN_TRACK as int } else { area.width as int };
            &&& rect_inside(r.track, area)
            &&& r.track.width >= floor
            &&& r.track.height == 1
            &&& (r.label_area matches Some(l) ==> rect_inside(l, area) && l.y == area.y && r.track.y == area.y + 1)
            &&& (r.label_area is None ==> r.track.y == area.y)
            &&& (r.value_slot matches Some(v) ==> {
                &&& rect_inside(v, area)
                &&& v.y == r.track.y
                &&& r.track.x + r.track.width <= v.x
            })
        }),
{
}

/// Pointing at a painted handle finds it again: on a horizontal track the
/// handle at cell `index` maps back to `index`; on a vertical track the
/// handle `index` cells above the last row maps back to `index`.
pub proof fn law_pointer_finds_handle(track: Rect, index: u16, pos_y: u16, pos_x: u16)
    requires
        track.x + track.width <= u16::MAX,
        track.y + track.height <= u16::MAX,
    ensures
        index < track.width ==> pointer_index_spec(false, Some(track), SliderOrientation::Horizontal,
            Position { x: handle_rect_spec(track, index as int).x, y: pos_y }) == Some((index, (track.width - 1) as u16)),
        index < track.height ==> pointer_index_spec(false, Some(track), SliderOrientation::Vertical,
            Position { x: pos_x, y: vertical_handle_y_spec(track, index as int) as u16 }) == Some((index, (track.height - 1) as u16)),
{
}

} // verus!

verus! {

/// Which way a slider command moves the value: down, up, or neither.
pub open spec fn slider_direction(c: SliderKeyCommand) -> int {
    match c {
        SliderKeyCommand::StepDown | SliderKeyCommand::PageDown | SliderKeyCommand::ToMin => -1,
        SliderKeyCommand::StepUp | SliderKeyCommand::PageUp | SliderKeyCommand::ToMax => 1,
        _ => 0,
    }
}

/// Which way a range-slider command moves the active thumb.
pub open spec fn range_direction(c: RangeKeyCommand) -> int {
    match c {
        RangeKeyCommand::StepDown | RangeKeyCommand::PageDown | RangeKeyCommand::Home => -1,
        RangeKeyCommand::StepUp | RangeKeyCommand::PageUp | RangeKeyCommand::End => 1,
        _ => 0,
    }
}

/// On a focused, editable slider outside entry, every key press moves the
/// value the way its key points: PageDown pages it down and PageUp up, the
/// left and down arrows and `h` step it down, the right and up arrows and
/// `l` step it up, Home and End jump to the ends; a key and its opposite
/// never move the same way.
pub proof fn law_slider_keys_point_their_way(can_edit: bool, edit_len: nat, key: KeyEvent)
    requires
        can_edit,
        key.kind == KeyEventKind::Press,
    ensures
        ({
            let c = slider_key_spec(true, can_edit, false, edit_len, key);
            &&& key.code == KeyCode::PageDown ==> c == SliderKeyCommand::PageDown && slider_direction(c) == -1
            &&& key.code == KeyCode::PageUp ==> c == SliderKeyCommand::PageUp && slider_direction(c) == 1
            &&& (key.code == KeyCode::Left || key.code == KeyCode::Down || key.code == KeyCode::Char('h'))
                ==> c == SliderKeyCommand::StepDown && slider_direction(c) == -1
            &&& (key.code == KeyCode::Right || key.code == KeyCode::Up || key.code == KeyCode::Char('l'))
                ==> c == SliderKeyCommand::StepUp && slider_direction(c) == 1
            &&& key.code == KeyCode::Home ==> c == SliderKeyCommand::ToMin
            &&& key.code == KeyCode::End ==> c == SliderKeyCommand::ToMax
        }),
        slider_direction(slider_key_spec(true, can_edit, false, edit_len, KeyEvent { code: KeyCode::PageDown, ..key }))
            == -slider_direction(slider_key_spec(true, can_edit, false, edit_len, KeyEvent { code: KeyCode::PageUp, ..key })),
        slider_direction(slider_key_spec(true, can_edit, false, edit_len, KeyEvent { code: KeyCode::Char('h'), ..key }))
            == -slider_direction(slider_key_spec(true, can_edit, false, edit_len, KeyEvent { code: KeyCode::Char('l'), ..key })),
        slider_direction(slider_key_spec(true, can_edit, false, edit_len, KeyEvent { code: KeyCode::Left, ..key }))
            == -slider_direction(slider_key_spec(true, can_edit, false, edit_len, KeyEvent { code: KeyCode::Right, ..key })),
{
}

/// While a focused slider takes an entry, Esc cancels it, Enter commits it,
/// Backspace erases, and a digit is appended while the entry has room.
pub proof fn law_slider_entry_keys(can_edit: bool, edit_len: nat, key: KeyEvent)
    requires
        key.kind == KeyEventKind::Press,
    ensures
        ({
            let c = slider_key_spec(true, can_edit, true, edit_len, key);
            &&& key.code == KeyCode::Esc ==> c == SliderKeyCommand::CancelEdit
            &&& key.code == KeyCode::Enter ==> c == SliderKeyCommand::CommitEdit
            &&& key.code == KeyCode::Backspace ==> c == SliderKeyCommand::EraseEdit
            &&& (key.code matches KeyCode::Char(d) && '0' <= d <= '9' && edit_len < SLIDER_EDIT_MAX)
                ==> c == SliderKeyCommand::PushEdit(key.code->Char_0)
            &&& (key.code == KeyCode::PageDown || key.code == KeyCode::PageUp) ==> c == SliderKeyCommand::Ignore
        }),
        slider_key_spec(false, can_edit, true, edit_len, key) == SliderKeyCommand::Ignore,
{
}

/// On a focused, editable range slider, every key press moves the active
/// thumb the way its key points, and a key and its opposite move it in
/// opposite directions.
pub proof fn law_range_keys_point_their_way(key: KeyEvent)
    requires
        key.kind == KeyEventKind::Press,
    ensures
        ({
            let c = range_key_spec(true, true, key);
            &&& key.code == KeyCode::PageDown ==> c == RangeKeyCommand::PageDown && range_direction(c) == -1
            &&& key.code == KeyCode::PageUp ==> c == RangeKeyCommand::PageUp && range_direction(c) == 1
            &&& (key.code == KeyCode::Left || key.code == KeyCode::Down || key.code == KeyCode::Char('h')
                || key.code == KeyCode::Char('-')) ==> c == RangeKeyCommand::StepDown
            &&& (key.code == KeyCode::Right || key.code == KeyCode::Up || key.code == KeyCode::Char('l')
                || key.code == KeyCode::Char('+')) ==> c == RangeKeyCommand::StepUp
            &&& key.code == KeyCode::Home ==> c == RangeKeyCommand::Home
            &&& key.code == KeyCode::End ==> c == RangeKeyCommand::End
        }),
        range_direction(range_key_spec(true, true, KeyEvent { code: KeyCode::PageDown, ..key }))
            == -range_direction(range_key_spec(true, true, KeyEvent { code: KeyCode::PageUp, ..key })),
        range_direction(range_key_spec(true, true, KeyEvent { code: KeyCode::Char('h'), ..key }))
            == -range_direction(range_key_spec(true, true, KeyEvent { code: KeyCode::Char('l'), ..key })),
{
}

} // verus!
