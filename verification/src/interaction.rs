//! Interaction vocabulary shared by widgets: painted hit regions and the
//! semantic outcome of an input event.

use vstd::prelude::*;
use vstd::laws_eq::obeys_concrete_eq;
use crate::geometry::Rect;
use crate::input::{KeyCode, KeyEvent, KeyEventKind};

verus! {

/// A painted, addressable area and the identity it belongs to.
#[derive(Debug, Clone, Copy, PartialEq, Eq)]
pub struct HitRegion<Id> {
    /// Identity of the painted item.
    pub id: Id,
    /// Painted cells.
    pub area: Rect,
}

/// What an input event meant to a widget.
#[derive(Debug, Clone, Copy, PartialEq, Eq)]
pub enum Outcome<Id> {
    /// The event was not for this widget.
    Ignored,
    /// The item was activated.
    Activated(Id),
    /// The item was selected.
    Selected(Id),
    /// The roving cursor moved to the item.
    CursorMoved(Id),
    /// The host should remove the item.
    Remove(Id),
    /// The host should add an item.
    Add,
    /// The value changed.
    Changed,
    /// The focused part of an item changed.
    PartChanged(Id),
    /// The item was unselected.
    Unselected(Id),
}


/// A move of a roving cursor.
#[derive(Debug, Clone, Copy, PartialEq, Eq, Hash, Structural)]
pub enum NavigationMove {
    /// To the first item.
    First,
    /// To the last item.
    Last,
    /// One back.
    Previous,
    /// One forward.
    Next,
    /// One column left.
    Left,
    /// One column right.
    Right,
    /// One row up.
    Up,
    /// One row down.
    Down,
}

/// A page-sized move.
#[derive(Debug, Clone, Copy, PartialEq, Eq, Hash, Structural)]
pub enum PageMove {
    /// One page back.
    Backward,
    /// One page forward.
    Forward,
}

/// What a key means to a control.
#[derive(Debug, Clone, Copy, PartialEq, Eq, Hash, Structural)]
pub enum UiIntent {
    /// Activate (Enter).
    Activate,
    /// Toggle (Space).
    Toggle,
    /// Cancel (Esc).
    Cancel,
    /// Move a cursor.
    Move(NavigationMove),
    /// Move a cursor by a page.
    Page(PageMove),
    /// Open the item.
    Open,
    /// Submit.
    Submit,
    /// Close the item or layer.
    Close,
    /// Expand.
    Expand,
    /// Collapse.
    Collapse,
}

/// The button intent of a key: Enter activates, Space toggles.
pub open spec fn button_intent_spec(key: KeyEvent) -> Option<UiIntent> {
    match key.code {
        KeyCode::Enter => Some(UiIntent::Activate),
        KeyCode::Char(c) => if c == ' ' { Some(UiIntent::Toggle) } else { None },
        _ => None,
    }
}

/// The button intent of a key (see [`button_intent_spec`]).
pub fn default_button_intent(key: KeyEvent) -> (r: Option<UiIntent>)
    ensures
        r == button_intent_spec(key),
{
    match key.code {
        KeyCode::Enter => Some(UiIntent::Activate),
        KeyCode::Char(c) => if c == ' ' { Some(UiIntent::Toggle) } else { None },
        _ => None,
    }
}


/// Key map of a table: arrows move by row and column, Home and End jump,
/// Page keys move by a page, Enter activates and Esc cancels; releases mean
/// nothing.
pub open spec fn table_intent_spec(key: KeyEvent) -> Option<UiIntent> {
    if key.kind == KeyEventKind::Release {
        None
    } else {
        match key.code {
            KeyCode::Up => Some(UiIntent::Move(NavigationMove::Up)),
            KeyCode::Down => Some(UiIntent::Move(NavigationMove::Down)),
            KeyCode::Left => Some(UiIntent::Move(NavigationMove::Left)),
            KeyCode::Right => Some(UiIntent::Move(NavigationMove::Right)),
            KeyCode::Home => Some(UiIntent::Move(NavigationMove::First)),
            KeyCode::End => Some(UiIntent::Move(NavigationMove::Last)),
            KeyCode::PageUp => Some(UiIntent::Page(PageMove::Backward)),
            KeyCode::PageDown => Some(UiIntent::Page(PageMove::Forward)),
            KeyCode::Enter => Some(UiIntent::Activate),
            KeyCode::Esc => Some(UiIntent::Cancel),
            _ => None,
        }
    }
}

/// Key map of a table (see [`table_intent_spec`]).
pub fn default_table_intent(key: KeyEvent) -> (r: Option<UiIntent>)
    ensures
        r == table_intent_spec(key),
{
    if key.kind == KeyEventKind::Release {
        return None;
    }
    match key.code {
        KeyCode::Up => Some(UiIntent::Move(NavigationMove::Up)),
        KeyCode::Down => Some(UiIntent::Move(NavigationMove::Down)),
        KeyCode::Left => Some(UiIntent::Move(NavigationMove::Left)),
        KeyCode::Right => Some(UiIntent::Move(NavigationMove::Right)),
        KeyCode::Home => Some(UiIntent::Move(NavigationMove::First)),
        KeyCode::End => Some(UiIntent::Move(NavigationMove::Last)),
        KeyCode::PageUp => Some(UiIntent::Page(PageMove::Backward)),
        KeyCode::PageDown => Some(UiIntent::Page(PageMove::Forward)),
        KeyCode::Enter => Some(UiIntent::Activate),
        KeyCode::Esc => Some(UiIntent::Cancel),
        _ => None,
    }
}


/// Axis along which arrow keys move a roving cursor.
#[derive(Debug, Clone, Copy, PartialEq, Eq, Hash, Structural)]
pub enum RovingOrientation {
    /// Left and Right move.
    Horizontal,
    /// Up and Down move.
    Vertical,
}

impl Default for RovingOrientation {
    /// `Horizontal`.
    fn default() -> (r: RovingOrientation)
        ensures
            r == RovingOrientation::Horizontal,
    {
        RovingOrientation::Horizontal
    }
}

/// The first enabled index in `from .. to`.
pub open spec fn next_enabled_in(enabled: Seq<bool>, from: int, to: int) -> Option<int>
    decreases to - from,
{
    if from >= to || from < 0 || to > enabled.len() {
        None
    } else if enabled[from] {
        Some(from)
    } else {
        next_enabled_in(enabled, from + 1, to)
    }
}

/// The last enabled index in `from .. to`.
pub open spec fn prev_enabled_in(enabled: Seq<bool>, from: int, to: int) -> Option<int>
    decreases to - from,
{
    if from >= to || from < 0 || to > enabled.len() {
        None
    } else if enabled[to - 1] {
        Some(to - 1)
    } else {
        prev_enabled_in(enabled, from, to - 1)
    }
}

/// One enabled item forward from `at` (from the start without a position),
/// wrapping to the start when `wrap` is set.
pub open spec fn roving_forward(enabled: Seq<bool>, at: Option<int>, wrap: bool) -> Option<int> {
    let n = enabled.len() as int;
    match at {
        None => next_enabled_in(enabled, 0, n),
        Some(i) => match next_enabled_in(enabled, i + 1, n) {
            Some(k) => Some(k),
            None => if wrap { next_enabled_in(enabled, 0, i) } else { None },
        },
    }
}

/// One enabled item back from `at` (from the end without a position),
/// wrapping to the end when `wrap` is set.
pub open spec fn roving_backward(enabled: Seq<bool>, at: Option<int>, wrap: bool) -> Option<int> {
    let n = enabled.len() as int;
    match at {
        None => prev_enabled_in(enabled, 0, n),
        Some(i) => match prev_enabled_in(enabled, 0, i) {
            Some(k) => Some(k),
            None => if wrap { prev_enabled_in(enabled, i + 1, n) } else { None },
        },
    }
}

/// Where a roving cursor at `at` goes on a move: only to enabled items;
/// First and Last jump to the ends; Previous and Next step; the arrows of
/// the cursor's axis step and the others do nothing.
pub open spec fn roving_target(
    enabled: Seq<bool>,
    at: Option<int>,
    mv: NavigationMove,
    wrap: bool,
    orientation: RovingOrientation,
) -> Option<int> {
    let n = enabled.len() as int;
    match mv {
        NavigationMove::First => next_enabled_in(enabled, 0, n),
        NavigationMove::Last => prev_enabled_in(enabled, 0, n),
        NavigationMove::Previous => roving_backward(enabled, at, wrap),
        NavigationMove::Next => roving_forward(enabled, at, wrap),
        NavigationMove::Left => if orientation == RovingOrientation::Horizontal { roving_backward(enabled, at, wrap) } else { None },
        NavigationMove::Right => if orientation == RovingOrientation::Horizontal { roving_forward(enabled, at, wrap) } else { None },
        NavigationMove::Up => if orientation == RovingOrientation::Vertical { roving_backward(enabled, at, wrap) } else { None },
        NavigationMove::Down => if orientation == RovingOrientation::Vertical { roving_forward(enabled, at, wrap) } else { None },
    }
}

/// The first enabled index in `from .. to`.
fn next_enabled(enabled: &Vec<bool>, from: usize, to: usize) -> (r: Option<usize>)
    requires
        to <= enabled@.len(),
    ensures
        match r { Some(k) => next_enabled_in(enabled@, from as int, to as int) == Some(k as int), None => next_enabled_in(enabled@, from as int, to as int) is None },
{
    let mut k = from;
    while k < to
        invariant
            from <= k,
            to <= enabled@.len(),
            next_enabled_in(enabled@, from as int, to as int) == next_enabled_in(enabled@, k as int, to as int),
        decreases to - k,
    {
        if enabled[k] {
            return Some(k);
        }
        k = k + 1;
    }
    None
}

/// The last enabled index in `from .. to`.
fn prev_enabled(enabled: &Vec<bool>, from: usize, to: usize) -> (r: Option<usize>)
    requires
        to <= enabled@.len(),
    ensures
        match r { Some(k) => prev_enabled_in(enabled@, from as int, to as int) == Some(k as int), None => prev_enabled_in(enabled@, from as int, to as int) is None },
{
    if from >= to {
        return None;
    }
    let mut k = to;
    while k > from
        invariant
            from <= k <= to,
            to <= enabled@.len(),
            prev_enabled_in(enabled@, from as int, to as int) == prev_enabled_in(enabled@, from as int, k as int),
        decreases k - from,
    {
        if enabled[k - 1] {
            return Some(k - 1);
        }
        k = k - 1;
    }
    None
}

/// Where a roving cursor at `at` goes on a move (see [`roving_target`]).
pub fn roving_move(
    enabled: &Vec<bool>,
    at: Option<usize>,
    mv: NavigationMove,
    wrap: bool,
    orientation: RovingOrientation,
) -> (r: Option<usize>)
    requires
        at matches Some(i) ==> i < enabled@.len(),
    ensures
        match r {
            Some(k) => roving_target(enabled@, match at { Some(i) => Some(i as int), None => None }, mv, wrap, orientation) == Some(k as int),
            None => roving_target(enabled@, match at { Some(i) => Some(i as int), None => None }, mv, wrap, orientation) is None,
        },
{
    let n = enabled.len();
    let horizontal = match orientation {
        RovingOrientation::Horizontal => true,
        RovingOrientation::Vertical => false,
    };
    let forward = match mv {
        NavigationMove::First => return next_enabled(enabled, 0, n),
        NavigationMove::Last => return prev_enabled(enabled, 0, n),
        NavigationMove::Previous => false,
        NavigationMove::Next => true,
        NavigationMove::Left => if horizontal { false } else { return None },
        NavigationMove::Right => if horizontal { true } else { return None },
        NavigationMove::Up => if !horizontal { false } else { return None },
        NavigationMove::Down => if !horizontal { true } else { return None },
    };
    if forward {
        match at {
            None => next_enabled(enabled, 0, n),
            Some(i) => match next_enabled(enabled, i + 1, n) {
                Some(k) => Some(k),
                None => if wrap { next_enabled(enabled, 0, i) } else { None },
            },
        }
    } else {
        match at {
            None => prev_enabled(enabled, 0, n),
            Some(i) => match prev_enabled(enabled, 0, i) {
                Some(k) => Some(k),
                None => if wrap { prev_enabled(enabled, i + 1, n) } else { None },
            },
        }
    }
}

/// Whether two identities are equal, for a type whose `==` is equality.
pub(crate) fn same<T: PartialEq>(a: &T, b: &T) -> (r: bool)
    requires
        obeys_concrete_eq::<T>(),
    ensures
        r == (*a == *b),
{
    proof {
        reveal(obeys_concrete_eq);
    }
    *a == *b
}

/// A roving move lands on an enabled item.
pub proof fn lemma_roving_lands_on_enabled(enabled: Seq<bool>, at: Option<int>, mv: NavigationMove, wrap: bool, o: RovingOrientation)
    requires
        at matches Some(i) ==> 0 <= i < enabled.len(),
    ensures
        roving_target(enabled, at, mv, wrap, o) matches Some(k) ==> 0 <= k < enabled.len() && enabled[k],
{
    let n = enabled.len() as int;
    lemma_next_in(enabled, 0, n);
    lemma_prev_in(enabled, 0, n);
    if let Some(i) = at {
        lemma_next_in(enabled, i + 1, n);
        lemma_next_in(enabled, 0, i);
        lemma_prev_in(enabled, 0, i);
        lemma_prev_in(enabled, i + 1, n);
    }
}

proof fn lemma_next_in(enabled: Seq<bool>, from: int, to: int)
    ensures
        next_enabled_in(enabled, from, to) matches Some(k) ==> from <= k < to && 0 <= k < enabled.len() && enabled[k],
    decreases to - from,
{
    if from < to && from >= 0 && to <= enabled.len() && !enabled[from] {
        lemma_next_in(enabled, from + 1, to);
    }
}

proof fn lemma_prev_in(enabled: Seq<bool>, from: int, to: int)
    ensures
        prev_enabled_in(enabled, from, to) matches Some(k) ==> from <= k < to && 0 <= k < enabled.len() && enabled[k],
    decreases to - from,
{
    if from < to && from >= 0 && to <= enabled.len() && !enabled[to - 1] {
        lemma_prev_in(enabled, from, to - 1);
    }
}


} // verus!
