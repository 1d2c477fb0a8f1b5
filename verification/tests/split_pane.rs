use termrock::geometry::{Position, Rect};
use termrock::input::{KeyCode, KeyEvent, KeyModifiers};
use termrock::split_pane::{resolve_feasible_split, SplitDirection, SplitPane, SplitPaneState, SplitRatio, SplitSide};
use termrock::style::DesignSystem;

#[test]
fn ratio_is_bounded() {
    assert_eq!(SplitRatio::from_basis_points(100).basis_points(), 500);
    assert_eq!(SplitRatio::from_basis_points(9999).basis_points(), 9500);
    assert_eq!(SplitRatio::from_percent(50).basis_points(), 5000);
    assert_eq!(SplitRatio::from_percent(1).basis_points(), 500);
}

#[test]
fn layout_partitions_the_area() {
    let system = DesignSystem::new();
    let pane = SplitPane::new(SplitDirection::Horizontal, 3, 3, &system);
    let mut state = SplitPaneState::new(SplitRatio::from_percent(50));
    let l = pane.layout(Rect::new(0, 0, 21, 5), &mut state);
    assert_eq!(l.first.width + l.divider.width + l.second.width, 21);
    assert_eq!(l.divider.width, 1);
    assert_eq!(l.first.width, 10);
    assert_eq!(l.second.x, 11);
}

#[test]
fn keyboard_ratio_reaches_target_cell() {
    let f = resolve_feasible_split(40, 2, 2).unwrap();
    for t in 2..=38u16 {
        let r = f.ratio_for_keyboard(t);
        let first = f.first_for_ratio(r);
        assert!(first >= f.clamp_first(t), "t={t} first={first}");
    }
    assert!(resolve_feasible_split(3, 2, 2).is_none());
}

#[test]
fn collapse_and_keys() {
    let system = DesignSystem::new();
    let pane = SplitPane::new(SplitDirection::Vertical, 2, 2, &system);
    let mut state = SplitPaneState::new(SplitRatio::even());
    let _ = pane.record_paint(Rect::new(0, 0, 10, 21), &mut state);
    state.set_focused(true);
    let _ = state.handle_key(&pane, KeyEvent::new(KeyCode::Down, KeyModifiers::NONE));
    assert!(state.ratio().basis_points() > 5000);
    let _ = state.collapse(SplitSide::First);
    assert_eq!(state.collapsed(), Some(SplitSide::First));
    let l = pane.layout(Rect::new(0, 0, 10, 21), &mut state);
    assert_eq!(l.second, Rect::new(0, 0, 10, 21));
    let _ = state.expand();
    assert_eq!(state.collapsed(), None);
    let _ = state.hover(&pane, Position::new(0, 0));
}

#[test]
fn default_ratio_is_even() {
    assert_eq!(SplitRatio::default(), SplitRatio::even());
    assert_eq!(SplitRatio::default(), SplitRatio::from_percent(50));
}
