use termrock::geometry::{Position, Rect};
use termrock::input::{KeyCode, KeyEvent, KeyEventKind, KeyModifiers, MouseButton, MouseEvent, MouseEventKind};
use termrock::interaction::{NavigationMove, UiIntent};
use termrock::stepper::{
    default_stepper_intent, example_onboarding_steps, step_items_from_titles, stepper_presentation_for_bounds,
    StepItem, StepStatus, Stepper, StepperNavPolicy, StepperOrientation, StepperOutcome, StepperPieceKind,
    StepperPresentation, StepperState,
};
use termrock::style::{DesignSystem, Glyph};
use unicode_width::UnicodeWidthStr;

#[test]
fn marks_non_color() {
    assert_eq!(StepStatus::Complete.mark(), Glyph::Success.resolve());
    assert_eq!(StepStatus::Current.mark(), Glyph::SelectionMarker.resolve());
    assert_eq!(StepStatus::Error.mark(), Glyph::Error.resolve());
    assert_eq!(StepStatus::Disabled.mark(), Glyph::Remove.resolve());
    assert_eq!(StepStatus::Skipped.mark(), Glyph::Remove.resolve());
    assert_eq!(StepStatus::Optional.mark(), " ");
    assert_eq!(StepStatus::Future.mark(), " ");
    for status in [
        StepStatus::Complete,
        StepStatus::Current,
        StepStatus::Error,
        StepStatus::Disabled,
        StepStatus::Optional,
        StepStatus::Skipped,
        StepStatus::Future,
    ] {
        assert!(
            !status.mark().contains('[') && !status.mark().contains(']'),
            "checkbox well leaked from {status:?}: {:?}",
            status.mark()
        );
    }
}

#[test]
fn presentation_follows_bounds() {
    assert_eq!(stepper_presentation_for_bounds(Rect::new(0, 0, 28, 3), StepperOrientation::Horizontal), StepperPresentation::Menu);
    assert_eq!(stepper_presentation_for_bounds(Rect::new(0, 0, 48, 3), StepperOrientation::Horizontal), StepperPresentation::Compact);
    assert_eq!(stepper_presentation_for_bounds(Rect::new(0, 0, 49, 3), StepperOrientation::Horizontal), StepperPresentation::Expanded);
    assert_eq!(stepper_presentation_for_bounds(Rect::new(0, 0, 80, 8), StepperOrientation::Vertical), StepperPresentation::Numeric);
    assert_eq!(stepper_presentation_for_bounds(Rect::new(0, 0, 40, 20), StepperOrientation::Vertical), StepperPresentation::Compact);
    assert_eq!(stepper_presentation_for_bounds(Rect::new(0, 0, 80, 20), StepperOrientation::Vertical), StepperPresentation::Expanded);
}

#[test]
fn stepper_keys_follow_orientation() {
    let k = |code| KeyEvent::new(code, KeyModifiers::NONE);
    assert_eq!(default_stepper_intent(k(KeyCode::Char('l')), StepperOrientation::Horizontal), Some(UiIntent::Move(NavigationMove::Next)));
    assert_eq!(default_stepper_intent(k(KeyCode::Char('l')), StepperOrientation::Vertical), None);
    assert_eq!(default_stepper_intent(k(KeyCode::Char('j')), StepperOrientation::Vertical), Some(UiIntent::Move(NavigationMove::Next)));
    assert_eq!(default_stepper_intent(k(KeyCode::Up), StepperOrientation::Horizontal), Some(UiIntent::Move(NavigationMove::Previous)));
    assert_eq!(default_stepper_intent(k(KeyCode::Home), StepperOrientation::Vertical), Some(UiIntent::Move(NavigationMove::First)));
    assert_eq!(default_stepper_intent(k(KeyCode::Enter), StepperOrientation::Vertical), Some(UiIntent::Activate));
    assert_eq!(default_stepper_intent(k(KeyCode::Char(' ')), StepperOrientation::Vertical), Some(UiIntent::Toggle));
    assert_eq!(default_stepper_intent(k(KeyCode::Esc), StepperOrientation::Vertical), Some(UiIntent::Cancel));
    let repeat = KeyEvent::with_kind(KeyCode::Enter, KeyModifiers::NONE, KeyEventKind::Repeat);
    assert_eq!(default_stepper_intent(repeat, StepperOrientation::Vertical), None);
    let release = KeyEvent::with_kind(KeyCode::Home, KeyModifiers::NONE, KeyEventKind::Release);
    assert_eq!(default_stepper_intent(release, StepperOrientation::Vertical), None);
}

#[test]
fn step_items_get_indexed_ids() {
    let items = step_items_from_titles(&["One", "Two", "Three"]);
    assert_eq!(items.len(), 3);
    assert_eq!(items[0].id, "step-0");
    assert_eq!(items[2].id, "step-2");
    assert_eq!(items[1].title, "Two");
    let many: Vec<&str> = (0..12).map(|_| "x").collect();
    assert_eq!(step_items_from_titles(&many)[11].id, "step-11");
    let steps = example_onboarding_steps();
    assert_eq!(steps.len(), 4);
    assert!(steps[1].optional);
    assert_eq!(steps[3].description.as_deref(), Some("Confirm and finish"));
    assert!(StepStatus::Skipped.is_terminal_ok());
    assert!(!StepStatus::Current.is_terminal_ok());
}

fn steps() -> Vec<StepItem> {
    example_onboarding_steps()
}

fn focused_linear(n: usize) -> StepperState {
    let mut s = StepperState::with_len(n).policy(StepperNavPolicy::Linear);
    s.set_focused(true);
    s.set_current(0, n, false);
    s
}

fn press(x: u16, y: u16) -> MouseEvent {
    MouseEvent { kind: MouseEventKind::Down(MouseButton::Left), position: Position { x, y } }
}

/// Cells of each step's mark and title, without and with the join.
fn measure(items: &[StepItem], state: &StepperState) -> Vec<(u16, u16)> {
    items
        .iter()
        .enumerate()
        .map(|(i, step)| {
            let status = state.statuses().get(i).copied().unwrap_or_default();
            let opt = if step.optional { "◦" } else { "" };
            let content = format!("{} {}{}", status.mark(), opt, step.title);
            let w = UnicodeWidthStr::width(content.as_str()) as u16;
            (w, w + 3)
        })
        .collect()
}

#[test]
fn presentation_width() {
    assert_eq!(
        stepper_presentation_for_bounds(Rect::new(0, 0, 20, 5), StepperOrientation::Horizontal),
        StepperPresentation::Menu
    );
    assert_eq!(
        stepper_presentation_for_bounds(Rect::new(0, 0, 40, 5), StepperOrientation::Horizontal),
        StepperPresentation::Compact
    );
    assert_eq!(
        stepper_presentation_for_bounds(Rect::new(0, 0, 80, 5), StepperOrientation::Horizontal),
        StepperPresentation::Expanded
    );
}

#[test]
fn linear_blocks_future_jump() {
    let items = steps();
    let mut s = focused_linear(items.len());
    assert!(matches!(s.activate(2, &items), StepperOutcome::Ignored));
    s.set_current(1, items.len(), false);
    s.set_status(0, StepStatus::Complete);
    assert!(matches!(s.activate(0, &items), StepperOutcome::StepActivated { index: 0, .. }));
}

#[test]
fn free_policy_allows_any_enabled() {
    let items = steps();
    let mut s = focused_linear(items.len()).policy(StepperNavPolicy::Free);
    s.set_focused(true);
    assert!(matches!(s.activate(3, &items), StepperOutcome::StepActivated { index: 3, .. }));
}

#[test]
fn disabled_step_blocked() {
    let mut items = steps();
    items[1].disabled = true;
    let mut s = focused_linear(items.len()).policy(StepperNavPolicy::Free);
    s.set_focused(true);
    assert!(matches!(s.activate(1, &items), StepperOutcome::Ignored));
}

#[test]
fn mouse_activates_only_painted_step_hit() {
    let system = DesignSystem::new();
    let items = steps();
    let mut state = focused_linear(items.len()).policy(StepperNavPolicy::Free);
    let area = Rect::new(0, 0, 72, 3);
    let widget = Stepper::new(&items, &system);
    assert!(widget.prepare(area, &mut state));
    let widths = measure(&items, &state);
    let _ = widget.place(area, &mut state, &widths, 3);
    let (index, hit) = state.hits()[1];

    assert_eq!(
        state.handle_mouse(press(hit.x, hit.y), &items),
        StepperOutcome::StepActivated { index, id: items[index].id.clone() }
    );
}

#[test]
fn set_current_marks_progress() {
    let mut s = StepperState::with_len(4);
    assert_eq!(s.statuses(), &[StepStatus::Current, StepStatus::Future, StepStatus::Future, StepStatus::Future]);
    s.set_status(3, StepStatus::Optional);
    s.set_current(2, 4, false);
    assert_eq!(s.statuses(), &[StepStatus::Complete, StepStatus::Complete, StepStatus::Current, StepStatus::Optional]);
    assert_eq!(s.current(), 2);
    assert_eq!(s.cursor(), 2);
    s.set_status(0, StepStatus::Error);
    s.set_current(9, 4, true);
    assert_eq!(s.statuses(), &[StepStatus::Error, StepStatus::Complete, StepStatus::Complete, StepStatus::Current]);
    s.set_current(1, 0, false);
    assert!(s.statuses().is_empty());
    assert_eq!(s.current(), 0);
}

#[test]
fn activation_does_not_move_the_current_step() {
    let items = steps();
    let mut s = focused_linear(items.len()).policy(StepperNavPolicy::Host);
    assert!(matches!(s.activate(3, &items), StepperOutcome::StepActivated { index: 3, .. }));
    assert_eq!(s.current(), 0);
    assert_eq!(s.cursor(), 3);
    let mut d = focused_linear(items.len()).policy(StepperNavPolicy::DisplayOnly);
    assert_eq!(d.activate(0, &items), StepperOutcome::Ignored);
}

#[test]
fn horizontal_layout_joins_steps_and_records_hits() {
    let system = DesignSystem::new();
    let items = steps();
    let mut state = focused_linear(items.len());
    let area = Rect::new(0, 0, 72, 1);
    let widget = Stepper::new(&items, &system);
    assert!(widget.prepare(area, &mut state));
    assert_eq!(state.presentation(), StepperPresentation::Expanded);
    let widths = vec![(9u16, 12u16), (8, 11), (6, 9), (8, 11)];
    let pieces = widget.place(area, &mut state, &widths, 3);
    let kinds: Vec<StepperPieceKind> = pieces.iter().map(|p| p.kind).collect();
    assert_eq!(
        kinds,
        vec![StepperPieceKind::Joined, StepperPieceKind::Joined, StepperPieceKind::Joined, StepperPieceKind::Step]
    );
    assert_eq!(pieces[1].rect, Rect::new(12, 0, 11, 1));
    assert_eq!(pieces[3].rect, Rect::new(32, 0, 8, 1));
    assert_eq!(state.hits().len(), 4);
}

#[test]
fn menu_header_opens_the_menu() {
    let system = DesignSystem::new();
    let items = steps();
    let mut state = focused_linear(items.len()).policy(StepperNavPolicy::Host);
    let area = Rect::new(0, 0, 24, 5);
    let widget = Stepper::new(&items, &system);
    assert!(widget.prepare(area, &mut state));
    assert_eq!(state.presentation(), StepperPresentation::Menu);
    let pieces = widget.place(area, &mut state, &Vec::new(), 3);
    assert_eq!(pieces.len(), 1);
    assert_eq!(pieces[0].kind, StepperPieceKind::Header);
    assert_eq!(state.handle_mouse(press(3, 0), &items), StepperOutcome::MenuToggled { open: true });
    let pieces = widget.place(area, &mut state, &Vec::new(), 3);
    assert_eq!(pieces.len(), 5);
    assert_eq!(pieces[4].kind, StepperPieceKind::MenuRow);
    assert_eq!(pieces[4].rect, Rect::new(0, 4, 24, 1));
    assert_eq!(
        state.handle_mouse(press(1, 3), &items),
        StepperOutcome::StepActivated { index: 2, id: items[2].id.clone() }
    );
    assert!(!state.menu_open());
}

#[test]
fn vertical_list_scrolls_to_the_activated_step() {
    let system = DesignSystem::new();
    let items = steps();
    let mut state = focused_linear(items.len()).policy(StepperNavPolicy::Free);
    state.set_orientation(StepperOrientation::Vertical);
    state.set_presentation_override(Some(StepperPresentation::Expanded));
    let area = Rect::new(0, 0, 48, 6);
    let widget = Stepper::new(&items, &system);
    assert!(widget.prepare(area, &mut state));
    assert!(matches!(state.activate(3, &items), StepperOutcome::StepActivated { index: 3, .. }));
    assert!(state.vertical_scroll() > 0);
    assert!(widget.prepare(area, &mut state));
    let pieces = widget.place(area, &mut state, &Vec::new(), 3);
    let review = pieces.iter().find(|p| p.kind == StepperPieceKind::Row && p.index == 3).expect("active step shown");
    assert!(review.rect.y < 6);
}

#[test]
fn presentation_follows_resize_unless_forced() {
    let mut s = StepperState::new();
    assert_eq!(
        s.sync_presentation(Rect::new(0, 0, 30, 1)),
        StepperOutcome::PresentationChanged { presentation: StepperPresentation::Compact }
    );
    assert_eq!(s.sync_presentation(Rect::new(0, 0, 30, 1)), StepperOutcome::Ignored);
    s.set_presentation_override(Some(StepperPresentation::Numeric));
    assert_eq!(s.sync_presentation(Rect::new(0, 0, 90, 1)), StepperOutcome::Ignored);
    assert_eq!(s.presentation(), StepperPresentation::Numeric);
}

#[test]
fn orientation_change_preserves_cursor_for_relative_movement() {
    let items = steps();
    let mut state = focused_linear(items.len()).policy(StepperNavPolicy::Free);
    state.set_current(2, items.len(), false);

    state.set_orientation(StepperOrientation::Vertical);

    assert_eq!(state.cursor(), 2);
    assert_eq!(
        state.handle_intent(UiIntent::Move(NavigationMove::Next), &items),
        StepperOutcome::CursorMoved { index: 3 }
    );
}

#[test]
fn menu_toggle_and_activate() {
    let items = steps();
    let mut s = focused_linear(items.len()).policy(StepperNavPolicy::Host);
    s.set_focused(true);
    s.set_presentation_override(Some(StepperPresentation::Menu));
    assert!(matches!(
        s.handle_key(KeyEvent::new(KeyCode::Enter, KeyModifiers::NONE), &items),
        StepperOutcome::MenuToggled { open: true }
    ));
    let _ = s.handle_key(KeyEvent::new(KeyCode::Down, KeyModifiers::NONE), &items);
    assert!(matches!(
        s.handle_key(KeyEvent::new(KeyCode::Enter, KeyModifiers::NONE), &items),
        StepperOutcome::StepActivated { .. }
    ));
    let _ = s.handle_key(KeyEvent::new(KeyCode::Enter, KeyModifiers::NONE), &items);
    assert!(matches!(
        s.handle_key(KeyEvent::new(KeyCode::Esc, KeyModifiers::NONE), &items),
        StepperOutcome::MenuToggled { open: false }
    ));
}

#[test]
fn digit_jump_host_policy() {
    let items = steps();
    let mut s = focused_linear(items.len()).policy(StepperNavPolicy::Host);
    s.set_focused(true);
    assert!(matches!(
        s.handle_key(KeyEvent::new(KeyCode::Char('3'), KeyModifiers::NONE), &items),
        StepperOutcome::StepActivated { index: 2, .. }
    ));
}

#[test]
fn stepper_fuzz_keys() {
    let items = steps();
    let mut s = focused_linear(items.len()).policy(StepperNavPolicy::Host);
    s.set_focused(true);
    let keys = [
        KeyCode::Left,
        KeyCode::Right,
        KeyCode::Enter,
        KeyCode::Char('1'),
        KeyCode::Char('4'),
        KeyCode::Esc,
        KeyCode::Home,
        KeyCode::End,
    ];
    let mut seed = 3u64;
    for _ in 0..200 {
        seed = seed.wrapping_mul(1664525).wrapping_add(1013904223);
        let k = keys[(seed as usize) % keys.len()];
        let _ = s.handle_key(KeyEvent::new(k, KeyModifiers::NONE), &items);
    }
}

#[test]
fn display_only_never_activates() {
    let items = steps();
    let mut s = focused_linear(items.len()).policy(StepperNavPolicy::DisplayOnly);
    s.set_focused(true);
    assert!(matches!(
        s.handle_key(KeyEvent::new(KeyCode::Enter, KeyModifiers::NONE), &items),
        StepperOutcome::Ignored
    ));
}

#[test]
fn keyboard_cursor_skips_disabled_steps_without_wrapping() {
    let mut items = steps();
    items[1] = items[1].clone().disabled(true);
    let mut s = focused_linear(items.len()).policy(StepperNavPolicy::Linear);
    assert_eq!(s.handle_key(KeyEvent::new(KeyCode::Right, KeyModifiers::NONE), &items), StepperOutcome::CursorMoved { index: 2 });
    assert_eq!(s.handle_key(KeyEvent::new(KeyCode::Char('l'), KeyModifiers::NONE), &items), StepperOutcome::CursorMoved { index: 3 });
    assert_eq!(s.handle_key(KeyEvent::new(KeyCode::Right, KeyModifiers::NONE), &items), StepperOutcome::Ignored);
    assert_eq!(s.handle_key(KeyEvent::new(KeyCode::Home, KeyModifiers::NONE), &items), StepperOutcome::CursorMoved { index: 0 });
    assert_eq!(s.handle_key(KeyEvent::new(KeyCode::Left, KeyModifiers::NONE), &items), StepperOutcome::Ignored);
    assert_eq!(s.handle_key(KeyEvent::new(KeyCode::End, KeyModifiers::NONE), &items), StepperOutcome::CursorMoved { index: 3 });
    assert_eq!(s.handle_key(KeyEvent::new(KeyCode::Enter, KeyModifiers::NONE), &items), StepperOutcome::Ignored);
    assert_eq!(s.handle_key(KeyEvent::new(KeyCode::Char('1'), KeyModifiers::NONE), &items), StepperOutcome::StepActivated { index: 0, id: "account".to_string() });
    assert_eq!(s.handle_key(KeyEvent::new(KeyCode::Char('9'), KeyModifiers::NONE), &items), StepperOutcome::Ignored);
    s.set_focused(false);
    assert_eq!(s.handle_key(KeyEvent::new(KeyCode::Right, KeyModifiers::NONE), &items), StepperOutcome::Ignored);
}

#[test]
fn numeric_cursor_moves_and_its_hit_follows() {
    let system = DesignSystem::new();
    let items = steps();
    let mut state = focused_linear(items.len()).policy(StepperNavPolicy::Host);
    state.set_presentation_override(Some(StepperPresentation::Numeric));
    let area = Rect::new(0, 0, 28, 1);
    let widget = Stepper::new(&items, &system);
    assert!(widget.prepare(area, &mut state));
    let _ = widget.place(area, &mut state, &Vec::new(), 3);
    assert_eq!(
        state.handle_intent(UiIntent::Move(NavigationMove::Next), &items),
        StepperOutcome::CursorMoved { index: 1 }
    );
    assert!(widget.prepare(area, &mut state));
    let _ = widget.place(area, &mut state, &Vec::new(), 3);
    assert_eq!(state.hits()[0].0, 1);
    let hit = state.hits()[0].1;
    assert_eq!(
        state.handle_mouse(press(hit.x, hit.y), &items),
        StepperOutcome::StepActivated { index: 1, id: items[1].id.clone() }
    );
    assert_eq!(state.current(), 0);
}

#[test]
fn vertical_keyboard_navigation_scrolls_to_the_cursor() {
    let system = DesignSystem::new();
    let items = steps();
    let mut state = focused_linear(items.len()).policy(StepperNavPolicy::Free);
    state.set_orientation(StepperOrientation::Vertical);
    state.set_presentation_override(Some(StepperPresentation::Expanded));
    let area = Rect::new(0, 0, 48, 6);
    let widget = Stepper::new(&items, &system);
    assert!(widget.prepare(area, &mut state));
    let _ = widget.place(area, &mut state, &Vec::new(), 3);
    for _ in 0..3 {
        assert!(matches!(
            state.handle_intent(UiIntent::Move(NavigationMove::Next), &items),
            StepperOutcome::CursorMoved { .. }
        ));
    }
    assert!(widget.prepare(area, &mut state));
    let _ = widget.place(area, &mut state, &Vec::new(), 3);
    assert!(state.vertical_scroll() > 0);
    let (_, hit) = state.hits().iter().find(|(index, _)| *index == 3).copied().expect("cursor step stays clickable");
    assert!(matches!(state.handle_mouse(press(hit.x, hit.y), &items), StepperOutcome::StepActivated { index: 3, .. }));
}

#[test]
fn linear_admits_current_complete_and_skipped_only() {
    let items = example_onboarding_steps();
    let mut s = StepperState::with_len(4).policy(StepperNavPolicy::Linear);
    s.set_current(0, 4, false);
    s.set_status(3, StepStatus::Error);
    assert_eq!(s.activate(3, &items), StepperOutcome::Ignored);
    assert_eq!(s.activate(0, &items), StepperOutcome::StepActivated { index: 0, id: "account".to_string() });
    s.set_status(2, StepStatus::Skipped);
    assert_eq!(s.activate(2, &items), StepperOutcome::StepActivated { index: 2, id: "plan".to_string() });
    s.set_status(1, StepStatus::Future);
    assert_eq!(s.activate(1, &items), StepperOutcome::Ignored);
}

#[test]
fn example_steps_are_enabled_with_descriptions() {
    let items = example_onboarding_steps();
    assert_eq!(items.len(), 4);
    assert!(items.iter().all(|i| !i.disabled));
    assert!(items.iter().all(|i| i.description.is_some()));
}

#[test]
fn horizontal_hits_are_contiguous_from_left_edge() {
    let system = DesignSystem::new();
    let items = steps();
    let mut state = focused_linear(items.len());
    let area = Rect::new(4, 2, 72, 3);
    let widget = Stepper::new(&items, &system);
    assert!(widget.prepare(area, &mut state));
    let widths = vec![(9u16, 12u16), (8, 11), (6, 9), (8, 11)];
    widget.place(area, &mut state, &widths, 3);
    let hits = state.hits();
    assert_eq!(hits[0].1.x, area.x);
    for (k, (index, rect)) in hits.iter().enumerate() {
        assert_eq!(*index, k);
        assert_eq!((rect.y, rect.height), (area.y, 1));
        assert!(rect.width > 0 && rect.x + rect.width <= area.x + area.width);
        if k + 1 < hits.len() {
            assert_eq!(hits[k + 1].1.x, rect.x + rect.width);
        }
    }
}
