use termrock::geometry::{Position, Rect};
use termrock::input::{KeyCode, KeyEvent, KeyEventKind, KeyModifiers, MouseButton, MouseEvent, MouseEventKind};
use termrock::interaction::{HitRegion, NavigationMove, UiIntent};
use termrock::style::DesignSystem;
use termrock::tabs::{
    tab_anatomy, tab_width, lay_out_tabs, tab_at_column, tab_window, Tab, TabWindow, TabStatus, Tabs, TabsActiveCue, TabsActivation,
    TabsOrientation, TabsOutcome, TabsPresentation, TabsState, TAB_GAP,
};

#[test]
fn tabs_lay_out_with_gaps_and_hit_columns() {
    let cells = lay_out_tabs(&[("One", true), ("東京", false)], 2);
    assert_eq!(cells[0].start_col, 2);
    assert_eq!(cells[0].cell_cols, 5);
    assert_eq!(cells[1].start_col, 8);
    assert_eq!(cells[1].cell_cols, 6);
    assert!(cells[0].active);
    assert_eq!(tab_at_column(&cells, 2), Some(0));
    assert_eq!(tab_at_column(&cells, 6), Some(0));
    assert_eq!(tab_at_column(&cells, 7), None);
    assert_eq!(tab_at_column(&cells, 13), Some(1));
    assert_eq!(tab_at_column(&cells, 14), None);
}

#[test]
fn tab_vocabulary() {
    assert_eq!(TabStatus::Dirty.mark(false), Some("•"));
    assert_eq!(TabStatus::Running.mark(true), Some("*"));
    assert_eq!(TabStatus::Plain.mark(false), None);
    assert_eq!(TabStatus::Plain.id(), "none");
    assert_eq!(TabsActiveCue::AccentPill.id(), "accent-pill");
    assert_eq!(TabsActivation::Manual.id(), "manual");
    assert_eq!(TabsOrientation::Vertical.id(), "vertical");
    assert_eq!(TabsPresentation::Scrolling.id(), "scrolling");
}

#[test]
fn tab_geometry_uses_display_columns_and_excludes_gaps() {
    let cells = lay_out_tabs(&[("界", true), ("b", false)], 5);
    assert_eq!(cells[0].cell_cols, 4);
    assert_eq!(cells[1].start_col, 10);
    assert_eq!(tab_at_column(&cells, 5), Some(0));
    assert_eq!(tab_at_column(&cells, 8), Some(0));
    assert_eq!(tab_at_column(&cells, 9), None);
    assert_eq!(tab_at_column(&cells, 10), Some(1));
    assert_eq!(tab_at_column(&cells, 13), None);
}

#[test]
fn scroll_window_moves_on_until_the_selected_tab_shows() {
    let widths = vec![10u16, 10, 10, 10];
    assert_eq!(tab_window(&widths, 1, 30, Some(3), 0), TabWindow { offset: 2, fit: 2, chevrons: true });
    assert_eq!(tab_window(&widths, 1, 30, Some(0), 3), TabWindow { offset: 0, fit: 2, chevrons: true });
    assert_eq!(tab_window(&widths, 1, 30, None, 1), TabWindow { offset: 1, fit: 2, chevrons: true });
}

#[test]
fn scroll_window_without_overflow_and_with_one_wide_tab() {
    assert_eq!(tab_window(&vec![5u16, 5], 1, 20, Some(1), 0), TabWindow { offset: 0, fit: 2, chevrons: false });
    assert_eq!(tab_window(&vec![40u16], 1, 30, Some(0), 0), TabWindow { offset: 0, fit: 1, chevrons: true });
    assert_eq!(tab_window(&Vec::new(), 1, 30, None, 0), TabWindow { offset: 0, fit: 0, chevrons: false });
}

fn sample_tabs() -> [Tab<'static, &'static str>; 4] {
    [
        Tab::new("overview", "Overview").status(TabStatus::Success),
        Tab::new("details", "Details"),
        Tab::new("logs", "Logs").closable(true).status(TabStatus::Running),
        Tab::new("disabled", "Disabled").enabled(false),
    ]
}

fn key(code: KeyCode) -> KeyEvent {
    KeyEvent::new(code, KeyModifiers::NONE)
}

fn press_at(x: u16, y: u16) -> MouseEvent {
    MouseEvent { kind: MouseEventKind::Down(MouseButton::Left), position: Position::new(x, y) }
}

#[test]
fn automatic_activation_on_arrow() {
    let tabs = sample_tabs();
    let mut state = TabsState::new().with_selected("overview").with_activation(TabsActivation::Automatic);
    state.set_focused(true);
    assert!(matches!(
        state.handle_key(KeyEvent::new(KeyCode::Right, KeyModifiers::NONE), &tabs),
        TabsOutcome::FocusChanged { .. } | TabsOutcome::SelectionChanged { .. }
    ));
    assert_eq!(state.selected(), Some(&"details"));
}

#[test]
fn manual_activation_requires_enter() {
    let tabs = sample_tabs();
    let mut state = TabsState::new().with_selected("overview").with_activation(TabsActivation::Manual);
    state.set_focused(true);
    let _ = state.handle_key(KeyEvent::new(KeyCode::Right, KeyModifiers::NONE), &tabs);
    assert_eq!(state.selected(), Some(&"overview"));
    assert_eq!(state.focused_tab(), Some(&"details"));
    assert!(matches!(
        state.handle_key(KeyEvent::new(KeyCode::Enter, KeyModifiers::NONE), &tabs),
        TabsOutcome::SelectionChanged { id: "details" }
    ));
}

#[test]
fn close_requested() {
    let tabs = sample_tabs();
    let mut state = TabsState::new().with_selected("logs");
    state.set_focused(true);
    assert!(matches!(
        state.handle_key(KeyEvent::new(KeyCode::Char('w'), KeyModifiers::CONTROL), &tabs),
        TabsOutcome::CloseRequested { id: "logs" }
    ));
}

#[test]
fn reorder_hook() {
    let tabs = sample_tabs();
    let mut state = TabsState::new().with_selected("overview");
    state.set_focused(true);
    assert!(matches!(
        state.handle_key(KeyEvent::new(KeyCode::Right, KeyModifiers::CONTROL), &tabs),
        TabsOutcome::ReorderRequested { from: 0, to: 1 }
    ));
}

#[test]
fn escape_closes_only_the_overflow_layer() {
    let tabs = sample_tabs();
    let mut state = TabsState::new().with_selected("overview");
    state.set_focused(true);
    state.prepare(Rect::new(0, 0, 14, 2), &tabs, 48);
    assert_eq!(state.presentation(), TabsPresentation::Select);

    assert!(matches!(
        state.handle_key(KeyEvent::new(KeyCode::Char('o'), KeyModifiers::NONE), &tabs),
        TabsOutcome::OverflowOpened { .. }
    ));
    assert!(state.is_overflow_open());
    assert_eq!(state.handle_key(KeyEvent::new(KeyCode::Esc, KeyModifiers::NONE), &tabs), TabsOutcome::OverflowClosed);
    assert!(!state.is_overflow_open());
    assert_eq!(state.selected(), Some(&"overview"));
}

#[test]
fn vertical_orientation() {
    let tabs = sample_tabs();
    let mut state = TabsState::new().with_selected("overview").with_orientation(TabsOrientation::Vertical);
    state.set_focused(true);
    state.prepare(Rect::new(0, 0, 16, 6), &tabs, 48);
    assert_eq!(state.presentation(), TabsPresentation::Expanded);
    assert!(matches!(
        state.handle_key(KeyEvent::new(KeyCode::Down, KeyModifiers::NONE), &tabs),
        TabsOutcome::FocusChanged { .. } | TabsOutcome::SelectionChanged { .. }
    ));
    assert_eq!(state.handle_key(key(KeyCode::Right), &tabs), TabsOutcome::Ignored);
}

#[test]
fn disabled_tabs_are_not_focusable_or_activatable() {
    let tabs = sample_tabs();
    let mut state = TabsState::new().with_selected("disabled");
    state.set_focused(true);
    assert_eq!(state.handle_key(KeyEvent::new(KeyCode::Enter, KeyModifiers::NONE), &tabs), TabsOutcome::Ignored);

    state.set_enabled(false);
    assert_eq!(state.handle_key(KeyEvent::new(KeyCode::Right, KeyModifiers::NONE), &tabs), TabsOutcome::Ignored);
    assert_eq!(state.handle_mouse(press_at(0, 0), &tabs), TabsOutcome::Ignored);
}

#[test]
fn tabs_fuzz_keys() {
    let tabs = sample_tabs();
    let mut state = TabsState::new().with_selected("overview");
    state.set_focused(true);
    let keys = [
        KeyEvent::new(KeyCode::Left, KeyModifiers::NONE),
        KeyEvent::new(KeyCode::Right, KeyModifiers::NONE),
        KeyEvent::new(KeyCode::Enter, KeyModifiers::NONE),
        KeyEvent::new(KeyCode::Home, KeyModifiers::NONE),
        KeyEvent::new(KeyCode::End, KeyModifiers::NONE),
        KeyEvent::new(KeyCode::Char('o'), KeyModifiers::NONE),
    ];
    for key in keys.iter().cycle().take(40) {
        let _ = state.handle_key(*key, &tabs);
    }
}

#[test]
fn panel_state_not_in_tabs_state() {
    let s = TabsState::<&str>::new();
    assert!(s.selected().is_none());
}

#[test]
fn arrows_skip_disabled_tabs_and_wrap() {
    let tabs = sample_tabs();
    let mut state = TabsState::new().with_selected("logs");
    state.set_focused(true);
    assert_eq!(state.handle_key(key(KeyCode::Right), &tabs), TabsOutcome::FocusChanged { id: Some("overview") });
    assert_eq!(state.selected(), Some(&"overview"));
    assert_eq!(state.handle_key(key(KeyCode::Left), &tabs), TabsOutcome::FocusChanged { id: Some("logs") });
    assert_eq!(state.handle_key(key(KeyCode::End), &tabs), TabsOutcome::Ignored);
    assert_eq!(state.handle_key(key(KeyCode::Home), &tabs), TabsOutcome::FocusChanged { id: Some("overview") });
    assert_eq!(state.handle_key(key(KeyCode::Up), &tabs), TabsOutcome::Ignored);
    let release = KeyEvent::with_kind(KeyCode::Right, KeyModifiers::NONE, KeyEventKind::Release);
    assert_eq!(state.handle_key(release, &tabs), TabsOutcome::Ignored);
}

#[test]
fn unfocused_strip_ignores_keys_and_intents() {
    let tabs = sample_tabs();
    let mut state = TabsState::new().with_selected("overview");
    assert_eq!(state.handle_key(key(KeyCode::Right), &tabs), TabsOutcome::Ignored);
    assert_eq!(state.handle_intent(UiIntent::Move(NavigationMove::Next), &tabs), TabsOutcome::Ignored);
    assert_eq!(state.selected(), Some(&"overview"));
}

#[test]
fn reorder_stops_at_the_ends() {
    let tabs = sample_tabs();
    let mut state = TabsState::new().with_selected("overview");
    state.set_focused(true);
    assert_eq!(state.handle_key(KeyEvent::new(KeyCode::Left, KeyModifiers::ALT), &tabs), TabsOutcome::Ignored);
    let mut state = TabsState::new().with_selected("disabled");
    state.set_focused(true);
    assert_eq!(state.handle_key(KeyEvent::new(KeyCode::Down, KeyModifiers::CONTROL), &tabs), TabsOutcome::Ignored);
    assert_eq!(
        state.handle_key(KeyEvent::new(KeyCode::Up, KeyModifiers::CONTROL), &tabs),
        TabsOutcome::ReorderRequested { from: 3, to: 2 }
    );
}

#[test]
fn close_needs_a_closable_enabled_focused_tab() {
    let tabs = sample_tabs();
    let mut state = TabsState::new().with_selected("details");
    state.set_focused(true);
    assert_eq!(state.handle_key(key(KeyCode::Delete), &tabs), TabsOutcome::Ignored);
    assert_eq!(state.handle_intent(UiIntent::Close, &tabs), TabsOutcome::Ignored);
    let mut state = TabsState::new().with_selected("logs");
    state.set_focused(true);
    assert_eq!(state.handle_key(key(KeyCode::Delete), &tabs), TabsOutcome::CloseRequested { id: "logs" });
    assert_eq!(state.handle_intent(UiIntent::Close, &tabs), TabsOutcome::CloseRequested { id: "logs" });
}

#[test]
fn intents_move_activate_and_close_the_overflow() {
    let tabs = sample_tabs();
    let mut state = TabsState::new().with_selected("overview").with_activation(TabsActivation::Manual);
    state.set_focused(true);
    assert_eq!(
        state.handle_intent(UiIntent::Move(NavigationMove::Next), &tabs),
        TabsOutcome::FocusChanged { id: Some("details") }
    );
    assert_eq!(state.selected(), Some(&"overview"));
    assert_eq!(state.handle_intent(UiIntent::Submit, &tabs), TabsOutcome::SelectionChanged { id: "details" });
    assert_eq!(state.handle_intent(UiIntent::Activate, &tabs), TabsOutcome::Changed);
    state.prepare(Rect::new(0, 0, 30, 2), &tabs, 48);
    assert_eq!(state.presentation(), TabsPresentation::Overflow);
    assert!(matches!(state.handle_key(key(KeyCode::Char('O')), &tabs), TabsOutcome::OverflowOpened { .. }));
    assert_eq!(state.handle_intent(UiIntent::Close, &tabs), TabsOutcome::OverflowClosed);
}

#[test]
fn clicks_route_through_painted_regions() {
    let tabs = sample_tabs();
    let mut state = TabsState::new().with_selected("overview");
    state.prepare(Rect::new(0, 0, 60, 2), &tabs, 48);
    assert_eq!(state.presentation(), TabsPresentation::Expanded);
    state.regions.push(HitRegion { id: "overview", area: Rect::new(0, 0, 13, 2) });
    state.regions.push(HitRegion { id: "details", area: Rect::new(14, 0, 10, 2) });
    state.regions.push(HitRegion { id: "logs", area: Rect::new(25, 0, 11, 2) });
    state.regions.push(HitRegion { id: "disabled", area: Rect::new(37, 0, 11, 2) });
    state.close_regions.push(("logs", Rect::new(34, 0, 1, 1)));
    assert_eq!(state.handle_mouse(press_at(14, 0), &tabs), TabsOutcome::SelectionChanged { id: "details" });
    assert_eq!(state.handle_mouse(press_at(15, 1), &tabs), TabsOutcome::Changed);
    assert_eq!(state.handle_mouse(press_at(34, 0), &tabs), TabsOutcome::CloseRequested { id: "logs" });
    assert_eq!(state.handle_mouse(press_at(40, 0), &tabs), TabsOutcome::Ignored);
    assert_eq!(state.selected(), Some(&"details"));
    assert_eq!(state.focused_tab(), Some(&"disabled"));
    let hover = MouseEvent { kind: MouseEventKind::Moved, position: Position::new(26, 1) };
    assert_eq!(state.handle_mouse(hover, &tabs), TabsOutcome::Changed);
    assert_eq!(state.hovered, Some("logs"));
    assert_eq!(state.handle_mouse(hover, &tabs), TabsOutcome::Ignored);
}

#[test]
fn overflow_menu_picks_listed_tabs_only() {
    let tabs = sample_tabs();
    let mut state = TabsState::new().with_selected("overview");
    state.prepare(Rect::new(0, 0, 14, 2), &tabs, 48);
    state.overflow_ids.push("details");
    state.overflow_trigger = Some(Rect::new(0, 0, 14, 1));
    assert_eq!(
        state.handle_mouse(press_at(2, 0), &tabs),
        TabsOutcome::OverflowOpened { overflow_ids: vec!["details"] }
    );
    assert_eq!(state.select_overflow_id("logs"), TabsOutcome::Ignored);
    assert_eq!(state.select_overflow_id("details"), TabsOutcome::SelectionChanged { id: "details" });
    assert!(!state.is_overflow_open());
    assert_eq!(state.blend_progress(10, 100), Some(10));
    state.mark_changed_at(50);
    assert_eq!(state.blend_progress(80, 100), Some(30));
    assert_eq!(state.blend_progress(150, 100), None);
    assert_eq!(state.blend_progress(80, 0), None);
}

#[test]
fn prepare_selects_the_first_enabled_tab_and_sizes_the_presentation() {
    let tabs = sample_tabs();
    let mut state = TabsState::<&str>::new();
    state.prepare(Rect::new(0, 0, 0, 2), &tabs, 48);
    assert_eq!(state.selected(), None);
    state.prepare(Rect::new(0, 0, 50, 2), &tabs, 48);
    assert_eq!(state.selected(), Some(&"overview"));
    assert_eq!(state.focused_tab(), Some(&"overview"));
    assert_eq!(state.presentation(), TabsPresentation::Expanded);
    state.prepare(Rect::new(0, 0, 45, 2), &tabs, 48);
    assert_eq!(state.presentation(), TabsPresentation::Scrolling);
    let v = TabsState::<&str>::new().with_orientation(TabsOrientation::Vertical);
    let mut v = v;
    v.prepare(Rect::new(0, 0, 20, 3), &tabs, 48);
    assert_eq!(v.presentation(), TabsPresentation::Select);
    v.prepare(Rect::new(0, 0, 20, 4), &tabs, 48);
    assert_eq!(v.presentation(), TabsPresentation::Expanded);
    assert_eq!(TabsState::<&str>::presentation_for_bounds(Rect::new(0, 0, 17, 2), TabsOrientation::Horizontal), TabsPresentation::Select);
    assert_eq!(TabsState::<&str>::presentation_for_bounds(Rect::new(0, 0, 41, 2), TabsOrientation::Horizontal), TabsPresentation::Overflow);
    assert_eq!(TabsState::<&str>::presentation_for_bounds(Rect::new(0, 0, 42, 2), TabsOrientation::Horizontal), TabsPresentation::Expanded);
    assert_eq!(TabsState::<&str>::presentation_for_bounds(Rect::new(0, 0, 5, 3), TabsOrientation::Vertical), TabsPresentation::Select);
}

#[test]
fn strip_builder_keeps_its_settings() {
    let tabs = sample_tabs();
    let system = DesignSystem::new();
    let strip = Tabs::new(&tabs, &system);
    assert_eq!(strip.gap, TAB_GAP);
    assert!(strip.show_close);
    assert_eq!(strip.active_cue, TabsActiveCue::Rule);
    let strip = strip.quiet(true).gap(3).show_close(false).active_cue(TabsActiveCue::Marker);
    assert!(strip.quiet);
    assert_eq!(strip.gap, 3);
    assert!(!strip.show_close);
    assert_eq!(strip.active_cue, TabsActiveCue::Marker);
    assert_eq!(Tab::new(1u8, "x").badge("3").badge, Some("3"));
}

#[test]
fn mouse_select() {
    let tabs = sample_tabs();
    let mut state = TabsState::new().with_selected("overview");
    let area = Rect::new(0, 0, 60, 2);
    state.prepare(area, &tabs, 48);
    state.regions.push(HitRegion { id: "details", area: Rect::new(14, 0, 10, 2) });
    let details = state.regions.iter().find(|r| r.id == "details").expect("details hit");
    let position = Position::new(details.area.x, details.area.y);
    assert!(matches!(
        state.handle_mouse(MouseEvent { kind: MouseEventKind::Down(MouseButton::Left), position }, &tabs),
        TabsOutcome::SelectionChanged { id: "details" }
    ));
}

#[test]
fn overflow_presentation() {
    let labels = ["AlphaTab", "BetaTabX", "GammaTabs", "DeltaTab", "EpsilTab", "ZetaTabs", "EtaTabsX", "ThetaTab"];
    let ids = ["a", "b", "c", "d", "e", "f", "g", "h"];
    let many: Vec<Tab<'_, &str>> = (0..8).map(|i| Tab::new(ids[i], labels[i])).collect();
    let total: u16 = labels.iter().map(|l| l.len() as u16 + 3).sum::<u16>() + 7 * TAB_GAP;
    let mut state = TabsState::new().with_selected("a");
    state.prepare(Rect::new(0, 0, 30, 2), &many, total);
    assert!(matches!(
        state.presentation(),
        TabsPresentation::Overflow | TabsPresentation::Scrolling | TabsPresentation::Select
    ));
}

#[test]
fn tab_anatomy_places_label_badge_close_and_rule() {
    let tab = Tab::new(7u8, "Files").badge("3").closable(true);
    assert_eq!(tab_width(&tab, true, true, 0), 12);
    assert_eq!(tab_width(&tab, true, false, 0), 10);
    let rect = Rect::new(0, 0, 14, 2);
    let a = tab_anatomy(&tab, rect, true, true, false, true, 0);
    assert_eq!(a.marker_x, None);
    assert_eq!(a.status_x, None);
    assert_eq!(a.label, Some((1, 13)));
    assert_eq!(a.badge, Some((7, 7)));
    assert_eq!(a.close, Some(Rect::new(9, 0, 1, 1)));
    assert_eq!(a.close_hit, Some(Rect::new(9, 0, 1, 1)));
    assert_eq!(a.rule, Some((1, 13, 1)));
    assert_eq!(a.hit, Some(Rect::new(0, 0, 14, 2)));
    let mut state: TabsState<u8> = TabsState::new();
    state.record_tab(7, a);
    assert_eq!(state.regions, vec![HitRegion { id: 7, area: Rect::new(0, 0, 14, 2) }]);
    assert_eq!(state.close_regions, vec![(7, Rect::new(9, 0, 1, 1))]);
}

#[test]
fn tab_anatomy_marker_status_and_disabled() {
    let tab = Tab::new(1u8, "Logs").status(TabStatus::Error).closable(true).enabled(false);
    let a = tab_anatomy(&tab, Rect::new(0, 0, 14, 1), true, true, true, true, 0);
    assert_eq!(a.marker_x, Some(1));
    assert_eq!(a.status_x, Some(3));
    assert_eq!(a.label, Some((5, 9)));
    assert_eq!(a.close, Some(Rect::new(10, 0, 1, 1)));
    assert_eq!(a.close_hit, None);
    assert_eq!(a.rule, None);
    assert_eq!(a.hit, None);
    let mut state: TabsState<u8> = TabsState::new();
    state.record_tab(1, a);
    assert!(state.regions.is_empty());
    assert!(state.close_regions.is_empty());
    let empty = tab_anatomy(&tab, Rect::new(0, 0, 0, 1), true, true, true, true, 0);
    assert_eq!(empty.label, None);
    assert_eq!(empty.hit, None);
}

#[test]
fn scroll_window_keeps_selected_tab_in_view() {
    let tabs = [Tab::new(0u8, "a"), Tab::new(1u8, "b"), Tab::new(2u8, "c"), Tab::new(3u8, "d")];
    let widths = vec![10u16, 10, 10, 10];
    let mut state: TabsState<u8> = TabsState::new().with_selected(3);
    let w = state.scroll_window(&tabs, &widths, 1, 30);
    assert!(w.chevrons);
    assert_eq!(w.offset, 2);
    assert_eq!(w.fit, 2);
    let again = state.scroll_window(&tabs, &widths, 1, 30);
    assert_eq!(again, w);
}
