use termrock::geometry::{Position, Rect};
use termrock::input::{KeyCode, KeyEvent, KeyModifiers, MouseButton, MouseEvent, MouseEventKind};
use termrock::style::DesignSystem;
use termrock::tag_chip::{
    remove_label, token_parts, BracketStyle, Chip, ChipOutcome, ChipState, Tag, TagOutcome, TagState, TokenItem,
    TokenPart, TokenStatus, TokenStrip, TokenStripLayout,
};
use termrock::tag_chip::{strip_geometry, StripMetrics, TokenStripOutcome, TokenStripState};

#[test]
fn remove_label_explicit() {
    assert_eq!(remove_label("paste"), "remove paste");
}

#[test]
fn measure_is_cheap() {
    let system = DesignSystem::new();
    let chip = Chip::new("x", "filter", &system).removable(true);
    for _ in 0..20_000 {
        let _ = chip.measure_width(true);
    }
}

#[test]
fn removable_chip_width_matches_junie_chip_bar() {
    let system = DesignSystem::junie();
    let chip = Chip::new("s", "status = 'pending'", &system).removable(true);
    assert_eq!(chip.measure_width(true), 1 + 18 + 1 + 2 + 1, "gutter + label + pad + removable 2 + trail");
    let plain = Chip::new("p", "ok", &system);
    assert_eq!(plain.measure_width(false), 1 + 2 + 1 + 1);
}

#[test]
fn tag_remove_and_part_focus() {
    let system = DesignSystem::new();
    let tag = Tag::removable_tag("t1", "file.rs", &system);
    let mut state = TagState::new();
    state.set_focused(true);
    let _ = tag.layout(Rect::new(0, 0, 24, 1), &mut state);
    assert!(matches!(
        tag.handle_key(&mut state, KeyEvent::new(KeyCode::Right, KeyModifiers::NONE)),
        TagOutcome::PartChanged(TokenPart::Remove)
    ));
    assert!(matches!(
        tag.handle_key(&mut state, KeyEvent::new(KeyCode::Enter, KeyModifiers::NONE)),
        TagOutcome::Remove("t1")
    ));
}

#[test]
fn chip_toggle_space() {
    let system = DesignSystem::new();
    let chip = Chip::new("f1", "rust", &system);
    let mut state = ChipState::new(false);
    state.set_focused(true);
    assert!(matches!(
        chip.handle_key(&mut state, KeyEvent::new(KeyCode::Char(' '), KeyModifiers::NONE)),
        ChipOutcome::Selected("f1")
    ));
    assert!(state.is_selected());
}

#[test]
fn non_removable_ignores_delete() {
    let system = DesignSystem::new();
    let tag = Tag::new("t", "static", &system);
    let mut state = TagState::new();
    state.set_focused(true);
    assert!(matches!(
        tag.handle_key(&mut state, KeyEvent::new(KeyCode::Delete, KeyModifiers::NONE)),
        TagOutcome::Ignored
    ));
}

#[test]
fn legacy_chip_state_api() {
    let mut s = ChipState::new(true);
    assert!(s.is_selected());
    s.set_selected(false);
    assert!(!s.is_selected());
}

#[test]
fn token_geometry_places_gutter_body_and_remove() {
    let p = token_parts(Rect::new(0, 0, 24, 1), 7, true, 1);
    assert_eq!(p.body, Rect::new(1, 0, 7, 1));
    assert_eq!(p.remove, Rect::new(9, 0, 1, 1));
    assert_eq!(p.root, Rect::new(0, 0, 11, 1));
    let q = token_parts(Rect::new(0, 0, 6, 1), 7, true, 1);
    assert_eq!(q.body, Rect::new(1, 0, 5, 1));
    assert_eq!(q.remove, Rect::new(5, 0, 1, 1));
    let plain = token_parts(Rect::new(2, 3, 10, 2), 4, false, 0);
    assert_eq!(plain.root, Rect::new(2, 3, 5, 1));
    assert!(!plain.has_remove());
    assert_eq!(token_parts(Rect::new(0, 0, 0, 1), 4, true, 1).root, Rect::new(0, 0, 0, 0));
}

#[test]
fn mouse_uses_laid_out_regions() {
    let system = DesignSystem::new();
    let tag = Tag::removable_tag("t", "file.rs", &system);
    let mut ts = TagState::new();
    let down = |x| MouseEvent { kind: MouseEventKind::Down(MouseButton::Left), position: Position::new(x, 0) };
    assert_eq!(tag.handle_mouse(&mut ts, down(2)), TagOutcome::Ignored);
    let parts = tag.layout(Rect::new(0, 0, 24, 1), &mut ts);
    assert_eq!(tag.handle_mouse(&mut ts, down(parts.remove.x)), TagOutcome::Remove("t"));
    assert!(ts.focused && ts.part == TokenPart::Remove);
    assert_eq!(tag.handle_mouse(&mut ts, down(2)), TagOutcome::Activated("t"));
    let moved = MouseEvent { kind: MouseEventKind::Moved, position: Position::new(parts.remove.x, 0) };
    assert_eq!(tag.handle_mouse(&mut ts, moved), TagOutcome::HoverChanged);
    assert_eq!(tag.handle_mouse(&mut ts, moved), TagOutcome::Ignored);

    let chip = Chip::new("c", "beta", &system);
    let mut cs = ChipState::new(false);
    let _ = chip.layout(Rect::new(0, 0, 20, 1), &mut cs);
    assert_eq!(chip.handle_mouse(&mut cs, down(1)), ChipOutcome::Selected("c"));
    assert_eq!(chip.handle_mouse(&mut cs, down(1)), ChipOutcome::Unselected("c"));
    assert_eq!(chip.handle_mouse(&mut cs, down(19)), ChipOutcome::Ignored);
}

#[test]
fn chip_keys_and_static_chips() {
    let system = DesignSystem::new();
    let chip = Chip::static_chip("s", "x", &system).removable(true);
    let mut st = ChipState::new(false);
    st.set_focused(true);
    let key = |c| KeyEvent::new(c, KeyModifiers::NONE);
    assert_eq!(chip.handle_key(&mut st, key(KeyCode::Enter)), ChipOutcome::Activated("s"));
    assert_eq!(chip.handle_key(&mut st, key(KeyCode::Right)), ChipOutcome::PartChanged(TokenPart::Remove));
    assert_eq!(chip.handle_key(&mut st, key(KeyCode::Right)), ChipOutcome::Ignored);
    assert_eq!(chip.handle_key(&mut st, key(KeyCode::Enter)), ChipOutcome::Remove("s"));
    assert_eq!(chip.handle_key(&mut st, key(KeyCode::Left)), ChipOutcome::PartChanged(TokenPart::Body));
    assert_eq!(chip.handle_key(&mut st, key(KeyCode::Backspace)), ChipOutcome::Remove("s"));
    st.set_focused(false);
    assert_eq!(st.part(), TokenPart::Body);
    assert_eq!(chip.handle_key(&mut st, key(KeyCode::Enter)), ChipOutcome::Ignored);
    let disabled = Chip::new("d", "x", &system).disabled(true);
    let mut ds = ChipState::new(false);
    ds.set_focused(true);
    assert_eq!(disabled.handle_key(&mut ds, key(KeyCode::Enter)), ChipOutcome::Ignored);
}

#[test]
fn token_vocabulary() {
    let system = DesignSystem::new();
    assert_eq!(TokenPart::Remove.id(), "remove");
    assert_eq!(TokenStatus::Loading.id(), "loading");
    assert_eq!(BracketStyle::Angle.pair(false), ("⟨", "⟩"));
    assert_eq!(BracketStyle::Angle.pair(true), ("<", ">"));
    assert_eq!(BracketStyle::Square.pair(true), ("[", "]"));
    assert_eq!(TokenStripLayout::Wrap.id(), "wrap");
    let tag = Tag::new("t", "abc", &system).removable(true).error();
    assert_eq!(tag.measure_width(), 1 + 1 + 3 + 1 + 1 + 1 + 1);
    assert_eq!(tag.remove_action_label(), "remove abc");
    assert!(tag.is_removable());
    assert!(!tag.disabled(true).is_removable());
    let items = [TokenItem::chip("a", "one"), TokenItem::tag("b", "two").selected(true)];
    let strip = TokenStrip::new(&items, &system).wrap().max_visible(2).gap(3).lead(Some("match"));
    assert_eq!(strip.layout, TokenStripLayout::Wrap);
    assert_eq!(strip.max_visible, 2);
    assert_eq!(strip.add_label, Some("+ Add filter"));
    assert!(items[1].removable && !items[0].removable);
}

#[test]
fn token_strip_overflow() {
    let system = DesignSystem::new();
    let items = [
        TokenItem::chip("a", "one"),
        TokenItem::chip("b", "two"),
        TokenItem::chip("c", "three"),
        TokenItem::chip("d", "four"),
    ];
    let strip = TokenStrip::new(&items, &system).max_visible(2);
    let mut state = TokenStripState::new();
    let g = strip.lay_out(Rect::new(0, 0, 40, 1), &mut state);
    assert_eq!(state.overflow_ids.len(), 2);
    assert!(state.overflow_region.is_some());
    assert_eq!(state.overflow_ids, vec!["c", "d"]);
    assert_eq!(strip.overflow_label(), "+2");
    assert_eq!(g.overflow_region, state.overflow_region);
}

#[test]
fn token_strip_keeps_full_chips_and_drops_add_when_tight() {
    let system = DesignSystem::junie();
    let items = [
        TokenItem::chip(0, "status = 'pending'").removable(true).selected(true),
        TokenItem::chip(1, "total > 100").removable(true).selected(true),
        TokenItem::chip(2, "country in (DE, FR)").removable(true).selected(false),
    ];
    let strip = TokenStrip::new(&items, &system).add_label(Some("+ Add filter"));
    let mut state = TokenStripState::new();
    let area = Rect::new(0, 0, 66, 1);
    let g = strip.lay_out(area, &mut state);
    // The last chip is painted whole.
    assert_eq!(g.regions.len(), 3, "last chip must not clip");
    assert_eq!(state.regions[2], (2, Rect::new(41, 0, 24, 1)), "last chip must not clip");
    assert!(g.ellipsis_x.is_none());
    assert!(state.add_region.is_none(), "add must drop, not clip");
}

#[test]
fn token_strip_does_not_clip_add_into_leftover() {
    let system = DesignSystem::junie();
    let items = [TokenItem::chip(0, "status = 'pending'").removable(true).selected(true)];
    let strip = TokenStrip::new(&items, &system).add_label(Some("+ Add filter"));
    let mut state = TokenStripState::new();
    let area = Rect::new(0, 0, 34, 1);
    let _ = strip.lay_out(area, &mut state);
    assert_eq!(state.regions, vec![(0, Rect::new(0, 0, 23, 1))]);
    assert!(state.add_region.is_none(), "clipped add must not paint");
}

#[test]
fn token_strip_paints_subtle_add_filter() {
    let system = DesignSystem::new();
    let items = [TokenItem::chip("a", "Rust").removable(true)];
    let strip = TokenStrip::new(&items, &system);
    let mut state = TokenStripState::new();
    let area = Rect::new(0, 0, 40, 1);
    let _ = strip.lay_out(area, &mut state);
    assert!(state.add_region.is_some());
    assert_eq!(state.add_region, Some(Rect::new(10, 0, 14, 1)), "add affordance");
}

fn plain_metrics() -> StripMetrics {
    StripMetrics { lead_cols: None, add_cols: None, overflow_cols: 4, has_overflow: false }
}

#[test]
fn strip_scroll_marks_ellipsis_where_a_token_stops_fitting() {
    let area = Rect::new(0, 0, 14, 1);
    let widths = vec![6u16, 6, 8];
    let g = strip_geometry(area, &widths, 1, TokenStripLayout::Scroll, 0, plain_metrics());
    assert_eq!(g.regions, vec![(0, Rect::new(0, 0, 6, 1)), (1, Rect::new(7, 0, 6, 1))]);
    assert_eq!(g.ellipsis_x, Some(14));
}

#[test]
fn strip_scroll_offset_skips_tokens_off_the_left() {
    let area = Rect::new(0, 0, 14, 1);
    let widths = vec![6u16, 6, 8];
    let g = strip_geometry(area, &widths, 1, TokenStripLayout::Scroll, 7, plain_metrics());
    assert_eq!(g.regions, vec![(1, Rect::new(0, 0, 6, 1))]);
    assert_eq!(g.ellipsis_x, Some(7));
}

#[test]
fn strip_scroll_keeps_five_cells_for_the_summary() {
    let area = Rect::new(0, 0, 20, 1);
    let widths = vec![6u16, 6, 6];
    let m = StripMetrics { lead_cols: None, add_cols: None, overflow_cols: 4, has_overflow: true };
    let g = strip_geometry(area, &widths, 1, TokenStripLayout::Scroll, 0, m);
    assert_eq!(g.regions, vec![(0, Rect::new(0, 0, 6, 1)), (1, Rect::new(7, 0, 6, 1))]);
    assert_eq!(g.ellipsis_x, Some(14));
    assert_eq!(g.overflow_region, Some(Rect::new(16, 0, 4, 1)));
}

#[test]
fn strip_wrap_moves_tokens_to_the_next_row() {
    let area = Rect::new(0, 0, 10, 3);
    let widths = vec![6u16, 6, 12];
    let m = StripMetrics { lead_cols: None, add_cols: Some(4), overflow_cols: 4, has_overflow: false };
    let g = strip_geometry(area, &widths, 1, TokenStripLayout::Wrap, 0, m);
    assert_eq!(
        g.regions,
        vec![(0, Rect::new(0, 0, 6, 1)), (1, Rect::new(0, 1, 6, 1)), (2, Rect::new(0, 2, 10, 1))]
    );
    assert!(g.add_region.is_none());
    assert!(g.ellipsis_x.is_none());
}

#[test]
fn strip_wrap_places_summary_and_add_after_tokens() {
    let area = Rect::new(0, 0, 20, 2);
    let widths = vec![6u16];
    let m = StripMetrics { lead_cols: None, add_cols: Some(6), overflow_cols: 4, has_overflow: true };
    let g = strip_geometry(area, &widths, 1, TokenStripLayout::Wrap, 0, m);
    assert_eq!(g.regions, vec![(0, Rect::new(0, 0, 6, 1))]);
    assert_eq!(g.overflow_region, Some(Rect::new(7, 0, 4, 1)));
    assert_eq!(g.add_region, Some(Rect::new(12, 0, 6, 1)));
}

#[test]
fn strip_lead_takes_its_label_and_a_gap() {
    let system = DesignSystem::new();
    let items = [TokenItem::chip("a", "one")];
    let strip = TokenStrip::new(&items, &system).lead(Some("Filters")).add_label(None);
    let g = strip.geometry(Rect::new(0, 0, 30, 1), 0);
    assert_eq!(g.lead_region, Some(Rect::new(0, 0, 9, 1)));
    assert_eq!(g.regions, vec![(0, Rect::new(10, 0, 6, 1))]);
}

#[test]
fn strip_empty_area_paints_nothing() {
    let system = DesignSystem::new();
    let items = [TokenItem::chip("a", "one")];
    let strip = TokenStrip::new(&items, &system);
    let g = strip.geometry(Rect::new(0, 0, 0, 1), 0);
    assert!(g.regions.is_empty() && g.add_region.is_none() && g.lead_region.is_none());
}

fn strip_key(code: KeyCode) -> KeyEvent {
    KeyEvent::new(code, KeyModifiers::NONE)
}

#[test]
fn strip_cursor_roves_over_enabled_tokens_and_wraps() {
    let system = DesignSystem::new();
    let items = [
        TokenItem::tag("a", "alpha").removable(true),
        TokenItem::chip("b", "beta").selected(true),
        TokenItem::tag("c", "gamma").disabled(true),
    ];
    let strip = TokenStrip::new(&items, &system).wrap();
    let mut state = TokenStripState::new();
    assert_eq!(strip.handle_key(&mut state, strip_key(KeyCode::Right)), TokenStripOutcome::Ignored);
    state.set_surface_focused(true);
    assert_eq!(
        strip.handle_key(&mut state, strip_key(KeyCode::Right)),
        TokenStripOutcome::CursorMoved { from: None, to: Some("a") }
    );
    assert_eq!(
        strip.handle_key(&mut state, strip_key(KeyCode::Char('l'))),
        TokenStripOutcome::CursorMoved { from: Some("a"), to: Some("b") }
    );
    assert_eq!(
        strip.handle_key(&mut state, strip_key(KeyCode::Right)),
        TokenStripOutcome::CursorMoved { from: Some("b"), to: Some("a") }
    );
    assert_eq!(
        strip.handle_key(&mut state, strip_key(KeyCode::Left)),
        TokenStripOutcome::CursorMoved { from: Some("a"), to: Some("b") }
    );
    assert_eq!(strip.handle_key(&mut state, strip_key(KeyCode::End)), TokenStripOutcome::Ignored);
    assert_eq!(strip.handle_key(&mut state, strip_key(KeyCode::Char(' '))), TokenStripOutcome::Unselected("b"));
    assert_eq!(
        strip.handle_key(&mut state, strip_key(KeyCode::Home)),
        TokenStripOutcome::CursorMoved { from: Some("b"), to: Some("a") }
    );
    assert_eq!(strip.handle_key(&mut state, strip_key(KeyCode::Delete)), TokenStripOutcome::Remove("a"));
    assert_eq!(state.cursor(), Some(&"a"));
    state.set_cursor(Some("c"));
    assert_eq!(
        strip.handle_key(&mut state, strip_key(KeyCode::Right)),
        TokenStripOutcome::CursorMoved { from: None, to: Some("a") }
    );
}

#[test]
fn strip_right_of_the_last_token_reaches_the_add_affordance() {
    let system = DesignSystem::new();
    let items = [TokenItem::tag("a", "alpha").removable(false)];
    let strip = TokenStrip::new(&items, &system);
    let mut state = TokenStripState::new();
    state.set_surface_focused(true);
    state.set_cursor(Some("a"));
    assert_eq!(strip.handle_key(&mut state, strip_key(KeyCode::Enter)), TokenStripOutcome::Activated("a"));
    assert_eq!(
        strip.handle_key(&mut state, strip_key(KeyCode::Right)),
        TokenStripOutcome::CursorMoved { from: Some("a"), to: None }
    );
    assert!(state.add_focused);
    assert_eq!(strip.handle_key(&mut state, strip_key(KeyCode::Enter)), TokenStripOutcome::Activated("a"));
    assert_eq!(
        strip.handle_key(&mut state, strip_key(KeyCode::Left)),
        TokenStripOutcome::CursorMoved { from: None, to: Some("a") }
    );
    assert!(!state.add_focused);
    state.set_cursor(None);
    state.add_focused = true;
    assert_eq!(strip.handle_key(&mut state, strip_key(KeyCode::Char(' '))), TokenStripOutcome::Add);
    state.add_focused = false;
    state.set_cursor(Some("a"));
    state.scroll = 7;
    assert_eq!(strip.handle_key(&mut state, strip_key(KeyCode::Home)), TokenStripOutcome::Ignored);
    assert_eq!(state.scroll, 0);
}

#[test]
fn strip_pointer_uses_painted_token_regions() {
    let system = DesignSystem::new();
    let items = [TokenItem::tag("a", "alpha"), TokenItem::chip("b", "beta").selected(true)];
    let strip = TokenStrip::new(&items, &system);
    let mut state = TokenStripState::new();
    state.regions.push(("a", Rect::new(0, 0, 8, 1)));
    state.regions.push(("b", Rect::new(9, 0, 6, 1)));
    state.add_region = Some(Rect::new(16, 0, 4, 1));
    let moved = MouseEvent { kind: MouseEventKind::Moved, position: Position::new(7, 0) };
    assert_eq!(strip.handle_mouse(&mut state, moved), TokenStripOutcome::HoverChanged);
    assert_eq!(state.hovered_remove, Some("a"));
    assert_eq!(strip.handle_mouse(&mut state, moved), TokenStripOutcome::Ignored);
    let press = |x: u16| MouseEvent { kind: MouseEventKind::Down(MouseButton::Left), position: Position::new(x, 0) };
    assert_eq!(strip.handle_mouse(&mut state, press(1)), TokenStripOutcome::Activated("a"));
    assert!(state.surface_focused);
    assert_eq!(state.cursor(), Some(&"a"));
    assert_eq!(strip.handle_mouse(&mut state, press(7)), TokenStripOutcome::Remove("a"));
    assert_eq!(strip.handle_mouse(&mut state, press(10)), TokenStripOutcome::Unselected("b"));
    assert_eq!(strip.handle_mouse(&mut state, press(17)), TokenStripOutcome::Add);
    assert!(state.add_focused);
    assert_eq!(strip.handle_mouse(&mut state, press(30)), TokenStripOutcome::Ignored);
}

#[test]
fn token_strip_wrap_and_roving() {
    let system = DesignSystem::new();
    let items = [TokenItem::tag("a", "alpha").removable(true), TokenItem::chip("b", "beta").selected(true)];
    let strip = TokenStrip::new(&items, &system).wrap();
    let mut state = TokenStripState::new();
    state.set_surface_focused(true);
    let _ = strip.lay_out(Rect::new(0, 0, 20, 3), &mut state);
    state.set_cursor(Some("a"));
    let out = strip.handle_key(&mut state, KeyEvent::new(KeyCode::Right, KeyModifiers::NONE));
    // may be part change or cursor move
    assert!(out != TokenStripOutcome::Ignored || state.part == TokenPart::Remove);
}

#[test]
fn tag_chip_and_strip_mouse_use_painted_regions() {
    let system = DesignSystem::new();
    let area = Rect::new(0, 0, 24, 1);

    let tag = Tag::removable_tag("tag", "alpha", &system);
    let mut tag_state = TagState::new();
    let parts = tag.layout(area, &mut tag_state);
    assert!(matches!(
        tag.handle_mouse(
            &mut tag_state,
            MouseEvent { kind: MouseEventKind::Down(MouseButton::Left), position: Position::new(parts.body.x, parts.body.y) },
        ),
        TagOutcome::Activated("tag")
    ));

    let chip = Chip::new("chip", "beta", &system);
    let mut chip_state = ChipState::new(false);
    let parts = chip.layout(area, &mut chip_state);
    assert!(matches!(
        chip.handle_mouse(
            &mut chip_state,
            MouseEvent { kind: MouseEventKind::Down(MouseButton::Left), position: Position::new(parts.body.x, parts.body.y) },
        ),
        ChipOutcome::Selected("chip")
    ));

    let items = [TokenItem::chip("strip", "gamma")];
    let strip = TokenStrip::new(&items, &system);
    let mut strip_state = TokenStripState::new();
    let _ = strip.lay_out(area, &mut strip_state);
    let hit = strip_state.regions[0].1;
    assert!(matches!(
        strip.handle_mouse(
            &mut strip_state,
            MouseEvent { kind: MouseEventKind::Down(MouseButton::Left), position: Position::new(hit.x, hit.y) },
        ),
        TokenStripOutcome::Selected("strip")
    ));
}
