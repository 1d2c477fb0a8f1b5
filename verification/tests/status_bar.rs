use termrock::geometry::{Position, Rect};
use termrock::interaction::Outcome;
use termrock::semantic_status::SemanticStatus;
use termrock::status_bar::{
    layout_slots, transient_x, SlotAllocation, SlotPlacement, StatusBar, StatusBarRecipe, StatusBarState, StatusKind, StatusRegion, StatusSide,
    StatusSlot, TransientStatus, STATUS_DEFAULT_TTL_MS,
};
use termrock::style::{DesignSystem, GlyphSet};

fn slot(id: &'static str, content: &'static str, priority: u8, min_width: u16) -> StatusSlot<'static, &'static str> {
    StatusSlot::new(id, content).priority(priority).min_width(min_width)
}

#[test]
fn kind_ids_stable() {
    assert_eq!(StatusKind::FocusZone.id(), "focus-zone");
    assert_eq!(StatusBarRecipe::Minimal.id(), "minimal");
}

#[test]
fn default_ttl_is_4s() {
    assert_eq!(STATUS_DEFAULT_TTL_MS, 4_000);
    let mut state = StatusBarState::<&str>::new();
    state.set_transient_at(Some("Cell saved"), 0);
    state.expire_transient(3_999);
    assert_eq!(state.transient.as_deref(), Some("Cell saved"));
    state.expire_transient(4_000);
    assert!(state.transient.is_none());
}

#[test]
fn priority_and_minimum_width_control_narrow_layout() {
    let system = DesignSystem::new();
    let left = [slot("activity", " activity ", 10, 4)];
    let mut right = [slot("usage", " usage-long ", 1, 0), slot("run", " run ", 20, 0)];
    right[0].region = StatusRegion::Right;
    right[1].region = StatusRegion::Right;
    let bar = StatusBar::new(&left, &right, &system);
    let regions = bar.regions(Rect::new(3, 2, 10, 1));
    assert!(regions.iter().any(|region| region.id == "run"));
    assert!(regions.iter().any(|region| region.id == "activity"));
    assert!(!regions.iter().any(|region| region.id == "usage"));
    assert!(regions.iter().all(|region| region.area.width > 0));
}

#[test]
fn center_and_right_regions() {
    let system = DesignSystem::new();
    let left = [StatusSlot::mode("mode", "NOR")];
    let center = [StatusSlot::context("ctx", "src/main.rs")];
    let right = [StatusSlot::connection("conn", "ok")];
    let bar = StatusBar::with_center(&left, &center, &right, &system);
    let regions = bar.regions(Rect::new(0, 0, 60, 1));
    let mode_x = regions.iter().find(|r| r.id == "mode").unwrap().area.x;
    let ctx_x = regions.iter().find(|r| r.id == "ctx").unwrap().area.x;
    let conn_x = regions.iter().find(|r| r.id == "conn").unwrap().area.x;
    assert!(mode_x <= ctx_x);
    assert!(ctx_x <= conn_x);
}

#[test]
fn minimal_recipe_drops_shortcuts() {
    let system = DesignSystem::new();
    let left = [StatusSlot::mode("m", "INS")];
    let right = [StatusSlot::shortcut("h", "C-s save"), StatusSlot::connection("c", "ok")];
    let bar = StatusBar::new(&left, &right, &system).minimal();
    let regions = bar.regions(Rect::new(0, 0, 80, 1));
    assert!(regions.iter().any(|r| r.id == "m"));
    assert!(regions.iter().any(|r| r.id == "c"));
    assert!(!regions.iter().any(|r| r.id == "h"));
}

#[test]
fn rich_keeps_shortcuts() {
    let system = DesignSystem::new();
    let left = [StatusSlot::mode("m", "NOR")];
    let right = [StatusSlot::shortcut("h", "?")];
    let bar = StatusBar::new(&left, &right, &system).rich();
    let regions = bar.regions(Rect::new(0, 0, 40, 1));
    assert!(regions.iter().any(|r| r.id == "h"));
}

#[test]
fn transient_does_not_drop_mode() {
    let system = DesignSystem::new();
    let left = [StatusSlot::mode("mode", "NOR")];
    let right = [StatusSlot::connection("c", "live")];
    let msg = TransientStatus::new("saved");
    let bar = StatusBar::new(&left, &right, &system).transient(&msg);
    let mut state = StatusBarState::new();
    state.record_layout(&bar, Rect::new(0, 0, 40, 1));
    assert!(state.regions.iter().any(|r| r.id == "mode"));
    assert!(!state.regions.iter().any(|r| r.id == "saved"));
}

#[test]
fn empty_area_clears_regions() {
    let system = DesignSystem::new();
    let left = [StatusSlot::mode("m", "NOR")];
    let bar = StatusBar::new(&left, &[], &system);
    let mut state = StatusBarState::new();
    state.record_layout(&bar, Rect::new(0, 0, 10, 1));
    assert!(!state.regions.is_empty());
    state.record_layout(&bar, Rect::new(0, 0, 0, 0));
    assert!(state.regions.is_empty());
}

#[test]
fn layout_packs_sides_and_reserves_dividers() {
    let c = vec![
        SlotAllocation { side: StatusSide::Left, index: 0, width: 3, full_width: 5, priority: 100, essential: true },
        SlotAllocation { side: StatusSide::Right, index: 0, width: 0, full_width: 4, priority: 50, essential: false },
        SlotAllocation { side: StatusSide::Right, index: 1, width: 0, full_width: 2, priority: 60, essential: false },
    ];
    let out = layout_slots(Rect::new(0, 0, 20, 1), &c, 0);
    assert_eq!(out.len(), 3);
    assert_eq!(out[0].area, Rect::new(0, 0, 5, 1));
    assert_eq!((out[1].side, out[1].index), (StatusSide::Right, 1));
    assert_eq!(out[1].area, Rect::new(18, 0, 2, 1));
    assert!(!out[1].separator);
    assert_eq!((out[2].side, out[2].index), (StatusSide::Right, 0));
    assert_eq!(out[2].area, Rect::new(11, 0, 7, 1));
    assert!(out[2].separator);
}

#[test]
fn essential_slot_keeps_a_sliver() {
    let c = vec![
        SlotAllocation { side: StatusSide::Left, index: 0, width: 8, full_width: 8, priority: 100, essential: true },
        SlotAllocation { side: StatusSide::Left, index: 1, width: 5, full_width: 5, priority: 90, essential: true },
        SlotAllocation { side: StatusSide::Left, index: 2, width: 5, full_width: 5, priority: 10, essential: false },
    ];
    let out = layout_slots(Rect::new(0, 0, 10, 1), &c, 0);
    assert_eq!(out.len(), 2);
    assert_eq!(out[0].area.width, 8);
    assert_eq!(out[1].area, Rect::new(8, 0, 2, 1));
    assert!(layout_slots(Rect::new(0, 0, 0, 1), &c, 0).is_empty());
}

#[test]
fn hover_and_click_follow_regions() {
    let system = DesignSystem::new();
    let left = [StatusSlot::mode("m", "NOR")];
    let bar = StatusBar::new(&left, &[], &system);
    let mut state = StatusBarState::new();
    state.record_layout(&bar, Rect::new(0, 0, 20, 1));
    assert_eq!(state.hover(Position::new(1, 0)), Some(&"m"));
    assert_eq!(state.click(Position::new(1, 0)), Outcome::Activated("m"));
    assert_eq!(state.click(Position::new(19, 0)), Outcome::Ignored);
    assert_eq!(state.hover(Position::new(19, 0)), None);
}

#[test]
fn mode_changes_are_recorded_once() {
    let mut state = StatusBarState::<&str>::new();
    state.set_mode("NORMAL", 10);
    assert_eq!(state.previous_mode(), Some("NORMAL"));
    assert_eq!(state.mode_changed_at_ms(), 10);
    state.set_mode("NORMAL", 50);
    assert_eq!(state.mode_changed_at_ms(), 10);
    state.set_mode("INSERT", 60);
    assert_eq!(state.previous_mode(), Some("INSERT"));
    assert_eq!(state.mode_changed_at_ms(), 60);
    state.set_transient(Some("untimed"));
    state.expire_transient(u64::MAX);
    assert_eq!(state.transient.as_deref(), Some("untimed"));
}

#[test]
fn semantic_status_owns_the_glyph() {
    let s = StatusSlot::new("failure", "failed").glyph("Z").semantic(SemanticStatus::Failed);
    assert_eq!(s.glyph_text(GlyphSet::Unicode), "✗");
    assert_eq!(s.painted(GlyphSet::Unicode), "✗ failed");
    let plain = StatusSlot::new("t", "text");
    assert_eq!(plain.painted(GlyphSet::Unicode), "text");
    assert_eq!(StatusKind::Mode.default_glyph(GlyphSet::Ascii), "*");
    assert!(!StatusKind::Shortcut.allowed_in(StatusBarRecipe::Compact));
    assert!(StatusKind::Text.allowed_in(StatusBarRecipe::Minimal));
}

#[test]
fn transient_reserve_is_capped_at_half() {
    let system = DesignSystem::new();
    let left = [StatusSlot::mode("m", "NOR")];
    let msg = TransientStatus::new("a long transient message");
    let bar = StatusBar::new(&left, &[], &system).transient(&msg);
    assert_eq!(bar.transient_reserve(Rect::new(0, 0, 20, 1), None), 10);
    assert_eq!(bar.transient_reserve(Rect::new(0, 0, 100, 1), None), 26);
    let quiet = StatusBar::new(&left, &[], &system);
    assert_eq!(quiet.transient_reserve(Rect::new(0, 0, 100, 1), None), 0);
    assert_eq!(quiet.transient_reserve(Rect::new(0, 0, 100, 1), Some("ok")), 4);
    assert_eq!(quiet.transient_reserve(Rect::new(0, 0, 6, 1), Some("ok")), 4);
}

#[test]
fn transient_paints_flush_right_unless_slots_crowd_it() {
    let area = Rect::new(0, 0, 40, 1);
    let right = vec![SlotPlacement { side: StatusSide::Right, index: 0, area: Rect::new(30, 0, 10, 1), separator: false }];
    assert_eq!(transient_x(area, &right, 10), Some(29));
    assert_eq!(transient_x(area, &right, 30), None);
    assert_eq!(transient_x(area, &Vec::new(), 10), Some(29));
    let left = vec![SlotPlacement { side: StatusSide::Left, index: 0, area: Rect::new(0, 0, 35, 1), separator: false }];
    assert_eq!(transient_x(area, &left, 20), Some(19));
    assert_eq!(transient_x(Rect::new(0, 0, 12, 1), &Vec::new(), 10), None);
}

#[test]
fn placements_never_share_a_cell() {
    let c = vec![
        SlotAllocation { side: StatusSide::Left, index: 0, width: 3, full_width: 5, priority: 100, essential: true },
        SlotAllocation { side: StatusSide::Left, index: 1, width: 2, full_width: 4, priority: 70, essential: false },
        SlotAllocation { side: StatusSide::Center, index: 0, width: 2, full_width: 3, priority: 40, essential: false },
        SlotAllocation { side: StatusSide::Right, index: 0, width: 0, full_width: 4, priority: 50, essential: false },
        SlotAllocation { side: StatusSide::Right, index: 1, width: 0, full_width: 2, priority: 60, essential: false },
    ];
    let out = layout_slots(Rect::new(0, 0, 30, 1), &c, 0);
    assert!(!out.is_empty());
    for (a, p) in out.iter().enumerate() {
        assert_eq!(p.area.height, 1);
        for q in &out[a + 1..] {
            assert!(p.area.x + p.area.width <= q.area.x || q.area.x + q.area.width <= p.area.x, "{p:?} {q:?}");
        }
    }
}
