use termrock::geometry::Rect;
use termrock::spinner::{
    braille_frame, spinner_braille_frames, spinner_demand, ActivityIndicator, ActivityPhase, FrameTick,
    MotionPolicy, Spinner, SpinnerState, SpinnerVariant,
};
use termrock::style::DesignSystem;

fn tick_at(ms: u64) -> FrameTick {
    FrameTick::manual(ms, 16)
}

#[test]
fn every_phase_uses_the_one_cadence() {
    assert_eq!(ActivityPhase::Indeterminate.period_ms(), 80);
    assert_eq!(ActivityPhase::Waiting.period_ms(), 80);
    assert!(!ActivityPhase::Queued.animates());
    assert!(!ActivityPhase::Done.animates());
    assert!(ActivityPhase::Streaming.animates());
}

#[test]
fn done_is_a_settled_mark_not_a_sequence() {
    let mut state = SpinnerState::new();
    state.set_phase(ActivityPhase::Done);
    assert_eq!(state.frames(MotionPolicy::Full), vec!["✓"]);
    assert_eq!(
        state.frame_glyph(tick_at(0), MotionPolicy::Full),
        state.frame_glyph(tick_at(4_000), MotionPolicy::Full),
        "a finished spinner must not keep moving"
    );
}

#[test]
fn motion_off_parks_in_flight_phases_on_first_braille_frame() {
    for phase in [
        ActivityPhase::Indeterminate,
        ActivityPhase::Waiting,
        ActivityPhase::Queued,
        ActivityPhase::Reconnecting,
        ActivityPhase::Streaming,
    ] {
        let mut state = SpinnerState::new();
        state.set_phase(phase);
        assert_eq!(state.frame_glyph(tick_at(500), MotionPolicy::Off), braille_frame(0), "{phase:?}");
    }
    let mut done = SpinnerState::new();
    done.set_phase(ActivityPhase::Done);
    assert_eq!(done.frame_glyph(tick_at(500), MotionPolicy::Off), "✓");
}

#[test]
fn spinner_motion_off_static() {
    let tokens = DesignSystem::new();
    let spinner = Spinner::new(&tokens);
    let tick = FrameTick::manual(560, 16);
    assert_eq!(spinner.frame_glyph(tick, MotionPolicy::Off), braille_frame(0));
    let a = spinner.frame_glyph(tick, MotionPolicy::Full);
    let b = spinner.frame_glyph(FrameTick::manual(640, 16), MotionPolicy::Full);
    assert_ne!(a, b);
}

#[test]
fn idle_when_not_visible_or_inactive() {
    let mut state = SpinnerState::new();
    let tick = tick_at(500);
    assert!(state.animation_demand(tick, MotionPolicy::Full).needs_redraw);
    state.set_visible(false);
    assert!(!state.animation_demand(tick, MotionPolicy::Full).needs_redraw);
    state.set_visible(true);
    state.set_active(false);
    assert!(!state.animation_demand(tick, MotionPolicy::Full).needs_redraw);
    assert!(!state.should_tick());
}

#[test]
fn queued_does_not_animate() {
    let mut state = SpinnerState::new();
    state.set_phase(ActivityPhase::Queued);
    assert!(!state.phase().animates());
    assert!(!state.should_tick());
    let g1 = state.frame_glyph(tick_at(0), MotionPolicy::Full);
    let g2 = state.frame_glyph(tick_at(10_000), MotionPolicy::Full);
    assert_eq!(g1, g2);
}

#[test]
fn phases_have_distinct_static_glyphs() {
    let mut state = SpinnerState::new();
    state.set_active(false);
    let mut glyphs = Vec::new();
    for p in [
        ActivityPhase::Indeterminate,
        ActivityPhase::Waiting,
        ActivityPhase::Queued,
        ActivityPhase::Reconnecting,
    ] {
        state.set_phase(p);
        glyphs.push(state.frame_glyph(tick_at(0), MotionPolicy::Off));
    }
    assert!(glyphs.iter().any(|g| *g != glyphs[0]) || glyphs.len() == 4);
}

#[test]
fn label_required_unless_embedded() {
    let system = DesignSystem::new();
    let bare = Spinner::new(&system);
    let state = SpinnerState::new();
    assert!(!bare.label_ok(&state));
    let labeled = Spinner::labeled("Loading", &system);
    assert!(labeled.label_ok(&state));
    let emb = Spinner::new(&system).embedded(true);
    assert!(emb.label_ok(&state));
    let mut st = SpinnerState::new();
    st.set_embedded_in_labeled_control(true);
    st.set_variant(SpinnerVariant::CompactInline);
    assert!(Spinner::new(&system).label_ok(&st));
}

#[test]
fn deterministic_cadence() {
    let state = SpinnerState::new();
    let a = state.frame_glyph(tick_at(800), MotionPolicy::Full);
    let b = state.frame_glyph(tick_at(800), MotionPolicy::Full);
    assert_eq!(a, b);
}

#[test]
fn timing_idle_redraw_tests() {
    let active = SpinnerState::new();
    let tick = tick_at(0);
    assert!(active.animation_demand(tick, MotionPolicy::Full).needs_redraw);
    assert!(active.animation_demand(tick, MotionPolicy::Full).next_deadline_ms.is_some());
    assert!(!active.animation_demand(tick, MotionPolicy::Off).needs_redraw);
    let mut idle = SpinnerState::new();
    idle.set_active(false);
    assert!(!idle.animation_demand(tick, MotionPolicy::Full).needs_redraw);
    assert!(!spinner_demand(tick, MotionPolicy::Full, false).needs_redraw);
    assert!(spinner_demand(tick, MotionPolicy::Full, true).needs_redraw);
}

#[test]
fn fuzz_phases_ticks() {
    let mut state = SpinnerState::new();
    let phases = [
        ActivityPhase::Indeterminate,
        ActivityPhase::Waiting,
        ActivityPhase::Queued,
        ActivityPhase::Reconnecting,
    ];
    let mut seed = 7u64;
    for i in 0..100u64 {
        seed = seed.wrapping_mul(1103515245).wrapping_add(12345);
        state.set_phase(phases[(seed as usize) % phases.len()]);
        state.set_active(seed % 5 != 0);
        state.set_visible(seed % 7 != 0);
        let _ = state.frame_glyph(tick_at(i * 40), MotionPolicy::Full);
        let _ = state.animation_demand(tick_at(i * 40), MotionPolicy::Full);
    }
}

#[test]
fn every_animated_phase_shares_the_one_frame_set() {
    for phase in [
        ActivityPhase::Indeterminate,
        ActivityPhase::Waiting,
        ActivityPhase::Reconnecting,
        ActivityPhase::Streaming,
    ] {
        let mut state = SpinnerState::new();
        state.set_phase(phase);
        assert_eq!(state.frames(MotionPolicy::Full), spinner_braille_frames(), "{phase:?} grew its own frame set");
        assert_eq!(state.frames(MotionPolicy::Full).len(), 10);
    }
    let mut state = SpinnerState::new();
    state.set_phase(ActivityPhase::Reconnecting);
    assert!(spinner_braille_frames().contains(&state.frame_glyph(tick_at(0), MotionPolicy::Full)));
}

#[test]
fn frames_advance_one_per_period() {
    let state = SpinnerState::new();
    assert_eq!(state.frame_glyph(tick_at(0), MotionPolicy::Full), "⠋");
    assert_eq!(state.frame_glyph(tick_at(79), MotionPolicy::Full), "⠋");
    assert_eq!(state.frame_glyph(tick_at(80), MotionPolicy::Full), "⠙");
    assert_eq!(state.frame_glyph(tick_at(800), MotionPolicy::Full), "⠋");
    assert_eq!(state.frame_glyph(tick_at(880), MotionPolicy::Full), "⠙");
    assert_eq!(state.frame_glyph(tick_at(80), MotionPolicy::Reduced), "⠋");
}

#[test]
fn demand_deadline_is_one_period_ahead() {
    let state = SpinnerState::new();
    let d = state.animation_demand(tick_at(1_000), MotionPolicy::Full);
    assert_eq!(d.next_deadline_ms, Some(1_080));
    assert_eq!(spinner_demand(tick_at(5), MotionPolicy::Full, true).next_deadline_ms, Some(85));
}

#[test]
fn resolved_label_falls_back_to_phase_verb() {
    let system = DesignSystem::new();
    let mut state = SpinnerState::new();
    state.set_phase(ActivityPhase::Reconnecting);
    assert_eq!(Spinner::new(&system).resolved_label(&state), "Reconnecting");
    assert_eq!(Spinner::labeled("  ", &system).resolved_label(&state), "Reconnecting");
    assert_eq!(Spinner::labeled("Fetch", &system).resolved_label(&state), "Fetch");
    assert_eq!(Spinner::new(&system).phase(ActivityPhase::Done).resolved_label(&state), "Done");
    assert!(!Spinner::labeled(" \t", &system).label_ok(&SpinnerState::new()));
}

#[test]
fn activity_indicator_height_follows_detail() {
    let system = DesignSystem::new();
    assert_eq!(ActivityIndicator::new("Working", &system).measure_height(), 1);
    assert_eq!(ActivityIndicator::new("Working", &system).detail("3/5").measure_height(), 2);
    assert_eq!(ActivityPhase::Streaming.id(), "streaming");
    assert_eq!(ActivityPhase::Indeterminate.default_verb(), "Working");
}

#[test]
fn label_room_follows_variant_and_embedding() {
    let system = DesignSystem::new();
    let state = SpinnerState::new();
    let plain = Spinner::new(&system);
    assert_eq!(plain.label_room(&state, Rect::new(4, 1, 20, 1)), Some((6, 18)));
    assert_eq!(plain.label_room(&state, Rect::new(4, 1, 2, 1)), None);
    let inline = Spinner::new(&system).variant(SpinnerVariant::CompactInline);
    assert_eq!(inline.label_room(&state, Rect::new(0, 0, 20, 1)), None);
    assert_eq!(inline.label("Saving").label_room(&state, Rect::new(0, 0, 20, 1)), Some((2, 18)));
    let embedded = Spinner::new(&system).embedded(true);
    assert_eq!(embedded.label_room(&state, Rect::new(0, 0, 20, 1)), None);
    assert!(embedded.frame_state(&state).embedded_in_labeled_control());
    assert_eq!(inline.frame_state(&state).variant(), SpinnerVariant::CompactInline);
}
