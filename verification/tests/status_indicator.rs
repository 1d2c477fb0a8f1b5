use termrock::semantic_status::SemanticStatus;
use termrock::status_indicator::{
    example_status_catalog, format_elapsed, PresenceStatus, ProgressStatus, ProgressStepStatus, Severity,
    StatusIndicator, StatusIndicatorState, StatusIndicatorVariant, ToolStatus,
};
use termrock::style::{DesignSystem, GlyphSet};

fn system() -> DesignSystem {
    DesignSystem::new()
}

#[test]
fn all_kinds_have_glyph_label_role() {
    for k in SemanticStatus::all() {
        assert!(!k.id().is_empty());
        assert!(!k.default_label().is_empty());
        assert!(!k.glyph_unicode().is_empty());
        assert!(!k.glyph_ascii().is_empty());
        assert_eq!(SemanticStatus::from_id(k.id()), Some(k));
    }
}

#[test]
fn color_alone_insufficient_compact_has_distinct_glyphs() {
    let mut glyphs_u = std::collections::BTreeSet::new();
    let mut glyphs_a = std::collections::BTreeSet::new();
    for k in SemanticStatus::all() {
        glyphs_u.insert(k.glyph_unicode());
        glyphs_a.insert(k.glyph_ascii());
    }
    assert!(glyphs_u.len() >= 8, "{glyphs_u:?}");
    assert!(glyphs_a.len() >= 8, "{glyphs_a:?}");
}

#[test]
fn mapping_severity() {
    assert_eq!(SemanticStatus::from_severity(Severity::Success), SemanticStatus::Success);
    assert_eq!(SemanticStatus::from_severity(Severity::Error), SemanticStatus::Failed);
    assert_eq!(SemanticStatus::from_severity(Severity::Warning), SemanticStatus::Warning);
}

#[test]
fn mapping_tool_status() {
    assert_eq!(SemanticStatus::from_tool_status(ToolStatus::Queued), SemanticStatus::Queued);
    assert_eq!(SemanticStatus::from_tool_status(ToolStatus::Running), SemanticStatus::Running);
    assert_eq!(SemanticStatus::from_tool_status(ToolStatus::Success), SemanticStatus::Success);
    assert_eq!(SemanticStatus::from_tool_status(ToolStatus::Failed), SemanticStatus::Failed);
    assert_eq!(SemanticStatus::from_tool_status(ToolStatus::Cancelled), SemanticStatus::Paused);
    assert_eq!(SemanticStatus::from_tool_status(ToolStatus::WaitingPermission), SemanticStatus::Paused);
}

#[test]
fn mapping_presence() {
    assert_eq!(SemanticStatus::from_presence(PresenceStatus::Online), SemanticStatus::Online);
    assert_eq!(SemanticStatus::from_presence(PresenceStatus::Offline), SemanticStatus::Offline);
    assert_eq!(SemanticStatus::from_presence(PresenceStatus::Away), SemanticStatus::Idle);
    assert_eq!(SemanticStatus::from_presence(PresenceStatus::Busy), SemanticStatus::Running);
    assert_eq!(SemanticStatus::from_presence(PresenceStatus::Error), SemanticStatus::Failed);
}

#[test]
fn mapping_progress_status() {
    assert_eq!(SemanticStatus::from_progress_status(ProgressStatus::Running), SemanticStatus::Running);
    assert_eq!(SemanticStatus::from_progress_status(ProgressStatus::Buffering), SemanticStatus::Waiting);
    assert_eq!(SemanticStatus::from_progress_status(ProgressStatus::Complete), SemanticStatus::Success);
    assert_eq!(SemanticStatus::from_progress_status(ProgressStatus::Failed), SemanticStatus::Failed);
    assert_eq!(SemanticStatus::from_progress_status(ProgressStatus::Paused), SemanticStatus::Paused);
}

#[test]
fn mapping_progress_step_status() {
    assert_eq!(SemanticStatus::from_progress_step_status(ProgressStepStatus::Queued), SemanticStatus::Queued);
    assert_eq!(SemanticStatus::from_progress_step_status(ProgressStepStatus::Retrying), SemanticStatus::Running);
    assert_eq!(SemanticStatus::from_progress_step_status(ProgressStepStatus::Warning), SemanticStatus::Warning);
    assert_eq!(SemanticStatus::from_progress_step_status(ProgressStepStatus::Skipped), SemanticStatus::Idle);
}

#[test]
fn glyph_comes_from_the_one_vocabulary() {
    let sys = system();
    let s = StatusIndicator::new(SemanticStatus::Online, &sys);
    assert_eq!(s.glyph(), SemanticStatus::Online.glyph_unicode());
    assert_eq!(SemanticStatus::Failed.glyph(), SemanticStatus::Failed.glyph_unicode());
}

#[test]
fn variants_compact_labeled_elapsed() {
    let system = system();
    let c = StatusIndicator::compact(SemanticStatus::Running, &system);
    assert_eq!(c.variant, StatusIndicatorVariant::Compact);
    assert_eq!(c.text(None), c.glyph());

    let l = StatusIndicator::new(SemanticStatus::Success, &system).label("saved");
    assert!(l.text(None).contains("saved"));
    assert!(l.text(None).contains(l.glyph()));
    assert!(l.text(None).starts_with(l.rail()));

    let e = StatusIndicator::new(SemanticStatus::Running, &system).label("job").elapsed_secs(125);
    let t = e.text(None);
    assert!(t.contains("job"), "{t}");
    assert!(t.contains("2m") || t.contains("125"), "{t}");
}

#[test]
fn catalog_len() {
    assert_eq!(example_status_catalog().len(), 11);
}

#[test]
fn elapsed_formats_seconds_minutes_hours() {
    assert_eq!(format_elapsed(0), "0s");
    assert_eq!(format_elapsed(59), "59s");
    assert_eq!(format_elapsed(60), "1m00s");
    assert_eq!(format_elapsed(125), "2m05s");
    assert_eq!(format_elapsed(3599), "59m59s");
    assert_eq!(format_elapsed(3600), "1h00m");
    assert_eq!(format_elapsed(3 * 3600 + 7 * 60 + 9), "3h07m");
}

#[test]
fn text_uses_rail_glyph_label_and_state_elapsed() {
    let system = system();
    let l = StatusIndicator::new(SemanticStatus::Success, &system);
    assert_eq!(l.text(None), "┃ ✓ ok");
    let ascii = DesignSystem::new().with_glyphs(GlyphSet::Ascii);
    assert_eq!(StatusIndicator::new(SemanticStatus::Success, &ascii).text(None), "| ✓ ok");
    let mut st = StatusIndicatorState::new();
    st.elapsed_secs = Some(42);
    let e = StatusIndicator::new(SemanticStatus::Running, &system).variant(StatusIndicatorVariant::Elapsed);
    assert_eq!(e.text(Some(&st)), "┃ ◐ running 42s");
    assert_eq!(e.text(None), "┃ ◐ running");
    assert_eq!(e.measure_width(Some(&st)), 15);
    st.set_accessible_label("build");
    assert_eq!(st.accessible_label(), Some("build"));
    assert_eq!(SemanticStatus::from_id("nope"), None);
}
