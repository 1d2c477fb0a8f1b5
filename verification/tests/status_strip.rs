use termrock::semantic_status::SemanticStatus;
use termrock::status_strip::{fit_columns, StatusSegment, StatusStrip};
use termrock::style::{DesignSystem, Role};

fn segments() -> Vec<StatusSegment<'static>> {
    vec![
        StatusSegment::new("running").semantic(SemanticStatus::Running).priority(100),
        StatusSegment::new("offline").semantic(SemanticStatus::Offline).priority(90),
        StatusSegment::new("opus-5").priority(60),
        StatusSegment::new("queue 3").semantic(SemanticStatus::Warning).priority(80),
        StatusSegment::new("$0.42").priority(10),
    ]
}

#[test]
fn narrow_strips_drop_by_priority_not_by_position() {
    let system = DesignSystem::new();
    let segments = segments();
    let strip = StatusStrip::new(&segments, &system);
    let kept = strip.visible(24);
    assert!(kept.contains(&0), "the actionable segment always survives");
    assert!(!kept.contains(&4), "the cheapest segment drops first: {kept:?}");
    assert!(kept.len() < segments.len(), "a narrow strip must actually drop something");
}

#[test]
fn the_actionable_segment_survives_any_width() {
    let system = DesignSystem::new();
    let segments = segments();
    let strip = StatusStrip::new(&segments, &system);
    assert_eq!(strip.visible(3), vec![0]);
    assert_eq!(strip.visible(1), vec![0]);
}

#[test]
fn fit_keeps_by_priority_then_index() {
    assert_eq!(fit_columns(&[10, 90, 50], &[4, 4, 4], 3, 11, 11), vec![1, 2]);
    assert_eq!(fit_columns(&[10, 90, 50], &[4, 4, 4], 3, 100, 100), vec![0, 1, 2]);
    assert_eq!(fit_columns(&[10, 90, 50], &[40, 40, 4], 3, 1, 1), vec![1]);
    assert!(fit_columns(&[10], &[4], 3, 10, 0).is_empty());
}

#[test]
fn kept_columns_with_separators_fit_budget() {
    let cols = [4usize, 4, 4];
    let kept = fit_columns(&[1, 1, 1], &cols, 3, 12, 20);
    assert_eq!(kept, vec![0, 1]);
    let spent: usize = kept.iter().map(|&i| cols[i]).sum::<usize>() + 3 * (kept.len() - 1);
    assert_eq!(spent, 11);
    assert!(spent <= 12);
    let lone = fit_columns(&[1, 5], &[30, 2], 3, 10, 20);
    assert_eq!(lone, vec![1]);
    assert!(kept.windows(2).all(|w| w[0] < w[1]));
}

#[test]
fn painted_roles_spend_one_accent() {
    let system = DesignSystem::new();
    let segs = [StatusSegment::new("a").focus(), StatusSegment::new("b").focus(), StatusSegment::new("c")];
    let strip = StatusStrip::new(&segs, &system);
    assert_eq!(strip.painted_roles(&[0, 1, 2]), vec![Role::Accent, Role::TextMuted, Role::TextMuted]);
    assert_eq!(strip.painted_roles(&[1]), vec![Role::Accent]);
    let plain = strip.colorless(true);
    assert_eq!(plain.painted_roles(&[0, 1]), vec![Role::Text, Role::TextMuted]);
}
