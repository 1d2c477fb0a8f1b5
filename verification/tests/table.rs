use termrock::input::{KeyCode, KeyEvent, KeyModifiers};
use termrock::interaction::{default_table_intent, NavigationMove, UiIntent};
use termrock::table::{resolve_layout_into, resolve_widths, ColumnWidth, SortDirection, TableBodyState, TableRecipe};

#[test]
fn min_grows_leftover_after_low_priority_column_drops() {
    let columns = [ColumnWidth::Fixed(5), ColumnWidth::Min(24), ColumnWidth::Fixed(7), ColumnWidth::Fixed(9)];
    let priorities = [100u8, 90, 80, 20];
    let mut resolved = Vec::new();
    let mut visible = Vec::new();
    let mut policies = Vec::new();
    let mut scratch = Vec::new();
    resolve_layout_into(&columns, &priorities, 51, 2, &mut resolved, &mut visible, &mut policies, &mut scratch);
    assert_eq!(visible.len(), 4, "{visible:?}");
    assert_eq!(resolved[1], 24);

    resolve_layout_into(&columns, &priorities, 49, 2, &mut resolved, &mut visible, &mut policies, &mut scratch);
    assert!(!visible.contains(&3), "status drops under 49: {visible:?}");
    assert_eq!(resolved[1], 33, "task Min absorbs leftover");
}

#[test]
fn layout_drops_lowest_priority_first() {
    let mut resolved = Vec::new();
    let mut visible = Vec::new();
    let mut policies = Vec::new();
    let mut scratch = Vec::new();
    resolve_layout_into(
        &[ColumnWidth::Fixed(6), ColumnWidth::Fixed(6), ColumnWidth::Fixed(6)],
        &[100, 10, 90],
        14,
        2,
        &mut resolved,
        &mut visible,
        &mut policies,
        &mut scratch,
    );
    assert!(!visible.contains(&1), "low priority col dropped: {visible:?}");
    assert!(visible.contains(&0));
}

#[test]
fn table_intent_maps_horizontal_keys() {
    assert_eq!(
        default_table_intent(KeyEvent::new(KeyCode::Left, KeyModifiers::NONE)),
        Some(UiIntent::Move(NavigationMove::Left))
    );
    assert_eq!(
        default_table_intent(KeyEvent::new(KeyCode::Right, KeyModifiers::NONE)),
        Some(UiIntent::Move(NavigationMove::Right))
    );
    assert_eq!(default_table_intent(KeyEvent::new(KeyCode::Char(' '), KeyModifiers::NONE)), None);
}

#[test]
fn layout_fuzz_narrow_budgets_are_deterministic() {
    let policies = [
        ColumnWidth::Fixed(8),
        ColumnWidth::Min(6),
        ColumnWidth::Fill(1),
        ColumnWidth::Fixed(10),
        ColumnWidth::Min(4),
    ];
    let priorities = [100u8, 20, 50, 80, 10];
    let mut resolved_a = Vec::new();
    let mut resolved_b = Vec::new();
    let mut visible_a = Vec::new();
    let mut visible_b = Vec::new();
    let mut scratch = Vec::new();
    let mut policies_scratch = Vec::new();
    for available in 0u16..=40 {
        for gap in [0u16, 1, 2] {
            resolve_layout_into(&policies, &priorities, available, gap, &mut resolved_a, &mut visible_a, &mut scratch, &mut policies_scratch);
            resolve_layout_into(&policies, &priorities, available, gap, &mut resolved_b, &mut visible_b, &mut scratch, &mut policies_scratch);
            assert_eq!(resolved_a, resolved_b, "avail={available} gap={gap}");
            assert_eq!(visible_a, visible_b, "avail={available} gap={gap}");
            assert!(visible_a.iter().all(|&i| resolved_a[i] > 0 || available == 0), "visible zeros avail={available}");
        }
    }
}

#[test]
fn widths_share_fill_and_shrink_min_first() {
    assert_eq!(resolve_widths(&[ColumnWidth::Fixed(4), ColumnWidth::Fill(1), ColumnWidth::Fill(2)], 13), vec![4, 3, 6]);
    assert_eq!(resolve_widths(&[ColumnWidth::Fill(1), ColumnWidth::Fill(1), ColumnWidth::Fill(1)], 10), vec![4, 3, 3]);
    assert_eq!(resolve_widths(&[ColumnWidth::Fixed(5), ColumnWidth::Min(5)], 7), vec![5, 2]);
    assert_eq!(resolve_widths(&[ColumnWidth::Fixed(5), ColumnWidth::Min(5)], 3), vec![3, 0]);
    assert_eq!(resolve_widths(&[ColumnWidth::Min(2), ColumnWidth::Fixed(3), ColumnWidth::Min(2)], 12), vec![4, 3, 5]);
    assert_eq!(resolve_widths(&[ColumnWidth::Fixed(3)], 10), vec![3]);
    assert_eq!(TableRecipe::Compact.id(), "compact");
    let _ = (SortDirection::Ascending, TableBodyState::Ready);
}

fn fill(weight: u16) -> ColumnWidth {
    ColumnWidth::Fill(weight)
}

#[test]
fn solver_contract_is_deterministic() {
    let cases: &[(&[ColumnWidth], u16, &[u16])] = &[
        (&[], 10, &[]),
        (&[fill(1)], 0, &[0]),
        (&[fill(1)], 7, &[7]),
        (&[fill(1), fill(1)], 5, &[3, 2]),
        (&[fill(1), fill(2)], 9, &[3, 6]),
        (&[ColumnWidth::Fixed(4), ColumnWidth::Min(3)], 7, &[4, 3]),
        (&[ColumnWidth::Fixed(4), ColumnWidth::Min(3)], 10, &[4, 6]),
        (&[ColumnWidth::Fixed(4), fill(1), ColumnWidth::Min(3)], 12, &[4, 5, 3]),
        (&[ColumnWidth::Fixed(4), ColumnWidth::Min(3)], 6, &[4, 2]),
        (&[ColumnWidth::Fixed(4), ColumnWidth::Min(3)], 3, &[3, 0]),
        (&[ColumnWidth::Min(100)], 9, &[9]),
        (&[ColumnWidth::Min(2), ColumnWidth::Min(3), ColumnWidth::Min(4)], 6, &[2, 3, 1]),
        (&[ColumnWidth::Fixed(0), fill(2)], 7, &[0, 7]),
        (&[fill(u16::MAX), fill(u16::MAX), fill(u16::MAX)], u16::MAX, &[21_845, 21_845, 21_845]),
        (&[ColumnWidth::Fixed(2), ColumnWidth::Fixed(3), ColumnWidth::Fixed(4)], 4, &[2, 2, 0]),
    ];
    for (columns, available, expected) in cases {
        assert_eq!(resolve_widths(columns, *available), *expected);
    }
}

#[test]
fn layout_collapses_rightmost_columns_without_phantom_gaps() {
    let mut resolved = Vec::new();
    let mut visible = Vec::new();
    let mut policies = Vec::new();
    let mut scratch = Vec::new();
    let priorities = [50u8, 50];

    resolve_layout_into(
        &[ColumnWidth::Fixed(4), ColumnWidth::Min(3)],
        &priorities,
        5,
        2,
        &mut resolved,
        &mut visible,
        &mut policies,
        &mut scratch,
    );
    assert_eq!(resolved, [4, 0]);
    assert_eq!(visible, [0]);

    resolve_layout_into(
        &[fill(1), fill(1)],
        &priorities,
        2,
        2,
        &mut resolved,
        &mut visible,
        &mut policies,
        &mut scratch,
    );
    assert_eq!(resolved, [2, 0]);
    assert_eq!(visible, [0]);
}

#[test]
fn column_policies_hold_per_column() {
    assert_eq!(resolve_widths(&[ColumnWidth::Fixed(5), ColumnWidth::Min(3), ColumnWidth::Fill(1)], 20), vec![5, 3, 12]);
    assert_eq!(resolve_widths(&[ColumnWidth::Min(3), ColumnWidth::Fixed(2)], 10), vec![8, 2]);
    assert_eq!(resolve_widths(&[ColumnWidth::Fixed(5), ColumnWidth::Fill(1)], 3), vec![3, 0]);
}
