use termrock::terminal_cell_grid::{projected_diff, projected_symbol, source_covers, CellDiff};

#[test]
fn empty_symbol_paints_a_blank() {
    assert_eq!(projected_symbol(""), " ");
    assert_eq!(projected_symbol("β"), "β");
}

#[test]
fn destination_outside_the_source_is_cleared() {
    assert!(source_covers(0, 0, 1, 1));
    assert!(!source_covers(0, 1, 1, 1));
    assert!(!source_covers(1, 0, 1, 3));
    assert!(!source_covers(0, 0, 0, 0));
}

#[test]
fn narrow_clip_drops_forced_width_and_skip() {
    assert_eq!(projected_diff(CellDiff::ForcedWidth(2), 0, 1), CellDiff::Ordinary);
    assert_eq!(projected_diff(CellDiff::ForcedWidth(2), 0, 2), CellDiff::ForcedWidth(2));
    assert_eq!(projected_diff(CellDiff::ForcedWidth(2), 1, 2), CellDiff::Ordinary);
    assert_eq!(projected_diff(CellDiff::Skip, 1, 2), CellDiff::Ordinary);
    assert_eq!(projected_diff(CellDiff::AlwaysUpdate, 1, 2), CellDiff::AlwaysUpdate);
    assert_eq!(projected_diff(CellDiff::Ordinary, 0, 0), CellDiff::Ordinary);
}
