//! Projection of a terminal-screen snapshot onto a grid of cells: which
//! destination cells take a source cell, what a projected cell paints, and
//! which redraw behaviour survives the clip.
//!
//! Every destination cell is rewritten on each projection, so a shrinking
//! snapshot cannot leave stale content behind.

use vstd::prelude::*;
use crate::geometry::sat_add;

verus! {

/// How a cell takes part in redraw diffing.
#[derive(Debug, Clone, Copy, PartialEq, Eq, Hash, Structural)]
pub enum CellDiff {
    /// Ordinary diffing.
    Ordinary,
    /// Left alone when diffing.
    Skip,
    /// Redrawn every frame.
    AlwaysUpdate,
    /// Counts as this many columns, whatever its text (at least one).
    ForcedWidth(u16),
}

impl Default for CellDiff {
    /// `Ordinary`.
    fn default() -> (r: CellDiff)
        ensures
            r == CellDiff::Ordinary,
    {
        CellDiff::Ordinary
    }
}

/// Whether destination cell `(row, column)` lies inside a source of
/// `rows × columns` cells.
pub open spec fn source_covers_spec(row: int, column: int, rows: int, columns: int) -> bool {
    row < rows && column < columns
}

/// Whether destination cell `(row, column)` lies inside the source.
pub fn source_covers(row: u16, column: u16, rows: u16, columns: u16) -> (b: bool)
    ensures
        b == source_covers_spec(row as int, column as int, rows as int, columns as int),
{
    row < rows && column < columns
}

/// The symbol a projected cell paints: one blank for an empty symbol.
pub open spec fn projected_symbol_spec(symbol: Seq<char>) -> Seq<char> {
    if symbol.len() == 0 { " "@ } else { symbol }
}

/// The symbol a projected cell paints (see [`projected_symbol_spec`]).
pub fn projected_symbol(symbol: &str) -> (s: &str)
    ensures
        s@ == projected_symbol_spec(symbol@),
{
    if symbol.is_empty() { " " } else { symbol }
}

/// The redraw behaviour a projected cell keeps at `column` of an area
/// `width` columns wide: skipping would keep stale content, so it becomes
/// ordinary; a forced width that would run past the area's edge becomes
/// ordinary; anything else is kept.
pub open spec fn projected_diff_spec(diff: CellDiff, column: int, width: int) -> CellDiff {
    match diff {
        CellDiff::Skip => CellDiff::Ordinary,
        CellDiff::ForcedWidth(w) => if sat_add(column, w as int) > width { CellDiff::Ordinary } else { diff },
        _ => diff,
    }
}

/// The redraw behaviour a projected cell keeps (see [`projected_diff_spec`]).
pub fn projected_diff(diff: CellDiff, column: u16, width: u16) -> (d: CellDiff)
    ensures
        d == projected_diff_spec(diff, column as int, width as int),
{
    match diff {
        CellDiff::Skip => CellDiff::Ordinary,
        CellDiff::ForcedWidth(w) => if column.saturating_add(w) > width { CellDiff::Ordinary } else { diff },
        _ => diff,
    }
}

/// A projection never keeps stale content nor spills past its area: no
/// projected cell is skipped by diffing, and a kept forced width ends inside
/// the area.
pub proof fn law_projection_stays_in_frame(diff: CellDiff, column: int, width: int)
    requires
        0 <= column <= u16::MAX,
        0 <= width < u16::MAX,
    ensures
        projected_diff_spec(diff, column, width) != CellDiff::Skip,
        projected_diff_spec(diff, column, width) matches CellDiff::ForcedWidth(w) ==> column + w <= width,
{
}

} // verus!
