//! Header marks shared by the table family.

use vstd::prelude::*;

verus! {

/// Two blank cells between adjacent columns.
pub fn column_gap() -> (s: &'static str)
    ensures
        s@ == "  "@,
{
    "  "
}

/// Primary-key header mark.
pub fn primary_key_mark() -> (s: &'static str)
    ensures
        s@ == "⚷"@,
{
    "⚷"
}

/// Sort direction marker: `▴` ascending, `▾` descending.
pub fn sort_marker(ascending: bool) -> (s: &'static str)
    ensures
        s@ == if ascending { "▴"@ } else { "▾"@ },
{
    if ascending { "▴" } else { "▾" }
}

/// Mark of a filtered column.
pub fn filter_marker() -> (s: &'static str)
    ensures
        s@ == "∇"@,
{
    "∇"
}

} // verus!
