//! Table column negotiation: width policies, their solver, and
//! priority-ordered column dropping under width pressure.

use vstd::prelude::*;

verus! {

/// Presentation recipe (visual chrome without domain noise).
#[derive(Debug, Clone, Copy, PartialEq, Eq, Hash, Structural)]
pub enum TableRecipe {
    /// Minimal chrome: gutter selection, no grid lines (default).
    Quiet,
    /// Light column / header separators.
    Bordered,
    /// Alternate-row dimming.
    Striped,
    /// Tight gap.
    Compact,
}

impl Default for TableRecipe {
    /// `Quiet`.
    fn default() -> (r: TableRecipe)
        ensures
            r == TableRecipe::Quiet,
    {
        TableRecipe::Quiet
    }
}

impl TableRecipe {
    /// Stable id.
    pub open spec fn id_spec(self) -> Seq<char> {
        match self {
            TableRecipe::Quiet => "quiet"@,
            TableRecipe::Bordered => "bordered"@,
            TableRecipe::Striped => "striped"@,
            TableRecipe::Compact => "compact"@,
        }
    }

    /// Stable id.
    pub fn id(self) -> (s: &'static str)
        ensures
            s@ == self.id_spec(),
    {
        match self {
            TableRecipe::Quiet => "quiet",
            TableRecipe::Bordered => "bordered",
            TableRecipe::Striped => "striped",
            TableRecipe::Compact => "compact",
        }
    }

    /// Default inter-column gap: one cell when compact, two otherwise.
    pub fn default_gap(self) -> (g: u16)
        ensures
            g == (if self == TableRecipe::Compact { 1u16 } else { 2u16 }),
    {
        match self {
            TableRecipe::Compact => 1,
            _ => 2,
        }
    }
}

/// Load / empty presentation for the table body.
#[derive(Debug, Clone, Copy, PartialEq, Eq, Hash, Structural)]
pub enum TableBodyState {
    /// Rows (or the empty message).
    Ready,
    /// Loading placeholder.
    Loading,
    /// Error placeholder.
    Error,
}

impl Default for TableBodyState {
    /// `Ready`.
    fn default() -> (r: TableBodyState)
        ensures
            r == TableBodyState::Ready,
    {
        TableBodyState::Ready
    }
}

impl TableBodyState {
    /// Stable id.
    pub open spec fn id_spec(self) -> Seq<char> {
        match self {
            TableBodyState::Ready => "ready"@,
            TableBodyState::Loading => "loading"@,
            TableBodyState::Error => "error"@,
        }
    }

    /// Stable id.
    pub fn id(self) -> (s: &'static str)
        ensures
            s@ == self.id_spec(),
    {
        match self {
            TableBodyState::Ready => "ready",
            TableBodyState::Loading => "loading",
            TableBodyState::Error => "error",
        }
    }
}

/// Visible sort direction for a sortable column.
#[derive(Debug, Clone, Copy, PartialEq, Eq, Hash, Structural)]
pub enum SortDirection {
    /// Ascending.
    Ascending,
    /// Descending.
    Descending,
}

/// What a table event meant.
#[derive(Debug, Clone, Copy, PartialEq, Eq)]
pub enum TableOutcome<RowId, ColumnId> {
    /// Input did not apply.
    Ignored,
    /// Selection moved to a row.
    Selected(RowId),
    /// The selected row was activated.
    Activated(RowId),
    /// A sortable header requested sorting.
    SortRequested(ColumnId),
    /// Cancellation was requested.
    Cancelled,
}

/// Width policy for one table column.
#[derive(Debug, Clone, Copy, PartialEq, Eq, Structural)]
pub enum ColumnWidth {
    /// Exact width whenever the viewport can honor it.
    Fixed(u16),
    /// Preferred minimum that shrinks before fixed columns and grows into
    /// leftover when nothing fills.
    Min(u16),
    /// Share of the remaining width, by weight (a weight of zero takes none).
    Fill(u16),
}

// ── Specification ───────────────────────────────────────────────────────────

/// Width a policy reserves before sharing.
pub open spec fn base_width(c: ColumnWidth) -> int {
    match c {
        ColumnWidth::Fixed(w) => w as int,
        ColumnWidth::Min(w) => w as int,
        ColumnWidth::Fill(_) => 0,
    }
}

/// Fill weight of a policy (zero when not a fill).
pub open spec fn fill_weight(c: ColumnWidth) -> int {
    match c {
        ColumnWidth::Fill(w) => w as int,
        _ => 0,
    }
}

/// Sum of an integer sequence.
pub open spec fn sum(s: Seq<int>) -> int
    decreases s.len(),
{
    if s.len() == 0 { 0 } else { sum(s.drop_last()) + s.last() }
}

/// Reserved widths.
pub open spec fn base_widths(cols: Seq<ColumnWidth>) -> Seq<int> {
    cols.map_values(|c: ColumnWidth| base_width(c))
}

/// Sum of reserved widths.
pub open spec fn mandatory(cols: Seq<ColumnWidth>) -> int {
    sum(base_widths(cols))
}

/// Sum of fill weights.
pub open spec fn total_weight(cols: Seq<ColumnWidth>) -> int {
    sum(cols.map_values(|c: ColumnWidth| fill_weight(c)))
}

/// Whether a column may give width in a shrink pass (`fixed` selects the pass).
pub open spec fn shrink_eligible(c: ColumnWidth, fixed: bool) -> bool {
    if fixed { c is Fixed } else { c is Min }
}

/// A shrink pass over indices `j..`, visited right to left: each eligible
/// column gives up to its whole width toward the deficit.
pub open spec fn shrink_pass(cols: Seq<ColumnWidth>, w: Seq<int>, d: int, fixed: bool, j: int) -> (Seq<int>, int)
    decreases cols.len() - j,
{
    if j >= cols.len() || j < 0 {
        (w, d)
    } else {
        let (w1, d1) = shrink_pass(cols, w, d, fixed, j + 1);
        if shrink_eligible(cols[j], fixed) && d1 > 0 {
            let amount = if w1[j] < d1 { w1[j] } else { d1 };
            (w1.update(j, w1[j] - amount), d1 - amount)
        } else {
            (w1, d1)
        }
    }
}

/// Number of columns before `i` that match `pred`.
pub open spec fn count_before(cols: Seq<ColumnWidth>, i: int, fill: bool) -> int
    decreases i,
{
    if i <= 0 {
        0
    } else {
        count_before(cols, i - 1, fill) + (if (fill && cols[i - 1] is Fill) || (!fill && cols[i - 1] is Min) { 1int } else { 0int })
    }
}

/// A fill column's floor share of the remainder.
pub open spec fn fill_share(c: ColumnWidth, remainder: int, total: int) -> int {
    if c is Fill && total > 0 { remainder * fill_weight(c) / total } else { 0 }
}

/// Sum of floor shares.
pub open spec fn shares_sum(cols: Seq<ColumnWidth>, remainder: int, total: int) -> int {
    sum(cols.map_values(|c: ColumnWidth| fill_share(c, remainder, total)))
}

/// The solved width of column `i` when the reserved widths fit.
pub open spec fn fitted_width(cols: Seq<ColumnWidth>, available: int, i: int) -> int {
    let remainder = available - mandatory(cols);
    let total = total_weight(cols);
    let c = cols[i];
    if remainder == 0 {
        base_width(c)
    } else if total == 0 {
        let n = count_before(cols, cols.len() as int, false);
        if c is Min {
            let rank = count_before(cols, i, false);
            let extra = if rank == n - 1 { remainder - (n - 1) * (remainder / n) } else { remainder / n };
            if base_width(c) + extra > u16::MAX { u16::MAX as int } else { base_width(c) + extra }
        } else {
            base_width(c)
        }
    } else if c is Fill {
        let leftover = remainder - shares_sum(cols, remainder, total);
        fill_share(c, remainder, total) + (if count_before(cols, i, true) < leftover { 1int } else { 0int })
    } else {
        base_width(c)
    }
}

/// The solved widths.
pub open spec fn resolve_widths_spec(cols: Seq<ColumnWidth>, available: int) -> Seq<int> {
    if mandatory(cols) > available {
        let (w1, d1) = shrink_pass(cols, base_widths(cols), mandatory(cols) - available, false, 0);
        shrink_pass(cols, w1, d1, true, 0).0
    } else {
        Seq::new(cols.len(), |i: int| fitted_width(cols, available, i))
    }
}

} // verus!

verus! {

proof fn lemma_sum_take_step(s: Seq<int>, i: int)
    requires
        0 <= i < s.len(),
    ensures
        sum(s.take(i + 1)) == sum(s.take(i)) + s[i],
{
    assert(s.take(i + 1).drop_last() =~= s.take(i));
}

proof fn lemma_sum_nonneg_bound(s: Seq<int>, bound: int)
    requires
        forall|j: int| 0 <= j < s.len() ==> 0 <= #[trigger] s[j] <= bound,
    ensures
        0 <= sum(s) <= s.len() * bound,
    decreases s.len(),
{
    if s.len() > 0 {
        lemma_sum_nonneg_bound(s.drop_last(), bound);
        assert((s.len() - 1) * bound + bound == s.len() * bound) by (nonlinear_arith);
    }
}

proof fn lemma_shrink_shape(cols: Seq<ColumnWidth>, w: Seq<int>, d: int, fixed: bool, j: int)
    requires
        w.len() == cols.len(),
        d >= 0,
        forall|k: int| 0 <= k < w.len() ==> 0 <= #[trigger] w[k] <= u16::MAX,
    ensures
        shrink_pass(cols, w, d, fixed, j).0.len() == cols.len(),
        0 <= shrink_pass(cols, w, d, fixed, j).1 <= d,
        forall|k: int| 0 <= k < w.len() ==> 0 <= #[trigger] shrink_pass(cols, w, d, fixed, j).0[k] <= w[k],
        sum(w) - sum(shrink_pass(cols, w, d, fixed, j).0) == d - shrink_pass(cols, w, d, fixed, j).1,
    decreases cols.len() - j,
{
    if j >= cols.len() || j < 0 {
    } else {
        lemma_shrink_shape(cols, w, d, fixed, j + 1);
        let (w1, d1) = shrink_pass(cols, w, d, fixed, j + 1);
        if shrink_eligible(cols[j], fixed) && d1 > 0 {
            let amount = if w1[j] < d1 { w1[j] } else { d1 };
            lemma_sum_update(w1, j, w1[j] - amount);
        }
    }
}

proof fn lemma_sum_update(s: Seq<int>, j: int, v: int)
    requires
        0 <= j < s.len(),
    ensures
        sum(s.update(j, v)) == sum(s) - s[j] + v,
    decreases s.len(),
{
    if j == s.len() - 1 {
        assert(s.update(j, v).drop_last() =~= s.drop_last());
    } else {
        lemma_sum_update(s.drop_last(), j, v);
        assert(s.update(j, v).drop_last() =~= s.drop_last().update(j, v));
    }
}

/// Solves column widths against `available` cells.
///
/// Reserved widths that do not fit shrink `Min` columns first, then `Fixed`
/// ones, rightmost first. Otherwise the remainder is shared by fill weight
/// (rounding leftovers to the first fills), or, with no fills, split evenly
/// among `Min` columns with the rounding on the last.
pub fn resolve_widths(columns: &[ColumnWidth], available: u16) -> (widths: Vec<u16>)
    ensures
        widths.len() == columns.len(),
        forall|i: int| 0 <= i < columns.len() ==> widths@[i] as int == resolve_widths_spec(columns@, available as int)[i],
{
    let n = columns.len();
    let ghost base = base_widths(columns@);
    let mut widths: Vec<u16> = Vec::new();
    let mut mand: u128 = 0;
    let mut i: usize = 0;
    while i < n
        invariant
            n == columns.len(),
            base == base_widths(columns@),
            i <= n,
            widths.len() == i,
            forall|k: int| 0 <= k < i ==> widths@[k] as int == base[k],
            mand as int == sum(base.take(i as int)),
            mand <= i * 65535,
        decreases n - i,
    {
        let w: u16 = match columns[i] {
            ColumnWidth::Fixed(w) => w,
            ColumnWidth::Min(w) => w,
            ColumnWidth::Fill(_) => 0,
        };
        proof {
            lemma_sum_take_step(base, i as int);
        }
        widths.push(w);
        mand = mand + w as u128;
        i = i + 1;
    }
    proof {
        assert(base.take(n as int) =~= base);
    }
    if mand > available as u128 {
        let ghost deficit0 = mand as int - available as int;
        let mut deficit: u128 = mand - available as u128;
        // Min columns give first, then fixed ones; rightmost first in each pass.
        let mut pass: usize = 0;
        let ghost mut w_start = base;
        let ghost mut d_start = deficit0;
        proof {
            assert(widths@.map_values(|x: u16| x as int) =~= base);
        }
        while pass < 2
            invariant
                n == columns.len(),
                base == base_widths(columns@),
                widths.len() == n,
                pass <= 2,
                w_start.len() == n,
                forall|k: int| 0 <= k < n ==> 0 <= #[trigger] w_start[k] <= u16::MAX,
                d_start >= 0,
                pass == 0 ==> w_start == base && d_start == deficit0,
                pass == 1 ==> (w_start, d_start) == shrink_pass(columns@, base, deficit0, false, 0),
                pass == 2 ==> (widths@.map_values(|x: u16| x as int), deficit as int) == shrink_pass(
                    columns@, shrink_pass(columns@, base, deficit0, false, 0).0,
                    shrink_pass(columns@, base, deficit0, false, 0).1, true, 0),
                pass < 2 ==> widths@.map_values(|x: u16| x as int) == w_start && deficit as int == d_start,
                deficit0 == mandatory(columns@) - available as int,
                deficit0 > 0,
            decreases 2 - pass,
        {
            let fixed = pass == 1;
            let mut j: usize = n;
            proof {
                lemma_shrink_shape(columns@, w_start, d_start, fixed, 0);
            }
            while j > 0
                invariant
                    n == columns.len(),
                    widths.len() == n,
                    j <= n,
                    w_start.len() == n,
                    forall|k: int| 0 <= k < n ==> 0 <= #[trigger] w_start[k] <= u16::MAX,
                    d_start >= 0,
                    (widths@.map_values(|x: u16| x as int), deficit as int) == shrink_pass(columns@, w_start, d_start, fixed, j as int),
                decreases j,
            {
                let k = j - 1;
                proof {
                    lemma_shrink_shape(columns@, w_start, d_start, fixed, j as int);
                    assert(widths@[k as int] as int == widths@.map_values(|x: u16| x as int)[k as int]);
                }
                let eligible = match columns[k] {
                    ColumnWidth::Fixed(_) => fixed,
                    ColumnWidth::Min(_) => !fixed,
                    ColumnWidth::Fill(_) => false,
                };
                if eligible && deficit > 0 {
                    let wk = widths[k];
                    let amount: u128 = if (wk as u128) < deficit { wk as u128 } else { deficit };
                    widths.set(k, wk - amount as u16);
                    deficit = deficit - amount;
                }
                proof {
                    let ghost (w1, d1) = shrink_pass(columns@, w_start, d_start, fixed, j as int);
                    assert(widths@.map_values(|x: u16| x as int) =~= shrink_pass(columns@, w_start, d_start, fixed, k as int).0);
                }
                j = k;
            }
            proof {
                let (wn, dn) = shrink_pass(columns@, w_start, d_start, fixed, 0);
                lemma_shrink_shape(columns@, w_start, d_start, fixed, 0);
                w_start = wn;
                d_start = dn;
            }
            pass = pass + 1;
        }
        proof {
            assert forall|k: int| 0 <= k < n implies widths@[k] as int == resolve_widths_spec(columns@, available as int)[k] by {
                assert(widths@[k] as int == widths@.map_values(|x: u16| x as int)[k]);
            }
        }
        return widths;
    }
    let remainder: u64 = (available as u128 - mand) as u64;
    let ghost wseq = columns@.map_values(|c: ColumnWidth| fill_weight(c));
    let mut total: u128 = 0;
    let mut i: usize = 0;
    while i < n
        invariant
            n == columns.len(),
            wseq == columns@.map_values(|c: ColumnWidth| fill_weight(c)),
            i <= n,
            total as int == sum(wseq.take(i as int)),
            total <= i * 65535,
            widths.len() == n,
            base == base_widths(columns@),
            forall|k: int| 0 <= k < n ==> widths@[k] as int == base[k],
        decreases n - i,
    {
        proof {
            lemma_sum_take_step(wseq, i as int);
        }
        match columns[i] {
            ColumnWidth::Fill(w) => {
                total = total + w as u128;
            },
            _ => {},
        }
        i = i + 1;
    }
    proof {
        assert(wseq.take(n as int) =~= wseq);
        assert(mand as int == mandatory(columns@));
        assert(total as int == total_weight(columns@));
    }
    if remainder == 0 {
        proof {
            assert forall|k: int| 0 <= k < n implies widths@[k] as int == resolve_widths_spec(columns@, available as int)[k] by {
                assert(mandatory(columns@) == mand as int);
                assert(!(mandatory(columns@) > available as int));
                assert(available as int - mandatory(columns@) == 0);
                assert(widths@[k] as int == base[k]);
                assert(base[k] == base_width(columns@[k]));
                assert(fitted_width(columns@, available as int, k) == base_width(columns@[k]));
                assert(resolve_widths_spec(columns@, available as int)[k] == fitted_width(columns@, available as int, k));
            }
        }
        return widths;
    }
    if total == 0 {
        let mut nmins: usize = 0;
        let mut i: usize = 0;
        while i < n
            invariant
                n == columns.len(),
                i <= n,
                nmins as int == count_before(columns@, i as int, false),
                nmins <= i,
                widths.len() == n,
                base == base_widths(columns@),
                forall|k: int| 0 <= k < n ==> widths@[k] as int == base[k],
            decreases n - i,
        {
            proof {
                lemma_count_before_mono(columns@, i as int + 1, i as int + 1, false);
            }
            match columns[i] {
                ColumnWidth::Min(_) => {
                    nmins = nmins + 1;
                },
                _ => {},
            }
            i = i + 1;
        }
        if nmins == 0 {
            proof {
                assert forall|k: int| 0 <= k < n implies widths@[k] as int == resolve_widths_spec(columns@, available as int)[k] by {
                    assert(mandatory(columns@) == mand as int);
                    assert(!(mandatory(columns@) > available as int));
                    assert(total_weight(columns@) == 0);
                    assert(widths@[k] as int == base[k]);
                    assert(base[k] == base_width(columns@[k]));
                    assert(resolve_widths_spec(columns@, available as int)[k] == fitted_width(columns@, available as int, k));
                    if columns@[k] is Min {
                        lemma_count_before_mono(columns@, k + 1, n as int, false);
                        lemma_count_before_mono(columns@, k, k, false);
                    }
                }
            }
            return widths;
        }
        let even: u64 = remainder / (nmins as u64);
        let mut rank: usize = 0;
        let mut i: usize = 0;
        while i < n
            invariant
                n == columns.len(),
                widths.len() == n,
                i <= n,
                rank as int == count_before(columns@, i as int, false),
                nmins as int == count_before(columns@, n as int, false),
                nmins > 0,
                remainder as int == available as int - mandatory(columns@),
                remainder <= 65535,
                0 < remainder,
                total_weight(columns@) == 0,
                even as int == remainder as int / nmins as int,
                forall|k: int| 0 <= k < i ==> widths@[k] as int == fitted_width(columns@, available as int, k),
                forall|k: int| i <= k < n ==> widths@[k] as int == base_widths(columns@)[k],
            decreases n - i,
        {
            proof {
                lemma_count_before_mono(columns@, i as int + 1, n as int, false);
            }
            match columns[i] {
                ColumnWidth::Min(_) => {
                    let extra: u64 = if rank + 1 == nmins {
                        proof {
                            assert((nmins as int - 1) * (remainder as int / nmins as int) <= remainder as int) by (nonlinear_arith)
                                requires nmins > 0, remainder >= 0;
                        }
                        remainder - ((nmins - 1) as u64) * even
                    } else {
                        even
                    };
                    proof {
                        assert(remainder as int / nmins as int <= remainder as int) by (nonlinear_arith)
                            requires nmins > 0, remainder >= 0;
                    }
                    widths.set(i, widths[i].saturating_add(extra as u16));
                    rank = rank + 1;
                },
                _ => {},
            }
            i = i + 1;
        }
        proof {
            assert forall|k: int| 0 <= k < n implies widths@[k] as int == resolve_widths_spec(columns@, available as int)[k] by {}
        }
        return widths;
    }
    // Fill columns share the remainder by weight.
    let ghost shares = columns@.map_values(|c: ColumnWidth| fill_share(c, remainder as int, total as int));
    proof {
        lemma_weights_bound(columns@, total as int);
    }
    let mut distributed: u64 = 0;
    let mut i: usize = 0;
    while i < n
        invariant
            n == columns.len(),
            widths.len() == n,
            i <= n,
            shares == columns@.map_values(|c: ColumnWidth| fill_share(c, remainder as int, total as int)),
            total > 0,
            total as int == total_weight(columns@),
            forall|k: int| 0 <= k < n ==> fill_weight(#[trigger] columns@[k]) <= total,
            remainder <= 65535,
            distributed as int == sum(shares.take(i as int)),
            distributed <= remainder,
            forall|k: int| 0 <= k < i ==> widths@[k] as int == (if columns@[k] is Fill { shares[k] } else { base_widths(columns@)[k] }),
            forall|k: int| i <= k < n ==> widths@[k] as int == base_widths(columns@)[k],
        decreases n - i,
    {
        proof {
            lemma_sum_take_step(shares, i as int);
            lemma_share_bound(columns@[i as int], remainder as int, total as int);
            lemma_shares_prefix_bound(columns@, remainder as int, total as int, i as int + 1);
        }
        match columns[i] {
            ColumnWidth::Fill(w) => {
                proof {
                    assert(remainder as int * w as int <= 65535 * 65535) by (nonlinear_arith)
                        requires remainder <= 65535, w <= 65535;
                }
                let share: u64 = ((remainder as u128 * w as u128) / total) as u64;
                widths.set(i, share as u16);
                distributed = distributed + share;
            },
            _ => {},
        }
        i = i + 1;
    }
    proof {
        assert(shares.take(n as int) =~= shares);
    }
    proof {
        assert forall|k: int| 0 <= k < n implies 0 <= #[trigger] shares[k] <= remainder by {
            lemma_share_bound(columns@[k], remainder as int, total as int);
        }
        assert forall|k: int| 0 <= k < n implies 0 <= #[trigger] shares[k] <= sum(shares) by {
            lemma_sum_ge_elem(shares, k);
        }
    }
    let ghost leftover0 = remainder as int - distributed as int;
    let mut leftover: u64 = remainder - distributed;
    let mut rank: usize = 0;
    let mut i: usize = 0;
    while i < n
        invariant
            n == columns.len(),
            widths.len() == n,
            i <= n,
            shares == columns@.map_values(|c: ColumnWidth| fill_share(c, remainder as int, total as int)),
            distributed as int == sum(shares),
            leftover0 == remainder as int - distributed as int,
            remainder <= 65535,
            rank as int == count_before(columns@, i as int, true),
            rank <= i,
            leftover as int == leftover0 - (if (rank as int) < leftover0 { rank as int } else { leftover0 }),
            forall|k: int| 0 <= k < n ==> 0 <= #[trigger] shares[k] <= sum(shares),
            forall|k: int| 0 <= k < i ==> widths@[k] as int == (if columns@[k] is Fill {
                shares[k] + (if count_before(columns@, k, true) < leftover0 { 1int } else { 0int }) } else { base_widths(columns@)[k] }),
            forall|k: int| i <= k < n ==> widths@[k] as int == (if columns@[k] is Fill { shares[k] } else { base_widths(columns@)[k] }),
        decreases n - i,
    {
        proof {
            lemma_count_before_mono(columns@, i as int + 1, i as int + 1, true);
        }
        match columns[i] {
            ColumnWidth::Fill(_) => {
                if leftover > 0 {
                    widths.set(i, widths[i] + 1);
                    leftover = leftover - 1;
                }
                rank = rank + 1;
            },
            _ => {},
        }
        i = i + 1;
    }
    proof {
        assert forall|k: int| 0 <= k < n implies widths@[k] as int == resolve_widths_spec(columns@, available as int)[k] by {}
    }
    widths
}

proof fn lemma_count_before_mono(cols: Seq<ColumnWidth>, a: int, b: int, fill: bool)
    requires
        0 <= a <= b,
    ensures
        count_before(cols, a, fill) <= count_before(cols, b, fill),
        count_before(cols, b, fill) <= b,
        count_before(cols, a, fill) >= 0,
        count_before(cols, a, fill) <= a,
    decreases b,
{
    if b > a {
        lemma_count_before_mono(cols, a, b - 1, fill);
    } else if b > 0 {
        lemma_count_before_mono(cols, a - 1, b - 1, fill);
    }
}

proof fn lemma_sum_ge_elem(s: Seq<int>, k: int)
    requires
        0 <= k < s.len(),
        forall|j: int| 0 <= j < s.len() ==> #[trigger] s[j] >= 0,
    ensures
        s[k] <= sum(s),
        sum(s) >= 0,
    decreases s.len(),
{
    if k == s.len() - 1 {
        lemma_sum_nonneg(s.drop_last());
    } else {
        lemma_sum_ge_elem(s.drop_last(), k);
    }
}

proof fn lemma_sum_nonneg(s: Seq<int>)
    requires
        forall|j: int| 0 <= j < s.len() ==> #[trigger] s[j] >= 0,
    ensures
        sum(s) >= 0,
    decreases s.len(),
{
    if s.len() > 0 {
        lemma_sum_nonneg(s.drop_last());
    }
}

proof fn lemma_weights_bound(cols: Seq<ColumnWidth>, total: int)
    requires
        total == total_weight(cols),
    ensures
        forall|k: int| 0 <= k < cols.len() ==> fill_weight(#[trigger] cols[k]) <= total,
{
    let ws = cols.map_values(|c: ColumnWidth| fill_weight(c));
    assert forall|k: int| 0 <= k < cols.len() implies fill_weight(#[trigger] cols[k]) <= total by {
        assert forall|j: int| 0 <= j < ws.len() implies #[trigger] ws[j] >= 0 by {}
        lemma_sum_ge_elem(ws, k);
    }
}

proof fn lemma_share_bound(c: ColumnWidth, remainder: int, total: int)
    requires
        total > 0,
        fill_weight(c) <= total,
        0 <= remainder,
    ensures
        0 <= fill_share(c, remainder, total) <= remainder,
{
    if c is Fill {
        let w = fill_weight(c);
        assert(0 <= remainder * w / total <= remainder) by (nonlinear_arith)
            requires total > 0, 0 <= w <= total, 0 <= remainder;
    }
}

proof fn lemma_shares_prefix_bound(cols: Seq<ColumnWidth>, remainder: int, total: int, k: int)
    requires
        total > 0,
        total == total_weight(cols),
        0 <= remainder,
        0 <= k <= cols.len(),
    ensures
        sum(cols.map_values(|c: ColumnWidth| fill_share(c, remainder, total)).take(k)) <= remainder,
{
    // Σ floor(r·wᵢ/T) ≤ r·Σwᵢ/T ≤ r
    lemma_shares_le_weights(cols, remainder, total, k);
    let ws = cols.map_values(|c: ColumnWidth| fill_weight(c));
    lemma_weight_prefix_le_total(cols, k);
    let sw = sum(ws.take(k));
    let ss = sum(cols.map_values(|c: ColumnWidth| fill_share(c, remainder, total)).take(k));
    assert(ss <= remainder) by (nonlinear_arith)
        requires ss * total <= remainder * sw, sw <= total, total > 0, remainder >= 0;
}

proof fn lemma_weight_prefix_le_total(cols: Seq<ColumnWidth>, k: int)
    requires
        0 <= k <= cols.len(),
    ensures
        0 <= sum(cols.map_values(|c: ColumnWidth| fill_weight(c)).take(k)) <= total_weight(cols),
    decreases cols.len() - k,
{
    let ws = cols.map_values(|c: ColumnWidth| fill_weight(c));
    if k == cols.len() {
        assert(ws.take(k) =~= ws);
        assert forall|j: int| 0 <= j < ws.len() implies #[trigger] ws[j] >= 0 by {}
        lemma_sum_nonneg(ws);
    } else {
        lemma_weight_prefix_le_total(cols, k + 1);
        lemma_sum_take_step(ws, k);
        assert forall|j: int| 0 <= j < ws.take(k).len() implies #[trigger] ws.take(k)[j] >= 0 by {}
        lemma_sum_nonneg(ws.take(k));
    }
}

proof fn lemma_shares_le_weights(cols: Seq<ColumnWidth>, remainder: int, total: int, k: int)
    requires
        total > 0,
        0 <= remainder,
        0 <= k <= cols.len(),
    ensures
        sum(cols.map_values(|c: ColumnWidth| fill_share(c, remainder, total)).take(k)) * total
            <= remainder * sum(cols.map_values(|c: ColumnWidth| fill_weight(c)).take(k)),
        sum(cols.map_values(|c: ColumnWidth| fill_share(c, remainder, total)).take(k)) >= 0,
    decreases k,
{
    let sh = cols.map_values(|c: ColumnWidth| fill_share(c, remainder, total));
    let ws = cols.map_values(|c: ColumnWidth| fill_weight(c));
    if k > 0 {
        lemma_shares_le_weights(cols, remainder, total, k - 1);
        lemma_sum_take_step(sh, k - 1);
        lemma_sum_take_step(ws, k - 1);
        let c = cols[k - 1];
        let w = fill_weight(c);
        let s = fill_share(c, remainder, total);
        assert(s * total <= remainder * w && s >= 0) by (nonlinear_arith)
            requires
                total > 0, remainder >= 0, w >= 0,
                s == (if c is Fill && total > 0 { remainder * w / total } else { 0 }),
                !(c is Fill) ==> w == 0;
        let a = sum(sh.take(k - 1));
        let b = sum(ws.take(k - 1));
        assert((a + s) * total <= remainder * (b + w)) by (nonlinear_arith)
            requires a * total <= remainder * b, s * total <= remainder * w;
    }
}

} // verus!

verus! {

// ── Priority-ordered column dropping ────────────────────────────────────────

/// Whether a policy reserves no width at all (never shown).
pub open spec fn is_zero_policy(c: ColumnWidth) -> bool {
    c == ColumnWidth::Fixed(0) || c == ColumnWidth::Min(0)
}

/// Columns that may be shown, ascending.
pub open spec fn showable(cols: Seq<ColumnWidth>, k: int) -> Seq<usize>
    decreases k,
{
    if k <= 0 {
        Seq::empty()
    } else if is_zero_policy(cols[k - 1]) {
        showable(cols, k - 1)
    } else {
        showable(cols, k - 1).push((k - 1) as usize)
    }
}

/// Policies of the given columns.
pub open spec fn policies_of(cols: Seq<ColumnWidth>, vis: Seq<usize>) -> Seq<ColumnWidth> {
    vis.map_values(|i: usize| cols[i as int])
}

/// Cells spent on gaps between `len` columns (saturating, as `u16`).
pub open spec fn gaps_for(gap: int, len: int) -> int {
    let n = if len - 1 < 0 { 0 } else if len - 1 > u16::MAX { u16::MAX as int } else { len - 1 };
    if gap * n > u16::MAX { u16::MAX as int } else { gap * n }
}

/// Widths solved for the visible columns (positionally).
pub open spec fn solve_spec(cols: Seq<ColumnWidth>, vis: Seq<usize>, available: int, gap: int) -> Seq<int> {
    let g = gaps_for(gap, vis.len() as int);
    resolve_widths_spec(policies_of(cols, vis), if available - g < 0 { 0 } else { available - g })
}

/// Priority of a column (50 when unstated).
pub open spec fn prio_of(prios: Seq<u8>, col: usize) -> int {
    if (col as int) < prios.len() { prios[col as int] as int } else { 50 }
}

/// Whether `a` drops before `b`: lower priority first, rightmost first on ties.
pub open spec fn drops_before(prios: Seq<u8>, a: usize, b: usize) -> bool {
    prio_of(prios, a) < prio_of(prios, b) || (prio_of(prios, a) == prio_of(prios, b) && a > b)
}

/// The first candidate that drops before all others.
pub open spec fn drop_choice(prios: Seq<u8>, cands: Seq<usize>) -> usize
    decreases cands.len(),
{
    if cands.len() <= 1 {
        cands[0]
    } else {
        let b = drop_choice(prios, cands.drop_last());
        if drops_before(prios, cands.last(), b) { cands.last() } else { b }
    }
}

/// Visible columns whose solved width is zero, in order.
pub open spec fn zeroed(vis: Seq<usize>, sol: Seq<int>, k: int) -> Seq<usize>
    decreases k,
{
    if k <= 0 {
        Seq::empty()
    } else if sol[k - 1] == 0 {
        zeroed(vis, sol, k - 1).push(vis[k - 1])
    } else {
        zeroed(vis, sol, k - 1)
    }
}

/// The first `k` entries of `vis`, without `x`.
pub open spec fn without_upto(vis: Seq<usize>, x: usize, k: int) -> Seq<usize>
    decreases k,
{
    if k <= 0 {
        Seq::empty()
    } else if vis[k - 1] == x {
        without_upto(vis, x, k - 1)
    } else {
        without_upto(vis, x, k - 1).push(vis[k - 1])
    }
}

/// `vis` without `x`.
pub open spec fn without(vis: Seq<usize>, x: usize) -> Seq<usize> {
    without_upto(vis, x, vis.len() as int)
}

/// One round of dropping: `None` when the visible set fits and no column is
/// squeezed to zero; otherwise the set without the column to drop (lowest
/// priority among all when over budget, else among the zeroed ones).
pub open spec fn drop_round(cols: Seq<ColumnWidth>, prios: Seq<u8>, available: int, gap: int, vis: Seq<usize>) -> Option<Seq<usize>> {
    let over = mandatory(policies_of(cols, vis)) + gaps_for(gap, vis.len() as int) > available;
    let sol = solve_spec(cols, vis, available, gap);
    let zs = zeroed(vis, sol, vis.len() as int);
    if !over && zs.len() == 0 {
        None
    } else {
        let cands = if over { vis } else { zs };
        Some(without(vis, drop_choice(prios, cands)))
    }
}

/// Drop rounds until one column remains or the set fits.
pub open spec fn drop_loop(cols: Seq<ColumnWidth>, prios: Seq<u8>, available: int, gap: int, vis: Seq<usize>) -> Seq<usize>
    decreases vis.len(),
{
    if vis.len() <= 1 {
        vis
    } else {
        match drop_round(cols, prios, available, gap, vis) {
            None => vis,
            Some(next) => if next.len() < vis.len() { drop_loop(cols, prios, available, gap, next) } else { vis },
        }
    }
}

/// Visible columns with a non-zero solved width, in order.
pub open spec fn nonzero_of(vis: Seq<usize>, sol: Seq<int>, k: int) -> Seq<usize>
    decreases k,
{
    if k <= 0 {
        Seq::empty()
    } else if sol[k - 1] > 0 {
        nonzero_of(vis, sol, k - 1).push(vis[k - 1])
    } else {
        nonzero_of(vis, sol, k - 1)
    }
}

/// Final visible columns of the layout.
pub open spec fn layout_visible(cols: Seq<ColumnWidth>, prios: Seq<u8>, available: int, gap: int) -> Seq<usize> {
    let init = showable(cols, cols.len() as int);
    if init.len() == 0 || available == 0 {
        Seq::empty()
    } else {
        let vis = drop_loop(cols, prios, available, gap, init);
        let sol = solve_spec(cols, vis, available, gap);
        let kept = nonzero_of(vis, sol, vis.len() as int);
        if kept.len() == 0 { seq![init[0]] } else { kept }
    }
}

/// `base` with `sol[k]` written at `vis[k]` for every `k` below `j`.
pub open spec fn scatter(base: Seq<int>, vis: Seq<usize>, sol: Seq<int>, j: int) -> Seq<int>
    decreases j,
{
    if j <= 0 {
        base
    } else {
        scatter(base, vis, sol, j - 1).update(vis[j - 1] as int, sol[j - 1])
    }
}

/// Final widths of the layout: the visible columns' solved widths, zero elsewhere.
pub open spec fn layout_widths(cols: Seq<ColumnWidth>, prios: Seq<u8>, available: int, gap: int) -> Seq<int> {
    let vis = layout_visible(cols, prios, available, gap);
    let sol = solve_spec(cols, vis, available, gap);
    scatter(Seq::new(cols.len(), |i: int| 0int), vis, sol, vis.len() as int)
}

} // verus!

verus! {

proof fn lemma_showable(cols: Seq<ColumnWidth>, k: int)
    requires
        0 <= k <= cols.len(),
        cols.len() <= usize::MAX,
    ensures
        forall|a: int| 0 <= a < showable(cols, k).len() ==> (#[trigger] showable(cols, k)[a] as int) < k,
        showable(cols, k).len() <= k,
    decreases k,
{
    if k > 0 {
        lemma_showable(cols, k - 1);
    }
}

proof fn lemma_without(vis: Seq<usize>, x: usize, k: int)
    requires
        0 <= k <= vis.len(),
    ensures
        without_upto(vis, x, k).len() <= k,
        (exists|a: int| 0 <= a < k && vis[a] == x) ==> without_upto(vis, x, k).len() < k,
        forall|a: int| 0 <= a < without_upto(vis, x, k).len() ==> exists|b: int| 0 <= b < k && #[trigger] without_upto(vis, x, k)[a] == vis[b],
    decreases k,
{
    if k > 0 {
        lemma_without(vis, x, k - 1);
        if vis[k - 1] != x {
            let w = without_upto(vis, x, k);
            assert forall|a: int| 0 <= a < w.len() implies exists|b: int| 0 <= b < k && #[trigger] w[a] == vis[b] by {
                if a == w.len() - 1 {
                    assert(w[a] == vis[k - 1]);
                } else {
                    assert(w[a] == without_upto(vis, x, k - 1)[a]);
                }
            }
        }
    }
}

proof fn lemma_zeroed_in(vis: Seq<usize>, sol: Seq<int>, k: int)
    requires
        0 <= k <= vis.len(),
    ensures
        forall|a: int| 0 <= a < zeroed(vis, sol, k).len() ==> vis.take(k).contains(#[trigger] zeroed(vis, sol, k)[a]),
    decreases k,
{
    if k > 0 {
        lemma_zeroed_in(vis, sol, k - 1);
        let z = zeroed(vis, sol, k);
        let zp = zeroed(vis, sol, k - 1);
        assert forall|a: int| 0 <= a < z.len() implies vis.take(k).contains(#[trigger] z[a]) by {
            if sol[k - 1] == 0 && a == z.len() - 1 {
                assert(z[a] == vis.take(k)[k - 1]);
            } else {
                assert(z[a] == zp[a]);
                assert(vis.take(k - 1).contains(zp[a]));
                let b = choose|b: int| 0 <= b < k - 1 && #[trigger] vis.take(k - 1)[b] == zp[a];
                assert(vis.take(k)[b] == z[a]);
            }
        }
    }
}

proof fn lemma_drop_choice_in(prios: Seq<u8>, cands: Seq<usize>)
    requires
        cands.len() >= 1,
    ensures
        exists|a: int| 0 <= a < cands.len() && cands[a] == drop_choice(prios, cands),
    decreases cands.len(),
{
    if cands.len() > 1 {
        lemma_drop_choice_in(prios, cands.drop_last());
        let b = drop_choice(prios, cands.drop_last());
        let a = choose|a: int| 0 <= a < cands.drop_last().len() && cands.drop_last()[a] == b;
        assert(cands[a] == b);
        if drops_before(prios, cands.last(), b) {
            assert(cands[cands.len() - 1] == drop_choice(prios, cands));
        } else {
            assert(cands[a] == drop_choice(prios, cands));
        }
    } else {
        assert(cands[0] == drop_choice(prios, cands));
    }
}

fn showable_exec(columns: &[ColumnWidth]) -> (v: Vec<usize>)
    ensures
        v@ == showable(columns@, columns@.len() as int),
{
    let mut v: Vec<usize> = Vec::new();
    let mut i: usize = 0;
    while i < columns.len()
        invariant
            i <= columns.len(),
            v@ == showable(columns@, i as int),
        decreases columns.len() - i,
    {
        let zero = match columns[i] {
            ColumnWidth::Fixed(w) => w == 0,
            ColumnWidth::Min(w) => w == 0,
            ColumnWidth::Fill(_) => false,
        };
        if !zero {
            v.push(i);
        }
        i = i + 1;
    }
    v
}

fn policies_exec(columns: &[ColumnWidth], vis: &Vec<usize>) -> (p: Vec<ColumnWidth>)
    requires
        forall|a: int| 0 <= a < vis.len() ==> (#[trigger] vis@[a] as int) < columns.len(),
    ensures
        p@ == policies_of(columns@, vis@),
{
    let mut p: Vec<ColumnWidth> = Vec::new();
    let mut i: usize = 0;
    while i < vis.len()
        invariant
            i <= vis.len(),
            forall|a: int| 0 <= a < vis.len() ==> (#[trigger] vis@[a] as int) < columns.len(),
            p.len() == i,
            forall|a: int| 0 <= a < i ==> p@[a] == columns@[vis@[a] as int],
        decreases vis.len() - i,
    {
        p.push(columns[vis[i]]);
        i = i + 1;
    }
    assert(p@ =~= policies_of(columns@, vis@));
    p
}

fn gaps_exec(gap: u16, len: usize) -> (g: u16)
    ensures
        g as int == gaps_for(gap as int, len as int),
{
    let n: u16 = if len == 0 { 0 } else if len - 1 > 65535 { 65535 } else { (len - 1) as u16 };
    proof {
        assert(gap as int * n as int <= 65535 * 65535) by (nonlinear_arith)
            requires gap <= 65535, n <= 65535;
    }
    let prod: u32 = gap as u32 * n as u32;
    if prod > 65535 { 65535 } else { prod as u16 }
}

fn solve_exec(columns: &[ColumnWidth], vis: &Vec<usize>, available: u16, gap: u16) -> (sol: Vec<u16>)
    requires
        forall|a: int| 0 <= a < vis.len() ==> (#[trigger] vis@[a] as int) < columns.len(),
    ensures
        sol.len() == vis.len(),
        solve_spec(columns@, vis@, available as int, gap as int).len() == vis.len(),
        forall|k: int| 0 <= k < vis.len() ==> sol@[k] as int == solve_spec(columns@, vis@, available as int, gap as int)[k],
{
    let g = gaps_exec(gap, vis.len());
    let pol = policies_exec(columns, vis);
    proof {
        lemma_resolve_len(pol@, (available as int - g as int));
        lemma_resolve_len(pol@, 0);
    }
    resolve_widths(pol.as_slice(), available.saturating_sub(g))
}

proof fn lemma_resolve_len(cols: Seq<ColumnWidth>, available: int)
    ensures
        resolve_widths_spec(cols, available).len() == cols.len(),
{
    if mandatory(cols) > available {
        let base = base_widths(cols);
        assert forall|k: int| 0 <= k < base.len() implies 0 <= #[trigger] base[k] <= u16::MAX by {}
        lemma_shrink_shape(cols, base, mandatory(cols) - available, false, 0);
        let (w1, d1) = shrink_pass(cols, base, mandatory(cols) - available, false, 0);
        assert forall|k: int| 0 <= k < w1.len() implies 0 <= #[trigger] w1[k] <= u16::MAX by {
            assert(w1[k] <= base[k]);
        }
        lemma_shrink_shape(cols, w1, d1, true, 0);
    }
}

fn mandatory_exec(pol: &Vec<ColumnWidth>) -> (m: u128)
    ensures
        m as int == mandatory(pol@),
        m <= pol.len() * 65535,
{
    let ghost base = base_widths(pol@);
    let mut m: u128 = 0;
    let mut i: usize = 0;
    while i < pol.len()
        invariant
            i <= pol.len(),
            base == base_widths(pol@),
            m as int == sum(base.take(i as int)),
            m <= i * 65535,
        decreases pol.len() - i,
    {
        proof {
            lemma_sum_take_step(base, i as int);
        }
        let w: u16 = match pol[i] {
            ColumnWidth::Fixed(w) => w,
            ColumnWidth::Min(w) => w,
            ColumnWidth::Fill(_) => 0,
        };
        m = m + w as u128;
        i = i + 1;
    }
    assert(base.take(pol.len() as int) =~= base);
    m
}

fn prio_exec(priorities: &[u8], col: usize) -> (p: u8)
    ensures
        p as int == prio_of(priorities@, col),
{
    if col < priorities.len() { priorities[col] } else { 50 }
}

fn drop_choice_exec(priorities: &[u8], cands: &Vec<usize>) -> (x: usize)
    requires
        cands.len() >= 1,
    ensures
        x == drop_choice(priorities@, cands@),
{
    let mut best = cands[0];
    let mut i: usize = 1;
    assert(cands@.take(1).drop_last().len() == 0);
    assert(drop_choice(priorities@, cands@.take(1)) == cands@[0]);
    while i < cands.len()
        invariant
            1 <= i <= cands.len(),
            best == drop_choice(priorities@, cands@.take(i as int)),
        decreases cands.len() - i,
    {
        let c = cands[i];
        let pc = prio_exec(priorities, c);
        let pb = prio_exec(priorities, best);
        proof {
            assert(cands@.take(i as int + 1).drop_last() =~= cands@.take(i as int));
            assert(cands@.take(i as int + 1).last() == c);
        }
        if pc < pb || (pc == pb && c > best) {
            best = c;
        }
        i = i + 1;
    }
    assert(cands@.take(cands.len() as int) =~= cands@);
    best
}

fn without_exec(vis: &Vec<usize>, x: usize) -> (w: Vec<usize>)
    ensures
        w@ == without(vis@, x),
{
    let mut w: Vec<usize> = Vec::new();
    let mut i: usize = 0;
    while i < vis.len()
        invariant
            i <= vis.len(),
            w@ == without_upto(vis@, x, i as int),
        decreases vis.len() - i,
    {
        if vis[i] != x {
            w.push(vis[i]);
        }
        i = i + 1;
    }
    w
}

fn zeroed_exec(vis: &Vec<usize>, sol: &Vec<u16>) -> (z: Vec<usize>)
    requires
        sol.len() == vis.len(),
    ensures
        z@ == zeroed(vis@, sol@.map_values(|x: u16| x as int), vis.len() as int),
{
    let ghost isol = sol@.map_values(|x: u16| x as int);
    let mut z: Vec<usize> = Vec::new();
    let mut i: usize = 0;
    while i < vis.len()
        invariant
            i <= vis.len(),
            sol.len() == vis.len(),
            isol == sol@.map_values(|x: u16| x as int),
            z@ == zeroed(vis@, isol, i as int),
        decreases vis.len() - i,
    {
        assert(isol[i as int] == sol@[i as int] as int);
        if sol[i] == 0 {
            z.push(vis[i]);
        }
        i = i + 1;
    }
    z
}

fn nonzero_exec(vis: &Vec<usize>, sol: &Vec<u16>) -> (z: Vec<usize>)
    requires
        sol.len() == vis.len(),
    ensures
        z@ == nonzero_of(vis@, sol@.map_values(|x: u16| x as int), vis.len() as int),
        z.len() <= vis.len(),
        forall|a: int| 0 <= a < z.len() ==> exists|b: int| 0 <= b < vis.len() && #[trigger] z@[a] == vis@[b],
{
    let ghost isol = sol@.map_values(|x: u16| x as int);
    let mut z: Vec<usize> = Vec::new();
    let mut i: usize = 0;
    while i < vis.len()
        invariant
            i <= vis.len(),
            sol.len() == vis.len(),
            isol == sol@.map_values(|x: u16| x as int),
            z@ == nonzero_of(vis@, isol, i as int),
            z.len() <= i,
            forall|a: int| 0 <= a < z.len() ==> exists|b: int| 0 <= b < i && #[trigger] z@[a] == vis@[b],
        decreases vis.len() - i,
    {
        assert(isol[i as int] == sol@[i as int] as int);
        if sol[i] > 0 {
            z.push(vis[i]);
            proof {
                assert forall|a: int| 0 <= a < z.len() implies exists|b: int| 0 <= b < i + 1 && #[trigger] z@[a] == vis@[b] by {
                    if a == z.len() - 1 {
                        assert(z@[a] == vis@[i as int]);
                    }
                }
            }
        }
        i = i + 1;
    }
    z
}

} // verus!

verus! {

/// Drops lowest-priority columns (rightmost first among equals) while the
/// reserved widths and gaps exceed `available` or a solve squeezes a column
/// to zero, then solves the survivors; columns that still solve to zero are
/// hidden, and when none survive the first showable column is kept.
///
/// `widths` receives one width per column (zero for hidden ones), `visible`
/// the shown column indices in order; `scratch` and `scratch_policies` are
/// working buffers whose final contents carry no meaning.
pub fn resolve_layout_into(
    columns: &[ColumnWidth],
    priorities: &[u8],
    available: u16,
    gap: u16,
    widths: &mut Vec<u16>,
    visible: &mut Vec<usize>,
    scratch: &mut Vec<u16>,
    scratch_policies: &mut Vec<ColumnWidth>,
)
    ensures
        final(visible)@ == layout_visible(columns@, priorities@, available as int, gap as int),
        final(widths)@.map_values(|x: u16| x as int) == layout_widths(columns@, priorities@, available as int, gap as int),
{
    let n = columns.len();
    let init = showable_exec(columns);
    proof {
        lemma_showable(columns@, n as int);
    }
    let mut zeros: Vec<u16> = Vec::new();
    let mut i: usize = 0;
    while i < n
        invariant
            i <= n,
            zeros.len() == i,
            forall|k: int| 0 <= k < i ==> zeros@[k] == 0,
        decreases n - i,
    {
        zeros.push(0);
        i = i + 1;
    }
    scratch.clear();
    scratch_policies.clear();
    if init.len() == 0 || available == 0 {
        proof {
            assert(zeros@.map_values(|x: u16| x as int) =~= layout_widths(columns@, priorities@, available as int, gap as int));
        }
        *widths = zeros;
        *visible = Vec::new();
        return;
    }
    let mut vis: Vec<usize> = init.clone();
    assert(vis@ == init@);
    loop
        invariant
            n == columns.len(),
            init@ == showable(columns@, n as int),
            forall|a: int| 0 <= a < vis.len() ==> (#[trigger] vis@[a] as int) < n,
            drop_loop(columns@, priorities@, available as int, gap as int, init@)
                == drop_loop(columns@, priorities@, available as int, gap as int, vis@),
        ensures
            forall|a: int| 0 <= a < vis.len() ==> (#[trigger] vis@[a] as int) < n,
            drop_loop(columns@, priorities@, available as int, gap as int, init@) == vis@,
        decreases vis.len(),
    {
        if vis.len() <= 1 {
            break;
        }
        let pol = policies_exec(columns, &vis);
        let mand = mandatory_exec(&pol);
        let g = gaps_exec(gap, vis.len());
        let over = mand + g as u128 > available as u128;
        let sol = solve_exec(columns, &vis, available, gap);
        let zs = zeroed_exec(&vis, &sol);
        proof {
            assert(sol@.map_values(|x: u16| x as int) =~= solve_spec(columns@, vis@, available as int, gap as int));
        }
        if !over && zs.len() == 0 {
            break;
        }
        let cands: Vec<usize> = if over { vis.clone() } else { zs };
        proof {
            lemma_zeroed_in(vis@, solve_spec(columns@, vis@, available as int, gap as int), vis.len() as int);
            assert(vis@.take(vis.len() as int) =~= vis@);
            assert(cands.len() >= 1);
        }
        let x = drop_choice_exec(priorities, &cands);
        let next = without_exec(&vis, x);
        proof {
            lemma_drop_choice_in(priorities@, cands@);
            let a = choose|a: int| 0 <= a < cands@.len() && cands@[a] == x;
            if over {
                assert(vis@[a] == x);
            } else {
                assert(vis@.contains(cands@[a]));
            }
            lemma_without(vis@, x, vis.len() as int);
            assert(next.len() < vis.len());
            assert forall|b: int| 0 <= b < next.len() implies (#[trigger] next@[b] as int) < n by {
                let c = choose|c: int| 0 <= c < vis.len() && #[trigger] without_upto(vis@, x, vis.len() as int)[b] == vis@[c];
            }
        }
        vis = next;
    }
    let sol = solve_exec(columns, &vis, available, gap);
    let kept = nonzero_exec(&vis, &sol);
    proof {
        assert(sol@.map_values(|x: u16| x as int) =~= solve_spec(columns@, vis@, available as int, gap as int));
    }
    let final_vis: Vec<usize> = if kept.len() == 0 {
        let mut v: Vec<usize> = Vec::new();
        v.push(init[0]);
        v
    } else {
        kept
    };
    proof {
        assert forall|a: int| 0 <= a < final_vis.len() implies (#[trigger] final_vis@[a] as int) < n by {
            if kept.len() != 0 {
                let b = choose|b: int| 0 <= b < vis.len() && #[trigger] kept@[a] == vis@[b];
            }
        }
        assert(final_vis@ == layout_visible(columns@, priorities@, available as int, gap as int));
    }
    let sol2 = solve_exec(columns, &final_vis, available, gap);
    let ghost isol2 = solve_spec(columns@, final_vis@, available as int, gap as int);
    let mut out = zeros;
    let mut k: usize = 0;
    while k < final_vis.len()
        invariant
            k <= final_vis.len(),
            out.len() == n,
            sol2.len() == final_vis.len(),
            forall|a: int| 0 <= a < final_vis.len() ==> (#[trigger] final_vis@[a] as int) < n,
            forall|a: int| 0 <= a < final_vis.len() ==> sol2@[a] as int == isol2[a],
            out@.map_values(|x: u16| x as int) == scatter(Seq::new(n as nat, |i: int| 0int), final_vis@, isol2, k as int),
        decreases final_vis.len() - k,
    {
        out.set(final_vis[k], sol2[k]);
        proof {
            assert(out@.map_values(|x: u16| x as int) =~= scatter(Seq::new(n as nat, |i: int| 0int), final_vis@, isol2, k as int + 1));
        }
        k = k + 1;
    }
    proof {
        assert(zeros@.map_values(|x: u16| x as int) =~= Seq::new(n as nat, |i: int| 0int));
    }
    *widths = out;
    *visible = final_vis;
}

} // verus!

verus! {

// ── The width law ───────────────────────────────────────────────────────────

/// Width of eligible columns at indices `j..` (Min when `!fixed`, Fixed when
/// `fixed`).
pub open spec fn elig_sum(cols: Seq<ColumnWidth>, w: Seq<int>, fixed: bool, j: int) -> int
    decreases cols.len() - j,
{
    if j < 0 || j >= cols.len() {
        0
    } else {
        elig_sum(cols, w, fixed, j + 1) + if shrink_eligible(cols[j], fixed) { w[j] } else { 0 }
    }
}

proof fn lemma_shrink_residual(cols: Seq<ColumnWidth>, w: Seq<int>, d: int, fixed: bool, j: int)
    requires
        w.len() == cols.len(),
        d >= 0,
        0 <= j <= cols.len(),
        forall|k: int| 0 <= k < w.len() ==> 0 <= #[trigger] w[k],
    ensures
        shrink_pass(cols, w, d, fixed, j).1 == if d - elig_sum(cols, w, fixed, j) > 0 { d - elig_sum(cols, w, fixed, j) } else { 0 },
        forall|k: int| 0 <= k < cols.len() && (k < j || !shrink_eligible(cols[k], fixed))
            ==> #[trigger] shrink_pass(cols, w, d, fixed, j).0[k] == w[k],
        shrink_pass(cols, w, d, fixed, j).0.len() == cols.len(),
        elig_sum(cols, w, fixed, j) >= 0,
    decreases cols.len() - j,
{
    if j < cols.len() {
        lemma_shrink_residual(cols, w, d, fixed, j + 1);
        let (w1, d1) = shrink_pass(cols, w, d, fixed, j + 1);
        assert(w1[j] == w[j]);
    }
}

proof fn lemma_elig_same(cols: Seq<ColumnWidth>, w: Seq<int>, v: Seq<int>, fixed: bool, j: int)
    requires
        w.len() == cols.len(),
        v.len() == cols.len(),
        0 <= j <= cols.len(),
        forall|k: int| 0 <= k < cols.len() && shrink_eligible(cols[k], fixed) ==> #[trigger] w[k] == v[k],
    ensures
        elig_sum(cols, w, fixed, j) == elig_sum(cols, v, fixed, j),
    decreases cols.len() - j,
{
    if j < cols.len() {
        lemma_elig_same(cols, w, v, fixed, j + 1);
    }
}

proof fn lemma_base_split(cols: Seq<ColumnWidth>, k: int)
    requires
        0 <= k <= cols.len(),
    ensures
        sum(base_widths(cols).take(k)) + elig_sum(cols, base_widths(cols), false, k)
            + elig_sum(cols, base_widths(cols), true, k) == mandatory(cols),
    decreases cols.len() - k,
{
    let b = base_widths(cols);
    if k == cols.len() {
        assert(b.take(k) =~= b);
    } else {
        lemma_base_split(cols, k + 1);
        lemma_sum_take_step(b, k);
    }
}

proof fn lemma_shares_ge_weights(cols: Seq<ColumnWidth>, remainder: int, total: int, k: int)
    requires
        total > 0,
        0 <= remainder,
        0 <= k <= cols.len(),
    ensures
        sum(cols.map_values(|c: ColumnWidth| fill_share(c, remainder, total)).take(k)) * total
            >= remainder * sum(cols.map_values(|c: ColumnWidth| fill_weight(c)).take(k))
                - (total - 1) * count_before(cols, k, true),
    decreases k,
{
    let sh = cols.map_values(|c: ColumnWidth| fill_share(c, remainder, total));
    let ws = cols.map_values(|c: ColumnWidth| fill_weight(c));
    if k > 0 {
        lemma_shares_ge_weights(cols, remainder, total, k - 1);
        lemma_sum_take_step(sh, k - 1);
        lemma_sum_take_step(ws, k - 1);
        let c = cols[k - 1];
        let w = fill_weight(c);
        let s = fill_share(c, remainder, total);
        let f: int = if c is Fill { 1 } else { 0 };
        assert(s * total >= remainder * w - (total - 1) * f) by (nonlinear_arith)
            requires
                total > 0, remainder >= 0, w >= 0,
                s == (if c is Fill && total > 0 { remainder * w / total } else { 0 }),
                !(c is Fill) ==> w == 0,
                f == (if c is Fill { 1int } else { 0int });
        let a = sum(sh.take(k - 1));
        let b = sum(ws.take(k - 1));
        let cb = count_before(cols, k - 1, true);
        assert((a + s) * total >= remainder * (b + w) - (total - 1) * (cb + f)) by (nonlinear_arith)
            requires a * total >= remainder * b - (total - 1) * cb, s * total >= remainder * w - (total - 1) * f;
    } else {
        assert(sh.take(0) =~= Seq::<int>::empty());
        assert(ws.take(0) =~= Seq::<int>::empty());
    }
}

/// Prefix sums of the solved widths when the reserved widths fit and fills
/// share the remainder.
proof fn lemma_fill_prefix(cols: Seq<ColumnWidth>, available: int, k: int)
    requires
        0 <= k <= cols.len(),
        mandatory(cols) <= available,
        available - mandatory(cols) > 0,
        total_weight(cols) > 0,
    ensures
        ({
            let r = available - mandatory(cols);
            let t = total_weight(cols);
            let fw = Seq::new(cols.len(), |i: int| fitted_width(cols, available, i));
            let lo = r - shares_sum(cols, r, t);
            let c = count_before(cols, k, true);
            sum(fw.take(k)) == sum(base_widths(cols).take(k))
                + sum(cols.map_values(|c: ColumnWidth| fill_share(c, r, t)).take(k))
                + (if c < lo { c } else { lo })
        }),
    decreases k,
{
    let r = available - mandatory(cols);
    let t = total_weight(cols);
    let fw = Seq::new(cols.len(), |i: int| fitted_width(cols, available, i));
    let sh = cols.map_values(|c: ColumnWidth| fill_share(c, r, t));
    let b = base_widths(cols);
    lemma_shares_prefix_bound(cols, r, t, cols.len() as int);
    assert(sh.take(cols.len() as int) =~= sh);
    if k > 0 {
        lemma_fill_prefix(cols, available, k - 1);
        lemma_sum_take_step(fw, k - 1);
        lemma_sum_take_step(sh, k - 1);
        lemma_sum_take_step(b, k - 1);
    } else {
        assert(fw.take(0) =~= Seq::<int>::empty());
        assert(sh.take(0) =~= Seq::<int>::empty());
        assert(b.take(0) =~= Seq::<int>::empty());
    }
}

/// Prefix sums of the solved widths when the reserved widths fit, nothing
/// fills, and `Min` columns split the remainder.
proof fn lemma_min_prefix(cols: Seq<ColumnWidth>, available: int, k: int)
    requires
        0 <= k <= cols.len(),
        mandatory(cols) <= available <= u16::MAX,
        available - mandatory(cols) > 0,
        total_weight(cols) == 0,
        count_before(cols, cols.len() as int, false) > 0,
        forall|j: int| 0 <= j < cols.len() ==> #[trigger] base_widths(cols)[j] <= mandatory(cols),
    ensures
        ({
            let r = available - mandatory(cols);
            let n = count_before(cols, cols.len() as int, false);
            let fw = Seq::new(cols.len(), |i: int| fitted_width(cols, available, i));
            let c = count_before(cols, k, false);
            sum(fw.take(k)) == sum(base_widths(cols).take(k)) + (if c < n { c * (r / n) } else { r })
        }),
    decreases k,
{
    let r = available - mandatory(cols);
    let n = count_before(cols, cols.len() as int, false);
    let fw = Seq::new(cols.len(), |i: int| fitted_width(cols, available, i));
    let b = base_widths(cols);
    if k > 0 {
        lemma_min_prefix(cols, available, k - 1);
        lemma_sum_take_step(fw, k - 1);
        lemma_sum_take_step(b, k - 1);
        lemma_count_before_mono(cols, k, cols.len() as int, false);
        let c = count_before(cols, k - 1, false);
        if cols[k - 1] is Min {
            assert(0 <= r / n <= r) by (nonlinear_arith) requires n > 0, r > 0;
            assert(c * (r / n) + r / n == (c + 1) * (r / n)) by (nonlinear_arith);
            assert(r - (n - 1) * (r / n) >= 0) by (nonlinear_arith) requires n > 0, r > 0;
            assert(r - (n - 1) * (r / n) <= r) by (nonlinear_arith) requires n > 0, r > 0, 0 <= r / n;
            assert(b[k - 1] <= mandatory(cols));
        }
    } else {
        assert(fw.take(0) =~= Seq::<int>::empty());
        assert(b.take(0) =~= Seq::<int>::empty());
    }
}

/// Per-column promises of the solver: while the reserved widths fit the
/// budget, a `Fixed` column takes exactly its width and a `Min` column at
/// least its minimum; once they do not, a `Fill` column takes nothing.
pub proof fn law_column_width_policies(cols: Seq<ColumnWidth>, available: int, i: int)
    requires
        0 <= available <= u16::MAX,
        0 <= i < cols.len(),
    ensures
        mandatory(cols) <= available ==> (cols[i] matches ColumnWidth::Fixed(n) ==> resolve_widths_spec(cols, available)[i] == n),
        mandatory(cols) <= available ==> (cols[i] matches ColumnWidth::Min(n) ==> resolve_widths_spec(cols, available)[i] >= n),
        mandatory(cols) > available ==> (cols[i] is Fill ==> resolve_widths_spec(cols, available)[i] == 0),
{
    let b = base_widths(cols);
    assert forall|k: int| 0 <= k < b.len() implies 0 <= #[trigger] b[k] <= u16::MAX by {}
    if mandatory(cols) > available {
        let d0 = mandatory(cols) - available;
        lemma_shrink_shape(cols, b, d0, false, 0);
        let (w1, d1) = shrink_pass(cols, b, d0, false, 0);
        lemma_shrink_shape(cols, w1, d1, true, 0);
        assert(w1[i] <= b[i]);
    } else {
        let fw = Seq::new(cols.len(), |k: int| fitted_width(cols, available, k));
        assert(resolve_widths_spec(cols, available) == fw);
        assert(fw[i] == fitted_width(cols, available, i));
        let remainder = available - mandatory(cols);
        let total = total_weight(cols);
        if cols[i] is Min && remainder != 0 && total == 0 {
            let n = count_before(cols, cols.len() as int, false);
            let rank = count_before(cols, i, false);
            lemma_count_before_mono(cols, i + 1, cols.len() as int, false);
            lemma_count_before_mono(cols, i, i, false);
            assert(count_before(cols, i + 1, false) == rank + 1);
            assert(n > 0);
            assert(remainder > 0);
            assert(rank < n);
            assert(0 <= remainder / n) by (nonlinear_arith) requires n > 0, remainder > 0;
            assert(remainder - (n - 1) * (remainder / n) >= 0) by (nonlinear_arith) requires n > 0, remainder > 0;
        }
    }
}

proof fn lemma_sum_zero(s: Seq<int>)
    requires
        forall|j: int| 0 <= j < s.len() ==> #[trigger] s[j] == 0,
    ensures
        sum(s) == 0,
    decreases s.len(),
{
    if s.len() > 0 {
        let t = s.drop_last();
        assert forall|j: int| 0 <= j < t.len() implies #[trigger] t[j] == 0 by {
            assert(t[j] == s[j]);
        }
        lemma_sum_zero(t);
    }
}

proof fn lemma_no_min_before(cols: Seq<ColumnWidth>, k: int)
    requires
        0 <= k <= cols.len(),
        forall|i: int| 0 <= i < cols.len() ==> (#[trigger] cols[i]) is Fixed,
    ensures
        count_before(cols, k, false) == 0,
    decreases k,
{
    if k > 0 {
        lemma_no_min_before(cols, k - 1);
    }
}

/// With non-zero fill weights, the widths use the whole budget unless every
/// column is `Fixed` and their widths fit it, in which case they use exactly
/// those widths.
pub proof fn law_widths_use_the_budget_unless_all_fixed(cols: Seq<ColumnWidth>, available: int)
    requires
        0 <= available <= u16::MAX,
        forall|i: int| 0 <= i < cols.len() && (#[trigger] cols[i]) is Fill ==> fill_weight(cols[i]) > 0,
    ensures
        ((forall|i: int| 0 <= i < cols.len() ==> (#[trigger] cols[i]) is Fixed) && mandatory(cols) < available)
            ==> sum(resolve_widths_spec(cols, available)) == mandatory(cols),
        !((forall|i: int| 0 <= i < cols.len() ==> (#[trigger] cols[i]) is Fixed) && mandatory(cols) < available)
            ==> sum(resolve_widths_spec(cols, available)) == available,
{
    law_widths_use_the_budget(cols, available);
    let all_fixed = forall|i: int| 0 <= i < cols.len() ==> (#[trigger] cols[i]) is Fixed;
    if all_fixed {
        let ws = cols.map_values(|c: ColumnWidth| fill_weight(c));
        assert forall|j: int| 0 <= j < ws.len() implies #[trigger] ws[j] == 0 by {
            assert(cols[j] is Fixed);
        }
        lemma_sum_zero(ws);
        lemma_no_min_before(cols, cols.len() as int);
    }
    if !all_fixed && mandatory(cols) <= available {
        let i = choose|i: int| 0 <= i < cols.len() && !((#[trigger] cols[i]) is Fixed);
        if cols[i] is Fill {
            let ws = cols.map_values(|c: ColumnWidth| fill_weight(c));
            assert forall|j: int| 0 <= j < ws.len() implies #[trigger] ws[j] >= 0 by {}
            lemma_sum_ge_elem(ws, i);
            assert(total_weight(cols) > 0);
        } else {
            lemma_count_before_mono(cols, i + 1, cols.len() as int, false);
            lemma_count_before_mono(cols, i, i, false);
            assert(count_before(cols, i + 1, false) == count_before(cols, i, false) + 1);
            assert(count_before(cols, cols.len() as int, false) > 0);
        }
    }
}

/// The solved widths use exactly the budget whenever something can absorb
/// it: reserved widths over budget shrink down to it, and a remainder goes
/// to fills or, without fills, to `Min` columns. Only a table of `Fixed`
/// columns that fits leaves cells unused, and then it takes exactly its
/// reserved widths.
pub proof fn law_widths_use_the_budget(cols: Seq<ColumnWidth>, available: int)
    requires
        0 <= available <= u16::MAX,
    ensures
        sum(resolve_widths_spec(cols, available)) == if mandatory(cols) > available || total_weight(cols) > 0
            || count_before(cols, cols.len() as int, false) > 0 {
            available
        } else {
            mandatory(cols)
        },
{
    let b = base_widths(cols);
    assert forall|k: int| 0 <= k < b.len() implies 0 <= #[trigger] b[k] <= u16::MAX by {}
    lemma_base_split(cols, 0);
    assert(b.take(0) =~= Seq::<int>::empty());
    if mandatory(cols) > available {
        let d0 = mandatory(cols) - available;
        let (w1, d1) = shrink_pass(cols, b, d0, false, 0);
        lemma_shrink_shape(cols, b, d0, false, 0);
        lemma_shrink_residual(cols, b, d0, false, 0);
        lemma_shrink_shape(cols, w1, d1, true, 0);
        lemma_shrink_residual(cols, w1, d1, true, 0);
        lemma_elig_same(cols, w1, b, true, 0);
        let (w2, d2) = shrink_pass(cols, w1, d1, true, 0);
        assert(d2 == 0);
    } else {
        let r = available - mandatory(cols);
        let t = total_weight(cols);
        let fw = Seq::new(cols.len(), |i: int| fitted_width(cols, available, i));
        lemma_weight_prefix_le_total(cols, 0);
        assert(t >= 0);
        assert(resolve_widths_spec(cols, available) == fw);
        assert(fw.take(cols.len() as int) =~= fw);
        assert(b.take(cols.len() as int) =~= b);
        if r == 0 {
            assert(fw =~= b);
        } else if t > 0 {
            lemma_fill_prefix(cols, available, cols.len() as int);
            let sh = cols.map_values(|c: ColumnWidth| fill_share(c, r, t));
            assert(sh.take(cols.len() as int) =~= sh);
            lemma_shares_ge_weights(cols, r, t, cols.len() as int);
            let ws = cols.map_values(|c: ColumnWidth| fill_weight(c));
            assert(ws.take(cols.len() as int) =~= ws);
            let ss = shares_sum(cols, r, t);
            let nf = count_before(cols, cols.len() as int, true);
            lemma_count_before_mono(cols, 0, cols.len() as int, true);
            assert(r - ss <= nf) by (nonlinear_arith)
                requires ss * t >= r * t - (t - 1) * nf, t > 0, nf >= 0;
        } else if count_before(cols, cols.len() as int, false) > 0 {
            assert forall|j: int| 0 <= j < cols.len() implies #[trigger] b[j] <= mandatory(cols) by {
                lemma_sum_ge_elem(b, j);
            }
            lemma_min_prefix(cols, available, cols.len() as int);
        } else {
            assert forall|i: int| 0 <= i < cols.len() implies #[trigger] fw[i] == b[i] by {
                lemma_count_before_mono(cols, i, cols.len() as int, false);
                if cols[i] is Min {
                    lemma_count_before_step_min(cols, i);
                }
            }
            assert(fw =~= b);
        }
    }
}

proof fn lemma_count_before_step_min(cols: Seq<ColumnWidth>, i: int)
    requires
        0 <= i < cols.len(),
        cols[i] is Min,
    ensures
        count_before(cols, cols.len() as int, false) > 0,
{
    lemma_count_before_mono(cols, i + 1, cols.len() as int, false);
    lemma_count_before_mono(cols, 0, i, false);
}

} // verus!
