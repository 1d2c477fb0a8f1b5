//! A resizable two-pane split: bounded ratios, feasible seams, and the
//! rectangles of both panes and their divider.

use vstd::prelude::*;
use crate::geometry::{sat_add, sat_sub, Position, Rect};
use crate::input::{KeyCode, KeyEvent};
use crate::style::{DesignSystem, GlyphSet, Role};

verus! {

/// Basis points in one whole.
pub const RATIO_SCALE: u16 = 10000;
/// Smallest ratio, in basis points.
pub const MIN_RATIO_BASIS_POINTS: u16 = 500;
/// Largest ratio, in basis points.
pub const MAX_RATIO_BASIS_POINTS: u16 = 9500;
/// Cells one arrow key moves the divider.
pub const KEYBOARD_STEP_CELLS: u16 = 1;

/// The axis along which a split pane divides its area.
#[derive(Debug, Clone, Copy, PartialEq, Eq, Structural)]
pub enum SplitDirection {
    /// Side by side.
    Horizontal,
    /// Stacked.
    Vertical,
}

/// One side of a split pane.
#[derive(Debug, Clone, Copy, PartialEq, Eq, Structural)]
pub enum SplitSide {
    /// The first pane.
    First,
    /// The second pane.
    Second,
}

/// `basis_points` clamped into the 500–9,500 range.
pub open spec fn normalize_spec(basis_points: int) -> int {
    if basis_points < 500 { 500 } else if basis_points > 9500 { 9500 } else { basis_points }
}

/// Clamps basis points into the 500–9,500 range.
pub fn normalize_basis_points(basis_points: u16) -> (r: u16)
    ensures
        r as int == normalize_spec(basis_points as int),
{
    if basis_points < MIN_RATIO_BASIS_POINTS {
        MIN_RATIO_BASIS_POINTS
    } else if basis_points > MAX_RATIO_BASIS_POINTS {
        MAX_RATIO_BASIS_POINTS
    } else {
        basis_points
    }
}

/// A split proportion stored as bounded basis points.
#[derive(Debug, Clone, Copy, PartialEq, Eq, Structural)]
pub struct SplitRatio(u16);

impl View for SplitRatio {
    type V = int;

    closed spec fn view(&self) -> int {
        self.0 as int
    }
}

impl SplitRatio {
    #[verifier::type_invariant]
    closed spec fn bounded(self) -> bool {
        500 <= self.0 <= 9500
    }

    /// Ratio from basis points, clamped into 500–9,500.
    pub fn from_basis_points(basis_points: u16) -> (r: SplitRatio)
        ensures
            r@ == normalize_spec(basis_points as int),
    {
        SplitRatio(normalize_basis_points(basis_points))
    }

    /// Ratio from a percentage, clamped into 5–95.
    pub fn from_percent(percent: u8) -> (r: SplitRatio)
        ensures
            r@ == normalize_spec(percent as int * 100),
    {
        SplitRatio::from_basis_points(percent as u16 * 100)
    }

    /// The proportion in basis points; always within 500–9,500.
    pub fn basis_points(self) -> (b: u16)
        ensures
            b as int == self@,
            500 <= b <= 9500,
    {
        proof {
            use_type_invariant(&self);
        }
        self.0
    }

    /// An even split.
    pub fn even() -> (r: SplitRatio)
        ensures
            r@ == 5000,
    {
        SplitRatio::from_percent(50)
    }
}

impl Default for SplitRatio {
    /// An even split.
    fn default() -> (r: SplitRatio)
        ensures
            r@ == 5000,
    {
        SplitRatio::even()
    }
}

/// Resolved rectangles for both panes and their divider.
#[derive(Debug, Clone, Copy, PartialEq, Eq, Structural)]
pub struct SplitPaneLayout {
    /// First pane.
    pub first: Rect,
    /// One-cell divider.
    pub divider: Rect,
    /// Second pane.
    pub second: Rect,
}

impl Default for SplitPaneLayout {
    /// Three empty rectangles.
    fn default() -> (r: SplitPaneLayout)
        ensures
            r == (SplitPaneLayout { first: Rect { x: 0, y: 0, width: 0, height: 0 }, divider: Rect { x: 0, y: 0, width: 0, height: 0 }, second: Rect { x: 0, y: 0, width: 0, height: 0 } }),
    {
        SplitPaneLayout { first: Rect { x: 0, y: 0, width: 0, height: 0 }, divider: Rect { x: 0, y: 0, width: 0, height: 0 }, second: Rect { x: 0, y: 0, width: 0, height: 0 } }
    }
}

/// Semantic results of split-pane interaction.
#[derive(Debug, Clone, Copy, PartialEq, Eq)]
pub enum SplitPaneOutcome {
    /// The gesture did not apply.
    Ignored,
    /// Pointer interaction focused the divider.
    Focused,
    /// The divider moved to this ratio.
    RatioChanged(SplitRatio),
    /// This side collapsed.
    Collapsed(SplitSide),
    /// A collapsed pane returned.
    Expanded,
}

// ── Feasible seams ──────────────────────────────────────────────────────────

/// Seam range that honors both minimum pane sizes.
#[derive(Debug, Clone, Copy, PartialEq, Eq)]
pub struct FeasibleSplit {
    /// Cells shared by both panes (the divider excluded).
    pub available: u16,
    /// Minimum first pane.
    pub first_min: u16,
    /// Minimum second pane.
    pub second_min: u16,
}

impl FeasibleSplit {
    /// Both minimums fit.
    pub open spec fn wf(self) -> bool {
        self.first_min as int + self.second_min as int <= self.available as int
    }

    /// Largest first pane.
    pub open spec fn hi(self) -> int {
        self.available as int - self.second_min as int
    }

    /// `first` clamped to the feasible seams.
    pub open spec fn clamp_spec(self, first: int) -> int {
        if first < self.first_min { self.first_min as int } else if first > self.hi() { self.hi() } else { first }
    }

    /// First pane size for a ratio.
    pub open spec fn first_for_ratio_spec(self, ratio: int) -> int {
        self.clamp_spec(self.available as int * ratio / 10000)
    }

    /// Smallest whole percent whose seam reaches `first`.
    pub open spec fn keyboard_percent(self, first: int) -> int {
        (self.clamp_spec(first) * 100 + self.available as int - 1) / self.available as int
    }

    /// Nearest whole percent of `first`.
    pub open spec fn cell_percent(self, first: int) -> int {
        (self.clamp_spec(first) * 100 + self.available as int / 2) / self.available as int
    }

    /// Clamps a first-pane size to the feasible seams.
    pub fn clamp_first(self, first: u16) -> (r: u16)
        requires
            self.wf(),
        ensures
            r as int == self.clamp_spec(first as int),
    {
        let hi = self.available - self.second_min;
        if first < self.first_min {
            self.first_min
        } else if first > hi {
            hi
        } else {
            first
        }
    }

    /// First pane size for `ratio`, clamped to the feasible seams.
    pub fn first_for_ratio(self, ratio: SplitRatio) -> (r: u16)
        requires
            self.wf(),
        ensures
            r as int == self.first_for_ratio_spec(ratio@),
            self.first_min <= r <= self.hi(),
    {
        let bp = ratio.basis_points();
        proof {
            assert(self.available as int * bp as int / 10000 <= self.available as int) by (nonlinear_arith)
                requires bp <= 9500, self.available >= 0;
            assert(self.available as int * bp as int <= 65535 * 9500) by (nonlinear_arith)
                requires bp <= 9500, self.available <= 65535;
        }
        let desired = ((self.available as u32) * (bp as u32) / (RATIO_SCALE as u32)) as u16;
        self.clamp_first(desired)
    }

    /// The canonical nearest whole-percent ratio for a dragged seam.
    pub fn ratio_for_drag(self, first: u16) -> (r: SplitRatio)
        requires
            self.wf(),
        ensures
            self.available == 0 ==> r@ == 5000,
            self.available > 0 ==> r@ == normalize_spec(self.cell_percent(first as int) * 100),
    {
        self.ratio_for_cell(first)
    }

    /// The smallest whole-percent ratio that reaches a keyboard target cell.
    pub fn ratio_for_keyboard(self, first: u16) -> (r: SplitRatio)
        requires
            self.wf(),
        ensures
            self.available == 0 ==> r@ == 5000,
            self.available > 0 ==> r@ == normalize_spec(self.keyboard_percent(first as int) * 100),
    {
        if self.available == 0 {
            return SplitRatio::even();
        }
        let first = self.clamp_first(first);
        proof {
            assert((first as int * 100 + self.available as int - 1) / self.available as int <= 100) by (nonlinear_arith)
                requires self.available > 0, first <= self.available;
        }
        let percent = ((first as u32 * 100 + self.available as u32 - 1) / self.available as u32) as u8;
        SplitRatio::from_percent(percent)
    }

    /// The nearest whole-percent ratio for a seam.
    pub fn ratio_for_cell(self, first: u16) -> (r: SplitRatio)
        requires
            self.wf(),
        ensures
            self.available == 0 ==> r@ == 5000,
            self.available > 0 ==> r@ == normalize_spec(self.cell_percent(first as int) * 100),
    {
        if self.available == 0 {
            return SplitRatio::even();
        }
        let first = self.clamp_first(first);
        proof {
            assert((first as int * 100 + self.available as int / 2) / self.available as int <= 100) by (nonlinear_arith)
                requires self.available > 0, first <= self.available;
        }
        let percent = ((first as u32 * 100 + self.available as u32 / 2) / self.available as u32) as u8;
        SplitRatio::from_percent(percent)
    }
}

/// The feasible seam range, or `None` when both minimums cannot fit.
pub fn resolve_feasible_split(available: u16, first_min: u16, second_min: u16) -> (r: Option<FeasibleSplit>)
    ensures
        (first_min as int + second_min as int > available as int) <==> r.is_none(),
        r matches Some(f) ==> f == (FeasibleSplit { available, first_min, second_min }) && f.wf(),
{
    if first_min as u32 + second_min as u32 > available as u32 {
        None
    } else {
        Some(FeasibleSplit { available, first_min, second_min })
    }
}

} // verus!

verus! {

/// Rectangle with the clipping of [`Rect::new`].
pub open spec fn rect_spec(x: int, y: int, w: int, h: int) -> Rect {
    Rect { x: x as u16, y: y as u16, width: (sat_add(x, w) - x) as u16, height: (sat_add(y, h) - y) as u16 }
}

/// Pane and divider rectangles for a seam at `first` cells, `second` after it.
pub open spec fn split_rects_spec(area: Rect, direction: SplitDirection, first: int, second: int) -> SplitPaneLayout {
    if first == 0 && second == 0 {
        SplitPaneLayout {
            first: empty_rect_spec(area, direction),
            divider: Rect::zero_spec(),
            second: empty_second_rect_spec(area, direction),
        }
    } else {
        let divider = if first == 0 || second == 0 {
            Rect::zero_spec()
        } else {
            match direction {
                SplitDirection::Horizontal => rect_spec(sat_add(area.x as int, first), area.y as int, 1, area.height as int),
                SplitDirection::Vertical => rect_spec(area.x as int, sat_add(area.y as int, first), area.width as int, 1),
            }
        };
        match direction {
            SplitDirection::Horizontal => SplitPaneLayout {
                first: rect_spec(area.x as int, area.y as int, first, area.height as int),
                divider,
                second: rect_spec(sat_add(sat_add(area.x as int, first), 1), area.y as int, second, area.height as int),
            },
            SplitDirection::Vertical => SplitPaneLayout {
                first: rect_spec(area.x as int, area.y as int, area.width as int, first),
                divider,
                second: rect_spec(area.x as int, sat_add(sat_add(area.y as int, first), 1), area.width as int, second),
            },
        }
    }
}

/// A zero-extent first pane on the split axis.
pub open spec fn empty_rect_spec(area: Rect, direction: SplitDirection) -> Rect {
    match direction {
        SplitDirection::Horizontal => rect_spec(area.x as int, area.y as int, 0, area.height as int),
        SplitDirection::Vertical => rect_spec(area.x as int, area.y as int, area.width as int, 0),
    }
}

/// A zero-extent second pane on the split axis.
pub open spec fn empty_second_rect_spec(area: Rect, direction: SplitDirection) -> Rect {
    match direction {
        SplitDirection::Horizontal => rect_spec(sat_add(area.x as int, 1), area.y as int, 0, area.height as int),
        SplitDirection::Vertical => rect_spec(area.x as int, sat_add(area.y as int, 1), area.width as int, 0),
    }
}

fn split_rects(area: Rect, direction: SplitDirection, first: u16, second: u16) -> (l: SplitPaneLayout)
    ensures
        l == split_rects_spec(area, direction, first as int, second as int),
{
    if first == 0 && second == 0 {
        return SplitPaneLayout {
            first: empty_rect(area, direction),
            divider: Rect::zero(),
            second: empty_second_rect(area, direction),
        };
    }
    let divider = if first == 0 || second == 0 {
        Rect::zero()
    } else {
        match direction {
            SplitDirection::Horizontal => Rect::new(area.x.saturating_add(first), area.y, 1, area.height),
            SplitDirection::Vertical => Rect::new(area.x, area.y.saturating_add(first), area.width, 1),
        }
    };
    match direction {
        SplitDirection::Horizontal => SplitPaneLayout {
            first: Rect::new(area.x, area.y, first, area.height),
            divider,
            second: Rect::new(area.x.saturating_add(first).saturating_add(1), area.y, second, area.height),
        },
        SplitDirection::Vertical => SplitPaneLayout {
            first: Rect::new(area.x, area.y, area.width, first),
            divider,
            second: Rect::new(area.x, area.y.saturating_add(first).saturating_add(1), area.width, second),
        },
    }
}

fn empty_rect(area: Rect, direction: SplitDirection) -> (r: Rect)
    ensures
        r == empty_rect_spec(area, direction),
{
    match direction {
        SplitDirection::Horizontal => Rect::new(area.x, area.y, 0, area.height),
        SplitDirection::Vertical => Rect::new(area.x, area.y, area.width, 0),
    }
}

fn empty_second_rect(area: Rect, direction: SplitDirection) -> (r: Rect)
    ensures
        r == empty_second_rect_spec(area, direction),
{
    match direction {
        SplitDirection::Horizontal => Rect::new(area.x.saturating_add(1), area.y, 0, area.height),
        SplitDirection::Vertical => Rect::new(area.x, area.y.saturating_add(1), area.width, 0),
    }
}

/// Layout with one side collapsed: the other side takes the whole area.
pub open spec fn collapsed_layout_spec(area: Rect, side: SplitSide) -> SplitPaneLayout {
    match side {
        SplitSide::First => SplitPaneLayout { first: Rect::zero_spec(), divider: Rect::zero_spec(), second: area },
        SplitSide::Second => SplitPaneLayout { first: area, divider: Rect::zero_spec(), second: Rect::zero_spec() },
    }
}

fn collapsed_layout(area: Rect, direction: SplitDirection, side: SplitSide) -> (l: SplitPaneLayout)
    ensures
        l == collapsed_layout_spec(area, side),
{
    match side {
        SplitSide::First => SplitPaneLayout { first: Rect::zero(), divider: Rect::zero(), second: area },
        SplitSide::Second => SplitPaneLayout { first: area, divider: Rect::zero(), second: Rect::zero() },
    }
}

/// Layout when the minimums cannot both fit: the trailing pane
/// (horizontal) or the leading pane (vertical) takes the whole area.
pub open spec fn impossible_layout_spec(area: Rect, direction: SplitDirection) -> SplitPaneLayout {
    match direction {
        SplitDirection::Horizontal => SplitPaneLayout { first: Rect::zero_spec(), divider: Rect::zero_spec(), second: area },
        SplitDirection::Vertical => SplitPaneLayout { first: area, divider: Rect::zero_spec(), second: Rect::zero_spec() },
    }
}

fn impossible_layout(area: Rect, direction: SplitDirection) -> (l: SplitPaneLayout)
    ensures
        l == impossible_layout_spec(area, direction),
{
    match direction {
        SplitDirection::Horizontal => SplitPaneLayout { first: Rect::zero(), divider: Rect::zero(), second: area },
        SplitDirection::Vertical => SplitPaneLayout { first: area, divider: Rect::zero(), second: Rect::zero() },
    }
}

/// Cells shared by the panes of a resolved layout (its extent minus one).
pub open spec fn layout_available_spec(layout: SplitPaneLayout, direction: SplitDirection) -> int {
    let total = match direction {
        SplitDirection::Horizontal => layout.first.width as int + layout.divider.width as int + layout.second.width as int,
        SplitDirection::Vertical => layout.first.height as int + layout.divider.height as int + layout.second.height as int,
    };
    let t = if total - 1 < 0 { 0 } else { total - 1 };
    if t > u16::MAX { u16::MAX as int } else { t }
}

fn layout_available(layout: SplitPaneLayout, direction: SplitDirection) -> (r: u16)
    ensures
        r as int == layout_available_spec(layout, direction),
{
    let total: u32 = match direction {
        SplitDirection::Horizontal => layout.first.width as u32 + layout.divider.width as u32 + layout.second.width as u32,
        SplitDirection::Vertical => layout.first.height as u32 + layout.divider.height as u32 + layout.second.height as u32,
    };
    let t = total.saturating_sub(1);
    if t > 65535 { 65535 } else { t as u16 }
}

/// The area a painted layout covers.
pub open spec fn painted_area_spec(layout: SplitPaneLayout, direction: SplitDirection) -> Rect {
    match direction {
        SplitDirection::Horizontal => rect_spec(
            layout.first.x as int, layout.divider.y as int,
            sat_add(sat_add(layout.first.width as int, layout.divider.width as int), layout.second.width as int),
            layout.divider.height as int),
        SplitDirection::Vertical => rect_spec(
            layout.divider.x as int, layout.first.y as int, layout.divider.width as int,
            sat_add(sat_add(layout.first.height as int, layout.divider.height as int), layout.second.height as int)),
    }
}

fn painted_area(layout: SplitPaneLayout, direction: SplitDirection) -> (r: Rect)
    ensures
        r == painted_area_spec(layout, direction),
{
    match direction {
        SplitDirection::Horizontal => Rect::new(
            layout.first.x, layout.divider.y,
            layout.first.width.saturating_add(layout.divider.width).saturating_add(layout.second.width),
            layout.divider.height),
        SplitDirection::Vertical => Rect::new(
            layout.divider.x, layout.first.y, layout.divider.width,
            layout.first.height.saturating_add(layout.divider.height).saturating_add(layout.second.height)),
    }
}

} // verus!

verus! {

/// Mathematical model of split-pane state.
pub struct SplitPaneModel {
    /// Ratio in basis points.
    pub ratio: int,
    /// Divider owns focus.
    pub focused: bool,
    /// Pointer over the divider.
    pub hovered: bool,
    /// Drag in progress.
    pub dragging: bool,
    /// Collapsed side, if any.
    pub collapsed: Option<SplitSide>,
    /// Last resolved layout.
    pub layout: SplitPaneLayout,
    /// Direction and layout of the last paint.
    pub painted: Option<(SplitDirection, SplitPaneLayout)>,
}

/// Runtime state of a split pane.
#[derive(Debug, Clone, PartialEq, Eq)]
pub struct SplitPaneState {
    ratio: SplitRatio,
    focused: bool,
    hovered: bool,
    dragging: bool,
    collapsed: Option<SplitSide>,
    layout: SplitPaneLayout,
    painted: Option<(SplitDirection, SplitPaneLayout)>,
}

impl View for SplitPaneState {
    type V = SplitPaneModel;

    closed spec fn view(&self) -> SplitPaneModel {
        SplitPaneModel {
            ratio: self.ratio@,
            focused: self.focused,
            hovered: self.hovered,
            dragging: self.dragging,
            collapsed: self.collapsed,
            layout: self.layout,
            painted: self.painted,
        }
    }
}

/// A resizable two-pane layout with collapse support.
#[derive(Debug, Clone, Copy)]
pub struct SplitPane<'a> {
    /// Split axis.
    pub direction: SplitDirection,
    /// Minimum first pane.
    pub first_min: u16,
    /// Minimum second pane.
    pub second_min: u16,
    /// Theme.
    pub system: &'a DesignSystem,
}

/// Layout resolved for `area` from the model (collapsed, infeasible, or split
/// at the ratio's clamped seam).
pub open spec fn pane_layout_spec(dir: SplitDirection, first_min: u16, second_min: u16, area: Rect, m: SplitPaneModel) -> SplitPaneLayout {
    match m.collapsed {
        Some(side) => collapsed_layout_spec(area, side),
        None => {
            let total = match dir {
                SplitDirection::Horizontal => area.width as int,
                SplitDirection::Vertical => area.height as int,
            };
            let available = sat_sub(total, 1);
            let f = FeasibleSplit { available: available as u16, first_min, second_min };
            if first_min as int + second_min as int > available {
                impossible_layout_spec(area, dir)
            } else {
                let first = f.first_for_ratio_spec(m.ratio);
                split_rects_spec(area, dir, first, available - first)
            }
        },
    }
}

impl<'a> SplitPane<'a> {
    /// Split pane with direction, minimum pane sizes and theme.
    pub fn new(direction: SplitDirection, first_min: u16, second_min: u16, system: &'a DesignSystem) -> (p: Self)
        ensures
            p.direction == direction,
            p.first_min == first_min,
            p.second_min == second_min,
    {
        SplitPane { direction, first_min, second_min, system }
    }

    /// Resolves both panes and the divider inside `area`, storing the result.
    pub fn layout(&self, area: Rect, state: &mut SplitPaneState) -> (l: SplitPaneLayout)
        ensures
            l == pane_layout_spec(self.direction, self.first_min, self.second_min, area, old(state)@),
            final(state)@ == (SplitPaneModel { layout: l, ..old(state)@ }),
    {
        if let Some(side) = state.collapsed {
            state.layout = collapsed_layout(area, self.direction, side);
            return state.layout;
        }
        let total = match self.direction {
            SplitDirection::Horizontal => area.width,
            SplitDirection::Vertical => area.height,
        };
        let available = total.saturating_sub(1);
        match resolve_feasible_split(available, self.first_min, self.second_min) {
            None => {
                state.layout = impossible_layout(area, self.direction);
                state.layout
            },
            Some(feasible) => {
                let first = feasible.first_for_ratio(state.ratio);
                state.layout = split_rects(area, self.direction, first, available - first);
                state.layout
            },
        }
    }

    /// Lays out `area` and records it as painted (what a render does before
    /// drawing the divider).
    pub fn record_paint(&self, area: Rect, state: &mut SplitPaneState) -> (l: SplitPaneLayout)
        ensures
            l == pane_layout_spec(self.direction, self.first_min, self.second_min, area, old(state)@),
            final(state)@ == (SplitPaneModel { layout: l, painted: Some((self.direction, l)), ..old(state)@ }),
    {
        let l = self.layout(area, state);
        state.painted = Some((self.direction, l));
        l
    }

    /// Divider glyph and role: a chevron toward the collapsed side, a rule
    /// when focused or hovered, blank at rest.
    pub fn divider_glyph(&self, state: &SplitPaneState) -> (r: (&'static str, Role))
        ensures
            r.1 == (match (state@.collapsed, state@.focused, state@.hovered) {
                (Some(_), _, _) => Role::Accent,
                (None, true, _) => Role::BorderFocused,
                (None, false, true) => Role::Focus,
                (None, false, false) => Role::Border,
            }),
            state@.collapsed.is_none() && (state@.focused || state@.hovered) ==> r.0@ == (match self.direction {
                SplitDirection::Horizontal => self.system.glyphs.rule_v_spec(),
                SplitDirection::Vertical => self.system.glyphs.rule_spec(),
            }),
            state@.collapsed.is_none() && !state@.focused && !state@.hovered ==> r.0@ == " "@,
            state@.collapsed.is_some() ==> r.0@ == (match (self.direction, state@.collapsed) {
                (SplitDirection::Horizontal, Some(SplitSide::First)) => "›"@,
                (SplitDirection::Horizontal, _) => "‹"@,
                (SplitDirection::Vertical, Some(SplitSide::First)) => "⌄"@,
                (SplitDirection::Vertical, _) => "⌃"@,
            }),
    {
        match (self.direction, state.collapsed) {
            (SplitDirection::Horizontal, Some(SplitSide::First)) => ("›", Role::Accent),
            (SplitDirection::Horizontal, Some(SplitSide::Second)) => ("‹", Role::Accent),
            (SplitDirection::Vertical, Some(SplitSide::First)) => ("⌄", Role::Accent),
            (SplitDirection::Vertical, Some(SplitSide::Second)) => ("⌃", Role::Accent),
            (SplitDirection::Horizontal, None) => {
                if state.focused {
                    (self.system.glyphs.rule_v(), Role::BorderFocused)
                } else if state.hovered {
                    (self.system.glyphs.rule_v(), Role::Focus)
                } else {
                    (" ", Role::Border)
                }
            },
            (SplitDirection::Vertical, None) => {
                if state.focused {
                    (self.system.glyphs.rule(), Role::BorderFocused)
                } else if state.hovered {
                    (self.system.glyphs.rule(), Role::Focus)
                } else {
                    (" ", Role::Border)
                }
            },
        }
    }
}

} // verus!

verus! {

/// Ratio an arrow key moves the divider to, or `None` when the key does not
/// apply or would not move the seam.
pub open spec fn key_target(pane: (SplitDirection, u16, u16), m: SplitPaneModel, key: KeyEvent) -> Option<int> {
    let (dir, first_min, second_min) = pane;
    let delta: Option<int> = match (dir, key.code) {
        (SplitDirection::Horizontal, KeyCode::Left) => Some(-1),
        (SplitDirection::Vertical, KeyCode::Up) => Some(-1),
        (SplitDirection::Horizontal, KeyCode::Right) => Some(1),
        (SplitDirection::Vertical, KeyCode::Down) => Some(1),
        _ => None,
    };
    let available = layout_available_spec(m.layout, dir);
    let f = FeasibleSplit { available: available as u16, first_min, second_min };
    if !m.focused || key.kind == crate::input::KeyEventKind::Release || m.collapsed.is_some()
        || m.layout.divider.width == 0 || m.layout.divider.height == 0 || delta.is_none()
        || first_min as int + second_min as int > available {
        None
    } else {
        let current = f.first_for_ratio_spec(m.ratio);
        let raw = current + delta.unwrap();
        let target = f.clamp_spec(if raw < 0 { 0 } else if raw > available { available } else { raw });
        let next = if available == 0 { 5000 } else { normalize_spec(f.keyboard_percent(target) * 100) };
        if target == current || next == m.ratio || f.first_for_ratio_spec(next) == current {
            None
        } else {
            Some(next)
        }
    }
}

/// Ratio a divider drag moves to, or `None` when the drag does not apply or
/// would not move the painted seam.
pub open spec fn drag_target(pane: (SplitDirection, u16, u16), m: SplitPaneModel, position: Position) -> Option<int> {
    let (dir, first_min, second_min) = pane;
    match m.painted {
        Some((pdir, playout)) => {
            let area = painted_area_spec(playout, dir);
            let available = layout_available_spec(playout, dir);
            let f = FeasibleSplit { available: available as u16, first_min, second_min };
            if !m.dragging || pdir != dir || first_min as int + second_min as int > available || available == 0 {
                None
            } else {
                let origin = match dir { SplitDirection::Horizontal => area.x as int, SplitDirection::Vertical => area.y as int };
                let coord = match dir { SplitDirection::Horizontal => position.x as int, SplitDirection::Vertical => position.y as int };
                let d = sat_sub(coord, origin);
                let requested = if d < available { d } else { available };
                let next = normalize_spec(f.cell_percent(requested) * 100);
                let painted_first = match dir {
                    SplitDirection::Horizontal => playout.first.width as int,
                    SplitDirection::Vertical => playout.first.height as int,
                };
                if next == m.ratio || f.first_for_ratio_spec(next) == painted_first {
                    None
                } else {
                    Some(next)
                }
            }
        },
        None => None,
    }
}

impl SplitPaneState {
    /// State at `ratio` with both panes expanded.
    pub fn new(ratio: SplitRatio) -> (s: Self)
        ensures
            s@ == (SplitPaneModel {
                ratio: ratio@,
                focused: false,
                hovered: false,
                dragging: false,
                collapsed: None,
                layout: SplitPaneLayout { first: Rect::zero_spec(), divider: Rect::zero_spec(), second: Rect::zero_spec() },
                painted: None,
            }),
    {
        SplitPaneState {
            ratio: SplitRatio::from_basis_points(ratio.basis_points()),
            focused: false,
            hovered: false,
            dragging: false,
            collapsed: None,
            layout: SplitPaneLayout { first: Rect::zero(), divider: Rect::zero(), second: Rect::zero() },
            painted: None,
        }
    }

    /// The current split proportion.
    pub fn ratio(&self) -> (r: SplitRatio)
        ensures
            r@ == self@.ratio,
    {
        self.ratio
    }

    /// The collapsed side, if any.
    pub fn collapsed(&self) -> (r: Option<SplitSide>)
        ensures
            r == self@.collapsed,
    {
        self.collapsed
    }

    /// Replaces the expanded ratio and clears any collapsed side.
    pub fn set_ratio(&mut self, ratio: SplitRatio)
        ensures
            final(self)@ == (SplitPaneModel { ratio: ratio@, collapsed: None, ..old(self)@ }),
    {
        self.ratio = SplitRatio::from_basis_points(ratio.basis_points());
        self.collapsed = None;
    }

    /// Updates divider focus; losing focus cancels a drag.
    pub fn set_focused(&mut self, focused: bool)
        ensures
            final(self)@ == (SplitPaneModel {
                focused,
                dragging: if focused { old(self)@.dragging } else { false },
                ..old(self)@
            }),
    {
        self.focused = focused;
        if !focused {
            self.dragging = false;
        }
    }

    /// Whether the pointer is over the painted divider.
    pub fn is_hovered(&self) -> (b: bool)
        ensures
            b == self@.hovered,
    {
        self.hovered
    }

    /// Whether a divider drag is active.
    pub fn is_dragging(&self) -> (b: bool)
        ensures
            b == self@.dragging,
    {
        self.dragging
    }

    /// The last resolved layout.
    pub fn layout(&self) -> (l: SplitPaneLayout)
        ensures
            l == self@.layout,
    {
        self.layout
    }

    /// Moves the focused divider one cell along its axis with arrow keys.
    pub fn handle_key(&mut self, spec: &SplitPane<'_>, key: KeyEvent) -> (r: SplitPaneOutcome)
        ensures
            match key_target((spec.direction, spec.first_min, spec.second_min), old(self)@, key) {
                None => r == SplitPaneOutcome::Ignored && final(self)@ == old(self)@,
                Some(next) => (r matches SplitPaneOutcome::RatioChanged(x) && x@ == next)
                    && final(self)@ == (SplitPaneModel { ratio: next, collapsed: None, ..old(self)@ }),
            },
    {
        if !self.focused || key.is_release() || self.collapsed.is_some() || self.layout.divider.is_empty() {
            return SplitPaneOutcome::Ignored;
        }
        let delta: i32 = match (spec.direction, key.code) {
            (SplitDirection::Horizontal, KeyCode::Left) => -1,
            (SplitDirection::Vertical, KeyCode::Up) => -1,
            (SplitDirection::Horizontal, KeyCode::Right) => 1,
            (SplitDirection::Vertical, KeyCode::Down) => 1,
            _ => {
                return SplitPaneOutcome::Ignored;
            },
        };
        let available = layout_available(self.layout, spec.direction);
        let feasible = match resolve_feasible_split(available, spec.first_min, spec.second_min) {
            Some(f) => f,
            None => {
                return SplitPaneOutcome::Ignored;
            },
        };
        let current = feasible.first_for_ratio(self.ratio);
        let raw: i32 = current as i32 + delta;
        let clamped: u16 = if raw < 0 { 0 } else if raw > available as i32 { available } else { raw as u16 };
        let target = feasible.clamp_first(clamped);
        if target == current {
            return SplitPaneOutcome::Ignored;
        }
        let next_ratio = feasible.ratio_for_keyboard(target);
        if next_ratio == self.ratio {
            return SplitPaneOutcome::Ignored;
        }
        if feasible.first_for_ratio(next_ratio) == current {
            return SplitPaneOutcome::Ignored;
        }
        self.ratio = next_ratio;
        self.collapsed = None;
        SplitPaneOutcome::RatioChanged(self.ratio)
    }

    /// Collapses one pane, keeping the configured ratio.
    pub fn collapse(&mut self, side: SplitSide) -> (r: SplitPaneOutcome)
        ensures
            old(self)@.collapsed == Some(side) ==> r == SplitPaneOutcome::Ignored && final(self)@ == old(self)@,
            old(self)@.collapsed != Some(side) ==> r == SplitPaneOutcome::Collapsed(side)
                && final(self)@ == (SplitPaneModel { collapsed: Some(side), dragging: false, ..old(self)@ }),
    {
        if self.collapsed == Some(side) {
            SplitPaneOutcome::Ignored
        } else {
            self.collapsed = Some(side);
            self.dragging = false;
            SplitPaneOutcome::Collapsed(side)
        }
    }

    /// Restores both panes at the configured ratio.
    pub fn expand(&mut self) -> (r: SplitPaneOutcome)
        ensures
            old(self)@.collapsed.is_some() ==> r == SplitPaneOutcome::Expanded,
            old(self)@.collapsed.is_none() ==> r == SplitPaneOutcome::Ignored,
            final(self)@ == (SplitPaneModel { collapsed: None, ..old(self)@ }),
    {
        if self.collapsed.is_some() {
            self.collapsed = None;
            SplitPaneOutcome::Expanded
        } else {
            SplitPaneOutcome::Ignored
        }
    }

    /// Starts a drag only when the pointer hits the painted divider.
    pub fn drag_start(&mut self, spec: &SplitPane<'_>, position: Position) -> (r: SplitPaneOutcome)
        ensures
            (match old(self)@.painted {
                Some((d, l)) => d == spec.direction && l.divider.width != 0 && l.divider.height != 0
                    && l.divider.contains_spec(position),
                None => false,
            }) ==> r == SplitPaneOutcome::Focused
                && final(self)@ == (SplitPaneModel { focused: true, hovered: true, dragging: true, ..old(self)@ }),
            !(match old(self)@.painted {
                Some((d, l)) => d == spec.direction && l.divider.width != 0 && l.divider.height != 0
                    && l.divider.contains_spec(position),
                None => false,
            }) ==> r == SplitPaneOutcome::Ignored && final(self)@ == old(self)@,
    {
        match self.painted {
            Some((d, l)) => {
                if d != spec.direction || l.divider.is_empty() || !l.divider.contains(position) {
                    return SplitPaneOutcome::Ignored;
                }
            },
            None => {
                return SplitPaneOutcome::Ignored;
            },
        }
        self.focused = true;
        self.hovered = true;
        self.dragging = true;
        SplitPaneOutcome::Focused
    }

    /// Updates hover from the pointer; returns whether it changed.
    pub fn hover(&mut self, spec: &SplitPane<'_>, position: Position) -> (changed: bool)
        ensures
            final(self)@ == (SplitPaneModel {
                hovered: match old(self)@.painted {
                    Some((d, l)) => d == spec.direction && l.divider.width != 0 && l.divider.height != 0
                        && l.divider.contains_spec(position),
                    None => false,
                },
                ..old(self)@
            }),
            changed == (final(self)@.hovered != old(self)@.hovered),
    {
        let hovered = match self.painted {
            Some((d, l)) => d == spec.direction && !l.divider.is_empty() && l.divider.contains(position),
            None => false,
        };
        let changed = self.hovered != hovered;
        self.hovered = hovered;
        changed
    }

    /// Moves the seam with an active drag and re-lays out the painted area.
    pub fn drag_move(&mut self, spec: &SplitPane<'_>, position: Position) -> (r: SplitPaneOutcome)
        ensures
            match drag_target((spec.direction, spec.first_min, spec.second_min), old(self)@, position) {
                None => r == SplitPaneOutcome::Ignored && final(self)@ == old(self)@,
                Some(next) => (r matches SplitPaneOutcome::RatioChanged(x) && x@ == next) && ({
                    let moved = SplitPaneModel { ratio: next, collapsed: None, ..old(self)@ };
                    let area = painted_area_spec(old(self)@.painted.unwrap().1, spec.direction);
                    final(self)@ == (SplitPaneModel {
                        layout: pane_layout_spec(spec.direction, spec.first_min, spec.second_min, area, moved),
                        ..moved
                    })
                }),
            },
    {
        if !self.dragging {
            return SplitPaneOutcome::Ignored;
        }
        let (pdir, playout) = match self.painted {
            Some(p) => p,
            None => {
                return SplitPaneOutcome::Ignored;
            },
        };
        if pdir != spec.direction {
            return SplitPaneOutcome::Ignored;
        }
        let area = painted_area(playout, spec.direction);
        let available = layout_available(playout, spec.direction);
        let feasible = match resolve_feasible_split(available, spec.first_min, spec.second_min) {
            Some(f) => f,
            None => {
                return SplitPaneOutcome::Ignored;
            },
        };
        if available == 0 {
            return SplitPaneOutcome::Ignored;
        }
        let origin = match spec.direction {
            SplitDirection::Horizontal => area.x,
            SplitDirection::Vertical => area.y,
        };
        let coordinate = match spec.direction {
            SplitDirection::Horizontal => position.x,
            SplitDirection::Vertical => position.y,
        };
        let d = coordinate.saturating_sub(origin);
        let requested = if d < available { d } else { available };
        let next_ratio = feasible.ratio_for_drag(requested);
        if next_ratio == self.ratio {
            return SplitPaneOutcome::Ignored;
        }
        let painted_first = match spec.direction {
            SplitDirection::Horizontal => playout.first.width,
            SplitDirection::Vertical => playout.first.height,
        };
        if feasible.first_for_ratio(next_ratio) == painted_first {
            return SplitPaneOutcome::Ignored;
        }
        self.ratio = next_ratio;
        self.collapsed = None;
        let _ = spec.layout(area, self);
        SplitPaneOutcome::RatioChanged(self.ratio)
    }

    /// Ends an active drag.
    pub fn drag_end(&mut self)
        ensures
            final(self)@ == (SplitPaneModel { dragging: false, ..old(self)@ }),
    {
        self.dragging = false;
    }
}

} // verus!

verus! {

/// A keyboard step reaches its target: the whole-percent ratio chosen for a
/// target cell puts the seam at or past the (clamped) target, and one percent
/// less would stop short of it.
pub proof fn law_keyboard_ratio_reaches_target(f: FeasibleSplit, t: int)
    requires
        f.wf(),
        f.available > 0,
        0 <= t <= u16::MAX,
        500 <= f.keyboard_percent(t) * 100 <= 9500,
    ensures
        f.first_for_ratio_spec(f.keyboard_percent(t) * 100) >= f.clamp_spec(t),
        f.available as int * (f.keyboard_percent(t) - 1) / 100 < f.clamp_spec(t),
{
    let a = f.available as int;
    let c = f.clamp_spec(t);
    let p = f.keyboard_percent(t);
    assert(0 <= c <= a);
    assert(p * a >= 100 * c && (p - 1) * a < 100 * c) by (nonlinear_arith)
        requires a > 0, 0 <= c, p == (c * 100 + a - 1) / a;
    assert(a * (p * 100) / 10000 == a * p / 100) by (nonlinear_arith)
        requires a > 0, p >= 0;
    assert(a * p / 100 >= c) by (nonlinear_arith)
        requires p * a >= 100 * c, a > 0, c >= 0;
    assert(a * (p - 1) / 100 < c) by (nonlinear_arith)
        requires (p - 1) * a < 100 * c, a > 0, c >= 0;
}

/// With positive minimums, an expanded split that fits partitions the area
/// along its axis: first pane, a one-cell divider, second pane, each pane at
/// least its minimum.
pub proof fn law_split_partitions_area(dir: SplitDirection, first_min: u16, second_min: u16, area: Rect, m: SplitPaneModel)
    requires
        m.collapsed is None,
        first_min > 0,
        second_min > 0,
        first_min as int + second_min as int + 1 <= match dir {
            SplitDirection::Horizontal => area.width as int,
            SplitDirection::Vertical => area.height as int,
        },
        area.x as int + area.width as int <= u16::MAX,
        area.y as int + area.height as int <= u16::MAX,
    ensures
        ({
            let l = pane_layout_spec(dir, first_min, second_min, area, m);
            match dir {
                SplitDirection::Horizontal => {
                    &&& l.first.width as int + l.divider.width as int + l.second.width as int == area.width
                    &&& l.divider.width == 1
                    &&& l.first.width >= first_min
                    &&& l.second.width >= second_min
                    &&& l.divider.x == l.first.x + l.first.width
                    &&& l.second.x == l.divider.x + 1
                },
                SplitDirection::Vertical => {
                    &&& l.first.height as int + l.divider.height as int + l.second.height as int == area.height
                    &&& l.divider.height == 1
                    &&& l.first.height >= first_min
                    &&& l.second.height >= second_min
                    &&& l.divider.y == l.first.y + l.first.height
                    &&& l.second.y == l.divider.y + 1
                },
            }
        }),
{
    let total = match dir {
        SplitDirection::Horizontal => area.width as int,
        SplitDirection::Vertical => area.height as int,
    };
    let available = sat_sub(total, 1);
    let f = FeasibleSplit { available: available as u16, first_min, second_min };
    let first = f.first_for_ratio_spec(m.ratio);
    assert(first_min <= first <= available - second_min);
}

} // verus!

verus! {

/// Coordinate of `p` along the split axis.
pub open spec fn axis_coord(dir: SplitDirection, p: Position) -> int {
    match dir {
        SplitDirection::Horizontal => p.x as int,
        SplitDirection::Vertical => p.y as int,
    }
}

/// The pointer's offset into the painted split along its axis, kept within
/// `0..=available`.
pub open spec fn drag_offset(dir: SplitDirection, area: Rect, available: int, p: Position) -> int {
    let origin = match dir { SplitDirection::Horizontal => area.x as int, SplitDirection::Vertical => area.y as int };
    let d = axis_coord(dir, p) - origin;
    if d < 0 { 0 } else if d > available { available } else { d }
}

proof fn lemma_percent_ordered(a: int, c1: int, c2: int)
    requires
        a > 0,
        c1 <= c2,
    ensures
        (c1 * 100 + a / 2) / a <= (c2 * 100 + a / 2) / a,
{
    assert(c1 * 100 + a / 2 <= c2 * 100 + a / 2);
    vstd::arithmetic::div_mod::lemma_div_is_ordered(c1 * 100 + a / 2, c2 * 100 + a / 2, a);
}

proof fn lemma_percent_nearest(a: int, c: int)
    requires
        a > 0,
        c >= 0,
    ensures
        ({
            let q = (c * 100 + a / 2) / a;
            &&& 2 * (q * a - 100 * c) <= a
            &&& 2 * (100 * c - q * a) <= a
        }),
{
    let x = c * 100 + a / 2;
    let q = x / a;
    vstd::arithmetic::div_mod::lemma_fundamental_div_mod(x, a);
    vstd::arithmetic::div_mod::lemma_mod_bound(x, a);
    assert(x == a * q + x % a);
    assert(0 <= x % a < a);
    assert(a * q == q * a) by (nonlinear_arith);
    assert(2 * (a / 2) <= a && a <= 2 * (a / 2) + 1);
}

/// Dragging the divider of a painted split whose minimums fit follows the
/// pointer: the ratio it moves to is the nearest whole percent of the
/// pointer's (clamped) offset from the split's origin along its axis, and a
/// pointer further along never gives a smaller ratio.
pub proof fn law_drag_follows_pointer(pane: (SplitDirection, u16, u16), m: SplitPaneModel, p: Position, q: Position)
    ensures
        ({
            let (dir, first_min, second_min) = pane;
            match m.painted {
                Some((_, playout)) => {
                    let area = painted_area_spec(playout, dir);
                    let a = layout_available_spec(playout, dir);
                    let f = FeasibleSplit { available: a as u16, first_min, second_min };
                    let c = f.clamp_spec(drag_offset(dir, area, a, p));
                    &&& (drag_target(pane, m, p) matches Some(r) ==> {
                        &&& r % 100 == 0
                        &&& 500 <= r <= 9500
                        &&& (500 < r < 9500 ==> 2 * (r * a - 10000 * c) <= 100 * a && 2 * (10000 * c - r * a) <= 100 * a)
                    })
                    &&& ((axis_coord(dir, p) <= axis_coord(dir, q) && drag_target(pane, m, p) is Some
                        && drag_target(pane, m, q) is Some)
                        ==> drag_target(pane, m, p)->0 <= drag_target(pane, m, q)->0)
                },
                None => drag_target(pane, m, p) is None,
            }
        }),
{
    let (dir, first_min, second_min) = pane;
    if let Some((pdir, playout)) = m.painted {
        let area = painted_area_spec(playout, dir);
        let a = layout_available_spec(playout, dir);
        let f = FeasibleSplit { available: a as u16, first_min, second_min };
        if m.dragging && pdir == dir && first_min as int + second_min as int <= a && a != 0 {
            assert(0 < a <= u16::MAX);
            assert(f.available as int == a);
            let cp = f.clamp_spec(drag_offset(dir, area, a, p));
            let cq = f.clamp_spec(drag_offset(dir, area, a, q));
            assert(0 <= cp <= a);
            let pp = f.cell_percent(drag_offset(dir, area, a, p));
            assert(pp == (cp * 100 + a / 2) / a);
            lemma_percent_nearest(a, cp);
            if axis_coord(dir, p) <= axis_coord(dir, q) {
                assert(cp <= cq);
                lemma_percent_ordered(a, cp, cq);
            }
            assert(pp >= 0) by {
                vstd::arithmetic::div_mod::lemma_div_pos_is_pos(cp * 100 + a / 2, a);
            }
            if let Some(r) = drag_target(pane, m, p) {
                assert(r == normalize_spec(pp * 100));
                if 500 < r < 9500 {
                    assert(r == pp * 100);
                    assert(r * a == 100 * (pp * a)) by (nonlinear_arith) requires r == pp * 100;
                }
            }
        }
    }
}

} // verus!
