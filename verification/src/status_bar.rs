//! A low-noise one-row status band: mode, connection, selection, context,
//! shortcuts and a transient message.
//!
//! Slots live in three regions (left, center, right). Under width pressure
//! slots are admitted by priority; essential slots keep at least a sliver;
//! admitted slots then grow toward their full width, and same-side slots get
//! a ` · ` divider only while columns remain. The left region packs left to
//! right, the right region right to left, and the center takes what is left
//! between them.

use vstd::prelude::*;
use crate::geometry::{sat_add, sat_sub, Position, Rect};
use crate::interaction::{HitRegion, Outcome};
use crate::semantic_status::SemanticStatus;
use crate::style::{DesignSystem, Glyph, GlyphSet, Role};
use crate::text::{concat_str, display_cols, str_width};

verus! {

/// Lifetime of a timed status sentence, in milliseconds.
pub const STATUS_DEFAULT_TTL_MS: u64 = 4000;

/// Which band a slot belongs to.
#[derive(Debug, Clone, Copy, PartialEq, Eq, Hash, Structural)]
pub enum StatusRegion {
    /// Leading cluster.
    Left,
    /// Center band.
    Center,
    /// Trailing cluster.
    Right,
}

impl Default for StatusRegion {
    /// `Left`.
    fn default() -> (r: StatusRegion)
        ensures
            r == StatusRegion::Left,
    {
        StatusRegion::Left
    }
}

impl StatusRegion {
    /// Stable id.
    pub open spec fn id_spec(self) -> Seq<char> {
        match self {
            StatusRegion::Left => "left"@,
            StatusRegion::Center => "center"@,
            StatusRegion::Right => "right"@,
        }
    }

    /// Stable id.
    pub fn id(self) -> (s: &'static str)
        ensures
            s@ == self.id_spec(),
    {
        match self {
            StatusRegion::Left => "left",
            StatusRegion::Center => "center",
            StatusRegion::Right => "right",
        }
    }
}

/// Density recipe of the bar.
#[derive(Debug, Clone, Copy, PartialEq, Eq, Hash, Structural)]
pub enum StatusBarRecipe {
    /// Mode, connection and critical slots only.
    Minimal,
    /// Everything but shortcut fragments.
    Compact,
    /// Everything, key hints included.
    Rich,
}

impl Default for StatusBarRecipe {
    /// `Compact`.
    fn default() -> (r: StatusBarRecipe)
        ensures
            r == StatusBarRecipe::Compact,
    {
        StatusBarRecipe::Compact
    }
}

impl StatusBarRecipe {
    /// Stable id.
    pub open spec fn id_spec(self) -> Seq<char> {
        match self {
            StatusBarRecipe::Minimal => "minimal"@,
            StatusBarRecipe::Compact => "compact"@,
            StatusBarRecipe::Rich => "rich"@,
        }
    }

    /// Stable id.
    pub fn id(self) -> (s: &'static str)
        ensures
            s@ == self.id_spec(),
    {
        match self {
            StatusBarRecipe::Minimal => "minimal",
            StatusBarRecipe::Compact => "compact",
            StatusBarRecipe::Rich => "rich",
        }
    }
}

/// Semantic meaning of a slot; drives its default glyph and role.
#[derive(Debug, Clone, Copy, PartialEq, Eq, Hash, Structural)]
pub enum StatusKind {
    /// Generic text.
    Text,
    /// Editor or app mode.
    Mode,
    /// Connection or sync state.
    Connection,
    /// Selection summary.
    Selection,
    /// Path or workspace context.
    Context,
    /// Key hint fragment.
    Shortcut,
    /// Active focus zone.
    FocusZone,
    /// Transient message.
    Transient,
}

impl Default for StatusKind {
    /// `Text`.
    fn default() -> (r: StatusKind)
        ensures
            r == StatusKind::Text,
    {
        StatusKind::Text
    }
}

impl StatusKind {
    /// Stable id.
    pub open spec fn id_spec(self) -> Seq<char> {
        match self {
            StatusKind::Text => "text"@,
            StatusKind::Mode => "mode"@,
            StatusKind::Connection => "connection"@,
            StatusKind::Selection => "selection"@,
            StatusKind::Context => "context"@,
            StatusKind::Shortcut => "shortcut"@,
            StatusKind::FocusZone => "focus-zone"@,
            StatusKind::Transient => "transient"@,
        }
    }

    /// Stable id.
    pub fn id(self) -> (s: &'static str)
        ensures
            s@ == self.id_spec(),
    {
        match self {
            StatusKind::Text => "text",
            StatusKind::Mode => "mode",
            StatusKind::Connection => "connection",
            StatusKind::Selection => "selection",
            StatusKind::Context => "context",
            StatusKind::Shortcut => "shortcut",
            StatusKind::FocusZone => "focus-zone",
            StatusKind::Transient => "transient",
        }
    }

    /// The glyph a kind wears by default, if any.
    pub open spec fn default_glyph_name(self) -> Option<Glyph> {
        match self {
            StatusKind::Mode => Some(Glyph::ModeDot),
            StatusKind::Connection => Some(Glyph::ModeDot),
            StatusKind::Selection => Some(Glyph::SelectionMarker),
            StatusKind::Context => Some(Glyph::DisclosureClosed),
            StatusKind::FocusZone => Some(Glyph::DiamondFilled),
            _ => None,
        }
    }

    /// Default non-color glyph text; empty means none.
    pub open spec fn default_glyph_spec(self, glyphs: GlyphSet) -> Seq<char> {
        match self.default_glyph_name() {
            Some(g) => g.text_spec(glyphs),
            None => Seq::empty(),
        }
    }

    /// Default non-color glyph; empty means none.
    pub fn default_glyph(self, glyphs: GlyphSet) -> (s: &'static str)
        ensures
            s@ == self.default_glyph_spec(glyphs),
    {
        match self {
            StatusKind::Mode => Glyph::ModeDot.text(glyphs),
            StatusKind::Connection => Glyph::ModeDot.text(glyphs),
            StatusKind::Selection => Glyph::SelectionMarker.text(glyphs),
            StatusKind::Context => Glyph::DisclosureClosed.text(glyphs),
            StatusKind::FocusZone => Glyph::DiamondFilled.text(glyphs),
            _ => {
                proof {
                    reveal_strlit("");
                }
                ""
            },
        }
    }

    /// Role a slot of this kind paints in when no semantic status overrides it.
    pub open spec fn default_role_spec(self) -> Role {
        match self {
            StatusKind::Mode => Role::TextStrong,
            StatusKind::Connection => Role::TextStrong,
            StatusKind::Selection => Role::TextMuted,
            StatusKind::Context => Role::TextMuted,
            StatusKind::Shortcut => Role::HintKey,
            StatusKind::FocusZone => Role::TextStrong,
            StatusKind::Transient => Role::TextSecondary,
            StatusKind::Text => Role::StatusBar,
        }
    }

    /// Role a slot of this kind paints in when no semantic status overrides it.
    pub fn default_role(self) -> (r: Role)
        ensures
            r == self.default_role_spec(),
    {
        match self {
            StatusKind::Mode => Role::TextStrong,
            StatusKind::Connection => Role::TextStrong,
            StatusKind::Selection => Role::TextMuted,
            StatusKind::Context => Role::TextMuted,
            StatusKind::Shortcut => Role::HintKey,
            StatusKind::FocusZone => Role::TextStrong,
            StatusKind::Transient => Role::TextSecondary,
            StatusKind::Text => Role::StatusBar,
        }
    }

    /// Whether this kind is shown under a recipe.
    pub open spec fn allowed_in_spec(self, recipe: StatusBarRecipe) -> bool {
        match recipe {
            StatusBarRecipe::Minimal => self == StatusKind::Mode || self == StatusKind::Connection
                || self == StatusKind::FocusZone || self == StatusKind::Transient
                || self == StatusKind::Text,
            StatusBarRecipe::Compact => self != StatusKind::Shortcut,
            StatusBarRecipe::Rich => true,
        }
    }

    /// Whether this kind is shown under a recipe.
    pub fn allowed_in(self, recipe: StatusBarRecipe) -> (b: bool)
        ensures
            b == self.allowed_in_spec(recipe),
    {
        match recipe {
            StatusBarRecipe::Minimal => match self {
                StatusKind::Mode | StatusKind::Connection | StatusKind::FocusZone
                | StatusKind::Transient | StatusKind::Text => true,
                _ => false,
            },
            StatusBarRecipe::Compact => match self {
                StatusKind::Shortcut => false,
                _ => true,
            },
            StatusBarRecipe::Rich => true,
        }
    }
}

/// A prioritized status-bar slot.
#[derive(Debug, Clone, Copy)]
pub struct StatusSlot<'a, Id> {
    /// Stable identity used for hit regions.
    pub id: Id,
    /// Caller-visible content (text after the optional glyph).
    pub content: &'a str,
    /// Higher-priority slots receive width first.
    pub priority: u8,
    /// Columns that keep the slot; zero means all-or-nothing.
    pub min_width: u16,
    /// Whether the slot takes part at all.
    pub enabled: bool,
    /// Region band.
    pub region: StatusRegion,
    /// Semantic kind.
    pub kind: StatusKind,
    /// Optional glyph override.
    pub glyph: Option<&'a str>,
    /// Typed lifecycle status; owns the glyph and the role when set.
    pub semantic: Option<SemanticStatus>,
}

impl<'a, Id> StatusSlot<'a, Id> {
    /// The typed lifecycle status, if set.
    pub open spec fn semantic_spec(&self) -> Option<SemanticStatus> {
        self.semantic
    }

    /// The glyph painted before the content: the semantic status wins, then
    /// the explicit glyph, then the kind's default.
    pub open spec fn glyph_text_spec(&self, glyphs: GlyphSet) -> Seq<char> {
        match self.semantic_spec() {
            Some(s) => s.glyph_unicode_spec(),
            None => match self.glyph {
                Some(g) => g@,
                None => self.kind.default_glyph_spec(glyphs),
            },
        }
    }

    /// Painted text: glyph, a space and the content; just the content when
    /// there is no glyph.
    pub open spec fn painted_spec(&self, glyphs: GlyphSet) -> Seq<char> {
        let g = self.glyph_text_spec(glyphs);
        if g.len() == 0 { self.content@ } else { g + " "@ + self.content@ }
    }

    /// Paint role: the semantic status's role, else the kind's default.
    pub open spec fn role_spec(&self) -> Role {
        match self.semantic_spec() {
            Some(s) => s.role_spec(),
            None => self.kind.default_role_spec(),
        }
    }

    /// Text slot on the left, priority 50.
    pub fn new(id: Id, content: &'a str) -> (s: Self)
        ensures
            s.id == id,
            s.content == content,
            s.priority == 50,
            s.min_width == 0,
            s.enabled,
            s.region == StatusRegion::Left,
            s.kind == StatusKind::Text,
            s.glyph.is_none(),
            s.semantic_spec().is_none(),
    {
        StatusSlot {
            id,
            content,
            priority: 50,
            min_width: 0,
            enabled: true,
            region: StatusRegion::Left,
            kind: StatusKind::Text,
            glyph: None,
            semantic: None,
        }
    }

    /// Mode indicator: left, priority 100, at least 3 columns.
    pub fn mode(id: Id, content: &'a str) -> (s: Self)
        ensures
            s.id == id,
            s.content == content,
            s.priority == 100,
            s.min_width == 3,
            s.enabled,
            s.region == StatusRegion::Left,
            s.kind == StatusKind::Mode,
            s.glyph.is_none(),
            s.semantic_spec().is_none(),
    {
        Self::new(id, content).kind(StatusKind::Mode).priority(100).region(StatusRegion::Left).min_width(3)
    }

    /// Connection status: right, priority 90, online, at least 3 columns.
    pub fn connection(id: Id, content: &'a str) -> (s: Self)
        ensures
            s.id == id,
            s.content == content,
            s.priority == 90,
            s.min_width == 3,
            s.enabled,
            s.region == StatusRegion::Right,
            s.kind == StatusKind::Connection,
            s.glyph.is_none(),
            s.semantic_spec() == Some(SemanticStatus::Online),
    {
        Self::new(id, content).kind(StatusKind::Connection).semantic(SemanticStatus::Online)
            .priority(90).region(StatusRegion::Right).min_width(3)
    }

    /// Selection summary: right, priority 70.
    pub fn selection(id: Id, content: &'a str) -> (s: Self)
        ensures
            s.id == id,
            s.content == content,
            s.priority == 70,
            s.min_width == 0,
            s.enabled,
            s.region == StatusRegion::Right,
            s.kind == StatusKind::Selection,
            s.glyph.is_none(),
            s.semantic_spec().is_none(),
    {
        Self::new(id, content).kind(StatusKind::Selection).priority(70).region(StatusRegion::Right)
    }

    /// Context or path: center, priority 60, at least 8 columns.
    pub fn context(id: Id, content: &'a str) -> (s: Self)
        ensures
            s.id == id,
            s.content == content,
            s.priority == 60,
            s.min_width == 8,
            s.enabled,
            s.region == StatusRegion::Center,
            s.kind == StatusKind::Context,
            s.glyph.is_none(),
            s.semantic_spec().is_none(),
    {
        Self::new(id, content).kind(StatusKind::Context).priority(60).region(StatusRegion::Center).min_width(8)
    }

    /// Key hint fragment: right, priority 30.
    pub fn shortcut(id: Id, content: &'a str) -> (s: Self)
        ensures
            s.id == id,
            s.content == content,
            s.priority == 30,
            s.min_width == 0,
            s.enabled,
            s.region == StatusRegion::Right,
            s.kind == StatusKind::Shortcut,
            s.glyph.is_none(),
            s.semantic_spec().is_none(),
    {
        Self::new(id, content).kind(StatusKind::Shortcut).priority(30).region(StatusRegion::Right)
    }

    /// Active focus zone: center, priority 85, at least 4 columns.
    pub fn focus_zone(id: Id, content: &'a str) -> (s: Self)
        ensures
            s.id == id,
            s.content == content,
            s.priority == 85,
            s.min_width == 4,
            s.enabled,
            s.region == StatusRegion::Center,
            s.kind == StatusKind::FocusZone,
            s.glyph.is_none(),
            s.semantic_spec().is_none(),
    {
        Self::new(id, content).kind(StatusKind::FocusZone).priority(85).region(StatusRegion::Center).min_width(4)
    }

    /// Sets the region.
    pub fn region(self, region: StatusRegion) -> (s: Self)
        ensures
            s == (StatusSlot { region, ..self }),
    {
        StatusSlot { region, ..self }
    }

    /// Sets the kind.
    pub fn kind(self, kind: StatusKind) -> (s: Self)
        ensures
            s == (StatusSlot { kind, ..self }),
    {
        StatusSlot { kind, ..self }
    }

    /// Sets the priority.
    pub fn priority(self, priority: u8) -> (s: Self)
        ensures
            s == (StatusSlot { priority, ..self }),
    {
        StatusSlot { priority, ..self }
    }

    /// Sets the minimum width.
    pub fn min_width(self, min_width: u16) -> (s: Self)
        ensures
            s == (StatusSlot { min_width, ..self }),
    {
        StatusSlot { min_width, ..self }
    }

    /// Enables or disables the slot.
    pub fn enabled(self, enabled: bool) -> (s: Self)
        ensures
            s == (StatusSlot { enabled, ..self }),
    {
        StatusSlot { enabled, ..self }
    }

    /// Overrides the glyph.
    pub fn glyph(self, glyph: &'a str) -> (s: Self)
        ensures
            s == (StatusSlot { glyph: Some(glyph), ..self }),
    {
        StatusSlot { glyph: Some(glyph), ..self }
    }

    /// Typed lifecycle status; it owns the glyph and the role.
    pub fn semantic(self, semantic: SemanticStatus) -> (s: Self)
        ensures
            s.id == self.id,
            s.content == self.content,
            s.priority == self.priority,
            s.min_width == self.min_width,
            s.enabled == self.enabled,
            s.region == self.region,
            s.kind == self.kind,
            s.glyph == self.glyph,
            s.semantic_spec() == Some(semantic),
    {
        StatusSlot { semantic: Some(semantic), ..self }
    }

    /// The glyph painted before the content.
    pub fn glyph_text(&self, glyphs: GlyphSet) -> (g: &'a str)
        ensures
            g@ == self.glyph_text_spec(glyphs),
    {
        match self.semantic {
            Some(s) => s.glyph_unicode(),
            None => match self.glyph {
                Some(g) => g,
                None => self.kind.default_glyph(glyphs),
            },
        }
    }

    /// Painted text: glyph, a space and the content.
    pub fn painted(&self, glyphs: GlyphSet) -> (s: String)
        ensures
            s@ == self.painted_spec(glyphs),
    {
        let g = self.glyph_text(glyphs);
        if g.unicode_len() == 0 {
            String::from_str(self.content)
        } else {
            let mut s = concat_str(g, " ");
            s.append(self.content);
            s
        }
    }

    /// Paint role when not hovered.
    pub fn role(&self) -> (r: Role)
        ensures
            r == self.role_spec(),
    {
        match self.semantic {
            Some(s) => s.role(),
            None => self.kind.default_role(),
        }
    }
}

/// An ephemeral message (the host owns its lifetime).
#[derive(Debug, Clone, Copy, PartialEq, Eq)]
pub struct TransientStatus<'a> {
    /// Message text.
    pub text: &'a str,
    /// Optional glyph.
    pub glyph: Option<&'a str>,
}

impl<'a> TransientStatus<'a> {
    /// Text-only transient.
    pub fn new(text: &'a str) -> (t: Self)
        ensures
            t.text == text,
            t.glyph.is_none(),
    {
        TransientStatus { text, glyph: None }
    }

    /// Adds a glyph.
    pub fn glyph(self, glyph: &'a str) -> (t: Self)
        ensures
            t.text == self.text,
            t.glyph == Some(glyph),
    {
        TransientStatus { text: self.text, glyph: Some(glyph) }
    }
}


// ── Width allocation and placement ──────────────────────────────────────────

/// The side a measured slot sits on.
#[derive(Debug, Clone, Copy, PartialEq, Eq, Structural)]
pub enum StatusSide {
    /// Left region.
    Left,
    /// Center region.
    Center,
    /// Right region.
    Right,
}

/// A slot measured for layout.
#[derive(Debug, Clone, Copy, PartialEq, Eq, Structural)]
pub struct SlotAllocation {
    /// Side.
    pub side: StatusSide,
    /// Index of the slot within its side.
    pub index: usize,
    /// Columns that keep the slot (zero: the full width or nothing).
    pub width: u16,
    /// Full painted width.
    pub full_width: u16,
    /// Priority.
    pub priority: u8,
    /// Essential slots keep a sliver even when their minimum does not fit.
    pub essential: bool,
}

/// Where a slot paints.
#[derive(Debug, Clone, Copy, PartialEq, Eq, Structural)]
pub struct SlotPlacement {
    /// Side.
    pub side: StatusSide,
    /// Index of the slot within its side.
    pub index: usize,
    /// Painted cells (divider columns included).
    pub area: Rect,
    /// Whether a ` · ` divider leads the slot.
    pub separator: bool,
}

/// Widths granted so far and columns left.
pub struct BandState {
    /// Granted width per candidate (zero: not admitted).
    pub widths: Seq<int>,
    /// Columns not yet granted.
    pub rem: int,
}

/// The columns a candidate needs to be admitted.
pub open spec fn keep_cols(c: SlotAllocation) -> int {
    if c.width == 0 { c.full_width as int } else { c.width as int }
}

/// Admission of candidate `i`: its minimum when that fits; a sliver of what
/// is left when it is essential; nothing otherwise.
pub open spec fn admit_step(st: BandState, i: int, c: SlotAllocation) -> BandState {
    let m = keep_cols(c);
    if m == 0 {
        st
    } else if m > st.rem {
        if c.essential && st.rem > 0 {
            let w = if st.rem < c.full_width { st.rem } else { c.full_width as int };
            BandState { widths: st.widths.update(i, if w < 1 { 1 } else { w }), rem: 0 }
        } else {
            st
        }
    } else {
        BandState { widths: st.widths.update(i, m), rem: st.rem - m }
    }
}

/// Growth of an admitted candidate `i` toward its full width.
pub open spec fn grow_step(st: BandState, i: int, c: SlotAllocation) -> BandState {
    if st.widths[i] > 0 {
        let room = sat_sub(c.full_width as int, st.widths[i]);
        let g = if room < st.rem { room } else { st.rem };
        BandState { widths: st.widths.update(i, st.widths[i] + g), rem: st.rem - g }
    } else {
        st
    }
}

/// One step of the admission pass (`grow == false`) or the growth pass.
pub open spec fn band_step(st: BandState, i: int, c: SlotAllocation, grow: bool) -> BandState {
    if grow { grow_step(st, i, c) } else { admit_step(st, i, c) }
}

/// State after visiting, from `start`, every candidate of priority above `p`
/// and those of priority `p` at positions below `i`: priority descending,
/// then position ascending.
pub open spec fn band_fold(c: Seq<SlotAllocation>, start: BandState, grow: bool, p: int, i: int) -> BandState
    decreases 256 - p, i,
{
    if p >= 256 || p < 0 {
        start
    } else if i <= 0 {
        band_fold(c, start, grow, p + 1, c.len() as int)
    } else if i > c.len() {
        band_fold(c, start, grow, p, c.len() as int)
    } else {
        let prev = band_fold(c, start, grow, p, i - 1);
        if c[i - 1].priority as int == p {
            band_step(prev, i - 1, c[i - 1], grow)
        } else {
            prev
        }
    }
}

/// Divider reservation progress on one side.
pub struct SepState {
    /// Widths.
    pub widths: Seq<int>,
    /// Divider flags.
    pub seps: Seq<bool>,
    /// Columns left.
    pub rem: int,
    /// Whether the side's first slot has been passed.
    pub seen: bool,
}

/// Every slot of `side` after the first, in paint order, gets three more
/// columns and a divider while three columns remain.
pub open spec fn sep_step(st: SepState, j: int, c: SlotAllocation, side: StatusSide) -> SepState {
    if c.side == side && st.widths[j] > 0 {
        if !st.seen {
            SepState { widths: st.widths, seps: st.seps, rem: st.rem, seen: true }
        } else if st.rem >= 3 {
            SepState {
                widths: st.widths.update(j, sat_add(st.widths[j], 3)),
                seps: st.seps.update(j, true),
                rem: st.rem - 3,
                seen: true,
            }
        } else {
            st
        }
    } else {
        st
    }
}

/// Position of the `k`-th visited candidate in paint order: ascending for
/// left and center, descending for the right side.
pub open spec fn paint_pos(n: int, side: StatusSide, k: int) -> int {
    if side == StatusSide::Right { n - 1 - k } else { k }
}

/// Divider pass over the first `k` candidates in paint order.
pub open spec fn sep_scan(c: Seq<SlotAllocation>, start: SepState, side: StatusSide, k: int) -> SepState
    decreases k,
{
    if k <= 0 {
        start
    } else {
        let prev = sep_scan(c, start, side, k - 1);
        let j = paint_pos(c.len() as int, side, k - 1);
        sep_step(prev, j, c[j], side)
    }
}

/// `Rect::new(x, y, w, 1)`.
pub open spec fn row_rect(x: int, y: int, w: int) -> Rect {
    Rect {
        x: x as u16,
        y: y as u16,
        width: (sat_add(x, w) - x) as u16,
        height: (sat_add(y, 1) - y) as u16,
    }
}

/// Placements so far and the moving edge.
pub struct PlaceState {
    /// Placements.
    pub out: Seq<SlotPlacement>,
    /// Moving edge.
    pub x: int,
}

/// Left slots, packed left to right from the area's left edge.
pub open spec fn place_left(c: Seq<SlotAllocation>, w: Seq<int>, seps: Seq<bool>, area: Rect, k: int) -> PlaceState
    decreases k,
{
    if k <= 0 {
        PlaceState { out: Seq::empty(), x: area.x as int }
    } else {
        let prev = place_left(c, w, seps, area, k - 1);
        let j = k - 1;
        if c[j].side == StatusSide::Left && w[j] > 0 {
            let avail = sat_sub(area.right_spec(), prev.x);
            let width = if w[j] < avail { w[j] } else { avail };
            if width == 0 {
                prev
            } else {
                PlaceState {
                    out: prev.out.push(SlotPlacement {
                        side: StatusSide::Left,
                        index: c[j].index,
                        area: row_rect(prev.x, area.y as int, width),
                        separator: seps[j],
                    }),
                    x: sat_add(prev.x, width),
                }
            }
        } else {
            prev
        }
    }
}

/// Right slots, packed right to left from the area's right edge, never past
/// `floor`.
pub open spec fn place_right(c: Seq<SlotAllocation>, w: Seq<int>, seps: Seq<bool>, area: Rect, floor: int, k: int) -> PlaceState
    decreases k,
{
    if k <= 0 {
        PlaceState { out: Seq::empty(), x: area.right_spec() }
    } else {
        let prev = place_right(c, w, seps, area, floor, k - 1);
        let j = c.len() - k;
        if c[j].side == StatusSide::Right && w[j] > 0 {
            let s0 = sat_sub(prev.x, w[j]);
            let start = if s0 < floor { floor } else { s0 };
            if start >= prev.x {
                prev
            } else {
                PlaceState {
                    out: prev.out.push(SlotPlacement {
                        side: StatusSide::Right,
                        index: c[j].index,
                        area: row_rect(start, area.y as int, prev.x - start),
                        separator: seps[j],
                    }),
                    x: start,
                }
            }
        } else {
            prev
        }
    }
}

/// Center slots, packed left to right from `begin`, never past `end`.
pub open spec fn place_center(c: Seq<SlotAllocation>, w: Seq<int>, seps: Seq<bool>, area: Rect, begin: int, end: int, k: int) -> PlaceState
    decreases k,
{
    if k <= 0 {
        PlaceState { out: Seq::empty(), x: begin }
    } else {
        let prev = place_center(c, w, seps, area, begin, end, k - 1);
        let j = k - 1;
        if c[j].side == StatusSide::Center && w[j] > 0 {
            let avail = sat_sub(end, prev.x);
            let width = if w[j] < avail { w[j] } else { avail };
            if width == 0 {
                prev
            } else {
                PlaceState {
                    out: prev.out.push(SlotPlacement {
                        side: StatusSide::Center,
                        index: c[j].index,
                        area: row_rect(prev.x, area.y as int, width),
                        separator: seps[j],
                    }),
                    x: sat_add(prev.x, width),
                }
            }
        } else {
            prev
        }
    }
}

/// Final widths and divider flags after admission, growth and dividers.
pub open spec fn band_widths(c: Seq<SlotAllocation>, area: Rect, reserve: int) -> SepState {
    let n = c.len() as int;
    let start = BandState { widths: Seq::new(c.len(), |j: int| 0int), rem: sat_sub(area.width as int, reserve) };
    let a = band_fold(c, start, false, 0, n);
    let g = band_fold(c, a, true, 0, n);
    let s0 = SepState { widths: g.widths, seps: Seq::new(c.len(), |j: int| false), rem: g.rem, seen: false };
    let s1 = sep_scan(c, s0, StatusSide::Left, n);
    let s2 = sep_scan(c, SepState { widths: s1.widths, seps: s1.seps, rem: s1.rem, seen: false }, StatusSide::Center, n);
    sep_scan(c, SepState { widths: s2.widths, seps: s2.seps, rem: s2.rem, seen: false }, StatusSide::Right, n)
}

/// Where each candidate paints: left slots, then right slots, then center
/// slots; nothing in an empty area.
pub open spec fn layout_spec(c: Seq<SlotAllocation>, area: Rect, reserve: int) -> Seq<SlotPlacement> {
    if area.width == 0 || area.height == 0 {
        Seq::empty()
    } else {
        let n = c.len() as int;
        let s = band_widths(c, area, reserve);
        let l = place_left(c, s.widths, s.seps, area, n);
        let r = place_right(c, s.widths, s.seps, area, l.x, n);
        let m = if r.x > l.x {
            place_center(c, s.widths, s.seps, area, l.x, r.x, n).out
        } else {
            Seq::empty()
        };
        l.out + r.out + m
    }
}

/// Widths as integers.
pub open spec fn ints(s: Seq<u16>) -> Seq<int> {
    s.map_values(|x: u16| x as int)
}

/// One admission or growth pass over `c`, priority descending, then
/// position ascending.
fn band_pass(c: &Vec<SlotAllocation>, widths: Vec<u16>, rem: u16, grow: bool) -> (r: (Vec<u16>, u16))
    requires
        widths.len() == c.len(),
    ensures
        ints(r.0@) == band_fold(c@, BandState { widths: ints(widths@), rem: rem as int }, grow, 0, c.len() as int).widths,
        r.1 as int == band_fold(c@, BandState { widths: ints(widths@), rem: rem as int }, grow, 0, c.len() as int).rem,
        r.0.len() == c.len(),
{
    let n = c.len();
    let ghost start = BandState { widths: ints(widths@), rem: rem as int };
    let mut ws = widths;
    let mut left = rem;
    let mut level: u16 = 256;
    while level > 0
        invariant
            n == c.len(),
            ws.len() == n,
            level <= 256,
            ints(ws@) == band_fold(c@, start, grow, level as int, n as int).widths,
            left as int == band_fold(c@, start, grow, level as int, n as int).rem,
        decreases level,
    {
        let p: u16 = level - 1;
        assert(band_fold(c@, start, grow, p as int, 0) == band_fold(c@, start, grow, level as int, n as int));
        let mut i: usize = 0;
        while i < n
            invariant
                n == c.len(),
                ws.len() == n,
                p < 256,
                i <= n,
                ints(ws@) == band_fold(c@, start, grow, p as int, i as int).widths,
                left as int == band_fold(c@, start, grow, p as int, i as int).rem,
            decreases n - i,
        {
            let cand = c[i];
            let ghost before = ints(ws@);
            if cand.priority as u16 == p {
                if grow {
                    let w = ws[i];
                    if w > 0 {
                        let room = cand.full_width.saturating_sub(w);
                        let g = if room < left { room } else { left };
                        ws.set(i, w + g);
                        left = left - g;
                        assert(ints(ws@) =~= before.update(i as int, (w + g) as int));
                    }
                } else {
                    let m: u16 = if cand.width == 0 { cand.full_width } else { cand.width };
                    if m == 0 {
                    } else if m > left {
                        if cand.essential && left > 0 {
                            let w = if left < cand.full_width { left } else { cand.full_width };
                            let w2: u16 = if w < 1 { 1 } else { w };
                            ws.set(i, w2);
                            left = 0;
                            assert(ints(ws@) =~= before.update(i as int, w2 as int));
                        }
                    } else {
                        ws.set(i, m);
                        left = left - m;
                        assert(ints(ws@) =~= before.update(i as int, m as int));
                    }
                }
            }
            i = i + 1;
        }
        level = p;
    }
    (ws, left)
}


/// Divider pass over one side, in paint order.
fn sep_pass(c: &Vec<SlotAllocation>, widths: Vec<u16>, seps: Vec<bool>, rem: u16, side: StatusSide) -> (r: (Vec<u16>, Vec<bool>, u16))
    requires
        widths.len() == c.len(),
        seps.len() == c.len(),
    ensures
        ({
            let f = sep_scan(c@, SepState { widths: ints(widths@), seps: seps@, rem: rem as int, seen: false }, side, c.len() as int);
            ints(r.0@) == f.widths && r.1@ == f.seps && r.2 as int == f.rem
        }),
        r.0.len() == c.len(),
        r.1.len() == c.len(),
{
    let n = c.len();
    let ghost start = SepState { widths: ints(widths@), seps: seps@, rem: rem as int, seen: false };
    let mut ws = widths;
    let mut ss = seps;
    let mut left = rem;
    let mut seen = false;
    let mut k: usize = 0;
    while k < n
        invariant
            n == c.len(),
            ws.len() == n,
            ss.len() == n,
            k <= n,
            ({
                let f = sep_scan(c@, start, side, k as int);
                ints(ws@) == f.widths && ss@ == f.seps && left as int == f.rem && seen == f.seen
            }),
        decreases n - k,
    {
        let j: usize = match side {
            StatusSide::Right => n - 1 - k,
            _ => k,
        };
        let cand = c[j];
        let ghost before = ints(ws@);
        if cand.side == side && ws[j] > 0 {
            if !seen {
                seen = true;
            } else if left >= 3 {
                let w = ws[j];
                ws.set(j, w.saturating_add(3));
                ss.set(j, true);
                left = left - 3;
                assert(ints(ws@) =~= before.update(j as int, sat_add(w as int, 3)));
            }
        }
        k = k + 1;
    }
    (ws, ss, left)
}

/// Left slots, packed left to right.
fn left_pass(c: &Vec<SlotAllocation>, w: &Vec<u16>, seps: &Vec<bool>, area: Rect) -> (r: (Vec<SlotPlacement>, u16))
    requires
        w.len() == c.len(),
        seps.len() == c.len(),
    ensures
        r.0@ == place_left(c@, ints(w@), seps@, area, c.len() as int).out,
        r.1 as int == place_left(c@, ints(w@), seps@, area, c.len() as int).x,
{
    let n = c.len();
    let mut out: Vec<SlotPlacement> = Vec::new();
    let mut x = area.x;
    let right = area.right();
    let mut k: usize = 0;
    while k < n
        invariant
            n == c.len(),
            w.len() == n,
            seps.len() == n,
            k <= n,
            right as int == area.right_spec(),
            out@ == place_left(c@, ints(w@), seps@, area, k as int).out,
            x as int == place_left(c@, ints(w@), seps@, area, k as int).x,
        decreases n - k,
    {
        let cand = c[k];
        let wk = w[k];
        if cand.side == StatusSide::Left && wk > 0 {
            let avail = right.saturating_sub(x);
            let width = if wk < avail { wk } else { avail };
            if width > 0 {
                out.push(SlotPlacement {
                    side: StatusSide::Left,
                    index: cand.index,
                    area: Rect::new(x, area.y, width, 1),
                    separator: seps[k],
                });
                x = x.saturating_add(width);
            }
        }
        k = k + 1;
    }
    (out, x)
}

/// Right slots, packed right to left, never past `floor`.
fn right_pass(c: &Vec<SlotAllocation>, w: &Vec<u16>, seps: &Vec<bool>, area: Rect, floor: u16) -> (r: (Vec<SlotPlacement>, u16))
    requires
        w.len() == c.len(),
        seps.len() == c.len(),
    ensures
        r.0@ == place_right(c@, ints(w@), seps@, area, floor as int, c.len() as int).out,
        r.1 as int == place_right(c@, ints(w@), seps@, area, floor as int, c.len() as int).x,
{
    let n = c.len();
    let mut out: Vec<SlotPlacement> = Vec::new();
    let mut x = area.right();
    let mut k: usize = 0;
    while k < n
        invariant
            n == c.len(),
            w.len() == n,
            seps.len() == n,
            k <= n,
            out@ == place_right(c@, ints(w@), seps@, area, floor as int, k as int).out,
            x as int == place_right(c@, ints(w@), seps@, area, floor as int, k as int).x,
        decreases n - k,
    {
        let j = n - 1 - k;
        let cand = c[j];
        let wj = w[j];
        if cand.side == StatusSide::Right && wj > 0 {
            let s0 = x.saturating_sub(wj);
            let start = if s0 < floor { floor } else { s0 };
            if start < x {
                out.push(SlotPlacement {
                    side: StatusSide::Right,
                    index: cand.index,
                    area: Rect::new(start, area.y, x - start, 1),
                    separator: seps[j],
                });
                x = start;
            }
        }
        k = k + 1;
    }
    (out, x)
}

/// Center slots, packed left to right between `begin` and `end`.
fn center_pass(c: &Vec<SlotAllocation>, w: &Vec<u16>, seps: &Vec<bool>, area: Rect, begin: u16, end: u16) -> (r: Vec<SlotPlacement>)
    requires
        w.len() == c.len(),
        seps.len() == c.len(),
    ensures
        r@ == place_center(c@, ints(w@), seps@, area, begin as int, end as int, c.len() as int).out,
{
    let n = c.len();
    let mut out: Vec<SlotPlacement> = Vec::new();
    let mut x = begin;
    let mut k: usize = 0;
    while k < n
        invariant
            n == c.len(),
            w.len() == n,
            seps.len() == n,
            k <= n,
            out@ == place_center(c@, ints(w@), seps@, area, begin as int, end as int, k as int).out,
            x as int == place_center(c@, ints(w@), seps@, area, begin as int, end as int, k as int).x,
        decreases n - k,
    {
        let cand = c[k];
        let wk = w[k];
        if cand.side == StatusSide::Center && wk > 0 {
            let avail = end.saturating_sub(x);
            let width = if wk < avail { wk } else { avail };
            if width > 0 {
                out.push(SlotPlacement {
                    side: StatusSide::Center,
                    index: cand.index,
                    area: Rect::new(x, area.y, width, 1),
                    separator: seps[k],
                });
                x = x.saturating_add(width);
            }
        }
        k = k + 1;
    }
    out
}

/// Lays measured slots out in a one-row area.
///
/// `reserve` columns are held back for a transient message. Candidates are
/// admitted by priority (highest first, ties by position), essential ones
/// keep a sliver, admitted ones grow toward their full width, and every
/// same-side slot after the first gets a three-column divider while columns
/// remain. Left slots pack from the left edge, right slots from the right
/// edge, center slots fill the gap between them.
pub fn layout_slots(area: Rect, candidates: &Vec<SlotAllocation>, reserve: u16) -> (out: Vec<SlotPlacement>)
    ensures
        out@ == layout_spec(candidates@, area, reserve as int),
{
    if area.is_empty() {
        return Vec::new();
    }
    let n = candidates.len();
    let mut zeros: Vec<u16> = Vec::new();
    let mut falses: Vec<bool> = Vec::new();
    let mut k: usize = 0;
    while k < n
        invariant
            k <= n,
            zeros.len() == k,
            falses.len() == k,
            forall|j: int| 0 <= j < k ==> zeros@[j] == 0 && !falses@[j],
        decreases n - k,
    {
        zeros.push(0);
        falses.push(false);
        k = k + 1;
    }
    let budget = area.width.saturating_sub(reserve);
    let ghost c = candidates@;
    assert(ints(zeros@) =~= Seq::new(c.len(), |j: int| 0int));
    assert(falses@ =~= Seq::new(c.len(), |j: int| false));
    let (a, rem_a) = band_pass(candidates, zeros, budget, false);
    let (g, rem_g) = band_pass(candidates, a, rem_a, true);
    let (w1, s1, r1) = sep_pass(candidates, g, falses, rem_g, StatusSide::Left);
    let (w2, s2, r2) = sep_pass(candidates, w1, s1, r1, StatusSide::Center);
    let (w3, s3, _r3) = sep_pass(candidates, w2, s2, r2, StatusSide::Right);
    let (mut out, left_x) = left_pass(candidates, &w3, &s3, area);
    let (mut right_out, right_x) = right_pass(candidates, &w3, &s3, area, left_x);
    out.append(&mut right_out);
    if right_x > left_x {
        let mut center_out = center_pass(candidates, &w3, &s3, area, left_x, right_x);
        out.append(&mut center_out);
    }
    out
}


proof fn lemma_place_left_from(c: Seq<SlotAllocation>, w: Seq<int>, seps: Seq<bool>, area: Rect, k: int)
    requires
        0 <= k <= c.len(),
    ensures
        forall|q: int| #![trigger place_left(c, w, seps, area, k).out[q]]
            0 <= q < place_left(c, w, seps, area, k).out.len() ==> exists|j: int|
            0 <= j < c.len() && c[j].side == place_left(c, w, seps, area, k).out[q].side
                && c[j].index == place_left(c, w, seps, area, k).out[q].index,
    decreases k,
{
    if k > 0 {
        lemma_place_left_from(c, w, seps, area, k - 1);
        let prev = place_left(c, w, seps, area, k - 1);
        let cur = place_left(c, w, seps, area, k);
        assert forall|q: int| #![trigger cur.out[q]] 0 <= q < cur.out.len() implies exists|j: int|
            0 <= j < c.len() && #[trigger] c[j].side == cur.out[q].side && c[j].index == cur.out[q].index by {
            if q < prev.out.len() {
                assert(cur.out[q] == prev.out[q]);
                let j = choose|j: int| 0 <= j < c.len() && #[trigger] c[j].side == prev.out[q].side && c[j].index == prev.out[q].index;
                assert(c[j].side == cur.out[q].side);
            } else {
                assert(c[k - 1].side == cur.out[q].side);
            }
        }
    }
}

proof fn lemma_place_right_from(c: Seq<SlotAllocation>, w: Seq<int>, seps: Seq<bool>, area: Rect, floor: int, k: int)
    requires
        0 <= k <= c.len(),
    ensures
        forall|q: int| #![trigger place_right(c, w, seps, area, floor, k).out[q]]
            0 <= q < place_right(c, w, seps, area, floor, k).out.len() ==> exists|j: int|
            0 <= j < c.len() && c[j].side == place_right(c, w, seps, area, floor, k).out[q].side
                && c[j].index == place_right(c, w, seps, area, floor, k).out[q].index,
    decreases k,
{
    if k > 0 {
        lemma_place_right_from(c, w, seps, area, floor, k - 1);
        let prev = place_right(c, w, seps, area, floor, k - 1);
        let cur = place_right(c, w, seps, area, floor, k);
        assert forall|q: int| #![trigger cur.out[q]] 0 <= q < cur.out.len() implies exists|j: int|
            0 <= j < c.len() && #[trigger] c[j].side == cur.out[q].side && c[j].index == cur.out[q].index by {
            if q < prev.out.len() {
                assert(cur.out[q] == prev.out[q]);
                let j = choose|j: int| 0 <= j < c.len() && #[trigger] c[j].side == prev.out[q].side && c[j].index == prev.out[q].index;
                assert(c[j].side == cur.out[q].side);
            } else {
                assert(c[c.len() - k].side == cur.out[q].side);
            }
        }
    }
}

proof fn lemma_place_center_from(c: Seq<SlotAllocation>, w: Seq<int>, seps: Seq<bool>, area: Rect, b: int, e: int, k: int)
    requires
        0 <= k <= c.len(),
    ensures
        forall|q: int| #![trigger place_center(c, w, seps, area, b, e, k).out[q]]
            0 <= q < place_center(c, w, seps, area, b, e, k).out.len() ==> exists|j: int|
            0 <= j < c.len() && c[j].side == place_center(c, w, seps, area, b, e, k).out[q].side
                && c[j].index == place_center(c, w, seps, area, b, e, k).out[q].index,
    decreases k,
{
    if k > 0 {
        lemma_place_center_from(c, w, seps, area, b, e, k - 1);
        let prev = place_center(c, w, seps, area, b, e, k - 1);
        let cur = place_center(c, w, seps, area, b, e, k);
        assert forall|q: int| #![trigger cur.out[q]] 0 <= q < cur.out.len() implies exists|j: int|
            0 <= j < c.len() && #[trigger] c[j].side == cur.out[q].side && c[j].index == cur.out[q].index by {
            if q < prev.out.len() {
                assert(cur.out[q] == prev.out[q]);
                let j = choose|j: int| 0 <= j < c.len() && #[trigger] c[j].side == prev.out[q].side && c[j].index == prev.out[q].index;
                assert(c[j].side == cur.out[q].side);
            } else {
                assert(c[k - 1].side == cur.out[q].side);
            }
        }
    }
}

/// Every placement comes from a candidate: same side, same index.
proof fn lemma_layout_from_candidates(c: Seq<SlotAllocation>, area: Rect, reserve: int)
    ensures
        forall|q: int| #![trigger layout_spec(c, area, reserve)[q]]
            0 <= q < layout_spec(c, area, reserve).len() ==> exists|j: int|
            0 <= j < c.len() && c[j].side == layout_spec(c, area, reserve)[q].side
                && c[j].index == layout_spec(c, area, reserve)[q].index,
{
    if area.width != 0 && area.height != 0 {
        let n = c.len() as int;
        let s = band_widths(c, area, reserve);
        let l = place_left(c, s.widths, s.seps, area, n);
        let r = place_right(c, s.widths, s.seps, area, l.x, n);
        lemma_place_left_from(c, s.widths, s.seps, area, n);
        lemma_place_right_from(c, s.widths, s.seps, area, l.x, n);
        lemma_place_center_from(c, s.widths, s.seps, area, l.x, r.x, n);
        let m = if r.x > l.x {
            place_center(c, s.widths, s.seps, area, l.x, r.x, n).out
        } else {
            Seq::empty()
        };
        let all = l.out + r.out + m;
        assert forall|q: int| #![trigger all[q]] 0 <= q < all.len() implies exists|j: int|
            0 <= j < c.len() && #[trigger] c[j].side == all[q].side && c[j].index == all[q].index by {
            if q < l.out.len() {
                assert(all[q] == l.out[q]);
            } else if q < l.out.len() + r.out.len() {
                assert(all[q] == r.out[q - l.out.len()]);
            } else {
                assert(all[q] == m[q - l.out.len() - r.out.len()]);
            }
        }
    }
}

/// Full width clamped to the `u16` range, as `u16::try_from` with a
/// saturating fallback gives it.
pub open spec fn clamp_cols(n: nat) -> int {
    if n > u16::MAX { u16::MAX as int } else { n as int }
}

/// Whether a slot survives the recipe filter.
pub open spec fn kind_ok_spec<Id>(slot: StatusSlot<Id>, recipe: StatusBarRecipe) -> bool {
    slot.kind.allowed_in_spec(recipe) || (recipe == StatusBarRecipe::Minimal
        && slot.kind == StatusKind::Text && slot.priority >= 80)
}

/// Measurement of one slot: none when disabled, filtered out by the recipe,
/// or zero columns wide.
pub open spec fn allocation_spec<Id>(slot: StatusSlot<Id>, side: StatusSide, index: int, recipe: StatusBarRecipe, glyphs: GlyphSet) -> Option<SlotAllocation> {
    let full = clamp_cols(str_width(slot.painted_spec(glyphs)));
    if !slot.enabled || !kind_ok_spec(slot, recipe) || full == 0 {
        None
    } else {
        Some(SlotAllocation {
            side,
            index: index as usize,
            width: if slot.min_width < full { slot.min_width } else { full as u16 },
            full_width: full as u16,
            priority: slot.priority,
            essential: slot.priority >= 80 || slot.kind == StatusKind::Mode
                || slot.kind == StatusKind::Connection || slot.kind == StatusKind::FocusZone,
        })
    }
}

/// Measures one slot.
fn allocation<Id>(slot: &StatusSlot<'_, Id>, side: StatusSide, index: usize, recipe: StatusBarRecipe, glyphs: GlyphSet) -> (r: Option<SlotAllocation>)
    ensures
        r == allocation_spec(*slot, side, index as int, recipe, glyphs),
{
    if !slot.enabled {
        return None;
    }
    let kind_ok = slot.kind.allowed_in(recipe) || (recipe == StatusBarRecipe::Minimal
        && slot.kind == StatusKind::Text && slot.priority >= 80);
    if !kind_ok {
        return None;
    }
    let painted = slot.painted(glyphs);
    let cols = display_cols(painted.as_str());
    let full: u16 = if cols > 65535 { 65535 } else { cols as u16 };
    if full == 0 {
        return None;
    }
    let essential = slot.priority >= 80 || slot.kind == StatusKind::Mode
        || slot.kind == StatusKind::Connection || slot.kind == StatusKind::FocusZone;
    Some(SlotAllocation {
        side,
        index,
        width: if slot.min_width < full { slot.min_width } else { full },
        full_width: full,
        priority: slot.priority,
        essential,
    })
}

/// Measurements of `slots[..k]` on one side, in order, skipping slots that
/// do not take part.
pub open spec fn side_candidates<Id>(slots: Seq<StatusSlot<Id>>, side: StatusSide, recipe: StatusBarRecipe, glyphs: GlyphSet, k: int) -> Seq<SlotAllocation>
    decreases k,
{
    if k <= 0 {
        Seq::empty()
    } else {
        let prev = side_candidates(slots, side, recipe, glyphs, k - 1);
        match allocation_spec(slots[k - 1], side, k - 1, recipe, glyphs) {
            Some(a) => prev.push(a),
            None => prev,
        }
    }
}

proof fn lemma_side_candidates<Id>(slots: Seq<StatusSlot<Id>>, side: StatusSide, recipe: StatusBarRecipe, glyphs: GlyphSet, k: int)
    requires
        0 <= k <= slots.len(),
        slots.len() <= usize::MAX,
    ensures
        forall|j: int| #![trigger side_candidates(slots, side, recipe, glyphs, k)[j]]
            0 <= j < side_candidates(slots, side, recipe, glyphs, k).len() ==>
            side_candidates(slots, side, recipe, glyphs, k)[j].side == side
            && (side_candidates(slots, side, recipe, glyphs, k)[j].index as int) < k
            && slots[side_candidates(slots, side, recipe, glyphs, k)[j].index as int].enabled,
    decreases k,
{
    if k > 0 {
        lemma_side_candidates(slots, side, recipe, glyphs, k - 1);
        let prev = side_candidates(slots, side, recipe, glyphs, k - 1);
        let cur = side_candidates(slots, side, recipe, glyphs, k);
        if let Some(a) = allocation_spec(slots[k - 1], side, k - 1, recipe, glyphs) {
            assert(cur == prev.push(a));
            assert(a.index as int == k - 1);
            assert(slots[k - 1].enabled);
            assert forall|j: int| 0 <= j < cur.len() implies slots[#[trigger] cur[j].index as int].enabled by {
                if j < prev.len() {
                    assert(cur[j] == prev[j]);
                }
            }
        }
    }
}

/// A one-row collection of prioritized status slots.
#[derive(Debug, Clone, Copy)]
pub struct StatusBar<'a, Id> {
    /// Left slots.
    pub left: &'a [StatusSlot<'a, Id>],
    /// Center slots.
    pub center: &'a [StatusSlot<'a, Id>],
    /// Right slots.
    pub right: &'a [StatusSlot<'a, Id>],
    /// Design system.
    pub system: &'a DesignSystem,
    /// Recipe filter.
    pub recipe: StatusBarRecipe,
    /// Frame-local transient message (wins over the state's message).
    pub transient: Option<&'a TransientStatus<'a>>,
}

impl<'a, Id> StatusBar<'a, Id> {
    /// A bar over left and right slots (center empty), compact recipe.
    pub fn new(left: &'a [StatusSlot<'a, Id>], right: &'a [StatusSlot<'a, Id>], system: &'a DesignSystem) -> (b: Self)
        ensures
            b.left@ == left@,
            b.center@.len() == 0,
            b.right@ == right@,
            b.system == system,
            b.recipe == StatusBarRecipe::Compact,
            b.transient.is_none(),
    {
        StatusBar { left, center: &[], right, system, recipe: StatusBarRecipe::Compact, transient: None }
    }

    /// A bar over left, center and right slots, compact recipe.
    pub fn with_center(
        left: &'a [StatusSlot<'a, Id>],
        center: &'a [StatusSlot<'a, Id>],
        right: &'a [StatusSlot<'a, Id>],
        system: &'a DesignSystem,
    ) -> (b: Self)
        ensures
            b.left@ == left@,
            b.center@ == center@,
            b.right@ == right@,
            b.system == system,
            b.recipe == StatusBarRecipe::Compact,
            b.transient.is_none(),
    {
        StatusBar { left, center, right, system, recipe: StatusBarRecipe::Compact, transient: None }
    }

    /// Sets the recipe.
    pub fn recipe(self, recipe: StatusBarRecipe) -> (b: Self)
        ensures
            b == (StatusBar { recipe, ..self }),
    {
        StatusBar { recipe, ..self }
    }

    /// Minimal recipe.
    pub fn minimal(self) -> (b: Self)
        ensures
            b == (StatusBar { recipe: StatusBarRecipe::Minimal, ..self }),
    {
        StatusBar { recipe: StatusBarRecipe::Minimal, ..self }
    }

    /// Rich recipe.
    pub fn rich(self) -> (b: Self)
        ensures
            b == (StatusBar { recipe: StatusBarRecipe::Rich, ..self }),
    {
        StatusBar { recipe: StatusBarRecipe::Rich, ..self }
    }

    /// Compact recipe.
    pub fn compact(self) -> (b: Self)
        ensures
            b == (StatusBar { recipe: StatusBarRecipe::Compact, ..self }),
    {
        StatusBar { recipe: StatusBarRecipe::Compact, ..self }
    }

    /// Frame-local transient message.
    pub fn transient(self, message: &'a TransientStatus<'a>) -> (b: Self)
        ensures
            b == (StatusBar { transient: Some(message), ..self }),
    {
        StatusBar { transient: Some(message), ..self }
    }

    /// Measured slots in band order: left, center, right.
    pub open spec fn candidates_spec(self) -> Seq<SlotAllocation> {
        let g = self.system.glyphs;
        side_candidates(self.left@, StatusSide::Left, self.recipe, g, self.left@.len() as int)
            + side_candidates(self.center@, StatusSide::Center, self.recipe, g, self.center@.len() as int)
            + side_candidates(self.right@, StatusSide::Right, self.recipe, g, self.right@.len() as int)
    }

    /// The message shown this frame: the bar's own, else the state's.
    pub open spec fn transient_text_spec(self, state_transient: Option<Seq<char>>) -> Option<Seq<char>> {
        match self.transient {
            Some(t) => Some(t.text@),
            None => state_transient,
        }
    }

    /// Columns held back for the transient message.
    pub open spec fn reserve_spec(self, area: Rect, state_transient: Option<Seq<char>>) -> int {
        match self.transient_text_spec(state_transient) {
            Some(text) => if text.len() == 0 {
                0
            } else {
                let g: Seq<char> = match self.transient {
                    Some(t) => match t.glyph { Some(g) => g@, None => Seq::empty() },
                    None => Seq::empty(),
                };
                let gw = if g.len() == 0 { 0 } else { sat_add((str_width(g) as u16) as int, 1) };
                let w = sat_add(sat_add((str_width(text) as u16) as int, gw), 2);
                let half = area.width as int / 2;
                let lo = if area.width < 4 { area.width as int } else { 4 };
                let capped = if w < half { w } else { half };
                if capped < lo { lo } else { capped }
            },
            None => 0,
        }
    }

    /// Identity of the slot at `(side, index)`.
    pub open spec fn slot_id_spec(self, side: StatusSide, index: int) -> Id {
        match side {
            StatusSide::Left => self.left@[index].id,
            StatusSide::Center => self.center@[index].id,
            StatusSide::Right => self.right@[index].id,
        }
    }

    /// Hit regions for a layout, one per placement, in placement order.
    pub open spec fn regions_for(self, pl: Seq<SlotPlacement>) -> Seq<HitRegion<Id>> {
        Seq::new(pl.len(), |q: int| HitRegion { id: self.slot_id_spec(pl[q].side, pl[q].index as int), area: pl[q].area })
    }
}

fn side_allocations<Id>(slots: &[StatusSlot<'_, Id>], side: StatusSide, recipe: StatusBarRecipe, glyphs: GlyphSet, out: &mut Vec<SlotAllocation>)
    ensures
        final(out)@ == old(out)@ + side_candidates(slots@, side, recipe, glyphs, slots@.len() as int),
{
    let ghost base = out@;
    let mut k: usize = 0;
    while k < slots.len()
        invariant
            k <= slots@.len(),
            out@ == base + side_candidates(slots@, side, recipe, glyphs, k as int),
        decreases slots@.len() - k,
    {
        match allocation(&slots[k], side, k, recipe, glyphs) {
            Some(a) => {
                out.push(a);
                assert(out@ =~= base + side_candidates(slots@, side, recipe, glyphs, k as int + 1));
            },
            None => {},
        }
        k = k + 1;
    }
}

impl<'a, Id: Copy> StatusBar<'a, Id> {
    /// Measured slots in band order.
    pub fn candidates(&self) -> (c: Vec<SlotAllocation>)
        ensures
            c@ == self.candidates_spec(),
    {
        let mut c: Vec<SlotAllocation> = Vec::new();
        let g = self.system.glyphs;
        side_allocations(self.left, StatusSide::Left, self.recipe, g, &mut c);
        side_allocations(self.center, StatusSide::Center, self.recipe, g, &mut c);
        side_allocations(self.right, StatusSide::Right, self.recipe, g, &mut c);
        assert(c@ =~= self.candidates_spec());
        c
    }

    /// Columns held back for the transient message, given the state's message.
    pub fn transient_reserve(&self, area: Rect, state_transient: Option<&str>) -> (r: u16)
        ensures
            r == self.reserve_spec(area, match state_transient { Some(t) => Some(t@), None => None }),
    {
        let text: &str = match self.transient {
            Some(t) => t.text,
            None => match state_transient {
                Some(t) => t,
                None => return 0,
            },
        };
        if text.unicode_len() == 0 {
            return 0;
        }
        proof {
            reveal_strlit("");
        }
        let g: &str = match self.transient {
            Some(t) => match t.glyph { Some(g) => g, None => "" },
            None => "",
        };
        let gw: u16 = if g.unicode_len() == 0 { 0 } else { (display_cols(g) as u16).saturating_add(1) };
        let w = (display_cols(text) as u16).saturating_add(gw).saturating_add(2);
        let half = area.width / 2;
        let lo = if area.width < 4 { area.width } else { 4 };
        let capped = if w < half { w } else { half };
        if capped < lo { lo } else { capped }
    }

    fn regions_of(&self, pl: &Vec<SlotPlacement>) -> (r: Vec<HitRegion<Id>>)
        requires
            forall|q: int| 0 <= q < pl@.len() ==> match #[trigger] pl@[q].side {
                StatusSide::Left => (pl@[q].index as int) < self.left@.len(),
                StatusSide::Center => (pl@[q].index as int) < self.center@.len(),
                StatusSide::Right => (pl@[q].index as int) < self.right@.len(),
            },
        ensures
            r@ == self.regions_for(pl@),
    {
        let mut out: Vec<HitRegion<Id>> = Vec::new();
        let mut q: usize = 0;
        while q < pl.len()
            invariant
                q <= pl@.len(),
                forall|q: int| 0 <= q < pl@.len() ==> match #[trigger] pl@[q].side {
                    StatusSide::Left => (pl@[q].index as int) < self.left@.len(),
                    StatusSide::Center => (pl@[q].index as int) < self.center@.len(),
                    StatusSide::Right => (pl@[q].index as int) < self.right@.len(),
                },
                out@ == self.regions_for(pl@).subrange(0, q as int),
            decreases pl@.len() - q,
        {
            let p = pl[q];
            let id = match p.side {
                StatusSide::Left => self.left[p.index].id,
                StatusSide::Center => self.center[p.index].id,
                StatusSide::Right => self.right[p.index].id,
            };
            out.push(HitRegion { id, area: p.area });
            assert(out@ =~= self.regions_for(pl@).subrange(0, q as int + 1));
            q = q + 1;
        }
        assert(out@ =~= self.regions_for(pl@));
        out
    }

    /// Hit regions of the layout in `area`, given the state's transient
    /// message: one per painted slot, left slots first, then right, then
    /// center.
    pub fn regions_with(&self, area: Rect, state_transient: Option<&str>) -> (r: Vec<HitRegion<Id>>)
        ensures
            r@ == self.regions_for(layout_spec(
                self.candidates_spec(),
                area,
                self.reserve_spec(area, match state_transient { Some(t) => Some(t@), None => None }),
            )),
    {
        let c = self.candidates();
        let reserve = self.transient_reserve(area, state_transient);
        let pl = layout_slots(area, &c, reserve);
        proof {
            let g = self.system.glyphs;
            assert(self.left@.len() == self.left.len());
            assert(self.center@.len() == self.center.len());
            assert(self.right@.len() == self.right.len());
            let cl = side_candidates(self.left@, StatusSide::Left, self.recipe, g, self.left@.len() as int);
            let cc = side_candidates(self.center@, StatusSide::Center, self.recipe, g, self.center@.len() as int);
            let cr = side_candidates(self.right@, StatusSide::Right, self.recipe, g, self.right@.len() as int);
            lemma_side_candidates(self.left@, StatusSide::Left, self.recipe, g, self.left@.len() as int);
            lemma_side_candidates(self.center@, StatusSide::Center, self.recipe, g, self.center@.len() as int);
            lemma_side_candidates(self.right@, StatusSide::Right, self.recipe, g, self.right@.len() as int);
            lemma_layout_from_candidates(c@, area, reserve as int);
            assert forall|j: int| 0 <= j < c@.len() implies match #[trigger] c@[j].side {
                StatusSide::Left => (c@[j].index as int) < self.left@.len(),
                StatusSide::Center => (c@[j].index as int) < self.center@.len(),
                StatusSide::Right => (c@[j].index as int) < self.right@.len(),
            } by {
                if j < cl.len() {
                    assert(c@[j] == cl[j]);
                } else if j < cl.len() + cc.len() {
                    assert(c@[j] == cc[j - cl.len()]);
                } else {
                    assert(c@[j] == cr[j - cl.len() - cc.len()]);
                }
            }
            assert forall|q: int| 0 <= q < pl@.len() implies match #[trigger] pl@[q].side {
                StatusSide::Left => (pl@[q].index as int) < self.left@.len(),
                StatusSide::Center => (pl@[q].index as int) < self.center@.len(),
                StatusSide::Right => (pl@[q].index as int) < self.right@.len(),
            } by {
                let j = choose|j: int| 0 <= j < c@.len() && c@[j].side == pl@[q].side && c@[j].index == pl@[q].index;
                assert(match c@[j].side {
                    StatusSide::Left => (c@[j].index as int) < self.left@.len(),
                    StatusSide::Center => (c@[j].index as int) < self.center@.len(),
                    StatusSide::Right => (c@[j].index as int) < self.right@.len(),
                });
            }
        }
        self.regions_of(&pl)
    }

    /// Hit regions of the layout in `area` (no state message).
    pub fn regions(&self, area: Rect) -> (r: Vec<HitRegion<Id>>)
        ensures
            r@ == self.regions_for(layout_spec(self.candidates_spec(), area, self.reserve_spec(area, None))),
    {
        self.regions_with(area, None)
    }
}


/// Runtime state of a status bar.
#[derive(Debug, Clone, PartialEq, Eq)]
pub struct StatusBarState<Id> {
    /// Slot under the pointer.
    pub hovered: Option<Id>,
    /// Hit regions of the most recent layout.
    pub regions: Vec<HitRegion<Id>>,
    /// Transient message (painted at the right edge, no hit region).
    pub transient: Option<String>,
    previous_mode: Option<String>,
    mode_changed_at_ms: u64,
    transient_set_at_ms: Option<u64>,
    /// Lifetime of a timed status sentence.
    pub transient_ttl_ms: u64,
}

/// Mathematical model of the status-bar state.
pub struct StatusBarModel<Id> {
    /// Slot under the pointer.
    pub hovered: Option<Id>,
    /// Hit regions.
    pub regions: Seq<HitRegion<Id>>,
    /// Transient message.
    pub transient: Option<Seq<char>>,
    /// Mode label the bar is leaving.
    pub previous_mode: Option<Seq<char>>,
    /// When the mode changed.
    pub mode_changed_at_ms: u64,
    /// When the timed message was set.
    pub transient_set_at_ms: Option<u64>,
    /// Lifetime of a timed message.
    pub transient_ttl_ms: u64,
}

/// The chars of an optional string.
pub open spec fn opt_chars(s: Option<String>) -> Option<Seq<char>> {
    match s {
        Some(t) => Some(t@),
        None => None,
    }
}

/// The chars of an optional string slice.
pub open spec fn opt_str_chars(s: Option<&str>) -> Option<Seq<char>> {
    match s {
        Some(t) => Some(t@),
        None => None,
    }
}

/// First region (in order, from `i`) that contains `p`.
pub open spec fn hit_from<Id>(rs: Seq<HitRegion<Id>>, p: Position, i: int) -> Option<Id>
    decreases rs.len() - i,
{
    if i < 0 || i >= rs.len() {
        None
    } else if rs[i].area.contains_spec(p) {
        Some(rs[i].id)
    } else {
        hit_from(rs, p, i + 1)
    }
}

impl<Id> View for StatusBarState<Id> {
    type V = StatusBarModel<Id>;

    closed spec fn view(&self) -> StatusBarModel<Id> {
        StatusBarModel {
            hovered: self.hovered,
            regions: self.regions@,
            transient: opt_chars(self.transient),
            previous_mode: opt_chars(self.previous_mode),
            mode_changed_at_ms: self.mode_changed_at_ms,
            transient_set_at_ms: self.transient_set_at_ms,
            transient_ttl_ms: self.transient_ttl_ms,
        }
    }
}

fn opt_string(s: Option<&str>) -> (r: Option<String>)
    ensures
        opt_chars(r) == opt_str_chars(s),
{
    match s {
        Some(t) => Some(String::from_str(t)),
        None => None,
    }
}

impl<Id> StatusBarState<Id> {
    /// The public fields agree with the model.
    pub closed spec fn fields_match(&self) -> bool {
        &&& self@.hovered == self.hovered
        &&& self@.regions == self.regions@
        &&& self@.transient == opt_chars(self.transient)
        &&& self@.transient_ttl_ms == self.transient_ttl_ms
    }

    /// Empty state: no hover, no regions, no message, default lifetime.
    pub fn new() -> (s: Self)
        ensures
            s@.hovered.is_none(),
            s@.regions.len() == 0,
            s@.transient.is_none(),
            s@.previous_mode.is_none(),
            s@.mode_changed_at_ms == 0,
            s@.transient_set_at_ms.is_none(),
            s@.transient_ttl_ms == STATUS_DEFAULT_TTL_MS,
            s.fields_match(),
    {
        StatusBarState {
            hovered: None,
            regions: Vec::new(),
            transient: None,
            previous_mode: None,
            mode_changed_at_ms: 0,
            transient_set_at_ms: None,
            transient_ttl_ms: STATUS_DEFAULT_TTL_MS,
        }
    }

    /// The mode label the bar is leaving, if any.
    pub fn previous_mode(&self) -> (m: Option<&str>)
        ensures
            opt_str_chars(m) == self@.previous_mode,
    {
        match &self.previous_mode {
            Some(s) => Some(s.as_str()),
            None => None,
        }
    }

    /// When the mode last changed.
    pub fn mode_changed_at_ms(&self) -> (t: u64)
        ensures
            t == self@.mode_changed_at_ms,
    {
        self.mode_changed_at_ms
    }

    /// Records a mode change so the next frames can cross-fade it; the same
    /// mode again changes nothing.
    pub fn set_mode(&mut self, mode: &str, elapsed_ms: u64)
        ensures
            final(self)@ == (if old(self)@.previous_mode == Some(mode@) {
                old(self)@
            } else {
                StatusBarModel { previous_mode: Some(mode@), mode_changed_at_ms: elapsed_ms, ..old(self)@ }
            }),
            old(self).fields_match() ==> final(self).fields_match(),
    {
        let same = match &self.previous_mode {
            Some(p) => crate::text::str_eq(p.as_str(), mode),
            None => false,
        };
        if same {
            return;
        }
        self.previous_mode = Some(String::from_str(mode));
        self.mode_changed_at_ms = elapsed_ms;
    }

    /// Sets or clears the transient message (host-owned lifetime).
    pub fn set_transient(&mut self, message: Option<&str>)
        ensures
            final(self)@ == (StatusBarModel { transient: opt_str_chars(message), transient_set_at_ms: None, ..old(self)@ }),
            old(self).fields_match() ==> final(self).fields_match(),
    {
        self.transient = opt_string(message);
        self.transient_set_at_ms = None;
    }

    /// Sets a timed status sentence, stamped at `elapsed_ms`.
    pub fn set_transient_at(&mut self, message: Option<&str>, elapsed_ms: u64)
        ensures
            final(self)@ == (StatusBarModel { transient: opt_str_chars(message), transient_set_at_ms: Some(elapsed_ms), ..old(self)@ }),
            old(self).fields_match() ==> final(self).fields_match(),
    {
        self.transient = opt_string(message);
        self.transient_set_at_ms = Some(elapsed_ms);
    }

    /// Drops a timed message once its lifetime has run out; untimed
    /// messages stay.
    pub fn expire_transient(&mut self, elapsed_ms: u64)
        ensures
            final(self)@ == (match old(self)@.transient_set_at_ms {
                Some(at) => if sat_sub(elapsed_ms as int, at as int) >= old(self)@.transient_ttl_ms {
                    StatusBarModel { transient: None, transient_set_at_ms: None, ..old(self)@ }
                } else {
                    old(self)@
                },
                None => old(self)@,
            }),
            old(self).fields_match() ==> final(self).fields_match(),
    {
        if let Some(at) = self.transient_set_at_ms {
            if elapsed_ms.saturating_sub(at) >= self.transient_ttl_ms {
                self.transient = None;
                self.transient_set_at_ms = None;
            }
        }
    }
}

impl<Id: Copy> StatusBarState<Id> {
    fn hit(&self, position: Position) -> (r: Option<Id>)
        ensures
            r == hit_from(self@.regions, position, 0),
    {
        let mut i: usize = 0;
        while i < self.regions.len()
            invariant
                i <= self.regions@.len(),
                self@.regions == self.regions@,
                hit_from(self@.regions, position, 0) == hit_from(self@.regions, position, i as int),
            decreases self.regions@.len() - i,
        {
            if self.regions[i].area.contains(position) {
                return Some(self.regions[i].id);
            }
            i = i + 1;
        }
        None
    }

    /// Hover follows the first painted region under the pointer.
    pub fn hover(&mut self, position: Position) -> (r: Option<&Id>)
        ensures
            final(self)@ == (StatusBarModel { hovered: hit_from(old(self)@.regions, position, 0), ..old(self)@ }),
            r == match hit_from(old(self)@.regions, position, 0) { Some(id) => Some(&id), None => None },
            old(self).fields_match() ==> final(self).fields_match(),
    {
        self.hovered = self.hit(position);
        self.hovered.as_ref()
    }

    /// A click activates the first painted region under the pointer.
    pub fn click(&mut self, position: Position) -> (o: Outcome<Id>)
        ensures
            final(self)@ == old(self)@,
            o == match hit_from(old(self)@.regions, position, 0) {
                Some(id) => Outcome::Activated(id),
                None => Outcome::Ignored,
            },
    {
        match self.hit(position) {
            Some(id) => Outcome::Activated(id),
            None => Outcome::Ignored,
        }
    }

    /// Records the hit regions of the layout in `area`: none for an empty
    /// area, else one per painted slot.
    pub fn record_layout(&mut self, bar: &StatusBar<'_, Id>, area: Rect)
        ensures
            final(self)@ == (StatusBarModel {
                regions: if area.width == 0 || area.height == 0 {
                    Seq::empty()
                } else {
                    bar.regions_for(layout_spec(bar.candidates_spec(), area, bar.reserve_spec(area, old(self)@.transient)))
                },
                ..old(self)@
            }),
            old(self).fields_match() ==> final(self).fields_match(),
    {
        if area.is_empty() {
            self.regions = Vec::new();
            return;
        }
        let t: Option<&str> = match &self.transient {
            Some(s) => Some(s.as_str()),
            None => None,
        };
        self.regions = bar.regions_with(area, t);
    }
}


// ── Transient message ───────────────────────────────────────────────────────

/// Leftmost column where a right-side placement among the first `k` starts,
/// or `edge` when there is none.
pub open spec fn right_floor(pl: Seq<SlotPlacement>, edge: int, k: int) -> int
    decreases k,
{
    if k <= 0 {
        edge
    } else {
        let prev = right_floor(pl, edge, k - 1);
        if pl[k - 1].side == StatusSide::Right && (pl[k - 1].area.x as int) < prev { pl[k - 1].area.x as int } else { prev }
    }
}

/// Column of a transient message `w` cells wide: flush right with one blank
/// cell after it, when the bar is more than two cells wider than the message
/// and the right-side slots start beyond the message's width and a cell from
/// the bar's left edge; otherwise the message does not paint.
pub open spec fn transient_x_spec(area: Rect, pl: Seq<SlotPlacement>, w: int) -> Option<u16> {
    let edge = sat_add(area.x as int, area.width as int);
    if area.width <= w + 2 {
        None
    } else if right_floor(pl, edge, pl.len() as int) <= area.x + w + 1 {
        None
    } else {
        Some(sat_sub(sat_sub(edge, w), 1) as u16)
    }
}

/// Column of a transient message `w` cells wide (see [`transient_x_spec`]).
pub fn transient_x(area: Rect, placements: &Vec<SlotPlacement>, w: u16) -> (x: Option<u16>)
    ensures
        x == transient_x_spec(area, placements@, w as int),
{
    let edge = area.x.saturating_add(area.width);
    if (area.width as u32) <= (w as u32) + 2 {
        return None;
    }
    let mut floor: u16 = edge;
    let mut k: usize = 0;
    while k < placements.len()
        invariant
            k <= placements@.len(),
            floor == right_floor(placements@, edge as int, k as int),
        decreases placements.len() - k,
    {
        let p = placements[k];
        if p.side == StatusSide::Right && p.area.x < floor {
            floor = p.area.x;
        }
        k = k + 1;
    }
    if (floor as u32) <= (area.x as u32) + (w as u32) + 1 {
        return None;
    }
    Some(edge.saturating_sub(w).saturating_sub(1))
}

} // verus!

verus! {

/// Whether a placement lies on the area's row, within `[lo, hi)`, and is
/// at least one cell wide.
pub open spec fn placed_within(p: SlotPlacement, y: int, lo: int, hi: int) -> bool {
    &&& p.area.y == y
    &&& lo <= p.area.x
    &&& p.area.x + p.area.width <= hi
    &&& p.area.width > 0
}

proof fn lemma_left_within(c: Seq<SlotAllocation>, w: Seq<int>, seps: Seq<bool>, area: Rect, k: int)
    requires
        0 <= k <= c.len(),
        w.len() == c.len(),
        forall|j: int| 0 <= j < w.len() ==> 0 <= #[trigger] w[j] <= u16::MAX,
    ensures
        ({
            let s = place_left(c, w, seps, area, k);
            &&& area.x <= s.x <= area.right_spec()
            &&& forall|q: int| 0 <= q < s.out.len() ==> placed_within(#[trigger] s.out[q], area.y as int, area.x as int, s.x)
        }),
    decreases k,
{
    if k > 0 {
        lemma_left_within(c, w, seps, area, k - 1);
    }
}

proof fn lemma_right_within(c: Seq<SlotAllocation>, w: Seq<int>, seps: Seq<bool>, area: Rect, floor: int, k: int)
    requires
        0 <= k <= c.len(),
        w.len() == c.len(),
        forall|j: int| 0 <= j < w.len() ==> 0 <= #[trigger] w[j] <= u16::MAX,
        area.x <= floor <= area.right_spec(),
    ensures
        ({
            let s = place_right(c, w, seps, area, floor, k);
            &&& floor <= s.x <= area.right_spec()
            &&& forall|q: int| 0 <= q < s.out.len() ==> placed_within(#[trigger] s.out[q], area.y as int, s.x, area.right_spec())
        }),
    decreases k,
{
    if k > 0 {
        lemma_right_within(c, w, seps, area, floor, k - 1);
    }
}

proof fn lemma_center_within(c: Seq<SlotAllocation>, w: Seq<int>, seps: Seq<bool>, area: Rect, b: int, e: int, k: int)
    requires
        0 <= k <= c.len(),
        w.len() == c.len(),
        forall|j: int| 0 <= j < w.len() ==> 0 <= #[trigger] w[j] <= u16::MAX,
        0 <= b <= e <= u16::MAX,
    ensures
        ({
            let s = place_center(c, w, seps, area, b, e, k);
            &&& b <= s.x <= e
            &&& forall|q: int| 0 <= q < s.out.len() ==> placed_within(#[trigger] s.out[q], area.y as int, b, s.x)
        }),
    decreases k,
{
    if k > 0 {
        lemma_center_within(c, w, seps, area, b, e, k - 1);
    }
}

proof fn lemma_band_bounds(c: Seq<SlotAllocation>, area: Rect, reserve: int)
    ensures
        band_widths(c, area, reserve).widths.len() == c.len(),
        forall|j: int| 0 <= j < c.len() ==> 0 <= #[trigger] band_widths(c, area, reserve).widths[j] <= u16::MAX,
{
    // The executable layout computes these widths in `u16` vectors.
    let n = c.len() as int;
    let start = BandState { widths: Seq::new(c.len(), |j: int| 0int), rem: sat_sub(area.width as int, reserve) };
    lemma_band_fold_bounds(c, start, false, 0, n);
    let a = band_fold(c, start, false, 0, n);
    lemma_band_fold_bounds(c, a, true, 0, n);
    let g = band_fold(c, a, true, 0, n);
    let s0 = SepState { widths: g.widths, seps: Seq::new(c.len(), |j: int| false), rem: g.rem, seen: false };
    lemma_sep_bounds(c, s0, StatusSide::Left, n);
    let s1 = sep_scan(c, s0, StatusSide::Left, n);
    let s1b = SepState { widths: s1.widths, seps: s1.seps, rem: s1.rem, seen: false };
    lemma_sep_bounds(c, s1b, StatusSide::Center, n);
    let s2 = sep_scan(c, s1b, StatusSide::Center, n);
    let s2b = SepState { widths: s2.widths, seps: s2.seps, rem: s2.rem, seen: false };
    lemma_sep_bounds(c, s2b, StatusSide::Right, n);
}

proof fn lemma_band_fold_bounds(c: Seq<SlotAllocation>, start: BandState, grow: bool, p: int, i: int)
    requires
        start.widths.len() == c.len(),
        forall|j: int| 0 <= j < c.len() ==> 0 <= #[trigger] start.widths[j] <= u16::MAX,
        start.rem >= 0,
    ensures
        band_fold(c, start, grow, p, i).widths.len() == c.len(),
        forall|j: int| 0 <= j < c.len() ==> 0 <= #[trigger] band_fold(c, start, grow, p, i).widths[j] <= u16::MAX,
        band_fold(c, start, grow, p, i).rem >= 0,
    decreases 256 - p, i,
{
    if p >= 256 || p < 0 {
    } else if i <= 0 {
        lemma_band_fold_bounds(c, start, grow, p + 1, c.len() as int);
    } else if i > c.len() {
        lemma_band_fold_bounds(c, start, grow, p, c.len() as int);
    } else {
        lemma_band_fold_bounds(c, start, grow, p, i - 1);
    }
}

proof fn lemma_sep_bounds(c: Seq<SlotAllocation>, start: SepState, side: StatusSide, k: int)
    requires
        start.widths.len() == c.len(),
        start.seps.len() == c.len(),
        forall|j: int| 0 <= j < c.len() ==> 0 <= #[trigger] start.widths[j] <= u16::MAX,
        0 <= k <= c.len(),
    ensures
        sep_scan(c, start, side, k).widths.len() == c.len(),
        sep_scan(c, start, side, k).seps.len() == c.len(),
        forall|j: int| 0 <= j < c.len() ==> 0 <= #[trigger] sep_scan(c, start, side, k).widths[j] <= u16::MAX,
    decreases k,
{
    if k > 0 {
        lemma_sep_bounds(c, start, side, k - 1);
    }
}

/// Every slot the bar paints lies on the area's row, inside the area, at
/// least one cell wide; left slots sit left of the center band, which sits
/// left of the right slots.
pub proof fn law_slots_paint_inside_area(c: Seq<SlotAllocation>, area: Rect, reserve: int)
    ensures
        forall|q: int| 0 <= q < layout_spec(c, area, reserve).len() ==> placed_within(
            #[trigger] layout_spec(c, area, reserve)[q], area.y as int, area.x as int, area.right_spec()),
        ({
            let n = c.len() as int;
            let s = band_widths(c, area, reserve);
            let l = place_left(c, s.widths, s.seps, area, n);
            let r = place_right(c, s.widths, s.seps, area, l.x, n);
            area.width > 0 && area.height > 0 ==> {
                &&& forall|q: int| 0 <= q < l.out.len() ==> placed_within(#[trigger] l.out[q], area.y as int, area.x as int, l.x)
                &&& forall|q: int| 0 <= q < r.out.len() ==> placed_within(#[trigger] r.out[q], area.y as int, r.x, area.right_spec())
                &&& l.x <= r.x
            }
        }),
{
    if area.width != 0 && area.height != 0 {
        let n = c.len() as int;
        lemma_band_bounds(c, area, reserve);
        let s = band_widths(c, area, reserve);
        lemma_left_within(c, s.widths, s.seps, area, n);
        let l = place_left(c, s.widths, s.seps, area, n);
        lemma_right_within(c, s.widths, s.seps, area, l.x, n);
        let r = place_right(c, s.widths, s.seps, area, l.x, n);
        let m = if r.x > l.x {
            place_center(c, s.widths, s.seps, area, l.x, r.x, n).out
        } else {
            Seq::empty()
        };
        if r.x > l.x {
            lemma_center_within(c, s.widths, s.seps, area, l.x, r.x, n);
        }
        let all = l.out + r.out + m;
        assert forall|q: int| 0 <= q < all.len() implies placed_within(#[trigger] all[q], area.y as int, area.x as int, area.right_spec()) by {
            if q < l.out.len() {
                assert(all[q] == l.out[q]);
            } else if q < l.out.len() + r.out.len() {
                assert(all[q] == r.out[q - l.out.len()]);
            } else {
                assert(all[q] == m[q - l.out.len() - r.out.len()]);
            }
        }
    }
}

/// Two placements share no cell of their row.
pub open spec fn apart(p: SlotPlacement, q: SlotPlacement) -> bool {
    p.area.x + p.area.width <= q.area.x || q.area.x + q.area.width <= p.area.x
}

/// Placements packed left to right, each ending before the next starts.
pub open spec fn packed_rightward(out: Seq<SlotPlacement>) -> bool {
    forall|a: int, b: int| 0 <= a < b < out.len() ==> #[trigger] out[a].area.x + out[a].area.width <= #[trigger] out[b].area.x
}

/// Placements packed right to left, each starting after the next ends.
pub open spec fn packed_leftward(out: Seq<SlotPlacement>) -> bool {
    forall|a: int, b: int| 0 <= a < b < out.len() ==> #[trigger] out[b].area.x + out[b].area.width <= #[trigger] out[a].area.x
}

proof fn lemma_left_packed(c: Seq<SlotAllocation>, w: Seq<int>, seps: Seq<bool>, area: Rect, k: int)
    requires
        0 <= k <= c.len(),
        w.len() == c.len(),
        forall|j: int| 0 <= j < w.len() ==> 0 <= #[trigger] w[j] <= u16::MAX,
    ensures
        packed_rightward(place_left(c, w, seps, area, k).out),
        forall|q: int| 0 <= q < place_left(c, w, seps, area, k).out.len() ==> (#[trigger] place_left(c, w, seps, area, k).out[q]).area.height == (sat_add(area.y as int, 1) - area.y) as u16,
        forall|q: int| 0 <= q < place_left(c, w, seps, area, k).out.len() ==> (#[trigger] place_left(c, w, seps, area, k).out[q]).side == StatusSide::Left,
    decreases k,
{
    if k > 0 {
        lemma_left_packed(c, w, seps, area, k - 1);
        lemma_left_within(c, w, seps, area, k - 1);
        lemma_left_within(c, w, seps, area, k);
        let prev = place_left(c, w, seps, area, k - 1);
        let s = place_left(c, w, seps, area, k);
        if s.out.len() > prev.out.len() {
            let last = s.out.last();
            assert(s.out == prev.out.push(last));
            assert(last.area.x == prev.x);
            assert forall|a: int, b: int| 0 <= a < b < s.out.len() implies #[trigger] s.out[a].area.x + s.out[a].area.width <= #[trigger] s.out[b].area.x by {
                if b < prev.out.len() {
                    assert(prev.out[a].area.x + prev.out[a].area.width <= prev.out[b].area.x);
                } else {
                    assert(placed_within(prev.out[a], area.y as int, area.x as int, prev.x));
                }
            }
        }
    }
}

proof fn lemma_right_packed(c: Seq<SlotAllocation>, w: Seq<int>, seps: Seq<bool>, area: Rect, floor: int, k: int)
    requires
        0 <= k <= c.len(),
        w.len() == c.len(),
        forall|j: int| 0 <= j < w.len() ==> 0 <= #[trigger] w[j] <= u16::MAX,
        area.x <= floor <= area.right_spec(),
    ensures
        packed_leftward(place_right(c, w, seps, area, floor, k).out),
        forall|q: int| 0 <= q < place_right(c, w, seps, area, floor, k).out.len() ==> (#[trigger] place_right(c, w, seps, area, floor, k).out[q]).area.height == (sat_add(area.y as int, 1) - area.y) as u16,
        forall|q: int| 0 <= q < place_right(c, w, seps, area, floor, k).out.len() ==> (#[trigger] place_right(c, w, seps, area, floor, k).out[q]).side == StatusSide::Right,
    decreases k,
{
    if k > 0 {
        lemma_right_packed(c, w, seps, area, floor, k - 1);
        lemma_right_within(c, w, seps, area, floor, k - 1);
        lemma_right_within(c, w, seps, area, floor, k);
        let prev = place_right(c, w, seps, area, floor, k - 1);
        let s = place_right(c, w, seps, area, floor, k);
        if s.out.len() > prev.out.len() {
            let last = s.out.last();
            assert(s.out == prev.out.push(last));
            assert(last.area.x + last.area.width == prev.x);
            assert forall|a: int, b: int| 0 <= a < b < s.out.len() implies #[trigger] s.out[b].area.x + s.out[b].area.width <= #[trigger] s.out[a].area.x by {
                if b < prev.out.len() {
                    assert(prev.out[b].area.x + prev.out[b].area.width <= prev.out[a].area.x);
                } else {
                    assert(placed_within(prev.out[a], area.y as int, prev.x, area.right_spec()));
                }
            }
        }
    }
}

proof fn lemma_center_packed(c: Seq<SlotAllocation>, w: Seq<int>, seps: Seq<bool>, area: Rect, b: int, e: int, k: int)
    requires
        0 <= k <= c.len(),
        w.len() == c.len(),
        forall|j: int| 0 <= j < w.len() ==> 0 <= #[trigger] w[j] <= u16::MAX,
        0 <= b <= e <= u16::MAX,
    ensures
        packed_rightward(place_center(c, w, seps, area, b, e, k).out),
        forall|q: int| 0 <= q < place_center(c, w, seps, area, b, e, k).out.len() ==> (#[trigger] place_center(c, w, seps, area, b, e, k).out[q]).area.height == (sat_add(area.y as int, 1) - area.y) as u16,
        forall|q: int| 0 <= q < place_center(c, w, seps, area, b, e, k).out.len() ==> (#[trigger] place_center(c, w, seps, area, b, e, k).out[q]).side == StatusSide::Center,
    decreases k,
{
    if k > 0 {
        lemma_center_packed(c, w, seps, area, b, e, k - 1);
        lemma_center_within(c, w, seps, area, b, e, k - 1);
        lemma_center_within(c, w, seps, area, b, e, k);
        let prev = place_center(c, w, seps, area, b, e, k - 1);
        let s = place_center(c, w, seps, area, b, e, k);
        if s.out.len() > prev.out.len() {
            let last = s.out.last();
            assert(s.out == prev.out.push(last));
            assert(last.area.x == prev.x);
            assert forall|i: int, j: int| 0 <= i < j < s.out.len() implies #[trigger] s.out[i].area.x + s.out[i].area.width <= #[trigger] s.out[j].area.x by {
                if j < prev.out.len() {
                    assert(prev.out[i].area.x + prev.out[i].area.width <= prev.out[j].area.x);
                } else {
                    assert(placed_within(prev.out[i], area.y as int, b, prev.x));
                }
            }
        }
    }
}

/// No two slots the bar paints share a cell, and each is one row high (on
/// any row but the last the terminal addresses).
pub proof fn law_slots_do_not_overlap(c: Seq<SlotAllocation>, area: Rect, reserve: int)
    ensures
        forall|a: int, b: int| 0 <= a < b < layout_spec(c, area, reserve).len()
            ==> apart(#[trigger] layout_spec(c, area, reserve)[a], #[trigger] layout_spec(c, area, reserve)[b]),
        area.y < u16::MAX ==> forall|q: int| 0 <= q < layout_spec(c, area, reserve).len()
            ==> (#[trigger] layout_spec(c, area, reserve)[q]).area.height == 1,
{
    if area.width != 0 && area.height != 0 {
        let n = c.len() as int;
        lemma_band_bounds(c, area, reserve);
        let s = band_widths(c, area, reserve);
        lemma_left_within(c, s.widths, s.seps, area, n);
        lemma_left_packed(c, s.widths, s.seps, area, n);
        let l = place_left(c, s.widths, s.seps, area, n);
        lemma_right_within(c, s.widths, s.seps, area, l.x, n);
        lemma_right_packed(c, s.widths, s.seps, area, l.x, n);
        let r = place_right(c, s.widths, s.seps, area, l.x, n);
        let m = if r.x > l.x {
            place_center(c, s.widths, s.seps, area, l.x, r.x, n).out
        } else {
            Seq::empty()
        };
        if r.x > l.x {
            lemma_center_within(c, s.widths, s.seps, area, l.x, r.x, n);
            lemma_center_packed(c, s.widths, s.seps, area, l.x, r.x, n);
        }
        let all = layout_spec(c, area, reserve);
        assert(all == l.out + r.out + m);
        let nl = l.out.len() as int;
        let nr = r.out.len() as int;
        assert forall|q: int| 0 <= q < all.len() implies (#[trigger] all[q]).area.height == (sat_add(area.y as int, 1) - area.y) as u16 by {
            if q < nl {
                assert(all[q] == l.out[q]);
            } else if q < nl + nr {
                assert(all[q] == r.out[q - nl]);
            } else {
                assert(all[q] == m[q - nl - nr]);
            }
        }
        assert forall|a: int, b: int| 0 <= a < b < all.len() implies apart(#[trigger] all[a], #[trigger] all[b]) by {
            if b < nl {
                assert(l.out[a].area.x + l.out[a].area.width <= l.out[b].area.x);
            } else if b < nl + nr {
                if a < nl {
                    assert(placed_within(l.out[a], area.y as int, area.x as int, l.x));
                    assert(placed_within(r.out[b - nl], area.y as int, r.x, area.right_spec()));
                } else {
                    assert(r.out[b - nl].area.x + r.out[b - nl].area.width <= r.out[a - nl].area.x);
                }
            } else {
                assert(placed_within(m[b - nl - nr], area.y as int, l.x, r.x));
                if a < nl {
                    assert(placed_within(l.out[a], area.y as int, area.x as int, l.x));
                } else if a < nl + nr {
                    assert(placed_within(r.out[a - nl], area.y as int, r.x, area.right_spec()));
                } else {
                    assert(m[a - nl - nr].area.x + m[a - nl - nr].area.width <= m[b - nl - nr].area.x);
                }
            }
        }
    }
}


/// Left slots paint left of center and right slots, and center slots left
/// of right slots.
pub proof fn law_sides_keep_their_order(c: Seq<SlotAllocation>, area: Rect, reserve: int)
    ensures
        forall|a: int, b: int| 0 <= a < layout_spec(c, area, reserve).len() && 0 <= b < layout_spec(c, area, reserve).len()
            ==> {
                let p = #[trigger] layout_spec(c, area, reserve)[a];
                let q = #[trigger] layout_spec(c, area, reserve)[b];
                &&& (p.side == StatusSide::Left && q.side != StatusSide::Left) ==> p.area.x + p.area.width <= q.area.x
                &&& (p.side == StatusSide::Center && q.side == StatusSide::Right) ==> p.area.x + p.area.width <= q.area.x
            },
{
    if area.width != 0 && area.height != 0 {
        let n = c.len() as int;
        lemma_band_bounds(c, area, reserve);
        let s = band_widths(c, area, reserve);
        lemma_left_within(c, s.widths, s.seps, area, n);
        lemma_left_packed(c, s.widths, s.seps, area, n);
        let l = place_left(c, s.widths, s.seps, area, n);
        lemma_right_within(c, s.widths, s.seps, area, l.x, n);
        lemma_right_packed(c, s.widths, s.seps, area, l.x, n);
        let r = place_right(c, s.widths, s.seps, area, l.x, n);
        let m = if r.x > l.x {
            place_center(c, s.widths, s.seps, area, l.x, r.x, n).out
        } else {
            Seq::empty()
        };
        if r.x > l.x {
            lemma_center_within(c, s.widths, s.seps, area, l.x, r.x, n);
            lemma_center_packed(c, s.widths, s.seps, area, l.x, r.x, n);
        }
        let all = layout_spec(c, area, reserve);
        assert(all == l.out + r.out + m);
        let nl = l.out.len() as int;
        let nr = r.out.len() as int;
        assert forall|a: int, b: int| 0 <= a < all.len() && 0 <= b < all.len() implies {
            let p = #[trigger] all[a];
            let q = #[trigger] all[b];
            &&& (p.side == StatusSide::Left && q.side != StatusSide::Left) ==> p.area.x + p.area.width <= q.area.x
            &&& (p.side == StatusSide::Center && q.side == StatusSide::Right) ==> p.area.x + p.area.width <= q.area.x
        } by {
            if a < nl {
                assert(all[a] == l.out[a]);
                assert(placed_within(l.out[a], area.y as int, area.x as int, l.x));
            } else if a < nl + nr {
                assert(all[a] == r.out[a - nl]);
            } else {
                assert(all[a] == m[a - nl - nr]);
                assert(placed_within(m[a - nl - nr], area.y as int, l.x, r.x));
            }
            if b < nl {
                assert(all[b] == l.out[b]);
            } else if b < nl + nr {
                assert(all[b] == r.out[b - nl]);
                assert(placed_within(r.out[b - nl], area.y as int, r.x, area.right_spec()));
            } else {
                assert(all[b] == m[b - nl - nr]);
                assert(placed_within(m[b - nl - nr], area.y as int, l.x, r.x));
            }
        }
    }
}

impl<'a, Id> StatusBar<'a, Id> {
    /// Every slot a bar paints is an enabled slot of the side it paints on.
    pub proof fn law_painted_slots_are_enabled(self, area: Rect, reserve: int)
        ensures
            forall|q: int| 0 <= q < layout_spec(self.candidates_spec(), area, reserve).len() ==> {
                let p = #[trigger] layout_spec(self.candidates_spec(), area, reserve)[q];
                match p.side {
                    StatusSide::Left => (p.index as int) < self.left@.len() && self.left@[p.index as int].enabled,
                    StatusSide::Center => (p.index as int) < self.center@.len() && self.center@[p.index as int].enabled,
                    StatusSide::Right => (p.index as int) < self.right@.len() && self.right@[p.index as int].enabled,
                }
            },
    {
        let g = self.system.glyphs;
        assert(self.left@.len() == self.left.len());
        assert(self.center@.len() == self.center.len());
        assert(self.right@.len() == self.right.len());
        let lc = side_candidates(self.left@, StatusSide::Left, self.recipe, g, self.left@.len() as int);
        let cc = side_candidates(self.center@, StatusSide::Center, self.recipe, g, self.center@.len() as int);
        let rc = side_candidates(self.right@, StatusSide::Right, self.recipe, g, self.right@.len() as int);
        lemma_side_candidates(self.left@, StatusSide::Left, self.recipe, g, self.left@.len() as int);
        lemma_side_candidates(self.center@, StatusSide::Center, self.recipe, g, self.center@.len() as int);
        lemma_side_candidates(self.right@, StatusSide::Right, self.recipe, g, self.right@.len() as int);
        let c = self.candidates_spec();
        assert(c == lc + cc + rc);
        lemma_layout_from_candidates(c, area, reserve);
        let all = layout_spec(c, area, reserve);
        assert forall|q: int| 0 <= q < all.len() implies {
            let p = #[trigger] all[q];
            match p.side {
                StatusSide::Left => (p.index as int) < self.left@.len() && self.left@[p.index as int].enabled,
                StatusSide::Center => (p.index as int) < self.center@.len() && self.center@[p.index as int].enabled,
                StatusSide::Right => (p.index as int) < self.right@.len() && self.right@[p.index as int].enabled,
            }
        } by {
            let p = all[q];
            let j = choose|j: int| 0 <= j < c.len() && c[j].side == p.side && c[j].index == p.index;
            if j < lc.len() {
                assert(c[j] == lc[j]);
            } else if j < lc.len() + cc.len() {
                assert(c[j] == cc[j - lc.len()]);
            } else {
                assert(c[j] == rc[j - lc.len() - cc.len()]);
            }
        }
    }
}


/// The transient message never takes more than half the bar, except on
/// bars under eight cells, where it keeps up to four.
pub proof fn law_transient_reserve_is_bounded<'a, Id>(bar: StatusBar<'a, Id>, area: Rect, state_transient: Option<Seq<char>>)
    ensures
        bar.reserve_spec(area, state_transient) <= if area.width as int / 2 > (if area.width < 4 { area.width as int } else { 4 }) {
            area.width as int / 2
        } else {
            if area.width < 4 { area.width as int } else { 4 }
        },
        bar.reserve_spec(area, state_transient) >= 0,
{
}

} // verus!
