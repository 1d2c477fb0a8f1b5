//! A row of short facts, budgeted by stated priority and by hue.
//!
//! Segments survive width pressure by priority, not by position; the
//! highest-priority segment (the actionable one) always survives, clipped if
//! it must be. At most one status hue and at most one accent are spent.

use vstd::prelude::*;
use crate::semantic_status::SemanticStatus;
use crate::style::{
    is_status_hue, is_status_hue_spec, role_quiet, role_quiet_spec, DesignSystem, GlyphSet, Role,
};
use crate::text::{concat_str, display_cols, str_width};

verus! {

/// The voice a segment speaks in.
#[derive(Debug, Clone, Copy, PartialEq, Eq, Structural)]
pub enum StatusSegmentTone {
    /// Ordinary metadata.
    Metadata,
    /// Quiet metadata.
    Quiet,
    /// Strong metadata without a hue.
    Strong,
    /// The focused / actionable segment.
    Focus,
    /// A typed lifecycle status.
    Semantic(SemanticStatus),
}

/// One fact in a status strip.
#[derive(Debug, Clone, PartialEq, Eq)]
pub struct StatusSegment<'a> {
    /// Segment text, already worded by the host.
    pub text: &'a str,
    /// Survival priority: higher survives longer under width pressure.
    pub priority: u8,
    tone: StatusSegmentTone,
}

/// Mathematical model of a segment.
pub struct SegmentModel {
    /// Text.
    pub text: Seq<char>,
    /// Survival priority.
    pub priority: u8,
    /// Tone.
    pub tone: StatusSegmentTone,
}

impl SegmentModel {
    /// The role the segment asks for before budgeting.
    pub open spec fn role_spec(self) -> Role {
        match self.tone {
            StatusSegmentTone::Metadata => Role::TextMuted,
            StatusSegmentTone::Quiet => Role::TextFaint,
            StatusSegmentTone::Strong => Role::TextStrong,
            StatusSegmentTone::Focus => Role::Accent,
            StatusSegmentTone::Semantic(s) => s.role_spec(),
        }
    }

    /// The painted text: a semantic segment wears its status glyph first.
    pub open spec fn display_text_spec(self, glyphs: GlyphSet) -> Seq<char> {
        match self.tone {
            StatusSegmentTone::Semantic(s) => s.glyph_for_set_spec(glyphs) + " "@ + self.text,
            _ => self.text,
        }
    }
}

impl<'a> View for StatusSegment<'a> {
    type V = SegmentModel;

    closed spec fn view(&self) -> SegmentModel {
        SegmentModel { text: self.text@, priority: self.priority, tone: self.tone }
    }
}

impl<'a> StatusSegment<'a> {
    /// A metadata segment (priority 50).
    pub fn new(text: &'a str) -> (s: Self)
        ensures
            s@.text == text@,
            s@.priority == 50,
            s@.tone == StatusSegmentTone::Metadata,
    {
        StatusSegment { text, priority: 50, tone: StatusSegmentTone::Metadata }
    }

    /// Typed lifecycle state; the strip supplies glyph and tone.
    pub fn semantic(self, semantic: SemanticStatus) -> (s: Self)
        ensures
            s@.text == self@.text,
            s@.priority == self@.priority,
            s@.tone == StatusSegmentTone::Semantic(semantic),
    {
        StatusSegment { tone: StatusSegmentTone::Semantic(semantic), ..self }
    }

    /// Quiet metadata.
    pub fn quiet(self) -> (s: Self)
        ensures
            s@.text == self@.text,
            s@.priority == self@.priority,
            s@.tone == StatusSegmentTone::Quiet,
    {
        StatusSegment { tone: StatusSegmentTone::Quiet, ..self }
    }

    /// Strong metadata without spending a hue.
    pub fn strong(self) -> (s: Self)
        ensures
            s@.text == self@.text,
            s@.priority == self@.priority,
            s@.tone == StatusSegmentTone::Strong,
    {
        StatusSegment { tone: StatusSegmentTone::Strong, ..self }
    }

    /// The one focused / actionable segment.
    pub fn focus(self) -> (s: Self)
        ensures
            s@.text == self@.text,
            s@.priority == self@.priority,
            s@.tone == StatusSegmentTone::Focus,
    {
        StatusSegment { tone: StatusSegmentTone::Focus, ..self }
    }

    /// Survival priority.
    pub fn priority(self, priority: u8) -> (s: Self)
        ensures
            s@.text == self@.text,
            s@.priority == priority,
            s@.tone == self@.tone,
    {
        StatusSegment { priority, ..self }
    }

    /// The role the segment asks for before budgeting.
    pub(crate) fn role(&self) -> (r: Role)
        ensures
            r == self@.role_spec(),
    {
        match self.tone {
            StatusSegmentTone::Metadata => Role::TextMuted,
            StatusSegmentTone::Quiet => Role::TextFaint,
            StatusSegmentTone::Strong => Role::TextStrong,
            StatusSegmentTone::Focus => Role::Accent,
            StatusSegmentTone::Semantic(s) => s.role(),
        }
    }

    /// The painted text.
    pub fn display_text(&self, glyphs: GlyphSet) -> (s: String)
        ensures
            s@ == self@.display_text_spec(glyphs),
    {
        match self.tone {
            StatusSegmentTone::Semantic(status) => {
                let g = status.glyph_for_set(glyphs);
                let mut s = concat_str(g, " ");
                s.append(self.text);
                s
            },
            _ => String::from_str(self.text),
        }
    }
}

// ── Greedy priority fit ─────────────────────────────────────────────────────

/// Progress of the greedy fit: which segments are kept, columns used, count kept.
pub struct FitState {
    /// Kept flags, one per segment.
    pub kept: Seq<bool>,
    /// Columns spent (separators included).
    pub used: int,
    /// Segments kept.
    pub count: int,
}

/// The greedy step for segment `i`: keep it when it is the first, or when it
/// and its separator still fit the budget.
pub open spec fn fit_step(st: FitState, i: int, col: int, sep: int, budget: int) -> FitState {
    let cost = if st.count == 0 { col } else { col + sep };
    if st.count == 0 || st.used + cost <= budget {
        FitState { kept: st.kept.update(i, true), used: st.used + cost, count: st.count + 1 }
    } else {
        st
    }
}

/// State after visiting, in order, every segment of priority above `p` and
/// the segments of priority `p` with index below `i`. Visiting order is
/// priority descending, then index ascending.
pub open spec fn fit_upto(prios: Seq<u8>, cols: Seq<int>, sep: int, budget: int, p: int, i: int) -> FitState
    decreases 256 - p, i,
{
    if p >= 256 || p < 0 {
        FitState { kept: Seq::new(prios.len(), |j: int| false), used: 0, count: 0 }
    } else if i <= 0 {
        fit_upto(prios, cols, sep, budget, p + 1, prios.len() as int)
    } else if i > prios.len() {
        fit_upto(prios, cols, sep, budget, p, prios.len() as int)
    } else {
        let prev = fit_upto(prios, cols, sep, budget, p, i - 1);
        if prios[i - 1] as int == p {
            fit_step(prev, i - 1, cols[i - 1], sep, budget)
        } else {
            prev
        }
    }
}

/// Final kept flags of the greedy fit.
pub open spec fn fit_kept(prios: Seq<u8>, cols: Seq<int>, sep: int, budget: int) -> Seq<bool> {
    fit_upto(prios, cols, sep, budget, 0, prios.len() as int).kept
}

/// Indices `< k` whose flag is set, ascending.
pub open spec fn indices_of(kept: Seq<bool>, k: int) -> Seq<usize>
    decreases k,
{
    if k <= 0 {
        Seq::empty()
    } else if kept[k - 1] {
        indices_of(kept, k - 1).push((k - 1) as usize)
    } else {
        indices_of(kept, k - 1)
    }
}

/// Visible segment indices for a fit of `cols` into `budget`, zero when there
/// is nothing to fit into.
pub open spec fn fit_spec(prios: Seq<u8>, cols: Seq<int>, sep: int, budget: int, width: int) -> Seq<usize> {
    if prios.len() == 0 || width == 0 {
        Seq::empty()
    } else {
        indices_of(fit_kept(prios, cols, sep, budget), prios.len() as int)
    }
}

proof fn lemma_fit_upto_shape(prios: Seq<u8>, cols: Seq<int>, sep: int, budget: int, p: int, i: int)
    requires
        cols.len() == prios.len(),
        forall|j: int| 0 <= j < cols.len() ==> cols[j] >= 0,
        sep >= 0,
    ensures
        fit_upto(prios, cols, sep, budget, p, i).kept.len() == prios.len(),
        fit_upto(prios, cols, sep, budget, p, i).count >= 0,
        fit_upto(prios, cols, sep, budget, p, i).used >= 0,
    decreases 256 - p, i,
{
    if p >= 256 || p < 0 {
    } else if i <= 0 {
        lemma_fit_upto_shape(prios, cols, sep, budget, p + 1, prios.len() as int);
    } else if i > prios.len() {
        lemma_fit_upto_shape(prios, cols, sep, budget, p, prios.len() as int);
    } else {
        lemma_fit_upto_shape(prios, cols, sep, budget, p, i - 1);
    }
}

/// The spent columns stay within the budget once a second segment is kept.
proof fn lemma_fit_upto_budget(prios: Seq<u8>, cols: Seq<int>, sep: int, budget: int, p: int, i: int)
    requires
        cols.len() == prios.len(),
        forall|j: int| 0 <= j < cols.len() ==> cols[j] >= 0,
        sep >= 0,
    ensures
        ({
            let st = fit_upto(prios, cols, sep, budget, p, i);
            st.count <= 1 || st.used <= budget
        }),
        ({
            let st = fit_upto(prios, cols, sep, budget, p, i);
            st.count == 0 ==> st.used == 0
        }),
        ({
            let st = fit_upto(prios, cols, sep, budget, p, i);
            st.count == 1 ==> exists|j: int| 0 <= j < cols.len() && st.used == cols[j]
        }),
    decreases 256 - p, i,
{
    if p >= 256 || p < 0 {
    } else if i <= 0 {
        lemma_fit_upto_budget(prios, cols, sep, budget, p + 1, prios.len() as int);
    } else if i > prios.len() {
        lemma_fit_upto_budget(prios, cols, sep, budget, p, prios.len() as int);
    } else {
        lemma_fit_upto_budget(prios, cols, sep, budget, p, i - 1);
        lemma_fit_upto_shape(prios, cols, sep, budget, p, i - 1);
    }
}

proof fn lemma_indices_of(kept: Seq<bool>, k: int)
    requires
        0 <= k <= kept.len(),
        kept.len() <= usize::MAX,
    ensures
        forall|a: int| 0 <= a < indices_of(kept, k).len() ==> (indices_of(kept, k)[a] as int) < k
            && kept[indices_of(kept, k)[a] as int],
        forall|a: int, b: int| 0 <= a < b < indices_of(kept, k).len() ==> indices_of(kept, k)[a]
            < indices_of(kept, k)[b],
        forall|j: int| 0 <= j < k && kept[j] ==> indices_of(kept, k).contains(j as usize),
    decreases k,
{
    if k > 0 {
        lemma_indices_of(kept, k - 1);
        let prev = indices_of(kept, k - 1);
        if kept[k - 1] {
            assert forall|j: int| 0 <= j < k && kept[j] implies indices_of(kept, k).contains(j as usize) by {
                if j == k - 1 {
                    assert(indices_of(kept, k)[prev.len() as int] == j as usize);
                } else {
                    let a = choose|a: int| 0 <= a < prev.len() && prev[a] == j as usize;
                    assert(indices_of(kept, k)[a] == j as usize);
                }
            }
        }
    }
}

/// Greedy priority fit over plain column counts.
///
/// Visits segments by priority (highest first, ties by index) and keeps each
/// one that fits with its separator; the first visited is always kept.
/// Returns the kept indices ascending.
pub fn fit_columns(priorities: &[u8], cols: &[usize], separator_cols: usize, budget: usize, width: u16) -> (kept: Vec<usize>)
    requires
        priorities.len() == cols.len(),
    ensures
        kept@ == fit_spec(priorities@, cols@.map_values(|c: usize| c as int), separator_cols as int, budget as int, width as int),
{
    let n = priorities.len();
    if n == 0 || width == 0 {
        return Vec::new();
    }
    let ghost icols = cols@.map_values(|c: usize| c as int);
    let ghost sep = separator_cols as int;
    let ghost bud = budget as int;
    let mut flags: Vec<bool> = Vec::new();
    let mut k: usize = 0;
    while k < n
        invariant
            k <= n,
            flags.len() == k,
            forall|j: int| 0 <= j < k ==> !flags@[j],
        decreases n - k,
    {
        flags.push(false);
        k = k + 1;
    }
    assert(flags@ =~= fit_upto(priorities@, icols, sep, bud, 256, 0).kept);
    let mut used: usize = 0;
    let mut any: bool = false;
    let mut level: u16 = 256;
    while level > 0
        invariant
            n == priorities.len(),
            n == cols.len(),
            icols == cols@.map_values(|c: usize| c as int),
            sep == separator_cols as int,
            bud == budget as int,
            level <= 256,
            flags@ == fit_upto(priorities@, icols, sep, bud, level as int, n as int).kept,
            used as int == fit_upto(priorities@, icols, sep, bud, level as int, n as int).used,
            any == (fit_upto(priorities@, icols, sep, bud, level as int, n as int).count > 0),
        decreases level,
    {
        let p: u16 = level - 1;
        let mut i: usize = 0;
        assert(fit_upto(priorities@, icols, sep, bud, p as int, 0)
            == fit_upto(priorities@, icols, sep, bud, level as int, n as int));
        while i < n
            invariant
                n == priorities.len(),
                n == cols.len(),
                icols == cols@.map_values(|c: usize| c as int),
                sep == separator_cols as int,
                bud == budget as int,
                p < 256,
                i <= n,
                flags@ == fit_upto(priorities@, icols, sep, bud, p as int, i as int).kept,
                used as int == fit_upto(priorities@, icols, sep, bud, p as int, i as int).used,
                any == (fit_upto(priorities@, icols, sep, bud, p as int, i as int).count > 0),
            decreases n - i,
        {
            proof {
                lemma_fit_upto_shape(priorities@, icols, sep, bud, p as int, i as int);
                lemma_fit_upto_budget(priorities@, icols, sep, bud, p as int, i as int);
            }
            if priorities[i] as u16 == p {
                let col = cols[i];
                let cost: u128 = if !any { col as u128 } else { col as u128 + separator_cols as u128 };
                if !any || (used as u128) + cost <= budget as u128 {
                    flags.set(i, true);
                    proof {
                        if any {
                            assert((used as u128) + cost <= budget as u128);
                        } else {
                            assert(used == 0);
                        }
                    }
                    used = (used as u128 + cost) as usize;
                    any = true;
                }
            }
            i = i + 1;
        }
        level = p;
    }
    proof {
        lemma_fit_upto_shape(priorities@, icols, sep, bud, 0, n as int);
    }
    let ghost final_flags = flags@;
    let mut out: Vec<usize> = Vec::new();
    let mut j: usize = 0;
    while j < n
        invariant
            j <= n,
            flags.len() == n,
            flags@ == final_flags,
            out@ == indices_of(final_flags, j as int),
        decreases n - j,
    {
        if flags[j] {
            out.push(j);
        }
        j = j + 1;
    }
    out
}

} // verus!

verus! {

/// Mathematical model of a strip.
pub struct StripModel {
    /// Segments, in host order.
    pub segments: Seq<SegmentModel>,
    /// Glyph profile.
    pub glyphs: GlyphSet,
    /// Hue-free painting.
    pub colorless: bool,
    /// Hint painted when segments drop.
    pub overflow_hint: Option<Seq<char>>,
}

/// Priorities of a segment list.
pub open spec fn seg_priorities(segs: Seq<SegmentModel>) -> Seq<u8> {
    segs.map_values(|s: SegmentModel| s.priority)
}

/// Display columns of each segment's painted text.
pub open spec fn seg_cols(segs: Seq<SegmentModel>, glyphs: GlyphSet) -> Seq<int> {
    segs.map_values(|s: SegmentModel| str_width(s.display_text_spec(glyphs)) as int)
}

impl StripModel {
    /// Columns of the separator between facts.
    pub open spec fn sep_cols(self) -> int {
        str_width(self.glyphs.meta_join_spec()) as int
    }

    /// Columns reserved for the overflow hint and its separator.
    pub open spec fn hint_reserve(self) -> int {
        match self.overflow_hint {
            Some(h) => {
                let r = str_width(h) + self.sep_cols();
                if r > usize::MAX { usize::MAX as int } else { r }
            },
            None => 0,
        }
    }

    /// Segment indices that survive `width`, in paint order.
    pub open spec fn visible_spec(self, width: int) -> Seq<usize> {
        let prios = seg_priorities(self.segments);
        let cols = seg_cols(self.segments, self.glyphs);
        let first = fit_spec(prios, cols, self.sep_cols(), width, width);
        if first.len() == self.segments.len() || self.hint_reserve() == 0 {
            first
        } else {
            fit_spec(prios, cols, self.sep_cols(), sat_sub_int(width, self.hint_reserve()), width)
        }
    }
}

/// `a - b` floored at zero.
pub open spec fn sat_sub_int(a: int, b: int) -> int {
    if a - b < 0 { 0 } else { a - b }
}

/// A row of segments, budgeted and priority-dropped.
#[derive(Debug, Clone, Copy)]
pub struct StatusStrip<'a> {
    segments: &'a [StatusSegment<'a>],
    system: &'a DesignSystem,
    colorless: bool,
    overflow_hint: Option<&'a str>,
}

impl<'a> View for StatusStrip<'a> {
    type V = StripModel;

    closed spec fn view(&self) -> StripModel {
        StripModel {
            segments: self.segments@.map_values(|s: StatusSegment<'a>| s@),
            glyphs: self.system.glyphs,
            colorless: self.colorless,
            overflow_hint: match self.overflow_hint {
                Some(h) => Some(h@),
                None => None,
            },
        }
    }
}

impl<'a> StatusStrip<'a> {
    /// Binds segments to a design system.
    pub fn new(segments: &'a [StatusSegment<'a>], system: &'a DesignSystem) -> (s: Self)
        ensures
            s@.segments == segments@.map_values(|x: StatusSegment<'a>| x@),
            s@.glyphs == system.glyphs,
            !s@.colorless,
            s@.overflow_hint.is_none(),
    {
        StatusStrip { segments, system, colorless: false, overflow_hint: None }
    }

    /// Drops every hue.
    pub fn colorless(self, colorless: bool) -> (s: Self)
        ensures
            s@ == (StripModel { colorless, ..self@ }),
    {
        StatusStrip { colorless, ..self }
    }

    /// Trailing hint painted when segments had to drop.
    pub fn overflow_hint(self, hint: &'a str) -> (s: Self)
        ensures
            s@ == (StripModel { overflow_hint: Some(hint@), ..self@ }),
    {
        StatusStrip { overflow_hint: Some(hint), ..self }
    }

    /// The segments, in order.
    pub fn segments(&self) -> (s: &'a [StatusSegment<'a>])
        ensures
            s@.map_values(|x: StatusSegment<'a>| x@) == self@.segments,
    {
        self.segments
    }

    /// The glyph profile of the strip's system.
    pub fn glyphs(&self) -> (g: GlyphSet)
        ensures
            g == self@.glyphs,
    {
        self.system.glyphs
    }

    /// Whether the strip paints without hue.
    pub fn is_colorless(&self) -> (b: bool)
        ensures
            b == self@.colorless,
    {
        self.colorless
    }

    /// The overflow hint, if any.
    pub fn hint(&self) -> (h: Option<&'a str>)
        ensures
            match h { Some(t) => self@.overflow_hint == Some(t@), None => self@.overflow_hint is None },
    {
        self.overflow_hint
    }

    fn segment_cols(&self) -> (cols: Vec<usize>)
        ensures
            cols@.map_values(|c: usize| c as int) == seg_cols(self@.segments, self@.glyphs),
            cols.len() == self@.segments.len(),
    {
        let mut cols: Vec<usize> = Vec::new();
        let mut i: usize = 0;
        while i < self.segments.len()
            invariant
                i <= self.segments.len(),
                cols.len() == i,
                forall|j: int| 0 <= j < i ==> cols@[j] as int == str_width(
                    self.segments@[j]@.display_text_spec(self.system.glyphs)),
            decreases self.segments.len() - i,
        {
            let t = self.segments[i].display_text(self.system.glyphs);
            cols.push(display_cols(t.as_str()));
            i = i + 1;
        }
        assert(cols@.map_values(|c: usize| c as int) =~= seg_cols(self@.segments, self@.glyphs));
        cols
    }

    fn segment_priorities(&self) -> (p: Vec<u8>)
        ensures
            p@ == seg_priorities(self@.segments),
    {
        let mut p: Vec<u8> = Vec::new();
        let mut i: usize = 0;
        while i < self.segments.len()
            invariant
                i <= self.segments.len(),
                p.len() == i,
                forall|j: int| 0 <= j < i ==> p@[j] == self.segments@[j]@.priority,
            decreases self.segments.len() - i,
        {
            p.push(self.segments[i].priority);
            i = i + 1;
        }
        assert(p@ =~= seg_priorities(self@.segments));
        p
    }

    /// Roles the segments at `kept` paint in, in order: each asks for its
    /// tone's role and the strip's hue budget decides (see
    /// [`budgeted_role`]).
    pub fn painted_roles(&self, kept: &[usize]) -> (out: Vec<Role>)
        requires
            forall|j: int| 0 <= j < kept@.len() ==> (#[trigger] kept@[j] as int) < self@.segments.len(),
        ensures
            out@.len() == kept@.len(),
            forall|j: int| 0 <= j < kept@.len() ==> out@[j] == budgeted_role(
                Seq::new(kept@.len(), |i: int| self@.segments[kept@[i] as int].role_spec()), j, self@.colorless),
    {
        let mut requested: Vec<Role> = Vec::new();
        let mut i: usize = 0;
        while i < kept.len()
            invariant
                i <= kept@.len(),
                requested@.len() == i,
                forall|j: int| 0 <= j < kept@.len() ==> (#[trigger] kept@[j] as int) < self@.segments.len(),
                forall|j: int| 0 <= j < i ==> requested@[j] == self@.segments[kept@[j] as int].role_spec(),
            decreases kept@.len() - i,
        {
            let k = kept[i];
            assert(self@.segments[k as int] == self.segments@[k as int]@);
            requested.push(self.segments[k].role());
            i = i + 1;
        }
        assert(requested@ =~= Seq::new(kept@.len(), |i: int| self@.segments[kept@[i] as int].role_spec()));
        budget_roles(&requested, self.colorless)
    }

    /// The segments that survive `width`, in paint order.
    ///
    /// Contraction is by stated priority, not by position; when something
    /// drops and a hint is set, the hint's columns are paid for and the fit
    /// runs again.
    pub fn visible(&self, width: u16) -> (kept: Vec<usize>)
        ensures
            kept@ == self@.visible_spec(width as int),
    {
        let prios = self.segment_priorities();
        let cols = self.segment_cols();
        let sep = display_cols(self.system.glyphs.meta_join());
        let kept = fit_columns(prios.as_slice(), cols.as_slice(), sep, width as usize, width);
        if kept.len() == self.segments.len() {
            return kept;
        }
        let reserve: usize = match self.overflow_hint {
            Some(hint) => display_cols(hint).saturating_add(sep),
            None => 0,
        };
        if reserve == 0 {
            return kept;
        }
        fit_columns(prios.as_slice(), cols.as_slice(), sep, (width as usize).saturating_sub(reserve), width)
    }
}

} // verus!

verus! {

/// The role painted at position `j` of the requested roles after the budget:
/// the first status hue and the first accent survive, later ones fall to the
/// quiet tier; colorless strips keep only the first segment in body text.
pub open spec fn budgeted_role(roles: Seq<Role>, j: int, colorless: bool) -> Role {
    if colorless {
        if j == 0 { Role::Text } else { role_quiet_spec(roles[j]) }
    } else if is_status_hue_spec(roles[j]) {
        if exists|k: int| 0 <= k < j && is_status_hue_spec(#[trigger] roles[k]) {
            role_quiet_spec(roles[j])
        } else {
            roles[j]
        }
    } else if roles[j] == Role::Accent {
        if exists|k: int| 0 <= k < j && #[trigger] roles[k] == Role::Accent {
            role_quiet_spec(roles[j])
        } else {
            roles[j]
        }
    } else {
        roles[j]
    }
}

/// Applies the hue budget to requested roles, in paint order.
pub fn budget_roles(roles: &[Role], colorless: bool) -> (out: Vec<Role>)
    ensures
        out.len() == roles.len(),
        forall|j: int| 0 <= j < roles.len() ==> out@[j] == budgeted_role(roles@, j, colorless),
{
    let mut out: Vec<Role> = Vec::new();
    let mut spent_hue = false;
    let mut spent_accent = false;
    let mut i: usize = 0;
    while i < roles.len()
        invariant
            i <= roles.len(),
            out.len() == i,
            spent_hue == exists|k: int| 0 <= k < i && is_status_hue_spec(#[trigger] roles@[k]),
            spent_accent == exists|k: int| 0 <= k < i && #[trigger] roles@[k] == Role::Accent,
            forall|j: int| 0 <= j < i ==> out@[j] == budgeted_role(roles@, j, colorless),
        decreases roles.len() - i,
    {
        let requested = roles[i];
        let role = if colorless {
            if i == 0 { Role::Text } else { role_quiet(requested) }
        } else if is_status_hue(requested) {
            if spent_hue { role_quiet(requested) } else { requested }
        } else if requested == Role::Accent {
            if spent_accent { role_quiet(requested) } else { requested }
        } else {
            requested
        };
        if is_status_hue(requested) {
            spent_hue = true;
        }
        if requested == Role::Accent {
            spent_accent = true;
        }
        out.push(role);
        proof {
            assert(out@[i as int] == budgeted_role(roles@, i as int, colorless));
            assert(spent_hue == exists|k: int| 0 <= k < i + 1 && is_status_hue_spec(#[trigger] roles@[k])) by {
                if is_status_hue_spec(requested) {
                    assert(is_status_hue_spec(roles@[i as int]));
                }
            }
            assert(spent_accent == exists|k: int| 0 <= k < i + 1 && #[trigger] roles@[k] == Role::Accent) by {
                if requested == Role::Accent {
                    assert(roles@[i as int] == Role::Accent);
                }
            }
        }
        i = i + 1;
    }
    out
}

/// A strip spends at most one status hue and at most one accent.
pub proof fn law_one_hue_one_accent(roles: Seq<Role>, colorless: bool)
    ensures
        forall|a: int, b: int|
            0 <= a < b < roles.len() && is_status_hue_spec(#[trigger] budgeted_role(roles, a, colorless))
                ==> !is_status_hue_spec(#[trigger] budgeted_role(roles, b, colorless)),
        forall|a: int, b: int|
            0 <= a < b < roles.len() && #[trigger] budgeted_role(roles, a, colorless) == Role::Accent
                ==> #[trigger] budgeted_role(roles, b, colorless) != Role::Accent,
        colorless ==> forall|j: int| 0 <= j < roles.len() ==> !is_status_hue_spec(
            #[trigger] budgeted_role(roles, j, colorless)) && budgeted_role(roles, j, colorless) != Role::Accent,
{
    assert forall|a: int, b: int|
        0 <= a < b < roles.len() && is_status_hue_spec(#[trigger] budgeted_role(roles, a, colorless))
            implies !is_status_hue_spec(#[trigger] budgeted_role(roles, b, colorless)) by {
        if !colorless && is_status_hue_spec(roles[b]) {
            assert(is_status_hue_spec(roles[a]));
        }
    }
    assert forall|a: int, b: int|
        0 <= a < b < roles.len() && #[trigger] budgeted_role(roles, a, colorless) == Role::Accent
            implies #[trigger] budgeted_role(roles, b, colorless) != Role::Accent by {
        if !colorless && roles[b] == Role::Accent {
            assert(roles[a] == Role::Accent);
        }
    }
}

} // verus!

verus! {

/// Whether segment `j` is visited before position (`p`, `i`) of the fit.
pub open spec fn visited_before(prios: Seq<u8>, j: int, p: int, i: int) -> bool {
    prios[j] as int > p || (prios[j] as int == p && j < i)
}

proof fn lemma_count_zero(prios: Seq<u8>, cols: Seq<int>, sep: int, budget: int, p: int, i: int)
    requires
        0 <= p,
        forall|j: int| 0 <= j < prios.len() ==> !#[trigger] visited_before(prios, j, p, i),
    ensures
        fit_upto(prios, cols, sep, budget, p, i).count == 0,
    decreases 256 - p, i,
{
    if p >= 256 || p < 0 {
    } else if i <= 0 {
        assert forall|j: int| 0 <= j < prios.len() implies !#[trigger] visited_before(prios, j, p + 1, prios.len() as int) by {
            assert(!visited_before(prios, j, p, i));
        }
        lemma_count_zero(prios, cols, sep, budget, p + 1, prios.len() as int);
    } else if i > prios.len() {
        assert forall|j: int| 0 <= j < prios.len() implies !#[trigger] visited_before(prios, j, p, prios.len() as int) by {
            assert(!visited_before(prios, j, p, i));
        }
        lemma_count_zero(prios, cols, sep, budget, p, prios.len() as int);
    } else {
        assert(!visited_before(prios, i - 1, p, i));
        assert forall|j: int| 0 <= j < prios.len() implies !#[trigger] visited_before(prios, j, p, i - 1) by {
            assert(!visited_before(prios, j, p, i));
        }
        lemma_count_zero(prios, cols, sep, budget, p, i - 1);
    }
}

proof fn lemma_persist(prios: Seq<u8>, cols: Seq<int>, sep: int, budget: int, p: int, i: int, q: int, k: int, j: int)
    requires
        cols.len() == prios.len(),
        forall|x: int| 0 <= x < cols.len() ==> cols[x] >= 0,
        sep >= 0,
        0 <= q <= p < 256,
        0 <= i <= prios.len(),
        0 <= k <= prios.len(),
        q < p || k >= i,
        0 <= j < prios.len(),
        fit_upto(prios, cols, sep, budget, p, i).kept[j],
    ensures
        fit_upto(prios, cols, sep, budget, q, k).kept[j],
    decreases 256 - q, k,
{
    if q == p && k == i {
    } else if k <= 0 {
        lemma_persist(prios, cols, sep, budget, p, i, q + 1, prios.len() as int, j);
    } else {
        lemma_persist(prios, cols, sep, budget, p, i, q, k - 1, j);
        lemma_fit_upto_shape(prios, cols, sep, budget, q, k - 1);
    }
}

/// The segment visited first by the fit (highest priority, lowest index among
/// equals) is always kept.
pub proof fn law_first_in_priority_is_kept(prios: Seq<u8>, cols: Seq<int>, sep: int, budget: int, m: int)
    requires
        cols.len() == prios.len(),
        forall|x: int| 0 <= x < cols.len() ==> cols[x] >= 0,
        sep >= 0,
        0 <= m < prios.len(),
        forall|j: int| 0 <= j < prios.len() ==> prios[j] <= prios[m],
        forall|j: int| 0 <= j < m ==> prios[j] < prios[m],
    ensures
        fit_kept(prios, cols, sep, budget)[m],
{
    let pm = prios[m] as int;
    lemma_count_zero(prios, cols, sep, budget, pm, m);
    lemma_fit_upto_shape(prios, cols, sep, budget, pm, m);
    assert(fit_upto(prios, cols, sep, budget, pm, m + 1).kept[m]);
    lemma_persist(prios, cols, sep, budget, pm, m + 1, 0, prios.len() as int, m);
}

/// Once two or more segments are kept, the kept columns (separators
/// included) fit the budget; only the single actionable segment may overflow.
pub proof fn law_fit_within_budget(prios: Seq<u8>, cols: Seq<int>, sep: int, budget: int)
    requires
        cols.len() == prios.len(),
        forall|x: int| 0 <= x < cols.len() ==> cols[x] >= 0,
        sep >= 0,
    ensures
        ({
            let st = fit_upto(prios, cols, sep, budget, 0, prios.len() as int);
            st.count <= 1 || st.used <= budget
        }),
{
    lemma_fit_upto_budget(prios, cols, sep, budget, 0, prios.len() as int);
}

/// The actionable segment — highest priority, first among equals — is
/// visible at every non-zero width.
pub proof fn law_actionable_segment_survives(strip: StripModel, width: int, m: int)
    requires
        strip.segments.len() <= usize::MAX,
        0 < width <= u16::MAX,
        0 <= m < strip.segments.len(),
        forall|j: int| 0 <= j < strip.segments.len() ==> strip.segments[j].priority <= strip.segments[m].priority,
        forall|j: int| 0 <= j < m ==> strip.segments[j].priority < strip.segments[m].priority,
    ensures
        strip.visible_spec(width).contains(m as usize),
{
    let prios = seg_priorities(strip.segments);
    let cols = seg_cols(strip.segments, strip.glyphs);
    let sep = strip.sep_cols();
    let n = strip.segments.len() as int;
    assert forall|j: int| 0 <= j < prios.len() implies prios[j] <= prios[m] by {
        assert(strip.segments[j].priority <= strip.segments[m].priority);
    }
    assert forall|j: int| 0 <= j < m implies prios[j] < prios[m] by {
        assert(strip.segments[j].priority < strip.segments[m].priority);
    }
    law_first_in_priority_is_kept(prios, cols, sep, width, m);
    law_first_in_priority_is_kept(prios, cols, sep, sat_sub_int(width, strip.hint_reserve()), m);
    lemma_fit_upto_shape(prios, cols, sep, width, 0, n);
    lemma_fit_upto_shape(prios, cols, sep, sat_sub_int(width, strip.hint_reserve()), 0, n);
    lemma_indices_of(fit_kept(prios, cols, sep, width), n);
    lemma_indices_of(fit_kept(prios, cols, sep, sat_sub_int(width, strip.hint_reserve())), n);
}

/// The visible segments come out in ascending index order, each at most
/// once, every one a segment of the strip.
pub proof fn law_visible_ascending(strip: StripModel, width: int)
    requires
        strip.segments.len() <= usize::MAX,
    ensures
        forall|a: int| 0 <= a < strip.visible_spec(width).len()
            ==> (#[trigger] strip.visible_spec(width)[a] as int) < strip.segments.len(),
        forall|a: int, b: int| 0 <= a < b < strip.visible_spec(width).len()
            ==> strip.visible_spec(width)[a] < strip.visible_spec(width)[b],
{
    let prios = seg_priorities(strip.segments);
    let cols = seg_cols(strip.segments, strip.glyphs);
    let sep = strip.sep_cols();
    let n = strip.segments.len() as int;
    assert forall|x: int| 0 <= x < cols.len() implies cols[x] >= 0 by {}
    lemma_fit_upto_shape(prios, cols, sep, width, 0, n);
    lemma_fit_upto_shape(prios, cols, sep, sat_sub_int(width, strip.hint_reserve()), 0, n);
    lemma_indices_of(fit_kept(prios, cols, sep, width), n);
    lemma_indices_of(fit_kept(prios, cols, sep, sat_sub_int(width, strip.hint_reserve())), n);
}

/// Columns of the kept segments among the first `k`.
pub open spec fn kept_sum(kept: Seq<bool>, cols: Seq<int>, k: int) -> int
    decreases k,
{
    if k <= 0 { 0 } else { kept_sum(kept, cols, k - 1) + if kept[k - 1] { cols[k - 1] } else { 0 } }
}

/// Number of kept segments among the first `k`.
pub open spec fn kept_num(kept: Seq<bool>, k: int) -> int
    decreases k,
{
    if k <= 0 { 0 } else { kept_num(kept, k - 1) + if kept[k - 1] { 1int } else { 0int } }
}

proof fn lemma_kept_update(kept: Seq<bool>, cols: Seq<int>, i: int, k: int)
    requires
        0 <= i < kept.len(),
        0 <= k <= kept.len(),
        !kept[i],
    ensures
        kept_sum(kept.update(i, true), cols, k) == kept_sum(kept, cols, k) + if i < k { cols[i] } else { 0 },
        kept_num(kept.update(i, true), k) == kept_num(kept, k) + if i < k { 1int } else { 0int },
    decreases k,
{
    if k > 0 {
        lemma_kept_update(kept, cols, i, k - 1);
    }
}

proof fn lemma_kept_none(kept: Seq<bool>, cols: Seq<int>, k: int)
    requires
        0 <= k <= kept.len(),
        kept_num(kept, k) == 0,
        forall|j: int| 0 <= j < cols.len() ==> cols[j] >= 0,
        cols.len() == kept.len(),
    ensures
        kept_sum(kept, cols, k) == 0,
    decreases k,
{
    if k > 0 {
        lemma_kept_num_nonneg(kept, k - 1);
        lemma_kept_none(kept, cols, k - 1);
    }
}

proof fn lemma_kept_num_nonneg(kept: Seq<bool>, k: int)
    ensures
        kept_num(kept, k) >= 0,
    decreases k,
{
    if k > 0 {
        lemma_kept_num_nonneg(kept, k - 1);
    }
}

/// A segment not yet visited is not kept.
proof fn lemma_unvisited(prios: Seq<u8>, cols: Seq<int>, sep: int, budget: int, p: int, i: int, j: int)
    requires
        cols.len() == prios.len(),
        forall|x: int| 0 <= x < cols.len() ==> cols[x] >= 0,
        sep >= 0,
        0 <= p,
        0 <= j < prios.len(),
        !visited_before(prios, j, p, i),
    ensures
        !fit_upto(prios, cols, sep, budget, p, i).kept[j],
    decreases 256 - p, i,
{
    if p >= 256 || p < 0 {
    } else if i <= 0 {
        lemma_unvisited(prios, cols, sep, budget, p + 1, prios.len() as int, j);
    } else if i > prios.len() {
        lemma_unvisited(prios, cols, sep, budget, p, prios.len() as int, j);
    } else {
        lemma_unvisited(prios, cols, sep, budget, p, i - 1, j);
        lemma_fit_upto_shape(prios, cols, sep, budget, p, i - 1);
    }
}

/// The fit's spent columns are the kept segments' columns plus one
/// separator between each two.
proof fn lemma_fit_cost(prios: Seq<u8>, cols: Seq<int>, sep: int, budget: int, p: int, i: int)
    requires
        cols.len() == prios.len(),
        forall|x: int| 0 <= x < cols.len() ==> cols[x] >= 0,
        sep >= 0,
        0 <= p,
    ensures
        ({
            let st = fit_upto(prios, cols, sep, budget, p, i);
            let n = prios.len() as int;
            &&& st.count == kept_num(st.kept, n)
            &&& st.count >= 1 ==> st.used == kept_sum(st.kept, cols, n) + sep * (st.count - 1)
        }),
    decreases 256 - p, i,
{
    let n = prios.len() as int;
    if p >= 256 || p < 0 {
        let st = fit_upto(prios, cols, sep, budget, p, i);
        assert(st.kept =~= Seq::new(prios.len(), |j: int| false));
        lemma_all_false_num(st.kept, n);
        assert(st.count == kept_num(st.kept, n));
    } else if i <= 0 {
        lemma_fit_cost(prios, cols, sep, budget, p + 1, n);
    } else if i > prios.len() {
        lemma_fit_cost(prios, cols, sep, budget, p, n);
    } else {
        lemma_fit_cost(prios, cols, sep, budget, p, i - 1);
        lemma_fit_upto_shape(prios, cols, sep, budget, p, i - 1);
        lemma_fit_upto_budget(prios, cols, sep, budget, p, i - 1);
        let prev = fit_upto(prios, cols, sep, budget, p, i - 1);
        if prios[i - 1] as int == p {
            let cost = if prev.count == 0 { cols[i - 1] } else { cols[i - 1] + sep };
            if prev.count == 0 || prev.used + cost <= budget {
                lemma_unvisited(prios, cols, sep, budget, p, i - 1, i - 1);
                lemma_kept_update(prev.kept, cols, i - 1, n);
                if prev.count == 0 {
                    lemma_kept_none(prev.kept, cols, n);
                } else {
                    let c = prev.count;
                    assert(sep * c == sep * (c - 1) + sep) by (nonlinear_arith);
                }
                let st = fit_upto(prios, cols, sep, budget, p, i);
                assert(st == fit_step(prev, i - 1, cols[i - 1], sep, budget));
                assert(st.kept == prev.kept.update(i - 1, true));
                assert(st.count == prev.count + 1);
                assert(st.count == kept_num(st.kept, n));
                assert(st.used == kept_sum(st.kept, cols, n) + sep * (st.count - 1));
            }
        }
    }
}

proof fn lemma_all_false_num(kept: Seq<bool>, k: int)
    requires
        0 <= k <= kept.len(),
        forall|j: int| 0 <= j < kept.len() ==> !kept[j],
    ensures
        kept_num(kept, k) == 0,
    decreases k,
{
    if k > 0 {
        lemma_all_false_num(kept, k - 1);
    }
}

/// Once two or more segments are kept, their columns and one separator
/// between each two fit the budget exactly as spent; only a lone segment may
/// overflow it.
pub proof fn law_kept_columns_fit(prios: Seq<u8>, cols: Seq<int>, sep: int, budget: int)
    requires
        cols.len() == prios.len(),
        forall|x: int| 0 <= x < cols.len() ==> cols[x] >= 0,
        sep >= 0,
    ensures
        ({
            let kept = fit_kept(prios, cols, sep, budget);
            let n = prios.len() as int;
            kept_num(kept, n) >= 2 ==> kept_sum(kept, cols, n) + sep * (kept_num(kept, n) - 1) <= budget
        }),
{
    lemma_fit_cost(prios, cols, sep, budget, 0, prios.len() as int);
    lemma_fit_upto_budget(prios, cols, sep, budget, 0, prios.len() as int);
}

/// Columns of the segments at `idx`.
pub open spec fn index_sum(idx: Seq<usize>, cols: Seq<int>) -> int
    decreases idx.len(),
{
    if idx.len() == 0 { 0 } else { index_sum(idx.drop_last(), cols) + cols[idx.last() as int] }
}

proof fn lemma_indices_sum(kept: Seq<bool>, cols: Seq<int>, k: int)
    requires
        0 <= k <= kept.len(),
        kept.len() <= usize::MAX,
    ensures
        index_sum(indices_of(kept, k), cols) == kept_sum(kept, cols, k),
        indices_of(kept, k).len() == kept_num(kept, k),
    decreases k,
{
    if k > 0 {
        lemma_indices_sum(kept, cols, k - 1);
        if kept[k - 1] {
            let prev = indices_of(kept, k - 1);
            assert(indices_of(kept, k).drop_last() =~= prev);
        }
    }
}

/// The fit keeps, in ascending order and each in range, the segment visited
/// first (highest priority, lowest index among equals) and as many more as
/// fit: their columns with one separator between each two stay within the
/// budget, or are the first segment's columns alone when it is kept alone.
pub proof fn law_fit_keeps_first_within_budget(prios: Seq<u8>, cols: Seq<int>, sep: int, budget: int, width: int, i0: int)
    requires
        cols.len() == prios.len(),
        prios.len() <= usize::MAX,
        forall|x: int| 0 <= x < cols.len() ==> cols[x] >= 0,
        sep >= 0,
        width != 0,
        0 <= i0 < prios.len(),
        forall|j: int| 0 <= j < prios.len() ==> prios[j] <= prios[i0],
        forall|j: int| 0 <= j < i0 ==> prios[j] < prios[i0],
    ensures
        ({
            let k = fit_spec(prios, cols, sep, budget, width);
            &&& forall|a: int| 0 <= a < k.len() ==> (#[trigger] k[a] as int) < prios.len()
            &&& forall|a: int, b: int| 0 <= a < b < k.len() ==> k[a] < k[b]
            &&& k.contains(i0 as usize)
            &&& index_sum(k, cols) + sep * (k.len() - 1) <= if budget > cols[i0] { budget } else { cols[i0] }
        }),
{
    let n = prios.len() as int;
    let kept = fit_kept(prios, cols, sep, budget);
    lemma_fit_upto_shape(prios, cols, sep, budget, 0, n);
    law_first_in_priority_is_kept(prios, cols, sep, budget, i0);
    lemma_indices_of(kept, n);
    lemma_indices_sum(kept, cols, n);
    law_kept_columns_fit(prios, cols, sep, budget);
    let k = indices_of(kept, n);
    assert(fit_spec(prios, cols, sep, budget, width) == k);
    assert(k.contains(i0 as usize));
    assert(k.len() == kept_num(kept, n));
    assert(index_sum(k, cols) == kept_sum(kept, cols, n));
    if k.len() == 1 {
        let a = choose|a: int| 0 <= a < k.len() && k[a] == i0 as usize;
        assert(a == 0);
        assert(k.drop_last() =~= Seq::<usize>::empty());
        assert(index_sum(k.drop_last(), cols) == 0);
        assert(k.last() == i0 as usize);
        assert(index_sum(k, cols) == cols[i0]);
        assert(sep * (k.len() - 1) == 0) by (nonlinear_arith) requires k.len() == 1;
    } else {
        assert(k.len() >= 2);
        assert(kept_sum(kept, cols, n) + sep * (kept_num(kept, n) - 1) <= budget);
    }
}

} // verus!
