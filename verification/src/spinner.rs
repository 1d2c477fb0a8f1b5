//! Spinner and activity indicator: a glyph that always pairs with a verb,
//! one braille frame set at one cadence, a settled mark when done, and no
//! frame demand while inactive, hidden or not animating.

use vstd::prelude::*;
use crate::geometry::{sat_add, Rect};
use crate::semantic_status::SemanticStatus;
use crate::style::DesignSystem;
use crate::text::{chars_of, char_is_whitespace, is_whitespace};

verus! {

/// Frame period, in milliseconds, of the braille cadence.
pub const SPINNER_DEFAULT_PERIOD_MS: u64 = 80;

/// Motion preference of the host.
#[derive(Debug, Clone, Copy, PartialEq, Eq, Hash, Structural)]
pub enum MotionPolicy {
    /// Animate.
    Full,
    /// Reduced motion: static marks.
    Reduced,
    /// No motion at all.
    Off,
}

impl Default for MotionPolicy {
    /// `Full`.
    fn default() -> (r: MotionPolicy)
        ensures
            r == MotionPolicy::Full,
    {
        MotionPolicy::Full
    }
}

impl MotionPolicy {
    /// Whether spinners advance frames under this policy.
    pub open spec fn animate_spinners_spec(self) -> bool {
        self == MotionPolicy::Full
    }

    /// Whether spinners advance frames under this policy.
    pub fn animate_spinners(self) -> (b: bool)
        ensures
            b == self.animate_spinners_spec(),
    {
        match self {
            MotionPolicy::Full => true,
            _ => false,
        }
    }
}

/// A frame of the host clock: time since the animation epoch and the frame
/// budget, in milliseconds.
#[derive(Debug, Clone, Copy, PartialEq, Eq, Structural)]
pub struct FrameTick {
    /// Elapsed time.
    pub elapsed_ms: u64,
    /// Frame budget.
    pub frame_ms: u64,
}

impl FrameTick {
    /// A tick at `elapsed_ms` with a `frame_ms` budget.
    pub fn manual(elapsed_ms: u64, frame_ms: u64) -> (t: Self)
        ensures
            t.elapsed_ms == elapsed_ms,
            t.frame_ms == frame_ms,
    {
        FrameTick { elapsed_ms, frame_ms }
    }
}

/// Whether the host should redraw, and by when.
#[derive(Debug, Clone, Copy, PartialEq, Eq, Structural)]
pub struct AnimationDemand {
    /// Redraw wanted.
    pub needs_redraw: bool,
    /// Next redraw deadline (elapsed milliseconds).
    pub next_deadline_ms: Option<u64>,
}

impl AnimationDemand {
    /// No redraw wanted.
    pub fn idle() -> (d: Self)
        ensures
            !d.needs_redraw,
            d.next_deadline_ms.is_none(),
    {
        AnimationDemand { needs_redraw: false, next_deadline_ms: None }
    }
}

/// Frame index at a tick: elapsed periods modulo the frame count; the first
/// frame when motion is off or nothing can advance.
pub open spec fn spinner_step_spec(tick: FrameTick, len: int, period: int, motion: MotionPolicy) -> int {
    if len <= 0 || period <= 0 || !motion.animate_spinners_spec() {
        0
    } else {
        (tick.elapsed_ms as int / period) % len
    }
}

/// Frame index at a tick (see [`spinner_step_spec`]).
pub fn spinner_step(tick: FrameTick, len: usize, period_ms: u64, motion: MotionPolicy) -> (i: usize)
    ensures
        i as int == spinner_step_spec(tick, len as int, period_ms as int, motion),
        len > 0 ==> i < len,
{
    if len == 0 || period_ms == 0 || !motion.animate_spinners() {
        return 0;
    }
    let q = tick.elapsed_ms / period_ms;
    (q % (len as u64)) as usize
}

/// Redraw demand of an active spinner: the next braille frame is due one
/// period from now; idle when inactive or when motion is off.
pub open spec fn spinner_demand_spec(tick: FrameTick, motion: MotionPolicy, active: bool) -> AnimationDemand {
    if active && motion.animate_spinners_spec() {
        AnimationDemand {
            needs_redraw: true,
            next_deadline_ms: Some(sat_add64(tick.elapsed_ms as int, SPINNER_DEFAULT_PERIOD_MS as int) as u64),
        }
    } else {
        AnimationDemand { needs_redraw: false, next_deadline_ms: None }
    }
}

/// `a + b` saturated at `u64::MAX`.
pub open spec fn sat_add64(a: int, b: int) -> int {
    if a + b > u64::MAX { u64::MAX as int } else { a + b }
}

/// Redraw demand of a spinner (see [`spinner_demand_spec`]).
pub fn spinner_demand(tick: FrameTick, motion: MotionPolicy, active: bool) -> (d: AnimationDemand)
    ensures
        d == spinner_demand_spec(tick, motion, active),
{
    if active && motion.animate_spinners() {
        AnimationDemand { needs_redraw: true, next_deadline_ms: Some(tick.elapsed_ms.saturating_add(SPINNER_DEFAULT_PERIOD_MS)) }
    } else {
        AnimationDemand::idle()
    }
}

/// The braille frame set.
pub open spec fn braille_frames_spec() -> Seq<Seq<char>> {
    seq!["⠋"@, "⠙"@, "⠹"@, "⠸"@, "⠼"@, "⠴"@, "⠦"@, "⠧"@, "⠇"@, "⠏"@]
}

/// The braille frame set, in order.
pub fn spinner_braille_frames() -> (v: Vec<&'static str>)
    ensures
        v@.len() == 10,
        forall|i: int| 0 <= i < 10 ==> #[trigger] v@[i]@ == braille_frames_spec()[i],
{
    vec!["⠋", "⠙", "⠹", "⠸", "⠼", "⠴", "⠦", "⠧", "⠇", "⠏"]
}

/// One braille frame.
pub fn braille_frame(i: usize) -> (s: &'static str)
    requires
        i < 10,
    ensures
        s@ == braille_frames_spec()[i as int],
{
    let v = spinner_braille_frames();
    v[i]
}

/// Semantic activity phase.
#[derive(Debug, Clone, Copy, PartialEq, Eq, Hash, Structural)]
pub enum ActivityPhase {
    /// Work in progress.
    Indeterminate,
    /// Blocked on input or delay.
    Waiting,
    /// Scheduled, not running.
    Queued,
    /// Reconnecting.
    Reconnecting,
    /// Content arriving.
    Streaming,
    /// Finished; never animates.
    Done,
}

impl Default for ActivityPhase {
    /// `Indeterminate`.
    fn default() -> (r: ActivityPhase)
        ensures
            r == ActivityPhase::Indeterminate,
    {
        ActivityPhase::Indeterminate
    }
}

impl ActivityPhase {
    /// Stable id.
    pub open spec fn id_spec(self) -> Seq<char> {
        match self {
            ActivityPhase::Indeterminate => "indeterminate"@,
            ActivityPhase::Waiting => "waiting"@,
            ActivityPhase::Queued => "queued"@,
            ActivityPhase::Reconnecting => "reconnecting"@,
            ActivityPhase::Streaming => "streaming"@,
            ActivityPhase::Done => "done"@,
        }
    }

    /// Stable id.
    pub fn id(self) -> (s: &'static str)
        ensures
            s@ == self.id_spec(),
    {
        match self {
            ActivityPhase::Indeterminate => "indeterminate",
            ActivityPhase::Waiting => "waiting",
            ActivityPhase::Queued => "queued",
            ActivityPhase::Reconnecting => "reconnecting",
            ActivityPhase::Streaming => "streaming",
            ActivityPhase::Done => "done",
        }
    }

    /// Verb shown when the host gives none.
    pub open spec fn default_verb_spec(self) -> Seq<char> {
        match self {
            ActivityPhase::Indeterminate => "Working"@,
            ActivityPhase::Waiting => "Waiting"@,
            ActivityPhase::Queued => "Queued"@,
            ActivityPhase::Reconnecting => "Reconnecting"@,
            ActivityPhase::Streaming => "Streaming"@,
            ActivityPhase::Done => "Done"@,
        }
    }

    /// Verb shown when the host gives none.
    pub fn default_verb(self) -> (s: &'static str)
        ensures
            s@ == self.default_verb_spec(),
    {
        match self {
            ActivityPhase::Indeterminate => "Working",
            ActivityPhase::Waiting => "Waiting",
            ActivityPhase::Queued => "Queued",
            ActivityPhase::Reconnecting => "Reconnecting",
            ActivityPhase::Streaming => "Streaming",
            ActivityPhase::Done => "Done",
        }
    }

    /// Whether the phase advances frames: queued and done never do.
    pub open spec fn animates_spec(self) -> bool {
        self != ActivityPhase::Queued && self != ActivityPhase::Done
    }

    /// Whether the phase advances frames.
    pub fn animates(self) -> (b: bool)
        ensures
            b == self.animates_spec(),
    {
        match self {
            ActivityPhase::Queued | ActivityPhase::Done => false,
            _ => true,
        }
    }

    /// Frame period: the one braille cadence.
    pub fn period_ms(self) -> (p: u64)
        ensures
            p == SPINNER_DEFAULT_PERIOD_MS,
    {
        SPINNER_DEFAULT_PERIOD_MS
    }

    /// Lifecycle status the phase projects to.
    pub open spec fn semantic_spec(self) -> SemanticStatus {
        match self {
            ActivityPhase::Indeterminate | ActivityPhase::Streaming => SemanticStatus::Running,
            ActivityPhase::Waiting | ActivityPhase::Reconnecting => SemanticStatus::Waiting,
            ActivityPhase::Queued => SemanticStatus::Queued,
            ActivityPhase::Done => SemanticStatus::Success,
        }
    }

    /// Lifecycle status the phase projects to.
    pub fn semantic(self) -> (s: SemanticStatus)
        ensures
            s == self.semantic_spec(),
    {
        match self {
            ActivityPhase::Indeterminate | ActivityPhase::Streaming => SemanticStatus::Running,
            ActivityPhase::Waiting | ActivityPhase::Reconnecting => SemanticStatus::Waiting,
            ActivityPhase::Queued => SemanticStatus::Queued,
            ActivityPhase::Done => SemanticStatus::Success,
        }
    }
}

/// Presentation density.
#[derive(Debug, Clone, Copy, PartialEq, Eq, Hash, Structural)]
pub enum SpinnerVariant {
    /// Glyph and label.
    Labeled,
    /// Glyph only; needs a labeling control around it.
    CompactInline,
}

impl Default for SpinnerVariant {
    /// `Labeled`.
    fn default() -> (r: SpinnerVariant)
        ensures
            r == SpinnerVariant::Labeled,
    {
        SpinnerVariant::Labeled
    }
}

/// Spinner runtime: the active and visible gates stop redraw demand.
#[derive(Debug, Clone, Copy, PartialEq, Eq)]
pub struct SpinnerState {
    active: bool,
    visible: bool,
    phase: ActivityPhase,
    period_ms: u64,
    embedded_in_labeled_control: bool,
    variant: SpinnerVariant,
}

/// Mathematical model of the spinner state.
pub struct SpinnerModel {
    /// Work in flight.
    pub active: bool,
    /// Painted.
    pub visible: bool,
    /// Phase.
    pub phase: ActivityPhase,
    /// Host frame period override.
    pub period_ms: u64,
    /// Inside a control that already labels the action.
    pub embedded: bool,
    /// Variant.
    pub variant: SpinnerVariant,
}

impl View for SpinnerState {
    type V = SpinnerModel;

    closed spec fn view(&self) -> SpinnerModel {
        SpinnerModel {
            active: self.active,
            visible: self.visible,
            phase: self.phase,
            period_ms: self.period_ms,
            embedded: self.embedded_in_labeled_control,
            variant: self.variant,
        }
    }
}

impl SpinnerModel {
    /// Whether the host should schedule ticks.
    pub open spec fn should_tick(self) -> bool {
        self.active && self.visible && self.phase.animates_spec()
    }

    /// The phase owns the cadence unless the host set its own period.
    pub open spec fn frame_period(self) -> int {
        if self.period_ms == SPINNER_DEFAULT_PERIOD_MS { SPINNER_DEFAULT_PERIOD_MS as int } else { self.period_ms as int }
    }

    /// Frames for the phase and motion: the settled check when done, the
    /// first braille frame when motion is off or the phase does not
    /// animate, else the whole braille set.
    pub open spec fn frames(self, motion: MotionPolicy) -> Seq<Seq<char>> {
        if self.phase == ActivityPhase::Done {
            seq!["✓"@]
        } else if !motion.animate_spinners_spec() || !self.phase.animates_spec() {
            seq![braille_frames_spec()[0]]
        } else {
            braille_frames_spec()
        }
    }

    /// Glyph at a tick: the first frame unless ticking under full motion,
    /// else the frame the clock has reached.
    pub open spec fn frame_glyph(self, tick: FrameTick, motion: MotionPolicy) -> Seq<char> {
        let f = self.frames(motion);
        if !self.should_tick() || !motion.animate_spinners_spec() || !self.phase.animates_spec() {
            f[0]
        } else {
            f[spinner_step_spec(tick, f.len() as int, self.frame_period(), motion)]
        }
    }

    /// Redraw demand: idle unless ticking; under full motion the next frame
    /// is due one period (at least 16 ms) from now.
    pub open spec fn animation_demand(self, tick: FrameTick, motion: MotionPolicy) -> AnimationDemand {
        if !self.should_tick() {
            AnimationDemand { needs_redraw: false, next_deadline_ms: None }
        } else {
            let period = if self.frame_period() < 16 { 16 } else { self.frame_period() };
            let base = spinner_demand_spec(tick, motion, true);
            if !base.needs_redraw {
                base
            } else {
                AnimationDemand { needs_redraw: true, next_deadline_ms: Some(sat_add64(tick.elapsed_ms as int, period) as u64) }
            }
        }
    }
}

impl SpinnerState {
    /// Active, visible, indeterminate, default cadence, labeled.
    pub fn new() -> (s: Self)
        ensures
            s@ == (SpinnerModel {
                active: true,
                visible: true,
                phase: ActivityPhase::Indeterminate,
                period_ms: SPINNER_DEFAULT_PERIOD_MS,
                embedded: false,
                variant: SpinnerVariant::Labeled,
            }),
    {
        SpinnerState {
            active: true,
            visible: true,
            phase: ActivityPhase::Indeterminate,
            period_ms: SPINNER_DEFAULT_PERIOD_MS,
            embedded_in_labeled_control: false,
            variant: SpinnerVariant::Labeled,
        }
    }

    /// Work in flight.
    pub fn is_active(&self) -> (b: bool)
        ensures
            b == self@.active,
    {
        self.active
    }

    /// Painted.
    pub fn is_visible(&self) -> (b: bool)
        ensures
            b == self@.visible,
    {
        self.visible
    }

    /// Whether the host should schedule ticks.
    pub fn should_tick(&self) -> (b: bool)
        ensures
            b == self@.should_tick(),
    {
        self.active && self.visible && self.phase.animates()
    }

    /// Phase.
    pub fn phase(&self) -> (p: ActivityPhase)
        ensures
            p == self@.phase,
    {
        self.phase
    }

    /// Variant.
    pub fn variant(&self) -> (v: SpinnerVariant)
        ensures
            v == self@.variant,
    {
        self.variant
    }

    /// Sets the active gate.
    pub fn set_active(&mut self, on: bool)
        ensures
            final(self)@ == (SpinnerModel { active: on, ..old(self)@ }),
    {
        self.active = on;
    }

    /// Sets the visible gate.
    pub fn set_visible(&mut self, on: bool)
        ensures
            final(self)@ == (SpinnerModel { visible: on, ..old(self)@ }),
    {
        self.visible = on;
    }

    /// Sets the phase.
    pub fn set_phase(&mut self, phase: ActivityPhase)
        ensures
            final(self)@ == (SpinnerModel { phase, ..old(self)@ }),
    {
        self.phase = phase;
    }

    /// Marks the spinner as chrome inside a labeling control.
    pub fn set_embedded_in_labeled_control(&mut self, on: bool)
        ensures
            final(self)@ == (SpinnerModel { embedded: on, ..old(self)@ }),
    {
        self.embedded_in_labeled_control = on;
    }

    /// Whether it sits inside a labeling control.
    pub fn embedded_in_labeled_control(&self) -> (b: bool)
        ensures
            b == self@.embedded,
    {
        self.embedded_in_labeled_control
    }

    /// Sets the variant.
    pub fn set_variant(&mut self, v: SpinnerVariant)
        ensures
            final(self)@ == (SpinnerModel { variant: v, ..old(self)@ }),
    {
        self.variant = v;
    }

    /// Frame period in milliseconds.
    pub fn frame_period_ms(&self) -> (p: u64)
        ensures
            p as int == self@.frame_period(),
    {
        if self.period_ms == SPINNER_DEFAULT_PERIOD_MS { self.phase.period_ms() } else { self.period_ms }
    }

    /// Redraw demand for the host clock.
    pub fn animation_demand(&self, tick: FrameTick, motion: MotionPolicy) -> (d: AnimationDemand)
        ensures
            d == self@.animation_demand(tick, motion),
    {
        if !self.should_tick() {
            return AnimationDemand::idle();
        }
        let p = self.frame_period_ms();
        let period = if p < 16 { 16 } else { p };
        let base = spinner_demand(tick, motion, true);
        if !base.needs_redraw {
            return base;
        }
        AnimationDemand { needs_redraw: true, next_deadline_ms: Some(tick.elapsed_ms.saturating_add(period)) }
    }

    /// Frames for the phase and motion.
    pub fn frames(&self, motion: MotionPolicy) -> (v: Vec<&'static str>)
        ensures
            v@.len() == self@.frames(motion).len(),
            forall|i: int| 0 <= i < v@.len() ==> #[trigger] v@[i]@ == self@.frames(motion)[i],
    {
        if self.phase == ActivityPhase::Done {
            proof {
                reveal_strlit("✓");
            }
            return vec!["✓"];
        }
        if !motion.animate_spinners() || !self.phase.animates() {
            return vec![braille_frame(0)];
        }
        spinner_braille_frames()
    }

    /// Glyph at a tick.
    pub fn frame_glyph(&self, tick: FrameTick, motion: MotionPolicy) -> (g: &'static str)
        ensures
            g@ == self@.frame_glyph(tick, motion),
    {
        let frames = self.frames(motion);
        if !self.should_tick() || !motion.animate_spinners() || !self.phase.animates() {
            return frames[0];
        }
        let step = spinner_step(tick, frames.len(), self.frame_period_ms(), motion);
        frames[step]
    }
}

/// Whether every char is white space (a blank label).
pub open spec fn all_ws(s: Seq<char>) -> bool {
    forall|i: int| 0 <= i < s.len() ==> char_is_whitespace(#[trigger] s[i])
}

/// Whether `s` is blank.
pub fn is_blank(s: &str) -> (b: bool)
    ensures
        b == all_ws(s@),
{
    let v = chars_of(s);
    let mut i: usize = 0;
    while i < v.len()
        invariant
            v@ == s@,
            i <= v.len(),
            forall|j: int| 0 <= j < i ==> char_is_whitespace(#[trigger] v@[j]),
        decreases v.len() - i,
    {
        if !is_whitespace(v[i]) {
            return false;
        }
        i = i + 1;
    }
    true
}

/// A tick-driven spinner: glyph plus label.
#[derive(Debug, Clone, Copy)]
pub struct Spinner<'a> {
    /// Design system.
    pub system: &'a DesignSystem,
    /// Verb.
    pub label: Option<&'a str>,
    /// Inside a labeling control.
    pub embedded: bool,
    /// Phase override.
    pub phase: Option<ActivityPhase>,
    /// Variant override.
    pub variant: Option<SpinnerVariant>,
    /// Paint without hue.
    pub colorless: bool,
}

impl<'a> Spinner<'a> {
    /// An unlabeled spinner.
    pub fn new(system: &'a DesignSystem) -> (s: Self)
        ensures
            s == (Spinner { system, label: None, embedded: false, phase: None, variant: None, colorless: false }),
    {
        Spinner { system, label: None, embedded: false, phase: None, variant: None, colorless: false }
    }

    /// A labeled spinner.
    pub fn labeled(label: &'a str, system: &'a DesignSystem) -> (s: Self)
        ensures
            s == (Spinner { system, label: Some(label), embedded: false, phase: None, variant: None, colorless: false }),
    {
        Spinner { system, label: Some(label), embedded: false, phase: None, variant: None, colorless: false }
    }

    /// Sets the verb.
    pub fn label(self, label: &'a str) -> (s: Self)
        ensures
            s == (Spinner { label: Some(label), ..self }),
    {
        Spinner { label: Some(label), ..self }
    }

    /// Marks it as chrome inside a labeling control.
    pub fn embedded(self, on: bool) -> (s: Self)
        ensures
            s == (Spinner { embedded: on, ..self }),
    {
        Spinner { embedded: on, ..self }
    }

    /// Overrides the phase.
    pub fn phase(self, phase: ActivityPhase) -> (s: Self)
        ensures
            s == (Spinner { phase: Some(phase), ..self }),
    {
        Spinner { phase: Some(phase), ..self }
    }

    /// Overrides the variant.
    pub fn variant(self, v: SpinnerVariant) -> (s: Self)
        ensures
            s == (Spinner { variant: Some(v), ..self }),
    {
        Spinner { variant: Some(v), ..self }
    }

    /// Glyph of a fresh state in this spinner's phase.
    pub fn frame_glyph(&self, tick: FrameTick, motion: MotionPolicy) -> (g: &'static str)
        ensures
            g@ == (SpinnerModel {
                active: true,
                visible: true,
                phase: match self.phase { Some(p) => p, None => ActivityPhase::Indeterminate },
                period_ms: SPINNER_DEFAULT_PERIOD_MS,
                embedded: false,
                variant: SpinnerVariant::Labeled,
            }).frame_glyph(tick, motion),
    {
        let mut state = SpinnerState::new();
        if let Some(p) = self.phase {
            state.set_phase(p);
        }
        state.frame_glyph(tick, motion)
    }

    /// The label law: a glyph-only or embedded spinner needs no label;
    /// otherwise the label must be present and not blank.
    pub fn label_ok(&self, state: &SpinnerState) -> (b: bool)
        ensures
            b == ({
                let embedded = self.embedded || state@.embedded;
                let variant = match self.variant { Some(v) => v, None => state@.variant };
                variant == SpinnerVariant::CompactInline || embedded || match self.label {
                    Some(l) => !all_ws(l@),
                    None => false,
                }
            }),
    {
        let embedded = self.embedded || state.embedded_in_labeled_control();
        let variant = match self.variant { Some(v) => v, None => state.variant() };
        if variant == SpinnerVariant::CompactInline || embedded {
            return true;
        }
        match self.label {
            Some(l) => !is_blank(l),
            None => false,
        }
    }

    /// The state a frame paints from: the spinner's phase, variant and
    /// embedding overrides applied to `m`.
    pub open spec fn frame_state_spec(self, m: SpinnerModel) -> SpinnerModel {
        SpinnerModel {
            phase: match self.phase { Some(p) => p, None => m.phase },
            variant: match self.variant { Some(v) => v, None => m.variant },
            embedded: self.embedded || m.embedded,
            ..m
        }
    }

    /// The state a frame paints from (see [`Spinner::frame_state_spec`]).
    pub fn frame_state(&self, state: &SpinnerState) -> (s: SpinnerState)
        ensures
            s@ == self.frame_state_spec(state@),
    {
        let mut local = *state;
        if let Some(p) = self.phase {
            local.set_phase(p);
        }
        if let Some(v) = self.variant {
            local.set_variant(v);
        }
        if self.embedded {
            local.set_embedded_in_labeled_control(true);
        }
        local
    }

    /// Where a frame's label goes in `area`: two cells after the glyph, in
    /// the rest of the row; none when the spinner is compact (inline, or
    /// inside a labeling control) and has no label of its own, or when the
    /// row is two cells or narrower.
    pub open spec fn label_room_spec(self, m: SpinnerModel, area: Rect) -> Option<(u16, u16)> {
        let f = self.frame_state_spec(m);
        let compact = f.variant == SpinnerVariant::CompactInline || f.embedded;
        if (compact && self.label is None) || area.width <= 2 {
            None
        } else {
            Some((sat_add(area.x as int, 2) as u16, (area.width - 2) as u16))
        }
    }

    /// Where a frame's label goes (see [`Spinner::label_room_spec`]).
    pub fn label_room(&self, state: &SpinnerState, area: Rect) -> (r: Option<(u16, u16)>)
        ensures
            r == self.label_room_spec(state@, area),
    {
        let local = self.frame_state(state);
        let compact = local.variant() == SpinnerVariant::CompactInline || local.embedded_in_labeled_control();
        if (compact && self.label.is_none()) || area.width <= 2 {
            None
        } else {
            Some((area.x.saturating_add(2), area.width - 2))
        }
    }

    /// Label shown: the host's verb when not blank, else the phase's verb.
    pub fn resolved_label(&self, state: &SpinnerState) -> (s: &'a str)
        ensures
            s@ == match self.label {
                Some(l) if !all_ws(l@) => l@,
                _ => (match self.phase { Some(p) => p, None => state@.phase }).default_verb_spec(),
            },
    {
        if let Some(l) = self.label {
            if !is_blank(l) {
                return l;
            }
        }
        let phase = match self.phase { Some(p) => p, None => state.phase() };
        phase.default_verb()
    }
}

/// Activity line: glyph, verb, optional detail.
#[derive(Debug, Clone, Copy)]
pub struct ActivityIndicator<'a> {
    /// Design system.
    pub system: &'a DesignSystem,
    /// Verb.
    pub label: &'a str,
    /// Secondary detail.
    pub detail: Option<&'a str>,
    /// Paint without hue.
    pub colorless: bool,
}

impl<'a> ActivityIndicator<'a> {
    /// An indicator for a verb.
    pub fn new(label: &'a str, system: &'a DesignSystem) -> (a: Self)
        ensures
            a == (ActivityIndicator { system, label, detail: None, colorless: false }),
    {
        ActivityIndicator { system, label, detail: None, colorless: false }
    }

    /// Adds a detail line.
    pub fn detail(self, detail: &'a str) -> (a: Self)
        ensures
            a == (ActivityIndicator { detail: Some(detail), ..self }),
    {
        ActivityIndicator { detail: Some(detail), ..self }
    }

    /// Paint without hue.
    pub fn colorless(self, on: bool) -> (a: Self)
        ensures
            a == (ActivityIndicator { colorless: on, ..self }),
    {
        ActivityIndicator { colorless: on, ..self }
    }

    /// Rows wanted: two with a detail line, else one.
    pub fn measure_height(&self) -> (h: u16)
        ensures
            h == if self.detail is Some { 2u16 } else { 1u16 },
    {
        if self.detail.is_some() { 2 } else { 1 }
    }
}


/// An inactive or hidden spinner asks for no frames.
pub proof fn law_idle_spinner_demands_nothing(m: SpinnerModel, tick: FrameTick, motion: MotionPolicy)
    requires
        !m.active || !m.visible,
    ensures
        !m.animation_demand(tick, motion).needs_redraw,
        m.animation_demand(tick, motion).next_deadline_ms is None,
{
}

/// A queued or finished spinner shows the same glyph at every tick.
pub proof fn law_settled_phase_never_moves(m: SpinnerModel, a: FrameTick, b: FrameTick, motion: MotionPolicy)
    requires
        m.phase == ActivityPhase::Queued || m.phase == ActivityPhase::Done,
    ensures
        m.frame_glyph(a, motion) == m.frame_glyph(b, motion),
{
}

/// With motion off, an in-flight phase parks on the first braille frame and
/// a finished one shows the settled check.
pub proof fn law_motion_off_is_static(m: SpinnerModel, tick: FrameTick)
    ensures
        m.frame_glyph(tick, MotionPolicy::Off) == if m.phase == ActivityPhase::Done {
            "✓"@
        } else {
            braille_frames_spec()[0]
        },
{
}

/// Every animating phase uses the one braille set under full motion, and
/// its glyph is always one of those frames.
pub proof fn law_one_frame_set(m: SpinnerModel, tick: FrameTick)
    requires
        m.phase.animates_spec(),
    ensures
        m.frames(MotionPolicy::Full) == braille_frames_spec(),
        braille_frames_spec().contains(m.frame_glyph(tick, MotionPolicy::Full)),
{
    let f = m.frames(MotionPolicy::Full);
    if !m.should_tick() {
        assert(f[0] == braille_frames_spec()[0]);
    } else {
        let i = spinner_step_spec(tick, 10, m.frame_period(), MotionPolicy::Full);
        assert(0 <= i < 10) by {
            if m.frame_period() > 0 {
                assert(0 <= (tick.elapsed_ms as int / m.frame_period()) % 10 < 10);
            }
        }
        assert(f[i] == braille_frames_spec()[i]);
    }
}

} // verus!
