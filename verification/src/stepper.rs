//! Stepper vocabulary: step statuses with non-color marks, step items,
//! orientation, responsive presentation and navigation policy, and the key
//! map of a stepper.

use vstd::prelude::*;
use crate::geometry::{rect_inside, sat_add, Position, Rect};
use crate::input::{KeyCode, KeyEvent, KeyEventKind, MouseButton, MouseEvent, MouseEventKind};
use crate::interaction::{lemma_roving_lands_on_enabled, roving_move, roving_target, NavigationMove, RovingOrientation, UiIntent};
use crate::style::{DesignSystem, Glyph, GlyphSet};
use crate::text::{concat_str, push_decimal, decimal, string_from_chars};

verus! {

/// Width at or under which an expanded stepper becomes compact.
pub const STEPPER_COMPACT_MAX_WIDTH: u16 = 48;
/// Width at or under which a compact stepper becomes numeric or a menu.
pub const STEPPER_NARROW_MAX_WIDTH: u16 = 28;
/// Height at or under which a vertical stepper drops descriptions.
pub const STEPPER_COMPACT_MAX_HEIGHT: u16 = 8;

/// Progress status of one step.
#[derive(Debug, Clone, Copy, PartialEq, Eq, Hash, Structural)]
pub enum StepStatus {
    /// Not reached yet.
    Future,
    /// Active.
    Current,
    /// Completed.
    Complete,
    /// Failed or blocked.
    Error,
    /// Cannot be visited.
    Disabled,
    /// Optional, undecided.
    Optional,
    /// Optional, skipped.
    Skipped,
}

impl Default for StepStatus {
    /// `Future`.
    fn default() -> (r: StepStatus)
        ensures
            r == StepStatus::Future,
    {
        StepStatus::Future
    }
}

impl StepStatus {
    /// Stable id.
    pub open spec fn id_spec(self) -> Seq<char> {
        match self {
            StepStatus::Future => "future"@,
            StepStatus::Current => "current"@,
            StepStatus::Complete => "complete"@,
            StepStatus::Error => "error"@,
            StepStatus::Disabled => "disabled"@,
            StepStatus::Optional => "optional"@,
            StepStatus::Skipped => "skipped"@,
        }
    }

    /// Stable id.
    pub fn id(self) -> (s: &'static str)
        ensures
            s@ == self.id_spec(),
    {
        match self {
            StepStatus::Future => "future",
            StepStatus::Current => "current",
            StepStatus::Complete => "complete",
            StepStatus::Error => "error",
            StepStatus::Disabled => "disabled",
            StepStatus::Optional => "optional",
            StepStatus::Skipped => "skipped",
        }
    }

    /// Non-color mark: a progress mark from the shared glyph vocabulary,
    /// never a checkbox well; a blank for future and optional steps.
    pub open spec fn mark_spec(self) -> Seq<char> {
        match self {
            StepStatus::Complete => Glyph::Success.text_spec(GlyphSet::Unicode),
            StepStatus::Current => Glyph::SelectionMarker.text_spec(GlyphSet::Unicode),
            StepStatus::Error => Glyph::Error.text_spec(GlyphSet::Unicode),
            StepStatus::Disabled | StepStatus::Skipped => Glyph::Remove.text_spec(GlyphSet::Unicode),
            StepStatus::Optional | StepStatus::Future => " "@,
        }
    }

    /// Non-color mark.
    pub fn mark(self) -> (s: &'static str)
        ensures
            s@ == self.mark_spec(),
    {
        match self {
            StepStatus::Complete => Glyph::Success.resolve(),
            StepStatus::Current => Glyph::SelectionMarker.resolve(),
            StepStatus::Error => Glyph::Error.resolve(),
            StepStatus::Disabled | StepStatus::Skipped => Glyph::Remove.resolve(),
            StepStatus::Optional | StepStatus::Future => " ",
        }
    }

    /// Whether the step is settled well: complete or skipped.
    pub fn is_terminal_ok(self) -> (b: bool)
        ensures
            b == (self == StepStatus::Complete || self == StepStatus::Skipped),
    {
        match self {
            StepStatus::Complete | StepStatus::Skipped => true,
            _ => false,
        }
    }
}

/// One step definition.
#[derive(Debug, Clone, PartialEq, Eq)]
pub struct StepItem {
    /// Stable id.
    pub id: String,
    /// Title.
    pub title: String,
    /// Description.
    pub description: Option<String>,
    /// May be skipped.
    pub optional: bool,
    /// Unavailable.
    pub disabled: bool,
}

impl StepItem {
    /// A required, enabled step.
    pub fn new(id: &str, title: &str) -> (s: Self)
        ensures
            s.id@ == id@,
            s.title@ == title@,
            s.description is None,
            !s.optional,
            !s.disabled,
    {
        StepItem { id: String::from_str(id), title: String::from_str(title), description: None, optional: false, disabled: false }
    }

    /// Sets the description.
    pub fn description(self, d: &str) -> (s: Self)
        ensures
            s.id == self.id,
            s.title == self.title,
            s.description is Some && s.description->0@ == d@,
            s.optional == self.optional,
            s.disabled == self.disabled,
    {
        StepItem { description: Some(String::from_str(d)), ..self }
    }

    /// Sets the optional flag.
    pub fn optional(self, on: bool) -> (s: Self)
        ensures
            s.id == self.id,
            s.title == self.title,
            s.description == self.description,
            s.optional == on,
            s.disabled == self.disabled,
    {
        StepItem { optional: on, ..self }
    }

    /// Sets the disabled flag.
    pub fn disabled(self, on: bool) -> (s: Self)
        ensures
            s.id == self.id,
            s.title == self.title,
            s.description == self.description,
            s.optional == self.optional,
            s.disabled == on,
    {
        StepItem { disabled: on, ..self }
    }
}

/// Layout orientation.
#[derive(Debug, Clone, Copy, PartialEq, Eq, Hash, Structural)]
pub enum StepperOrientation {
    /// Left to right.
    Horizontal,
    /// Top to bottom.
    Vertical,
}

impl Default for StepperOrientation {
    /// `Horizontal`.
    fn default() -> (r: StepperOrientation)
        ensures
            r == StepperOrientation::Horizontal,
    {
        StepperOrientation::Horizontal
    }
}

impl StepperOrientation {
    /// Stable id.
    pub open spec fn id_spec(self) -> Seq<char> {
        match self {
            StepperOrientation::Horizontal => "horizontal"@,
            StepperOrientation::Vertical => "vertical"@,
        }
    }

    /// Stable id.
    pub fn id(self) -> (s: &'static str)
        ensures
            s@ == self.id_spec(),
    {
        match self {
            StepperOrientation::Horizontal => "horizontal",
            StepperOrientation::Vertical => "vertical",
        }
    }
}

/// Responsive presentation.
#[derive(Debug, Clone, Copy, PartialEq, Eq, Hash, Structural)]
pub enum StepperPresentation {
    /// Full labels.
    Expanded,
    /// Marks and short titles.
    Compact,
    /// `current/total` only.
    Numeric,
    /// One control that opens a step menu.
    Menu,
}

impl Default for StepperPresentation {
    /// `Expanded`.
    fn default() -> (r: StepperPresentation)
        ensures
            r == StepperPresentation::Expanded,
    {
        StepperPresentation::Expanded
    }
}

impl StepperPresentation {
    /// Stable id.
    pub open spec fn id_spec(self) -> Seq<char> {
        match self {
            StepperPresentation::Expanded => "expanded"@,
            StepperPresentation::Compact => "compact"@,
            StepperPresentation::Numeric => "numeric"@,
            StepperPresentation::Menu => "menu"@,
        }
    }

    /// Stable id.
    pub fn id(self) -> (s: &'static str)
        ensures
            s@ == self.id_spec(),
    {
        match self {
            StepperPresentation::Expanded => "expanded",
            StepperPresentation::Compact => "compact",
            StepperPresentation::Numeric => "numeric",
            StepperPresentation::Menu => "menu",
        }
    }
}

/// When users may activate a step.
#[derive(Debug, Clone, Copy, PartialEq, Eq, Hash, Structural)]
pub enum StepperNavPolicy {
    /// Never.
    DisplayOnly,
    /// Current, completed and skipped steps.
    Linear,
    /// Any enabled step.
    Free,
    /// Always; the host enforces gates.
    Host,
}

impl Default for StepperNavPolicy {
    /// `DisplayOnly`.
    fn default() -> (r: StepperNavPolicy)
        ensures
            r == StepperNavPolicy::DisplayOnly,
    {
        StepperNavPolicy::DisplayOnly
    }
}

impl StepperNavPolicy {
    /// Stable id.
    pub open spec fn id_spec(self) -> Seq<char> {
        match self {
            StepperNavPolicy::DisplayOnly => "display-only"@,
            StepperNavPolicy::Linear => "linear"@,
            StepperNavPolicy::Free => "free"@,
            StepperNavPolicy::Host => "host"@,
        }
    }

    /// Stable id.
    pub fn id(self) -> (s: &'static str)
        ensures
            s@ == self.id_spec(),
    {
        match self {
            StepperNavPolicy::DisplayOnly => "display-only",
            StepperNavPolicy::Linear => "linear",
            StepperNavPolicy::Free => "free",
            StepperNavPolicy::Host => "host",
        }
    }
}

/// Presentation for the bounds: horizontal steppers become a menu when
/// narrow and compact when mid-width; vertical ones become numeric when
/// narrow or short and compact when mid-width.
pub open spec fn presentation_for_bounds_spec(bounds: Rect, orientation: StepperOrientation) -> StepperPresentation {
    match orientation {
        StepperOrientation::Horizontal => if bounds.width <= STEPPER_NARROW_MAX_WIDTH {
            StepperPresentation::Menu
        } else if bounds.width <= STEPPER_COMPACT_MAX_WIDTH {
            StepperPresentation::Compact
        } else {
            StepperPresentation::Expanded
        },
        StepperOrientation::Vertical => if bounds.width <= STEPPER_NARROW_MAX_WIDTH || bounds.height <= STEPPER_COMPACT_MAX_HEIGHT {
            StepperPresentation::Numeric
        } else if bounds.width <= STEPPER_COMPACT_MAX_WIDTH {
            StepperPresentation::Compact
        } else {
            StepperPresentation::Expanded
        },
    }
}

/// Presentation for the bounds (see [`presentation_for_bounds_spec`]).
pub fn stepper_presentation_for_bounds(bounds: Rect, orientation: StepperOrientation) -> (p: StepperPresentation)
    ensures
        p == presentation_for_bounds_spec(bounds, orientation),
{
    match orientation {
        StepperOrientation::Horizontal => if bounds.width <= STEPPER_NARROW_MAX_WIDTH {
            StepperPresentation::Menu
        } else if bounds.width <= STEPPER_COMPACT_MAX_WIDTH {
            StepperPresentation::Compact
        } else {
            StepperPresentation::Expanded
        },
        StepperOrientation::Vertical => if bounds.width <= STEPPER_NARROW_MAX_WIDTH || bounds.height <= STEPPER_COMPACT_MAX_HEIGHT {
            StepperPresentation::Numeric
        } else if bounds.width <= STEPPER_COMPACT_MAX_WIDTH {
            StepperPresentation::Compact
        } else {
            StepperPresentation::Expanded
        },
    }
}

/// Outcome of a stepper event.
#[derive(Debug, Clone, PartialEq, Eq)]
pub enum StepperOutcome {
    /// No change.
    Ignored,
    /// The roving cursor moved.
    CursorMoved {
        /// Index.
        index: usize,
    },
    /// Navigation to a step was requested.
    StepActivated {
        /// Index.
        index: usize,
        /// Step id.
        id: String,
    },
    /// The menu opened or closed.
    MenuToggled {
        /// Open.
        open: bool,
    },
    /// Presentation changed.
    PresentationChanged {
        /// New presentation.
        presentation: StepperPresentation,
    },
}

/// Key map of a stepper: Home and End jump; Enter activates, Space toggles
/// and Esc cancels on press; the orientation's arrows and vim keys move,
/// and the other orientation's arrows move too. Releases mean nothing.
pub open spec fn stepper_intent_spec(key: KeyEvent, orientation: StepperOrientation) -> Option<UiIntent> {
    let press = key.kind == KeyEventKind::Press;
    let horiz = orientation == StepperOrientation::Horizontal;
    if key.kind == KeyEventKind::Release {
        None
    } else {
        match key.code {
            KeyCode::Home => Some(UiIntent::Move(NavigationMove::First)),
            KeyCode::End => Some(UiIntent::Move(NavigationMove::Last)),
            KeyCode::Enter => if press { Some(UiIntent::Activate) } else { None },
            KeyCode::Esc => if press { Some(UiIntent::Cancel) } else { None },
            KeyCode::Char(c) => if c == ' ' {
                if press { Some(UiIntent::Toggle) } else { None }
            } else if horiz && (c == 'h' || c == 'H') {
                Some(UiIntent::Move(NavigationMove::Previous))
            } else if horiz && (c == 'l' || c == 'L') {
                Some(UiIntent::Move(NavigationMove::Next))
            } else if !horiz && (c == 'k' || c == 'K') {
                Some(UiIntent::Move(NavigationMove::Previous))
            } else if !horiz && (c == 'j' || c == 'J') {
                Some(UiIntent::Move(NavigationMove::Next))
            } else {
                None
            },
            KeyCode::Left | KeyCode::Up => Some(UiIntent::Move(NavigationMove::Previous)),
            KeyCode::Right | KeyCode::Down => Some(UiIntent::Move(NavigationMove::Next)),
            _ => None,
        }
    }
}

/// Key map of a stepper (see [`stepper_intent_spec`]).
pub fn default_stepper_intent(key: KeyEvent, orientation: StepperOrientation) -> (r: Option<UiIntent>)
    ensures
        r == stepper_intent_spec(key, orientation),
{
    if key.kind == KeyEventKind::Release {
        return None;
    }
    let press = key.kind == KeyEventKind::Press;
    let horiz = orientation == StepperOrientation::Horizontal;
    match key.code {
        KeyCode::Home => Some(UiIntent::Move(NavigationMove::First)),
        KeyCode::End => Some(UiIntent::Move(NavigationMove::Last)),
        KeyCode::Enter => if press { Some(UiIntent::Activate) } else { None },
        KeyCode::Esc => if press { Some(UiIntent::Cancel) } else { None },
        KeyCode::Char(c) => if c == ' ' {
            if press { Some(UiIntent::Toggle) } else { None }
        } else if horiz && (c == 'h' || c == 'H') {
            Some(UiIntent::Move(NavigationMove::Previous))
        } else if horiz && (c == 'l' || c == 'L') {
            Some(UiIntent::Move(NavigationMove::Next))
        } else if !horiz && (c == 'k' || c == 'K') {
            Some(UiIntent::Move(NavigationMove::Previous))
        } else if !horiz && (c == 'j' || c == 'J') {
            Some(UiIntent::Move(NavigationMove::Next))
        } else {
            None
        },
        KeyCode::Left | KeyCode::Up => Some(UiIntent::Move(NavigationMove::Previous)),
        KeyCode::Right | KeyCode::Down => Some(UiIntent::Move(NavigationMove::Next)),
        _ => None,
    }
}

/// Stepper paint configuration.
#[derive(Debug, Clone, Copy)]
pub struct Stepper<'a> {
    /// Steps.
    pub items: &'a [StepItem],
    /// Design system.
    pub system: &'a DesignSystem,
    /// Paint without hue (seeded from the system).
    pub colorless: bool,
    /// Show descriptions when vertical.
    pub show_descriptions: bool,
}

impl<'a> Stepper<'a> {
    /// A stepper over `items`; colorless when the system is monochrome.
    pub fn new(items: &'a [StepItem], system: &'a DesignSystem) -> (s: Self)
        ensures
            s.items == items,
            s.system == system,
            s.colorless == system.monochrome,
            s.show_descriptions,
    {
        Stepper { items, system, colorless: system.mono(), show_descriptions: true }
    }

    /// Paint without hue.
    pub fn colorless(self, on: bool) -> (s: Self)
        ensures
            s.items == self.items,
            s.system == self.system,
            s.colorless == on,
            s.show_descriptions == self.show_descriptions,
    {
        Stepper { colorless: on, ..self }
    }

    /// Show descriptions.
    pub fn show_descriptions(self, on: bool) -> (s: Self)
        ensures
            s.items == self.items,
            s.system == self.system,
            s.colorless == self.colorless,
            s.show_descriptions == on,
    {
        Stepper { show_descriptions: on, ..self }
    }
}

/// `step-{i}`.
pub open spec fn step_id_spec(i: nat) -> Seq<char> {
    "step-"@ + decimal(i)
}

/// Steps from titles, with ids `step-0`, `step-1`, ...
pub fn step_items_from_titles(titles: &[&str]) -> (v: Vec<StepItem>)
    ensures
        v@.len() == titles@.len(),
        forall|i: int| 0 <= i < titles@.len() ==> {
            &&& (#[trigger] v@[i]).id@ == step_id_spec(i as nat)
            &&& v@[i].title@ == titles@[i]@
            &&& v@[i].description is None
            &&& !v@[i].optional
            &&& !v@[i].disabled
        },
{
    let mut out: Vec<StepItem> = Vec::new();
    let mut i: usize = 0;
    while i < titles.len()
        invariant
            i <= titles@.len(),
            out@.len() == i,
            forall|j: int| 0 <= j < i ==> {
                &&& (#[trigger] out@[j]).id@ == step_id_spec(j as nat)
                &&& out@[j].title@ == titles@[j]@
                &&& out@[j].description is None
                &&& !out@[j].optional
                &&& !out@[j].disabled
            },
        decreases titles@.len() - i,
    {
        let mut digits: Vec<char> = Vec::new();
        push_decimal(&mut digits, i as u64);
        let num = string_from_chars(digits.as_slice());
        let id = concat_str("step-", num.as_str());
        proof {
            assert(digits@ =~= decimal(i as nat));
        }
        out.push(StepItem::new(id.as_str(), titles[i]));
        i = i + 1;
    }
    out
}

/// Sample onboarding flow: account, region (optional), plan, review.
pub fn example_onboarding_steps() -> (v: Vec<StepItem>)
    ensures
        v@.len() == 4,
        v@[0].id@ == "account"@ && v@[0].title@ == "Account"@ && !v@[0].optional,
        v@[1].id@ == "region"@ && v@[1].title@ == "Region"@ && v@[1].optional,
        v@[2].id@ == "plan"@ && v@[2].title@ == "Plan"@ && !v@[2].optional,
        v@[3].id@ == "review"@ && v@[3].title@ == "Review"@ && !v@[3].optional,
        v@[0].description is Some && v@[0].description->0@ == "Identity and email"@,
        v@[1].description is Some && v@[1].description->0@ == "Deployment region"@,
        v@[2].description is Some && v@[2].description->0@ == "Billing plan"@,
        v@[3].description is Some && v@[3].description->0@ == "Confirm and finish"@,
        forall|i: int| 0 <= i < 4 ==> !(#[trigger] v@[i]).disabled,
{
    vec![
        StepItem::new("account", "Account").description("Identity and email"),
        StepItem::new("region", "Region").description("Deployment region").optional(true),
        StepItem::new("plan", "Plan").description("Billing plan"),
        StepItem::new("review", "Review").description("Confirm and finish"),
    ]
}

} // verus!

verus! {

// ── State ───────────────────────────────────────────────────────────────────

/// A stepper's state as plain values.
pub struct StepperModel {
    /// Roving cursor among the steps (apart from the domain's current step).
    pub cursor: Option<usize>,
    /// The domain's current step.
    pub current: usize,
    /// Status of each step.
    pub statuses: Seq<StepStatus>,
    /// Keyboard focus.
    pub focused: bool,
    /// Enabled.
    pub enabled: bool,
    /// Whether input is taken.
    pub accepts_input: bool,
    /// Orientation.
    pub orientation: StepperOrientation,
    /// Presentation in use.
    pub presentation: StepperPresentation,
    /// Presentation forced by the host.
    pub presentation_override: Option<StepperPresentation>,
    /// Navigation policy.
    pub policy: StepperNavPolicy,
    /// Whether the menu presentation is open.
    pub menu_open: bool,
    /// Painted hit regions: step index and cells.
    pub hits: Seq<(usize, Rect)>,
    /// The menu header's cells.
    pub menu_hit: Rect,
    /// The whole painted area.
    pub root: Rect,
    /// First step shown by a vertical stepper.
    pub vertical_scroll: usize,
    /// Rows a vertical stepper has.
    pub vertical_viewport: usize,
    /// Whether a vertical stepper shows descriptions.
    pub vertical_show_descriptions: bool,
}

/// Stepper interaction state.
#[derive(Debug, Clone, PartialEq, Eq)]
pub struct StepperState {
    cursor: Option<usize>,
    current: usize,
    statuses: Vec<StepStatus>,
    focused: bool,
    enabled: bool,
    accepts_input: bool,
    orientation: StepperOrientation,
    presentation: StepperPresentation,
    presentation_override: Option<StepperPresentation>,
    policy: StepperNavPolicy,
    menu_open: bool,
    hits: Vec<(usize, Rect)>,
    menu_hit: Rect,
    root: Rect,
    vertical_scroll: usize,
    vertical_viewport: usize,
    vertical_show_descriptions: bool,
}

impl View for StepperState {
    type V = StepperModel;

    closed spec fn view(&self) -> StepperModel {
        StepperModel {
            cursor: self.cursor,
            current: self.current,
            statuses: self.statuses@,
            focused: self.focused,
            enabled: self.enabled,
            accepts_input: self.accepts_input,
            orientation: self.orientation,
            presentation: self.presentation,
            presentation_override: self.presentation_override,
            policy: self.policy,
            menu_open: self.menu_open,
            hits: self.hits@,
            menu_hit: self.menu_hit,
            root: self.root,
            vertical_scroll: self.vertical_scroll,
            vertical_viewport: self.vertical_viewport,
            vertical_show_descriptions: self.vertical_show_descriptions,
        }
    }
}

/// A fresh stepper: no steps, no cursor, enabled and taking input,
/// horizontal, expanded, linear.
pub open spec fn stepper_new_spec() -> StepperModel {
    StepperModel {
        cursor: None,
        current: 0,
        statuses: Seq::empty(),
        focused: false,
        enabled: true,
        accepts_input: true,
        orientation: StepperOrientation::Horizontal,
        presentation: StepperPresentation::Expanded,
        presentation_override: None,
        policy: StepperNavPolicy::Linear,
        menu_open: false,
        hits: Seq::empty(),
        menu_hit: Rect { x: 0, y: 0, width: 0, height: 0 },
        root: Rect { x: 0, y: 0, width: 0, height: 0 },
        vertical_scroll: 0,
        vertical_viewport: 0,
        vertical_show_descriptions: true,
    }
}

/// Statuses cut or padded (with future steps) to `n`.
pub open spec fn fit_statuses(st: Seq<StepStatus>, n: int) -> Seq<StepStatus> {
    if n <= st.len() { st.take(n) } else { st + Seq::new((n - st.len()) as nat, |i: int| StepStatus::Future) }
}

/// Statuses fitted to `n` steps; the current step clamped onto them; when
/// every step is still in the future, the current one becomes current.
pub open spec fn resize_spec(m: StepperModel, n: int) -> StepperModel {
    let st0 = fit_statuses(m.statuses, n);
    if n > 0 {
        let cur: usize = if m.current >= n { (n - 1) as usize } else { m.current };
        let all_future = forall|i: int| 0 <= i < n ==> st0[i] == StepStatus::Future;
        StepperModel {
            statuses: if all_future { st0.update(cur as int, StepStatus::Current) } else { st0 },
            current: cur,
            ..m
        }
    } else {
        StepperModel { statuses: st0, current: 0, ..m }
    }
}

/// Status of step `i` after the current step moved to `cur`: steps before
/// it are complete (a skipped one stays skipped), it is current, later ones
/// are future (a disabled or optional one keeps its status); with
/// `preserve`, error, skipped, disabled and optional steps other than the
/// current one keep theirs.
pub open spec fn relinear(prev: StepStatus, i: int, cur: int, preserve: bool) -> StepStatus {
    let special = prev == StepStatus::Error || prev == StepStatus::Skipped || prev == StepStatus::Disabled
        || prev == StepStatus::Optional;
    if preserve && special && i != cur {
        prev
    } else if i < cur {
        if prev != StepStatus::Skipped { StepStatus::Complete } else { prev }
    } else if i == cur {
        StepStatus::Current
    } else if prev != StepStatus::Disabled && prev != StepStatus::Optional {
        StepStatus::Future
    } else {
        prev
    }
}

/// Moving the current step to `index` of `len` (see [`relinear`]); the
/// cursor follows it. No steps: no statuses, step zero.
pub open spec fn set_current_spec(m: StepperModel, index: int, len: int, preserve: bool) -> StepperModel {
    if len == 0 {
        StepperModel { current: 0, statuses: Seq::empty(), ..m }
    } else {
        let r = resize_spec(m, len);
        let cur: usize = if index < len - 1 { index as usize } else { (len - 1) as usize };
        StepperModel {
            current: cur,
            statuses: Seq::new(len as nat, |i: int| relinear(r.statuses[i], i, cur as int, preserve)),
            cursor: Some(cur),
            ..r
        }
    }
}

/// Status of step `i` (future past the known ones).
pub open spec fn status_at(m: StepperModel, i: int) -> StepStatus {
    if 0 <= i < m.statuses.len() { m.statuses[i] } else { StepStatus::Future }
}

/// Whether step `index` may be activated: it exists and is enabled; the
/// display-only policy never allows it, host and free always do, linear
/// allows the current step and complete or skipped ones.
pub open spec fn can_activate_spec(m: StepperModel, index: int, items: Seq<StepItem>) -> bool {
    let st = status_at(m, index);
    &&& 0 <= index < items.len()
    &&& !items[index].disabled
    &&& st != StepStatus::Disabled
    &&& match m.policy {
        StepperNavPolicy::DisplayOnly => false,
        StepperNavPolicy::Host | StepperNavPolicy::Free => true,
        StepperNavPolicy::Linear => index == m.current || st == StepStatus::Complete || st == StepStatus::Skipped,
    }
}

/// Whether the stepper scrolls a vertical list.
pub open spec fn uses_viewport(m: StepperModel) -> bool {
    m.orientation == StepperOrientation::Vertical && (m.presentation == StepperPresentation::Expanded
        || m.presentation == StepperPresentation::Compact)
}

/// Rows step `index` takes in a vertical list ending at `cursor`: its row,
/// a description row when expanded and shown, a connector row before the
/// cursor when expanded.
pub open spec fn step_rows(expanded: bool, show: bool, items: Seq<StepItem>, cursor: int, index: int) -> int {
    1 + (if expanded && show && items[index].description is Some { 1int } else { 0 })
        + (if expanded && index < cursor && index + 1 < items.len() { 1int } else { 0 })
}

/// Rows of steps `start .. end` in a vertical list ending at `cursor`.
pub open spec fn rows_span(expanded: bool, show: bool, items: Seq<StepItem>, cursor: int, start: int, end: int) -> int
    decreases end - start,
{
    if start >= end { 0 } else { step_rows(expanded, show, items, cursor, start) + rows_span(expanded, show, items, cursor, start + 1, end) }
}

/// The first step that keeps the cursor's rows within `cap`, from `s` on.
pub open spec fn advance_scroll(expanded: bool, show: bool, items: Seq<StepItem>, cursor: int, cap: int, s: int) -> int
    decreases cursor - s,
{
    if s < cursor && rows_span(expanded, show, items, cursor, s, cursor + 1) > cap {
        advance_scroll(expanded, show, items, cursor, cap, s + 1)
    } else {
        s
    }
}

/// The scroll that keeps the cursor visible in a vertical list: none when
/// not scrolling or without a cursor on a step; else the scroll clamped
/// onto the steps, pulled back to the cursor, then moved on until the rows
/// from it to the cursor fit the viewport.
pub open spec fn visible_scroll_spec(m: StepperModel, items: Seq<StepItem>) -> usize {
    if !uses_viewport(m) || items.len() == 0 {
        0
    } else {
        match m.cursor {
            Some(c) => if c >= items.len() {
                0
            } else {
                let s0 = if m.vertical_scroll < items.len() - 1 { m.vertical_scroll as int } else { items.len() - 1 };
                let s1 = if (c as int) < s0 { c as int } else { s0 };
                let cap = if m.vertical_viewport < 1 { 1 } else { m.vertical_viewport as int };
                advance_scroll(m.presentation == StepperPresentation::Expanded, m.vertical_show_descriptions, items, c as int, cap, s1) as usize
            },
            None => 0,
        }
    }
}

/// Activating step `index`: refused unless it may be activated; else the
/// cursor moves to it, the list scrolls to show it, the menu closes, and
/// the step's index and id are reported.
pub open spec fn activate_spec(m: StepperModel, index: int, items: Seq<StepItem>) -> (StepperModel, StepperOutcome) {
    if !can_activate_spec(m, index, items) {
        (m, StepperOutcome::Ignored)
    } else {
        let m1 = StepperModel { cursor: Some(index as usize), ..m };
        (
            StepperModel { vertical_scroll: visible_scroll_spec(m1, items), menu_open: false, ..m1 },
            StepperOutcome::StepActivated { index: index as usize, id: items[index].id },
        )
    }
}

/// The step of the last painted hit region under `pos`, among the first `k`.
pub open spec fn last_hit(hits: Seq<(usize, Rect)>, pos: Position, k: int) -> Option<usize>
    decreases k,
{
    if k <= 0 {
        None
    } else if hits[k - 1].1.contains_spec(pos) {
        Some(hits[k - 1].0)
    } else {
        last_hit(hits, pos, k - 1)
    }
}

/// A pointer event: only a left press on an enabled stepper taking input,
/// with steps, counts; it focuses the stepper; on a closed menu's header it
/// opens the menu; on a painted step it activates the top-most one; outside
/// an open menu it closes it.
pub open spec fn stepper_mouse_spec(m: StepperModel, ev: MouseEvent, items: Seq<StepItem>) -> (StepperModel, StepperOutcome) {
    if !m.enabled || !m.accepts_input || items.len() == 0 || ev.kind != MouseEventKind::Down(MouseButton::Left) {
        (m, StepperOutcome::Ignored)
    } else {
        let f = StepperModel { focused: true, ..m };
        if f.presentation == StepperPresentation::Menu && !f.menu_open && f.menu_hit.contains_spec(ev.position) {
            (StepperModel { menu_open: true, ..f }, StepperOutcome::MenuToggled { open: true })
        } else {
            match last_hit(f.hits, ev.position, f.hits.len() as int) {
                Some(i) => activate_spec(f, i as int, items),
                None => if f.menu_open && !f.root.contains_spec(ev.position) {
                    (StepperModel { menu_open: false, ..f }, StepperOutcome::MenuToggled { open: false })
                } else {
                    (f, StepperOutcome::Ignored)
                },
            }
        }
    }
}

/// Following the bounds: unless the host forced a presentation, the one
/// the bounds call for replaces the current one (closing the menu when it
/// is no menu), and the change is reported.
pub open spec fn sync_presentation_spec(m: StepperModel, area: Rect) -> (StepperModel, StepperOutcome) {
    if m.presentation_override is Some {
        (m, StepperOutcome::Ignored)
    } else {
        let next = presentation_for_bounds_spec(area, m.orientation);
        if next != m.presentation {
            (
                StepperModel {
                    presentation: next,
                    menu_open: if next != StepperPresentation::Menu { false } else { m.menu_open },
                    ..m
                },
                StepperOutcome::PresentationChanged { presentation: next },
            )
        } else {
            (m, StepperOutcome::Ignored)
        }
    }
}

fn relinear_exec(prev: StepStatus, i: usize, cur: usize, preserve: bool) -> (s: StepStatus)
    ensures
        s == relinear(prev, i as int, cur as int, preserve),
{
    let special = prev == StepStatus::Error || prev == StepStatus::Skipped || prev == StepStatus::Disabled
        || prev == StepStatus::Optional;
    if preserve && special && i != cur {
        prev
    } else if i < cur {
        if prev != StepStatus::Skipped { StepStatus::Complete } else { prev }
    } else if i == cur {
        StepStatus::Current
    } else if prev != StepStatus::Disabled && prev != StepStatus::Optional {
        StepStatus::Future
    } else {
        prev
    }
}

impl StepperState {
    /// A fresh stepper (see [`stepper_new_spec`]).
    pub fn new() -> (s: Self)
        ensures
            s@ == stepper_new_spec(),
    {
        StepperState {
            cursor: None,
            current: 0,
            statuses: Vec::new(),
            focused: false,
            enabled: true,
            accepts_input: true,
            orientation: StepperOrientation::Horizontal,
            presentation: StepperPresentation::Expanded,
            presentation_override: None,
            policy: StepperNavPolicy::Linear,
            menu_open: false,
            hits: Vec::new(),
            menu_hit: Rect { x: 0, y: 0, width: 0, height: 0 },
            root: Rect { x: 0, y: 0, width: 0, height: 0 },
            vertical_scroll: 0,
            vertical_viewport: 0,
            vertical_show_descriptions: true,
        }
    }

    /// A fresh stepper over `n` steps.
    pub fn with_len(n: usize) -> (s: Self)
        ensures
            s@ == resize_spec(stepper_new_spec(), n as int),
    {
        let mut s = Self::new();
        s.resize(n);
        s
    }

    /// Fits the statuses to `n` steps (see [`resize_spec`]).
    pub fn resize(&mut self, n: usize)
        ensures
            final(self)@ == resize_spec(old(self)@, n as int),
    {
        let ghost st0 = fit_statuses(self.statuses@, n as int);
        let mut fitted: Vec<StepStatus> = Vec::new();
        let mut i: usize = 0;
        while i < n
            invariant
                i <= n,
                st0 == fit_statuses(self.statuses@, n as int),
                fitted@ == st0.take(i as int),
            decreases n - i,
        {
            let s = if i < self.statuses.len() { self.statuses[i] } else { StepStatus::Future };
            fitted.push(s);
            i = i + 1;
            assert(fitted@ =~= st0.take(i as int));
        }
        assert(fitted@ =~= st0);
        if n > 0 {
            let cur = if self.current >= n { n - 1 } else { self.current };
            let mut all = true;
            let mut j: usize = 0;
            while j < n
                invariant
                    j <= n,
                    fitted@.len() == n,
                    all == (forall|k: int| 0 <= k < j ==> fitted@[k] == StepStatus::Future),
                decreases n - j,
            {
                if fitted[j] != StepStatus::Future {
                    all = false;
                }
                j = j + 1;
            }
            if all {
                fitted.set(cur, StepStatus::Current);
            }
            self.current = cur;
        } else {
            self.current = 0;
        }
        self.statuses = fitted;
    }

    /// Sets the orientation.
    pub fn orientation(self, o: StepperOrientation) -> (s: Self)
        ensures
            s@ == (StepperModel { orientation: o, ..self@ }),
    {
        StepperState { orientation: o, ..self }
    }

    /// Sets the orientation.
    pub fn set_orientation(&mut self, o: StepperOrientation)
        ensures
            final(self)@ == (StepperModel { orientation: o, ..old(self)@ }),
    {
        self.orientation = o;
    }

    /// Sets the navigation policy.
    pub fn policy(self, p: StepperNavPolicy) -> (s: Self)
        ensures
            s@ == (StepperModel { policy: p, ..self@ }),
    {
        StepperState { policy: p, ..self }
    }

    /// Sets the navigation policy.
    pub fn set_policy(&mut self, p: StepperNavPolicy)
        ensures
            final(self)@ == (StepperModel { policy: p, ..old(self)@ }),
    {
        self.policy = p;
    }

    /// Forces a presentation (or lets the bounds decide again).
    pub fn set_presentation_override(&mut self, p: Option<StepperPresentation>)
        ensures
            final(self)@ == (StepperModel {
                presentation_override: p,
                presentation: match p { Some(q) => q, None => old(self)@.presentation },
                ..old(self)@
            }),
    {
        self.presentation_override = p;
        if let Some(q) = p {
            self.presentation = q;
        }
    }

    /// Sets keyboard focus.
    pub fn set_focused(&mut self, on: bool)
        ensures
            final(self)@ == (StepperModel { focused: on, ..old(self)@ }),
    {
        self.focused = on;
    }

    /// Whether it has keyboard focus.
    pub fn is_focused(&self) -> (b: bool)
        ensures
            b == self@.focused,
    {
        self.focused
    }

    /// Enables or disables.
    pub fn set_enabled(&mut self, on: bool)
        ensures
            final(self)@ == (StepperModel { enabled: on, ..old(self)@ }),
    {
        self.enabled = on;
    }

    /// Opens or closes the input gate.
    pub fn set_accepts_input(&mut self, on: bool)
        ensures
            final(self)@ == (StepperModel { accepts_input: on, ..old(self)@ }),
    {
        self.accepts_input = on;
    }

    /// The domain's current step.
    pub fn current(&self) -> (c: usize)
        ensures
            c == self@.current,
    {
        self.current
    }

    /// The roving cursor (step zero without one).
    pub fn cursor(&self) -> (c: usize)
        ensures
            c == match self@.cursor { Some(i) => i, None => 0 },
    {
        match self.cursor {
            Some(i) => i,
            None => 0,
        }
    }

    /// Step statuses.
    pub fn statuses(&self) -> (s: &[StepStatus])
        ensures
            s@ == self@.statuses,
    {
        self.statuses.as_slice()
    }

    /// Presentation in use.
    pub fn presentation(&self) -> (p: StepperPresentation)
        ensures
            p == self@.presentation,
    {
        self.presentation
    }

    /// Navigation policy.
    pub fn nav_policy(&self) -> (p: StepperNavPolicy)
        ensures
            p == self@.policy,
    {
        self.policy
    }

    /// Whether the menu is open.
    pub fn menu_open(&self) -> (b: bool)
        ensures
            b == self@.menu_open,
    {
        self.menu_open
    }

    /// Painted hit regions `(step, cells)` of the last layout.
    pub fn hits(&self) -> (h: &[(usize, Rect)])
        ensures
            h@ == self@.hits,
    {
        self.hits.as_slice()
    }

    /// First step a vertical list shows.
    pub fn vertical_scroll(&self) -> (s: usize)
        ensures
            s == self@.vertical_scroll,
    {
        self.vertical_scroll
    }

    /// Moves the domain's current step (see [`set_current_spec`]).
    pub fn set_current(&mut self, index: usize, len: usize, preserve_special: bool)
        ensures
            final(self)@ == set_current_spec(old(self)@, index as int, len as int, preserve_special),
    {
        if len == 0 {
            self.current = 0;
            self.statuses = Vec::new();
            return;
        }
        self.resize(len);
        let cur = if index < len - 1 { index } else { len - 1 };
        let ghost prev = self.statuses@;
        let mut out: Vec<StepStatus> = Vec::new();
        let mut i: usize = 0;
        while i < len
            invariant
                i <= len,
                prev == self.statuses@,
                prev.len() == len,
                out@ == Seq::new(i as nat, |k: int| relinear(prev[k], k, cur as int, preserve_special)),
            decreases len - i,
        {
            let s = relinear_exec(self.statuses[i], i, cur, preserve_special);
            out.push(s);
            i = i + 1;
            assert(out@ =~= Seq::new(i as nat, |k: int| relinear(prev[k], k, cur as int, preserve_special)));
        }
        self.statuses = out;
        self.current = cur;
        self.cursor = Some(cur);
    }

    /// Overrides one step's status (ignored past the steps).
    pub fn set_status(&mut self, index: usize, status: StepStatus)
        ensures
            final(self)@ == (if index < old(self)@.statuses.len() {
                StepperModel { statuses: old(self)@.statuses.update(index as int, status), ..old(self)@ }
            } else {
                old(self)@
            }),
    {
        if index < self.statuses.len() {
            self.statuses.set(index, status);
        }
    }

    /// Replaces all statuses; a current step past them moves to the last.
    pub fn set_statuses(&mut self, statuses: Vec<StepStatus>)
        ensures
            final(self)@ == (StepperModel {
                statuses: statuses@,
                current: if old(self)@.current >= statuses@.len() && statuses@.len() > 0 {
                    (statuses@.len() - 1) as usize
                } else {
                    old(self)@.current
                },
                ..old(self)@
            }),
    {
        let n = statuses.len();
        self.statuses = statuses;
        if self.current >= n && n > 0 {
            self.current = n - 1;
        }
    }

    fn can_activate(&self, index: usize, items: &[StepItem]) -> (b: bool)
        ensures
            b == can_activate_spec(self@, index as int, items@),
    {
        if index >= items.len() {
            return false;
        }
        let st = if index < self.statuses.len() { self.statuses[index] } else { StepStatus::Future };
        if items[index].disabled || st == StepStatus::Disabled {
            return false;
        }
        match self.policy {
            StepperNavPolicy::DisplayOnly => false,
            StepperNavPolicy::Host | StepperNavPolicy::Free => true,
            StepperNavPolicy::Linear => index == self.current || st == StepStatus::Complete || st == StepStatus::Skipped,
        }
    }

    fn rows_to_cursor(&self, items: &[StepItem], start: usize, cursor: usize) -> (r: u128)
        requires
            start <= cursor < items@.len(),
        ensures
            r == rows_span(self@.presentation == StepperPresentation::Expanded, self@.vertical_show_descriptions, items@, cursor as int, start as int, cursor + 1),
    {
        let expanded = self.presentation == StepperPresentation::Expanded;
        let n = items.len();
        let mut rows: u128 = 0;
        let mut index = cursor + 1;
        assert(index <= n);
        while index > start
            invariant
                start <= index <= cursor + 1,
                cursor < items@.len(),
                expanded == (self@.presentation == StepperPresentation::Expanded),
                rows == rows_span(self@.presentation == StepperPresentation::Expanded, self@.vertical_show_descriptions, items@, cursor as int, index as int, cursor + 1),
                rows <= 3 * (cursor + 1 - index),
            decreases index - start,
        {
            index = index - 1;
            let mut cost: u128 = 1;
            if expanded && self.vertical_show_descriptions && items[index].description.is_some() {
                cost = cost + 1;
            }
            if expanded && index < cursor && index + 1 < items.len() {
                cost = cost + 1;
            }
            rows = rows + cost;
        }
        rows
    }

    fn ensure_vertical_cursor_visible(&mut self, items: &[StepItem])
        ensures
            final(self)@ == (StepperModel { vertical_scroll: visible_scroll_spec(old(self)@, items@), ..old(self)@ }),
    {
        let uses = self.orientation == StepperOrientation::Vertical
            && (self.presentation == StepperPresentation::Expanded || self.presentation == StepperPresentation::Compact);
        if !uses || items.len() == 0 {
            self.vertical_scroll = 0;
            return;
        }
        let c = match self.cursor {
            Some(c) => c,
            None => {
                self.vertical_scroll = 0;
                return;
            },
        };
        if c >= items.len() {
            self.vertical_scroll = 0;
            return;
        }
        let s0 = if self.vertical_scroll < items.len() - 1 { self.vertical_scroll } else { items.len() - 1 };
        let mut s = if c < s0 { c } else { s0 };
        let cap: u128 = if self.vertical_viewport < 1 { 1 } else { self.vertical_viewport as u128 };
        while s < c && self.rows_to_cursor(items, s, c) > cap
            invariant
                s <= c < items@.len(),
                cap == (if self@.vertical_viewport < 1 { 1 } else { self@.vertical_viewport as int }),
                advance_scroll(self@.presentation == StepperPresentation::Expanded, self@.vertical_show_descriptions, items@, c as int, cap as int, s as int)
                    == advance_scroll(self@.presentation == StepperPresentation::Expanded, self@.vertical_show_descriptions, items@, c as int, cap as int, if (c as int) < (if self@.vertical_scroll < items@.len() - 1 { self@.vertical_scroll as int } else { items@.len() - 1 }) { c as int } else { if self@.vertical_scroll < items@.len() - 1 { self@.vertical_scroll as int } else { items@.len() - 1 } }),
            decreases c - s,
        {
            s = s + 1;
        }
        self.vertical_scroll = s;
    }

    /// Activates step `index` if the policy allows (see [`activate_spec`]).
    pub fn activate(&mut self, index: usize, items: &[StepItem]) -> (o: StepperOutcome)
        ensures
            (final(self)@, o) == activate_spec(old(self)@, index as int, items@),
    {
        if !self.can_activate(index, items) {
            return StepperOutcome::Ignored;
        }
        let id = items[index].id.clone();
        self.cursor = Some(index);
        self.ensure_vertical_cursor_visible(items);
        self.menu_open = false;
        StepperOutcome::StepActivated { index, id }
    }

    /// A pointer event (see [`stepper_mouse_spec`]).
    pub fn handle_mouse(&mut self, event: MouseEvent, items: &[StepItem]) -> (o: StepperOutcome)
        ensures
            (final(self)@, o) == stepper_mouse_spec(old(self)@, event, items@),
    {
        if !self.enabled || !self.accepts_input || items.len() == 0 {
            return StepperOutcome::Ignored;
        }
        match event.kind {
            MouseEventKind::Down(MouseButton::Left) => {},
            _ => return StepperOutcome::Ignored,
        }
        self.focused = true;
        if self.presentation == StepperPresentation::Menu && !self.menu_open && self.menu_hit.contains(event.position) {
            self.menu_open = true;
            return StepperOutcome::MenuToggled { open: true };
        }
        let mut k = self.hits.len();
        while k > 0
            invariant
                k <= self.hits@.len(),
                self@ == (StepperModel { focused: true, ..old(self)@ }),
                old(self)@.enabled && old(self)@.accepts_input && items@.len() > 0,
                event.kind == MouseEventKind::Down(MouseButton::Left),
                !(self@.presentation == StepperPresentation::Menu && !self@.menu_open && self@.menu_hit.contains_spec(event.position)),
                last_hit(self.hits@, event.position, self.hits@.len() as int) == last_hit(self.hits@, event.position, k as int),
            decreases k,
        {
            let (i, r) = self.hits[k - 1];
            if r.contains(event.position) {
                return self.activate(i, items);
            }
            k = k - 1;
        }
        if self.menu_open && !self.root.contains(event.position) {
            self.menu_open = false;
            return StepperOutcome::MenuToggled { open: false };
        }
        StepperOutcome::Ignored
    }

    /// Follows the bounds (see [`sync_presentation_spec`]).
    pub fn sync_presentation(&mut self, area: Rect) -> (o: StepperOutcome)
        ensures
            (final(self)@, o) == sync_presentation_spec(old(self)@, area),
    {
        if self.presentation_override.is_some() {
            return StepperOutcome::Ignored;
        }
        let next = stepper_presentation_for_bounds(area, self.orientation);
        if next != self.presentation {
            self.presentation = next;
            if next != StepperPresentation::Menu {
                self.menu_open = false;
            }
            StepperOutcome::PresentationChanged { presentation: next }
        } else {
            StepperOutcome::Ignored
        }
    }
}

} // verus!

verus! {

// ── Layout ──────────────────────────────────────────────────────────────────

/// What a laid-out piece of a stepper paints.
#[derive(Debug, Clone, Copy, PartialEq, Eq, Hash, Structural)]
pub enum StepperPieceKind {
    /// A step's mark and title.
    Step,
    /// A step's mark and title with the join to the next step after it.
    Joined,
    /// A step's row in a vertical list.
    Row,
    /// A step's description (vertical).
    Description,
    /// The connector under a step (vertical).
    Connector,
    /// The `n/total` face of the numeric or menu presentation.
    Header,
    /// A row of an open menu.
    MenuRow,
}

/// One laid-out piece: what it paints, for which step, where.
#[derive(Debug, Clone, Copy, PartialEq, Eq, Hash, Structural)]
pub struct StepperPiece {
    /// What it paints.
    pub kind: StepperPieceKind,
    /// The step.
    pub index: usize,
    /// Its cells.
    pub rect: Rect,
}

/// Which steps the roving cursor may land on: enabled steps not marked
/// disabled.
pub open spec fn step_flags(m: StepperModel, items: Seq<StepItem>) -> Seq<bool> {
    Seq::new(items.len(), |i: int| !items[i].disabled && status_at(m, i) != StepStatus::Disabled)
}

/// Axis of the stepper's roving cursor.
pub open spec fn stepper_axis(o: StepperOrientation) -> RovingOrientation {
    match o {
        StepperOrientation::Horizontal => RovingOrientation::Horizontal,
        StepperOrientation::Vertical => RovingOrientation::Vertical,
    }
}

/// Before a key or intent: a cursor past the steps is dropped and a
/// vertical list scrolls to show the cursor.
pub open spec fn settle_cursor_spec(m: StepperModel, items: Seq<StepItem>) -> StepperModel {
    let m1 = StepperModel {
        cursor: match m.cursor { Some(c) => if c < items.len() { Some(c) } else { None }, None => None },
        ..m
    };
    StepperModel { vertical_scroll: visible_scroll_spec(m1, items), ..m1 }
}

/// Whether the stepper takes keys: enabled, taking input and focused.
pub open spec fn live_spec(m: StepperModel) -> bool {
    m.enabled && m.accepts_input && m.focused
}

/// The cursor as a position, if any.
pub open spec fn cursor_at(m: StepperModel) -> Option<int> {
    match m.cursor {
        Some(c) => Some(c as int),
        None => None,
    }
}

/// The cursor, step zero without one.
pub open spec fn cursor_or_zero(m: StepperModel) -> int {
    match m.cursor {
        Some(c) => c as int,
        None => 0,
    }
}

/// What an intent does to a live stepper with steps: moves take the cursor
/// to another enabled step (without wrapping) and show it; Activate, Submit
/// and Toggle activate the cursor's step; Cancel and Close shut an open
/// menu.
pub open spec fn stepper_intent_step_spec(m: StepperModel, intent: UiIntent, items: Seq<StepItem>) -> (StepperModel, StepperOutcome) {
    if !live_spec(m) || items.len() == 0 {
        (m, StepperOutcome::Ignored)
    } else {
        let m1 = settle_cursor_spec(m, items);
        match intent {
            UiIntent::Move(mv) => match roving_target(step_flags(m1, items), cursor_at(m1), mv, false, stepper_axis(m1.orientation)) {
                Some(t) => if Some(t) == cursor_at(m1) {
                    (m1, StepperOutcome::Ignored)
                } else {
                    let m2 = StepperModel { cursor: Some(t as usize), ..m1 };
                    (StepperModel { vertical_scroll: visible_scroll_spec(m2, items), ..m2 }, StepperOutcome::CursorMoved { index: t as usize })
                },
                None => (m1, StepperOutcome::Ignored),
            },
            UiIntent::Activate | UiIntent::Submit | UiIntent::Toggle => activate_spec(m1, cursor_or_zero(m1), items),
            UiIntent::Cancel | UiIntent::Close => if m1.menu_open {
                (StepperModel { menu_open: false, ..m1 }, StepperOutcome::MenuToggled { open: false })
            } else {
                (m1, StepperOutcome::Ignored)
            },
            _ => (m1, StepperOutcome::Ignored),
        }
    }
}

/// What a key does to a live stepper with steps: a closed menu opens on
/// Enter, Space or Down; an open menu closes on Esc and activates the
/// cursor's step on Enter or Space; otherwise the stepper key map applies,
/// and digits one to nine activate that step.
pub open spec fn stepper_key_spec(m: StepperModel, key: KeyEvent, items: Seq<StepItem>) -> (StepperModel, StepperOutcome) {
    if !live_spec(m) || items.len() == 0 || key.kind == KeyEventKind::Release {
        (m, StepperOutcome::Ignored)
    } else {
        let m1 = settle_cursor_spec(m, items);
        let opener = key.code == KeyCode::Enter || key.code == KeyCode::Char(' ') || key.code == KeyCode::Down;
        if m1.presentation == StepperPresentation::Menu && !m1.menu_open && opener {
            (StepperModel { menu_open: true, ..m1 }, StepperOutcome::MenuToggled { open: true })
        } else if m1.menu_open && key.code == KeyCode::Esc {
            (StepperModel { menu_open: false, ..m1 }, StepperOutcome::MenuToggled { open: false })
        } else if m1.menu_open && (key.code == KeyCode::Enter || key.code == KeyCode::Char(' ')) {
            activate_spec(m1, cursor_or_zero(m1), items)
        } else {
            match stepper_intent_spec(key, m1.orientation) {
                Some(intent) => stepper_intent_step_spec(m1, intent, items),
                None => match key.code {
                    KeyCode::Char(c) => if '1' <= c <= '9' && (c as int) - ('1' as int) < items.len() {
                        activate_spec(m1, (c as int) - ('1' as int), items)
                    } else {
                        (m1, StepperOutcome::Ignored)
                    },
                    _ => (m1, StepperOutcome::Ignored),
                },
            }
        }
    }
}

impl StepperState {
    /// Drops a cursor past the steps and shows the cursor.
    fn settle_cursor(&mut self, items: &[StepItem])
        ensures
            final(self)@ == settle_cursor_spec(old(self)@, items@),
    {
        if let Some(c) = self.cursor {
            if c >= items.len() {
                self.cursor = None;
            }
        }
        self.ensure_vertical_cursor_visible(items);
    }

    /// Which steps the cursor may land on.
    fn step_flags_exec(&self, items: &[StepItem]) -> (v: Vec<bool>)
        ensures
            v@ == step_flags(self@, items@),
    {
        let mut v: Vec<bool> = Vec::new();
        let mut i: usize = 0;
        while i < items.len()
            invariant
                i <= items.len(),
                v@.len() == i,
                forall|k: int| 0 <= k < i ==> v@[k] == (!items@[k].disabled && status_at(self@, k) != StepStatus::Disabled),
            decreases items.len() - i,
        {
            let st = if i < self.statuses.len() { self.statuses[i] } else { StepStatus::Future };
            v.push(!items[i].disabled && st != StepStatus::Disabled);
            i = i + 1;
        }
        assert(v@ =~= step_flags(self@, items@));
        v
    }

    /// Applies an intent (see [`stepper_intent_step_spec`]).
    pub fn handle_intent(&mut self, intent: UiIntent, items: &[StepItem]) -> (o: StepperOutcome)
        ensures
            (final(self)@, o) == stepper_intent_step_spec(old(self)@, intent, items@),
    {
        if !(self.enabled && self.accepts_input && self.focused) || items.len() == 0 {
            return StepperOutcome::Ignored;
        }
        self.settle_cursor(items);
        match intent {
            UiIntent::Move(mv) => {
                let flags = self.step_flags_exec(items);
                let axis = match self.orientation {
                    StepperOrientation::Horizontal => RovingOrientation::Horizontal,
                    StepperOrientation::Vertical => RovingOrientation::Vertical,
                };
                match roving_move(&flags, self.cursor, mv, false, axis) {
                    Some(t) => {
                        if self.cursor == Some(t) {
                            StepperOutcome::Ignored
                        } else {
                            self.cursor = Some(t);
                            self.ensure_vertical_cursor_visible(items);
                            StepperOutcome::CursorMoved { index: t }
                        }
                    },
                    None => StepperOutcome::Ignored,
                }
            },
            UiIntent::Activate | UiIntent::Submit | UiIntent::Toggle => {
                let c = self.cursor();
                self.activate(c, items)
            },
            UiIntent::Cancel | UiIntent::Close => {
                if self.menu_open {
                    self.menu_open = false;
                    StepperOutcome::MenuToggled { open: false }
                } else {
                    StepperOutcome::Ignored
                }
            },
            _ => StepperOutcome::Ignored,
        }
    }

    /// Handles a key (see [`stepper_key_spec`]).
    pub fn handle_key(&mut self, key: KeyEvent, items: &[StepItem]) -> (o: StepperOutcome)
        ensures
            (final(self)@, o) == stepper_key_spec(old(self)@, key, items@),
    {
        if !(self.enabled && self.accepts_input && self.focused) || items.len() == 0 || key.kind == KeyEventKind::Release {
            return StepperOutcome::Ignored;
        }
        self.settle_cursor(items);
        let opener = match key.code {
            KeyCode::Enter | KeyCode::Down => true,
            KeyCode::Char(c) => c == ' ',
            _ => false,
        };
        if self.presentation == StepperPresentation::Menu && !self.menu_open && opener {
            self.menu_open = true;
            return StepperOutcome::MenuToggled { open: true };
        }
        if self.menu_open {
            match key.code {
                KeyCode::Esc => {
                    self.menu_open = false;
                    return StepperOutcome::MenuToggled { open: false };
                },
                KeyCode::Enter => {
                    let c = self.cursor();
                    return self.activate(c, items);
                },
                KeyCode::Char(c) => if c == ' ' {
                    let k = self.cursor();
                    return self.activate(k, items);
                },
                _ => {},
            }
        }
        match default_stepper_intent(key, self.orientation) {
            Some(intent) => self.handle_intent(intent, items),
            None => match key.code {
                KeyCode::Char(c) => {
                    if '1' <= c && c <= '9' {
                        let idx = (c as u32 - '1' as u32) as usize;
                        if idx < items.len() {
                            return self.activate(idx, items);
                        }
                    }
                    StepperOutcome::Ignored
                },
                _ => StepperOutcome::Ignored,
            },
        }
    }
}

/// The state side of painting `items` in `area`: hit regions cleared, the
/// area recorded; then, with steps and cells, statuses fitted to the steps,
/// the presentation following the bounds, a cursor past the steps dropped,
/// and a vertical list's viewport set to the area's rows with the cursor
/// kept in view. The flag says whether anything is to be painted.
pub open spec fn prepare_spec(m: StepperModel, area: Rect, items: Seq<StepItem>, show: bool) -> (StepperModel, bool) {
    let m0 = StepperModel { hits: Seq::empty(), menu_hit: Rect { x: 0, y: 0, width: 0, height: 0 }, root: area, ..m };
    if area.width == 0 || area.height == 0 || items.len() == 0 {
        (m0, false)
    } else {
        let m1 = if m0.statuses.len() != items.len() { resize_spec(m0, items.len() as int) } else { m0 };
        let m2 = sync_presentation_spec(m1, area).0;
        let m3 = StepperModel {
            cursor: match m2.cursor { Some(c) => if c < items.len() { Some(c) } else { None }, None => None },
            vertical_show_descriptions: show,
            ..m2
        };
        let m4 = if uses_viewport(m3) {
            let v = StepperModel { vertical_viewport: if area.height < 1 { 1 } else { area.height as usize }, ..m3 };
            StepperModel { vertical_scroll: visible_scroll_spec(v, items), ..v }
        } else {
            StepperModel { vertical_scroll: 0, ..m3 }
        };
        (m4, true)
    }
}

/// Progress of a horizontal layout.
pub struct HorizontalScan {
    /// Pieces so far.
    pub pieces: Seq<StepperPiece>,
    /// Next column.
    pub x: int,
    /// Whether the row ran out.
    pub stopped: bool,
}

/// One step of a horizontal row: `cw` cells for its mark and title, `jw`
/// with the join after it, which it takes when another step follows and the
/// join fits after it with a cell to spare; cut to the cells left.
pub open spec fn horizontal_step(st: HorizontalScan, i: int, n: int, cw: int, jw: int, sep_w: int, area: Rect) -> HorizontalScan {
    let right = area.right_spec();
    if st.stopped || st.x >= right {
        HorizontalScan { stopped: true, ..st }
    } else {
        let remaining = right - st.x;
        let joined = i + 1 < n && cw < remaining && sat_add(cw, sep_w) < remaining;
        let w0 = if joined { jw } else { cw };
        let w = if w0 < remaining { w0 } else { remaining };
        if w == 0 {
            HorizontalScan { stopped: true, ..st }
        } else {
            HorizontalScan {
                pieces: st.pieces.push(StepperPiece {
                    kind: if joined { StepperPieceKind::Joined } else { StepperPieceKind::Step },
                    index: i as usize,
                    rect: Rect::new_spec(st.x as u16, area.y, w, 1),
                }),
                x: sat_add(st.x, w),
                stopped: false,
            }
        }
    }
}

/// Cells of step `i` without and with its join (none when not measured).
pub open spec fn width_at(widths: Seq<(u16, u16)>, i: int) -> (u16, u16) {
    if 0 <= i < widths.len() { widths[i] } else { (0u16, 0u16) }
}

/// A horizontal row over the first `k` of `n` steps, `widths[i]` being a
/// step's cells without and with its join.
pub open spec fn horizontal_scan(area: Rect, widths: Seq<(u16, u16)>, n: int, sep_w: int, k: int) -> HorizontalScan
    decreases k,
{
    if k <= 0 {
        HorizontalScan { pieces: Seq::empty(), x: area.x as int, stopped: false }
    } else {
        horizontal_step(horizontal_scan(area, widths, n, sep_w, k - 1), k - 1, n,
            width_at(widths, k - 1).0 as int, width_at(widths, k - 1).1 as int, sep_w, area)
    }
}

/// What a horizontal row keeps after any number of steps: the pieces are
/// steps `0, 1, …` in order, one row on the area's first row, each at least
/// a cell wide, inside the area, and starting where the previous one ends;
/// the next column is where the last one ends.
pub open spec fn horizontal_row_ok(area: Rect, st: HorizontalScan, k: int) -> bool {
    let p = st.pieces;
    &&& p.len() <= k
    &&& !st.stopped ==> p.len() == k
    &&& forall|j: int| 0 <= j < p.len() ==> {
        &&& (#[trigger] p[j]).index == j
        &&& (p[j].kind == StepperPieceKind::Step || p[j].kind == StepperPieceKind::Joined)
        &&& p[j].rect.y == area.y
        &&& p[j].rect.height == 1
        &&& p[j].rect.width > 0
        &&& area.x <= p[j].rect.x
        &&& p[j].rect.x + p[j].rect.width <= area.right_spec()
    }
    &&& p.len() == 0 ==> st.x == area.x
    &&& p.len() > 0 ==> p[0].rect.x == area.x && st.x == p.last().rect.x + p.last().rect.width
    &&& forall|j: int| 0 <= j < p.len() - 1 ==> #[trigger] p[j + 1].rect.x == p[j].rect.x + p[j].rect.width
    &&& area.x <= st.x <= area.right_spec()
}

proof fn lemma_horizontal_row(area: Rect, widths: Seq<(u16, u16)>, n: int, sep_w: int, k: int)
    requires
        0 <= k <= usize::MAX,
        sep_w >= 0,
        area.y < u16::MAX,
    ensures
        horizontal_row_ok(area, horizontal_scan(area, widths, n, sep_w, k), k),
    decreases k,
{
    if k > 0 {
        lemma_horizontal_row(area, widths, n, sep_w, k - 1);
        let st = horizontal_scan(area, widths, n, sep_w, k - 1);
        let next = horizontal_scan(area, widths, n, sep_w, k);
        let i = k - 1;
        let cw = width_at(widths, i).0 as int;
        let jw = width_at(widths, i).1 as int;
        assert(next == horizontal_step(st, i, n, cw, jw, sep_w, area));
        let right = area.right_spec();
        assert(right <= u16::MAX);
        if !(st.stopped || st.x >= right) {
            let remaining = right - st.x;
            let joined = i + 1 < n && cw < remaining && sat_add(cw, sep_w) < remaining;
            let w0 = if joined { jw } else { cw };
            let w = if w0 < remaining { w0 } else { remaining };
            if w != 0 {
                let piece = StepperPiece {
                    kind: if joined { StepperPieceKind::Joined } else { StepperPieceKind::Step },
                    index: i as usize,
                    rect: Rect::new_spec(st.x as u16, area.y, w, 1),
                };
                assert(st.pieces.len() == i);
                assert(0 <= st.x < right);
                assert((st.x as u16) as int == st.x);
                assert(piece.rect.x == st.x);
                assert(piece.rect.width == w);
                assert(piece.rect.height == 1);
                assert(next.x == st.x + w);
                let p = next.pieces;
                assert(p == st.pieces.push(piece));
                assert forall|j: int| 0 <= j < p.len() - 1 implies #[trigger] p[j + 1].rect.x == p[j].rect.x + p[j].rect.width by {
                    if j + 1 < st.pieces.len() {
                        assert(st.pieces[j + 1].rect.x == st.pieces[j].rect.x + st.pieces[j].rect.width);
                    }
                }
                assert forall|j: int| 0 <= j < p.len() implies (#[trigger] p[j]).index == j by {
                    if j < st.pieces.len() {
                        assert(st.pieces[j].index == j);
                    }
                }
            }
        }
    }
}

/// A horizontal stepper lays its steps out left to right from the area's
/// left edge with no gaps and no overlap: the pieces are steps `0, 1, …` in
/// order, each one row high on the area's first row, at least one cell wide
/// and inside the area, each starting where the one before ends.
pub proof fn law_horizontal_steps_are_contiguous(area: Rect, widths: Seq<(u16, u16)>, n: int, sep_w: int)
    requires
        0 <= n <= usize::MAX,
        sep_w >= 0,
        area.y < u16::MAX,
    ensures
        horizontal_row_ok(area, horizontal_scan(area, widths, n, sep_w, n), n),
{
    lemma_horizontal_row(area, widths, n, sep_w, n);
}

/// Progress of a vertical layout.
pub struct VerticalScan {
    /// Pieces so far.
    pub pieces: Seq<StepperPiece>,
    /// Next row.
    pub y: int,
    /// Whether the rows ran out.
    pub stopped: bool,
}

/// The connector under step `i` at row `y`, when another step follows, the
/// list is not compact and the row exists.
pub open spec fn connector_after(pieces: Seq<StepperPiece>, y: int, i: int, n: int, area: Rect, compact: bool) -> VerticalScan {
    if i + 1 < n && !compact && y < area.bottom_spec() {
        VerticalScan {
            pieces: pieces.push(StepperPiece { kind: StepperPieceKind::Connector, index: i as usize, rect: Rect::new_spec(area.x, y as u16, 2, 1) }),
            y: sat_add(y, 1),
            stopped: false,
        }
    } else {
        VerticalScan { pieces, y, stopped: false }
    }
}

/// One step of a vertical list: its row, its description row (when shown,
/// not compact, and it has one), then its connector.
pub open spec fn vertical_step(st: VerticalScan, i: int, n: int, item: StepItem, area: Rect, show: bool, compact: bool) -> VerticalScan {
    if st.stopped || st.y >= area.bottom_spec() {
        VerticalScan { stopped: true, ..st }
    } else {
        let p1 = st.pieces.push(StepperPiece { kind: StepperPieceKind::Row, index: i as usize, rect: Rect::new_spec(area.x, st.y as u16, area.width as int, 1) });
        let y1 = sat_add(st.y, 1);
        if show && !compact && item.description is Some {
            if y1 >= area.bottom_spec() {
                VerticalScan { pieces: p1, y: y1, stopped: true }
            } else {
                let p2 = p1.push(StepperPiece { kind: StepperPieceKind::Description, index: i as usize, rect: Rect::new_spec(area.x, y1 as u16, area.width as int, 1) });
                connector_after(p2, sat_add(y1, 1), i, n, area, compact)
            }
        } else {
            connector_after(p1, y1, i, n, area, compact)
        }
    }
}

/// A vertical list over steps `start .. i`.
pub open spec fn vertical_scan(area: Rect, items: Seq<StepItem>, show: bool, compact: bool, start: int, i: int) -> VerticalScan
    decreases i - start,
{
    if i <= start {
        VerticalScan { pieces: Seq::empty(), y: area.y as int, stopped: false }
    } else {
        vertical_step(vertical_scan(area, items, show, compact, start, i - 1), i - 1, items.len() as int, items[i - 1], area, show, compact)
    }
}

/// Rows of an open menu over the first `k` steps, from the row under the
/// header.
pub open spec fn menu_rows(area: Rect, k: int) -> Seq<StepperPiece>
    decreases k,
{
    if k <= 0 {
        Seq::empty()
    } else {
        let y = area.y + k;
        let prev = menu_rows(area, k - 1);
        if y < area.bottom_spec() {
            prev.push(StepperPiece { kind: StepperPieceKind::MenuRow, index: (k - 1) as usize, rect: Rect::new_spec(area.x, y as u16, area.width as int, 1) })
        } else {
            prev
        }
    }
}

/// The step a numeric or menu face shows: the cursor, else the current
/// step, at most the last step.
pub open spec fn selected_spec(m: StepperModel, len: int) -> int {
    let s = match m.cursor { Some(c) => c as int, None => m.current as int };
    let last = if len > 0 { len - 1 } else { 0 };
    if s < last { s } else { last }
}

/// The hit regions of laid-out pieces: every piece but descriptions and
/// connectors.
pub open spec fn piece_hits(pieces: Seq<StepperPiece>) -> Seq<(usize, Rect)>
    decreases pieces.len(),
{
    if pieces.len() == 0 {
        Seq::empty()
    } else {
        let rest = piece_hits(pieces.drop_last());
        let p = pieces.last();
        if p.kind == StepperPieceKind::Description || p.kind == StepperPieceKind::Connector {
            rest
        } else {
            rest.push((p.index, p.rect))
        }
    }
}

/// Pieces of a prepared stepper with steps in a non-empty area, by
/// presentation: numeric shows one header; a menu shows its header and,
/// open with room, a row per step; otherwise a row of steps or, vertical,
/// a list from the scroll on.
pub open spec fn place_pieces(m: StepperModel, area: Rect, items: Seq<StepItem>, widths: Seq<(u16, u16)>, sep_w: int, show: bool) -> Seq<StepperPiece> {
    let len = items.len() as int;
    let header = StepperPiece { kind: StepperPieceKind::Header, index: selected_spec(m, len) as usize, rect: Rect::new_spec(area.x, area.y, area.width as int, 1) };
    match m.presentation {
        StepperPresentation::Numeric => seq![header],
        StepperPresentation::Menu => if m.menu_open && area.height > 1 {
            seq![header] + menu_rows(area, len)
        } else {
            seq![header]
        },
        _ => match m.orientation {
            StepperOrientation::Horizontal => horizontal_scan(area, widths, len, sep_w, len).pieces,
            StepperOrientation::Vertical => vertical_scan(area, items, show,
                m.presentation == StepperPresentation::Compact, m.vertical_scroll as int, len).pieces,
        },
    }
}

} // verus!

verus! {

proof fn lemma_hits_of_steps(p: Seq<StepperPiece>)
    requires
        forall|j: int| 0 <= j < p.len() ==> ((#[trigger] p[j]).kind == StepperPieceKind::Step || p[j].kind == StepperPieceKind::Joined),
    ensures
        piece_hits(p).len() == p.len(),
        forall|j: int| 0 <= j < p.len() ==> #[trigger] piece_hits(p)[j] == (p[j].index, p[j].rect),
    decreases p.len(),
{
    if p.len() > 0 {
        let q = p.drop_last();
        assert forall|j: int| 0 <= j < q.len() implies ((#[trigger] q[j]).kind == StepperPieceKind::Step || q[j].kind == StepperPieceKind::Joined) by {
            assert(q[j] == p[j]);
        }
        lemma_hits_of_steps(q);
    }
}

/// The hits a horizontal stepper records are steps `0, 1, …` in order, each
/// one row high on the area's first row, at least one cell wide and inside
/// the area, the first at the area's left edge and each starting where the
/// one before ends.
pub proof fn law_horizontal_hits_are_contiguous(
    m: StepperModel,
    area: Rect,
    items: Seq<StepItem>,
    widths: Seq<(u16, u16)>,
    sep_w: int,
    show: bool,
)
    requires
        m.orientation == StepperOrientation::Horizontal,
        m.presentation == StepperPresentation::Expanded || m.presentation == StepperPresentation::Compact,
        items.len() <= usize::MAX,
        sep_w >= 0,
        area.y < u16::MAX,
    ensures
        ({
            let h = piece_hits(place_pieces(m, area, items, widths, sep_w, show));
            &&& forall|j: int| 0 <= j < h.len() ==> {
                &&& (#[trigger] h[j]).0 == j
                &&& h[j].1.y == area.y
                &&& h[j].1.height == 1
                &&& h[j].1.width > 0
                &&& area.x <= h[j].1.x
                &&& h[j].1.x + h[j].1.width <= area.right_spec()
            }
            &&& h.len() > 0 ==> h[0].1.x == area.x
            &&& forall|j: int| 0 <= j < h.len() - 1 ==> #[trigger] h[j + 1].1.x == h[j].1.x + h[j].1.width
        }),
{
    let n = items.len() as int;
    law_horizontal_steps_are_contiguous(area, widths, n, sep_w);
    let p = horizontal_scan(area, widths, n, sep_w, n).pieces;
    assert(place_pieces(m, area, items, widths, sep_w, show) == p);
    lemma_hits_of_steps(p);
    let h = piece_hits(p);
    assert forall|j: int| 0 <= j < h.len() - 1 implies #[trigger] h[j + 1].1.x == h[j].1.x + h[j].1.width by {
        assert(h[j] == (p[j].index, p[j].rect));
        assert(h[j + 1] == (p[j + 1].index, p[j + 1].rect));
    }
    if h.len() > 0 {
        assert(h[0] == (p[0].index, p[0].rect));
    }
}

proof fn lemma_piece_hits_push(pieces: Seq<StepperPiece>, p: StepperPiece)
    ensures
        piece_hits(pieces.push(p)) == (if p.kind == StepperPieceKind::Description || p.kind == StepperPieceKind::Connector {
            piece_hits(pieces)
        } else {
            piece_hits(pieces).push((p.index, p.rect))
        }),
{
    assert(pieces.push(p).drop_last() =~= pieces);
}

impl<'a> Stepper<'a> {
    /// The state side of painting (see [`prepare_spec`]); whether anything
    /// is to be painted.
    #[verifier::spinoff_prover]
    #[verifier::rlimit(60)]
    pub fn prepare(&self, area: Rect, state: &mut StepperState) -> (go: bool)
        ensures
            (final(state)@, go) == prepare_spec(old(state)@, area, self.items@, self.show_descriptions),
    {
        state.hits = Vec::new();
        state.menu_hit = Rect { x: 0, y: 0, width: 0, height: 0 };
        state.root = area;
        let ghost m0 = state@;
        assert(m0 == StepperModel { hits: Seq::empty(), menu_hit: Rect { x: 0, y: 0, width: 0, height: 0 }, root: area, ..old(state)@ });
        if area.width == 0 || area.height == 0 || self.items.len() == 0 {
            return false;
        }
        if state.statuses.len() != self.items.len() {
            state.resize(self.items.len());
        }
        let ghost m1 = state@;
        assert(m1 == (if m0.statuses.len() != self.items@.len() { resize_spec(m0, self.items@.len() as int) } else { m0 }));
        let _ = state.sync_presentation(area);
        let ghost m2 = state@;
        assert(m2 == sync_presentation_spec(m1, area).0);
        state.cursor = match state.cursor {
            Some(c) => if c < self.items.len() { Some(c) } else { None },
            None => None,
        };
        state.vertical_show_descriptions = self.show_descriptions;
        let ghost m3 = state@;
        assert(m3 == StepperModel {
            cursor: match m2.cursor { Some(c) => if c < self.items@.len() { Some(c) } else { None }, None => None },
            vertical_show_descriptions: self.show_descriptions,
            ..m2
        });
        let uses = state.orientation == StepperOrientation::Vertical
            && (state.presentation == StepperPresentation::Expanded || state.presentation == StepperPresentation::Compact);
        if uses {
            state.vertical_viewport = if area.height < 1 { 1 } else { area.height as usize };
            state.ensure_vertical_cursor_visible(self.items);
        } else {
            state.vertical_scroll = 0;
        }
        true
    }

    fn place_horizontal(&self, area: Rect, widths: &Vec<(u16, u16)>, sep_w: u16) -> (out: Vec<StepperPiece>)
        ensures
            out@ == horizontal_scan(area, widths@, self.items@.len() as int, sep_w as int, self.items@.len() as int).pieces,
    {
        let n = self.items.len();
        let right = area.right();
        let mut x = area.x;
        let mut stopped = false;
        let mut out: Vec<StepperPiece> = Vec::new();
        let mut i: usize = 0;
        while i < n
            invariant
                i <= n,
                n == self.items@.len(),
                right == area.right_spec(),
                ({
                    let st = horizontal_scan(area, widths@, n as int, sep_w as int, i as int);
                    &&& out@ == st.pieces
                    &&& x as int == st.x
                    &&& stopped == st.stopped
                }),
            decreases n - i,
        {
            if !(stopped || x >= right) {
                let remaining = right - x;
                let (cw, jw) = if i < widths.len() { widths[i] } else { (0u16, 0u16) };
                let joined = i + 1 < n && cw < remaining && cw.saturating_add(sep_w) < remaining;
                let w0 = if joined { jw } else { cw };
                let w = if w0 < remaining { w0 } else { remaining };
                if w == 0 {
                    stopped = true;
                } else {
                    out.push(StepperPiece {
                        kind: if joined { StepperPieceKind::Joined } else { StepperPieceKind::Step },
                        index: i,
                        rect: Rect::new(x, area.y, w, 1),
                    });
                    x = x.saturating_add(w);
                }
            } else {
                stopped = true;
            }
            i = i + 1;
        }
        out
    }

    fn place_vertical(&self, area: Rect, scroll: usize, compact: bool) -> (out: Vec<StepperPiece>)
        ensures
            out@ == vertical_scan(area, self.items@, self.show_descriptions, compact, scroll as int, self.items@.len() as int).pieces,
    {
        let n = self.items.len();
        let bottom = area.bottom();
        let mut y = area.y;
        let mut stopped = false;
        let mut out: Vec<StepperPiece> = Vec::new();
        let mut i: usize = scroll;
        if scroll >= n {
            return out;
        }
        while i < n
            invariant
                scroll <= i <= n,
                n == self.items@.len(),
                bottom == area.bottom_spec(),
                ({
                    let st = vertical_scan(area, self.items@, self.show_descriptions, compact, scroll as int, i as int);
                    &&& out@ == st.pieces
                    &&& y as int == st.y
                    &&& stopped == st.stopped
                }),
            decreases n - i,
        {
            if stopped || y >= bottom {
                stopped = true;
            } else {
                out.push(StepperPiece { kind: StepperPieceKind::Row, index: i, rect: Rect::new(area.x, y, area.width, 1) });
                y = y.saturating_add(1);
                let mut conn = true;
                if self.show_descriptions && !compact && self.items[i].description.is_some() {
                    if y >= bottom {
                        stopped = true;
                        conn = false;
                    } else {
                        out.push(StepperPiece { kind: StepperPieceKind::Description, index: i, rect: Rect::new(area.x, y, area.width, 1) });
                        y = y.saturating_add(1);
                    }
                }
                if conn && i + 1 < n && !compact && y < bottom {
                    out.push(StepperPiece { kind: StepperPieceKind::Connector, index: i, rect: Rect::new(area.x, y, 2, 1) });
                    y = y.saturating_add(1);
                }
            }
            i = i + 1;
        }
        out
    }

    fn place_menu_rows(&self, area: Rect, header: StepperPiece) -> (out: Vec<StepperPiece>)
        ensures
            out@ == seq![header] + menu_rows(area, self.items@.len() as int),
    {
        let n = self.items.len();
        let bottom = area.bottom();
        let mut out: Vec<StepperPiece> = Vec::new();
        out.push(header);
        let mut k: usize = 0;
        while k < n
            invariant
                k <= n,
                n == self.items@.len(),
                bottom == area.bottom_spec(),
                out@ == seq![header] + menu_rows(area, k as int),
            decreases n - k,
        {
            let y: u128 = area.y as u128 + k as u128 + 1;
            if y < bottom as u128 {
                out.push(StepperPiece { kind: StepperPieceKind::MenuRow, index: k, rect: Rect::new(area.x, y as u16, area.width, 1) });
            }
            k = k + 1;
            assert(out@ =~= seq![header] + menu_rows(area, k as int));
        }
        out
    }

    /// Lays out a prepared stepper (see [`place_pieces`]; nothing in an empty
    /// area or without steps) and records its hit regions, and, for a menu,
    /// its header. `widths[i]` are step `i`'s cells without and with the join
    /// `sep_w` cells wide.
    pub fn place(&self, area: Rect, state: &mut StepperState, widths: &Vec<(u16, u16)>, sep_w: u16) -> (pieces: Vec<StepperPiece>)
        ensures
            pieces@ == (if area.width == 0 || area.height == 0 || self.items@.len() == 0 {
                Seq::empty()
            } else {
                place_pieces(old(state)@, area, self.items@, widths@, sep_w as int, self.show_descriptions)
            }),
            final(state)@ == (if area.width == 0 || area.height == 0 || self.items@.len() == 0 {
                old(state)@
            } else {
                StepperModel {
                    hits: piece_hits(pieces@),
                    menu_hit: if old(state)@.presentation == StepperPresentation::Menu {
                        Rect::new_spec(area.x, area.y, area.width as int, 1)
                    } else {
                        old(state)@.menu_hit
                    },
                    ..old(state)@
                }
            }),
    {
        let n = self.items.len();
        if area.width == 0 || area.height == 0 || n == 0 {
            return Vec::new();
        }
        let s = match state.cursor {
            Some(c) => c,
            None => state.current,
        };
        let selected = if s < n - 1 { s } else { n - 1 };
        let header = StepperPiece { kind: StepperPieceKind::Header, index: selected, rect: Rect::new(area.x, area.y, area.width, 1) };
        let pieces = match state.presentation {
            StepperPresentation::Numeric => {
                let mut v = Vec::new();
                v.push(header);
                v
            },
            StepperPresentation::Menu => {
                state.menu_hit = header.rect;
                if state.menu_open && area.height > 1 {
                    self.place_menu_rows(area, header)
                } else {
                    let mut v = Vec::new();
                    v.push(header);
                    v
                }
            },
            _ => match state.orientation {
                StepperOrientation::Horizontal => self.place_horizontal(area, widths, sep_w),
                StepperOrientation::Vertical => {
                    let compact = state.presentation == StepperPresentation::Compact;
                    self.place_vertical(area, state.vertical_scroll, compact)
                },
            },
        };
        let mut hits: Vec<(usize, Rect)> = Vec::new();
        let mut j: usize = 0;
        while j < pieces.len()
            invariant
                j <= pieces@.len(),
                hits@ == piece_hits(pieces@.take(j as int)),
            decreases pieces.len() - j,
        {
            let p = pieces[j];
            proof {
                lemma_piece_hits_push(pieces@.take(j as int), p);
                assert(pieces@.take(j as int).push(p) =~= pieces@.take(j + 1));
            }
            if !(p.kind == StepperPieceKind::Description || p.kind == StepperPieceKind::Connector) {
                hits.push((p.index, p.rect));
            }
            j = j + 1;
        }
        assert(pieces@.take(pieces@.len() as int) =~= pieces@);
        state.hits = hits;
        pieces
    }
}

} // verus!

verus! {

/// Whether a status is a host override that `set_current` may keep.
pub open spec fn is_special(s: StepStatus) -> bool {
    s == StepStatus::Error || s == StepStatus::Skipped || s == StepStatus::Disabled || s == StepStatus::Optional
}

/// Moving the current step leaves exactly one current step: the one asked
/// for, clamped onto the steps, with the cursor on it. Without preserving,
/// earlier steps are complete (or stay skipped) and later ones are future
/// (or stay disabled or optional); preserving, every other step that held a
/// host override keeps it.
pub proof fn law_set_current_marks_one_step(m: StepperModel, index: int, len: int, preserve: bool)
    requires
        0 < len <= usize::MAX,
        0 <= index <= usize::MAX,
    ensures
        ({
            let r = set_current_spec(m, index, len, preserve);
            let cur = if index < len - 1 { index } else { len - 1 };
            &&& r.statuses.len() == len
            &&& r.current == cur
            &&& r.cursor == Some(cur as usize)
            &&& forall|i: int| 0 <= i < len ==> (r.statuses[i] == StepStatus::Current <==> i == cur)
            &&& !preserve ==> forall|i: int| 0 <= i < cur ==>
                (r.statuses[i] == StepStatus::Complete || r.statuses[i] == StepStatus::Skipped)
            &&& !preserve ==> forall|i: int| cur < i < len ==>
                (r.statuses[i] == StepStatus::Future || r.statuses[i] == StepStatus::Disabled || r.statuses[i] == StepStatus::Optional)
            &&& preserve ==> forall|i: int| 0 <= i < len && i < m.statuses.len() && i != cur && is_special(m.statuses[i]) ==>
                r.statuses[i] == m.statuses[i]
        }),
{
    let r0 = resize_spec(m, len);
    let st0 = fit_statuses(m.statuses, len);
    assert forall|i: int| 0 <= i < len && i < m.statuses.len() && is_special(m.statuses[i]) implies r0.statuses[i] == m.statuses[i] by {
        assert(st0[i] == m.statuses[i]);
        assert(st0[i] != StepStatus::Future);
    }
}

/// Activation is a request, not a move: it never changes the domain's
/// current step or the statuses; it is granted exactly when the policy
/// allows the step, and never under the display-only policy.
pub proof fn law_activation_leaves_progress(m: StepperModel, index: int, items: Seq<StepItem>)
    ensures
        ({
            let (r, o) = activate_spec(m, index, items);
            &&& r.current == m.current
            &&& r.statuses == m.statuses
            &&& (o is StepActivated <==> can_activate_spec(m, index, items))
            &&& (m.policy == StepperNavPolicy::DisplayOnly ==> o == StepperOutcome::Ignored)
        }),
{
}

} // verus!

verus! {

proof fn lemma_rows_extend(expanded: bool, show: bool, items: Seq<StepItem>, c: int, s: int, e: int)
    requires
        s <= e,
    ensures
        rows_span(expanded, show, items, c, s, e + 1) == rows_span(expanded, show, items, c, s, e) + step_rows(expanded, show, items, c, e),
    decreases e - s,
{
    if s < e {
        lemma_rows_extend(expanded, show, items, c, s + 1, e);
    } else {
        assert(rows_span(expanded, show, items, c, s + 1, s + 1) == 0);
    }
}

proof fn lemma_rows_monotone(expanded: bool, show: bool, items: Seq<StepItem>, c: int, s: int, i: int, e: int)
    requires
        s <= i <= e,
    ensures
        rows_span(expanded, show, items, c, s, i) + (e - i) <= rows_span(expanded, show, items, c, s, e),
    decreases e - i,
{
    if i < e {
        lemma_rows_extend(expanded, show, items, c, s, e - 1);
        lemma_rows_monotone(expanded, show, items, c, s, i, e - 1);
    }
}

proof fn lemma_advance(expanded: bool, show: bool, items: Seq<StepItem>, c: int, cap: int, s: int)
    requires
        s <= c,
    ensures
        ({
            let r = advance_scroll(expanded, show, items, c, cap, s);
            &&& s <= r <= c
            &&& (r == c || rows_span(expanded, show, items, c, r, c + 1) <= cap)
        }),
    decreases c - s,
{
    if s < c && rows_span(expanded, show, items, c, s, c + 1) > cap {
        lemma_advance(expanded, show, items, c, cap, s + 1);
    }
}

proof fn lemma_vertical_prefix(area: Rect, items: Seq<StepItem>, show: bool, compact: bool, s: int, i: int, j: int)
    requires
        s <= i <= j,
    ensures
        ({
            let a = vertical_scan(area, items, show, compact, s, i).pieces;
            let b = vertical_scan(area, items, show, compact, s, j).pieces;
            a.len() <= b.len() && forall|k: int| 0 <= k < a.len() ==> b[k] == a[k]
        }),
    decreases j - i,
{
    if i < j {
        lemma_vertical_prefix(area, items, show, compact, s, i, j - 1);
    }
}

proof fn lemma_vertical_rows(area: Rect, items: Seq<StepItem>, expanded: bool, show: bool, c: int, s: int, i: int)
    requires
        s <= i <= c < items.len(),
        area.y + area.height <= u16::MAX,
        area.y + rows_span(expanded, show, items, c, s, c) < area.y + area.height,
    ensures
        ({
            let st = vertical_scan(area, items, show, !expanded, s, i);
            &&& !st.stopped
            &&& st.y == area.y + rows_span(expanded, show, items, c, s, i)
        }),
    decreases i - s,
{
    if i > s {
        lemma_vertical_rows(area, items, expanded, show, c, s, i - 1);
        lemma_rows_extend(expanded, show, items, c, s, i - 1);
        lemma_rows_monotone(expanded, show, items, c, s, i, c);
    }
}

proof fn lemma_prepared_scroll(m: StepperModel, area: Rect, items: Seq<StepItem>, show: bool)
    requires
        items.len() <= usize::MAX,
        ({
            let (p, go) = prepare_spec(m, area, items, show);
            go && uses_viewport(p) && p.cursor is Some
        }),
    ensures
        ({
            let (p, go) = prepare_spec(m, area, items, show);
            let c = p.cursor->0 as int;
            let expanded = p.presentation == StepperPresentation::Expanded;
            &&& c < items.len()
            &&& area.height > 0
            &&& p.vertical_show_descriptions == show
            &&& p.presentation == StepperPresentation::Expanded || p.presentation == StepperPresentation::Compact
            &&& p.orientation == StepperOrientation::Vertical
            &&& p.vertical_scroll <= c
            &&& (p.vertical_scroll == c || rows_span(expanded, show, items, c, p.vertical_scroll as int, c + 1) <= area.height)
        }),
{
    let (p, go) = prepare_spec(m, area, items, show);
    let m0 = StepperModel { hits: Seq::empty(), menu_hit: Rect { x: 0, y: 0, width: 0, height: 0 }, root: area, ..m };
    let m1 = if m0.statuses.len() != items.len() { resize_spec(m0, items.len() as int) } else { m0 };
    let m2 = sync_presentation_spec(m1, area).0;
    let m3 = StepperModel {
        cursor: match m2.cursor { Some(c) => if c < items.len() { Some(c) } else { None }, None => None },
        vertical_show_descriptions: show,
        ..m2
    };
    let v = StepperModel { vertical_viewport: area.height as usize, ..m3 };
    assert(uses_viewport(m3));
    assert(p == StepperModel { vertical_scroll: visible_scroll_spec(v, items), ..v });
    let c = v.cursor->0 as int;
    let n = items.len() as int;
    let s0 = if v.vertical_scroll < n - 1 { v.vertical_scroll as int } else { n - 1 };
    let s1 = if c < s0 { c } else { s0 };
    lemma_advance(v.presentation == StepperPresentation::Expanded, show, items, c, area.height as int, s1);
}

proof fn lemma_cursor_row(area: Rect, items: Seq<StepItem>, expanded: bool, compact: bool, show: bool, c: int, s: int)
    requires
        compact == !expanded,
        0 <= s <= c < items.len(),
        items.len() <= usize::MAX,
        area.x + area.width <= u16::MAX,
        area.y + area.height <= u16::MAX,
        area.height > 0,
        s == c || rows_span(expanded, show, items, c, s, c + 1) <= area.height,
    ensures
        ({
            let pieces = vertical_scan(area, items, show, compact, s, items.len() as int).pieces;
            exists|j: int| #![trigger pieces[j]] {
                &&& 0 <= j < pieces.len()
                &&& pieces[j].kind == StepperPieceKind::Row
                &&& pieces[j].index == c
                &&& rect_inside(pieces[j].rect, area)
            }
        }),
{
    lemma_rows_extend(expanded, show, items, c, s, c);
    lemma_rows_monotone(expanded, show, items, c, s, s, c);
    assert(rows_span(expanded, show, items, c, s, s) == 0);
    assert(area.y + rows_span(expanded, show, items, c, s, c) < area.y + area.height);
    lemma_vertical_rows(area, items, expanded, show, c, s, c);
    let st = vertical_scan(area, items, show, compact, s, c);
    let after = vertical_scan(area, items, show, compact, s, c + 1);
    let j = st.pieces.len() as int;
    assert(area.y <= st.y < area.y + area.height);
    assert(after == vertical_step(st, c, items.len() as int, items[c], area, show, compact));
    assert(after.pieces[j] == StepperPiece {
        kind: StepperPieceKind::Row,
        index: c as usize,
        rect: Rect::new_spec(area.x, st.y as u16, area.width as int, 1),
    });
    assert(rect_inside(after.pieces[j].rect, area));
    lemma_vertical_prefix(area, items, show, compact, s, c + 1, items.len() as int);
    let pieces = vertical_scan(area, items, show, compact, s, items.len() as int).pieces;
    assert(after.pieces.len() > j);
    assert(pieces[j] == after.pieces[j]);
    assert(0 <= j < pieces.len() && pieces[j].kind == StepperPieceKind::Row && pieces[j].index == c
        && rect_inside(pieces[j].rect, area));
}

/// A vertical stepper keeps its cursor in view: once painting is prepared,
/// the laid-out list holds the cursor's step on a row inside the area.
pub proof fn law_vertical_cursor_stays_in_view(m: StepperModel, area: Rect, items: Seq<StepItem>, widths: Seq<(u16, u16)>, sep_w: int, show: bool)
    requires
        area.x + area.width <= u16::MAX,
        area.y + area.height <= u16::MAX,
        items.len() <= usize::MAX,
    ensures
        ({
            let (p, go) = prepare_spec(m, area, items, show);
            let pieces = place_pieces(p, area, items, widths, sep_w, show);
            (go && uses_viewport(p) && p.cursor is Some) ==> exists|j: int| #![trigger pieces[j]] {
                &&& 0 <= j < pieces.len()
                &&& pieces[j].kind == StepperPieceKind::Row
                &&& pieces[j].index == p.cursor->0
                &&& rect_inside(pieces[j].rect, area)
            }
        }),
{
    let (p, go) = prepare_spec(m, area, items, show);
    if go && uses_viewport(p) && p.cursor is Some {
        lemma_prepared_scroll(m, area, items, show);
        let expanded = p.presentation == StepperPresentation::Expanded;
        lemma_cursor_row(area, items, expanded, !expanded, show, p.cursor->0 as int, p.vertical_scroll as int);
        assert((p.presentation == StepperPresentation::Compact) == !expanded);
        assert(place_pieces(p, area, items, widths, sep_w, show)
            == vertical_scan(area, items, show, !expanded, p.vertical_scroll as int, items.len() as int).pieces);
    }
}


/// `o` moves the cursor only onto an enabled step and activates only a
/// step that the policy allows.
pub open spec fn reaches_allowed_steps(m: StepperModel, items: Seq<StepItem>, o: StepperOutcome) -> bool {
    &&& o matches StepperOutcome::CursorMoved { index } ==> {
        &&& (index as int) < items.len()
        &&& !items[index as int].disabled
        &&& status_at(m, index as int) != StepStatus::Disabled
    }
    &&& o matches StepperOutcome::StepActivated { index, .. } ==> can_activate_spec(m, index as int, items)
}

proof fn lemma_intent_reaches_allowed(m: StepperModel, intent: UiIntent, items: Seq<StepItem>)
    requires
        items.len() <= usize::MAX,
    ensures
        reaches_allowed_steps(m, items, stepper_intent_step_spec(m, intent, items).1),
{
    if live_spec(m) && items.len() > 0 {
        let m1 = settle_cursor_spec(m, items);
        if let UiIntent::Move(mv) = intent {
            lemma_roving_lands_on_enabled(step_flags(m1, items), cursor_at(m1), mv, false, stepper_axis(m1.orientation));
        }
    }
}

/// The keyboard moves a stepper's cursor only onto enabled steps and
/// activates only steps the navigation policy allows; a display-only
/// stepper never activates.
pub proof fn law_keys_reach_only_allowed_steps(m: StepperModel, key: KeyEvent, intent: UiIntent, items: Seq<StepItem>)
    requires
        items.len() <= usize::MAX,
    ensures
        reaches_allowed_steps(m, items, stepper_key_spec(m, key, items).1),
        reaches_allowed_steps(m, items, stepper_intent_step_spec(m, intent, items).1),
        m.policy == StepperNavPolicy::DisplayOnly ==> !(stepper_key_spec(m, key, items).1 is StepActivated),
        m.policy == StepperNavPolicy::DisplayOnly ==> !(stepper_intent_step_spec(m, intent, items).1 is StepActivated),
{
    lemma_intent_reaches_allowed(m, intent, items);
    if live_spec(m) && items.len() > 0 && key.kind != KeyEventKind::Release {
        let m1 = settle_cursor_spec(m, items);
        if let Some(i) = stepper_intent_spec(key, m1.orientation) {
            lemma_intent_reaches_allowed(m1, i, items);
        }
    }
}

} // verus!

verus! {

/// The stepper's vim keys go where their arrows go: in a horizontal
/// stepper `h` and `H` move to the previous step like Left, `l` and `L` to
/// the next like Right; in a vertical one `k` and `K` go back like Up and
/// `j` and `J` forward like Down; and the backward arrows never move forward.
pub proof fn law_stepper_vim_keys_follow_arrows(key: KeyEvent, orientation: StepperOrientation)
    requires
        key.kind != KeyEventKind::Release,
    ensures
        stepper_intent_spec(KeyEvent { code: KeyCode::Left, ..key }, orientation) == Some(UiIntent::Move(NavigationMove::Previous)),
        stepper_intent_spec(KeyEvent { code: KeyCode::Up, ..key }, orientation) == Some(UiIntent::Move(NavigationMove::Previous)),
        stepper_intent_spec(KeyEvent { code: KeyCode::Right, ..key }, orientation) == Some(UiIntent::Move(NavigationMove::Next)),
        stepper_intent_spec(KeyEvent { code: KeyCode::Down, ..key }, orientation) == Some(UiIntent::Move(NavigationMove::Next)),
        stepper_intent_spec(KeyEvent { code: KeyCode::Home, ..key }, orientation) == Some(UiIntent::Move(NavigationMove::First)),
        stepper_intent_spec(KeyEvent { code: KeyCode::End, ..key }, orientation) == Some(UiIntent::Move(NavigationMove::Last)),
        key.kind == KeyEventKind::Press ==> stepper_intent_spec(KeyEvent { code: KeyCode::Enter, ..key }, orientation) == Some(UiIntent::Activate),
        key.kind == KeyEventKind::Press ==> stepper_intent_spec(KeyEvent { code: KeyCode::Esc, ..key }, orientation) == Some(UiIntent::Cancel),
        orientation == StepperOrientation::Horizontal ==> {
            &&& stepper_intent_spec(KeyEvent { code: KeyCode::Char('h'), ..key }, orientation)
                == stepper_intent_spec(KeyEvent { code: KeyCode::Left, ..key }, orientation)
            &&& stepper_intent_spec(KeyEvent { code: KeyCode::Char('H'), ..key }, orientation)
                == stepper_intent_spec(KeyEvent { code: KeyCode::Left, ..key }, orientation)
            &&& stepper_intent_spec(KeyEvent { code: KeyCode::Char('l'), ..key }, orientation)
                == stepper_intent_spec(KeyEvent { code: KeyCode::Right, ..key }, orientation)
            &&& stepper_intent_spec(KeyEvent { code: KeyCode::Char('L'), ..key }, orientation)
                == stepper_intent_spec(KeyEvent { code: KeyCode::Right, ..key }, orientation)
        },
        orientation == StepperOrientation::Vertical ==> {
            &&& stepper_intent_spec(KeyEvent { code: KeyCode::Char('k'), ..key }, orientation)
                == stepper_intent_spec(KeyEvent { code: KeyCode::Up, ..key }, orientation)
            &&& stepper_intent_spec(KeyEvent { code: KeyCode::Char('K'), ..key }, orientation)
                == stepper_intent_spec(KeyEvent { code: KeyCode::Up, ..key }, orientation)
            &&& stepper_intent_spec(KeyEvent { code: KeyCode::Char('j'), ..key }, orientation)
                == stepper_intent_spec(KeyEvent { code: KeyCode::Down, ..key }, orientation)
            &&& stepper_intent_spec(KeyEvent { code: KeyCode::Char('J'), ..key }, orientation)
                == stepper_intent_spec(KeyEvent { code: KeyCode::Down, ..key }, orientation)
        },
{
}

} // verus!
