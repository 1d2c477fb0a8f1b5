//! Status indicator: a non-color glyph from the shared lifecycle vocabulary,
//! an optional label and an optional elapsed time; plus the projections of
//! domain states (severity, tool, presence, progress) into that vocabulary.

use vstd::prelude::*;
use crate::semantic_status::SemanticStatus;
use crate::style::{DesignSystem, Glyph, GlyphSet};
use crate::text::{concat_str, decimal, digit, digit_char, display_cols, push_decimal, str_width, string_from_chars};

verus! {

/// Toast / banner severity.
#[derive(Debug, Clone, Copy, PartialEq, Eq, Hash, Structural)]
pub enum Severity {
    /// Information.
    Info,
    /// Success.
    Success,
    /// Warning.
    Warning,
    /// Error.
    Error,
}

/// Tool-call status.
#[derive(Debug, Clone, Copy, PartialEq, Eq, Hash, Structural)]
pub enum ToolStatus {
    /// Scheduled.
    Queued,
    /// Being prepared.
    Preparing,
    /// Running.
    Running,
    /// Streaming output.
    Streaming,
    /// Detached.
    Detached,
    /// Waiting for input.
    WaitingInput,
    /// Waiting for permission.
    WaitingPermission,
    /// Cancelled.
    Cancelled,
    /// Succeeded.
    Success,
    /// Finished with a warning.
    Warning,
    /// Failed.
    Failed,
}

/// Presence of an identity.
#[derive(Debug, Clone, Copy, PartialEq, Eq, Hash, Structural)]
pub enum PresenceStatus {
    /// No presence shown.
    Unset,
    /// Online.
    Online,
    /// Away.
    Away,
    /// Busy.
    Busy,
    /// Offline.
    Offline,
    /// Error.
    Error,
}

/// Progress bar lifecycle.
#[derive(Debug, Clone, Copy, PartialEq, Eq, Hash, Structural)]
pub enum ProgressStatus {
    /// Running.
    Running,
    /// Paused.
    Paused,
    /// Buffering.
    Buffering,
    /// Cancelled.
    Cancelled,
    /// Complete.
    Complete,
    /// Failed.
    Failed,
}

/// Pipeline step status.
#[derive(Debug, Clone, Copy, PartialEq, Eq, Hash, Structural)]
pub enum ProgressStepStatus {
    /// Queued.
    Queued,
    /// Running.
    Running,
    /// Retrying.
    Retrying,
    /// Waiting.
    Waiting,
    /// Complete.
    Complete,
    /// Skipped.
    Skipped,
    /// Warning.
    Warning,
    /// Failed.
    Failed,
    /// Cancelled.
    Cancelled,
}

impl SemanticStatus {
    /// From a toast severity.
    pub fn from_severity(s: Severity) -> (r: SemanticStatus)
        ensures
            r == match s {
                Severity::Info => SemanticStatus::Idle,
                Severity::Success => SemanticStatus::Success,
                Severity::Warning => SemanticStatus::Warning,
                Severity::Error => SemanticStatus::Failed,
            },
    {
        match s {
            Severity::Info => SemanticStatus::Idle,
            Severity::Success => SemanticStatus::Success,
            Severity::Warning => SemanticStatus::Warning,
            Severity::Error => SemanticStatus::Failed,
        }
    }

    /// From a tool status.
    pub fn from_tool_status(s: ToolStatus) -> (r: SemanticStatus)
        ensures
            r == match s {
                ToolStatus::Queued | ToolStatus::Preparing => SemanticStatus::Queued,
                ToolStatus::Running | ToolStatus::Streaming | ToolStatus::Detached => SemanticStatus::Running,
                ToolStatus::WaitingInput | ToolStatus::WaitingPermission | ToolStatus::Cancelled => SemanticStatus::Paused,
                ToolStatus::Success => SemanticStatus::Success,
                ToolStatus::Warning => SemanticStatus::Warning,
                ToolStatus::Failed => SemanticStatus::Failed,
            },
    {
        match s {
            ToolStatus::Queued | ToolStatus::Preparing => SemanticStatus::Queued,
            ToolStatus::Running | ToolStatus::Streaming | ToolStatus::Detached => SemanticStatus::Running,
            ToolStatus::WaitingInput | ToolStatus::WaitingPermission | ToolStatus::Cancelled => SemanticStatus::Paused,
            ToolStatus::Success => SemanticStatus::Success,
            ToolStatus::Warning => SemanticStatus::Warning,
            ToolStatus::Failed => SemanticStatus::Failed,
        }
    }

    /// From a presence (no presence is unknown).
    pub fn from_presence(s: PresenceStatus) -> (r: SemanticStatus)
        ensures
            r == match s {
                PresenceStatus::Unset => SemanticStatus::Unknown,
                PresenceStatus::Online => SemanticStatus::Online,
                PresenceStatus::Away => SemanticStatus::Idle,
                PresenceStatus::Busy => SemanticStatus::Running,
                PresenceStatus::Offline => SemanticStatus::Offline,
                PresenceStatus::Error => SemanticStatus::Failed,
            },
    {
        match s {
            PresenceStatus::Unset => SemanticStatus::Unknown,
            PresenceStatus::Online => SemanticStatus::Online,
            PresenceStatus::Away => SemanticStatus::Idle,
            PresenceStatus::Busy => SemanticStatus::Running,
            PresenceStatus::Offline => SemanticStatus::Offline,
            PresenceStatus::Error => SemanticStatus::Failed,
        }
    }

    /// From a progress lifecycle.
    pub fn from_progress_status(s: ProgressStatus) -> (r: SemanticStatus)
        ensures
            r == match s {
                ProgressStatus::Running => SemanticStatus::Running,
                ProgressStatus::Paused => SemanticStatus::Paused,
                ProgressStatus::Buffering => SemanticStatus::Waiting,
                ProgressStatus::Cancelled => SemanticStatus::Paused,
                ProgressStatus::Complete => SemanticStatus::Success,
                ProgressStatus::Failed => SemanticStatus::Failed,
            },
    {
        match s {
            ProgressStatus::Running => SemanticStatus::Running,
            ProgressStatus::Paused => SemanticStatus::Paused,
            ProgressStatus::Buffering => SemanticStatus::Waiting,
            ProgressStatus::Cancelled => SemanticStatus::Paused,
            ProgressStatus::Complete => SemanticStatus::Success,
            ProgressStatus::Failed => SemanticStatus::Failed,
        }
    }

    /// From a pipeline step status.
    pub fn from_progress_step_status(s: ProgressStepStatus) -> (r: SemanticStatus)
        ensures
            r == match s {
                ProgressStepStatus::Queued => SemanticStatus::Queued,
                ProgressStepStatus::Running | ProgressStepStatus::Retrying => SemanticStatus::Running,
                ProgressStepStatus::Waiting => SemanticStatus::Waiting,
                ProgressStepStatus::Complete => SemanticStatus::Success,
                ProgressStepStatus::Skipped => SemanticStatus::Idle,
                ProgressStepStatus::Warning => SemanticStatus::Warning,
                ProgressStepStatus::Failed => SemanticStatus::Failed,
                ProgressStepStatus::Cancelled => SemanticStatus::Paused,
            },
    {
        match s {
            ProgressStepStatus::Queued => SemanticStatus::Queued,
            ProgressStepStatus::Running | ProgressStepStatus::Retrying => SemanticStatus::Running,
            ProgressStepStatus::Waiting => SemanticStatus::Waiting,
            ProgressStepStatus::Complete => SemanticStatus::Success,
            ProgressStepStatus::Skipped => SemanticStatus::Idle,
            ProgressStepStatus::Warning => SemanticStatus::Warning,
            ProgressStepStatus::Failed => SemanticStatus::Failed,
            ProgressStepStatus::Cancelled => SemanticStatus::Paused,
        }
    }
}

/// Presentation density.
#[derive(Debug, Clone, Copy, PartialEq, Eq, Hash, Structural)]
pub enum StatusIndicatorVariant {
    /// Glyph only.
    Compact,
    /// Rail, glyph and label.
    Labeled,
    /// Rail, glyph, label and elapsed time.
    Elapsed,
}

impl Default for StatusIndicatorVariant {
    /// `Labeled`.
    fn default() -> (r: StatusIndicatorVariant)
        ensures
            r == StatusIndicatorVariant::Labeled,
    {
        StatusIndicatorVariant::Labeled
    }
}

impl StatusIndicatorVariant {
    /// Stable id.
    pub open spec fn id_spec(self) -> Seq<char> {
        match self {
            StatusIndicatorVariant::Compact => "compact"@,
            StatusIndicatorVariant::Labeled => "labeled"@,
            StatusIndicatorVariant::Elapsed => "elapsed"@,
        }
    }

    /// Stable id.
    pub fn id(self) -> (s: &'static str)
        ensures
            s@ == self.id_spec(),
    {
        match self {
            StatusIndicatorVariant::Compact => "compact",
            StatusIndicatorVariant::Labeled => "labeled",
            StatusIndicatorVariant::Elapsed => "elapsed",
        }
    }
}

/// Host-owned runtime of an indicator.
#[derive(Debug, Clone, PartialEq, Eq)]
pub struct StatusIndicatorState {
    /// Elapsed seconds from the host clock.
    pub elapsed_secs: Option<u64>,
    /// Accessible name for a compact dot.
    pub accessible_label: Option<String>,
}

impl Default for StatusIndicatorState {
    /// No elapsed time and no label.
    fn default() -> (r: StatusIndicatorState)
        ensures
            r == (StatusIndicatorState { elapsed_secs: None, accessible_label: None }),
    {
        StatusIndicatorState { elapsed_secs: None, accessible_label: None }
    }
}

impl StatusIndicatorState {
    /// No elapsed time, no accessible name.
    pub fn new() -> (s: Self)
        ensures
            s.elapsed_secs.is_none(),
            s.accessible_label.is_none(),
    {
        StatusIndicatorState { elapsed_secs: None, accessible_label: None }
    }

    /// Elapsed seconds.
    pub fn elapsed_secs(&self) -> (e: Option<u64>)
        ensures
            e == self.elapsed_secs,
    {
        self.elapsed_secs
    }

    /// Sets the accessible name.
    pub fn set_accessible_label(&mut self, label: &str)
        ensures
            final(self).elapsed_secs == old(self).elapsed_secs,
            final(self).accessible_label is Some && final(self).accessible_label->0@ == label@,
    {
        self.accessible_label = Some(String::from_str(label));
    }

    /// Accessible name.
    pub fn accessible_label(&self) -> (l: Option<&str>)
        ensures
            match l {
                Some(s) => self.accessible_label is Some && s@ == self.accessible_label->0@,
                None => self.accessible_label is None,
            },
    {
        match &self.accessible_label {
            Some(s) => Some(s.as_str()),
            None => None,
        }
    }
}

// ── Elapsed formatting ──────────────────────────────────────────────────────

/// Two decimal digits of `n < 100`, zero-padded.
pub open spec fn two_digits(n: nat) -> Seq<char> {
    seq![digit_char((n / 10) as int), digit_char((n % 10) as int)]
}

/// Elapsed time: `42s`, `2m05s`, `1h07m`.
pub open spec fn format_elapsed_spec(secs: u64) -> Seq<char> {
    if secs < 60 {
        decimal(secs as nat) + "s"@
    } else if secs < 3600 {
        decimal((secs / 60) as nat) + "m"@ + two_digits((secs % 60) as nat) + "s"@
    } else {
        decimal((secs / 3600) as nat) + "h"@ + two_digits(((secs % 3600) / 60) as nat) + "m"@
    }
}

/// Elapsed time in the compact form (see [`format_elapsed_spec`]).
pub fn format_elapsed(secs: u64) -> (s: String)
    ensures
        s@ == format_elapsed_spec(secs),
{
    let mut out: Vec<char> = Vec::new();
    if secs < 60 {
        push_decimal(&mut out, secs);
        out.push('s');
    } else if secs < 3600 {
        push_decimal(&mut out, secs / 60);
        out.push('m');
        let r = secs % 60;
        out.push(digit(r / 10));
        out.push(digit(r % 10));
        out.push('s');
    } else {
        push_decimal(&mut out, secs / 3600);
        out.push('h');
        let r = (secs % 3600) / 60;
        out.push(digit(r / 10));
        out.push(digit(r % 10));
        out.push('m');
    }
    proof {
        reveal_strlit("s");
        reveal_strlit("m");
        reveal_strlit("h");
    }
    assert(out@ =~= format_elapsed_spec(secs));
    string_from_chars(out.as_slice())
}

// ── Widget ──────────────────────────────────────────────────────────────────

/// A status glyph with optional label and elapsed time.
#[derive(Debug, Clone, Copy)]
pub struct StatusIndicator<'a> {
    /// Status.
    pub kind: SemanticStatus,
    /// Design system.
    pub system: &'a DesignSystem,
    /// Label override.
    pub label: Option<&'a str>,
    /// Variant.
    pub variant: StatusIndicatorVariant,
    /// Paint without hue.
    pub colorless: bool,
    /// Elapsed seconds set on the widget.
    pub elapsed_secs: Option<u64>,
    /// Emphasis.
    pub strong: bool,
}

impl<'a> StatusIndicator<'a> {
    /// Label shown: the override, else the status's default label.
    pub open spec fn resolved_label_spec(self) -> Seq<char> {
        match self.label {
            Some(l) => l@,
            None => self.kind.default_label_spec(),
        }
    }

    /// Rail glyph of the system's profile.
    pub open spec fn rail_spec(self) -> Seq<char> {
        Glyph::RailHeavy.text_spec(self.system.glyphs)
    }

    /// Painted text: the glyph alone when compact; rail, glyph and label
    /// otherwise; the elapsed variant adds the elapsed time (the widget's
    /// own, else the state's) when there is one.
    pub open spec fn text_spec(self, state_elapsed: Option<u64>) -> Seq<char> {
        let g = self.kind.glyph_unicode_spec();
        let elapsed = match self.elapsed_secs { Some(e) => Some(e), None => state_elapsed };
        let labeled = self.rail_spec() + " "@ + g + " "@ + self.resolved_label_spec();
        match self.variant {
            StatusIndicatorVariant::Compact => g,
            StatusIndicatorVariant::Labeled => labeled,
            StatusIndicatorVariant::Elapsed => match elapsed {
                Some(secs) => labeled + " "@ + format_elapsed_spec(secs),
                None => labeled,
            },
        }
    }

    /// A labeled indicator.
    pub fn new(kind: SemanticStatus, system: &'a DesignSystem) -> (s: Self)
        ensures
            s == (StatusIndicator { kind, system, label: None, variant: StatusIndicatorVariant::Labeled,
                colorless: false, elapsed_secs: None, strong: false }),
    {
        StatusIndicator { kind, system, label: None, variant: StatusIndicatorVariant::Labeled,
            colorless: false, elapsed_secs: None, strong: false }
    }

    /// A glyph-only indicator.
    pub fn compact(kind: SemanticStatus, system: &'a DesignSystem) -> (s: Self)
        ensures
            s == (StatusIndicator { kind, system, label: None, variant: StatusIndicatorVariant::Compact,
                colorless: false, elapsed_secs: None, strong: false }),
    {
        StatusIndicator { kind, system, label: None, variant: StatusIndicatorVariant::Compact,
            colorless: false, elapsed_secs: None, strong: false }
    }

    /// Overrides the label.
    pub fn label(self, label: &'a str) -> (s: Self)
        ensures
            s == (StatusIndicator { label: Some(label), ..self }),
    {
        StatusIndicator { label: Some(label), ..self }
    }

    /// Sets the variant.
    pub fn variant(self, v: StatusIndicatorVariant) -> (s: Self)
        ensures
            s == (StatusIndicator { variant: v, ..self }),
    {
        StatusIndicator { variant: v, ..self }
    }

    /// Sets elapsed seconds; a labeled indicator becomes the elapsed variant.
    pub fn elapsed_secs(self, secs: u64) -> (s: Self)
        ensures
            s == (StatusIndicator {
                elapsed_secs: Some(secs),
                variant: if self.variant == StatusIndicatorVariant::Labeled {
                    StatusIndicatorVariant::Elapsed
                } else {
                    self.variant
                },
                ..self
            }),
    {
        let variant = if self.variant == StatusIndicatorVariant::Labeled {
            StatusIndicatorVariant::Elapsed
        } else {
            self.variant
        };
        StatusIndicator { elapsed_secs: Some(secs), variant, ..self }
    }

    /// Paint without hue.
    pub fn colorless(self, on: bool) -> (s: Self)
        ensures
            s == (StatusIndicator { colorless: on, ..self }),
    {
        StatusIndicator { colorless: on, ..self }
    }

    /// Emphasis.
    pub fn strong(self, on: bool) -> (s: Self)
        ensures
            s == (StatusIndicator { strong: on, ..self }),
    {
        StatusIndicator { strong: on, ..self }
    }

    /// Status.
    pub fn kind(self) -> (k: SemanticStatus)
        ensures
            k == self.kind,
    {
        self.kind
    }

    /// Glyph: the status's Unicode glyph.
    pub fn glyph(&self) -> (g: &'static str)
        ensures
            g@ == self.kind.glyph_unicode_spec(),
    {
        self.kind.glyph()
    }

    /// Rail glyph.
    pub fn rail(&self) -> (r: &'static str)
        ensures
            r@ == self.rail_spec(),
    {
        Glyph::RailHeavy.text(self.system.glyphs)
    }

    /// Label shown.
    pub fn resolved_label(&self) -> (l: &'a str)
        ensures
            l@ == self.resolved_label_spec(),
    {
        match self.label {
            Some(l) => l,
            None => self.kind.default_label(),
        }
    }

    /// Painted text.
    pub fn text(&self, state: Option<&StatusIndicatorState>) -> (s: String)
        ensures
            s@ == self.text_spec(match state { Some(st) => st.elapsed_secs, None => None }),
    {
        let g = self.glyph();
        let elapsed = match self.elapsed_secs {
            Some(e) => Some(e),
            None => match state { Some(st) => st.elapsed_secs(), None => None },
        };
        proof {
            reveal_strlit(" ");
        }
        match self.variant {
            StatusIndicatorVariant::Compact => String::from_str(g),
            _ => {
                let a = concat_str(self.rail(), " ");
                let b = concat_str(a.as_str(), g);
                let c = concat_str(b.as_str(), " ");
                let labeled = concat_str(c.as_str(), self.resolved_label());
                match self.variant {
                    StatusIndicatorVariant::Elapsed => match elapsed {
                        Some(secs) => {
                            let d = concat_str(labeled.as_str(), " ");
                            let e = format_elapsed(secs);
                            concat_str(d.as_str(), e.as_str())
                        },
                        None => labeled,
                    },
                    _ => labeled,
                }
            },
        }
    }

    /// Display width of the painted text, as a `u16` cast.
    pub fn measure_width(&self, state: Option<&StatusIndicatorState>) -> (w: u16)
        ensures
            w == (str_width(self.text_spec(match state { Some(st) => st.elapsed_secs, None => None })) as u16),
    {
        let t = self.text(state);
        display_cols(t.as_str()) as u16
    }
}

/// Every status with its default label, in catalog order.
pub fn example_status_catalog() -> (v: Vec<(SemanticStatus, &'static str)>)
    ensures
        v@.len() == 11,
        forall|i: int| 0 <= i < 11 ==> (#[trigger] v@[i]).0 == crate::semantic_status::all_statuses_spec()[i]
            && v@[i].1@ == v@[i].0.default_label_spec(),
{
    let all = SemanticStatus::all();
    let mut out: Vec<(SemanticStatus, &'static str)> = Vec::new();
    let mut i: usize = 0;
    while i < all.len()
        invariant
            all@ == crate::semantic_status::all_statuses_spec(),
            i <= all.len(),
            out@.len() == i,
            forall|j: int| 0 <= j < i ==> (#[trigger] out@[j]).0 == all@[j] && out@[j].1@ == out@[j].0.default_label_spec(),
        decreases all.len() - i,
    {
        let k = all[i];
        out.push((k, k.default_label()));
        i = i + 1;
    }
    out
}

} // verus!
