//! The shared lifecycle vocabulary every status-bearing widget projects into.

use vstd::prelude::*;
use crate::style::{GlyphSet, Role};

verus! {

/// Lifecycle state shared by indicators, bars, strips and rows.
#[derive(Debug, Clone, Copy, PartialEq, Eq, Hash, Structural)]
pub enum SemanticStatus {
    /// Reachable / present.
    Online,
    /// Unreachable.
    Offline,
    /// Present but inactive.
    Idle,
    /// Scheduled, not running.
    Queued,
    /// Work in flight.
    Running,
    /// Blocked on something external.
    Waiting,
    /// Finished well.
    Success,
    /// Finished with a caution.
    Warning,
    /// Finished badly.
    Failed,
    /// Suspended.
    Paused,
    /// Not known.
    Unknown,
}

/// Every status, in catalog order.
pub open spec fn all_statuses_spec() -> Seq<SemanticStatus> {
    seq![
        SemanticStatus::Online, SemanticStatus::Offline, SemanticStatus::Idle,
        SemanticStatus::Queued, SemanticStatus::Running, SemanticStatus::Waiting,
        SemanticStatus::Success, SemanticStatus::Warning, SemanticStatus::Failed,
        SemanticStatus::Paused, SemanticStatus::Unknown,
    ]
}

impl SemanticStatus {
    /// Stable id.
    pub open spec fn id_spec(self) -> Seq<char> {
        match self {
            SemanticStatus::Online => "online"@,
            SemanticStatus::Offline => "offline"@,
            SemanticStatus::Idle => "idle"@,
            SemanticStatus::Queued => "queued"@,
            SemanticStatus::Running => "running"@,
            SemanticStatus::Waiting => "waiting"@,
            SemanticStatus::Success => "success"@,
            SemanticStatus::Warning => "warning"@,
            SemanticStatus::Failed => "failed"@,
            SemanticStatus::Paused => "paused"@,
            SemanticStatus::Unknown => "unknown"@,
        }
    }

    /// Default short label.
    pub open spec fn default_label_spec(self) -> Seq<char> {
        match self {
            SemanticStatus::Online => "online"@,
            SemanticStatus::Offline => "offline"@,
            SemanticStatus::Idle => "idle"@,
            SemanticStatus::Queued => "queued"@,
            SemanticStatus::Running => "running"@,
            SemanticStatus::Waiting => "waiting"@,
            SemanticStatus::Success => "ok"@,
            SemanticStatus::Warning => "warn"@,
            SemanticStatus::Failed => "failed"@,
            SemanticStatus::Paused => "paused"@,
            SemanticStatus::Unknown => "unknown"@,
        }
    }

    /// Unicode glyph.
    pub open spec fn glyph_unicode_spec(self) -> Seq<char> {
        match self {
            SemanticStatus::Online => "●"@,
            SemanticStatus::Offline => "○"@,
            SemanticStatus::Idle => "◌"@,
            SemanticStatus::Queued => "◷"@,
            SemanticStatus::Running => "◐"@,
            SemanticStatus::Waiting => "◔"@,
            SemanticStatus::Success => "✓"@,
            SemanticStatus::Warning => "⚠"@,
            SemanticStatus::Failed => "✗"@,
            SemanticStatus::Paused => "‖"@,
            SemanticStatus::Unknown => "?"@,
        }
    }

    /// ASCII glyph.
    pub open spec fn glyph_ascii_spec(self) -> Seq<char> {
        match self {
            SemanticStatus::Online => "*"@,
            SemanticStatus::Offline => "o"@,
            SemanticStatus::Idle => "-"@,
            SemanticStatus::Queued => "."@,
            SemanticStatus::Running => ">"@,
            SemanticStatus::Waiting => "~"@,
            SemanticStatus::Success => "+"@,
            SemanticStatus::Warning => "!"@,
            SemanticStatus::Failed => "x"@,
            SemanticStatus::Paused => "="@,
            SemanticStatus::Unknown => "?"@,
        }
    }

    /// Glyph under a profile.
    pub open spec fn glyph_for_set_spec(self, set: GlyphSet) -> Seq<char> {
        match set {
            GlyphSet::Unicode => self.glyph_unicode_spec(),
            GlyphSet::Ascii => self.glyph_ascii_spec(),
        }
    }

    /// Paint role.
    pub open spec fn role_spec(self) -> Role {
        match self {
            SemanticStatus::Online => Role::Success,
            SemanticStatus::Offline => Role::TextMuted,
            SemanticStatus::Idle => Role::TextMuted,
            SemanticStatus::Queued => Role::TextMuted,
            SemanticStatus::Running => Role::Info,
            SemanticStatus::Waiting => Role::Warning,
            SemanticStatus::Success => Role::Success,
            SemanticStatus::Warning => Role::Warning,
            SemanticStatus::Failed => Role::Danger,
            SemanticStatus::Paused => Role::TextMuted,
            SemanticStatus::Unknown => Role::TextFaint,
        }
    }

    /// Every status, in catalog order.
    pub fn all() -> (v: Vec<SemanticStatus>)
        ensures
            v@ == all_statuses_spec(),
    {
        vec![
            SemanticStatus::Online, SemanticStatus::Offline, SemanticStatus::Idle,
            SemanticStatus::Queued, SemanticStatus::Running, SemanticStatus::Waiting,
            SemanticStatus::Success, SemanticStatus::Warning, SemanticStatus::Failed,
            SemanticStatus::Paused, SemanticStatus::Unknown,
        ]
    }

    /// Stable id.
    pub fn id(self) -> (s: &'static str)
        ensures
            s@ == self.id_spec(),
    {
        match self {
            SemanticStatus::Online => "online",
            SemanticStatus::Offline => "offline",
            SemanticStatus::Idle => "idle",
            SemanticStatus::Queued => "queued",
            SemanticStatus::Running => "running",
            SemanticStatus::Waiting => "waiting",
            SemanticStatus::Success => "success",
            SemanticStatus::Warning => "warning",
            SemanticStatus::Failed => "failed",
            SemanticStatus::Paused => "paused",
            SemanticStatus::Unknown => "unknown",
        }
    }

    /// Default short label.
    pub fn default_label(self) -> (s: &'static str)
        ensures
            s@ == self.default_label_spec(),
    {
        match self {
            SemanticStatus::Online => "online",
            SemanticStatus::Offline => "offline",
            SemanticStatus::Idle => "idle",
            SemanticStatus::Queued => "queued",
            SemanticStatus::Running => "running",
            SemanticStatus::Waiting => "waiting",
            SemanticStatus::Success => "ok",
            SemanticStatus::Warning => "warn",
            SemanticStatus::Failed => "failed",
            SemanticStatus::Paused => "paused",
            SemanticStatus::Unknown => "unknown",
        }
    }

    /// Unicode glyph.
    pub fn glyph_unicode(self) -> (s: &'static str)
        ensures
            s@ == self.glyph_unicode_spec(),
    {
        match self {
            SemanticStatus::Online => "●",
            SemanticStatus::Offline => "○",
            SemanticStatus::Idle => "◌",
            SemanticStatus::Queued => "◷",
            SemanticStatus::Running => "◐",
            SemanticStatus::Waiting => "◔",
            SemanticStatus::Success => "✓",
            SemanticStatus::Warning => "⚠",
            SemanticStatus::Failed => "✗",
            SemanticStatus::Paused => "‖",
            SemanticStatus::Unknown => "?",
        }
    }

    /// ASCII glyph.
    pub fn glyph_ascii(self) -> (s: &'static str)
        ensures
            s@ == self.glyph_ascii_spec(),
    {
        match self {
            SemanticStatus::Online => "*",
            SemanticStatus::Offline => "o",
            SemanticStatus::Idle => "-",
            SemanticStatus::Queued => ".",
            SemanticStatus::Running => ">",
            SemanticStatus::Waiting => "~",
            SemanticStatus::Success => "+",
            SemanticStatus::Warning => "!",
            SemanticStatus::Failed => "x",
            SemanticStatus::Paused => "=",
            SemanticStatus::Unknown => "?",
        }
    }

    /// The glyph of the default (Unicode) profile.
    pub fn glyph(self) -> (s: &'static str)
        ensures
            s@ == self.glyph_unicode_spec(),
    {
        self.glyph_unicode()
    }

    /// Glyph under a profile.
    pub fn glyph_for_set(self, set: GlyphSet) -> (s: &'static str)
        ensures
            s@ == self.glyph_for_set_spec(set),
    {
        match set {
            GlyphSet::Unicode => self.glyph_unicode(),
            GlyphSet::Ascii => self.glyph_ascii(),
        }
    }

    /// Paint role.
    pub fn role(self) -> (r: Role)
        ensures
            r == self.role_spec(),
    {
        match self {
            SemanticStatus::Online => Role::Success,
            SemanticStatus::Offline => Role::TextMuted,
            SemanticStatus::Idle => Role::TextMuted,
            SemanticStatus::Queued => Role::TextMuted,
            SemanticStatus::Running => Role::Info,
            SemanticStatus::Waiting => Role::Warning,
            SemanticStatus::Success => Role::Success,
            SemanticStatus::Warning => Role::Warning,
            SemanticStatus::Failed => Role::Danger,
            SemanticStatus::Paused => Role::TextMuted,
            SemanticStatus::Unknown => Role::TextFaint,
        }
    }
}


impl SemanticStatus {
    /// The status whose stable id is `id`, if any.
    pub fn from_id(id: &str) -> (r: Option<SemanticStatus>)
        ensures
            match r {
                Some(k) => k.id_spec() == id@,
                None => forall|k: SemanticStatus| #[trigger] k.id_spec() != id@,
            },
    {
        let all = SemanticStatus::all();
        let mut i: usize = 0;
        while i < all.len()
            invariant
                all@ == all_statuses_spec(),
                i <= all.len(),
                forall|j: int| 0 <= j < i ==> (#[trigger] all@[j]).id_spec() != id@,
            decreases all.len() - i,
        {
            let k = all[i];
            if crate::text::str_eq(k.id(), id) {
                return Some(k);
            }
            i = i + 1;
        }
        assert forall|k: SemanticStatus| #[trigger] k.id_spec() != id@ by {
            let j: int = match k {
                SemanticStatus::Online => 0,
                SemanticStatus::Offline => 1,
                SemanticStatus::Idle => 2,
                SemanticStatus::Queued => 3,
                SemanticStatus::Running => 4,
                SemanticStatus::Waiting => 5,
                SemanticStatus::Success => 6,
                SemanticStatus::Warning => 7,
                SemanticStatus::Failed => 8,
                SemanticStatus::Paused => 9,
                SemanticStatus::Unknown => 10,
            };
            assert(all@[j] == k);
        }
        None
    }
}

} // verus!
