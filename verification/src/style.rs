//! Shared presentation vocabulary: glyph profiles, semantic roles and the
//! lifecycle statuses that widgets project their domain states into.

use vstd::prelude::*;

verus! {

/// Glyph capability profile of the terminal.
#[derive(Debug, Clone, Copy, PartialEq, Eq, Hash, Structural)]
pub enum GlyphSet {
    /// Full Unicode glyphs.
    Unicode,
    /// 7-bit ASCII fallbacks.
    Ascii,
}

impl Default for GlyphSet {
    /// `Unicode`.
    fn default() -> (r: GlyphSet)
        ensures
            r == GlyphSet::Unicode,
    {
        GlyphSet::Unicode
    }
}

impl GlyphSet {
    /// Joiner between metadata facts (` · ` or ` | `).
    pub open spec fn meta_join_spec(self) -> Seq<char> {
        match self {
            GlyphSet::Unicode => " · "@,
            GlyphSet::Ascii => " | "@,
        }
    }

    /// Joiner between metadata facts.
    pub fn meta_join(self) -> (s: &'static str)
        ensures
            s@ == self.meta_join_spec(),
    {
        match self {
            GlyphSet::Unicode => " · ",
            GlyphSet::Ascii => " | ",
        }
    }

    /// Horizontal rule glyph.
    pub open spec fn rule_spec(self) -> Seq<char> {
        match self {
            GlyphSet::Unicode => "─"@,
            GlyphSet::Ascii => "-"@,
        }
    }

    /// Vertical rule glyph.
    pub open spec fn rule_v_spec(self) -> Seq<char> {
        match self {
            GlyphSet::Unicode => "│"@,
            GlyphSet::Ascii => "|"@,
        }
    }

    /// Horizontal rule glyph.
    pub fn rule(self) -> (s: &'static str)
        ensures
            s@ == self.rule_spec(),
    {
        match self {
            GlyphSet::Unicode => "─",
            GlyphSet::Ascii => "-",
        }
    }

    /// Vertical rule glyph.
    pub fn rule_v(self) -> (s: &'static str)
        ensures
            s@ == self.rule_v_spec(),
    {
        match self {
            GlyphSet::Unicode => "│",
            GlyphSet::Ascii => "|",
        }
    }

    /// Whether this is the ASCII profile.
    pub fn is_ascii(self) -> (b: bool)
        ensures
            b == (self == GlyphSet::Ascii),
    {
        match self {
            GlyphSet::Unicode => false,
            GlyphSet::Ascii => true,
        }
    }
}

/// Semantic paint role (the palette maps roles to colors).
#[derive(Debug, Clone, Copy, PartialEq, Eq, Hash, Structural)]
pub enum Role {
    /// Body text.
    Text,
    /// Emphasized text.
    TextStrong,
    /// Metadata text.
    TextMuted,
    /// Quietest text.
    TextFaint,
    /// Secondary text.
    TextSecondary,
    /// The one accent.
    Accent,
    /// Success hue.
    Success,
    /// Warning hue.
    Warning,
    /// Danger hue.
    Danger,
    /// Informational hue.
    Info,
    /// Key hint.
    HintKey,
    /// Status bar band.
    StatusBar,
    /// Focus cue.
    Focus,
    /// Resting border.
    Border,
    /// Border of the interaction owner.
    BorderFocused,
    /// Terminal underlay ground.
    Canvas,
    /// Ordinary component ground.
    Surface,
    /// Ground below the ordinary surface.
    Sunken,
    /// Raised card ground.
    Elevated,
    /// Anchored menu ground.
    Popover,
    /// Membership wash of a selected panel.
    SelectionTint,
}

/// Whether a role spends one of the status hues.
pub open spec fn is_status_hue_spec(role: Role) -> bool {
    role == Role::Success || role == Role::Warning || role == Role::Danger || role == Role::Info
}

/// Whether a role spends one of the status hues.
pub fn is_status_hue(role: Role) -> (b: bool)
    ensures
        b == is_status_hue_spec(role),
{
    match role {
        Role::Success | Role::Warning | Role::Danger | Role::Info => true,
        _ => false,
    }
}

/// The quiet tier a role falls back to when its budget is spent.
pub open spec fn role_quiet_spec(role: Role) -> Role {
    if role == Role::TextFaint { Role::TextFaint } else { Role::TextMuted }
}

/// The quiet tier a role falls back to when its budget is spent.
pub fn role_quiet(role: Role) -> (r: Role)
    ensures
        r == role_quiet_spec(role),
{
    match role {
        Role::TextFaint => Role::TextFaint,
        _ => Role::TextMuted,
    }
}

/// Design system handle: the glyph profile and color capability widgets use.
#[derive(Debug, Clone, Copy, PartialEq, Eq)]
pub struct DesignSystem {
    /// Glyph profile.
    pub glyphs: GlyphSet,
    /// Monochrome terminal (no hue at all).
    pub monochrome: bool,
    /// Horizontal inset of card content, in cells.
    pub card_inset: u16,
}

impl DesignSystem {
    /// Unicode glyphs, full color.
    pub fn new() -> (s: DesignSystem)
        ensures
            s.glyphs == GlyphSet::Unicode,
            !s.monochrome,
            s.card_inset == 1,
    {
        DesignSystem { glyphs: GlyphSet::Unicode, monochrome: false, card_inset: 1 }
    }

    /// The showcase system (Unicode glyphs, full color).
    pub fn junie() -> (s: DesignSystem)
        ensures
            s.glyphs == GlyphSet::Unicode,
            !s.monochrome,
            s.card_inset == 1,
    {
        DesignSystem { glyphs: GlyphSet::Unicode, monochrome: false, card_inset: 1 }
    }

    /// Same system with another glyph profile.
    pub fn with_glyphs(self, glyphs: GlyphSet) -> (s: DesignSystem)
        ensures
            s.glyphs == glyphs,
            s.monochrome == self.monochrome,
            s.card_inset == self.card_inset,
    {
        DesignSystem { glyphs, ..self }
    }

    /// Whether the terminal paints without hue.
    pub fn mono(&self) -> (b: bool)
        ensures
            b == self.monochrome,
    {
        self.monochrome
    }
}

/// Named glyphs of the shared vocabulary.
#[derive(Debug, Clone, Copy, PartialEq, Eq, Hash, Structural)]
pub enum Glyph {
    /// Success check.
    Success,
    /// Error cross.
    Error,
    /// Selection marker.
    SelectionMarker,
    /// Removal dash.
    Remove,
    /// Close cross.
    Close,
    /// Mode dot.
    ModeDot,
    /// Closed disclosure triangle.
    DisclosureClosed,
    /// Filled diamond.
    DiamondFilled,
    /// Heavy status rail.
    RailHeavy,
    /// Selection gutter bar.
    SelectionGutter,
    /// Loading mark.
    Loading,
    /// Ellipsis.
    Ellipsis,
}

impl Glyph {
    /// Text of the glyph under a profile.
    pub open spec fn text_spec(self, set: GlyphSet) -> Seq<char> {
        match set {
            GlyphSet::Unicode => match self {
                Glyph::Success => "✓"@,
                Glyph::Error => "✗"@,
                Glyph::SelectionMarker => "▸"@,
                Glyph::Remove => "−"@,
                Glyph::Close => "×"@,
                Glyph::ModeDot => "●"@,
                Glyph::DisclosureClosed => "▸"@,
                Glyph::DiamondFilled => "◆"@,
                Glyph::RailHeavy => "┃"@,
                Glyph::SelectionGutter => "▎"@,
                Glyph::Loading => "◌"@,
                Glyph::Ellipsis => "…"@,
            },
            GlyphSet::Ascii => match self {
                Glyph::Success => "+"@,
                Glyph::Error => "x"@,
                Glyph::SelectionMarker => ">"@,
                Glyph::Remove => "-"@,
                Glyph::Close => "x"@,
                Glyph::ModeDot => "*"@,
                Glyph::DisclosureClosed => ">"@,
                Glyph::DiamondFilled => "#"@,
                Glyph::RailHeavy => "|"@,
                Glyph::SelectionGutter => "|"@,
                Glyph::Loading => "~"@,
                Glyph::Ellipsis => "~"@,
            },
        }
    }

    /// Text of the glyph under a profile.
    pub fn text(self, set: GlyphSet) -> (s: &'static str)
        ensures
            s@ == self.text_spec(set),
    {
        match set {
            GlyphSet::Unicode => match self {
                Glyph::Success => "✓",
                Glyph::Error => "✗",
                Glyph::SelectionMarker => "▸",
                Glyph::Remove => "−",
                Glyph::Close => "×",
                Glyph::ModeDot => "●",
                Glyph::DisclosureClosed => "▸",
                Glyph::DiamondFilled => "◆",
                Glyph::RailHeavy => "┃",
                Glyph::SelectionGutter => "▎",
                Glyph::Loading => "◌",
                Glyph::Ellipsis => "…",
            },
            GlyphSet::Ascii => match self {
                Glyph::Success => "+",
                Glyph::Error => "x",
                Glyph::SelectionMarker => ">",
                Glyph::Remove => "-",
                Glyph::Close => "x",
                Glyph::ModeDot => "*",
                Glyph::DisclosureClosed => ">",
                Glyph::DiamondFilled => "#",
                Glyph::RailHeavy => "|",
                Glyph::SelectionGutter => "|",
                Glyph::Loading => "~",
                Glyph::Ellipsis => "~",
            },
        }
    }

    /// Text of the glyph under the default (Unicode) profile.
    pub fn resolve(self) -> (s: &'static str)
        ensures
            s@ == self.text_spec(GlyphSet::Unicode),
    {
        self.text(GlyphSet::Unicode)
    }
}


/// The semantic family a recipe belongs to.
#[derive(Debug, Clone, Copy, PartialEq, Eq, Hash, Structural)]
pub enum RecipeFamily {
    /// Layout grounds.
    Layout,
    /// Overlay hosts.
    Overlay,
    /// Actionable chrome.
    Action,
    /// Collection membership.
    Collection,
    /// Status surfaces.
    Status,
}

} // verus!
