//! Tags and chips: compact removable or selectable tokens.
//!
//! A removable token has two internal parts (body and remove) that Left and
//! Right move between without Tab. Removal always carries an explicit
//! `remove {name}` label. Geometry is a gutter cell, the body, and a remove
//! glyph one cell after it.

use vstd::prelude::*;
use crate::geometry::{rect_inside, sat_add, sat_sub, Rect};
use crate::input::{KeyCode, KeyEvent, KeyEventKind, MouseButton, MouseEvent, MouseEventKind};
use crate::interaction::{next_enabled_in, prev_enabled_in, button_intent_spec, default_button_intent, lemma_roving_lands_on_enabled, roving_move, roving_target, same, NavigationMove, RovingOrientation, UiIntent};
use crate::geometry::Position;
use vstd::laws_eq::obeys_concrete_eq;
use crate::style::{DesignSystem, Glyph, GlyphSet};
use crate::text::{concat_str, decimal, display_cols, push_decimal, str_width, string_from_chars};

verus! {

/// Focus inside one removable token.
#[derive(Debug, Clone, Copy, PartialEq, Eq, Hash, Structural)]
pub enum TokenPart {
    /// Label.
    Body,
    /// Remove affordance.
    Remove,
}

impl Default for TokenPart {
    /// `Body`.
    fn default() -> (r: TokenPart)
        ensures
            r == TokenPart::Body,
    {
        TokenPart::Body
    }
}

impl TokenPart {
    /// Stable id.
    pub open spec fn id_spec(self) -> Seq<char> {
        match self {
            TokenPart::Body => "body"@,
            TokenPart::Remove => "remove"@,
        }
    }

    /// Stable id.
    pub fn id(self) -> (s: &'static str)
        ensures
            s@ == self.id_spec(),
    {
        match self {
            TokenPart::Body => "body",
            TokenPart::Remove => "remove",
        }
    }
}

/// Token status.
#[derive(Debug, Clone, Copy, PartialEq, Eq, Hash, Structural)]
pub enum TokenStatus {
    /// Normal.
    Default,
    /// Invalid token.
    Error,
    /// Pending.
    Loading,
}

impl Default for TokenStatus {
    /// `Default`.
    fn default() -> (r: TokenStatus)
        ensures
            r == TokenStatus::Default,
    {
        TokenStatus::Default
    }
}

impl TokenStatus {
    /// Stable id.
    pub open spec fn id_spec(self) -> Seq<char> {
        match self {
            TokenStatus::Default => "default"@,
            TokenStatus::Error => "error"@,
            TokenStatus::Loading => "loading"@,
        }
    }

    /// Stable id.
    pub fn id(self) -> (s: &'static str)
        ensures
            s@ == self.id_spec(),
    {
        match self {
            TokenStatus::Default => "default",
            TokenStatus::Error => "error",
            TokenStatus::Loading => "loading",
        }
    }

    /// Status glyph worn before the label, if any.
    pub open spec fn prefix_spec(self, glyphs: GlyphSet) -> Option<Seq<char>> {
        match self {
            TokenStatus::Loading => Some(Glyph::Loading.text_spec(glyphs)),
            TokenStatus::Error => Some(Glyph::Error.text_spec(glyphs)),
            TokenStatus::Default => None,
        }
    }

    /// Status glyph worn before the label, if any.
    pub fn prefix(self, glyphs: GlyphSet) -> (r: Option<&'static str>)
        ensures
            match r { Some(s) => self.prefix_spec(glyphs) == Some(s@), None => self.prefix_spec(glyphs) is None },
    {
        match self {
            TokenStatus::Loading => Some(Glyph::Loading.text(glyphs)),
            TokenStatus::Error => Some(Glyph::Error.text(glyphs)),
            TokenStatus::Default => None,
        }
    }
}

/// Geometry of one painted token.
#[derive(Debug, Clone, Copy, PartialEq, Eq, Hash, Structural)]
pub struct TokenParts {
    /// Whole token.
    pub root: Rect,
    /// Body hit region.
    pub body: Rect,
    /// Remove hit region (empty when not removable).
    pub remove: Rect,
}

impl Default for TokenParts {
    /// Three empty rectangles.
    fn default() -> (r: TokenParts)
        ensures
            r == (TokenParts { root: Rect { x: 0, y: 0, width: 0, height: 0 }, body: Rect { x: 0, y: 0, width: 0, height: 0 }, remove: Rect { x: 0, y: 0, width: 0, height: 0 } }),
    {
        TokenParts { root: Rect { x: 0, y: 0, width: 0, height: 0 }, body: Rect { x: 0, y: 0, width: 0, height: 0 }, remove: Rect { x: 0, y: 0, width: 0, height: 0 } }
    }
}

impl TokenParts {
    /// Whether the remove region has area.
    pub open spec fn has_remove_spec(self) -> bool {
        self.remove.width > 0 && self.remove.height > 0
    }

    /// Whether the remove region has area.
    pub fn has_remove(self) -> (b: bool)
        ensures
            b == self.has_remove_spec(),
    {
        self.remove.width > 0 && self.remove.height > 0
    }
}

/// `remove {label}`.
pub fn remove_label(token_label: &str) -> (s: String)
    ensures
        s@ == "remove "@ + token_label@,
{
    concat_str("remove ", token_label)
}

/// Token geometry in `area`: a gutter cell, the body (`inner` columns,
/// clipped), then the remove glyph one cell after the body, pulled back
/// inside the area.
pub open spec fn token_parts_spec(area: Rect, inner: int, removable: bool, remove_w: int) -> TokenParts {
    if area.width == 0 || area.height == 0 {
        TokenParts { root: Rect::zero_spec(), body: Rect::zero_spec(), remove: Rect::zero_spec() }
    } else {
        let right = area.right_spec();
        let h: u16 = if area.height < 1 { area.height } else { 1 };
        let body_x = sat_add(area.x as int, 1);
        let room = sat_sub(right, body_x);
        let body_w = if inner < room { inner } else { room };
        let rw1 = if remove_w < 1 { 1 } else { remove_w };
        let rx0 = sat_add(sat_add(body_x, body_w), 1);
        let rx_cap = sat_sub(right, rw1);
        let remove_x = if rx0 < rx_cap { rx0 } else { rx_cap };
        let remove = if removable && remove_x < right && remove_w > 0 {
            Rect { x: remove_x as u16, y: area.y, width: rw1 as u16, height: h }
        } else {
            Rect::zero_spec()
        };
        let used0 = if removable {
            sat_add(sat_sub(sat_add(remove_x, remove_w), area.x as int), 1)
        } else {
            sat_add(1, body_w)
        };
        let used = if used0 < area.width { used0 } else { area.width as int };
        TokenParts {
            root: Rect { x: area.x, y: area.y, width: used as u16, height: h },
            body: Rect { x: body_x as u16, y: area.y, width: body_w as u16, height: h },
            remove,
        }
    }
}

/// Token geometry (see [`token_parts_spec`]).
pub fn token_parts(area: Rect, inner: u16, removable: bool, remove_w: u16) -> (p: TokenParts)
    ensures
        p == token_parts_spec(area, inner as int, removable, remove_w as int),
{
    if area.is_empty() {
        return TokenParts { root: Rect::zero(), body: Rect::zero(), remove: Rect::zero() };
    }
    let right = area.right();
    let h: u16 = if area.height < 1 { area.height } else { 1 };
    let body_x = area.x.saturating_add(1);
    let room = right.saturating_sub(body_x);
    let body_w = if inner < room { inner } else { room };
    let rw1 = if remove_w < 1 { 1 } else { remove_w };
    let rx0 = body_x.saturating_add(body_w).saturating_add(1);
    let rx_cap = right.saturating_sub(rw1);
    let remove_x = if rx0 < rx_cap { rx0 } else { rx_cap };
    let remove = if removable && remove_x < right && remove_w > 0 {
        Rect { x: remove_x, y: area.y, width: rw1, height: h }
    } else {
        Rect::zero()
    };
    let used0 = if removable {
        remove_x.saturating_add(remove_w).saturating_sub(area.x).saturating_add(1)
    } else {
        1u16.saturating_add(body_w)
    };
    let used = if used0 < area.width { used0 } else { area.width };
    TokenParts {
        root: Rect { x: area.x, y: area.y, width: used, height: h },
        body: Rect { x: body_x, y: area.y, width: body_w, height: h },
        remove,
    }
}

/// Body text: the status prefix and a space, then the label.
pub open spec fn decorated_spec(status: TokenStatus, glyphs: GlyphSet, label: Seq<char>) -> Seq<char> {
    match status.prefix_spec(glyphs) {
        Some(p) => p + " "@ + label,
        None => label,
    }
}

fn decorated(status: TokenStatus, glyphs: GlyphSet, label: &str) -> (s: String)
    ensures
        s@ == decorated_spec(status, glyphs, label@),
{
    match status.prefix(glyphs) {
        Some(p) => {
            let a = concat_str(p, " ");
            concat_str(a.as_str(), label)
        },
        None => String::from_str(label),
    }
}

/// `n` as a `u16`, or `fallback` when it does not fit.
pub open spec fn fit_u16_or(n: int, fallback: int) -> int {
    if n > u16::MAX { fallback } else { n }
}

fn fit_u16(n: usize, fallback: u16) -> (r: u16)
    ensures
        r as int == fit_u16_or(n as int, fallback as int),
{
    if n > 65535 { fallback } else { n as u16 }
}

/// Geometry of a token in `area` with this body and remove glyph.
pub open spec fn token_geometry_spec(area: Rect, body: Seq<char>, removable: bool, glyphs: GlyphSet) -> TokenParts {
    token_parts_spec(
        area,
        fit_u16_or(str_width(body) as int, 0),
        removable,
        if removable { fit_u16_or(str_width(Glyph::Close.text_spec(glyphs)) as int, 1) } else { 0 },
    )
}

fn token_geometry(area: Rect, body: &str, removable: bool, glyphs: GlyphSet) -> (p: TokenParts)
    ensures
        p == token_geometry_spec(area, body@, removable, glyphs),
{
    let inner = fit_u16(display_cols(body), 0);
    let remove_w = if removable { fit_u16(display_cols(Glyph::Close.text(glyphs)), 1) } else { 0 };
    token_parts(area, inner, removable, remove_w)
}

// ── Tag ─────────────────────────────────────────────────────────────────────

/// What a key or pointer event meant to a tag.
#[derive(Debug, Clone, Copy, PartialEq, Eq, Structural)]
pub enum TagOutcome<Id> {
    /// No change.
    Ignored,
    /// Removal requested.
    Remove(Id),
    /// Internal part focus moved.
    PartChanged(TokenPart),
    /// Body activated.
    Activated(Id),
    /// Pointer entered or left the remove glyph.
    HoverChanged,
}

/// A static or removable tag.
#[derive(Debug, Clone, Copy)]
pub struct Tag<'a, Id> {
    /// Identity.
    pub id: Id,
    /// Label.
    pub label: &'a str,
    /// Design system.
    pub system: &'a DesignSystem,
    /// Removable flag.
    pub removable: bool,
    /// Status.
    pub status: TokenStatus,
    /// Disabled.
    pub disabled: bool,
}

/// Tag interaction state.
#[derive(Debug, Clone, Copy, PartialEq, Eq, Structural)]
pub struct TagState {
    /// Host gave focus to this token.
    pub focused: bool,
    /// Active part.
    pub part: TokenPart,
    /// Pointer over the remove glyph.
    pub hovered_remove: bool,
    /// Geometry of the last layout.
    pub parts: Option<TokenParts>,
}

impl Default for TagState {
    /// Unfocused, on the body, nothing painted.
    fn default() -> (r: TagState)
        ensures
            r == (TagState { focused: false, part: TokenPart::Body, hovered_remove: false, parts: None }),
    {
        TagState { focused: false, part: TokenPart::Body, hovered_remove: false, parts: None }
    }
}

impl TagState {
    /// Unfocused, body part, nothing laid out.
    pub fn new() -> (s: Self)
        ensures
            s == (TagState { focused: false, part: TokenPart::Body, hovered_remove: false, parts: None }),
    {
        TagState { focused: false, part: TokenPart::Body, hovered_remove: false, parts: None }
    }

    /// Sets focus; losing it returns to the body part.
    pub fn set_focused(&mut self, focused: bool)
        ensures
            *final(self) == (TagState {
                focused,
                part: if focused { old(self).part } else { TokenPart::Body },
                ..*old(self)
            }),
    {
        self.focused = focused;
        if !focused {
            self.part = TokenPart::Body;
        }
    }

    /// Sets the active part.
    pub fn set_part(&mut self, part: TokenPart)
        ensures
            *final(self) == (TagState { part, ..*old(self) }),
    {
        self.part = part;
    }
}

/// A tag's answer to a key.
pub open spec fn tag_key_spec<Id>(tag: Tag<Id>, st: TagState, key: KeyEvent) -> (TagState, TagOutcome<Id>) {
    let rem = tag.is_removable_spec();
    if tag.disabled || !st.focused || key.kind != KeyEventKind::Press {
        (st, TagOutcome::Ignored)
    } else if button_intent_spec(key) == Some(UiIntent::Activate) {
        (st, if rem && st.part == TokenPart::Remove { TagOutcome::Remove(tag.id) } else { TagOutcome::Activated(tag.id) })
    } else if button_intent_spec(key) == Some(UiIntent::Toggle) && rem && st.part == TokenPart::Remove {
        (st, TagOutcome::Remove(tag.id))
    } else if rem && (key.code == KeyCode::Left || key.code == KeyCode::Char('h')) {
        if st.part == TokenPart::Remove {
            (TagState { part: TokenPart::Body, ..st }, TagOutcome::PartChanged(TokenPart::Body))
        } else {
            (st, TagOutcome::Ignored)
        }
    } else if rem && (key.code == KeyCode::Right || key.code == KeyCode::Char('l')) {
        if st.part == TokenPart::Body {
            (TagState { part: TokenPart::Remove, ..st }, TagOutcome::PartChanged(TokenPart::Remove))
        } else {
            (st, TagOutcome::Ignored)
        }
    } else if rem && (key.code == KeyCode::Delete || key.code == KeyCode::Backspace) {
        (st, TagOutcome::Remove(tag.id))
    } else {
        (st, TagOutcome::Ignored)
    }
}

/// A tag's answer to a pointer event.
pub open spec fn tag_mouse_spec<Id>(tag: Tag<Id>, st: TagState, ev: MouseEvent) -> (TagState, TagOutcome<Id>) {
    if tag.disabled {
        (st, TagOutcome::Ignored)
    } else if ev.kind == MouseEventKind::Moved {
        match st.parts {
            None => (st, TagOutcome::Ignored),
            Some(p) => {
                let over = p.has_remove_spec() && p.remove.contains_spec(ev.position);
                if over == st.hovered_remove {
                    (st, TagOutcome::Ignored)
                } else {
                    (TagState { hovered_remove: over, ..st }, TagOutcome::HoverChanged)
                }
            },
        }
    } else if ev.kind != MouseEventKind::Down(MouseButton::Left) {
        (st, TagOutcome::Ignored)
    } else {
        match st.parts {
            None => (st, TagOutcome::Ignored),
            Some(p) => if p.has_remove_spec() && p.remove.contains_spec(ev.position) {
                (TagState { focused: true, part: TokenPart::Remove, ..st }, TagOutcome::Remove(tag.id))
            } else if p.root.contains_spec(ev.position) || p.body.contains_spec(ev.position) {
                (TagState { focused: true, part: TokenPart::Body, ..st }, TagOutcome::Activated(tag.id))
            } else {
                (st, TagOutcome::Ignored)
            },
        }
    }
}

impl<'a, Id> Tag<'a, Id> {
    /// Removable and enabled.
    pub open spec fn is_removable_spec(self) -> bool {
        self.removable && !self.disabled
    }

    /// Body text of the tag.
    pub open spec fn body_spec(self) -> Seq<char> {
        decorated_spec(self.status, self.system.glyphs, self.label@)
    }

    /// A static tag.
    pub fn new(id: Id, label: &'a str, system: &'a DesignSystem) -> (t: Self)
        ensures
            t == (Tag { id, label, system, removable: false, status: TokenStatus::Default, disabled: false }),
    {
        Tag { id, label, system, removable: false, status: TokenStatus::Default, disabled: false }
    }

    /// A removable tag.
    pub fn removable_tag(id: Id, label: &'a str, system: &'a DesignSystem) -> (t: Self)
        ensures
            t == (Tag { id, label, system, removable: true, status: TokenStatus::Default, disabled: false }),
    {
        Tag { id, label, system, removable: true, status: TokenStatus::Default, disabled: false }
    }

    /// Sets the removable flag.
    pub fn removable(self, on: bool) -> (t: Self)
        ensures
            t == (Tag { removable: on, ..self }),
    {
        Tag { removable: on, ..self }
    }

    /// Sets the status.
    pub fn status(self, status: TokenStatus) -> (t: Self)
        ensures
            t == (Tag { status, ..self }),
    {
        Tag { status, ..self }
    }

    /// Error status.
    pub fn error(self) -> (t: Self)
        ensures
            t == (Tag { status: TokenStatus::Error, ..self }),
    {
        Tag { status: TokenStatus::Error, ..self }
    }

    /// Loading status.
    pub fn loading(self) -> (t: Self)
        ensures
            t == (Tag { status: TokenStatus::Loading, ..self }),
    {
        Tag { status: TokenStatus::Loading, ..self }
    }

    /// Disables the tag.
    pub fn disabled(self, on: bool) -> (t: Self)
        ensures
            t == (Tag { disabled: on, ..self }),
    {
        Tag { disabled: on, ..self }
    }

    /// Label.
    pub fn label(&self) -> (l: &'a str)
        ensures
            l == self.label,
    {
        self.label
    }

    /// Removable and enabled.
    pub fn is_removable(&self) -> (b: bool)
        ensures
            b == self.is_removable_spec(),
    {
        self.removable && !self.disabled
    }

    /// `remove {label}`.
    pub fn remove_action_label(&self) -> (s: String)
        ensures
            s@ == "remove "@ + self.label@,
    {
        remove_label(self.label)
    }

    /// Natural width: gutter, body, remove glyph and its gap, a trailing
    /// pad; at least one.
    pub fn measure_width(&self) -> (w: u16)
        ensures
            w == ({
                let body = fit_u16_or(str_width(self.body_spec()) as int, 1);
                let rem = if self.removable {
                    sat_add(1, fit_u16_or(str_width(Glyph::Close.text_spec(self.system.glyphs)) as int, 1))
                } else {
                    0
                };
                let w0 = sat_add(sat_add(sat_add(body, 1), rem), 1);
                if w0 < 1 { 1u16 } else { w0 as u16 }
            }),
    {
        let body = decorated(self.status, self.system.glyphs, self.label);
        let bw = fit_u16(display_cols(body.as_str()), 1);
        let rem: u16 = if self.removable {
            1u16.saturating_add(fit_u16(display_cols(Glyph::Close.text(self.system.glyphs)), 1))
        } else {
            0
        };
        let w0 = bw.saturating_add(1).saturating_add(rem).saturating_add(1);
        if w0 < 1 { 1 } else { w0 }
    }
}

impl<'a, Id: Copy> Tag<'a, Id> {
    /// Lays the tag out in `area` and records its geometry (none for an
    /// empty area).
    pub fn layout(&self, area: Rect, state: &mut TagState) -> (p: TokenParts)
        ensures
            p == token_geometry_spec(area, self.body_spec(), self.is_removable_spec(), self.system.glyphs),
            *final(state) == (TagState {
                parts: if area.width == 0 || area.height == 0 { None } else { Some(p) },
                ..*old(state)
            }),
    {
        let body = decorated(self.status, self.system.glyphs, self.label);
        let p = token_geometry(area, body.as_str(), self.is_removable(), self.system.glyphs);
        state.parts = if area.is_empty() { None } else { Some(p) };
        p
    }

    /// Keys: Left/Right move between parts, Delete removes, Enter activates
    /// the body or removes from the remove part.
    pub fn handle_key(&self, state: &mut TagState, key: KeyEvent) -> (o: TagOutcome<Id>)
        ensures
            (*final(state), o) == tag_key_spec(*self, *old(state), key),
    {
        let rem = self.is_removable();
        if self.disabled || !state.focused || !key.is_press() {
            return TagOutcome::Ignored;
        }
        let intent = default_button_intent(key);
        if intent == Some(UiIntent::Activate) {
            return if rem && state.part == TokenPart::Remove { TagOutcome::Remove(self.id) } else { TagOutcome::Activated(self.id) };
        }
        if intent == Some(UiIntent::Toggle) && rem && state.part == TokenPart::Remove {
            return TagOutcome::Remove(self.id);
        }
        if rem && (key.code == KeyCode::Left || key.code == KeyCode::Char('h')) {
            if state.part == TokenPart::Remove {
                state.part = TokenPart::Body;
                return TagOutcome::PartChanged(TokenPart::Body);
            }
            return TagOutcome::Ignored;
        }
        if rem && (key.code == KeyCode::Right || key.code == KeyCode::Char('l')) {
            if state.part == TokenPart::Body {
                state.part = TokenPart::Remove;
                return TagOutcome::PartChanged(TokenPart::Remove);
            }
            return TagOutcome::Ignored;
        }
        if rem && (key.code == KeyCode::Delete || key.code == KeyCode::Backspace) {
            return TagOutcome::Remove(self.id);
        }
        TagOutcome::Ignored
    }

    /// Pointer: moving tracks hover over the remove glyph; a left press on
    /// it removes, on the body activates.
    pub fn handle_mouse(&self, state: &mut TagState, event: MouseEvent) -> (o: TagOutcome<Id>)
        ensures
            (*final(state), o) == tag_mouse_spec(*self, *old(state), event),
    {
        if self.disabled {
            return TagOutcome::Ignored;
        }
        if event.kind == MouseEventKind::Moved {
            match state.parts {
                None => return TagOutcome::Ignored,
                Some(p) => {
                    let over = p.has_remove() && p.remove.contains(event.position);
                    if over == state.hovered_remove {
                        return TagOutcome::Ignored;
                    }
                    state.hovered_remove = over;
                    return TagOutcome::HoverChanged;
                },
            }
        }
        if event.kind != MouseEventKind::Down(MouseButton::Left) {
            return TagOutcome::Ignored;
        }
        match state.parts {
            None => TagOutcome::Ignored,
            Some(p) => {
                if p.has_remove() && p.remove.contains(event.position) {
                    state.focused = true;
                    state.part = TokenPart::Remove;
                    TagOutcome::Remove(self.id)
                } else if p.root.contains(event.position) || p.body.contains(event.position) {
                    state.focused = true;
                    state.part = TokenPart::Body;
                    TagOutcome::Activated(self.id)
                } else {
                    TagOutcome::Ignored
                }
            },
        }
    }
}

/// Which brackets a token wears.
#[derive(Debug, Clone, Copy, PartialEq, Eq, Hash, Structural)]
pub enum BracketStyle {
    /// `⟨ label ⟩`, a neutral tag (ASCII `< >`).
    Angle,
    /// `[ label ]`, an interactive chip.
    Square,
}

impl Default for BracketStyle {
    /// `Square`.
    fn default() -> (r: BracketStyle)
        ensures
            r == BracketStyle::Square,
    {
        BracketStyle::Square
    }
}

impl BracketStyle {
    /// Stable id.
    pub open spec fn id_spec(self) -> Seq<char> {
        match self {
            BracketStyle::Angle => "angle"@,
            BracketStyle::Square => "square"@,
        }
    }

    /// Stable id.
    pub fn id(self) -> (s: &'static str)
        ensures
            s@ == self.id_spec(),
    {
        match self {
            BracketStyle::Angle => "angle",
            BracketStyle::Square => "square",
        }
    }

    /// Opening and closing bracket under the glyph profile.
    pub fn pair(self, ascii: bool) -> (r: (&'static str, &'static str))
        ensures
            (r.0@, r.1@) == match self {
                BracketStyle::Angle => if ascii { ("<"@, ">"@) } else { ("⟨"@, "⟩"@) },
                BracketStyle::Square => ("["@, "]"@),
            },
    {
        match self {
            BracketStyle::Angle => if ascii { ("<", ">") } else { ("⟨", "⟩") },
            BracketStyle::Square => ("[", "]"),
        }
    }
}


// ── Chip ────────────────────────────────────────────────────────────────────

/// What a key or pointer event meant to a chip.
#[derive(Debug, Clone, Copy, PartialEq, Eq, Structural)]
pub enum ChipOutcome<Id> {
    /// No change.
    Ignored,
    /// Selected.
    Selected(Id),
    /// Unselected.
    Unselected(Id),
    /// Removal requested.
    Remove(Id),
    /// Internal part focus moved.
    PartChanged(TokenPart),
    /// Body activated without a toggle.
    Activated(Id),
    /// Pointer entered or left the remove glyph.
    HoverChanged,
}

/// A selectable filter chip.
#[derive(Debug, Clone, Copy)]
pub struct Chip<'a, Id> {
    /// Identity.
    pub id: Id,
    /// Label.
    pub label: &'a str,
    /// Design system.
    pub system: &'a DesignSystem,
    /// Removable flag.
    pub removable: bool,
    /// Status.
    pub status: TokenStatus,
    /// Disabled.
    pub disabled: bool,
    /// Toggles on activation (false: display only).
    pub interactive: bool,
}

/// Chip interaction state.
#[derive(Debug, Clone, Copy, PartialEq, Eq)]
pub struct ChipState {
    selected: bool,
    focused: bool,
    part: TokenPart,
    hovered_remove: bool,
    parts: Option<TokenParts>,
}

impl Default for ChipState {
    /// Unselected, unfocused, on the body, nothing painted.
    fn default() -> (r: ChipState)
        ensures
            r@ == (ChipModel { selected: false, focused: false, part: TokenPart::Body, hovered_remove: false, parts: None }),
    {
        ChipState { selected: false, focused: false, part: TokenPart::Body, hovered_remove: false, parts: None }
    }
}

/// Mathematical model of the chip state.
pub struct ChipModel {
    /// Selected.
    pub selected: bool,
    /// Host focus.
    pub focused: bool,
    /// Active part.
    pub part: TokenPart,
    /// Pointer over the remove glyph.
    pub hovered_remove: bool,
    /// Geometry of the last layout.
    pub parts: Option<TokenParts>,
}

impl View for ChipState {
    type V = ChipModel;

    closed spec fn view(&self) -> ChipModel {
        ChipModel {
            selected: self.selected,
            focused: self.focused,
            part: self.part,
            hovered_remove: self.hovered_remove,
            parts: self.parts,
        }
    }
}

impl ChipState {
    /// Unfocused state with a selection seed.
    pub fn new(selected: bool) -> (s: Self)
        ensures
            s@ == (ChipModel { selected, focused: false, part: TokenPart::Body, hovered_remove: false, parts: None }),
    {
        ChipState { selected, focused: false, part: TokenPart::Body, hovered_remove: false, parts: None }
    }

    /// Selected.
    pub fn is_selected(&self) -> (b: bool)
        ensures
            b == self@.selected,
    {
        self.selected
    }

    /// Sets selection.
    pub fn set_selected(&mut self, selected: bool)
        ensures
            final(self)@ == (ChipModel { selected, ..old(self)@ }),
    {
        self.selected = selected;
    }

    /// Sets focus; losing it returns to the body part.
    pub fn set_focused(&mut self, focused: bool)
        ensures
            final(self)@ == (ChipModel {
                focused,
                part: if focused { old(self)@.part } else { TokenPart::Body },
                ..old(self)@
            }),
    {
        self.focused = focused;
        if !focused {
            self.part = TokenPart::Body;
        }
    }

    /// Focused.
    pub fn is_focused(&self) -> (b: bool)
        ensures
            b == self@.focused,
    {
        self.focused
    }

    /// Active part.
    pub fn part(&self) -> (p: TokenPart)
        ensures
            p == self@.part,
    {
        self.part
    }

    /// Sets the active part.
    pub fn set_part(&mut self, part: TokenPart)
        ensures
            final(self)@ == (ChipModel { part, ..old(self)@ }),
    {
        self.part = part;
    }

    /// Geometry of the last layout.
    pub fn parts(&self) -> (p: Option<TokenParts>)
        ensures
            p == self@.parts,
    {
        self.parts
    }

    /// Sets the hover flag of the remove glyph.
    pub fn set_hovered_remove(&mut self, on: bool)
        ensures
            final(self)@ == (ChipModel { hovered_remove: on, ..old(self)@ }),
    {
        self.hovered_remove = on;
    }

    /// Whether the remove glyph is hovered.
    pub fn hovered_remove(&self) -> (b: bool)
        ensures
            b == self@.hovered_remove,
    {
        self.hovered_remove
    }
}

/// Toggle of a chip's selection and its outcome.
pub open spec fn chip_toggle<Id>(id: Id, st: ChipModel) -> (ChipModel, ChipOutcome<Id>) {
    let sel = !st.selected;
    (ChipModel { selected: sel, ..st }, if sel { ChipOutcome::Selected(id) } else { ChipOutcome::Unselected(id) })
}

/// A chip's answer to a key.
pub open spec fn chip_key_spec<Id>(chip: Chip<Id>, st: ChipModel, key: KeyEvent) -> (ChipModel, ChipOutcome<Id>) {
    let rem = chip.removable && !chip.disabled;
    if chip.disabled || !st.focused || key.kind != KeyEventKind::Press {
        (st, ChipOutcome::Ignored)
    } else if button_intent_spec(key) == Some(UiIntent::Activate) {
        if rem && st.part == TokenPart::Remove {
            (st, ChipOutcome::Remove(chip.id))
        } else if chip.interactive {
            chip_toggle(chip.id, st)
        } else {
            (st, ChipOutcome::Activated(chip.id))
        }
    } else if button_intent_spec(key) == Some(UiIntent::Toggle) && chip.interactive && st.part == TokenPart::Body {
        chip_toggle(chip.id, st)
    } else if rem && (key.code == KeyCode::Left || key.code == KeyCode::Char('h')) {
        if st.part == TokenPart::Remove {
            (ChipModel { part: TokenPart::Body, ..st }, ChipOutcome::PartChanged(TokenPart::Body))
        } else {
            (st, ChipOutcome::Ignored)
        }
    } else if rem && (key.code == KeyCode::Right || key.code == KeyCode::Char('l')) {
        if st.part == TokenPart::Body {
            (ChipModel { part: TokenPart::Remove, ..st }, ChipOutcome::PartChanged(TokenPart::Remove))
        } else {
            (st, ChipOutcome::Ignored)
        }
    } else if rem && (key.code == KeyCode::Delete || key.code == KeyCode::Backspace) {
        (st, ChipOutcome::Remove(chip.id))
    } else {
        (st, ChipOutcome::Ignored)
    }
}

/// A chip's answer to a pointer event.
pub open spec fn chip_mouse_spec<Id>(chip: Chip<Id>, st: ChipModel, ev: MouseEvent) -> (ChipModel, ChipOutcome<Id>) {
    if chip.disabled {
        (st, ChipOutcome::Ignored)
    } else if ev.kind == MouseEventKind::Moved {
        match st.parts {
            None => (st, ChipOutcome::Ignored),
            Some(p) => {
                let over = p.has_remove_spec() && p.remove.contains_spec(ev.position);
                if over == st.hovered_remove {
                    (st, ChipOutcome::Ignored)
                } else {
                    (ChipModel { hovered_remove: over, ..st }, ChipOutcome::HoverChanged)
                }
            },
        }
    } else if ev.kind != MouseEventKind::Down(MouseButton::Left) {
        (st, ChipOutcome::Ignored)
    } else {
        match st.parts {
            None => (st, ChipOutcome::Ignored),
            Some(p) => if p.has_remove_spec() && p.remove.contains_spec(ev.position) {
                (ChipModel { focused: true, part: TokenPart::Remove, ..st }, ChipOutcome::Remove(chip.id))
            } else if p.root.contains_spec(ev.position) {
                let f = ChipModel { focused: true, part: TokenPart::Body, ..st };
                if chip.interactive { chip_toggle(chip.id, f) } else { (f, ChipOutcome::Activated(chip.id)) }
            } else {
                (st, ChipOutcome::Ignored)
            },
        }
    }
}

impl<'a, Id> Chip<'a, Id> {
    /// Body text of the chip.
    pub open spec fn body_spec(self) -> Seq<char> {
        decorated_spec(self.status, self.system.glyphs, self.label@)
    }

    /// An interactive toggle chip.
    pub fn new(id: Id, label: &'a str, system: &'a DesignSystem) -> (c: Self)
        ensures
            c == (Chip { id, label, system, removable: false, status: TokenStatus::Default, disabled: false, interactive: true }),
    {
        Chip { id, label, system, removable: false, status: TokenStatus::Default, disabled: false, interactive: true }
    }

    /// A display-only chip.
    pub fn static_chip(id: Id, label: &'a str, system: &'a DesignSystem) -> (c: Self)
        ensures
            c == (Chip { id, label, system, removable: false, status: TokenStatus::Default, disabled: false, interactive: false }),
    {
        Chip { id, label, system, removable: false, status: TokenStatus::Default, disabled: false, interactive: false }
    }

    /// Sets the removable flag.
    pub fn removable(self, on: bool) -> (c: Self)
        ensures
            c == (Chip { removable: on, ..self }),
    {
        Chip { removable: on, ..self }
    }

    /// Sets the status.
    pub fn status(self, status: TokenStatus) -> (c: Self)
        ensures
            c == (Chip { status, ..self }),
    {
        Chip { status, ..self }
    }

    /// Error status.
    pub fn error(self) -> (c: Self)
        ensures
            c == (Chip { status: TokenStatus::Error, ..self }),
    {
        Chip { status: TokenStatus::Error, ..self }
    }

    /// Loading status.
    pub fn loading(self) -> (c: Self)
        ensures
            c == (Chip { status: TokenStatus::Loading, ..self }),
    {
        Chip { status: TokenStatus::Loading, ..self }
    }

    /// Disables the chip.
    pub fn disabled(self, on: bool) -> (c: Self)
        ensures
            c == (Chip { disabled: on, ..self }),
    {
        Chip { disabled: on, ..self }
    }

    /// Sets whether activation toggles.
    pub fn interactive(self, on: bool) -> (c: Self)
        ensures
            c == (Chip { interactive: on, ..self }),
    {
        Chip { interactive: on, ..self }
    }

    /// Label.
    pub fn label(&self) -> (l: &'a str)
        ensures
            l == self.label,
    {
        self.label
    }

    /// Removable and enabled.
    pub fn is_removable(&self) -> (b: bool)
        ensures
            b == (self.removable && !self.disabled),
    {
        self.removable && !self.disabled
    }

    /// `remove {label}`.
    pub fn remove_action_label(&self) -> (s: String)
        ensures
            s@ == "remove "@ + self.label@,
    {
        remove_label(self.label)
    }

    /// Width: gutter, body, a pad, two cells when removable, a trailing
    /// gap; one when that does not fit a `u16`.
    pub fn measure_width(&self, selected: bool) -> (w: u16)
        ensures
            w == ({
                let w0 = 1 + str_width(self.body_spec()) + 1 + (if self.removable { 2int } else { 0 }) + 1;
                if w0 > u16::MAX { 1u16 } else { w0 as u16 }
            }),
    {
        let body = decorated(self.status, self.system.glyphs, self.label);
        let cols = display_cols(body.as_str()) as u128;
        let w0: u128 = 1 + cols + 1 + (if self.removable { 2 } else { 0 }) + 1;
        if w0 > 65535 { 1 } else { w0 as u16 }
    }
}

impl<'a, Id: Copy> Chip<'a, Id> {
    /// Lays the chip out in `area` and records its geometry.
    pub fn layout(&self, area: Rect, state: &mut ChipState) -> (p: TokenParts)
        ensures
            p == token_geometry_spec(area, self.body_spec(), self.removable && !self.disabled, self.system.glyphs),
            final(state)@ == (ChipModel {
                parts: if area.width == 0 || area.height == 0 { None } else { Some(p) },
                ..old(state)@
            }),
    {
        let body = decorated(self.status, self.system.glyphs, self.label);
        let p = token_geometry(area, body.as_str(), self.is_removable(), self.system.glyphs);
        state.parts = if area.is_empty() { None } else { Some(p) };
        p
    }

    fn toggle(&self, state: &mut ChipState) -> (o: ChipOutcome<Id>)
        ensures
            (final(state)@, o) == chip_toggle(self.id, old(state)@),
    {
        state.selected = !state.selected;
        if state.selected { ChipOutcome::Selected(self.id) } else { ChipOutcome::Unselected(self.id) }
    }

    /// Keys: part navigation, toggle, remove.
    pub fn handle_key(&self, state: &mut ChipState, key: KeyEvent) -> (o: ChipOutcome<Id>)
        ensures
            (final(state)@, o) == chip_key_spec(*self, old(state)@, key),
    {
        let rem = self.is_removable();
        if self.disabled || !state.focused || !key.is_press() {
            return ChipOutcome::Ignored;
        }
        let intent = default_button_intent(key);
        if intent == Some(UiIntent::Activate) {
            if rem && state.part == TokenPart::Remove {
                return ChipOutcome::Remove(self.id);
            } else if self.interactive {
                return self.toggle(state);
            } else {
                return ChipOutcome::Activated(self.id);
            }
        }
        if intent == Some(UiIntent::Toggle) && self.interactive && state.part == TokenPart::Body {
            return self.toggle(state);
        }
        if rem && (key.code == KeyCode::Left || key.code == KeyCode::Char('h')) {
            if state.part == TokenPart::Remove {
                state.part = TokenPart::Body;
                return ChipOutcome::PartChanged(TokenPart::Body);
            }
            return ChipOutcome::Ignored;
        }
        if rem && (key.code == KeyCode::Right || key.code == KeyCode::Char('l')) {
            if state.part == TokenPart::Body {
                state.part = TokenPart::Remove;
                return ChipOutcome::PartChanged(TokenPart::Remove);
            }
            return ChipOutcome::Ignored;
        }
        if rem && (key.code == KeyCode::Delete || key.code == KeyCode::Backspace) {
            return ChipOutcome::Remove(self.id);
        }
        ChipOutcome::Ignored
    }

    /// Pointer: hover over the remove glyph, remove on it, toggle or
    /// activate on the chip.
    pub fn handle_mouse(&self, state: &mut ChipState, event: MouseEvent) -> (o: ChipOutcome<Id>)
        ensures
            (final(state)@, o) == chip_mouse_spec(*self, old(state)@, event),
    {
        if self.disabled {
            return ChipOutcome::Ignored;
        }
        if event.kind == MouseEventKind::Moved {
            match state.parts {
                None => return ChipOutcome::Ignored,
                Some(p) => {
                    let over = p.has_remove() && p.remove.contains(event.position);
                    if over == state.hovered_remove {
                        return ChipOutcome::Ignored;
                    }
                    state.hovered_remove = over;
                    return ChipOutcome::HoverChanged;
                },
            }
        }
        if event.kind != MouseEventKind::Down(MouseButton::Left) {
            return ChipOutcome::Ignored;
        }
        match state.parts {
            None => ChipOutcome::Ignored,
            Some(p) => {
                if p.has_remove() && p.remove.contains(event.position) {
                    state.focused = true;
                    state.part = TokenPart::Remove;
                    ChipOutcome::Remove(self.id)
                } else if p.root.contains(event.position) {
                    state.focused = true;
                    state.part = TokenPart::Body;
                    if self.interactive {
                        self.toggle(state)
                    } else {
                        ChipOutcome::Activated(self.id)
                    }
                } else {
                    ChipOutcome::Ignored
                }
            },
        }
    }
}

// ── Token strip configuration ───────────────────────────────────────────────

/// How a strip lays tokens out.
#[derive(Debug, Clone, Copy, PartialEq, Eq, Hash, Structural)]
pub enum TokenStripLayout {
    /// One row, scrolled.
    Scroll,
    /// Wrapped rows.
    Wrap,
}

impl Default for TokenStripLayout {
    /// `Scroll`.
    fn default() -> (r: TokenStripLayout)
        ensures
            r == TokenStripLayout::Scroll,
    {
        TokenStripLayout::Scroll
    }
}

impl TokenStripLayout {
    /// Stable id.
    pub open spec fn id_spec(self) -> Seq<char> {
        match self {
            TokenStripLayout::Scroll => "scroll"@,
            TokenStripLayout::Wrap => "wrap"@,
        }
    }

    /// Stable id.
    pub fn id(self) -> (s: &'static str)
        ensures
            s@ == self.id_spec(),
    {
        match self {
            TokenStripLayout::Scroll => "scroll",
            TokenStripLayout::Wrap => "wrap",
        }
    }
}

/// One strip entry.
#[derive(Debug, Clone, Copy, PartialEq, Eq)]
pub struct TokenItem<'a, Id> {
    /// Identity.
    pub id: Id,
    /// Label.
    pub label: &'a str,
    /// Chip (selectable) rather than tag.
    pub selectable: bool,
    /// Removable.
    pub removable: bool,
    /// Selected.
    pub selected: bool,
    /// Status.
    pub status: TokenStatus,
    /// Disabled.
    pub disabled: bool,
}

impl<'a, Id> TokenItem<'a, Id> {
    /// A selectable chip item.
    pub fn chip(id: Id, label: &'a str) -> (t: Self)
        ensures
            t == (TokenItem { id, label, selectable: true, removable: false, selected: false, status: TokenStatus::Default, disabled: false }),
    {
        TokenItem { id, label, selectable: true, removable: false, selected: false, status: TokenStatus::Default, disabled: false }
    }

    /// A removable tag item.
    pub fn tag(id: Id, label: &'a str) -> (t: Self)
        ensures
            t == (TokenItem { id, label, selectable: false, removable: true, selected: false, status: TokenStatus::Default, disabled: false }),
    {
        TokenItem { id, label, selectable: false, removable: true, selected: false, status: TokenStatus::Default, disabled: false }
    }

    /// Sets the removable flag.
    pub fn removable(self, on: bool) -> (t: Self)
        ensures
            t == (TokenItem { removable: on, ..self }),
    {
        TokenItem { removable: on, ..self }
    }

    /// Sets the selection.
    pub fn selected(self, on: bool) -> (t: Self)
        ensures
            t == (TokenItem { selected: on, ..self }),
    {
        TokenItem { selected: on, ..self }
    }

    /// Sets the status.
    pub fn status(self, status: TokenStatus) -> (t: Self)
        ensures
            t == (TokenItem { status, ..self }),
    {
        TokenItem { status, ..self }
    }

    /// Disables the item.
    pub fn disabled(self, on: bool) -> (t: Self)
        ensures
            t == (TokenItem { disabled: on, ..self }),
    {
        TokenItem { disabled: on, ..self }
    }
}

/// What a token-strip event meant.
#[derive(Debug, Clone, Copy, PartialEq, Eq)]
pub enum TokenStripOutcome<Id> {
    /// Ignored.
    Ignored,
    /// The roving cursor moved.
    CursorMoved {
        /// From.
        from: Option<Id>,
        /// To.
        to: Option<Id>,
    },
    /// A chip was selected.
    Selected(Id),
    /// A chip was unselected.
    Unselected(Id),
    /// A token should be removed.
    Remove(Id),
    /// A token was activated.
    Activated(Id),
    /// The `+N` summary was activated.
    OverflowActivated,
    /// Part focus moved within the token.
    PartChanged(TokenPart),
    /// The add affordance was activated.
    Add,
    /// The pointer entered or left a remove glyph.
    HoverChanged,
}

/// A strip of tokens.
#[derive(Debug, Clone, Copy)]
pub struct TokenStrip<'a, Id> {
    /// Items.
    pub items: &'a [TokenItem<'a, Id>],
    /// Design system.
    pub system: &'a DesignSystem,
    /// Layout.
    pub layout: TokenStripLayout,
    /// Most tokens shown before a `+N` summary (zero: all that fit).
    pub max_visible: usize,
    /// Gap between tokens.
    pub gap: u16,
    /// Trailing add affordance.
    pub add_label: Option<&'a str>,
    /// Leading control label.
    pub lead: Option<&'a str>,
}

impl<'a, Id> TokenStrip<'a, Id> {
    /// A scrolling strip with a one-cell gap and a `+ Add filter` affordance.
    pub fn new(items: &'a [TokenItem<'a, Id>], system: &'a DesignSystem) -> (t: Self)
        ensures
            t.items == items,
            t.system == system,
            t.layout == TokenStripLayout::Scroll,
            t.max_visible == 0,
            t.gap == 1,
            t.add_label is Some && t.add_label->0@ == "+ Add filter"@,
            t.lead is None,
    {
        TokenStrip { items, system, layout: TokenStripLayout::Scroll, max_visible: 0, gap: 1, add_label: Some("+ Add filter"), lead: None }
    }

    /// Wrapped layout.
    pub fn wrap(self) -> (t: Self)
        ensures
            t == (TokenStrip { layout: TokenStripLayout::Wrap, ..self }),
    {
        TokenStrip { layout: TokenStripLayout::Wrap, ..self }
    }

    /// Scrolled layout.
    pub fn scroll(self) -> (t: Self)
        ensures
            t == (TokenStrip { layout: TokenStripLayout::Scroll, ..self }),
    {
        TokenStrip { layout: TokenStripLayout::Scroll, ..self }
    }

    /// Caps the visible tokens.
    pub fn max_visible(self, n: usize) -> (t: Self)
        ensures
            t == (TokenStrip { max_visible: n, ..self }),
    {
        TokenStrip { max_visible: n, ..self }
    }

    /// Gap between tokens.
    pub fn gap(self, gap: u16) -> (t: Self)
        ensures
            t == (TokenStrip { gap, ..self }),
    {
        TokenStrip { gap, ..self }
    }

    /// Trailing add affordance; `None` hides it.
    pub fn add_label(self, label: Option<&'a str>) -> (t: Self)
        ensures
            t == (TokenStrip { add_label: label, ..self }),
    {
        TokenStrip { add_label: label, ..self }
    }

    /// Leading control label.
    pub fn lead(self, lead: Option<&'a str>) -> (t: Self)
        ensures
            t == (TokenStrip { lead, ..self }),
    {
        TokenStrip { lead, ..self }
    }
}

} // verus!

verus! {

/// A token's regions stay inside its area: the root starts at the area's
/// origin and is no wider than it, the body starts after the gutter cell and
/// ends inside the area, and a remove region, when there is one, lies inside
/// the area on its first row (for a remove glyph no wider than the area).
pub proof fn law_token_regions_inside(area: Rect, inner: int, removable: bool, remove_w: int)
    requires
        area.width > 0,
        area.height > 0,
        area.x as int + area.width as int <= u16::MAX,
        0 <= inner <= u16::MAX,
        0 <= remove_w <= area.width,
    ensures
        ({
            let p = token_parts_spec(area, inner, removable, remove_w);
            &&& p.root.x == area.x && p.root.y == area.y && p.root.width <= area.width && p.root.height == 1
            &&& p.body.x == area.x + 1 && p.body.x + p.body.width <= area.x + area.width
            &&& p.has_remove_spec() ==> {
                &&& removable
                &&& area.x <= p.remove.x
                &&& p.remove.x + p.remove.width <= area.x + area.width
                &&& p.remove.y == area.y
            }
        }),
{
    let p = token_parts_spec(area, inner, removable, remove_w);
    let right = area.right_spec();
    assert(right == area.x + area.width);
    let body_x = sat_add(area.x as int, 1);
    assert(body_x == area.x + 1);
    assert(p.root.x == area.x);
    assert(p.root.width <= area.width);
    assert(p.body.x == area.x + 1);
    assert(p.body.x + p.body.width <= area.x + area.width);
    if p.has_remove_spec() {
        assert(removable);
        assert(area.x <= p.remove.x);
        assert(p.remove.x + p.remove.width <= area.x + area.width);
    }
}

} // verus!

verus! {

// ── Token strip geometry ────────────────────────────────────────────────────

/// Where a token strip paints.
#[derive(Debug, Clone, PartialEq, Eq)]
pub struct StripGeometry {
    /// Painted tokens: item index and rectangle.
    pub regions: Vec<(usize, Rect)>,
    /// The `+N` summary.
    pub overflow_region: Option<Rect>,
    /// The add affordance.
    pub add_region: Option<Rect>,
    /// The leading control.
    pub lead_region: Option<Rect>,
    /// Column of the `…` painted where a scrolled token stopped fitting.
    pub ellipsis_x: Option<u16>,
}

/// Widths and labels a strip lays out, measured.
#[derive(Debug, Clone, Copy, PartialEq, Eq, Structural)]
pub struct StripMetrics {
    /// Cells of the leading control (`" {lead} "`), if any.
    pub lead_cols: Option<u16>,
    /// Cells of the add affordance, if any.
    pub add_cols: Option<u16>,
    /// Cells of the `+N` summary.
    pub overflow_cols: u16,
    /// Whether some items are summarized as `+N`.
    pub has_overflow: bool,
}

/// Progress of a scrolled layout.
pub struct ScrollScan {
    /// Painted tokens.
    pub regions: Seq<(usize, Rect)>,
    /// Content offset of the next token.
    pub content_x: int,
    /// Whether a token stopped fitting.
    pub stopped: bool,
    /// Where the `…` goes.
    pub ellipsis_x: Option<int>,
}

/// One token of a scrolled row: skipped while scrolled off the left, placed
/// while it fits before `budget_right`, else the row stops with a `…`.
pub open spec fn scroll_step(st: ScrollScan, k: int, w: int, area: Rect, gap: int, budget_right: int) -> ScrollScan {
    if st.stopped {
        st
    } else {
        let abs_x = st.content_x;
        let next = abs_x + w + gap;
        if abs_x + w < 0 {
            ScrollScan { regions: st.regions, content_x: next, stopped: false, ellipsis_x: st.ellipsis_x }
        } else {
            let off = if abs_x < 0 || abs_x > u16::MAX { 0 } else { abs_x };
            let draw_x = sat_add(area.x as int, off);
            if sat_add(draw_x, w) > budget_right {
                ScrollScan { regions: st.regions, content_x: next, stopped: true, ellipsis_x: Some(draw_x) }
            } else {
                let h: u16 = if area.height < 1 { area.height } else { 1 };
                ScrollScan {
                    regions: st.regions.push((k as usize, Rect { x: draw_x as u16, y: area.y, width: w as u16, height: h })),
                    content_x: next,
                    stopped: false,
                    ellipsis_x: st.ellipsis_x,
                }
            }
        }
    }
}

/// Scrolled row over the first `k` widths.
pub open spec fn scroll_scan(widths: Seq<u16>, area: Rect, gap: int, budget_right: int, scroll: int, k: int) -> ScrollScan
    decreases k,
{
    if k <= 0 {
        ScrollScan { regions: Seq::empty(), content_x: -scroll, stopped: false, ellipsis_x: None }
    } else {
        scroll_step(scroll_scan(widths, area, gap, budget_right, scroll, k - 1), k - 1, widths[k - 1] as int, area, gap, budget_right)
    }
}

/// Progress of a wrapped layout.
pub struct WrapScan {
    /// Painted tokens.
    pub regions: Seq<(usize, Rect)>,
    /// Next column.
    pub x: int,
    /// Current row.
    pub y: int,
    /// Whether the rows ran out.
    pub stopped: bool,
}

/// One token of a wrapped layout: clipped to the area's width, moved to the
/// next row when it would overflow a started row.
pub open spec fn wrap_step(st: WrapScan, k: int, w0: int, area: Rect, gap: int) -> WrapScan {
    let bottom = area.bottom_spec();
    let right = area.right_spec();
    if st.stopped || st.y >= bottom {
        WrapScan { regions: st.regions, x: st.x, y: st.y, stopped: true }
    } else {
        let w = if w0 < area.width { w0 } else { area.width as int };
        let wraps = st.x > area.x && sat_add(st.x, w) > right;
        let x = if wraps { area.x as int } else { st.x };
        let y = if wraps { sat_add(st.y, 1) } else { st.y };
        if y >= bottom {
            WrapScan { regions: st.regions, x, y, stopped: true }
        } else {
            let room = sat_sub(right, x);
            WrapScan {
                regions: st.regions.push((k as usize, Rect { x: x as u16, y: y as u16, width: (if w < room { w } else { room }) as u16, height: 1 })),
                x: sat_add(sat_add(x, w), gap),
                y,
                stopped: false,
            }
        }
    }
}

/// Wrapped layout over the first `k` widths.
pub open spec fn wrap_scan(widths: Seq<u16>, area: Rect, gap: int, k: int) -> WrapScan
    decreases k,
{
    if k <= 0 {
        WrapScan { regions: Seq::empty(), x: area.x as int, y: area.y as int, stopped: false }
    } else {
        wrap_step(wrap_scan(widths, area, gap, k - 1), k - 1, widths[k - 1] as int, area, gap)
    }
}

/// The add affordance at `(x, y)`, if it fits whole before `budget_right`
/// on a row that exists.
pub open spec fn add_spec(add_cols: Option<u16>, x: int, y: int, budget_right: int) -> Option<Rect> {
    match add_cols {
        None => None,
        Some(w) => {
            let avail = sat_sub(budget_right, x);
            let h = sat_add(y, 1) - y;
            if w == 0 || avail == 0 || h == 0 || x >= budget_right || sat_add(x, w as int) > budget_right || avail < w {
                None
            } else {
                Some(Rect { x: x as u16, y: y as u16, width: w, height: 1 })
            }
        },
    }
}

/// The area left after the leading control, and the control's region.
pub open spec fn lead_spec(area: Rect, lead_cols: Option<u16>, gap: int) -> (Rect, Option<Rect>) {
    match lead_cols {
        None => (area, None),
        Some(w) => if w == 0 || area.width <= w {
            (area, None)
        } else {
            let next = sat_add(sat_add(area.x as int, w as int), gap);
            let h: u16 = if area.height < 1 { area.height } else { 1 };
            (
                Rect { x: next as u16, y: area.y, width: sat_sub(area.right_spec(), next) as u16, height: area.height },
                Some(Rect { x: area.x, y: area.y, width: w, height: h }),
            )
        },
    }
}

/// Spec-level strip geometry.
pub struct StripGeometryModel {
    /// Painted tokens.
    pub regions: Seq<(usize, Rect)>,
    /// `+N` summary.
    pub overflow_region: Option<Rect>,
    /// Add affordance.
    pub add_region: Option<Rect>,
    /// Leading control.
    pub lead_region: Option<Rect>,
    /// `…` column.
    pub ellipsis_x: Option<int>,
}

/// A scrolled strip in a non-empty `area`: tokens from the scroll offset
/// on, the `+N` summary at the right edge (five cells kept for it), the add
/// affordance after the last token when it fits whole.
pub open spec fn scroll_model(area: Rect, widths: Seq<u16>, gap: int, scroll: int, m: StripMetrics, lead: Option<Rect>) -> StripGeometryModel {
    let right = area.right_spec();
    let h: u16 = if area.height < 1 { area.height } else { 1 };
    let ow: int = if m.has_overflow { 5 } else { 0 };
    let budget_right = sat_sub(right, ow);
    let s = scroll_scan(widths, area, gap, budget_right, scroll, widths.len() as int);
    let over = if m.has_overflow {
        Some(Rect {
            x: sat_sub(right, m.overflow_cols as int) as u16,
            y: area.y,
            width: if m.overflow_cols < area.width { m.overflow_cols } else { area.width },
            height: h,
        })
    } else {
        None
    };
    let next_x = if s.regions.len() > 0 {
        sat_add(s.regions.last().1.right_spec(), gap)
    } else {
        area.x as int
    };
    let add_right = match over { Some(r) => r.x as int, None => right };
    StripGeometryModel {
        regions: s.regions,
        overflow_region: over,
        add_region: add_spec(m.add_cols, next_x, area.y as int, add_right),
        lead_region: lead,
        ellipsis_x: s.ellipsis_x,
    }
}

/// The `+N` summary after a wrapped layout that ended at `(x, y)`, and
/// where the next control goes.
pub open spec fn wrap_overflow(area: Rect, x: int, y: int, gap: int, m: StripMetrics) -> (Option<Rect>, int, int) {
    let right = area.right_spec();
    let bottom = area.bottom_spec();
    if m.has_overflow && y < bottom {
        let ow = m.overflow_cols as int;
        let wraps = sat_add(x, ow) > right;
        let x1 = if wraps { area.x as int } else { x };
        let y1 = if wraps { sat_add(y, 1) } else { y };
        if y1 < bottom {
            let room = sat_sub(right, x1);
            (Some(Rect { x: x1 as u16, y: y1 as u16, width: (if ow < room { ow } else { room }) as u16, height: 1 }),
                sat_add(sat_add(x1, ow), gap), y1)
        } else {
            (None, x1, y1)
        }
    } else {
        (None, x, y)
    }
}

/// A wrapped strip in a non-empty `area`: tokens row by row, then the `+N`
/// summary and the add affordance where rows remain.
pub open spec fn wrap_model(area: Rect, widths: Seq<u16>, gap: int, m: StripMetrics, lead: Option<Rect>) -> StripGeometryModel {
    let s = wrap_scan(widths, area, gap, widths.len() as int);
    let (over, x2, y2) = wrap_overflow(area, s.x, s.y, gap, m);
    StripGeometryModel {
        regions: s.regions,
        overflow_region: over,
        add_region: if y2 < area.bottom_spec() { add_spec(m.add_cols, x2, y2, area.right_spec()) } else { None },
        lead_region: lead,
        ellipsis_x: None,
    }
}

/// Where a strip paints its visible tokens (widths in order), the `+N`
/// summary, the add affordance and the leading control.
pub open spec fn strip_geometry_spec(area0: Rect, widths: Seq<u16>, gap: int, layout: TokenStripLayout, scroll: int, m: StripMetrics) -> StripGeometryModel {
    let none = StripGeometryModel { regions: Seq::empty(), overflow_region: None, add_region: None, lead_region: None, ellipsis_x: None };
    if area0.width == 0 || area0.height == 0 {
        none
    } else {
        let (area, lead) = lead_spec(area0, m.lead_cols, gap);
        if area.width == 0 || area.height == 0 {
            StripGeometryModel { lead_region: lead, ..none }
        } else {
            match layout {
                TokenStripLayout::Scroll => scroll_model(area, widths, gap, scroll, m, lead),
                TokenStripLayout::Wrap => wrap_model(area, widths, gap, m, lead),
            }
        }
    }
}

} // verus!

verus! {

impl StripGeometry {
    /// The geometry as spec values.
    pub open spec fn model(self) -> StripGeometryModel {
        StripGeometryModel {
            regions: self.regions@,
            overflow_region: self.overflow_region,
            add_region: self.add_region,
            lead_region: self.lead_region,
            ellipsis_x: match self.ellipsis_x { Some(x) => Some(x as int), None => None },
        }
    }
}

fn strip_lead(area: Rect, lead_cols: Option<u16>, gap: u16) -> (r: (Rect, Option<Rect>))
    ensures
        r == lead_spec(area, lead_cols, gap as int),
{
    match lead_cols {
        None => (area, None),
        Some(w) => if w == 0 || area.width <= w {
            (area, None)
        } else {
            let next = area.x.saturating_add(w).saturating_add(gap);
            let h: u16 = if area.height < 1 { area.height } else { 1 };
            (
                Rect { x: next, y: area.y, width: area.right().saturating_sub(next), height: area.height },
                Some(Rect { x: area.x, y: area.y, width: w, height: h }),
            )
        },
    }
}

fn add_region(add_cols: Option<u16>, x: u16, y: u16, budget_right: u16) -> (r: Option<Rect>)
    ensures
        r == add_spec(add_cols, x as int, y as int, budget_right as int),
{
    match add_cols {
        None => None,
        Some(w) => {
            let avail = budget_right.saturating_sub(x);
            let h = y.saturating_add(1) - y;
            if w == 0 || avail == 0 || h == 0 || x >= budget_right || x.saturating_add(w) > budget_right || avail < w {
                None
            } else {
                Some(Rect { x, y, width: w, height: 1 })
            }
        },
    }
}

/// Offsets past this bound all lie beyond the grid and lay out alike.
spec fn capped(v: int) -> int {
    if v > 200000 { 200000 } else { v }
}

fn scroll_geometry(area: Rect, widths: &Vec<u16>, gap: u16, scroll: u16, m: StripMetrics, lead: Option<Rect>) -> (g: StripGeometry)
    requires
        area.width > 0,
        area.height > 0,
    ensures
        g.model() == scroll_model(area, widths@, gap as int, scroll as int, m, lead),
{
    let n = widths.len();
    let right = area.right();
    let ow: u16 = if m.has_overflow { 5 } else { 0 };
    let budget_right = right.saturating_sub(ow);
    let ghost br = budget_right as int;
    let mut regions: Vec<(usize, Rect)> = Vec::new();
    let mut cx: i64 = -(scroll as i64);
    let mut stopped = false;
    let mut ell: Option<u16> = None;
    let mut i: usize = 0;
    while i < n
        invariant
            n == widths@.len(),
            i <= n,
            area.height > 0,
            br == budget_right,
            ({
                let st = scroll_scan(widths@, area, gap as int, br, scroll as int, i as int);
                &&& regions@ == st.regions
                &&& stopped == st.stopped
                &&& cx as int == capped(st.content_x)
                &&& st.content_x >= -65535
                &&& ell == match st.ellipsis_x { Some(v) => Some(v as u16), None => None::<u16> }
                &&& (st.ellipsis_x matches Some(v) ==> 0 <= v <= u16::MAX)
            }),
        decreases n - i,
    {
        let ghost st = scroll_scan(widths@, area, gap as int, br, scroll as int, i as int);
        assert(scroll_scan(widths@, area, gap as int, br, scroll as int, i + 1) == scroll_step(st, i as int, widths@[i as int] as int, area, gap as int, br));
        if !stopped {
            let w = widths[i];
            let abs_x = cx;
            let nx: i64 = abs_x + w as i64 + gap as i64;
            let next: i64 = if nx > 200000 { 200000 } else { nx };
            if abs_x + (w as i64) < 0 {
                cx = next;
            } else {
                let off: u16 = if abs_x < 0 || abs_x > 65535 { 0 } else { abs_x as u16 };
                let draw_x = area.x.saturating_add(off);
                if draw_x.saturating_add(w) > budget_right {
                    cx = next;
                    stopped = true;
                    ell = Some(draw_x);
                } else {
                    regions.push((i, Rect { x: draw_x, y: area.y, width: w, height: 1 }));
                    cx = next;
                }
            }
        }
        i = i + 1;
    }
    let over: Option<Rect> = if m.has_overflow {
        Some(Rect {
            x: right.saturating_sub(m.overflow_cols),
            y: area.y,
            width: if m.overflow_cols < area.width { m.overflow_cols } else { area.width },
            height: 1,
        })
    } else {
        None
    };
    let next_x: u16 = if regions.len() > 0 {
        let r = regions[regions.len() - 1].1;
        r.right().saturating_add(gap)
    } else {
        area.x
    };
    let add_right: u16 = match over {
        Some(r) => r.x,
        None => right,
    };
    let add = add_region(m.add_cols, next_x, area.y, add_right);
    StripGeometry { regions, overflow_region: over, add_region: add, lead_region: lead, ellipsis_x: ell }
}

fn wrap_geometry(area: Rect, widths: &Vec<u16>, gap: u16, m: StripMetrics, lead: Option<Rect>) -> (g: StripGeometry)
    requires
        area.width > 0,
        area.height > 0,
    ensures
        g.model() == wrap_model(area, widths@, gap as int, m, lead),
{
    let n = widths.len();
    let right = area.right();
    let bottom = area.bottom();
    let mut regions: Vec<(usize, Rect)> = Vec::new();
    let mut x: u16 = area.x;
    let mut y: u16 = area.y;
    let mut stopped = false;
    let mut i: usize = 0;
    while i < n
        invariant
            n == widths@.len(),
            i <= n,
            right == area.right_spec(),
            bottom == area.bottom_spec(),
            ({
                let st = wrap_scan(widths@, area, gap as int, i as int);
                &&& regions@ == st.regions
                &&& stopped == st.stopped
                &&& x as int == st.x
                &&& y as int == st.y
            }),
        decreases n - i,
    {
        let ghost st = wrap_scan(widths@, area, gap as int, i as int);
        assert(wrap_scan(widths@, area, gap as int, i + 1) == wrap_step(st, i as int, widths@[i as int] as int, area, gap as int));
        if stopped || y >= bottom {
            stopped = true;
        } else {
            let w0 = widths[i];
            let w = if w0 < area.width { w0 } else { area.width };
            let wraps = x > area.x && x.saturating_add(w) > right;
            let nx = if wraps { area.x } else { x };
            let ny = if wraps { y.saturating_add(1) } else { y };
            if ny >= bottom {
                x = nx;
                y = ny;
                stopped = true;
            } else {
                let room = right.saturating_sub(nx);
                regions.push((i, Rect { x: nx, y: ny, width: if w < room { w } else { room }, height: 1 }));
                x = nx.saturating_add(w).saturating_add(gap);
                y = ny;
            }
        }
        i = i + 1;
    }
    let (over, x2, y2): (Option<Rect>, u16, u16) = if m.has_overflow && y < bottom {
        let ow = m.overflow_cols;
        let wraps = x.saturating_add(ow) > right;
        let x1 = if wraps { area.x } else { x };
        let y1 = if wraps { y.saturating_add(1) } else { y };
        if y1 < bottom {
            let room = right.saturating_sub(x1);
            (Some(Rect { x: x1, y: y1, width: if ow < room { ow } else { room }, height: 1 }), x1.saturating_add(ow).saturating_add(gap), y1)
        } else {
            (None, x1, y1)
        }
    } else {
        (None, x, y)
    };
    proof {
        let s = wrap_scan(widths@, area, gap as int, n as int);
        let t = wrap_overflow(area, s.x, s.y, gap as int, m);
        assert(over == t.0 && x2 as int == t.1 && y2 as int == t.2);
    }
    let add = if y2 < bottom { add_region(m.add_cols, x2, y2, right) } else { None };
    StripGeometry { regions, overflow_region: over, add_region: add, lead_region: lead, ellipsis_x: None }
}

/// Lays a token strip out in `area`: `widths` are the visible tokens'
/// widths in order, `scroll` the scrolled layout's content offset, `m` the
/// measured controls.
pub fn strip_geometry(area: Rect, widths: &Vec<u16>, gap: u16, layout: TokenStripLayout, scroll: u16, m: StripMetrics) -> (g: StripGeometry)
    ensures
        g.model() == strip_geometry_spec(area, widths@, gap as int, layout, scroll as int, m),
{
    if area.width == 0 || area.height == 0 {
        return StripGeometry { regions: Vec::new(), overflow_region: None, add_region: None, lead_region: None, ellipsis_x: None };
    }
    let (inner, lead) = strip_lead(area, m.lead_cols, gap);
    if inner.width == 0 || inner.height == 0 {
        return StripGeometry { regions: Vec::new(), overflow_region: None, add_region: None, lead_region: lead, ellipsis_x: None };
    }
    match layout {
        TokenStripLayout::Scroll => scroll_geometry(inner, widths, gap, scroll, m, lead),
        TokenStripLayout::Wrap => wrap_geometry(inner, widths, gap, m, lead),
    }
}

} // verus!

verus! {

/// Width of a strip item, as its chip (selectable) or tag measures it.
pub open spec fn item_width_spec<Id>(item: TokenItem<Id>, glyphs: GlyphSet) -> u16 {
    let body = decorated_spec(item.status, glyphs, item.label@);
    if item.selectable {
        let w0 = 1 + str_width(body) + 1 + (if item.removable { 2int } else { 0 }) + 1;
        if w0 > u16::MAX { 1u16 } else { w0 as u16 }
    } else {
        let bw = fit_u16_or(str_width(body) as int, 1);
        let rem = if item.removable {
            sat_add(1, fit_u16_or(str_width(Glyph::Close.text_spec(glyphs)) as int, 1))
        } else {
            0
        };
        let w0 = sat_add(sat_add(sat_add(bw, 1), rem), 1);
        if w0 < 1 { 1u16 } else { w0 as u16 }
    }
}

/// The `+N` summary text.
pub open spec fn overflow_label_spec(hidden: nat) -> Seq<char> {
    seq!['+'] + decimal(hidden)
}

fn overflow_label(hidden: usize) -> (s: String)
    ensures
        s@ == overflow_label_spec(hidden as nat),
{
    let mut v: Vec<char> = Vec::new();
    v.push('+');
    push_decimal(&mut v, hidden as u64);
    string_from_chars(v.as_slice())
}

impl<'a, Id> TokenStrip<'a, Id> {
    /// How many items are shown as tokens; the rest are summarized.
    pub open spec fn visible_len_spec(self) -> int {
        let n = self.items@.len() as int;
        if self.max_visible == 0 || n <= self.max_visible { n } else { self.max_visible as int }
    }

    /// Widths of the shown tokens, in order.
    pub open spec fn widths_spec(self) -> Seq<u16> {
        Seq::new(self.visible_len_spec() as nat, |i: int| item_width_spec(self.items@[i], self.system.glyphs))
    }

    /// The measured controls.
    pub open spec fn metrics_spec(self) -> StripMetrics {
        let n = self.items@.len() as int;
        let v = self.visible_len_spec();
        StripMetrics {
            lead_cols: match self.lead {
                Some(l) => Some(fit_u16_or(str_width(" "@ + l@ + " "@) as int, 0) as u16),
                None => None,
            },
            add_cols: match self.add_label {
                Some(l) => Some(fit_u16_or(str_width(l@) + 2int, 1) as u16),
                None => None,
            },
            overflow_cols: fit_u16_or(
                str_width(overflow_label_spec((n - v) as nat)) + 2int,
                match self.layout { TokenStripLayout::Scroll => 4, TokenStripLayout::Wrap => 1 },
            ) as u16,
            has_overflow: n > v,
        }
    }

    /// The `+N` text for the items past the visible ones.
    pub fn overflow_label(&self) -> (s: String)
        ensures
            s@ == overflow_label_spec((self.items@.len() - self.visible_len_spec()) as nat),
    {
        let n = self.items.len();
        let v = if self.max_visible == 0 || n <= self.max_visible { n } else { self.max_visible };
        overflow_label(n - v)
    }

    /// Measures the leading control, the add affordance and the summary.
    pub fn metrics(&self) -> (m: StripMetrics)
        ensures
            m == self.metrics_spec(),
    {
        let n = self.items.len();
        let v = if self.max_visible == 0 || n <= self.max_visible { n } else { self.max_visible };
        let lead_cols = match self.lead {
            Some(l) => {
                let a = concat_str(" ", l);
                let t = concat_str(a.as_str(), " ");
                Some(fit_u16(display_cols(t.as_str()), 0))
            },
            None => None,
        };
        let add_cols = match self.add_label {
            Some(l) => {
                let c = display_cols(l) as u128 + 2;
                Some(if c > 65535 { 1u16 } else { c as u16 })
            },
            None => None,
        };
        let label = overflow_label(n - v);
        let c = display_cols(label.as_str()) as u128 + 2;
        let fallback: u16 = match self.layout {
            TokenStripLayout::Scroll => 4,
            TokenStripLayout::Wrap => 1,
        };
        let overflow_cols = if c > 65535 { fallback } else { c as u16 };
        StripMetrics { lead_cols, add_cols, overflow_cols, has_overflow: n > v }
    }
}

impl<'a, Id: Copy> TokenStrip<'a, Id> {
    fn item_width(item: TokenItem<'a, Id>, system: &'a DesignSystem) -> (w: u16)
        ensures
            w == item_width_spec(item, system.glyphs),
    {
        if item.selectable {
            Chip::new(item.id, item.label, system).removable(item.removable).status(item.status).measure_width(item.selected)
        } else {
            Tag::new(item.id, item.label, system).removable(item.removable).status(item.status).measure_width()
        }
    }

    /// Widths of the shown tokens, in order.
    pub fn widths(&self) -> (ws: Vec<u16>)
        ensures
            ws@ == self.widths_spec(),
    {
        let n = self.items.len();
        let v = if self.max_visible == 0 || n <= self.max_visible { n } else { self.max_visible };
        let mut ws: Vec<u16> = Vec::new();
        let mut i: usize = 0;
        while i < v
            invariant
                v as int == self.visible_len_spec(),
                v <= n,
                n == self.items@.len(),
                i <= v,
                ws@ == Seq::new(i as nat, |j: int| item_width_spec(self.items@[j], self.system.glyphs)),
            decreases v - i,
        {
            let w = Self::item_width(self.items[i], self.system);
            ws.push(w);
            i = i + 1;
            assert(ws@ =~= Seq::new(i as nat, |j: int| item_width_spec(self.items@[j], self.system.glyphs)));
        }
        assert(ws@ =~= self.widths_spec());
        ws
    }

    /// Where the strip paints in `area`, scrolled by `scroll` cells: the
    /// shown tokens (by item index), the `+N` summary, the add affordance,
    /// the leading control and a `…` where a scrolled token stopped fitting.
    pub fn geometry(&self, area: Rect, scroll: u16) -> (g: StripGeometry)
        ensures
            g.model() == strip_geometry_spec(area, self.widths_spec(), self.gap as int, self.layout, scroll as int, self.metrics_spec()),
    {
        let ws = self.widths();
        let m = self.metrics();
        strip_geometry(area, &ws, self.gap, self.layout, scroll, m)
    }
}

} // verus!

verus! {

proof fn lemma_lead_inner(area: Rect, lead_cols: Option<u16>, gap: int)
    requires
        area.width > 0,
        area.height > 0,
        0 <= gap <= u16::MAX,
    ensures
        ({
            let inner = lead_spec(area, lead_cols, gap).0;
            inner.width > 0 ==> {
                &&& area.x <= inner.x
                &&& inner.right_spec() == area.right_spec()
                &&& inner.y == area.y
                &&& inner.height == area.height
            }
        }),
{
}

proof fn lemma_scroll_whole(widths: Seq<u16>, area: Rect, gap: int, br: int, scroll: int, k: int)
    requires
        0 <= k <= widths.len(),
        widths.len() <= usize::MAX,
        br < u16::MAX,
        area.height > 0,
    ensures
        ({
            let s = scroll_scan(widths, area, gap, br, scroll, k);
            forall|j: int| 0 <= j < s.regions.len() ==> {
                &&& (#[trigger] s.regions[j]).0 < k
                &&& s.regions[j].1.width == widths[s.regions[j].0 as int]
                &&& area.x <= s.regions[j].1.x
                &&& s.regions[j].1.x + s.regions[j].1.width <= br
                &&& s.regions[j].1.y == area.y
                &&& s.regions[j].1.height == 1
            }
        }),
    decreases k,
{
    if k > 0 {
        lemma_scroll_whole(widths, area, gap, br, scroll, k - 1);
    }
}

/// A scrolled strip never clips a token to make room: every painted token
/// has its full measured width, lies inside the area and ends before the
/// five cells kept for a `+N` summary; an add affordance, when painted, has
/// its full measured width, lies inside the area and ends before the
/// summary.
pub proof fn law_scroll_keeps_tokens_whole(area: Rect, widths: Seq<u16>, gap: int, scroll: int, m: StripMetrics)
    requires
        widths.len() <= usize::MAX,
        0 <= gap <= u16::MAX,
        area.x + area.width < u16::MAX,
        area.y < u16::MAX,
    ensures
        ({
            let g = strip_geometry_spec(area, widths, gap, TokenStripLayout::Scroll, scroll, m);
            let reserve: int = if m.has_overflow { 5 } else { 0 };
            &&& forall|j: int| 0 <= j < g.regions.len() ==> {
                &&& (#[trigger] g.regions[j]).0 < widths.len()
                &&& g.regions[j].1.width == widths[g.regions[j].0 as int]
                &&& rect_inside(g.regions[j].1, area)
                &&& g.regions[j].1.x + g.regions[j].1.width <= sat_sub(area.right_spec(), reserve)
            }
            &&& (g.add_region matches Some(a) ==> {
                &&& m.add_cols == Some(a.width)
                &&& rect_inside(a, area)
                &&& (g.overflow_region matches Some(o) ==> a.x + a.width <= o.x)
            })
        }),
{
    if area.width > 0 && area.height > 0 {
        lemma_lead_inner(area, m.lead_cols, gap);
        let inner = lead_spec(area, m.lead_cols, gap).0;
        if inner.width > 0 && inner.height > 0 {
            let right = inner.right_spec();
            let br = sat_sub(right, if m.has_overflow { 5int } else { 0 });
            lemma_scroll_whole(widths, inner, gap, br, scroll, widths.len() as int);
        }
    }
}

proof fn lemma_wrap_inside(widths: Seq<u16>, area: Rect, gap: int, k: int)
    requires
        0 <= k <= widths.len(),
        widths.len() <= usize::MAX,
        0 <= gap <= u16::MAX,
    ensures
        ({
            let s = wrap_scan(widths, area, gap, k);
            &&& area.x <= s.x <= u16::MAX
            &&& area.y <= s.y <= u16::MAX
            &&& forall|j: int| 0 <= j < s.regions.len() ==> {
                &&& (#[trigger] s.regions[j]).0 < k
                &&& rect_inside(s.regions[j].1, area)
            }
        }),
    decreases k,
{
    if k > 0 {
        lemma_wrap_inside(widths, area, gap, k - 1);
    }
}

/// Everything a wrapped strip paints (tokens, the `+N` summary, the add
/// affordance) lies inside its area; the add affordance has its full
/// measured width.
pub proof fn law_wrap_stays_inside(area: Rect, widths: Seq<u16>, gap: int, m: StripMetrics)
    requires
        widths.len() <= usize::MAX,
        0 <= gap <= u16::MAX,
    ensures
        ({
            let g = strip_geometry_spec(area, widths, gap, TokenStripLayout::Wrap, 0, m);
            &&& forall|j: int| 0 <= j < g.regions.len() ==> {
                &&& (#[trigger] g.regions[j]).0 < widths.len()
                &&& rect_inside(g.regions[j].1, area)
            }
            &&& (g.overflow_region matches Some(o) ==> rect_inside(o, area))
            &&& (g.add_region matches Some(a) ==> m.add_cols == Some(a.width) && rect_inside(a, area))
        }),
{
    if area.width > 0 && area.height > 0 {
        lemma_lead_inner(area, m.lead_cols, gap);
        let inner = lead_spec(area, m.lead_cols, gap).0;
        if inner.width > 0 && inner.height > 0 {
            lemma_wrap_inside(widths, inner, gap, widths.len() as int);
        }
    }
}

} // verus!

verus! {

// ── Token strip interaction ─────────────────────────────────────────────────

/// A token strip's interaction state as plain values.
pub struct TokenStripModel<Id> {
    /// Whether the strip owns keyboard focus.
    pub surface_focused: bool,
    /// Token with the roving cursor.
    pub cursor: Option<Id>,
    /// Part within the cursor's token.
    pub part: TokenPart,
    /// Horizontal scroll in cells.
    pub scroll: u16,
    /// Painted tokens.
    pub regions: Seq<(Id, Rect)>,
    /// Painted `+N` summary.
    pub overflow_region: Option<Rect>,
    /// Painted add affordance.
    pub add_region: Option<Rect>,
    /// Painted leading control.
    pub lead_region: Option<Rect>,
    /// Whether tokens show the cursor.
    pub show_chip_cursor: bool,
    /// Whether the add affordance has the cursor.
    pub add_focused: bool,
    /// Token whose remove glyph is under the pointer.
    pub hovered_remove: Option<Id>,
    /// Tokens not shown.
    pub overflow_ids: Seq<Id>,
}

/// Interaction state of a token strip.
#[derive(Debug, Clone)]
pub struct TokenStripState<Id> {
    /// Whether the strip owns keyboard focus.
    pub surface_focused: bool,
    cursor: Option<Id>,
    /// Part within the cursor's token.
    pub part: TokenPart,
    /// Horizontal scroll in cells.
    pub scroll: u16,
    /// Painted tokens.
    pub regions: Vec<(Id, Rect)>,
    /// Painted `+N` summary.
    pub overflow_region: Option<Rect>,
    /// Painted add affordance.
    pub add_region: Option<Rect>,
    /// Painted leading control.
    pub lead_region: Option<Rect>,
    /// Whether tokens show the cursor.
    pub show_chip_cursor: bool,
    /// Whether the add affordance has the cursor.
    pub add_focused: bool,
    /// Token whose remove glyph is under the pointer.
    pub hovered_remove: Option<Id>,
    /// Tokens not shown.
    pub overflow_ids: Vec<Id>,
}

impl<Id> View for TokenStripState<Id> {
    type V = TokenStripModel<Id>;

    closed spec fn view(&self) -> TokenStripModel<Id> {
        TokenStripModel {
            surface_focused: self.surface_focused,
            cursor: self.cursor,
            part: self.part,
            scroll: self.scroll,
            regions: self.regions@,
            overflow_region: self.overflow_region,
            add_region: self.add_region,
            lead_region: self.lead_region,
            show_chip_cursor: self.show_chip_cursor,
            add_focused: self.add_focused,
            hovered_remove: self.hovered_remove,
            overflow_ids: self.overflow_ids@,
        }
    }
}

/// Identities of the enabled tokens among the first `k`, in order: the
/// places the strip's cursor can rest.
pub open spec fn entry_ids<'a, Id>(items: Seq<TokenItem<'a, Id>>, k: int) -> Seq<Id>
    decreases k,
{
    if k <= 0 {
        Seq::empty()
    } else if !items[k - 1].disabled {
        entry_ids(items, k - 1).push(items[k - 1].id)
    } else {
        entry_ids(items, k - 1)
    }
}

/// Position of the first `id` in `ids` from `i` on.
pub open spec fn id_position<Id>(ids: Seq<Id>, id: Id, i: int) -> Option<int>
    decreases ids.len() - i,
{
    if i < 0 || i >= ids.len() {
        None
    } else if ids[i] == id {
        Some(i)
    } else {
        id_position(ids, id, i + 1)
    }
}

/// Position of the first token with identity `id` from token `i` on.
pub open spec fn item_position<'a, Id>(items: Seq<TokenItem<'a, Id>>, id: Id, i: int) -> Option<int>
    decreases items.len() - i,
{
    if i < 0 || i >= items.len() {
        None
    } else if items[i].id == id {
        Some(i)
    } else {
        item_position(items, id, i + 1)
    }
}

/// The last enabled token among the first `k`.
pub open spec fn last_enabled_item<'a, Id>(items: Seq<TokenItem<'a, Id>>, k: int) -> Option<int>
    decreases k,
{
    if k <= 0 || k > items.len() {
        None
    } else if !items[k - 1].disabled {
        Some(k - 1)
    } else {
        last_enabled_item(items, k - 1)
    }
}

/// The move a key makes the strip's cursor: Left or `h` back, Right or `l`
/// forward, Home and End to the ends.
pub open spec fn strip_move(code: KeyCode) -> Option<NavigationMove> {
    match code {
        KeyCode::Left => Some(NavigationMove::Left),
        KeyCode::Right => Some(NavigationMove::Right),
        KeyCode::Char(c) => if c == 'h' { Some(NavigationMove::Left) } else if c == 'l' { Some(NavigationMove::Right) } else { None },
        KeyCode::Home => Some(NavigationMove::First),
        KeyCode::End => Some(NavigationMove::Last),
        _ => None,
    }
}

/// Where the strip's cursor goes on a key: among the enabled tokens,
/// wrapping.
pub open spec fn strip_target<Id>(ents: Seq<Id>, at: Option<int>, code: KeyCode) -> Option<int> {
    match strip_move(code) {
        Some(mv) => roving_target(Seq::new(ents.len(), |k: int| true), at, mv, true, RovingOrientation::Horizontal),
        None => None,
    }
}

/// Whether a target differs from the cursor's place.
pub open spec fn moves(t: Option<int>, at: Option<int>) -> bool {
    t is Some && t != at
}

/// The chip a selectable token stands for.
pub open spec fn chip_of<'a, Id>(strip: TokenStrip<'a, Id>, item: TokenItem<'a, Id>) -> Chip<'a, Id> {
    Chip { id: item.id, label: item.label, system: strip.system, removable: item.removable, status: item.status, disabled: item.disabled, interactive: true }
}

/// The tag a plain token stands for.
pub open spec fn tag_of<'a, Id>(strip: TokenStrip<'a, Id>, item: TokenItem<'a, Id>) -> Tag<'a, Id> {
    Tag { id: item.id, label: item.label, system: strip.system, removable: item.removable, status: item.status, disabled: item.disabled }
}

/// What the cursor's token makes of a key, focused on the strip's part
/// (`None` when there is no such token or it ignores the key).
pub open spec fn token_key_spec<'a, Id>(strip: TokenStrip<'a, Id>, m: TokenStripModel<Id>, key: KeyEvent) -> Option<(TokenStripModel<Id>, TokenStripOutcome<Id>)> {
    match m.cursor {
        None => None,
        Some(id) => match item_position(strip.items@, id, 0) {
            None => None,
            Some(k) => {
                let item = strip.items@[k];
                if item.selectable {
                    let cs = ChipModel { selected: item.selected, focused: true, part: m.part, hovered_remove: false, parts: None };
                    match chip_key_spec(chip_of(strip, item), cs, key).1 {
                        ChipOutcome::Ignored => None,
                        ChipOutcome::Selected(i) => Some((m, TokenStripOutcome::Selected(i))),
                        ChipOutcome::Unselected(i) => Some((m, TokenStripOutcome::Unselected(i))),
                        ChipOutcome::Remove(i) => Some((m, TokenStripOutcome::Remove(i))),
                        ChipOutcome::PartChanged(p) => Some((TokenStripModel { part: p, ..m }, TokenStripOutcome::PartChanged(p))),
                        ChipOutcome::Activated(i) => Some((m, TokenStripOutcome::Activated(i))),
                        ChipOutcome::HoverChanged => Some((m, TokenStripOutcome::HoverChanged)),
                    }
                } else {
                    let ts = TagState { focused: true, part: m.part, hovered_remove: false, parts: None };
                    match tag_key_spec(tag_of(strip, item), ts, key).1 {
                        TagOutcome::Ignored => None,
                        TagOutcome::Remove(i) => Some((m, TokenStripOutcome::Remove(i))),
                        TagOutcome::PartChanged(p) => Some((TokenStripModel { part: p, ..m }, TokenStripOutcome::PartChanged(p))),
                        TagOutcome::Activated(i) => Some((m, TokenStripOutcome::Activated(i))),
                        TagOutcome::HoverChanged => Some((m, TokenStripOutcome::HoverChanged)),
                    }
                }
            },
        },
    }
}

/// What a key does to a focused strip, in order: arrows move the cursor
/// among enabled tokens (wrapping); else the cursor's token answers; else an
/// add affordance with the cursor goes back on Left and fires on Enter or
/// Space; else Home scrolls a scrolling strip home, and the cursor moves on
/// Home, End and arrows; Right past the last enabled token reaches the add
/// affordance.
pub open spec fn strip_key_spec<'a, Id>(strip: TokenStrip<'a, Id>, m: TokenStripModel<Id>, key: KeyEvent) -> (TokenStripModel<Id>, TokenStripOutcome<Id>) {
    if !m.surface_focused || key.kind != KeyEventKind::Press {
        (m, TokenStripOutcome::Ignored)
    } else {
        let items = strip.items@;
        let ents = entry_ids(items, items.len() as int);
        let m1 = TokenStripModel {
            cursor: match m.cursor { Some(c) => if id_position(ents, c, 0) is Some { Some(c) } else { None }, None => None },
            ..m
        };
        let at = match m1.cursor { Some(c) => id_position(ents, c, 0), None => None };
        let t = strip_target(ents, at, key.code);
        let arrow = key.code == KeyCode::Left || key.code == KeyCode::Right || key.code == KeyCode::Char('h') || key.code == KeyCode::Char('l');
        let last = last_enabled_item(items, items.len() as int);
        if arrow && moves(t, at) {
            (TokenStripModel { part: TokenPart::Body, cursor: Some(ents[t.unwrap()]), ..m1 }, TokenStripOutcome::CursorMoved { from: m1.cursor, to: Some(ents[t.unwrap()]) })
        } else if token_key_spec(strip, m1, key) is Some {
            token_key_spec(strip, m1, key).unwrap()
        } else if m1.add_focused {
            if key.code == KeyCode::Left || key.code == KeyCode::Char('h') {
                let c = match last { Some(k) => Some(items[k].id), None => m1.cursor };
                (TokenStripModel { add_focused: false, cursor: c, ..m1 }, TokenStripOutcome::CursorMoved { from: None, to: c })
            } else if key.code == KeyCode::Enter || key.code == KeyCode::Char(' ') {
                (m1, TokenStripOutcome::Add)
            } else {
                (m1, TokenStripOutcome::Ignored)
            }
        } else {
            let m2 = if strip.layout == TokenStripLayout::Scroll && key.code == KeyCode::Home { TokenStripModel { scroll: 0, ..m1 } } else { m1 };
            if moves(t, at) {
                (TokenStripModel { part: TokenPart::Body, add_focused: false, cursor: Some(ents[t.unwrap()]), ..m2 }, TokenStripOutcome::CursorMoved { from: m2.cursor, to: Some(ents[t.unwrap()]) })
            } else if strip.add_label is Some && (key.code == KeyCode::Right || key.code == KeyCode::Char('l') || key.code == KeyCode::Enter)
                && m2.cursor is Some && (last matches Some(k) && Some(items[k].id) == m2.cursor) {
                if key.code == KeyCode::Enter {
                    (m2, TokenStripOutcome::Ignored)
                } else {
                    (TokenStripModel { add_focused: true, ..m2 }, TokenStripOutcome::CursorMoved { from: m2.cursor, to: None })
                }
            } else {
                (m2, TokenStripOutcome::Ignored)
            }
        }
    }
}

/// Whether `p` is on the remove end of a painted token wider than three cells.
pub open spec fn on_remove_end(r: Rect, p: Position) -> bool {
    &&& r.contains_spec(p)
    &&& p.x + 1 >= sat_sub(r.right_spec(), 1)
    &&& r.width > 3
}

/// The first painted token whose remove end is under `p`, from region `i` on.
pub open spec fn remove_hit_from<Id>(rs: Seq<(Id, Rect)>, p: Position, i: int) -> Option<int>
    decreases rs.len() - i,
{
    if i < 0 || i >= rs.len() {
        None
    } else if on_remove_end(rs[i].1, p) {
        Some(i)
    } else {
        remove_hit_from(rs, p, i + 1)
    }
}

/// The first painted token under `p`, from region `i` on.
pub open spec fn token_hit_from<Id>(rs: Seq<(Id, Rect)>, p: Position, i: int) -> Option<int>
    decreases rs.len() - i,
{
    if i < 0 || i >= rs.len() {
        None
    } else if rs[i].1.contains_spec(p) {
        Some(i)
    } else {
        token_hit_from(rs, p, i + 1)
    }
}

/// Whether an optional painted area holds `p`.
pub open spec fn holds(r: Option<Rect>, p: Position) -> bool {
    match r {
        Some(a) => a.contains_spec(p),
        None => false,
    }
}

/// What a pointer event does to a strip: motion tracks the remove end under
/// it; a primary press, in order, works the add affordance, the `+N`
/// summary, or the token under it (remove end of a removable token removes,
/// a chip toggles, a tag activates), focusing the strip.
pub open spec fn strip_mouse_spec<'a, Id>(strip: TokenStrip<'a, Id>, m: TokenStripModel<Id>, ev: MouseEvent) -> (TokenStripModel<Id>, TokenStripOutcome<Id>) {
    let p = ev.position;
    if ev.kind == MouseEventKind::Moved {
        let next = match remove_hit_from(m.regions, p, 0) {
            Some(k) => Some(m.regions[k].0),
            None => None,
        };
        if next == m.hovered_remove {
            (m, TokenStripOutcome::Ignored)
        } else {
            (TokenStripModel { hovered_remove: next, ..m }, TokenStripOutcome::HoverChanged)
        }
    } else if ev.kind != MouseEventKind::Down(MouseButton::Left) {
        (m, TokenStripOutcome::Ignored)
    } else if holds(m.add_region, p) {
        (TokenStripModel { surface_focused: true, add_focused: true, ..m }, TokenStripOutcome::Add)
    } else if holds(m.overflow_region, p) {
        (TokenStripModel { surface_focused: true, ..m }, TokenStripOutcome::OverflowActivated)
    } else {
        match token_hit_from(m.regions, p, 0) {
            Some(k) => {
                let (id, r) = m.regions[k];
                let m1 = TokenStripModel { surface_focused: true, cursor: Some(id), part: TokenPart::Body, ..m };
                match item_position(strip.items@, id, 0) {
                    Some(j) => {
                        let item = strip.items@[j];
                        if item.removable && p.x + 1 >= sat_sub(r.right_spec(), 1) && r.width > 3 {
                            (m1, TokenStripOutcome::Remove(id))
                        } else if item.selectable {
                            (m1, if item.selected { TokenStripOutcome::Unselected(id) } else { TokenStripOutcome::Selected(id) })
                        } else {
                            (m1, TokenStripOutcome::Activated(id))
                        }
                    },
                    None => (m1, TokenStripOutcome::Activated(id)),
                }
            },
            None => (m, TokenStripOutcome::Ignored),
        }
    }
}


/// Identities of the enabled tokens, in order.
fn entry_ids_exec<Id: Copy>(items: &[TokenItem<'_, Id>]) -> (v: Vec<Id>)
    ensures
        v@ == entry_ids(items@, items@.len() as int),
{
    let mut v: Vec<Id> = Vec::new();
    let mut i: usize = 0;
    while i < items.len()
        invariant
            i <= items.len(),
            v@ == entry_ids(items@, i as int),
        decreases items.len() - i,
    {
        if !items[i].disabled {
            v.push(items[i].id);
        }
        i = i + 1;
    }
    v
}

/// Position of the first `id` in `ids`.
fn id_pos<Id: PartialEq>(ids: &Vec<Id>, id: &Id) -> (r: Option<usize>)
    requires
        obeys_concrete_eq::<Id>(),
    ensures
        match r { Some(k) => id_position(ids@, *id, 0) == Some(k as int) && k < ids@.len(), None => id_position(ids@, *id, 0) is None },
{
    let mut i: usize = 0;
    while i < ids.len()
        invariant
            i <= ids.len(),
            obeys_concrete_eq::<Id>(),
            id_position(ids@, *id, 0) == id_position(ids@, *id, i as int),
        decreases ids.len() - i,
    {
        if same(&ids[i], id) {
            return Some(i);
        }
        i = i + 1;
    }
    None
}

/// Position of the first token with identity `id`.
fn item_pos<Id: PartialEq>(items: &[TokenItem<'_, Id>], id: &Id) -> (r: Option<usize>)
    requires
        obeys_concrete_eq::<Id>(),
    ensures
        match r { Some(k) => item_position(items@, *id, 0) == Some(k as int) && k < items@.len(), None => item_position(items@, *id, 0) is None },
{
    let mut i: usize = 0;
    while i < items.len()
        invariant
            i <= items.len(),
            obeys_concrete_eq::<Id>(),
            item_position(items@, *id, 0) == item_position(items@, *id, i as int),
        decreases items.len() - i,
    {
        if same(&items[i].id, id) {
            return Some(i);
        }
        i = i + 1;
    }
    None
}

/// The last enabled token.
fn last_enabled_item_exec<Id>(items: &[TokenItem<'_, Id>]) -> (r: Option<usize>)
    ensures
        match r { Some(k) => last_enabled_item(items@, items@.len() as int) == Some(k as int) && k < items@.len(), None => last_enabled_item(items@, items@.len() as int) is None },
{
    let mut k: usize = items.len();
    while k > 0
        invariant
            k <= items.len(),
            last_enabled_item(items@, items@.len() as int) == last_enabled_item(items@, k as int),
        decreases k,
    {
        if !items[k - 1].disabled {
            return Some(k - 1);
        }
        k = k - 1;
    }
    None
}

/// The first painted token whose remove end is under `p`.
fn remove_hit<Id>(rs: &Vec<(Id, Rect)>, p: Position) -> (r: Option<usize>)
    ensures
        match r { Some(k) => remove_hit_from(rs@, p, 0) == Some(k as int) && k < rs@.len(), None => remove_hit_from(rs@, p, 0) is None },
{
    let mut i: usize = 0;
    while i < rs.len()
        invariant
            i <= rs.len(),
            remove_hit_from(rs@, p, 0) == remove_hit_from(rs@, p, i as int),
        decreases rs.len() - i,
    {
        let r = rs[i].1;
        if r.contains(p) && p.x + 1 >= r.right().saturating_sub(1) && r.width > 3 {
            return Some(i);
        }
        i = i + 1;
    }
    None
}

/// The first painted token under `p`.
fn token_hit<Id>(rs: &Vec<(Id, Rect)>, p: Position) -> (r: Option<usize>)
    ensures
        match r { Some(k) => token_hit_from(rs@, p, 0) == Some(k as int) && k < rs@.len() && rs@[k as int].1.contains_spec(p), None => token_hit_from(rs@, p, 0) is None },
{
    let mut i: usize = 0;
    while i < rs.len()
        invariant
            i <= rs.len(),
            token_hit_from(rs@, p, 0) == token_hit_from(rs@, p, i as int),
        decreases rs.len() - i,
    {
        if rs[i].1.contains(p) {
            return Some(i);
        }
        i = i + 1;
    }
    None
}

/// Whether an optional painted area holds `p`.
fn holds_exec(r: Option<Rect>, p: Position) -> (b: bool)
    ensures
        b == holds(r, p),
{
    match r {
        Some(a) => a.contains(p),
        None => false,
    }
}

/// An optional borrowed identity, read.
pub open spec fn read_token_id<Id>(o: Option<&Id>) -> Option<Id> {
    match o {
        Some(x) => Some(*x),
        None => None,
    }
}

impl<Id> TokenStripState<Id> {
    /// An unfocused strip with nothing painted and no cursor.
    pub fn new() -> (s: Self)
        ensures
            s@ == (TokenStripModel::<Id> {
                surface_focused: false,
                cursor: None,
                part: TokenPart::Body,
                scroll: 0,
                regions: Seq::empty(),
                overflow_region: None,
                add_region: None,
                lead_region: None,
                show_chip_cursor: false,
                add_focused: false,
                hovered_remove: None,
                overflow_ids: Seq::empty(),
            }),
    {
        TokenStripState {
            surface_focused: false,
            cursor: None,
            part: TokenPart::Body,
            scroll: 0,
            regions: Vec::new(),
            overflow_region: None,
            add_region: None,
            lead_region: None,
            show_chip_cursor: false,
            add_focused: false,
            hovered_remove: None,
            overflow_ids: Vec::new(),
        }
    }

    /// Gives or takes keyboard focus.
    pub fn set_surface_focused(&mut self, on: bool)
        ensures
            final(self)@ == (TokenStripModel { surface_focused: on, ..old(self)@ }),
    {
        self.surface_focused = on;
    }

    /// The token with the cursor.
    pub fn cursor(&self) -> (r: Option<&Id>)
        ensures
            read_token_id(r) == self@.cursor,
    {
        match &self.cursor {
            Some(id) => Some(id),
            None => None,
        }
    }

    /// Places the cursor, on the token's body.
    pub fn set_cursor(&mut self, id: Option<Id>)
        ensures
            final(self)@ == (TokenStripModel { cursor: id, part: TokenPart::Body, ..old(self)@ }),
    {
        self.cursor = id;
        self.part = TokenPart::Body;
    }
}

impl<'a, Id: Copy + PartialEq> TokenStrip<'a, Id> {
    /// What the cursor's token makes of a key.
    fn token_key(&self, state: &mut TokenStripState<Id>, key: KeyEvent) -> (r: Option<TokenStripOutcome<Id>>)
        requires
            obeys_concrete_eq::<Id>(),
        ensures
            match token_key_spec(*self, old(state)@, key) {
                Some((f, o)) => r == Some(o) && final(state)@ == f,
                None => r is None && final(state)@ == old(state)@,
            },
    {
        let id = match state.cursor {
            Some(id) => id,
            None => return None,
        };
        let k = match item_pos(self.items, &id) {
            Some(k) => k,
            None => return None,
        };
        let item = self.items[k];
        if item.selectable {
            let chip = Chip::new(item.id, item.label, self.system).removable(item.removable).status(item.status).disabled(item.disabled);
            let mut cs = ChipState::new(item.selected);
            cs.set_focused(true);
            cs.set_part(state.part);
            match chip.handle_key(&mut cs, key) {
                ChipOutcome::Ignored => None,
                ChipOutcome::Selected(i) => Some(TokenStripOutcome::Selected(i)),
                ChipOutcome::Unselected(i) => Some(TokenStripOutcome::Unselected(i)),
                ChipOutcome::Remove(i) => Some(TokenStripOutcome::Remove(i)),
                ChipOutcome::PartChanged(p) => {
                    state.part = p;
                    Some(TokenStripOutcome::PartChanged(p))
                },
                ChipOutcome::Activated(i) => Some(TokenStripOutcome::Activated(i)),
                ChipOutcome::HoverChanged => Some(TokenStripOutcome::HoverChanged),
            }
        } else {
            let tag = Tag::new(item.id, item.label, self.system).removable(item.removable).status(item.status).disabled(item.disabled);
            let mut ts = TagState::new();
            ts.set_focused(true);
            ts.set_part(state.part);
            match tag.handle_key(&mut ts, key) {
                TagOutcome::Ignored => None,
                TagOutcome::Remove(i) => Some(TokenStripOutcome::Remove(i)),
                TagOutcome::PartChanged(p) => {
                    state.part = p;
                    Some(TokenStripOutcome::PartChanged(p))
                },
                TagOutcome::Activated(i) => Some(TokenStripOutcome::Activated(i)),
                TagOutcome::HoverChanged => Some(TokenStripOutcome::HoverChanged),
            }
        }
    }

    /// Handles a key (see [`strip_key_spec`]).
    #[verifier::rlimit(60)]
    #[verifier::spinoff_prover]
    pub fn handle_key(&self, state: &mut TokenStripState<Id>, key: KeyEvent) -> (o: TokenStripOutcome<Id>)
        requires
            obeys_concrete_eq::<Id>(),
        ensures
            (final(state)@, o) == strip_key_spec(*self, old(state)@, key),
    {
        if !state.surface_focused || !key.is_press() {
            return TokenStripOutcome::Ignored;
        }
        let ents = entry_ids_exec(self.items);
        if let Some(c) = state.cursor {
            if id_pos(&ents, &c).is_none() {
                state.cursor = None;
            }
        }
        let at = match state.cursor {
            Some(c) => id_pos(&ents, &c),
            None => None,
        };
        let mv = match key.code {
            KeyCode::Left => Some(NavigationMove::Left),
            KeyCode::Right => Some(NavigationMove::Right),
            KeyCode::Char(c) => if c == 'h' { Some(NavigationMove::Left) } else if c == 'l' { Some(NavigationMove::Right) } else { None },
            KeyCode::Home => Some(NavigationMove::First),
            KeyCode::End => Some(NavigationMove::Last),
            _ => None,
        };
        let mut flags: Vec<bool> = Vec::new();
        let mut i: usize = 0;
        while i < ents.len()
            invariant
                i <= ents.len(),
                flags@.len() == i,
                forall|k: int| 0 <= k < i ==> flags@[k],
            decreases ents.len() - i,
        {
            flags.push(true);
            i = i + 1;
        }
        assert(flags@ =~= Seq::new(ents@.len(), |k: int| true));
        let t = match mv {
            Some(m) => roving_move(&flags, at, m, true, RovingOrientation::Horizontal),
            None => None,
        };
        proof {
            if let Some(m) = mv {
                lemma_roving_lands_on_enabled(flags@, match at { Some(i) => Some(i as int), None => None }, m, true, RovingOrientation::Horizontal);
            }
        }
        let moved = match t {
            Some(x) => at != Some(x),
            None => false,
        };
        let arrow = match key.code {
            KeyCode::Left | KeyCode::Right => true,
            KeyCode::Char(c) => c == 'h' || c == 'l',
            _ => false,
        };
        if arrow && moved {
            let to = ents[t.unwrap()];
            let from = state.cursor;
            state.part = TokenPart::Body;
            state.cursor = Some(to);
            return TokenStripOutcome::CursorMoved { from, to: Some(to) };
        }
        if let Some(o) = self.token_key(state, key) {
            return o;
        }
        let last = last_enabled_item_exec(self.items);
        if state.add_focused {
            let back = match key.code {
                KeyCode::Left => true,
                KeyCode::Char(c) => c == 'h',
                _ => false,
            };
            let fire = match key.code {
                KeyCode::Enter => true,
                KeyCode::Char(c) => c == ' ',
                _ => false,
            };
            if back {
                state.add_focused = false;
                if let Some(k) = last {
                    state.cursor = Some(self.items[k].id);
                }
                return TokenStripOutcome::CursorMoved { from: None, to: state.cursor };
            }
            if fire {
                return TokenStripOutcome::Add;
            }
            return TokenStripOutcome::Ignored;
        }
        let home = match key.code {
            KeyCode::Home => true,
            _ => false,
        };
        if self.layout == TokenStripLayout::Scroll && home {
            state.scroll = 0;
        }
        if moved {
            let to = ents[t.unwrap()];
            let from = state.cursor;
            state.part = TokenPart::Body;
            state.add_focused = false;
            state.cursor = Some(to);
            return TokenStripOutcome::CursorMoved { from, to: Some(to) };
        }
        let toward_add = match key.code {
            KeyCode::Right | KeyCode::Enter => true,
            KeyCode::Char(c) => c == 'l',
            _ => false,
        };
        let on_last = match (state.cursor, last) {
            (Some(c), Some(k)) => same(&self.items[k].id, &c),
            _ => false,
        };
        if self.add_label.is_some() && toward_add && on_last {
            let enter = match key.code {
                KeyCode::Enter => true,
                _ => false,
            };
            if enter {
                return TokenStripOutcome::Ignored;
            }
            state.add_focused = true;
            return TokenStripOutcome::CursorMoved { from: state.cursor, to: None };
        }
        TokenStripOutcome::Ignored
    }

    /// Handles a pointer event (see [`strip_mouse_spec`]).
    pub fn handle_mouse(&self, state: &mut TokenStripState<Id>, event: MouseEvent) -> (o: TokenStripOutcome<Id>)
        requires
            obeys_concrete_eq::<Id>(),
        ensures
            (final(state)@, o) == strip_mouse_spec(*self, old(state)@, event),
    {
        let p = event.position;
        match event.kind {
            MouseEventKind::Moved => {
                let next = match remove_hit(&state.regions, p) {
                    Some(k) => Some(state.regions[k].0),
                    None => None,
                };
                let unchanged = match (&next, &state.hovered_remove) {
                    (Some(a), Some(b)) => same(a, b),
                    (None, None) => true,
                    _ => false,
                };
                if unchanged {
                    return TokenStripOutcome::Ignored;
                }
                state.hovered_remove = next;
                return TokenStripOutcome::HoverChanged;
            },
            MouseEventKind::Down(MouseButton::Left) => {},
            _ => return TokenStripOutcome::Ignored,
        }
        if holds_exec(state.add_region, p) {
            state.surface_focused = true;
            state.add_focused = true;
            return TokenStripOutcome::Add;
        }
        if holds_exec(state.overflow_region, p) {
            state.surface_focused = true;
            return TokenStripOutcome::OverflowActivated;
        }
        match token_hit(&state.regions, p) {
            Some(k) => {
                let id = state.regions[k].0;
                let r = state.regions[k].1;
                state.surface_focused = true;
                state.cursor = Some(id);
                state.part = TokenPart::Body;
                match item_pos(self.items, &id) {
                    Some(j) => {
                        let item = self.items[j];
                        if item.removable && p.x + 1 >= r.right().saturating_sub(1) && r.width > 3 {
                            TokenStripOutcome::Remove(id)
                        } else if item.selectable {
                            if item.selected { TokenStripOutcome::Unselected(id) } else { TokenStripOutcome::Selected(id) }
                        } else {
                            TokenStripOutcome::Activated(id)
                        }
                    },
                    None => TokenStripOutcome::Activated(id),
                }
            },
            None => TokenStripOutcome::Ignored,
        }
    }
}


/// Whether some enabled token has identity `id`.
pub open spec fn enabled_token<'a, Id>(items: Seq<TokenItem<'a, Id>>, id: Id) -> bool {
    exists|i: int| 0 <= i < items.len() && !items[i].disabled && #[trigger] items[i].id == id
}

proof fn lemma_entry_ids<'a, Id>(items: Seq<TokenItem<'a, Id>>, k: int)
    requires
        0 <= k <= items.len(),
    ensures
        forall|j: int| 0 <= j < entry_ids(items, k).len() ==> enabled_token(items, #[trigger] entry_ids(items, k)[j]),
    decreases k,
{
    if k > 0 {
        lemma_entry_ids(items, k - 1);
        if !items[k - 1].disabled {
            let prev = entry_ids(items, k - 1);
            assert forall|j: int| 0 <= j < entry_ids(items, k).len() implies enabled_token(items, #[trigger] entry_ids(items, k)[j]) by {
                if j < prev.len() {
                    assert(entry_ids(items, k)[j] == prev[j]);
                } else {
                    assert(items[k - 1].id == entry_ids(items, k)[j]);
                }
            }
        }
    }
}

proof fn lemma_last_enabled_item<'a, Id>(items: Seq<TokenItem<'a, Id>>, k: int)
    ensures
        last_enabled_item(items, k) matches Some(j) ==> 0 <= j < items.len() && !items[j].disabled,
    decreases k,
{
    if k > 0 && k <= items.len() && items[k - 1].disabled {
        lemma_last_enabled_item(items, k - 1);
    }
}

/// The keyboard moves a token strip's cursor only onto enabled tokens:
/// whenever a key leaves the cursor on a token it was not on, that token is
/// enabled.
pub proof fn law_strip_cursor_rests_on_enabled_tokens<'a, Id>(strip: TokenStrip<'a, Id>, m: TokenStripModel<Id>, key: KeyEvent)
    ensures
        ({
            let f = strip_key_spec(strip, m, key).0;
            f.cursor != m.cursor ==> (f.cursor matches Some(id) ==> enabled_token(strip.items@, id))
        }),
{
    let items = strip.items@;
    let ents = entry_ids(items, items.len() as int);
    lemma_entry_ids(items, items.len() as int);
    lemma_last_enabled_item(items, items.len() as int);
    if let Some(k) = last_enabled_item(items, items.len() as int) {
        assert(enabled_token(items, items[k].id));
    }
    let m1 = TokenStripModel {
        cursor: match m.cursor { Some(c) => if id_position(ents, c, 0) is Some { Some(c) } else { None }, None => None },
        ..m
    };
    let at = match m1.cursor { Some(c) => id_position(ents, c, 0), None => None };
    lemma_id_position(ents, m1.cursor, 0);
    if let Some(mv) = strip_move(key.code) {
        lemma_roving_lands_on_enabled(Seq::new(ents.len(), |k: int| true), at, mv, true, RovingOrientation::Horizontal);
        if let Some(t) = strip_target(ents, at, key.code) {
            assert(enabled_token(items, ents[t]));
        }
    }
}

proof fn lemma_id_position<Id>(ids: Seq<Id>, c: Option<Id>, i: int)
    requires
        0 <= i,
    ensures
        c matches Some(x) ==> (id_position(ids, x, i) matches Some(k) ==> i <= k < ids.len()),
    decreases ids.len() - i,
{
    if let Some(x) = c {
        if i < ids.len() && ids[i] != x {
            lemma_id_position(ids, c, i + 1);
        }
    }
}


proof fn lemma_scroll_scan_indices(widths: Seq<u16>, area: Rect, gap: int, budget_right: int, scroll: int, k: int)
    requires
        k <= widths.len() <= usize::MAX,
    ensures
        forall|j: int| 0 <= j < scroll_scan(widths, area, gap, budget_right, scroll, k).regions.len()
            ==> (#[trigger] scroll_scan(widths, area, gap, budget_right, scroll, k).regions[j]).0 < k,
    decreases k,
{
    if k > 0 {
        lemma_scroll_scan_indices(widths, area, gap, budget_right, scroll, k - 1);
    }
}

proof fn lemma_wrap_scan_indices(widths: Seq<u16>, area: Rect, gap: int, k: int)
    requires
        k <= widths.len() <= usize::MAX,
    ensures
        forall|j: int| 0 <= j < wrap_scan(widths, area, gap, k).regions.len()
            ==> (#[trigger] wrap_scan(widths, area, gap, k).regions[j]).0 < k,
    decreases k,
{
    if k > 0 {
        lemma_wrap_scan_indices(widths, area, gap, k - 1);
        let prev = wrap_scan(widths, area, gap, k - 1);
        let st = wrap_step(prev, k - 1, widths[k - 1] as int, area, gap);
        assert(st.regions == prev.regions || (st.regions.len() == prev.regions.len() + 1
            && st.regions.last().0 == (k - 1) as usize
            && forall|q: int| 0 <= q < prev.regions.len() ==> st.regions[q] == prev.regions[q]));
        assert forall|j: int| 0 <= j < st.regions.len() implies (#[trigger] st.regions[j]).0 < k by {
            if j < prev.regions.len() {
                assert(prev.regions[j].0 < k - 1);
            }
        }
    }
}

/// Every painted token of a strip names one of the laid-out widths.
proof fn lemma_strip_indices(area: Rect, widths: Seq<u16>, gap: int, layout: TokenStripLayout, scroll: int, m: StripMetrics)
    requires
        widths.len() <= usize::MAX,
    ensures
        forall|j: int| 0 <= j < strip_geometry_spec(area, widths, gap, layout, scroll, m).regions.len()
            ==> (#[trigger] strip_geometry_spec(area, widths, gap, layout, scroll, m).regions[j]).0 < widths.len(),
{
    if area.width > 0 && area.height > 0 {
        let (inner, lead) = lead_spec(area, m.lead_cols, gap);
        let right = inner.right_spec();
        let ow: int = if m.has_overflow { 5 } else { 0 };
        lemma_scroll_scan_indices(widths, inner, gap, sat_sub(right, ow), scroll, widths.len() as int);
        lemma_wrap_scan_indices(widths, inner, gap, widths.len() as int);
    }
}

/// The state side of painting a strip into `area`: painted places are
/// cleared; with something to paint, a cursor off the enabled tokens is
/// dropped, the tokens past the shown ones are listed as overflow, and the
/// painted tokens (by identity), `+N` summary, add affordance and leading
/// control are recorded from the strip's geometry at its scroll.
pub open spec fn strip_record_spec<'a, Id>(strip: TokenStrip<'a, Id>, m: TokenStripModel<Id>, area: Rect) -> TokenStripModel<Id> {
    let items = strip.items@;
    let m0 = TokenStripModel {
        regions: Seq::empty(),
        overflow_region: None,
        add_region: None,
        lead_region: None,
        overflow_ids: Seq::empty(),
        ..m
    };
    if area.width == 0 || area.height == 0 || (items.len() == 0 && strip.add_label is None && strip.lead is None) {
        m0
    } else {
        let ents = entry_ids(items, items.len() as int);
        let v = strip.visible_len_spec();
        let g = strip_geometry_spec(area, strip.widths_spec(), strip.gap as int, strip.layout, m.scroll as int, strip.metrics_spec());
        TokenStripModel {
            cursor: match m.cursor { Some(c) => if id_position(ents, c, 0) is Some { Some(c) } else { None }, None => None },
            overflow_ids: Seq::new((items.len() - v) as nat, |k: int| items[v + k].id),
            regions: Seq::new(g.regions.len(), |j: int| (items[g.regions[j].0 as int].id, g.regions[j].1)),
            overflow_region: g.overflow_region,
            add_region: g.add_region,
            lead_region: g.lead_region,
            ..m0
        }
    }
}

impl<'a, Id: Copy + PartialEq> TokenStrip<'a, Id> {
    /// Records in `state` where the strip paints into `area` (see
    /// [`strip_record_spec`]) and returns the geometry for the painter.
    pub fn lay_out(&self, area: Rect, state: &mut TokenStripState<Id>) -> (g: StripGeometry)
        requires
            obeys_concrete_eq::<Id>(),
        ensures
            final(state)@ == strip_record_spec(*self, old(state)@, area),
            g.model() == strip_geometry_spec(area, self.widths_spec(), self.gap as int, self.layout, old(state)@.scroll as int, self.metrics_spec()),
    {
        state.regions = Vec::new();
        state.overflow_region = None;
        state.add_region = None;
        state.lead_region = None;
        state.overflow_ids = Vec::new();
        if area.width == 0 || area.height == 0 || (self.items.len() == 0 && self.add_label.is_none() && self.lead.is_none()) {
            return self.geometry(area, state.scroll);
        }
        let ents = entry_ids_exec(self.items);
        if let Some(c) = state.cursor {
            if id_pos(&ents, &c).is_none() {
                state.cursor = None;
            }
        }
        let n = self.items.len();
        let v = if self.max_visible == 0 || n <= self.max_visible { n } else { self.max_visible };
        let mut ids: Vec<Id> = Vec::new();
        let mut k: usize = v;
        while k < n
            invariant
                v <= k <= n,
                n == self.items@.len(),
                v == self.visible_len_spec(),
                ids@ == Seq::new((k - v) as nat, |q: int| self.items@[v + q].id),
            decreases n - k,
        {
            ids.push(self.items[k].id);
            k = k + 1;
            assert(ids@ =~= Seq::new((k - v) as nat, |q: int| self.items@[v + q].id));
        }
        state.overflow_ids = ids;
        let g = self.geometry(area, state.scroll);
        proof {
            lemma_strip_indices(area, self.widths_spec(), self.gap as int, self.layout, state.scroll as int, self.metrics_spec());
        }
        let mut regions: Vec<(Id, Rect)> = Vec::new();
        let mut j: usize = 0;
        while j < g.regions.len()
            invariant
                j <= g.regions.len(),
                v == self.visible_len_spec(),
                v <= self.items@.len(),
                forall|q: int| 0 <= q < g.regions@.len() ==> (#[trigger] g.regions@[q]).0 < v,
                regions@ == Seq::new(j as nat, |q: int| (self.items@[g.regions@[q].0 as int].id, g.regions@[q].1)),
            decreases g.regions.len() - j,
        {
            let (i, r) = g.regions[j];
            regions.push((self.items[i].id, r));
            j = j + 1;
            assert(regions@ =~= Seq::new(j as nat, |q: int| (self.items@[g.regions@[q].0 as int].id, g.regions@[q].1)));
        }
        state.regions = regions;
        state.overflow_region = g.overflow_region;
        state.add_region = g.add_region;
        state.lead_region = g.lead_region;
        g
    }
}

} // verus!

verus! {

/// On a token strip the vim keys go where their arrows go: `h` does
/// whatever Left does and `l` whatever Right does, in every state.
pub proof fn law_strip_vim_keys_follow_arrows<'a, Id>(strip: TokenStrip<'a, Id>, m: TokenStripModel<Id>, key: KeyEvent)
    ensures
        strip_key_spec(strip, m, KeyEvent { code: KeyCode::Char('h'), ..key })
            == strip_key_spec(strip, m, KeyEvent { code: KeyCode::Left, ..key }),
        strip_key_spec(strip, m, KeyEvent { code: KeyCode::Char('l'), ..key })
            == strip_key_spec(strip, m, KeyEvent { code: KeyCode::Right, ..key }),
{
}

/// The strip's cursor keys step through the tokens the way they point:
/// from a token that is not the first, Left and `h` reach the one before
/// it; from one that is not the last, Right and `l` reach the one after.
pub proof fn law_strip_cursor_keys_step_their_way<Id>(ents: Seq<Id>, i: int)
    requires
        0 <= i < ents.len(),
    ensures
        i > 0 ==> strip_target(ents, Some(i), KeyCode::Left) == Some(i - 1),
        i > 0 ==> strip_target(ents, Some(i), KeyCode::Char('h')) == Some(i - 1),
        i + 1 < ents.len() ==> strip_target(ents, Some(i), KeyCode::Right) == Some(i + 1),
        i + 1 < ents.len() ==> strip_target(ents, Some(i), KeyCode::Char('l')) == Some(i + 1),
        strip_target(ents, Some(i), KeyCode::Home) == Some(0int),
        strip_target(ents, Some(i), KeyCode::End) == Some(ents.len() - 1),
{
    let n = ents.len() as int;
    assert(Seq::new(ents.len(), |k: int| true)[0]);
    assert(Seq::new(ents.len(), |k: int| true)[n - 1]);
    let flags = Seq::new(ents.len(), |k: int| true);
    if i > 0 {
        assert(flags[i - 1]);
        assert(prev_enabled_in(flags, 0, i) == Some(i - 1));
    }
    if i + 1 < ents.len() {
        assert(flags[i + 1]);
        assert(next_enabled_in(flags, i + 1, ents.len() as int) == Some(i + 1));
    }
}

} // verus!
