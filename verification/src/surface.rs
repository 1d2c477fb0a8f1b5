//! Surface recipes: the grounds and chrome a panel sits on.

use vstd::prelude::*;
use crate::geometry::{sat_add, sat_sub, Position, Rect};
use crate::style::{DesignSystem, RecipeFamily, Role};

verus! {

/// A surface recipe.
#[derive(Debug, Clone, Copy, PartialEq, Eq, Hash, Structural)]
pub enum SurfaceRecipe {
    /// Terminal underlay.
    Canvas,
    /// Ordinary component surface.
    Inset,
    /// Well below the ordinary surface.
    Sunken,
    /// Raised card.
    Raised,
    /// Overlay host.
    Overlay,
    /// Anchored menu host.
    MenuPopover,
    /// Overlay that owns interaction.
    OverlayFocused,
    /// Destructive overlay.
    OverlayDanger,
    /// Interactive, unfocused chrome.
    Interactive,
    /// Interaction owner.
    Focused,
    /// Selected membership chrome.
    Selected,
    /// Caution surface.
    Warning,
    /// Destructive surface.
    Destructive,
}

impl Default for SurfaceRecipe {
    /// `Inset`.
    fn default() -> (r: SurfaceRecipe)
        ensures
            r == SurfaceRecipe::Inset,
    {
        SurfaceRecipe::Inset
    }
}

impl SurfaceRecipe {
    /// Stable id.
    pub open spec fn id_spec(self) -> Seq<char> {
        match self {
            SurfaceRecipe::Canvas => "canvas"@,
            SurfaceRecipe::Inset => "inset"@,
            SurfaceRecipe::Sunken => "sunken"@,
            SurfaceRecipe::Raised => "raised"@,
            SurfaceRecipe::Overlay => "overlay"@,
            SurfaceRecipe::MenuPopover => "menu-popover"@,
            SurfaceRecipe::OverlayFocused => "overlay-focused"@,
            SurfaceRecipe::OverlayDanger => "overlay-danger"@,
            SurfaceRecipe::Interactive => "interactive"@,
            SurfaceRecipe::Focused => "focused"@,
            SurfaceRecipe::Selected => "selected"@,
            SurfaceRecipe::Warning => "warning"@,
            SurfaceRecipe::Destructive => "destructive"@,
        }
    }

    /// Stable id.
    pub fn id(self) -> (s: &'static str)
        ensures
            s@ == self.id_spec(),
    {
        match self {
            SurfaceRecipe::Canvas => "canvas",
            SurfaceRecipe::Inset => "inset",
            SurfaceRecipe::Sunken => "sunken",
            SurfaceRecipe::Raised => "raised",
            SurfaceRecipe::Overlay => "overlay",
            SurfaceRecipe::MenuPopover => "menu-popover",
            SurfaceRecipe::OverlayFocused => "overlay-focused",
            SurfaceRecipe::OverlayDanger => "overlay-danger",
            SurfaceRecipe::Interactive => "interactive",
            SurfaceRecipe::Focused => "focused",
            SurfaceRecipe::Selected => "selected",
            SurfaceRecipe::Warning => "warning",
            SurfaceRecipe::Destructive => "destructive",
        }
    }

    /// Whether the recipe is interactive chrome: every recipe but the
    /// layout grounds.
    pub open spec fn is_interactive_spec(self) -> bool {
        !(self == SurfaceRecipe::Canvas || self == SurfaceRecipe::Inset || self == SurfaceRecipe::Sunken
            || self == SurfaceRecipe::Raised)
    }

    /// Whether the recipe is interactive chrome.
    pub fn is_interactive(self) -> (b: bool)
        ensures
            b == self.is_interactive_spec(),
    {
        match self {
            SurfaceRecipe::Canvas | SurfaceRecipe::Inset | SurfaceRecipe::Sunken | SurfaceRecipe::Raised => false,
            _ => true,
        }
    }

    /// Whether the recipe has a border by default: all but the canvas, inset
    /// and sunken grounds.
    pub open spec fn default_bordered_spec(self) -> bool {
        !(self == SurfaceRecipe::Canvas || self == SurfaceRecipe::Inset || self == SurfaceRecipe::Sunken)
    }

    /// Whether the recipe has a border by default.
    pub fn default_bordered(self) -> (b: bool)
        ensures
            b == self.default_bordered_spec(),
    {
        match self {
            SurfaceRecipe::Canvas | SurfaceRecipe::Inset | SurfaceRecipe::Sunken => false,
            _ => true,
        }
    }

    /// The family that governs the recipe.
    pub open spec fn family_spec(self) -> RecipeFamily {
        match self {
            SurfaceRecipe::Canvas | SurfaceRecipe::Inset | SurfaceRecipe::Sunken | SurfaceRecipe::Raised => RecipeFamily::Layout,
            SurfaceRecipe::Overlay | SurfaceRecipe::MenuPopover | SurfaceRecipe::OverlayFocused | SurfaceRecipe::OverlayDanger => RecipeFamily::Overlay,
            SurfaceRecipe::Interactive | SurfaceRecipe::Focused => RecipeFamily::Action,
            SurfaceRecipe::Selected => RecipeFamily::Collection,
            SurfaceRecipe::Warning | SurfaceRecipe::Destructive => RecipeFamily::Status,
        }
    }

    /// The family that governs the recipe.
    pub fn family(self) -> (f: RecipeFamily)
        ensures
            f == self.family_spec(),
    {
        match self {
            SurfaceRecipe::Canvas | SurfaceRecipe::Inset | SurfaceRecipe::Sunken | SurfaceRecipe::Raised => RecipeFamily::Layout,
            SurfaceRecipe::Overlay | SurfaceRecipe::MenuPopover | SurfaceRecipe::OverlayFocused | SurfaceRecipe::OverlayDanger => RecipeFamily::Overlay,
            SurfaceRecipe::Interactive | SurfaceRecipe::Focused => RecipeFamily::Action,
            SurfaceRecipe::Selected => RecipeFamily::Collection,
            SurfaceRecipe::Warning | SurfaceRecipe::Destructive => RecipeFamily::Status,
        }
    }
}

/// Background fill policy.
#[derive(Debug, Clone, Copy, PartialEq, Eq, Hash, Structural)]
pub enum SurfaceFill {
    /// Recipe and capability driven.
    Auto,
    /// The canvas ground.
    TerminalDefault,
    /// Never paint the background.
    Transparent,
}

impl Default for SurfaceFill {
    /// `Auto`.
    fn default() -> (r: SurfaceFill)
        ensures
            r == SurfaceFill::Auto,
    {
        SurfaceFill::Auto
    }
}

} // verus!

verus! {

/// Which edges of a border are drawn (the `ratatui` flag set, carried to
/// the painter unchanged).
#[verifier::external_type_specification]
#[verifier::external_body]
pub struct ExBorders(ratatui_widgets::borders::Borders);

/// `area` with `left`, `top`, `right` and `bottom` cells taken off; an empty
/// rectangle at the shifted origin when nothing is left.
pub open spec fn shrink_spec(area: Rect, left: int, top: int, right: int, bottom: int) -> Rect {
    let x = sat_add(area.x as int, left);
    let y = sat_add(area.y as int, top);
    let w = sat_sub(area.width as int, sat_add(left, right));
    let h = sat_sub(area.height as int, sat_add(top, bottom));
    if w == 0 || h == 0 {
        Rect { x: x as u16, y: y as u16, width: 0, height: 0 }
    } else {
        Rect { x: x as u16, y: y as u16, width: w as u16, height: h as u16 }
    }
}

fn shrink_rect(area: Rect, left: u16, top: u16, right: u16, bottom: u16) -> (r: Rect)
    ensures
        r == shrink_spec(area, left as int, top as int, right as int, bottom as int),
{
    let x = area.x.saturating_add(left);
    let y = area.y.saturating_add(top);
    let width = area.width.saturating_sub(left.saturating_add(right));
    let height = area.height.saturating_sub(top.saturating_add(bottom));
    if width == 0 || height == 0 {
        Rect { x, y, width: 0, height: 0 }
    } else {
        Rect { x, y, width, height }
    }
}

/// Named geometry of one laid-out surface.
#[derive(Debug, Clone, Copy, PartialEq, Eq, Hash, Structural)]
pub struct SurfaceParts {
    /// The whole surface.
    pub root: Rect,
    /// Where children paint: inside the border and padding.
    pub content: Rect,
    /// Where the pointer hits the surface.
    pub hit: Rect,
    /// Clip for children (the content rectangle).
    pub clip: Rect,
    /// Whether a one-cell border takes the outer ring.
    pub has_border: bool,
}

impl SurfaceParts {
    /// Whether the cell `(col, row)` hits the surface.
    pub fn contains_hit(self, col: u16, row: u16) -> (b: bool)
        ensures
            b == self.hit.contains_spec(Position { x: col, y: row }),
    {
        self.hit.contains(Position { x: col, y: row })
    }
}

/// The lowest-level visual owner: a ground, an optional border, padding.
#[derive(Debug, Clone, Copy)]
pub struct Surface<'a> {
    /// Design system.
    pub system: &'a DesignSystem,
    /// Recipe.
    pub recipe: SurfaceRecipe,
    /// Border override (the recipe decides when unset).
    pub bordered: Option<bool>,
    /// Fill policy.
    pub fill: SurfaceFill,
    /// Horizontal padding override (the card inset when unset).
    pub pad_x: Option<u16>,
    /// Vertical padding override (one row when unset).
    pub pad_y: Option<u16>,
    /// Edges of the border to draw (all when unset).
    pub borders: Option<ratatui_widgets::borders::Borders>,
}

impl<'a> Surface<'a> {
    /// Whether the surface draws a border.
    pub open spec fn has_border_spec(self) -> bool {
        match self.bordered {
            Some(b) => b,
            None => self.recipe.default_bordered_spec(),
        }
    }

    /// Horizontal padding in effect.
    pub open spec fn pad_x_spec(self) -> u16 {
        match self.pad_x {
            Some(x) => x,
            None => self.system.card_inset,
        }
    }

    /// Vertical padding in effect.
    pub open spec fn pad_y_spec(self) -> u16 {
        match self.pad_y {
            Some(y) => y,
            None => 1,
        }
    }

    /// Geometry of the surface in `area`: the border ring, then the
    /// padding, come off the content; the pointer hits the whole surface
    /// when it is interactive or bordered, else only its content.
    pub open spec fn layout_spec(self, area: Rect) -> SurfaceParts {
        let b: int = if self.has_border_spec() { 1 } else { 0 };
        let inner = shrink_spec(area, b, b, b, b);
        let px = self.pad_x_spec() as int;
        let py = self.pad_y_spec() as int;
        let content = shrink_spec(inner, px, py, px, py);
        let hit_full = self.recipe.is_interactive_spec() || self.has_border_spec();
        SurfaceParts {
            root: area,
            content,
            hit: if hit_full { area } else { content },
            clip: content,
            has_border: self.has_border_spec(),
        }
    }

    /// An inset surface.
    pub fn new(system: &'a DesignSystem) -> (s: Self)
        ensures
            s == (Surface { system, recipe: SurfaceRecipe::Inset, bordered: None, fill: SurfaceFill::Auto, pad_x: None, pad_y: None, borders: None }),
    {
        Surface { system, recipe: SurfaceRecipe::Inset, bordered: None, fill: SurfaceFill::Auto, pad_x: None, pad_y: None, borders: None }
    }

    /// Sets the recipe.
    pub fn recipe(self, recipe: SurfaceRecipe) -> (s: Self)
        ensures
            s == (Surface { recipe, ..self }),
    {
        Surface { recipe, ..self }
    }

    /// Forces the border on or off.
    pub fn bordered(self, bordered: bool) -> (s: Self)
        ensures
            s == (Surface { bordered: Some(bordered), ..self }),
    {
        Surface { bordered: Some(bordered), ..self }
    }

    /// Sets the fill policy.
    pub fn fill(self, fill: SurfaceFill) -> (s: Self)
        ensures
            s == (Surface { fill, ..self }),
    {
        Surface { fill, ..self }
    }

    /// Overrides the padding.
    pub fn padding(self, pad_x: u16, pad_y: u16) -> (s: Self)
        ensures
            s == (Surface { pad_x: Some(pad_x), pad_y: Some(pad_y), ..self }),
    {
        Surface { pad_x: Some(pad_x), pad_y: Some(pad_y), ..self }
    }

    /// Draws only the named edges of the border.
    pub fn borders(self, borders: ratatui_widgets::borders::Borders) -> (s: Self)
        ensures
            s == (Surface { borders: Some(borders), ..self }),
    {
        Surface { borders: Some(borders), ..self }
    }

    /// Lays the surface out in `area` without painting.
    pub fn layout(&self, area: Rect) -> (p: SurfaceParts)
        ensures
            p == self.layout_spec(area),
    {
        let has_border = match self.bordered {
            Some(b) => b,
            None => self.recipe.default_bordered(),
        };
        let b: u16 = if has_border { 1 } else { 0 };
        let inner = shrink_rect(area, b, b, b, b);
        let px = match self.pad_x {
            Some(x) => x,
            None => self.system.card_inset,
        };
        let py = match self.pad_y {
            Some(y) => y,
            None => 1,
        };
        let content = shrink_rect(inner, px, py, px, py);
        let hit_full = self.recipe.is_interactive() || has_border;
        SurfaceParts { root: area, content, hit: if hit_full { area } else { content }, clip: content, has_border }
    }

    /// Whether the cell `(col, row)` hits the surface laid out in `area`.
    pub fn hit_test(&self, area: Rect, col: u16, row: u16) -> (b: bool)
        ensures
            b == self.layout_spec(area).hit.contains_spec(Position { x: col, y: row }),
    {
        self.layout(area).contains_hit(col, row)
    }
}

// ── Paint plan ──────────────────────────────────────────────────────────────

/// Where a surface's fill or border role comes from.
#[derive(Debug, Clone, Copy, PartialEq, Eq, Hash, Structural)]
pub enum SurfaceRole {
    /// A role of its own.
    Fixed(Role),
    /// The ground the recipe's family contract names.
    FamilySurface(RecipeFamily),
    /// The border the recipe's family contract names.
    FamilyBorder(RecipeFamily),
}

/// What one surface frame paints, as roles.
#[derive(Debug, Clone, Copy, PartialEq, Eq, Hash, Structural)]
pub struct SurfacePlan {
    /// Ground role; none skips the fill.
    pub fill: Option<SurfaceRole>,
    /// Border role; none draws no border.
    pub border: Option<SurfaceRole>,
    /// Whether the border carries weight as well as hue.
    pub bold_border: bool,
    /// Horizontal content padding, in cells.
    pub pad_x: u16,
    /// Vertical content padding, in cells.
    pub pad_y: u16,
    /// Recipe that produced the plan.
    pub recipe: SurfaceRecipe,
    /// Family that governs it.
    pub family: RecipeFamily,
}

impl SurfaceRecipe {
    /// Ground of the recipe: the canvas, surface and sunken grounds for the
    /// layout grounds, the elevated ground for a raised card, the popover
    /// ground for a menu, the selection wash for selected membership, the
    /// ordinary surface for warning and destructive surfaces, and the
    /// family's ground otherwise.
    pub open spec fn fill_role_spec(self) -> SurfaceRole {
        match self {
            SurfaceRecipe::Canvas => SurfaceRole::Fixed(Role::Canvas),
            SurfaceRecipe::Inset => SurfaceRole::Fixed(Role::Surface),
            SurfaceRecipe::Sunken => SurfaceRole::Fixed(Role::Sunken),
            SurfaceRecipe::Raised => SurfaceRole::Fixed(Role::Elevated),
            SurfaceRecipe::MenuPopover => SurfaceRole::Fixed(Role::Popover),
            SurfaceRecipe::Selected => SurfaceRole::Fixed(Role::SelectionTint),
            SurfaceRecipe::Warning | SurfaceRecipe::Destructive => SurfaceRole::Fixed(Role::Surface),
            _ => SurfaceRole::FamilySurface(self.family_spec()),
        }
    }

    /// Border of the recipe: none for the layout grounds; the focused border
    /// for the interaction owners, the danger border for destructive
    /// surfaces, the warning border for caution, the resting border for a
    /// menu, and the family's border otherwise.
    pub open spec fn border_role_spec(self) -> Option<SurfaceRole> {
        match self {
            SurfaceRecipe::Canvas | SurfaceRecipe::Inset | SurfaceRecipe::Sunken => None,
            SurfaceRecipe::MenuPopover => Some(SurfaceRole::Fixed(Role::Border)),
            SurfaceRecipe::OverlayFocused | SurfaceRecipe::Focused => Some(SurfaceRole::Fixed(Role::BorderFocused)),
            SurfaceRecipe::OverlayDanger | SurfaceRecipe::Destructive => Some(SurfaceRole::Fixed(Role::Danger)),
            SurfaceRecipe::Warning => Some(SurfaceRole::Fixed(Role::Warning)),
            _ => Some(SurfaceRole::FamilyBorder(self.family_spec())),
        }
    }

    /// Whether the recipe's border carries weight: focus, selection, caution
    /// and danger.
    pub open spec fn strong_border_spec(self) -> bool {
        match self {
            SurfaceRecipe::Focused | SurfaceRecipe::OverlayFocused | SurfaceRecipe::Selected
            | SurfaceRecipe::Warning | SurfaceRecipe::Destructive | SurfaceRecipe::OverlayDanger => true,
            _ => false,
        }
    }

    /// Ground of the recipe (see [`SurfaceRecipe::fill_role_spec`]).
    pub fn fill_role(self) -> (r: SurfaceRole)
        ensures
            r == self.fill_role_spec(),
    {
        match self {
            SurfaceRecipe::Canvas => SurfaceRole::Fixed(Role::Canvas),
            SurfaceRecipe::Inset => SurfaceRole::Fixed(Role::Surface),
            SurfaceRecipe::Sunken => SurfaceRole::Fixed(Role::Sunken),
            SurfaceRecipe::Raised => SurfaceRole::Fixed(Role::Elevated),
            SurfaceRecipe::MenuPopover => SurfaceRole::Fixed(Role::Popover),
            SurfaceRecipe::Selected => SurfaceRole::Fixed(Role::SelectionTint),
            SurfaceRecipe::Warning | SurfaceRecipe::Destructive => SurfaceRole::Fixed(Role::Surface),
            _ => SurfaceRole::FamilySurface(self.family()),
        }
    }

    /// Border of the recipe (see [`SurfaceRecipe::border_role_spec`]).
    pub fn border_role(self) -> (r: Option<SurfaceRole>)
        ensures
            r == self.border_role_spec(),
    {
        match self {
            SurfaceRecipe::Canvas | SurfaceRecipe::Inset | SurfaceRecipe::Sunken => None,
            SurfaceRecipe::MenuPopover => Some(SurfaceRole::Fixed(Role::Border)),
            SurfaceRecipe::OverlayFocused | SurfaceRecipe::Focused => Some(SurfaceRole::Fixed(Role::BorderFocused)),
            SurfaceRecipe::OverlayDanger | SurfaceRecipe::Destructive => Some(SurfaceRole::Fixed(Role::Danger)),
            SurfaceRecipe::Warning => Some(SurfaceRole::Fixed(Role::Warning)),
            _ => Some(SurfaceRole::FamilyBorder(self.family())),
        }
    }

    /// Whether the recipe's border carries weight.
    pub fn strong_border(self) -> (b: bool)
        ensures
            b == self.strong_border_spec(),
    {
        match self {
            SurfaceRecipe::Focused | SurfaceRecipe::OverlayFocused | SurfaceRecipe::Selected
            | SurfaceRecipe::Warning | SurfaceRecipe::Destructive | SurfaceRecipe::OverlayDanger => true,
            _ => false,
        }
    }
}

impl DesignSystem {
    /// The recipe's plan: its ground, its border (weighted when strong), the
    /// card inset across and one row down.
    pub open spec fn surface_recipe_spec(self, recipe: SurfaceRecipe) -> SurfacePlan {
        SurfacePlan {
            fill: Some(recipe.fill_role_spec()),
            border: recipe.border_role_spec(),
            bold_border: recipe.border_role_spec() is Some && recipe.strong_border_spec(),
            pad_x: self.card_inset,
            pad_y: 1,
            recipe,
            family: recipe.family_spec(),
        }
    }

    /// Resolves fill, border and padding for a recipe (see
    /// [`DesignSystem::surface_recipe_spec`]).
    pub fn surface_recipe(&self, recipe: SurfaceRecipe) -> (p: SurfacePlan)
        ensures
            p == self.surface_recipe_spec(recipe),
    {
        let border = recipe.border_role();
        SurfacePlan {
            fill: Some(recipe.fill_role()),
            border,
            bold_border: border.is_some() && recipe.strong_border(),
            pad_x: self.card_inset,
            pad_y: 1,
            recipe,
            family: recipe.family(),
        }
    }
}

impl<'a> Surface<'a> {
    /// The surface's plan: the recipe's, with the padding overrides; the
    /// fill policy picks the recipe's ground, the canvas or none; a forced
    /// border uses the resting border when the recipe has none, and a border
    /// turned off is dropped. On a monochrome system with the automatic
    /// fill, only the canvas, inset and sunken recipes fill (with the
    /// canvas), so no cue rests on hue alone. A strong recipe's border
    /// carries weight.
    pub open spec fn plan_spec(self) -> SurfacePlan {
        let p = self.system.surface_recipe_spec(self.recipe);
        let fill0 = match self.fill {
            SurfaceFill::Auto => p.fill,
            SurfaceFill::TerminalDefault => Some(SurfaceRole::Fixed(Role::Canvas)),
            SurfaceFill::Transparent => None,
        };
        let border = if !self.has_border_spec() {
            None
        } else if p.border is None {
            Some(SurfaceRole::Fixed(Role::Border))
        } else {
            p.border
        };
        let fill = if self.system.monochrome && self.fill == SurfaceFill::Auto {
            match self.recipe {
                SurfaceRecipe::Canvas | SurfaceRecipe::Inset | SurfaceRecipe::Sunken => Some(SurfaceRole::Fixed(Role::Canvas)),
                _ => None,
            }
        } else {
            fill0
        };
        SurfacePlan {
            fill,
            border,
            bold_border: border is Some && self.recipe.strong_border_spec(),
            pad_x: self.pad_x_spec(),
            pad_y: self.pad_y_spec(),
            recipe: self.recipe,
            family: p.family,
        }
    }

    /// Resolves the surface's plan (see [`Surface::plan_spec`]).
    pub fn plan(&self) -> (p: SurfacePlan)
        ensures
            p == self.plan_spec(),
    {
        let p = self.system.surface_recipe(self.recipe);
        let fill0 = match self.fill {
            SurfaceFill::Auto => p.fill,
            SurfaceFill::TerminalDefault => Some(SurfaceRole::Fixed(Role::Canvas)),
            SurfaceFill::Transparent => None,
        };
        let bordered = match self.bordered {
            Some(b) => b,
            None => self.recipe.default_bordered(),
        };
        let border = if !bordered {
            None
        } else if p.border.is_none() {
            Some(SurfaceRole::Fixed(Role::Border))
        } else {
            p.border
        };
        let auto = match self.fill {
            SurfaceFill::Auto => true,
            _ => false,
        };
        let fill = if self.system.monochrome && auto {
            match self.recipe {
                SurfaceRecipe::Canvas | SurfaceRecipe::Inset | SurfaceRecipe::Sunken => Some(SurfaceRole::Fixed(Role::Canvas)),
                _ => None,
            }
        } else {
            fill0
        };
        SurfacePlan {
            fill,
            border,
            bold_border: border.is_some() && self.recipe.strong_border(),
            pad_x: match self.pad_x {
                Some(x) => x,
                None => self.system.card_inset,
            },
            pad_y: match self.pad_y {
                Some(y) => y,
                None => 1,
            },
            recipe: self.recipe,
            family: p.family,
        }
    }
}

/// Focus, danger and caution stay on their semantic borders: a bordered
/// surface of an interaction-owner recipe draws the focused border, of a
/// destructive recipe the danger border, of the warning recipe the warning
/// border, each with weight, whatever the fill and the color capability.
pub proof fn law_semantic_borders_hold(s: Surface)
    requires
        s.has_border_spec(),
    ensures
        (s.recipe == SurfaceRecipe::Focused || s.recipe == SurfaceRecipe::OverlayFocused)
            ==> s.plan_spec().border == Some(SurfaceRole::Fixed(Role::BorderFocused)) && s.plan_spec().bold_border,
        (s.recipe == SurfaceRecipe::Destructive || s.recipe == SurfaceRecipe::OverlayDanger)
            ==> s.plan_spec().border == Some(SurfaceRole::Fixed(Role::Danger)) && s.plan_spec().bold_border,
        s.recipe == SurfaceRecipe::Warning
            ==> s.plan_spec().border == Some(SurfaceRole::Fixed(Role::Warning)) && s.plan_spec().bold_border,
        s.plan_spec().border is Some,
{
}

/// Children of a surface paint inside it: the content (and clip) lies
/// inside the surface, inset by the border ring and the padding on each
/// side, and the hit region is the whole surface or exactly the content.
pub proof fn law_surface_content_inside(s: Surface, area: Rect)
    requires
        area.x + area.width <= u16::MAX,
        area.y + area.height <= u16::MAX,
    ensures
        ({
            let p = s.layout_spec(area);
            let inset_x: int = (if s.has_border_spec() { 1int } else { 0 }) + s.pad_x_spec();
            let inset_y: int = (if s.has_border_spec() { 1int } else { 0 }) + s.pad_y_spec();
            &&& p.root == area
            &&& p.clip == p.content
            &&& (p.hit == p.root || p.hit == p.content)
            &&& p.content.width > 0 ==> {
                &&& p.content.x == area.x + inset_x
                &&& p.content.y == area.y + inset_y
                &&& p.content.x + p.content.width + inset_x == area.x + area.width
                &&& p.content.y + p.content.height + inset_y == area.y + area.height
            }
        }),
{
}

} // verus!
