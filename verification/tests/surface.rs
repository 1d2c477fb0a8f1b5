use termrock::slider::{empty_glyph, fill_glyph, handle_glyph, mono, RangeThumb, SliderOrientation};
use termrock::style::{DesignSystem, GlyphSet, RecipeFamily, Role};
use termrock::surface::{Surface, SurfaceFill, SurfaceRecipe, SurfaceRole};
use termrock::geometry::Rect;
use termrock::table_chrome::{column_gap, filter_marker, primary_key_mark, sort_marker};

#[test]
fn recipe_ids_stable() {
    assert_eq!(SurfaceRecipe::Focused.id(), "focused");
    assert_eq!(SurfaceRecipe::Destructive.id(), "destructive");
    assert_eq!(SurfaceRecipe::MenuPopover.id(), "menu-popover");
}

#[test]
fn recipe_families_and_chrome() {
    assert_eq!(SurfaceRecipe::Raised.family(), RecipeFamily::Layout);
    assert_eq!(SurfaceRecipe::Selected.family(), RecipeFamily::Collection);
    assert_eq!(SurfaceRecipe::OverlayDanger.family(), RecipeFamily::Overlay);
    assert!(SurfaceRecipe::Raised.default_bordered());
    assert!(!SurfaceRecipe::Raised.is_interactive());
    assert!(SurfaceRecipe::Warning.is_interactive());
    assert!(!SurfaceRecipe::Sunken.default_bordered());
}

#[test]
fn sort_markers_follow_the_junie_glyphs() {
    assert_eq!(sort_marker(true), "▴");
    assert_eq!(sort_marker(false), "▾");
    assert_eq!(filter_marker(), "∇");
}

#[test]
fn header_marks() {
    assert_eq!(column_gap(), "  ");
    assert_eq!(column_gap().chars().count(), 2);
    assert_eq!(primary_key_mark(), "⚷");
}

#[test]
fn slider_vocabulary() {
    let system = DesignSystem::new();
    assert_eq!(SliderOrientation::Vertical.id(), "vertical");
    assert_eq!(RangeThumb::Start.other(), RangeThumb::End);
    assert_eq!(RangeThumb::End.id(), "end");
    assert!(!mono(&system, false));
    assert_eq!(handle_glyph(&system, false), "●");
    assert_eq!(handle_glyph(&system, true), "*");
    assert_eq!(fill_glyph(&system, true), "=");
    assert_eq!(empty_glyph(&system, false), "─");
}

#[test]
fn layout_content_inside_border_and_pad() {
    let system = DesignSystem::new();
    let s = Surface::new(&system).recipe(SurfaceRecipe::Raised).padding(1, 1);
    let parts = s.layout(Rect::new(0, 0, 20, 10));
    assert!(parts.has_border);
    assert_eq!(parts.root, Rect::new(0, 0, 20, 10));
    // border 1 + pad 1 each side → content inset by 2
    assert_eq!(parts.content, Rect::new(2, 2, 16, 6));
    assert_eq!(parts.clip, parts.content);
    assert_eq!(parts.hit, parts.root);
}

#[test]
fn inset_hit_is_content_when_not_interactive() {
    let system = DesignSystem::new();
    let s = Surface::new(&system).recipe(SurfaceRecipe::Inset).padding(1, 0);
    let parts = s.layout(Rect::new(0, 0, 10, 5));
    assert!(!parts.has_border);
    assert_eq!(parts.hit, parts.content);
    assert!(parts.contains_hit(parts.content.x, parts.content.y));
}

#[test]
fn layout_is_cheap() {
    let system = DesignSystem::new();
    let s = Surface::new(&system).recipe(SurfaceRecipe::Focused);
    let area = Rect::new(0, 0, 80, 24);
    for _ in 0..50_000 {
        let _ = s.layout(area);
    }
}

#[test]
fn surface_defaults_pad_by_card_inset_and_one_row() {
    let system = DesignSystem::new();
    let parts = Surface::new(&system).recipe(SurfaceRecipe::Raised).layout(Rect::new(4, 2, 20, 10));
    assert_eq!(parts.content, Rect::new(6, 4, 16, 6));
}

#[test]
fn surface_tiny_area_leaves_empty_content() {
    let system = DesignSystem::new();
    let parts = Surface::new(&system).recipe(SurfaceRecipe::Focused).layout(Rect::new(0, 0, 2, 1));
    assert_eq!(parts.content, Rect::new(2, 2, 0, 0));
    assert_eq!(parts.hit, Rect::new(0, 0, 2, 1));
}

#[test]
fn surface_border_override_and_hit_test() {
    let system = DesignSystem::new();
    let s = Surface::new(&system).recipe(SurfaceRecipe::Raised).bordered(false).padding(0, 0);
    let parts = s.layout(Rect::new(0, 0, 8, 4));
    assert!(!parts.has_border);
    assert_eq!(parts.content, Rect::new(0, 0, 8, 4));
    assert!(s.hit_test(Rect::new(0, 0, 8, 4), 7, 3));
    assert!(!s.hit_test(Rect::new(0, 0, 8, 4), 8, 3));
}

#[test]
fn canvas_uses_junie_canvas_fill() {
    let system = DesignSystem::junie();
    let plan = Surface::new(&system).recipe(SurfaceRecipe::Canvas).plan();
    assert_eq!(plan.fill, Some(SurfaceRole::Fixed(Role::Canvas)));
    assert!(plan.border.is_none());
}

#[test]
fn focused_uses_border_focused_role() {
    let system = DesignSystem::new();
    let focused = system.surface_recipe(SurfaceRecipe::Focused);
    let normal = system.surface_recipe(SurfaceRecipe::Interactive);
    assert_ne!(focused.border, normal.border);
    let border = focused.border.expect("focused surface has a border");
    assert_eq!(border, SurfaceRole::Fixed(Role::BorderFocused));
    assert!(focused.bold_border);
    assert_eq!(focused.family, RecipeFamily::Action);
}

#[test]
fn selected_surface_joins_collection_membership_contract() {
    let system = DesignSystem::new();
    let selected = system.surface_recipe(SurfaceRecipe::Selected);
    assert_eq!(selected.family, RecipeFamily::Collection);
    assert_eq!(selected.fill, Some(SurfaceRole::Fixed(Role::SelectionTint)));
}

#[test]
fn warning_surface_paints_a_non_color_border_cue() {
    let system = DesignSystem { glyphs: GlyphSet::Unicode, monochrome: true, card_inset: 1 };
    let plan = system.surface_recipe(SurfaceRecipe::Warning);
    assert_eq!(plan.family, RecipeFamily::Status);
    assert!(plan.bold_border && plan.border.is_some(), "warning surface is bordered");
    let painted = Surface::new(&system).recipe(SurfaceRecipe::Warning).plan();
    assert!(painted.bold_border, "warning border must remain structurally visible without hue");
}

#[test]
fn transparent_skips_fill() {
    let system = DesignSystem::new();
    let plan = Surface::new(&system).recipe(SurfaceRecipe::Raised).fill(SurfaceFill::Transparent).plan();
    assert!(plan.fill.is_none());
    assert!(plan.border.is_some());
}

#[test]
fn monochrome_avoids_chromatic_fill_soup() {
    let system = DesignSystem { glyphs: GlyphSet::Unicode, monochrome: true, card_inset: 1 };
    let plan = Surface::new(&system).recipe(SurfaceRecipe::Raised).plan();
    assert!(plan.fill.is_none());
    assert!(plan.border.is_some());
}

#[test]
fn monochrome_inset_sunken_use_canvas_not_reset() {
    let system = DesignSystem { glyphs: GlyphSet::Unicode, monochrome: true, card_inset: 1 };
    for recipe in [SurfaceRecipe::Inset, SurfaceRecipe::Sunken] {
        let plan = Surface::new(&system).recipe(recipe).plan();
        assert_eq!(plan.fill, Some(SurfaceRole::Fixed(Role::Canvas)));
        assert!(plan.fill.is_some());
    }
}

#[test]
fn overrides_shape_the_plan() {
    let system = DesignSystem::new();
    let forced = Surface::new(&system).bordered(true).fill(SurfaceFill::Transparent).padding(2, 0).plan();
    assert_eq!(forced.border, Some(SurfaceRole::Fixed(Role::Border)));
    assert!(!forced.bold_border);
    assert!(forced.fill.is_none());
    assert_eq!((forced.pad_x, forced.pad_y), (2, 0));
    let off = Surface::new(&system).recipe(SurfaceRecipe::Destructive).bordered(false).plan();
    assert!(off.border.is_none() && !off.bold_border);
    let canvas = Surface::new(&system).recipe(SurfaceRecipe::Raised).fill(SurfaceFill::TerminalDefault).plan();
    assert_eq!(canvas.fill, Some(SurfaceRole::Fixed(Role::Canvas)));
    assert_eq!(canvas.border, Some(SurfaceRole::FamilyBorder(RecipeFamily::Layout)));
}
