//! Cross-cutting behavior checks: fixed tokens in output, fallback
//! equivalences, build/classes agreement, deduplication, whitespace
//! normalization, and palette derivation.

use jupiter_design_system::builders::button::ButtonStyles;
use jupiter_design_system::builders::card::CardStyles;
use jupiter_design_system::builders::selection::SelectionStyles;
use jupiter_design_system::builders::state::StateStyles;
use jupiter_design_system::builders::text::{text_clamp_style, text_styles};
use jupiter_design_system::foundation::color::{Color, ColorPalette, ColorProvider,
    WaterWellnessColors};
use jupiter_design_system::patterns::button::{primary_button, ButtonPattern};
use jupiter_design_system::patterns::card::CardPattern;
use jupiter_design_system::patterns::focus::focus_management;
use jupiter_design_system::themes::VibeColors;

fn rejoined(s: &str) -> String {
    s.split_whitespace().collect::<Vec<&str>>().join(" ")
}

#[test]
fn scenario_button_success_large_full_width_with_icon() {
    let classes = ButtonStyles::new(VibeColors::default())
        .success()
        .large()
        .full_width()
        .with_icon()
        .classes();
    assert!(classes.contains("bg-green-500"));
    assert!(classes.contains("px-6 py-3"));
    assert!(classes.contains("w-full"));
    assert!(classes.contains("space-x-2"));
    assert!(classes.contains("inline-flex"));
    assert!(classes.contains("items-center"));
    assert!(classes.contains("justify-center"));
}

#[test]
fn scenario_card_selected_ring_from_primary() {
    let classes = CardStyles::new(VibeColors::default()).selected(true).classes();
    assert!(classes.contains("ring-2"));
    // primary jupiter-blue-500 with the shade suffix swapped to -300
    assert!(classes.contains("ring-jupiter-blue-300"));
}

#[test]
fn scenario_override_primary_leaves_other_slots() {
    let colors = VibeColors::with_overrides(|mut palette: ColorPalette| {
        palette.primary = "indigo-700".to_string();
        palette
    });
    assert_eq!(colors.resolve_color(Color::Primary), "indigo-700");
    assert_eq!(colors.resolve_color(Color::Success), "green-500");
    assert_eq!(colors.resolve_color(Color::Secondary), "jupiter-green-500");
    assert_eq!(colors.resolve_color(Color::Border), "gray-200");
}

#[test]
fn unrecognized_variant_equals_default_output() {
    let unknown = ButtonStyles::new(VibeColors::default()).variant_str("zzz").classes();
    let primary = ButtonStyles::new(VibeColors::default()).primary().classes();
    assert_eq!(unknown, primary);

    let unknown_size = ButtonStyles::new(VibeColors::default()).size_str("zzz").classes();
    let medium = ButtonStyles::new(VibeColors::default()).medium().classes();
    assert_eq!(unknown_size, medium);

    let unknown_state = ButtonStyles::new(VibeColors::default()).state_str("zzz").classes();
    let default_state = ButtonStyles::new(VibeColors::default()).classes();
    assert_eq!(unknown_state, default_state);
}

#[test]
fn unrecognized_card_strings_equal_default_output() {
    let unknown = CardStyles::new(VibeColors::default())
        .surface_str("zzz")
        .elevation_str("zzz")
        .spacing_str("zzz")
        .interaction_str("zzz")
        .classes();
    let default_card = CardStyles::new(VibeColors::default()).classes();
    assert_eq!(unknown, default_card);
}

#[test]
fn classes_and_build_agree_across_builders() {
    let b = ButtonStyles::new(VibeColors::default()).warning().small().full_width();
    assert_eq!(b.clone().classes(), b.build());

    let c = CardStyles::new(VibeColors::default()).glass_surface().modal_elevation();
    assert_eq!(c.clone().classes(), c.build());

    let s = StateStyles::new(VibeColors::default()).empty().lg();
    assert_eq!(s.clone().classes(), s.build());
}

#[test]
fn duplicate_custom_token_appears_once() {
    let classes = ButtonStyles::new(VibeColors::default())
        .custom("inline-flex")
        .custom("font-medium")
        .classes();
    let tokens: Vec<&str> = classes.split_whitespace().collect();
    assert_eq!(tokens.iter().filter(|&&t| t == "inline-flex").count(), 1);
    assert_eq!(tokens.iter().filter(|&&t| t == "font-medium").count(), 1);
}

#[test]
fn output_is_whitespace_normalized_and_sorted() {
    let classes = SelectionStyles::new(VibeColors::default())
        .custom_classes("  zeta-1 \t alpha-2 \n  ")
        .container_classes();
    assert_eq!(classes, rejoined(&classes));
    assert!(!classes.starts_with(' '));
    assert!(!classes.ends_with(' '));
    let tokens: Vec<&str> = classes.split_whitespace().collect();
    let mut sorted = tokens.clone();
    sorted.sort();
    assert_eq!(tokens, sorted);
}

#[test]
fn irregular_custom_whitespace_is_flattened() {
    let classes = StateStyles::new(VibeColors::default())
        .custom_classes("a-1   b-2\tc-3")
        .classes();
    assert!(classes.contains("a-1"));
    assert!(classes.contains("b-2"));
    assert!(classes.contains("c-3"));
    assert_eq!(classes, rejoined(&classes));
}

#[test]
fn clamp_style_formats_line_counts() {
    assert_eq!(
        text_clamp_style(Some(3)),
        "display: -webkit-box; -webkit-line-clamp: 3; -webkit-box-orient: vertical; overflow: hidden;"
    );
    assert_eq!(
        text_clamp_style(Some(105)),
        "display: -webkit-box; -webkit-line-clamp: 105; -webkit-box-orient: vertical; overflow: hidden;"
    );
    assert_eq!(text_clamp_style(None), "");
}

#[test]
fn focus_ring_derives_from_palette() {
    let classes = focus_management(VibeColors::default()).button().classes();
    assert!(classes.contains("focus:outline-none"));
    assert!(classes.contains("focus:ring-2"));
    assert!(classes.contains("focus:ring-jupiter-blue-300"));
}

#[test]
fn button_pattern_composes_action_and_focus() {
    let classes = primary_button(VibeColors::default()).classes();
    assert!(classes.contains("bg-jupiter-blue-500"));
    assert!(classes.contains("text-white"));
    assert!(classes.contains("shadow-md"));
    assert!(classes.contains("cursor-pointer"));
    assert!(classes.contains("focus:ring-jupiter-blue-300"));
}

#[test]
fn button_pattern_accessibility_attributes() {
    let pattern = ButtonPattern::new(VibeColors::default()).disabled(true).selected(true);
    let attrs = pattern.accessibility_attributes();
    assert!(attrs.contains(&("tabindex", "0".to_string())));
    assert!(attrs.contains(&("role", "button".to_string())));
    assert!(attrs.contains(&("aria-disabled", "true".to_string())));
    assert!(attrs.contains(&("aria-pressed", "true".to_string())));

    let info = pattern.semantic_info();
    assert!(info.is_disabled);
    assert!(info.is_selected);
    assert!(!info.is_primary);
}

#[test]
fn card_pattern_selected_and_roles() {
    let pattern = CardPattern::new(VibeColors::default()).clickable_interaction().selected(true);
    let attrs = pattern.accessibility_attributes();
    assert!(attrs.contains(&("aria-selected", "true".to_string())));
    assert!(attrs.contains(&("role", "button".to_string())));
    let classes = pattern.classes();
    assert!(classes.contains("ring-jupiter-blue-300"));
    assert!(classes.contains("cursor-pointer"));
}

#[test]
fn wellness_palette_deep_semantic_shades() {
    let colors = WaterWellnessColors::default();
    assert_eq!(colors.resolve_color(Color::Success), "green-600");
    assert_eq!(colors.resolve_color(Color::Primary), "water-blue-500");
    let text = text_styles(colors).body().success().classes();
    assert!(text.contains("text-green-600"));
}

#[test]
fn ring_derivation_swaps_shade_on_custom_palette() {
    let colors = VibeColors::with_overrides(|mut palette: ColorPalette| {
        palette.primary = "teal-500".to_string();
        palette
    });
    let classes = CardStyles::new(colors).selected(true).classes();
    assert!(classes.contains("ring-teal-300"));
}

#[test]
fn ring_derivation_keeps_primary_without_shade() {
    let colors = VibeColors::with_overrides(|mut palette: ColorPalette| {
        palette.primary = "black".to_string();
        palette
    });
    let classes = CardStyles::new(colors).selected(true).classes();
    assert!(classes.contains("ring-black"));
}

#[test]
fn clamp_style_formats_zero_lines() {
    let styles = text_styles(VibeColors::default()).body().clamp_lines(0);
    assert!(styles.clamp_style().contains("-webkit-line-clamp: 0;"));
}

#[test]
fn empty_builder_output_is_empty_not_padded() {
    // A layout with no divider, no spacing, no direction and no alignment
    // yields an empty class string, with no stray whitespace.
    let classes = jupiter_design_system::builders::layout::LayoutStyles::new(
        VibeColors::default(),
    ).spacing_none().classes();
    assert_eq!(classes, "");
}
