//! Card pattern: containers with elevation, surface treatment, spacing,
//! interactivity and selection.

use vstd::prelude::*;
use crate::classlist::{assemble, assemble_fragments, push_all_parts, push_part,
    push_part_string, views};
use crate::foundation::color::{primary_ring_string, primary_ring_token, Color, ColorPalette,
    ColorProvider};
use crate::patterns::focus::{attr_views, focus_attr_views, focus_classes_spec, FocusBehavior,
    FocusManagement, KeyboardPattern, ScreenReaderPattern};
use crate::patterns::interactions::{interactive_classes_spec, InteractionIntensity,
    InteractiveElement, InteractiveState};

verus! {

broadcast use vstd::seq_lib::group_seq_properties;

/// Card elevation levels.
#[derive(Debug, Clone, Copy, PartialEq, Eq, Hash, Structural)]
pub enum CardElevation {
    Flat,
    Subtle,
    Raised,
    Floating,
    Modal,
}

/// Card surface treatments.
#[derive(Debug, Clone, Copy, PartialEq, Eq, Hash, Structural)]
pub enum CardSurface {
    Standard,
    Elevated,
    Branded,
    Glass,
    Dark,
    Transparent,
}

/// Card internal spacing.
#[derive(Debug, Clone, Copy, PartialEq, Eq, Hash, Structural)]
pub enum CardSpacing {
    Zero,
    Compact,
    Standard,
    Comfortable,
    Spacious,
}

/// Card interaction behaviors.
#[derive(Debug, Clone, Copy, PartialEq, Eq, Hash, Structural)]
pub enum CardInteraction {
    Static,
    Hoverable,
    Clickable,
    Selectable,
    Draggable,
}

/// The shadow fragment of a card elevation.
pub open spec fn card_elevation_fragment(e: CardElevation) -> Seq<char> {
    match e {
        CardElevation::Flat => "shadow-none"@,
        CardElevation::Subtle => "shadow-sm"@,
        CardElevation::Raised => "shadow-md"@,
        CardElevation::Floating => "shadow-lg"@,
        CardElevation::Modal => "shadow-2xl"@,
    }
}

/// The padding fragment of a card spacing.
pub open spec fn card_spacing_fragment(s: CardSpacing) -> Seq<char> {
    match s {
        CardSpacing::Zero => "p-0"@,
        CardSpacing::Compact => "p-3"@,
        CardSpacing::Standard => "p-5"@,
        CardSpacing::Comfortable => "p-6"@,
        CardSpacing::Spacious => "p-8"@,
    }
}

/// The surface fragment of a card pattern under a palette.
pub open spec fn card_pattern_surface_fragment(s: CardSurface, p: ColorPalette) -> Seq<char> {
    match s {
        CardSurface::Standard => "bg-"@ + p.surface@ + " text-"@ + p.text_primary@ + " border-"@
            + p.border@,
        CardSurface::Elevated => "bg-"@ + p.background@ + " text-"@ + p.text_primary@
            + " border-"@ + p.border@,
        CardSurface::Branded => "bg-gradient-to-br from-water-navy-900/80 to-water-blue-900/80 border-white/10 text-white"@,
        CardSurface::Glass => "bg-white/10 backdrop-blur-md border-white/20 text-white"@,
        CardSurface::Dark => "bg-gray-900 border-gray-700 text-white"@,
        CardSurface::Transparent => "bg-transparent border-transparent"@,
    }
}

/// The selection ring fragment of a card.
pub open spec fn card_selected_fragment(selected: bool, p: ColorPalette) -> Seq<char> {
    if selected {
        "ring-2 ring-offset-2 ring-"@ + primary_ring_token(p)
    } else {
        ""@
    }
}

/// The hover elevation fragment of interactive cards.
pub open spec fn card_hover_elevation_fragment(
    interaction: CardInteraction,
    elevation: CardElevation,
) -> Seq<char> {
    if interaction == CardInteraction::Hoverable || interaction == CardInteraction::Clickable {
        match elevation {
            CardElevation::Subtle => "hover:shadow-md"@,
            CardElevation::Raised => "hover:shadow-lg"@,
            CardElevation::Floating => "hover:shadow-xl"@,
            _ => ""@,
        }
    } else {
        ""@
    }
}

/// Card pattern configuration.
#[derive(Debug, Clone)]
pub struct CardPattern<C: ColorProvider + Clone> {
    pub elevation: CardElevation,
    pub surface: CardSurface,
    pub spacing: CardSpacing,
    pub interaction: CardInteraction,
    pub selected: bool,
    pub interactive_element: InteractiveElement<C>,
    pub focus_management: FocusManagement<C>,
    pub custom_classes: Vec<String>,
    pub color_provider: C,
}

/// The normalized class string of a card pattern.
pub open spec fn card_pattern_classes_spec<C: ColorProvider + Clone>(c: CardPattern<C>) -> Seq<
    char,
> {
    assemble(
        seq![
            "rounded-lg border transition-all duration-300"@,
            card_elevation_fragment(c.elevation),
            card_pattern_surface_fragment(c.surface, c.color_provider.spec_palette()),
            card_spacing_fragment(c.spacing),
            interactive_classes_spec(c.interactive_element),
            focus_classes_spec(c.focus_management),
            card_selected_fragment(c.selected, c.color_provider.spec_palette()),
            card_hover_elevation_fragment(c.interaction, c.elevation),
        ] + views(c.custom_classes@),
    )
}

/// Semantic information about a card pattern.
#[derive(Debug, Clone)]
pub struct CardSemanticInfo {
    pub elevation: CardElevation,
    pub surface: CardSurface,
    pub spacing: CardSpacing,
    pub interaction: CardInteraction,
    pub is_selected: bool,
    pub is_interactive: bool,
}

/// Builds the surface fragment of a card pattern.
pub(crate) fn card_pattern_surface_string<C: ColorProvider>(
    provider: &C,
    surface: CardSurface,
) -> (r: String)
    ensures
        r@ == card_pattern_surface_fragment(surface, provider.spec_palette()),
{
    match surface {
        CardSurface::Standard => {
            let mut s = "bg-".to_owned();
            s.append(provider.resolve_color(Color::Surface));
            s.append(" text-");
            s.append(provider.resolve_color(Color::TextPrimary));
            s.append(" border-");
            s.append(provider.resolve_color(Color::Border));
            s
        },
        CardSurface::Elevated => {
            let mut s = "bg-".to_owned();
            s.append(provider.resolve_color(Color::Background));
            s.append(" text-");
            s.append(provider.resolve_color(Color::TextPrimary));
            s.append(" border-");
            s.append(provider.resolve_color(Color::Border));
            s
        },
        CardSurface::Branded => {
            "bg-gradient-to-br from-water-navy-900/80 to-water-blue-900/80 border-white/10 text-white".to_owned()
        },
        CardSurface::Glass => "bg-white/10 backdrop-blur-md border-white/20 text-white".to_owned(),
        CardSurface::Dark => "bg-gray-900 border-gray-700 text-white".to_owned(),
        CardSurface::Transparent => "bg-transparent border-transparent".to_owned(),
    }
}

/// Builds the selection ring fragment.
pub(crate) fn card_selected_string<C: ColorProvider>(provider: &C, selected: bool) -> (r: String)
    ensures
        r@ == card_selected_fragment(selected, provider.spec_palette()),
{
    if selected {
        let mut s = "ring-2 ring-offset-2 ring-".to_owned();
        let ring = primary_ring_string(provider.resolve_color(Color::Primary));
        s.append(ring.as_str());
        s
    } else {
        "".to_owned()
    }
}

impl<C: ColorProvider + Clone> CardPattern<C> {
    /// Creates a card pattern with sensible defaults.
    pub fn new(color_provider: C) -> (r: Self)
        ensures
            r.elevation == CardElevation::Subtle,
            r.surface == CardSurface::Standard,
            r.spacing == CardSpacing::Standard,
            r.interaction == CardInteraction::Static,
            !r.selected,
            r.interactive_element.state == InteractiveState::Default,
            !r.interactive_element.is_hoverable,
            !r.interactive_element.is_focusable,
            !r.interactive_element.is_pressable,
            r.interactive_element.interaction_intensity == InteractionIntensity::Standard,
            r.interactive_element.custom_classes@.len() == 0,
            r.interactive_element.color_provider.spec_palette() == color_provider.spec_palette(),
            r.focus_management.focus_behavior == FocusBehavior::Standard,
            r.focus_management.keyboard_pattern is None,
            r.focus_management.screen_reader_pattern is None,
            r.focus_management.is_focusable,
            r.focus_management.tab_index is None,
            r.focus_management.custom_classes@.len() == 0,
            r.focus_management.color_provider.spec_palette() == color_provider.spec_palette(),
            r.custom_classes@.len() == 0,
            r.color_provider == color_provider,
    {
        let interactive = InteractiveElement::new(color_provider.clone_provider());
        let focus = FocusManagement::new(color_provider.clone_provider());
        CardPattern {
            elevation: CardElevation::Subtle,
            surface: CardSurface::Standard,
            spacing: CardSpacing::Standard,
            interaction: CardInteraction::Static,
            selected: false,
            interactive_element: interactive,
            focus_management: focus,
            custom_classes: Vec::new(),
            color_provider,
        }
    }

    /// Configures flat elevation.
    pub fn flat_elevation(self) -> (r: Self)
        ensures
            r == (CardPattern { elevation: CardElevation::Flat, ..self }),
    {
        CardPattern { elevation: CardElevation::Flat, ..self }
    }

    /// Configures subtle elevation.
    pub fn subtle_elevation(self) -> (r: Self)
        ensures
            r == (CardPattern { elevation: CardElevation::Subtle, ..self }),
    {
        CardPattern { elevation: CardElevation::Subtle, ..self }
    }

    /// Configures raised elevation.
    pub fn raised_elevation(self) -> (r: Self)
        ensures
            r == (CardPattern { elevation: CardElevation::Raised, ..self }),
    {
        CardPattern { elevation: CardElevation::Raised, ..self }
    }

    /// Configures floating elevation.
    pub fn floating_elevation(self) -> (r: Self)
        ensures
            r == (CardPattern { elevation: CardElevation::Floating, ..self }),
    {
        CardPattern { elevation: CardElevation::Floating, ..self }
    }

    /// Configures modal elevation.
    pub fn modal_elevation(self) -> (r: Self)
        ensures
            r == (CardPattern { elevation: CardElevation::Modal, ..self }),
    {
        CardPattern { elevation: CardElevation::Modal, ..self }
    }

    /// Configures the standard surface.
    pub fn standard_surface(self) -> (r: Self)
        ensures
            r == (CardPattern { surface: CardSurface::Standard, ..self }),
    {
        CardPattern { surface: CardSurface::Standard, ..self }
    }

    /// Configures the elevated surface.
    pub fn elevated_surface(self) -> (r: Self)
        ensures
            r == (CardPattern { surface: CardSurface::Elevated, ..self }),
    {
        CardPattern { surface: CardSurface::Elevated, ..self }
    }

    /// Configures the branded surface.
    pub fn branded_surface(self) -> (r: Self)
        ensures
            r == (CardPattern { surface: CardSurface::Branded, ..self }),
    {
        CardPattern { surface: CardSurface::Branded, ..self }
    }

    /// Configures the glass surface.
    pub fn glass_surface(self) -> (r: Self)
        ensures
            r == (CardPattern { surface: CardSurface::Glass, ..self }),
    {
        CardPattern { surface: CardSurface::Glass, ..self }
    }

    /// Configures the dark surface.
    pub fn dark_surface(self) -> (r: Self)
        ensures
            r == (CardPattern { surface: CardSurface::Dark, ..self }),
    {
        CardPattern { surface: CardSurface::Dark, ..self }
    }

    /// Configures the transparent surface.
    pub fn transparent_surface(self) -> (r: Self)
        ensures
            r == (CardPattern { surface: CardSurface::Transparent, ..self }),
    {
        CardPattern { surface: CardSurface::Transparent, ..self }
    }

    /// Removes internal padding.
    pub fn no_spacing(self) -> (r: Self)
        ensures
            r == (CardPattern { spacing: CardSpacing::Zero, ..self }),
    {
        CardPattern { spacing: CardSpacing::Zero, ..self }
    }

    /// Configures compact spacing.
    pub fn compact_spacing(self) -> (r: Self)
        ensures
            r == (CardPattern { spacing: CardSpacing::Compact, ..self }),
    {
        CardPattern { spacing: CardSpacing::Compact, ..self }
    }

    /// Configures standard spacing.
    pub fn standard_spacing(self) -> (r: Self)
        ensures
            r == (CardPattern { spacing: CardSpacing::Standard, ..self }),
    {
        CardPattern { spacing: CardSpacing::Standard, ..self }
    }

    /// Configures comfortable spacing.
    pub fn comfortable_spacing(self) -> (r: Self)
        ensures
            r == (CardPattern { spacing: CardSpacing::Comfortable, ..self }),
    {
        CardPattern { spacing: CardSpacing::Comfortable, ..self }
    }

    /// Configures spacious spacing.
    pub fn spacious_spacing(self) -> (r: Self)
        ensures
            r == (CardPattern { spacing: CardSpacing::Spacious, ..self }),
    {
        CardPattern { spacing: CardSpacing::Spacious, ..self }
    }

    /// Configures a static card with no interactions.
    pub fn static_interaction(self) -> (r: Self)
        ensures
            r == (CardPattern {
                interaction: CardInteraction::Static,
                interactive_element: r.interactive_element,
                ..self
            }),
            r.interactive_element.state == InteractiveState::Default,
            !r.interactive_element.is_hoverable,
            !r.interactive_element.is_focusable,
            !r.interactive_element.is_pressable,
            r.interactive_element.interaction_intensity == InteractionIntensity::Standard,
            r.interactive_element.custom_classes@.len() == 0,
            r.interactive_element.color_provider.spec_palette()
                == self.color_provider.spec_palette(),
    {
        let interactive = InteractiveElement::new(self.color_provider.clone_provider());
        CardPattern {
            interaction: CardInteraction::Static,
            interactive_element: interactive,
            ..self
        }
    }

    /// Configures a hoverable card.
    pub fn hoverable_interaction(self) -> (r: Self)
        ensures
            r == (CardPattern {
                interaction: CardInteraction::Hoverable,
                interactive_element: r.interactive_element,
                ..self
            }),
            r.interactive_element.state == InteractiveState::Default,
            r.interactive_element.is_hoverable,
            !r.interactive_element.is_focusable,
            !r.interactive_element.is_pressable,
            r.interactive_element.interaction_intensity == InteractionIntensity::Gentle,
            r.interactive_element.custom_classes@.len() == 0,
            r.interactive_element.color_provider.spec_palette()
                == self.color_provider.spec_palette(),
    {
        let interactive = InteractiveElement::new(
            self.color_provider.clone_provider(),
        ).hoverable().gentle_interaction();
        CardPattern {
            interaction: CardInteraction::Hoverable,
            interactive_element: interactive,
            ..self
        }
    }

    /// Configures a clickable card with button-like focus.
    pub fn clickable_interaction(self) -> (r: Self)
        ensures
            r == (CardPattern {
                interaction: CardInteraction::Clickable,
                interactive_element: r.interactive_element,
                focus_management: r.focus_management,
                ..self
            }),
            r.interactive_element.state == InteractiveState::Default,
            r.interactive_element.is_hoverable,
            r.interactive_element.is_focusable,
            r.interactive_element.is_pressable,
            r.interactive_element.interaction_intensity == InteractionIntensity::Standard,
            r.interactive_element.custom_classes@.len() == 0,
            r.interactive_element.color_provider.spec_palette()
                == self.color_provider.spec_palette(),
            r.focus_management == (FocusManagement {
                keyboard_pattern: Option::Some(KeyboardPattern::Button),
                screen_reader_pattern: Option::Some(ScreenReaderPattern::Button),
                focus_behavior: FocusBehavior::Standard,
                ..self.focus_management
            }),
    {
        let interactive = InteractiveElement::new(
            self.color_provider.clone_provider(),
        ).hoverable().focusable().pressable().standard_interaction();
        CardPattern {
            interaction: CardInteraction::Clickable,
            interactive_element: interactive,
            focus_management: self.focus_management.button(),
            ..self
        }
    }

    /// Configures a selectable card with toggle focus.
    pub fn selectable_interaction(self) -> (r: Self)
        ensures
            r == (CardPattern {
                interaction: CardInteraction::Selectable,
                interactive_element: r.interactive_element,
                focus_management: r.focus_management,
                ..self
            }),
            r.interactive_element.state == InteractiveState::Default,
            r.interactive_element.is_hoverable,
            r.interactive_element.is_focusable,
            r.interactive_element.is_pressable,
            r.interactive_element.interaction_intensity == InteractionIntensity::Gentle,
            r.interactive_element.custom_classes@.len() == 0,
            r.interactive_element.color_provider.spec_palette()
                == self.color_provider.spec_palette(),
            r.focus_management == (FocusManagement {
                keyboard_pattern: Option::Some(KeyboardPattern::Toggle),
                screen_reader_pattern: Option::Some(ScreenReaderPattern::ToggleButton),
                focus_behavior: FocusBehavior::Standard,
                ..self.focus_management
            }),
    {
        let interactive = InteractiveElement::new(
            self.color_provider.clone_provider(),
        ).hoverable().focusable().pressable().gentle_interaction();
        CardPattern {
            interaction: CardInteraction::Selectable,
            interactive_element: interactive,
            focus_management: self.focus_management.toggle(),
            ..self
        }
    }

    /// Configures a draggable card.
    pub fn draggable_interaction(self) -> (r: Self)
        ensures
            r == (CardPattern {
                interaction: CardInteraction::Draggable,
                interactive_element: r.interactive_element,
                ..self
            }),
            r.interactive_element.state == InteractiveState::Default,
            r.interactive_element.is_hoverable,
            r.interactive_element.is_focusable,
            !r.interactive_element.is_pressable,
            r.interactive_element.interaction_intensity == InteractionIntensity::Standard,
            r.interactive_element.custom_classes@.len() == 0,
            r.interactive_element.color_provider.spec_palette()
                == self.color_provider.spec_palette(),
    {
        let interactive = InteractiveElement::new(
            self.color_provider.clone_provider(),
        ).hoverable().focusable().standard_interaction();
        CardPattern {
            interaction: CardInteraction::Draggable,
            interactive_element: interactive,
            ..self
        }
    }

    /// Configures the selected state.
    pub fn selected(self, selected: bool) -> (r: Self)
        ensures
            r == (CardPattern { selected, ..self }),
    {
        CardPattern { selected, ..self }
    }

    /// Configures the hover state.
    pub fn hover(self) -> (r: Self)
        ensures
            r == (CardPattern { interactive_element: r.interactive_element, ..self }),
            r.interactive_element == (InteractiveElement {
                state: InteractiveState::Hover,
                ..self.interactive_element
            }),
    {
        CardPattern { interactive_element: self.interactive_element.hover(), ..self }
    }

    /// Configures the active state.
    pub fn active(self) -> (r: Self)
        ensures
            r == (CardPattern { interactive_element: r.interactive_element, ..self }),
            r.interactive_element == (InteractiveElement {
                state: InteractiveState::Active,
                ..self.interactive_element
            }),
    {
        CardPattern { interactive_element: self.interactive_element.active(), ..self }
    }

    /// Configures the focused state.
    pub fn focused(self) -> (r: Self)
        ensures
            r == (CardPattern { interactive_element: r.interactive_element, ..self }),
            r.interactive_element == (InteractiveElement {
                state: InteractiveState::Focused,
                ..self.interactive_element
            }),
    {
        CardPattern { interactive_element: self.interactive_element.focused(), ..self }
    }

    /// Appends a custom class string.
    pub fn custom(self, classes: &str) -> (r: Self)
        ensures
            r == (CardPattern { custom_classes: r.custom_classes, ..self }),
            views(r.custom_classes@) == views(self.custom_classes@).push(classes@),
    {
        let mut c = self;
        let owned = classes.to_owned();
        c.custom_classes.push(owned);
        proof {
            assert(views(c.custom_classes@) =~= views(self.custom_classes@).push(classes@));
        }
        c
    }

    /// Builds the complete normalized class string.
    pub fn classes(self) -> (r: String)
        ensures
            r@ == card_pattern_classes_spec(self),
    {
        let ghost this = self;
        let mut parts: Vec<String> = Vec::new();
        push_part(&mut parts, "rounded-lg border transition-all duration-300");
        push_part(
            &mut parts,
            match self.elevation {
                CardElevation::Flat => "shadow-none",
                CardElevation::Subtle => "shadow-sm",
                CardElevation::Raised => "shadow-md",
                CardElevation::Floating => "shadow-lg",
                CardElevation::Modal => "shadow-2xl",
            },
        );
        push_part_string(&mut parts, card_pattern_surface_string(&self.color_provider, self.surface));
        push_part(
            &mut parts,
            match self.spacing {
                CardSpacing::Zero => "p-0",
                CardSpacing::Compact => "p-3",
                CardSpacing::Standard => "p-5",
                CardSpacing::Comfortable => "p-6",
                CardSpacing::Spacious => "p-8",
            },
        );
        push_part_string(&mut parts, self.interactive_element.classes());
        push_part_string(&mut parts, self.focus_management.classes());
        push_part_string(&mut parts, card_selected_string(&self.color_provider, self.selected));
        push_part(
            &mut parts,
            if matches!(self.interaction, CardInteraction::Hoverable | CardInteraction::Clickable) {
                match self.elevation {
                    CardElevation::Subtle => "hover:shadow-md",
                    CardElevation::Raised => "hover:shadow-lg",
                    CardElevation::Floating => "hover:shadow-xl",
                    _ => "",
                }
            } else {
                ""
            },
        );
        push_all_parts(&mut parts, &self.custom_classes);
        proof {
            assert(views(parts@) =~= seq![
                "rounded-lg border transition-all duration-300"@,
                card_elevation_fragment(this.elevation),
                card_pattern_surface_fragment(this.surface, this.color_provider.spec_palette()),
                card_spacing_fragment(this.spacing),
                interactive_classes_spec(this.interactive_element),
                focus_classes_spec(this.focus_management),
                card_selected_fragment(this.selected, this.color_provider.spec_palette()),
                card_hover_elevation_fragment(this.interaction, this.elevation),
            ] + views(this.custom_classes@));
        }
        assemble_fragments(&parts)
    }

    /// The accessibility attributes: the focus attributes followed by a
    /// selection attribute and an interaction role.
    pub fn accessibility_attributes(&self) -> (r: Vec<(&'static str, String)>)
        ensures
            attr_views(r@) == focus_attr_views(
                self.focus_management.is_focusable,
                self.focus_management.tab_index,
                self.focus_management.screen_reader_pattern,
            ) + (if self.selected {
                seq![("aria-selected"@, "true"@)]
            } else {
                Seq::empty()
            }) + (if self.interaction == CardInteraction::Clickable {
                seq![("role"@, "button"@)]
            } else if self.interaction == CardInteraction::Selectable {
                seq![("role"@, "option"@)]
            } else {
                Seq::empty()
            }),
    {
        let mut attrs = self.focus_management.data_attributes();
        if self.selected {
            attrs.push(("aria-selected", "true".to_owned()));
        }
        match self.interaction {
            CardInteraction::Clickable => {
                attrs.push(("role", "button".to_owned()));
            },
            CardInteraction::Selectable => {
                attrs.push(("role", "option".to_owned()));
            },
            _ => {},
        }
        proof {
            assert(attr_views(attrs@) =~= focus_attr_views(
                self.focus_management.is_focusable,
                self.focus_management.tab_index,
                self.focus_management.screen_reader_pattern,
            ) + (if self.selected {
                seq![("aria-selected"@, "true"@)]
            } else {
                Seq::<(Seq<char>, Seq<char>)>::empty()
            }) + (if self.interaction == CardInteraction::Clickable {
                seq![("role"@, "button"@)]
            } else if self.interaction == CardInteraction::Selectable {
                seq![("role"@, "option"@)]
            } else {
                Seq::<(Seq<char>, Seq<char>)>::empty()
            }));
        }
        attrs
    }

    /// A snapshot of the semantic configuration of this card.
    pub fn semantic_info(&self) -> (r: CardSemanticInfo)
        ensures
            r.elevation == self.elevation,
            r.surface == self.surface,
            r.spacing == self.spacing,
            r.interaction == self.interaction,
            r.is_selected == self.selected,
            r.is_interactive == (self.interaction != CardInteraction::Static),
    {
        CardSemanticInfo {
            elevation: self.elevation,
            surface: self.surface,
            spacing: self.spacing,
            interaction: self.interaction,
            is_selected: self.selected,
            is_interactive: !matches!(self.interaction, CardInteraction::Static),
        }
    }
}

/// Creates a card pattern.
pub fn card_pattern<C: ColorProvider + Clone>(color_provider: C) -> (r: CardPattern<C>)
    ensures
        r.elevation == CardElevation::Subtle,
        r.surface == CardSurface::Standard,
        r.spacing == CardSpacing::Standard,
        r.interaction == CardInteraction::Static,
        !r.selected,
{
    CardPattern::new(color_provider)
}

/// Creates a standard content card.
pub fn content_card<C: ColorProvider + Clone>(color_provider: C) -> (r: CardPattern<C>)
    ensures
        r.elevation == CardElevation::Raised,
        r.surface == CardSurface::Standard,
        r.spacing == CardSpacing::Standard,
        r.interaction == CardInteraction::Static,
        !r.selected,
{
    CardPattern::new(
        color_provider,
    ).standard_surface().raised_elevation().standard_spacing().static_interaction()
}

/// Creates an interactive card.
pub fn interactive_card<C: ColorProvider + Clone>(color_provider: C) -> (r: CardPattern<C>)
    ensures
        r.elevation == CardElevation::Floating,
        r.surface == CardSurface::Elevated,
        r.spacing == CardSpacing::Comfortable,
        r.interaction == CardInteraction::Clickable,
        !r.selected,
{
    CardPattern::new(
        color_provider,
    ).elevated_surface().floating_elevation().clickable_interaction().comfortable_spacing()
}

/// Creates a hero card.
pub fn hero_card<C: ColorProvider + Clone>(color_provider: C) -> (r: CardPattern<C>)
    ensures
        r.elevation == CardElevation::Modal,
        r.surface == CardSurface::Branded,
        r.spacing == CardSpacing::Spacious,
        r.interaction == CardInteraction::Hoverable,
        !r.selected,
{
    CardPattern::new(
        color_provider,
    ).branded_surface().modal_elevation().spacious_spacing().hoverable_interaction()
}

/// Creates a glass morphism card.
pub fn glass_card<C: ColorProvider + Clone>(color_provider: C) -> (r: CardPattern<C>)
    ensures
        r.elevation == CardElevation::Floating,
        r.surface == CardSurface::Glass,
        r.spacing == CardSpacing::Standard,
        r.interaction == CardInteraction::Hoverable,
        !r.selected,
{
    CardPattern::new(
        color_provider,
    ).glass_surface().floating_elevation().hoverable_interaction().standard_spacing()
}

/// Creates a minimal card.
pub fn minimal_card<C: ColorProvider + Clone>(color_provider: C) -> (r: CardPattern<C>)
    ensures
        r.elevation == CardElevation::Flat,
        r.surface == CardSurface::Standard,
        r.spacing == CardSpacing::Compact,
        r.interaction == CardInteraction::Static,
        !r.selected,
{
    CardPattern::new(
        color_provider,
    ).standard_surface().flat_elevation().compact_spacing().static_interaction()
}

} // verus!
