//! Card styling builder: elevation, surface, spacing, interaction and
//! selection classes for cards.

use vstd::prelude::*;
use crate::classlist::{assemble, assemble_fragments, push_all_parts, push_part,
    push_part_string, split_all, split_ws, str_eq, views};
use crate::classlist::{lemma_assemble_tokens, lemma_sort_dedup_member, lemma_split_all_member};
use crate::foundation::color::{Color, ColorPalette, ColorProvider};
use crate::patterns::card::{card_elevation_fragment, card_hover_elevation_fragment,
    card_selected_fragment, card_spacing_fragment, CardElevation, CardInteraction, CardSpacing,
    CardSurface};

verus! {

broadcast use vstd::seq_lib::group_seq_properties;

/// Card styling builder.
#[derive(Debug, Clone)]
pub struct CardStyles<C: ColorProvider> {
    pub elevation: CardElevation,
    pub surface: CardSurface,
    pub spacing: CardSpacing,
    pub interaction: CardInteraction,
    pub selected: bool,
    pub custom_classes: Vec<String>,
    pub color_provider: C,
}

/// The surface fragment of a card builder under a palette.
pub open spec fn card_surface_fragment(s: CardSurface, p: ColorPalette) -> Seq<char> {
    match s {
        CardSurface::Standard => "bg-"@ + p.surface@ + " text-"@ + p.text_primary@ + " border-"@
            + p.border@,
        CardSurface::Elevated => "bg-"@ + p.background@ + " text-"@ + p.text_primary@
            + " border-"@ + p.border@,
        CardSurface::Branded => "bg-gradient-to-br from-jupiter-navy-900/80 to-jupiter-blue-900/80 border-white/10 text-white"@,
        CardSurface::Glass => "bg-white/10 backdrop-blur-md border-white/20 text-white"@,
        CardSurface::Dark => "bg-gray-900 border-gray-700 text-white"@,
        CardSurface::Transparent => "bg-transparent border-transparent"@,
    }
}

/// The interaction fragment of a card builder.
pub open spec fn card_interaction_fragment(i: CardInteraction) -> Seq<char> {
    match i {
        CardInteraction::Static => ""@,
        CardInteraction::Hoverable => "hover:scale-101 hover:shadow-sm"@,
        CardInteraction::Clickable => "cursor-pointer hover:scale-105 active:scale-95 focus:outline-none focus:ring-2 focus:ring-offset-2"@,
        CardInteraction::Selectable => "cursor-pointer hover:scale-101 focus:outline-none focus:ring-2 focus:ring-offset-2"@,
        CardInteraction::Draggable => "cursor-move hover:scale-105 active:scale-95"@,
    }
}

/// All fragments of a card builder configuration, in order.
pub open spec fn card_fragments(
    elevation: CardElevation,
    surface: CardSurface,
    spacing: CardSpacing,
    interaction: CardInteraction,
    selected: bool,
    customs: Seq<Seq<char>>,
    p: ColorPalette,
) -> Seq<Seq<char>> {
    seq![
        "rounded-lg border transition-all duration-300"@,
        card_elevation_fragment(elevation),
        card_surface_fragment(surface, p),
        card_spacing_fragment(spacing),
        card_interaction_fragment(interaction),
        card_selected_fragment(selected, p),
        card_hover_elevation_fragment(interaction, elevation),
    ] + customs
}

/// The normalized class string of a card builder configuration.
pub open spec fn card_classes_spec<C: ColorProvider>(c: CardStyles<C>) -> Seq<char> {
    assemble(
        card_fragments(
            c.elevation,
            c.surface,
            c.spacing,
            c.interaction,
            c.selected,
            views(c.custom_classes@),
            c.color_provider.spec_palette(),
        ),
    )
}

/// The elevation named by a string, with `Subtle` as the fallback.
pub open spec fn card_elevation_from_str(s: Seq<char>) -> CardElevation {
    if s == "flat"@ || s == "none"@ {
        CardElevation::Flat
    } else if s == "subtle"@ || s == "low"@ {
        CardElevation::Subtle
    } else if s == "raised"@ || s == "standard"@ {
        CardElevation::Raised
    } else if s == "floating"@ || s == "high"@ {
        CardElevation::Floating
    } else if s == "modal"@ || s == "highest"@ {
        CardElevation::Modal
    } else {
        CardElevation::Subtle
    }
}

/// The surface named by a string, with `Standard` as the fallback.
pub open spec fn card_surface_from_str(s: Seq<char>) -> CardSurface {
    if s == "standard"@ || s == "white"@ {
        CardSurface::Standard
    } else if s == "elevated"@ {
        CardSurface::Elevated
    } else if s == "branded"@ || s == "theme"@ {
        CardSurface::Branded
    } else if s == "glass"@ {
        CardSurface::Glass
    } else if s == "dark"@ {
        CardSurface::Dark
    } else if s == "transparent"@ || s == "clear"@ {
        CardSurface::Transparent
    } else {
        CardSurface::Standard
    }
}

/// The spacing named by a string, with `Standard` as the fallback.
pub open spec fn card_spacing_from_str(s: Seq<char>) -> CardSpacing {
    if s == "none"@ {
        CardSpacing::Zero
    } else if s == "compact"@ || s == "sm"@ {
        CardSpacing::Compact
    } else if s == "standard"@ || s == "md"@ {
        CardSpacing::Standard
    } else if s == "comfortable"@ || s == "lg"@ {
        CardSpacing::Comfortable
    } else if s == "spacious"@ || s == "xl"@ {
        CardSpacing::Spacious
    } else {
        CardSpacing::Standard
    }
}

/// The interaction named by a string, with `Static` as the fallback.
pub open spec fn card_interaction_from_str(s: Seq<char>) -> CardInteraction {
    if s == "static"@ || s == "none"@ {
        CardInteraction::Static
    } else if s == "hoverable"@ || s == "hover"@ {
        CardInteraction::Hoverable
    } else if s == "clickable"@ || s == "click"@ {
        CardInteraction::Clickable
    } else if s == "selectable"@ || s == "select"@ {
        CardInteraction::Selectable
    } else if s == "draggable"@ || s == "drag"@ {
        CardInteraction::Draggable
    } else {
        CardInteraction::Static
    }
}

impl<C: ColorProvider> CardStyles<C> {
    /// Creates a card builder with default values.
    pub fn new(color_provider: C) -> (r: Self)
        ensures
            r.elevation == CardElevation::Subtle,
            r.surface == CardSurface::Standard,
            r.spacing == CardSpacing::Standard,
            r.interaction == CardInteraction::Static,
            !r.selected,
            r.custom_classes@.len() == 0,
            r.color_provider == color_provider,
    {
        CardStyles {
            elevation: CardElevation::Subtle,
            surface: CardSurface::Standard,
            spacing: CardSpacing::Standard,
            interaction: CardInteraction::Static,
            selected: false,
            custom_classes: Vec::new(),
            color_provider,
        }
    }

    /// Configures flat elevation.
    pub fn flat_elevation(self) -> (r: Self)
        ensures
            r == (CardStyles { elevation: CardElevation::Flat, ..self }),
    {
        CardStyles { elevation: CardElevation::Flat, ..self }
    }

    /// Configures subtle elevation.
    pub fn subtle_elevation(self) -> (r: Self)
        ensures
            r == (CardStyles { elevation: CardElevation::Subtle, ..self }),
    {
        CardStyles { elevation: CardElevation::Subtle, ..self }
    }

    /// Configures raised elevation.
    pub fn raised_elevation(self) -> (r: Self)
        ensures
            r == (CardStyles { elevation: CardElevation::Raised, ..self }),
    {
        CardStyles { elevation: CardElevation::Raised, ..self }
    }

    /// Configures floating elevation.
    pub fn floating_elevation(self) -> (r: Self)
        ensures
            r == (CardStyles { elevation: CardElevation::Floating, ..self }),
    {
        CardStyles { elevation: CardElevation::Floating, ..self }
    }

    /// Configures modal elevation.
    pub fn modal_elevation(self) -> (r: Self)
        ensures
            r == (CardStyles { elevation: CardElevation::Modal, ..self }),
    {
        CardStyles { elevation: CardElevation::Modal, ..self }
    }

    /// Configures the elevation named by a string; unrecognized names fall
    /// back to `Subtle`.
    pub fn elevation_str(self, elevation: &str) -> (r: Self)
        ensures
            r == (CardStyles { elevation: card_elevation_from_str(elevation@), ..self }),
    {
        let v = if str_eq(elevation, "flat") || str_eq(elevation, "none") {
            CardElevation::Flat
        } else if str_eq(elevation, "subtle") || str_eq(elevation, "low") {
            CardElevation::Subtle
        } else if str_eq(elevation, "raised") || str_eq(elevation, "standard") {
            CardElevation::Raised
        } else if str_eq(elevation, "floating") || str_eq(elevation, "high") {
            CardElevation::Floating
        } else if str_eq(elevation, "modal") || str_eq(elevation, "highest") {
            CardElevation::Modal
        } else {
            CardElevation::Subtle
        };
        CardStyles { elevation: v, ..self }
    }

    /// Configures the standard surface.
    pub fn standard_surface(self) -> (r: Self)
        ensures
            r == (CardStyles { surface: CardSurface::Standard, ..self }),
    {
        CardStyles { surface: CardSurface::Standard, ..self }
    }

    /// Configures the elevated surface.
    pub fn elevated_surface(self) -> (r: Self)
        ensures
            r == (CardStyles { surface: CardSurface::Elevated, ..self }),
    {
        CardStyles { surface: CardSurface::Elevated, ..self }
    }

    /// Configures the branded surface.
    pub fn branded_surface(self) -> (r: Self)
        ensures
            r == (CardStyles { surface: CardSurface::Branded, ..self }),
    {
        CardStyles { surface: CardSurface::Branded, ..self }
    }

    /// Configures the glass surface.
    pub fn glass_surface(self) -> (r: Self)
        ensures
            r == (CardStyles { surface: CardSurface::Glass, ..self }),
    {
        CardStyles { surface: CardSurface::Glass, ..self }
    }

    /// Configures the dark surface.
    pub fn dark_surface(self) -> (r: Self)
        ensures
            r == (CardStyles { surface: CardSurface::Dark, ..self }),
    {
        CardStyles { surface: CardSurface::Dark, ..self }
    }

    /// Configures the transparent surface.
    pub fn transparent_surface(self) -> (r: Self)
        ensures
            r == (CardStyles { surface: CardSurface::Transparent, ..self }),
    {
        CardStyles { surface: CardSurface::Transparent, ..self }
    }

    /// Configures the surface named by a string; unrecognized names fall
    /// back to `Standard`.
    pub fn surface_str(self, surface: &str) -> (r: Self)
        ensures
            r == (CardStyles { surface: card_surface_from_str(surface@), ..self }),
    {
        let v = if str_eq(surface, "standard") || str_eq(surface, "white") {
            CardSurface::Standard
        } else if str_eq(surface, "elevated") {
            CardSurface::Elevated
        } else if str_eq(surface, "branded") || str_eq(surface, "theme") {
            CardSurface::Branded
        } else if str_eq(surface, "glass") {
            CardSurface::Glass
        } else if str_eq(surface, "dark") {
            CardSurface::Dark
        } else if str_eq(surface, "transparent") || str_eq(surface, "clear") {
            CardSurface::Transparent
        } else {
            CardSurface::Standard
        };
        CardStyles { surface: v, ..self }
    }

    /// Removes internal padding.
    pub fn no_spacing(self) -> (r: Self)
        ensures
            r == (CardStyles { spacing: CardSpacing::Zero, ..self }),
    {
        CardStyles { spacing: CardSpacing::Zero, ..self }
    }

    /// Configures compact spacing.
    pub fn compact_spacing(self) -> (r: Self)
        ensures
            r == (CardStyles { spacing: CardSpacing::Compact, ..self }),
    {
        CardStyles { spacing: CardSpacing::Compact, ..self }
    }

    /// Configures standard spacing.
    pub fn standard_spacing(self) -> (r: Self)
        ensures
            r == (CardStyles { spacing: CardSpacing::Standard, ..self }),
    {
        CardStyles { spacing: CardSpacing::Standard, ..self }
    }

    /// Configures comfortable spacing.
    pub fn comfortable_spacing(self) -> (r: Self)
        ensures
            r == (CardStyles { spacing: CardSpacing::Comfortable, ..self }),
    {
        CardStyles { spacing: CardSpacing::Comfortable, ..self }
    }

    /// Configures spacious spacing.
    pub fn spacious_spacing(self) -> (r: Self)
        ensures
            r == (CardStyles { spacing: CardSpacing::Spacious, ..self }),
    {
        CardStyles { spacing: CardSpacing::Spacious, ..self }
    }

    /// Configures the spacing named by a string; unrecognized names fall
    /// back to `Standard`.
    pub fn spacing_str(self, spacing: &str) -> (r: Self)
        ensures
            r == (CardStyles { spacing: card_spacing_from_str(spacing@), ..self }),
    {
        let v = if str_eq(spacing, "none") {
            CardSpacing::Zero
        } else if str_eq(spacing, "compact") || str_eq(spacing, "sm") {
            CardSpacing::Compact
        } else if str_eq(spacing, "standard") || str_eq(spacing, "md") {
            CardSpacing::Standard
        } else if str_eq(spacing, "comfortable") || str_eq(spacing, "lg") {
            CardSpacing::Comfortable
        } else if str_eq(spacing, "spacious") || str_eq(spacing, "xl") {
            CardSpacing::Spacious
        } else {
            CardSpacing::Standard
        };
        CardStyles { spacing: v, ..self }
    }

    /// Configures a static card.
    pub fn static_interaction(self) -> (r: Self)
        ensures
            r == (CardStyles { interaction: CardInteraction::Static, ..self }),
    {
        CardStyles { interaction: CardInteraction::Static, ..self }
    }

    /// Configures a hoverable card.
    pub fn hoverable_interaction(self) -> (r: Self)
        ensures
            r == (CardStyles { interaction: CardInteraction::Hoverable, ..self }),
    {
        CardStyles { interaction: CardInteraction::Hoverable, ..self }
    }

    /// Configures a clickable card.
    pub fn clickable_interaction(self) -> (r: Self)
        ensures
            r == (CardStyles { interaction: CardInteraction::Clickable, ..self }),
    {
        CardStyles { interaction: CardInteraction::Clickable, ..self }
    }

    /// Configures a selectable card.
    pub fn selectable_interaction(self) -> (r: Self)
        ensures
            r == (CardStyles { interaction: CardInteraction::Selectable, ..self }),
    {
        CardStyles { interaction: CardInteraction::Selectable, ..self }
    }

    /// Configures a draggable card.
    pub fn draggable_interaction(self) -> (r: Self)
        ensures
            r == (CardStyles { interaction: CardInteraction::Draggable, ..self }),
    {
        CardStyles { interaction: CardInteraction::Draggable, ..self }
    }

    /// Configures the interaction named by a string; unrecognized names fall
    /// back to `Static`.
    pub fn interaction_str(self, interaction: &str) -> (r: Self)
        ensures
            r == (CardStyles {
                interaction: card_interaction_from_str(interaction@),
                ..self
            }),
    {
        let v = if str_eq(interaction, "static") || str_eq(interaction, "none") {
            CardInteraction::Static
        } else if str_eq(interaction, "hoverable") || str_eq(interaction, "hover") {
            CardInteraction::Hoverable
        } else if str_eq(interaction, "clickable") || str_eq(interaction, "click") {
            CardInteraction::Clickable
        } else if str_eq(interaction, "selectable") || str_eq(interaction, "select") {
            CardInteraction::Selectable
        } else if str_eq(interaction, "draggable") || str_eq(interaction, "drag") {
            CardInteraction::Draggable
        } else {
            CardInteraction::Static
        };
        CardStyles { interaction: v, ..self }
    }

    /// Configures the selected state.
    pub fn selected(self, selected: bool) -> (r: Self)
        ensures
            r == (CardStyles { selected, ..self }),
    {
        CardStyles { selected, ..self }
    }

    /// Marks the card selected.
    pub fn is_selected(self) -> (r: Self)
        ensures
            r == (CardStyles { selected: true, ..self }),
    {
        CardStyles { selected: true, ..self }
    }

    /// Appends one custom class.
    pub fn custom(self, class: &str) -> (r: Self)
        ensures
            r == (CardStyles { custom_classes: r.custom_classes, ..self }),
            views(r.custom_classes@) == views(self.custom_classes@).push(class@),
    {
        let mut c = self;
        let owned = class.to_owned();
        c.custom_classes.push(owned);
        proof {
            assert(views(c.custom_classes@) =~= views(self.custom_classes@).push(class@));
        }
        c
    }

    /// Appends each whitespace-separated class of the given string.
    pub fn custom_classes(self, classes: &str) -> (r: Self)
        ensures
            r == (CardStyles { custom_classes: r.custom_classes, ..self }),
            views(r.custom_classes@) == views(self.custom_classes@) + split_ws(classes@),
    {
        let toks = crate::classlist::split_tokens(classes);
        let mut c = self;
        crate::classlist::push_all_parts(&mut c.custom_classes, &toks);
        c
    }

    /// Appends each class of the given list.
    pub fn custom_vec(self, classes: Vec<&str>) -> (r: Self)
        ensures
            r == (CardStyles { custom_classes: r.custom_classes, ..self }),
            views(r.custom_classes@) == views(self.custom_classes@) + classes@.map_values(
                |s: &str| s@,
            ),
    {
        let mut c = self;
        let ghost base = views(c.custom_classes@);
        let ghost target = classes@.map_values(|s: &str| s@);
        let mut i: usize = 0;
        proof {
            assert(base + target.take(0) =~= base);
        }
        while i < classes.len()
            invariant
                i <= classes.len(),
                target == classes@.map_values(|s: &str| s@),
                views(c.custom_classes@) == base + target.take(i as int),
                c.elevation == self.elevation,
                c.surface == self.surface,
                c.spacing == self.spacing,
                c.interaction == self.interaction,
                c.selected == self.selected,
                c.color_provider == self.color_provider,
                base == views(self.custom_classes@),
            decreases classes.len() - i,
        {
            let ghost before = c.custom_classes@;
            let t = classes[i].to_owned();
            proof {
                assert(target[i as int] == classes@[i as int]@);
            }
            c.custom_classes.push(t);
            proof {
                assert(c.custom_classes@ == before.push(t));
                assert(views(c.custom_classes@) =~= views(before).push(t@));
                assert(views(before).push(t@) =~= base + target.take(i + 1));
            }
            i += 1;
        }
        proof {
            assert(target.take(classes@.len() as int) =~= target);
        }
        c
    }

    /// Builds the normalized class string.
    pub fn classes(self) -> (r: String)
        ensures
            r@ == card_classes_spec(self),
    {
        self.build()
    }

    /// Builds the normalized class string; `classes` and `build` agree.
    pub fn build(self) -> (r: String)
        ensures
            r@ == card_classes_spec(self),
    {
        let ghost this = self;
        let mut parts: Vec<String> = Vec::new();
        push_part(&mut parts, "rounded-lg border transition-all duration-300");
        push_part(
            &mut parts,
            match self.elevation {
                CardElevation::Flat => "shadow-none",
                CardElevation::Subtle => "shadow-sm",
                CardElevation::Raised => "shadow-md",
                CardElevation::Floating => "shadow-lg",
                CardElevation::Modal => "shadow-2xl",
            },
        );
        push_part_string(&mut parts, card_surface_string(&self.color_provider, self.surface));
        push_part(
            &mut parts,
            match self.spacing {
                CardSpacing::Zero => "p-0",
                CardSpacing::Compact => "p-3",
                CardSpacing::Standard => "p-5",
                CardSpacing::Comfortable => "p-6",
                CardSpacing::Spacious => "p-8",
            },
        );
        push_part(
            &mut parts,
            match self.interaction {
                CardInteraction::Static => "",
                CardInteraction::Hoverable => "hover:scale-101 hover:shadow-sm",
                CardInteraction::Clickable => "cursor-pointer hover:scale-105 active:scale-95 focus:outline-none focus:ring-2 focus:ring-offset-2",
                CardInteraction::Selectable => "cursor-pointer hover:scale-101 focus:outline-none focus:ring-2 focus:ring-offset-2",
                CardInteraction::Draggable => "cursor-move hover:scale-105 active:scale-95",
            },
        );
        push_part_string(
            &mut parts,
            crate::patterns::card::card_selected_string(&self.color_provider, self.selected),
        );
        push_part(
            &mut parts,
            if matches!(self.interaction, CardInteraction::Hoverable | CardInteraction::Clickable) {
                match self.elevation {
                    CardElevation::Subtle => "hover:shadow-md",
                    CardElevation::Raised => "hover:shadow-lg",
                    CardElevation::Floating => "hover:shadow-xl",
                    _ => "",
                }
            } else {
                ""
            },
        );
        push_all_parts(&mut parts, &self.custom_classes);
        proof {
            assert(views(parts@) =~= card_fragments(
                this.elevation,
                this.surface,
                this.spacing,
                this.interaction,
                this.selected,
                views(this.custom_classes@),
                this.color_provider.spec_palette(),
            ));
        }
        assemble_fragments(&parts)
    }
}

/// Builds the surface fragment of a card builder.
fn card_surface_string<C: ColorProvider>(provider: &C, surface: CardSurface) -> (r: String)
    ensures
        r@ == card_surface_fragment(surface, provider.spec_palette()),
{
    match surface {
        CardSurface::Standard => {
            let mut s = "bg-".to_owned();
            s.append(provider.resolve_color(Color::Surface));
            s.append(" text-");
            s.append(provider.resolve_color(Color::TextPrimary));
            s.append(" border-");
            s.append(provider.resolve_color(Color::Border));
            s
        },
        CardSurface::Elevated => {
            let mut s = "bg-".to_owned();
            s.append(provider.resolve_color(Color::Background));
            s.append(" text-");
            s.append(provider.resolve_color(Color::TextPrimary));
            s.append(" border-");
            s.append(provider.resolve_color(Color::Border));
            s
        },
        CardSurface::Branded => {
            "bg-gradient-to-br from-jupiter-navy-900/80 to-jupiter-blue-900/80 border-white/10 text-white".to_owned()
        },
        CardSurface::Glass => "bg-white/10 backdrop-blur-md border-white/20 text-white".to_owned(),
        CardSurface::Dark => "bg-gray-900 border-gray-700 text-white".to_owned(),
        CardSurface::Transparent => "bg-transparent border-transparent".to_owned(),
    }
}

/// Creates a card builder.
pub fn card_styles<C: ColorProvider>(color_provider: C) -> (r: CardStyles<C>)
    ensures
        r.elevation == CardElevation::Subtle,
        r.surface == CardSurface::Standard,
        r.spacing == CardSpacing::Standard,
        r.interaction == CardInteraction::Static,
        !r.selected,
        r.custom_classes@.len() == 0,
        r.color_provider == color_provider,
{
    CardStyles::new(color_provider)
}

/// Builds card classes from string-valued options in one call.
pub fn card_classes_from_strings<C: ColorProvider>(
    color_provider: C,
    surface: &str,
    elevation: &str,
    spacing: &str,
    interaction: &str,
    selected: bool,
) -> (r: String)
    ensures
        r@ == assemble(
            card_fragments(
                card_elevation_from_str(elevation@),
                card_surface_from_str(surface@),
                card_spacing_from_str(spacing@),
                card_interaction_from_str(interaction@),
                selected,
                Seq::empty(),
                color_provider.spec_palette(),
            ),
        ),
{
    let mut builder = CardStyles::new(color_provider).surface_str(surface).elevation_str(
        elevation,
    ).spacing_str(spacing).interaction_str(interaction);
    if selected {
        builder = builder.selected(true);
    }
    proof {
        assert(views(builder.custom_classes@) =~= Seq::<Seq<char>>::empty());
    }
    builder.classes()
}

/// A surface name outside the recognized set configures the `Standard`
/// surface, exactly as `standard_surface()` does.
pub proof fn lemma_card_surface_fallback(s: Seq<char>)
    requires
        s != "standard"@,
        s != "white"@,
        s != "elevated"@,
        s != "branded"@,
        s != "theme"@,
        s != "glass"@,
        s != "dark"@,
        s != "transparent"@,
        s != "clear"@,
    ensures
        card_surface_from_str(s) == CardSurface::Standard,
{
}

/// Every token of each configured fragment of a card appears among the
/// tokens of its final class string: nothing configured is lost.
pub proof fn lemma_card_tokens_present<C: ColorProvider>(c: CardStyles<C>, i: int)
    requires
        0 <= i < card_fragments(
            c.elevation,
            c.surface,
            c.spacing,
            c.interaction,
            c.selected,
            views(c.custom_classes@),
            c.color_provider.spec_palette(),
        ).len(),
    ensures
        forall|x: Seq<char>|
            #[trigger] split_ws(
                card_fragments(
                    c.elevation,
                    c.surface,
                    c.spacing,
                    c.interaction,
                    c.selected,
                    views(c.custom_classes@),
                    c.color_provider.spec_palette(),
                )[i],
            ).contains(x) ==> split_ws(card_classes_spec(c)).contains(x),
{
    let frags = card_fragments(
        c.elevation,
        c.surface,
        c.spacing,
        c.interaction,
        c.selected,
        views(c.custom_classes@),
        c.color_provider.spec_palette(),
    );
    lemma_assemble_tokens(frags);
    lemma_sort_dedup_member(split_all(frags));
    lemma_split_all_member(frags, i);
}

} // verus!
