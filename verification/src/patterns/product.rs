//! Product patterns: e-commerce display, availability and commerce
//! behaviors for product components.

use vstd::prelude::*;
use crate::classlist::{assemble, assemble_fragments, push_part, push_part_string, views};
use crate::foundation::color::{Color, ColorPalette, ColorProvider};

verus! {

broadcast use vstd::seq_lib::group_seq_properties;

/// Product display patterns.
#[derive(Debug, Clone, Copy, PartialEq, Eq, Hash, Structural)]
pub enum ProductDisplayPattern {
    ListItem,
    Featured,
    Tile,
    Showcase,
    Preview,
}

/// Product interaction states.
#[derive(Debug, Clone, Copy, PartialEq, Eq, Hash, Structural)]
pub enum ProductInteractionState {
    Default,
    Focused,
    Selected,
    Loading,
    Disabled,
}

/// Product availability states.
#[derive(Debug, Clone, Copy, PartialEq, Eq, Hash, Structural)]
pub enum ProductAvailabilityState {
    Available,
    OutOfStock,
    Backorder,
    Discontinued,
    Limited,
}

/// Product prominence levels.
#[derive(Debug, Clone, Copy, PartialEq, Eq, Hash, Structural)]
pub enum ProductProminence {
    Subtle,
    Standard,
    Prominent,
    Hero,
}

/// Product image display patterns.
#[derive(Debug, Clone, Copy, PartialEq, Eq, Hash, Structural)]
pub enum ProductImagePattern {
    Standard,
    Square,
    Wide,
    Portrait,
    Circle,
}

/// Product badges.
#[derive(Debug, Clone, PartialEq, Eq, Hash)]
pub enum ProductBadgeType {
    Sale,
    New,
    Featured,
    BestSeller,
    Limited,
    OutOfStock,
    Custom(String),
}

/// Product actions.
#[derive(Debug, Clone, Copy, PartialEq, Eq, Hash, Structural)]
pub enum ProductActionType {
    AddToCart,
    QuickView,
    Compare,
    Wishlist,
    Share,
    ViewDetails,
}

/// Product information sections.
#[derive(Debug, Clone, Copy, PartialEq, Eq, Hash, Structural)]
pub enum ProductInfoSection {
    Basic,
    Extended,
    Detailed,
    Minimal,
}

/// Product price display patterns.
#[derive(Debug, Clone, Copy, PartialEq, Eq, Hash, Structural)]
pub enum ProductPricePattern {
    Standard,
    WithCompare,
    Range,
    WithDiscount,
    OnSale,
}

/// Product variant display patterns.
#[derive(Debug, Clone, Copy, PartialEq, Eq, Hash, Structural)]
pub enum ProductVariantPattern {
    Dropdown,
    Buttons,
    Swatches,
    List,
    Radio,
}

/// The display fragment of a product card.
pub open spec fn product_display_fragment(d: ProductDisplayPattern) -> Seq<char> {
    match d {
        ProductDisplayPattern::ListItem => "product-card--list"@,
        ProductDisplayPattern::Featured => "product-card--featured"@,
        ProductDisplayPattern::Tile => "product-card--tile"@,
        ProductDisplayPattern::Showcase => "product-card--showcase"@,
        ProductDisplayPattern::Preview => "product-card--preview"@,
    }
}

/// The interaction state fragment of a product card.
pub open spec fn product_state_fragment(s: ProductInteractionState) -> Seq<char> {
    match s {
        ProductInteractionState::Default => ""@,
        ProductInteractionState::Focused => "product-card--focused"@,
        ProductInteractionState::Selected => "product-card--selected"@,
        ProductInteractionState::Loading => "product-card--loading"@,
        ProductInteractionState::Disabled => "product-card--disabled"@,
    }
}

/// The availability fragment of a product card.
pub open spec fn product_availability_fragment(a: ProductAvailabilityState) -> Seq<char> {
    match a {
        ProductAvailabilityState::Available => ""@,
        ProductAvailabilityState::OutOfStock => "product-card--out-of-stock"@,
        ProductAvailabilityState::Backorder => "product-card--backorder"@,
        ProductAvailabilityState::Discontinued => "product-card--discontinued"@,
        ProductAvailabilityState::Limited => "product-card--limited"@,
    }
}

/// The prominence fragment of a product card.
pub open spec fn product_prominence_fragment(p: ProductProminence) -> Seq<char> {
    match p {
        ProductProminence::Subtle => "product-card--subtle"@,
        ProductProminence::Standard => ""@,
        ProductProminence::Prominent => "product-card--prominent"@,
        ProductProminence::Hero => "product-card--hero"@,
    }
}

/// The color fragment of a product card: disabled text when unavailable,
/// otherwise a background by prominence.
pub open spec fn product_color_fragment(
    availability: ProductAvailabilityState,
    prominence: ProductProminence,
    p: ColorPalette,
) -> Seq<char> {
    if availability != ProductAvailabilityState::Available {
        "text-"@ + p.interactive_disabled@
    } else {
        match prominence {
            ProductProminence::Hero => "bg-"@ + p.primary@,
            ProductProminence::Prominent => "bg-"@ + p.secondary@,
            _ => "bg-"@ + p.surface@,
        }
    }
}

/// The normalized class string of a product card configuration.
pub open spec fn product_classes_spec(
    display: ProductDisplayPattern,
    interaction_state: ProductInteractionState,
    availability: ProductAvailabilityState,
    prominence: ProductProminence,
    p: ColorPalette,
) -> Seq<char> {
    assemble(
        seq![
            "product-card"@,
            product_display_fragment(display),
            product_state_fragment(interaction_state),
            product_availability_fragment(availability),
            product_prominence_fragment(prominence),
            product_color_fragment(availability, prominence, p),
        ],
    )
}

/// Product card configuration.
#[derive(Debug, Clone, PartialEq)]
pub struct ProductCardPattern {
    pub display: ProductDisplayPattern,
    pub interaction_state: ProductInteractionState,
    pub availability: ProductAvailabilityState,
    pub prominence: ProductProminence,
    pub image_pattern: ProductImagePattern,
    pub info_sections: Vec<ProductInfoSection>,
    pub price_pattern: ProductPricePattern,
    pub actions: Vec<ProductActionType>,
    pub badges: Vec<ProductBadgeType>,
    pub variant_pattern: Option<ProductVariantPattern>,
}

impl ProductCardPattern {
    /// Creates a product card pattern with default values.
    pub fn new() -> (r: Self)
        ensures
            r.display == ProductDisplayPattern::ListItem,
            r.interaction_state == ProductInteractionState::Default,
            r.availability == ProductAvailabilityState::Available,
            r.prominence == ProductProminence::Standard,
            r.image_pattern == ProductImagePattern::Standard,
            r.info_sections@ == seq![ProductInfoSection::Basic],
            r.price_pattern == ProductPricePattern::Standard,
            r.actions@ == seq![ProductActionType::AddToCart],
            r.badges@.len() == 0,
            r.variant_pattern is None,
    {
        let mut info_sections: Vec<ProductInfoSection> = Vec::new();
        info_sections.push(ProductInfoSection::Basic);
        let mut actions: Vec<ProductActionType> = Vec::new();
        actions.push(ProductActionType::AddToCart);
        proof {
            assert(info_sections@ =~= seq![ProductInfoSection::Basic]);
            assert(actions@ =~= seq![ProductActionType::AddToCart]);
        }
        ProductCardPattern {
            display: ProductDisplayPattern::ListItem,
            interaction_state: ProductInteractionState::Default,
            availability: ProductAvailabilityState::Available,
            prominence: ProductProminence::Standard,
            image_pattern: ProductImagePattern::Standard,
            info_sections,
            price_pattern: ProductPricePattern::Standard,
            actions,
            badges: Vec::new(),
            variant_pattern: Option::None,
        }
    }

    /// Configures the display pattern.
    pub fn display(self, display: ProductDisplayPattern) -> (r: Self)
        ensures
            r == (ProductCardPattern { display, ..self }),
    {
        ProductCardPattern { display, ..self }
    }

    /// Configures the interaction state.
    pub fn interaction_state(self, state: ProductInteractionState) -> (r: Self)
        ensures
            r == (ProductCardPattern { interaction_state: state, ..self }),
    {
        ProductCardPattern { interaction_state: state, ..self }
    }

    /// Configures the availability.
    pub fn availability(self, availability: ProductAvailabilityState) -> (r: Self)
        ensures
            r == (ProductCardPattern { availability, ..self }),
    {
        ProductCardPattern { availability, ..self }
    }

    /// Configures the prominence.
    pub fn prominence(self, prominence: ProductProminence) -> (r: Self)
        ensures
            r == (ProductCardPattern { prominence, ..self }),
    {
        ProductCardPattern { prominence, ..self }
    }

    /// Configures the image pattern.
    pub fn image_pattern(self, pattern: ProductImagePattern) -> (r: Self)
        ensures
            r == (ProductCardPattern { image_pattern: pattern, ..self }),
    {
        ProductCardPattern { image_pattern: pattern, ..self }
    }

    /// Configures the information sections.
    pub fn info_sections(self, sections: Vec<ProductInfoSection>) -> (r: Self)
        ensures
            r == (ProductCardPattern { info_sections: sections, ..self }),
    {
        ProductCardPattern { info_sections: sections, ..self }
    }

    /// Configures the price pattern.
    pub fn price_pattern(self, pattern: ProductPricePattern) -> (r: Self)
        ensures
            r == (ProductCardPattern { price_pattern: pattern, ..self }),
    {
        ProductCardPattern { price_pattern: pattern, ..self }
    }

    /// Configures the actions.
    pub fn actions(self, actions: Vec<ProductActionType>) -> (r: Self)
        ensures
            r == (ProductCardPattern { actions, ..self }),
    {
        ProductCardPattern { actions, ..self }
    }

    /// Configures the badges.
    pub fn badges(self, badges: Vec<ProductBadgeType>) -> (r: Self)
        ensures
            r == (ProductCardPattern { badges, ..self }),
    {
        ProductCardPattern { badges, ..self }
    }

    /// Configures the variant pattern.
    pub fn variant_pattern(self, pattern: Option<ProductVariantPattern>) -> (r: Self)
        ensures
            r == (ProductCardPattern { variant_pattern: pattern, ..self }),
    {
        ProductCardPattern { variant_pattern: pattern, ..self }
    }

    /// Builds the normalized class string under the given provider.
    pub fn classes<C: ColorProvider>(&self, colors: C) -> (r: String)
        ensures
            r@ == product_classes_spec(
                self.display,
                self.interaction_state,
                self.availability,
                self.prominence,
                colors.spec_palette(),
            ),
    {
        let mut parts: Vec<String> = Vec::new();
        push_part(&mut parts, "product-card");
        push_part(
            &mut parts,
            match self.display {
                ProductDisplayPattern::ListItem => "product-card--list",
                ProductDisplayPattern::Featured => "product-card--featured",
                ProductDisplayPattern::Tile => "product-card--tile",
                ProductDisplayPattern::Showcase => "product-card--showcase",
                ProductDisplayPattern::Preview => "product-card--preview",
            },
        );
        push_part(
            &mut parts,
            match self.interaction_state {
                ProductInteractionState::Default => "",
                ProductInteractionState::Focused => "product-card--focused",
                ProductInteractionState::Selected => "product-card--selected",
                ProductInteractionState::Loading => "product-card--loading",
                ProductInteractionState::Disabled => "product-card--disabled",
            },
        );
        push_part(
            &mut parts,
            match self.availability {
                ProductAvailabilityState::Available => "",
                ProductAvailabilityState::OutOfStock => "product-card--out-of-stock",
                ProductAvailabilityState::Backorder => "product-card--backorder",
                ProductAvailabilityState::Discontinued => "product-card--discontinued",
                ProductAvailabilityState::Limited => "product-card--limited",
            },
        );
        push_part(
            &mut parts,
            match self.prominence {
                ProductProminence::Subtle => "product-card--subtle",
                ProductProminence::Standard => "",
                ProductProminence::Prominent => "product-card--prominent",
                ProductProminence::Hero => "product-card--hero",
            },
        );
        let color_fragment = if !matches!(self.availability, ProductAvailabilityState::Available) {
            colors.text_class(Color::InteractiveDisabled)
        } else {
            match self.prominence {
                ProductProminence::Hero => colors.bg_class(Color::Primary),
                ProductProminence::Prominent => colors.bg_class(Color::Secondary),
                _ => colors.bg_class(Color::Surface),
            }
        };
        push_part_string(&mut parts, color_fragment);
        proof {
            assert(views(parts@) =~= seq![
                "product-card"@,
                product_display_fragment(self.display),
                product_state_fragment(self.interaction_state),
                product_availability_fragment(self.availability),
                product_prominence_fragment(self.prominence),
                product_color_fragment(
                    self.availability,
                    self.prominence,
                    colors.spec_palette(),
                ),
            ]);
        }
        assemble_fragments(&parts)
    }

    /// The suggested aspect ratio classes for the product image.
    pub fn suggested_image_aspect_ratio(&self) -> (r: &'static str)
        ensures
            r@ == match self.image_pattern {
                ProductImagePattern::Standard => "aspect-[4/3]"@,
                ProductImagePattern::Square => "aspect-square"@,
                ProductImagePattern::Wide => "aspect-[16/9]"@,
                ProductImagePattern::Portrait => "aspect-[3/4]"@,
                ProductImagePattern::Circle => "aspect-square rounded-full"@,
            },
    {
        match self.image_pattern {
            ProductImagePattern::Standard => "aspect-[4/3]",
            ProductImagePattern::Square => "aspect-square",
            ProductImagePattern::Wide => "aspect-[16/9]",
            ProductImagePattern::Portrait => "aspect-[3/4]",
            ProductImagePattern::Circle => "aspect-square rounded-full",
        }
    }

    /// The suggested size classes for the product image.
    pub fn suggested_image_sizes(&self) -> (r: &'static str)
        ensures
            r@ == match self.display {
                ProductDisplayPattern::ListItem => "h-48 w-48"@,
                ProductDisplayPattern::Featured => "h-64 w-64"@,
                ProductDisplayPattern::Tile => "h-40 w-40"@,
                ProductDisplayPattern::Showcase => "h-80 w-80"@,
                ProductDisplayPattern::Preview => "h-32 w-32"@,
            },
    {
        match self.display {
            ProductDisplayPattern::ListItem => "h-48 w-48",
            ProductDisplayPattern::Featured => "h-64 w-64",
            ProductDisplayPattern::Tile => "h-40 w-40",
            ProductDisplayPattern::Showcase => "h-80 w-80",
            ProductDisplayPattern::Preview => "h-32 w-32",
        }
    }

    /// The suggested container padding.
    pub fn suggested_container_padding(&self) -> (r: &'static str)
        ensures
            r@ == match self.display {
                ProductDisplayPattern::ListItem => "p-4"@,
                ProductDisplayPattern::Featured => "p-6"@,
                ProductDisplayPattern::Tile => "p-3"@,
                ProductDisplayPattern::Showcase => "p-8"@,
                ProductDisplayPattern::Preview => "p-2"@,
            },
    {
        match self.display {
            ProductDisplayPattern::ListItem => "p-4",
            ProductDisplayPattern::Featured => "p-6",
            ProductDisplayPattern::Tile => "p-3",
            ProductDisplayPattern::Showcase => "p-8",
            ProductDisplayPattern::Preview => "p-2",
        }
    }

    /// The suggested spacing between elements.
    pub fn suggested_spacing(&self) -> (r: &'static str)
        ensures
            r@ == match self.display {
                ProductDisplayPattern::ListItem => "space-y-3"@,
                ProductDisplayPattern::Featured => "space-y-4"@,
                ProductDisplayPattern::Tile => "space-y-2"@,
                ProductDisplayPattern::Showcase => "space-y-6"@,
                ProductDisplayPattern::Preview => "space-y-1"@,
            },
    {
        match self.display {
            ProductDisplayPattern::ListItem => "space-y-3",
            ProductDisplayPattern::Featured => "space-y-4",
            ProductDisplayPattern::Tile => "space-y-2",
            ProductDisplayPattern::Showcase => "space-y-6",
            ProductDisplayPattern::Preview => "space-y-1",
        }
    }
}

impl Default for ProductCardPattern {
    /// The default product card pattern.
    fn default() -> (r: Self)
        ensures
            r.display == ProductDisplayPattern::ListItem,
            r.interaction_state == ProductInteractionState::Default,
            r.availability == ProductAvailabilityState::Available,
            r.prominence == ProductProminence::Standard,
            r.image_pattern == ProductImagePattern::Standard,
            r.info_sections@ == seq![ProductInfoSection::Basic],
            r.price_pattern == ProductPricePattern::Standard,
            r.actions@ == seq![ProductActionType::AddToCart],
            r.badges@.len() == 0,
            r.variant_pattern is None,
    {
        ProductCardPattern::new()
    }
}

} // verus!
