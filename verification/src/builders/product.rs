//! Product styling builder: a chainable front end over the product card
//! pattern, with per-section class builders.

use vstd::prelude::*;
use crate::classlist::{assemble, assemble_fragments, push_all_parts, push_part_string, views};
use crate::foundation::color::ColorProvider;
use crate::patterns::product::{product_classes_spec, ProductActionType,
    ProductAvailabilityState, ProductBadgeType, ProductCardPattern, ProductDisplayPattern,
    ProductImagePattern, ProductInfoSection, ProductInteractionState, ProductPricePattern,
    ProductProminence, ProductVariantPattern};

verus! {

broadcast use vstd::seq_lib::group_seq_properties;

/// Product styling builder.
#[derive(Debug, Clone)]
pub struct ProductBuilder<C: ColorProvider> {
    pub pattern: ProductCardPattern,
    pub colors: C,
    pub custom_classes: Vec<String>,
}

/// The action list after appending an action only when it is absent.
pub open spec fn with_action(
    actions: Seq<ProductActionType>,
    a: ProductActionType,
) -> Seq<ProductActionType> {
    if actions.contains(a) {
        actions
    } else {
        actions.push(a)
    }
}

/// The badge list after appending a badge only when it is absent.
pub open spec fn with_badge(
    badges: Seq<ProductBadgeType>,
    b: ProductBadgeType,
) -> Seq<ProductBadgeType> {
    if badges.contains(b) {
        badges
    } else {
        badges.push(b)
    }
}

/// Whether the action list contains the given action.
fn has_action(actions: &Vec<ProductActionType>, a: ProductActionType) -> (r: bool)
    ensures
        r == actions@.contains(a),
{
    let mut i: usize = 0;
    while i < actions.len()
        invariant
            i <= actions.len(),
            forall|j: int| 0 <= j < i ==> actions@[j] != a,
        decreases actions.len() - i,
    {
        if actions[i] == a {
            return true;
        }
        i += 1;
    }
    false
}

/// Whether a badge equals a badge without custom text.
fn badge_is(b: &ProductBadgeType, t: &ProductBadgeType) -> (r: bool)
    requires
        !(*t is Custom),
    ensures
        r == (*b == *t),
{
    match (b, t) {
        (ProductBadgeType::Sale, ProductBadgeType::Sale) => true,
        (ProductBadgeType::New, ProductBadgeType::New) => true,
        (ProductBadgeType::Featured, ProductBadgeType::Featured) => true,
        (ProductBadgeType::BestSeller, ProductBadgeType::BestSeller) => true,
        (ProductBadgeType::Limited, ProductBadgeType::Limited) => true,
        (ProductBadgeType::OutOfStock, ProductBadgeType::OutOfStock) => true,
        _ => false,
    }
}

/// Whether the badge list contains the given badge without custom text.
fn has_badge(badges: &Vec<ProductBadgeType>, b: &ProductBadgeType) -> (r: bool)
    requires
        !(*b is Custom),
    ensures
        r == badges@.contains(*b),
{
    let mut i: usize = 0;
    while i < badges.len()
        invariant
            i <= badges.len(),
            !(*b is Custom),
            forall|j: int| 0 <= j < i ==> badges@[j] != *b,
        decreases badges.len() - i,
    {
        if badge_is(&badges[i], b) {
            return true;
        }
        i += 1;
    }
    false
}

/// Appends an action unless it is already present.
fn push_action(actions: &mut Vec<ProductActionType>, a: ProductActionType)
    ensures
        final(actions)@ == with_action(old(actions)@, a),
{
    if !has_action(actions, a) {
        actions.push(a);
    }
}

/// Appends a badge without custom text unless it is already present.
fn push_badge(badges: &mut Vec<ProductBadgeType>, b: ProductBadgeType)
    requires
        !(b is Custom),
    ensures
        final(badges)@ == with_badge(old(badges)@, b),
{
    if !has_badge(badges, &b) {
        badges.push(b);
    }
}

impl<C: ColorProvider> ProductBuilder<C> {
    /// Creates a product builder with the default pattern.
    pub fn new(colors: C) -> (r: Self)
        ensures
            r.pattern.display == ProductDisplayPattern::ListItem,
            r.pattern.interaction_state == ProductInteractionState::Default,
            r.pattern.availability == ProductAvailabilityState::Available,
            r.pattern.prominence == ProductProminence::Standard,
            r.pattern.image_pattern == ProductImagePattern::Standard,
            r.pattern.info_sections@ == seq![ProductInfoSection::Basic],
            r.pattern.price_pattern == ProductPricePattern::Standard,
            r.pattern.actions@ == seq![ProductActionType::AddToCart],
            r.pattern.badges@.len() == 0,
            r.pattern.variant_pattern is None,
            r.custom_classes@.len() == 0,
            r.colors == colors,
    {
        ProductBuilder { pattern: ProductCardPattern::new(), colors, custom_classes: Vec::new() }
    }

    /// Configures the list item display.
    pub fn list_item(self) -> (r: Self)
        ensures
            r == (ProductBuilder { pattern: r.pattern, ..self }),
            r.pattern == (ProductCardPattern {
                display: ProductDisplayPattern::ListItem,
                ..self.pattern
            }),
    {
        ProductBuilder { pattern: self.pattern.display(ProductDisplayPattern::ListItem), ..self }
    }

    /// Configures the featured display.
    pub fn featured(self) -> (r: Self)
        ensures
            r == (ProductBuilder { pattern: r.pattern, ..self }),
            r.pattern == (ProductCardPattern {
                display: ProductDisplayPattern::Featured,
                ..self.pattern
            }),
    {
        ProductBuilder { pattern: self.pattern.display(ProductDisplayPattern::Featured), ..self }
    }

    /// Configures the tile display.
    pub fn tile(self) -> (r: Self)
        ensures
            r == (ProductBuilder { pattern: r.pattern, ..self }),
            r.pattern == (ProductCardPattern {
                display: ProductDisplayPattern::Tile,
                ..self.pattern
            }),
    {
        ProductBuilder { pattern: self.pattern.display(ProductDisplayPattern::Tile), ..self }
    }

    /// Configures the showcase display.
    pub fn showcase(self) -> (r: Self)
        ensures
            r == (ProductBuilder { pattern: r.pattern, ..self }),
            r.pattern == (ProductCardPattern {
                display: ProductDisplayPattern::Showcase,
                ..self.pattern
            }),
    {
        ProductBuilder { pattern: self.pattern.display(ProductDisplayPattern::Showcase), ..self }
    }

    /// Configures the preview display.
    pub fn preview(self) -> (r: Self)
        ensures
            r == (ProductBuilder { pattern: r.pattern, ..self }),
            r.pattern == (ProductCardPattern {
                display: ProductDisplayPattern::Preview,
                ..self.pattern
            }),
    {
        ProductBuilder { pattern: self.pattern.display(ProductDisplayPattern::Preview), ..self }
    }

    /// Configures the focused interaction state.
    pub fn focused(self) -> (r: Self)
        ensures
            r == (ProductBuilder { pattern: r.pattern, ..self }),
            r.pattern == (ProductCardPattern {
                interaction_state: ProductInteractionState::Focused,
                ..self.pattern
            }),
    {
        ProductBuilder {
            pattern: self.pattern.interaction_state(ProductInteractionState::Focused),
            ..self
        }
    }

    /// Configures the selected interaction state.
    pub fn selected(self) -> (r: Self)
        ensures
            r == (ProductBuilder { pattern: r.pattern, ..self }),
            r.pattern == (ProductCardPattern {
                interaction_state: ProductInteractionState::Selected,
                ..self.pattern
            }),
    {
        ProductBuilder {
            pattern: self.pattern.interaction_state(ProductInteractionState::Selected),
            ..self
        }
    }

    /// Configures the loading interaction state.
    pub fn loading(self) -> (r: Self)
        ensures
            r == (ProductBuilder { pattern: r.pattern, ..self }),
            r.pattern == (ProductCardPattern {
                interaction_state: ProductInteractionState::Loading,
                ..self.pattern
            }),
    {
        ProductBuilder {
            pattern: self.pattern.interaction_state(ProductInteractionState::Loading),
            ..self
        }
    }

    /// Configures the disabled interaction state.
    pub fn disabled(self) -> (r: Self)
        ensures
            r == (ProductBuilder { pattern: r.pattern, ..self }),
            r.pattern == (ProductCardPattern {
                interaction_state: ProductInteractionState::Disabled,
                ..self.pattern
            }),
    {
        ProductBuilder {
            pattern: self.pattern.interaction_state(ProductInteractionState::Disabled),
            ..self
        }
    }

    /// Configures available stock.
    pub fn available(self) -> (r: Self)
        ensures
            r == (ProductBuilder { pattern: r.pattern, ..self }),
            r.pattern == (ProductCardPattern {
                availability: ProductAvailabilityState::Available,
                ..self.pattern
            }),
    {
        ProductBuilder {
            pattern: self.pattern.availability(ProductAvailabilityState::Available),
            ..self
        }
    }

    /// Configures out-of-stock availability.
    pub fn out_of_stock(self) -> (r: Self)
        ensures
            r == (ProductBuilder { pattern: r.pattern, ..self }),
            r.pattern == (ProductCardPattern {
                availability: ProductAvailabilityState::OutOfStock,
                ..self.pattern
            }),
    {
        ProductBuilder {
            pattern: self.pattern.availability(ProductAvailabilityState::OutOfStock),
            ..self
        }
    }

    /// Configures backorder availability.
    pub fn backorder(self) -> (r: Self)
        ensures
            r == (ProductBuilder { pattern: r.pattern, ..self }),
            r.pattern == (ProductCardPattern {
                availability: ProductAvailabilityState::Backorder,
                ..self.pattern
            }),
    {
        ProductBuilder {
            pattern: self.pattern.availability(ProductAvailabilityState::Backorder),
            ..self
        }
    }

    /// Configures discontinued availability.
    pub fn discontinued(self) -> (r: Self)
        ensures
            r == (ProductBuilder { pattern: r.pattern, ..self }),
            r.pattern == (ProductCardPattern {
                availability: ProductAvailabilityState::Discontinued,
                ..self.pattern
            }),
    {
        ProductBuilder {
            pattern: self.pattern.availability(ProductAvailabilityState::Discontinued),
            ..self
        }
    }

    /// Configures limited availability.
    pub fn limited(self) -> (r: Self)
        ensures
            r == (ProductBuilder { pattern: r.pattern, ..self }),
            r.pattern == (ProductCardPattern {
                availability: ProductAvailabilityState::Limited,
                ..self.pattern
            }),
    {
        ProductBuilder {
            pattern: self.pattern.availability(ProductAvailabilityState::Limited),
            ..self
        }
    }

    /// Configures subtle prominence.
    pub fn subtle(self) -> (r: Self)
        ensures
            r == (ProductBuilder { pattern: r.pattern, ..self }),
            r.pattern == (ProductCardPattern {
                prominence: ProductProminence::Subtle,
                ..self.pattern
            }),
    {
        ProductBuilder { pattern: self.pattern.prominence(ProductProminence::Subtle), ..self }
    }

    /// Configures standard prominence.
    pub fn standard(self) -> (r: Self)
        ensures
            r == (ProductBuilder { pattern: r.pattern, ..self }),
            r.pattern == (ProductCardPattern {
                prominence: ProductProminence::Standard,
                ..self.pattern
            }),
    {
        ProductBuilder { pattern: self.pattern.prominence(ProductProminence::Standard), ..self }
    }

    /// Configures prominent prominence.
    pub fn prominent(self) -> (r: Self)
        ensures
            r == (ProductBuilder { pattern: r.pattern, ..self }),
            r.pattern == (ProductCardPattern {
                prominence: ProductProminence::Prominent,
                ..self.pattern
            }),
    {
        ProductBuilder { pattern: self.pattern.prominence(ProductProminence::Prominent), ..self }
    }

    /// Configures hero prominence.
    pub fn hero(self) -> (r: Self)
        ensures
            r == (ProductBuilder { pattern: r.pattern, ..self }),
            r.pattern == (ProductCardPattern {
                prominence: ProductProminence::Hero,
                ..self.pattern
            }),
    {
        ProductBuilder { pattern: self.pattern.prominence(ProductProminence::Hero), ..self }
    }

    /// Configures the standard image pattern.
    pub fn standard_image(self) -> (r: Self)
        ensures
            r == (ProductBuilder { pattern: r.pattern, ..self }),
            r.pattern == (ProductCardPattern {
                image_pattern: ProductImagePattern::Standard,
                ..self.pattern
            }),
    {
        ProductBuilder {
            pattern: self.pattern.image_pattern(ProductImagePattern::Standard),
            ..self
        }
    }

    /// Configures a square image.
    pub fn square_image(self) -> (r: Self)
        ensures
            r == (ProductBuilder { pattern: r.pattern, ..self }),
            r.pattern == (ProductCardPattern {
                image_pattern: ProductImagePattern::Square,
                ..self.pattern
            }),
    {
        ProductBuilder { pattern: self.pattern.image_pattern(ProductImagePattern::Square), ..self }
    }

    /// Configures a wide image.
    pub fn wide_image(self) -> (r: Self)
        ensures
            r == (ProductBuilder { pattern: r.pattern, ..self }),
            r.pattern == (ProductCardPattern {
                image_pattern: ProductImagePattern::Wide,
                ..self.pattern
            }),
    {
        ProductBuilder { pattern: self.pattern.image_pattern(ProductImagePattern::Wide), ..self }
    }

    /// Configures a portrait image.
    pub fn portrait_image(self) -> (r: Self)
        ensures
            r == (ProductBuilder { pattern: r.pattern, ..self }),
            r.pattern == (ProductCardPattern {
                image_pattern: ProductImagePattern::Portrait,
                ..self.pattern
            }),
    {
        ProductBuilder {
            pattern: self.pattern.image_pattern(ProductImagePattern::Portrait),
            ..self
        }
    }

    /// Configures a circular image.
    pub fn circle_image(self) -> (r: Self)
        ensures
            r == (ProductBuilder { pattern: r.pattern, ..self }),
            r.pattern == (ProductCardPattern {
                image_pattern: ProductImagePattern::Circle,
                ..self.pattern
            }),
    {
        ProductBuilder { pattern: self.pattern.image_pattern(ProductImagePattern::Circle), ..self }
    }

    /// Shows basic product information.
    pub fn basic_info(self) -> (r: Self)
        ensures
            r == (ProductBuilder { pattern: r.pattern, ..self }),
            r.pattern == (ProductCardPattern {
                info_sections: r.pattern.info_sections,
                ..self.pattern
            }),
            r.pattern.info_sections@ == seq![ProductInfoSection::Basic],
    {
        let mut sections: Vec<ProductInfoSection> = Vec::new();
        sections.push(ProductInfoSection::Basic);
        proof {
            assert(sections@ =~= seq![ProductInfoSection::Basic]);
        }
        ProductBuilder { pattern: self.pattern.info_sections(sections), ..self }
    }

    /// Shows extended product information.
    pub fn extended_info(self) -> (r: Self)
        ensures
            r == (ProductBuilder { pattern: r.pattern, ..self }),
            r.pattern == (ProductCardPattern {
                info_sections: r.pattern.info_sections,
                ..self.pattern
            }),
            r.pattern.info_sections@ == seq![ProductInfoSection::Extended],
    {
        let mut sections: Vec<ProductInfoSection> = Vec::new();
        sections.push(ProductInfoSection::Extended);
        proof {
            assert(sections@ =~= seq![ProductInfoSection::Extended]);
        }
        ProductBuilder { pattern: self.pattern.info_sections(sections), ..self }
    }

    /// Shows detailed product information.
    pub fn detailed_info(self) -> (r: Self)
        ensures
            r == (ProductBuilder { pattern: r.pattern, ..self }),
            r.pattern == (ProductCardPattern {
                info_sections: r.pattern.info_sections,
                ..self.pattern
            }),
            r.pattern.info_sections@ == seq![ProductInfoSection::Detailed],
    {
        let mut sections: Vec<ProductInfoSection> = Vec::new();
        sections.push(ProductInfoSection::Detailed);
        proof {
            assert(sections@ =~= seq![ProductInfoSection::Detailed]);
        }
        ProductBuilder { pattern: self.pattern.info_sections(sections), ..self }
    }

    /// Shows minimal product information.
    pub fn minimal_info(self) -> (r: Self)
        ensures
            r == (ProductBuilder { pattern: r.pattern, ..self }),
            r.pattern == (ProductCardPattern {
                info_sections: r.pattern.info_sections,
                ..self.pattern
            }),
            r.pattern.info_sections@ == seq![ProductInfoSection::Minimal],
    {
        let mut sections: Vec<ProductInfoSection> = Vec::new();
        sections.push(ProductInfoSection::Minimal);
        proof {
            assert(sections@ =~= seq![ProductInfoSection::Minimal]);
        }
        ProductBuilder { pattern: self.pattern.info_sections(sections), ..self }
    }

    /// Configures the standard price display.
    pub fn standard_price(self) -> (r: Self)
        ensures
            r == (ProductBuilder { pattern: r.pattern, ..self }),
            r.pattern == (ProductCardPattern {
                price_pattern: ProductPricePattern::Standard,
                ..self.pattern
            }),
    {
        ProductBuilder {
            pattern: self.pattern.price_pattern(ProductPricePattern::Standard),
            ..self
        }
    }

    /// Configures a price with compare-at price.
    pub fn price_with_compare(self) -> (r: Self)
        ensures
            r == (ProductBuilder { pattern: r.pattern, ..self }),
            r.pattern == (ProductCardPattern {
                price_pattern: ProductPricePattern::WithCompare,
                ..self.pattern
            }),
    {
        ProductBuilder {
            pattern: self.pattern.price_pattern(ProductPricePattern::WithCompare),
            ..self
        }
    }

    /// Configures a price range.
    pub fn price_range(self) -> (r: Self)
        ensures
            r == (ProductBuilder { pattern: r.pattern, ..self }),
            r.pattern == (ProductCardPattern {
                price_pattern: ProductPricePattern::Range,
                ..self.pattern
            }),
    {
        ProductBuilder { pattern: self.pattern.price_pattern(ProductPricePattern::Range), ..self }
    }

    /// Configures a price with discount.
    pub fn price_with_discount(self) -> (r: Self)
        ensures
            r == (ProductBuilder { pattern: r.pattern, ..self }),
            r.pattern == (ProductCardPattern {
                price_pattern: ProductPricePattern::WithDiscount,
                ..self.pattern
            }),
    {
        ProductBuilder {
            pattern: self.pattern.price_pattern(ProductPricePattern::WithDiscount),
            ..self
        }
    }

    /// Configures a sale price.
    pub fn price_on_sale(self) -> (r: Self)
        ensures
            r == (ProductBuilder { pattern: r.pattern, ..self }),
            r.pattern == (ProductCardPattern {
                price_pattern: ProductPricePattern::OnSale,
                ..self.pattern
            }),
    {
        ProductBuilder { pattern: self.pattern.price_pattern(ProductPricePattern::OnSale), ..self }
    }

    /// Adds the add-to-cart action once.
    pub fn add_to_cart_action(self) -> (r: Self)
        ensures
            r == (ProductBuilder { pattern: r.pattern, ..self }),
            r.pattern == (ProductCardPattern { actions: r.pattern.actions, ..self.pattern }),
            r.pattern.actions@ == with_action(
                self.pattern.actions@,
                ProductActionType::AddToCart,
            ),
    {
        let mut c = self;
        push_action(&mut c.pattern.actions, ProductActionType::AddToCart);
        c
    }

    /// Adds the quick view action once.
    pub fn quick_view_action(self) -> (r: Self)
        ensures
            r == (ProductBuilder { pattern: r.pattern, ..self }),
            r.pattern == (ProductCardPattern { actions: r.pattern.actions, ..self.pattern }),
            r.pattern.actions@ == with_action(
                self.pattern.actions@,
                ProductActionType::QuickView,
            ),
    {
        let mut c = self;
        push_action(&mut c.pattern.actions, ProductActionType::QuickView);
        c
    }

    /// Adds the compare action once.
    pub fn compare_action(self) -> (r: Self)
        ensures
            r == (ProductBuilder { pattern: r.pattern, ..self }),
            r.pattern == (ProductCardPattern { actions: r.pattern.actions, ..self.pattern }),
            r.pattern.actions@ == with_action(self.pattern.actions@, ProductActionType::Compare),
    {
        let mut c = self;
        push_action(&mut c.pattern.actions, ProductActionType::Compare);
        c
    }

    /// Adds the wishlist action once.
    pub fn wishlist_action(self) -> (r: Self)
        ensures
            r == (ProductBuilder { pattern: r.pattern, ..self }),
            r.pattern == (ProductCardPattern { actions: r.pattern.actions, ..self.pattern }),
            r.pattern.actions@ == with_action(
                self.pattern.actions@,
                ProductActionType::Wishlist,
            ),
    {
        let mut c = self;
        push_action(&mut c.pattern.actions, ProductActionType::Wishlist);
        c
    }

    /// Adds the share action once.
    pub fn share_action(self) -> (r: Self)
        ensures
            r == (ProductBuilder { pattern: r.pattern, ..self }),
            r.pattern == (ProductCardPattern { actions: r.pattern.actions, ..self.pattern }),
            r.pattern.actions@ == with_action(self.pattern.actions@, ProductActionType::Share),
    {
        let mut c = self;
        push_action(&mut c.pattern.actions, ProductActionType::Share);
        c
    }

    /// Adds the view details action once.
    pub fn view_details_action(self) -> (r: Self)
        ensures
            r == (ProductBuilder { pattern: r.pattern, ..self }),
            r.pattern == (ProductCardPattern { actions: r.pattern.actions, ..self.pattern }),
            r.pattern.actions@ == with_action(
                self.pattern.actions@,
                ProductActionType::ViewDetails,
            ),
    {
        let mut c = self;
        push_action(&mut c.pattern.actions, ProductActionType::ViewDetails);
        c
    }

    /// Adds the sale badge once.
    pub fn sale_badge(self) -> (r: Self)
        ensures
            r == (ProductBuilder { pattern: r.pattern, ..self }),
            r.pattern == (ProductCardPattern { badges: r.pattern.badges, ..self.pattern }),
            r.pattern.badges@ == with_badge(self.pattern.badges@, ProductBadgeType::Sale),
    {
        let mut c = self;
        push_badge(&mut c.pattern.badges, ProductBadgeType::Sale);
        c
    }

    /// Adds the new badge once.
    pub fn new_badge(self) -> (r: Self)
        ensures
            r == (ProductBuilder { pattern: r.pattern, ..self }),
            r.pattern == (ProductCardPattern { badges: r.pattern.badges, ..self.pattern }),
            r.pattern.badges@ == with_badge(self.pattern.badges@, ProductBadgeType::New),
    {
        let mut c = self;
        push_badge(&mut c.pattern.badges, ProductBadgeType::New);
        c
    }

    /// Adds the featured badge once.
    pub fn featured_badge(self) -> (r: Self)
        ensures
            r == (ProductBuilder { pattern: r.pattern, ..self }),
            r.pattern == (ProductCardPattern { badges: r.pattern.badges, ..self.pattern }),
            r.pattern.badges@ == with_badge(self.pattern.badges@, ProductBadgeType::Featured),
    {
        let mut c = self;
        push_badge(&mut c.pattern.badges, ProductBadgeType::Featured);
        c
    }

    /// Adds the best seller badge once.
    pub fn best_seller_badge(self) -> (r: Self)
        ensures
            r == (ProductBuilder { pattern: r.pattern, ..self }),
            r.pattern == (ProductCardPattern { badges: r.pattern.badges, ..self.pattern }),
            r.pattern.badges@ == with_badge(self.pattern.badges@, ProductBadgeType::BestSeller),
    {
        let mut c = self;
        push_badge(&mut c.pattern.badges, ProductBadgeType::BestSeller);
        c
    }

    /// Adds the limited badge once.
    pub fn limited_badge(self) -> (r: Self)
        ensures
            r == (ProductBuilder { pattern: r.pattern, ..self }),
            r.pattern == (ProductCardPattern { badges: r.pattern.badges, ..self.pattern }),
            r.pattern.badges@ == with_badge(self.pattern.badges@, ProductBadgeType::Limited),
    {
        let mut c = self;
        push_badge(&mut c.pattern.badges, ProductBadgeType::Limited);
        c
    }

    /// Adds the out-of-stock badge once.
    pub fn out_of_stock_badge(self) -> (r: Self)
        ensures
            r == (ProductBuilder { pattern: r.pattern, ..self }),
            r.pattern == (ProductCardPattern { badges: r.pattern.badges, ..self.pattern }),
            r.pattern.badges@ == with_badge(self.pattern.badges@, ProductBadgeType::OutOfStock),
    {
        let mut c = self;
        push_badge(&mut c.pattern.badges, ProductBadgeType::OutOfStock);
        c
    }

    /// Adds a badge with custom text; custom badges always append.
    pub fn custom_badge(self, text: String) -> (r: Self)
        ensures
            r == (ProductBuilder { pattern: r.pattern, ..self }),
            r.pattern == (ProductCardPattern { badges: r.pattern.badges, ..self.pattern }),
            r.pattern.badges@ == self.pattern.badges@.push(ProductBadgeType::Custom(text)),
    {
        let mut c = self;
        c.pattern.badges.push(ProductBadgeType::Custom(text));
        c
    }

    /// Configures dropdown variant selection.
    pub fn dropdown_variants(self) -> (r: Self)
        ensures
            r == (ProductBuilder { pattern: r.pattern, ..self }),
            r.pattern == (ProductCardPattern {
                variant_pattern: Option::Some(ProductVariantPattern::Dropdown),
                ..self.pattern
            }),
    {
        ProductBuilder {
            pattern: self.pattern.variant_pattern(
                Option::Some(ProductVariantPattern::Dropdown),
            ),
            ..self
        }
    }

    /// Configures button variant selection.
    pub fn button_variants(self) -> (r: Self)
        ensures
            r == (ProductBuilder { pattern: r.pattern, ..self }),
            r.pattern == (ProductCardPattern {
                variant_pattern: Option::Some(ProductVariantPattern::Buttons),
                ..self.pattern
            }),
    {
        ProductBuilder {
            pattern: self.pattern.variant_pattern(Option::Some(ProductVariantPattern::Buttons)),
            ..self
        }
    }

    /// Configures swatch variant selection.
    pub fn swatch_variants(self) -> (r: Self)
        ensures
            r == (ProductBuilder { pattern: r.pattern, ..self }),
            r.pattern == (ProductCardPattern {
                variant_pattern: Option::Some(ProductVariantPattern::Swatches),
                ..self.pattern
            }),
    {
        ProductBuilder {
            pattern: self.pattern.variant_pattern(
                Option::Some(ProductVariantPattern::Swatches),
            ),
            ..self
        }
    }

    /// Configures list variant selection.
    pub fn list_variants(self) -> (r: Self)
        ensures
            r == (ProductBuilder { pattern: r.pattern, ..self }),
            r.pattern == (ProductCardPattern {
                variant_pattern: Option::Some(ProductVariantPattern::List),
                ..self.pattern
            }),
    {
        ProductBuilder {
            pattern: self.pattern.variant_pattern(Option::Some(ProductVariantPattern::List)),
            ..self
        }
    }

    /// Configures radio variant selection.
    pub fn radio_variants(self) -> (r: Self)
        ensures
            r == (ProductBuilder { pattern: r.pattern, ..self }),
            r.pattern == (ProductCardPattern {
                variant_pattern: Option::Some(ProductVariantPattern::Radio),
                ..self.pattern
            }),
    {
        ProductBuilder {
            pattern: self.pattern.variant_pattern(Option::Some(ProductVariantPattern::Radio)),
            ..self
        }
    }

    /// Appends one custom class.
    pub fn custom_class(self, class: String) -> (r: Self)
        ensures
            r == (ProductBuilder { custom_classes: r.custom_classes, ..self }),
            views(r.custom_classes@) == views(self.custom_classes@).push(class@),
    {
        let mut c = self;
        c.custom_classes.push(class);
        proof {
            assert(views(c.custom_classes@) =~= views(self.custom_classes@).push(
                c.custom_classes@.last()@,
            ));
        }
        c
    }

    /// Builds the normalized class string for the product component.
    pub fn classes(self) -> (r: String)
        ensures
            r@ == assemble(
                seq![
                    product_classes_spec(
                        self.pattern.display,
                        self.pattern.interaction_state,
                        self.pattern.availability,
                        self.pattern.prominence,
                        self.colors.spec_palette(),
                    ),
                ] + views(self.custom_classes@),
            ),
    {
        let ghost this = self;
        let mut parts: Vec<String> = Vec::new();
        push_part_string(&mut parts, self.pattern.classes(self.colors));
        push_all_parts(&mut parts, &self.custom_classes);
        proof {
            assert(views(parts@) =~= seq![
                product_classes_spec(
                    this.pattern.display,
                    this.pattern.interaction_state,
                    this.pattern.availability,
                    this.pattern.prominence,
                    this.colors.spec_palette(),
                ),
            ] + views(this.custom_classes@));
        }
        assemble_fragments(&parts)
    }

    /// Builds the container classes: the card classes, padding and spacing.
    pub fn container_classes(self) -> (r: String)
        ensures
            r@ == product_classes_spec(
                self.pattern.display,
                self.pattern.interaction_state,
                self.pattern.availability,
                self.pattern.prominence,
                self.colors.spec_palette(),
            ) + " "@ + (match self.pattern.display {
                ProductDisplayPattern::ListItem => "p-4"@,
                ProductDisplayPattern::Featured => "p-6"@,
                ProductDisplayPattern::Tile => "p-3"@,
                ProductDisplayPattern::Showcase => "p-8"@,
                ProductDisplayPattern::Preview => "p-2"@,
            }) + " "@ + (match self.pattern.display {
                ProductDisplayPattern::ListItem => "space-y-3"@,
                ProductDisplayPattern::Featured => "space-y-4"@,
                ProductDisplayPattern::Tile => "space-y-2"@,
                ProductDisplayPattern::Showcase => "space-y-6"@,
                ProductDisplayPattern::Preview => "space-y-1"@,
            }),
    {
        let padding = self.pattern.suggested_container_padding();
        let spacing = self.pattern.suggested_spacing();
        let mut s = self.pattern.classes(self.colors);
        s.append(" ");
        s.append(padding);
        s.append(" ");
        s.append(spacing);
        s
    }

    /// Builds the image classes: base marker, aspect ratio and sizes.
    pub fn image_classes(self) -> (r: String)
        ensures
            r@ == "product-image "@ + (match self.pattern.image_pattern {
                ProductImagePattern::Standard => "aspect-[4/3]"@,
                ProductImagePattern::Square => "aspect-square"@,
                ProductImagePattern::Wide => "aspect-[16/9]"@,
                ProductImagePattern::Portrait => "aspect-[3/4]"@,
                ProductImagePattern::Circle => "aspect-square rounded-full"@,
            }) + " "@ + (match self.pattern.display {
                ProductDisplayPattern::ListItem => "h-48 w-48"@,
                ProductDisplayPattern::Featured => "h-64 w-64"@,
                ProductDisplayPattern::Tile => "h-40 w-40"@,
                ProductDisplayPattern::Showcase => "h-80 w-80"@,
                ProductDisplayPattern::Preview => "h-32 w-32"@,
            }),
    {
        let aspect_ratio = self.pattern.suggested_image_aspect_ratio();
        let sizes = self.pattern.suggested_image_sizes();
        let mut s = "product-image ".to_owned();
        s.append(aspect_ratio);
        s.append(" ");
        s.append(sizes);
        s
    }

    /// Builds the info section classes: base marker and spacing.
    pub fn info_classes(self) -> (r: String)
        ensures
            r@ == "product-info "@ + (match self.pattern.display {
                ProductDisplayPattern::ListItem => "space-y-3"@,
                ProductDisplayPattern::Featured => "space-y-4"@,
                ProductDisplayPattern::Tile => "space-y-2"@,
                ProductDisplayPattern::Showcase => "space-y-6"@,
                ProductDisplayPattern::Preview => "space-y-1"@,
            }),
    {
        let spacing = self.pattern.suggested_spacing();
        let mut s = "product-info ".to_owned();
        s.append(spacing);
        s
    }

    /// Builds the actions row classes: base marker, layout and gaps.
    pub fn actions_classes(self) -> (r: String)
        ensures
            r@ == "product-actions flex items-center "@ + (match self.pattern.display {
                ProductDisplayPattern::Tile => "gap-2"@,
                ProductDisplayPattern::Preview => "gap-1"@,
                _ => "gap-3"@,
            }),
    {
        let mut s = "product-actions flex items-center ".to_owned();
        s.append(
            match self.pattern.display {
                ProductDisplayPattern::Tile => "gap-2",
                ProductDisplayPattern::Preview => "gap-1",
                _ => "gap-3",
            },
        );
        s
    }

    /// Builds the badge overlay classes.
    pub fn badges_classes(self) -> (r: String)
        ensures
            r@ == "product-badges absolute top-2 right-2 flex flex-col gap-1"@,
    {
        "product-badges absolute top-2 right-2 flex flex-col gap-1".to_owned()
    }

    /// The pattern configuration.
    pub fn pattern(&self) -> (r: &ProductCardPattern)
        ensures
            *r == self.pattern,
    {
        &self.pattern
    }

    /// The color provider.
    pub fn colors(&self) -> (r: &C)
        ensures
            *r == self.colors,
    {
        &self.colors
    }

    /// The custom classes added so far.
    pub fn custom_classes(&self) -> (r: &Vec<String>)
        ensures
            *r == self.custom_classes,
    {
        &self.custom_classes
    }
}

/// Creates a product builder.
pub fn product_styles<C: ColorProvider>(colors: C) -> (r: ProductBuilder<C>)
    ensures
        r.pattern.display == ProductDisplayPattern::ListItem,
        r.pattern.prominence == ProductProminence::Standard,
        r.custom_classes@.len() == 0,
        r.colors == colors,
{
    ProductBuilder::new(colors)
}

/// Creates a featured product builder.
pub fn featured_product_styles<C: ColorProvider>(colors: C) -> (r: ProductBuilder<C>)
    ensures
        r.pattern.display == ProductDisplayPattern::Featured,
        r.pattern.prominence == ProductProminence::Prominent,
        r.custom_classes@.len() == 0,
        r.colors == colors,
{
    ProductBuilder::new(colors).featured().prominent()
}

/// Creates a product tile builder.
pub fn product_tile_styles<C: ColorProvider>(colors: C) -> (r: ProductBuilder<C>)
    ensures
        r.pattern.display == ProductDisplayPattern::Tile,
        r.pattern.info_sections@ == seq![ProductInfoSection::Basic],
        r.custom_classes@.len() == 0,
        r.colors == colors,
{
    ProductBuilder::new(colors).tile().basic_info()
}

/// Creates a product showcase builder.
pub fn product_showcase_styles<C: ColorProvider>(colors: C) -> (r: ProductBuilder<C>)
    ensures
        r.pattern.display == ProductDisplayPattern::Showcase,
        r.pattern.info_sections@ == seq![ProductInfoSection::Detailed],
        r.custom_classes@.len() == 0,
        r.colors == colors,
{
    ProductBuilder::new(colors).showcase().detailed_info()
}

/// Creates a product preview builder.
pub fn product_preview_styles<C: ColorProvider>(colors: C) -> (r: ProductBuilder<C>)
    ensures
        r.pattern.display == ProductDisplayPattern::Preview,
        r.pattern.info_sections@ == seq![ProductInfoSection::Minimal],
        r.custom_classes@.len() == 0,
        r.colors == colors,
{
    ProductBuilder::new(colors).preview().minimal_info()
}

} // verus!
