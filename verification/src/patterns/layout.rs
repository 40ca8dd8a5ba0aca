//! Layout patterns: card section layouts with dividers, spacing, direction
//! and alignment.

use vstd::prelude::*;
use crate::classlist::{assemble, assemble_fragments, push_all_parts, push_part,
    push_part_string, views};
use crate::foundation::color::{Color, ColorPalette, ColorProvider};

verus! {

broadcast use vstd::seq_lib::group_seq_properties;

/// Spacing steps for layout sections.
#[derive(Debug, Clone, Copy, PartialEq, Eq, Hash, Structural)]
pub enum LayoutSpacing {
    Zero,
    XS,
    SM,
    MD,
    LG,
    XL,
    XL2,
}

/// Border dividers for layout sections.
#[derive(Debug, Clone, Copy, PartialEq, Eq, Hash, Structural)]
pub enum LayoutDivider {
    NoDivider,
    Top,
    Bottom,
    Left,
    Right,
}

/// Alignment options for layout sections.
#[derive(Debug, Clone, Copy, PartialEq, Eq, Hash, Structural)]
pub enum LayoutAlignment {
    Start,
    Center,
    End,
    Between,
    Around,
    Evenly,
}

/// Flow direction for layout sections.
#[derive(Debug, Clone, Copy, PartialEq, Eq, Hash, Structural)]
pub enum LayoutDirection {
    Vertical,
    Horizontal,
}

/// The divider fragment: a border side plus the palette's border color.
pub open spec fn layout_divider_fragment(d: LayoutDivider, p: ColorPalette) -> Seq<char> {
    match d {
        LayoutDivider::NoDivider => ""@,
        LayoutDivider::Top => "border-t border-"@ + p.border@,
        LayoutDivider::Bottom => "border-b border-"@ + p.border@,
        LayoutDivider::Left => "border-l border-"@ + p.border@,
        LayoutDivider::Right => "border-r border-"@ + p.border@,
    }
}

/// The padding fragment of a layout spacing step.
pub open spec fn layout_spacing_fragment(s: LayoutSpacing) -> Seq<char> {
    match s {
        LayoutSpacing::Zero => ""@,
        LayoutSpacing::XS => "p-1"@,
        LayoutSpacing::SM => "p-2"@,
        LayoutSpacing::MD => "p-4"@,
        LayoutSpacing::LG => "p-6"@,
        LayoutSpacing::XL => "p-8"@,
        LayoutSpacing::XL2 => "p-12"@,
    }
}

/// The direction fragment.
pub open spec fn layout_direction_fragment(d: Option<LayoutDirection>) -> Seq<char> {
    match d {
        Option::Some(LayoutDirection::Vertical) => "flex flex-col"@,
        Option::Some(LayoutDirection::Horizontal) => "flex flex-row"@,
        Option::None => ""@,
    }
}

/// The alignment fragment.
pub open spec fn layout_alignment_fragment(a: Option<LayoutAlignment>) -> Seq<char> {
    match a {
        Option::Some(LayoutAlignment::Start) => "items-start justify-start"@,
        Option::Some(LayoutAlignment::Center) => "items-center justify-center"@,
        Option::Some(LayoutAlignment::End) => "items-end justify-end"@,
        Option::Some(LayoutAlignment::Between) => "items-center justify-between"@,
        Option::Some(LayoutAlignment::Around) => "items-center justify-around"@,
        Option::Some(LayoutAlignment::Evenly) => "items-center justify-evenly"@,
        Option::None => ""@,
    }
}

/// The normalized class string of a layout section configuration.
pub open spec fn layout_classes_spec(
    divider: LayoutDivider,
    spacing: LayoutSpacing,
    direction: Option<LayoutDirection>,
    alignment: Option<LayoutAlignment>,
    customs: Seq<Seq<char>>,
    p: ColorPalette,
) -> Seq<char> {
    assemble(
        seq![
            layout_divider_fragment(divider, p),
            layout_spacing_fragment(spacing),
            layout_direction_fragment(direction),
            layout_alignment_fragment(alignment),
        ] + customs,
    )
}

/// Builds the divider fragment.
pub(crate) fn layout_divider_string<C: ColorProvider>(
    provider: &C,
    divider: LayoutDivider,
) -> (r: String)
    ensures
        r@ == layout_divider_fragment(divider, provider.spec_palette()),
{
    match divider {
        LayoutDivider::NoDivider => "".to_owned(),
        LayoutDivider::Top => {
            let mut s = "border-t border-".to_owned();
            s.append(provider.resolve_color(Color::Border));
            s
        },
        LayoutDivider::Bottom => {
            let mut s = "border-b border-".to_owned();
            s.append(provider.resolve_color(Color::Border));
            s
        },
        LayoutDivider::Left => {
            let mut s = "border-l border-".to_owned();
            s.append(provider.resolve_color(Color::Border));
            s
        },
        LayoutDivider::Right => {
            let mut s = "border-r border-".to_owned();
            s.append(provider.resolve_color(Color::Border));
            s
        },
    }
}

/// Builds the normalized class string from layout configuration values.
pub(crate) fn layout_classes_build<C: ColorProvider>(
    divider: LayoutDivider,
    spacing: LayoutSpacing,
    direction: Option<LayoutDirection>,
    alignment: Option<LayoutAlignment>,
    custom_classes: &Vec<String>,
    provider: &C,
) -> (r: String)
    ensures
        r@ == layout_classes_spec(
            divider,
            spacing,
            direction,
            alignment,
            views(custom_classes@),
            provider.spec_palette(),
        ),
{
    let mut parts: Vec<String> = Vec::new();
    push_part_string(&mut parts, layout_divider_string(provider, divider));
    push_part(
        &mut parts,
        match spacing {
            LayoutSpacing::Zero => "",
            LayoutSpacing::XS => "p-1",
            LayoutSpacing::SM => "p-2",
            LayoutSpacing::MD => "p-4",
            LayoutSpacing::LG => "p-6",
            LayoutSpacing::XL => "p-8",
            LayoutSpacing::XL2 => "p-12",
        },
    );
    push_part(
        &mut parts,
        match direction {
            Option::Some(LayoutDirection::Vertical) => "flex flex-col",
            Option::Some(LayoutDirection::Horizontal) => "flex flex-row",
            Option::None => "",
        },
    );
    push_part(
        &mut parts,
        match alignment {
            Option::Some(LayoutAlignment::Start) => "items-start justify-start",
            Option::Some(LayoutAlignment::Center) => "items-center justify-center",
            Option::Some(LayoutAlignment::End) => "items-end justify-end",
            Option::Some(LayoutAlignment::Between) => "items-center justify-between",
            Option::Some(LayoutAlignment::Around) => "items-center justify-around",
            Option::Some(LayoutAlignment::Evenly) => "items-center justify-evenly",
            Option::None => "",
        },
    );
    push_all_parts(&mut parts, custom_classes);
    proof {
        assert(views(parts@) =~= seq![
            layout_divider_fragment(divider, provider.spec_palette()),
            layout_spacing_fragment(spacing),
            layout_direction_fragment(direction),
            layout_alignment_fragment(alignment),
        ] + views(custom_classes@));
    }
    assemble_fragments(&parts)
}

/// Card section layout: headers, content areas and footers.
#[derive(Debug, Clone)]
pub struct CardSectionLayout<C: ColorProvider> {
    pub divider: LayoutDivider,
    pub spacing: LayoutSpacing,
    pub alignment: Option<LayoutAlignment>,
    pub direction: Option<LayoutDirection>,
    pub custom_classes: Vec<String>,
    pub color_provider: C,
}

impl<C: ColorProvider> CardSectionLayout<C> {
    /// Creates a card section layout with default values.
    pub fn new(color_provider: C) -> (r: Self)
        ensures
            r.divider == LayoutDivider::NoDivider,
            r.spacing == LayoutSpacing::MD,
            r.alignment is None,
            r.direction is None,
            r.custom_classes@.len() == 0,
            r.color_provider == color_provider,
    {
        CardSectionLayout {
            divider: LayoutDivider::NoDivider,
            spacing: LayoutSpacing::MD,
            alignment: Option::None,
            direction: Option::None,
            custom_classes: Vec::new(),
            color_provider,
        }
    }

    /// Configures the divider.
    pub fn divider(self, divider: LayoutDivider) -> (r: Self)
        ensures
            r == (CardSectionLayout { divider, ..self }),
    {
        CardSectionLayout { divider, ..self }
    }

    /// Configures the spacing.
    pub fn spacing(self, spacing: LayoutSpacing) -> (r: Self)
        ensures
            r == (CardSectionLayout { spacing, ..self }),
    {
        CardSectionLayout { spacing, ..self }
    }

    /// Configures the alignment.
    pub fn alignment(self, alignment: LayoutAlignment) -> (r: Self)
        ensures
            r == (CardSectionLayout { alignment: Option::Some(alignment), ..self }),
    {
        CardSectionLayout { alignment: Option::Some(alignment), ..self }
    }

    /// Configures the direction.
    pub fn direction(self, direction: LayoutDirection) -> (r: Self)
        ensures
            r == (CardSectionLayout { direction: Option::Some(direction), ..self }),
    {
        CardSectionLayout { direction: Option::Some(direction), ..self }
    }

    /// Appends a custom class string.
    pub fn custom(self, classes: &str) -> (r: Self)
        ensures
            r == (CardSectionLayout { custom_classes: r.custom_classes, ..self }),
            views(r.custom_classes@) == views(self.custom_classes@).push(classes@),
    {
        let mut c = self;
        let owned = classes.to_owned();
        c.custom_classes.push(owned);
        proof {
            assert(views(c.custom_classes@) =~= views(self.custom_classes@).push(classes@));
        }
        c
    }

    /// Builds the normalized class string.
    pub fn classes(self) -> (r: String)
        ensures
            r@ == layout_classes_spec(
                self.divider,
                self.spacing,
                self.direction,
                self.alignment,
                views(self.custom_classes@),
                self.color_provider.spec_palette(),
            ),
    {
        layout_classes_build(
            self.divider,
            self.spacing,
            self.direction,
            self.alignment,
            &self.custom_classes,
            &self.color_provider,
        )
    }
}

/// Creates a card header layout: bottom divider, medium spacing.
pub fn card_header_layout<C: ColorProvider>(color_provider: C) -> (r: CardSectionLayout<C>)
    ensures
        r.divider == LayoutDivider::Bottom,
        r.spacing == LayoutSpacing::MD,
        r.alignment is None,
        r.direction is None,
        r.custom_classes@.len() == 0,
        r.color_provider == color_provider,
{
    CardSectionLayout::new(color_provider).divider(LayoutDivider::Bottom).spacing(
        LayoutSpacing::MD,
    )
}

/// Creates a card content layout: medium spacing with vertical rhythm.
pub fn card_content_layout<C: ColorProvider>(color_provider: C) -> (r: CardSectionLayout<C>)
    ensures
        r.divider == LayoutDivider::NoDivider,
        r.spacing == LayoutSpacing::MD,
        r.alignment is None,
        r.direction is None,
        views(r.custom_classes@) == Seq::<Seq<char>>::empty().push("space-y-4"@),
        r.color_provider == color_provider,
{
    let r = CardSectionLayout::new(color_provider).spacing(LayoutSpacing::MD).custom("space-y-4");
    proof {
        assert(views(r.custom_classes@) =~= Seq::<Seq<char>>::empty().push("space-y-4"@));
    }
    r
}

/// Creates a card footer layout: top divider, horizontal, space-between.
pub fn card_footer_layout<C: ColorProvider>(color_provider: C) -> (r: CardSectionLayout<C>)
    ensures
        r.divider == LayoutDivider::Top,
        r.spacing == LayoutSpacing::MD,
        r.alignment == Option::Some(LayoutAlignment::Between),
        r.direction == Option::Some(LayoutDirection::Horizontal),
        r.custom_classes@.len() == 0,
        r.color_provider == color_provider,
{
    CardSectionLayout::new(color_provider).divider(LayoutDivider::Top).spacing(
        LayoutSpacing::MD,
    ).direction(LayoutDirection::Horizontal).alignment(LayoutAlignment::Between)
}

/// Entry point for the layout patterns of one provider.
#[derive(Debug, Clone)]
pub struct LayoutBuilder<C: ColorProvider> {
    pub color_provider: C,
}

impl<C: ColorProvider> LayoutBuilder<C> {
    /// Creates a layout builder.
    pub fn new(color_provider: C) -> (r: Self)
        ensures
            r.color_provider == color_provider,
    {
        LayoutBuilder { color_provider }
    }

    /// A plain card section layout.
    pub fn card_section(self) -> (r: CardSectionLayout<C>)
        ensures
            r.divider == LayoutDivider::NoDivider,
            r.spacing == LayoutSpacing::MD,
            r.alignment is None,
            r.direction is None,
            r.custom_classes@.len() == 0,
            r.color_provider == self.color_provider,
    {
        CardSectionLayout::new(self.color_provider)
    }

    /// A card header layout.
    pub fn card_header(self) -> (r: CardSectionLayout<C>)
        ensures
            r.divider == LayoutDivider::Bottom,
            r.spacing == LayoutSpacing::MD,
            r.alignment is None,
            r.direction is None,
            r.custom_classes@.len() == 0,
            r.color_provider == self.color_provider,
    {
        card_header_layout(self.color_provider)
    }

    /// A card content layout.
    pub fn card_content(self) -> (r: CardSectionLayout<C>)
        ensures
            r.divider == LayoutDivider::NoDivider,
            r.spacing == LayoutSpacing::MD,
            views(r.custom_classes@) == Seq::<Seq<char>>::empty().push("space-y-4"@),
            r.color_provider == self.color_provider,
    {
        card_content_layout(self.color_provider)
    }

    /// A card footer layout.
    pub fn card_footer(self) -> (r: CardSectionLayout<C>)
        ensures
            r.divider == LayoutDivider::Top,
            r.spacing == LayoutSpacing::MD,
            r.alignment == Option::Some(LayoutAlignment::Between),
            r.direction == Option::Some(LayoutDirection::Horizontal),
            r.custom_classes@.len() == 0,
            r.color_provider == self.color_provider,
    {
        card_footer_layout(self.color_provider)
    }
}

/// Creates a layout builder.
pub fn layout<C: ColorProvider>(color_provider: C) -> (r: LayoutBuilder<C>)
    ensures
        r.color_provider == color_provider,
{
    LayoutBuilder::new(color_provider)
}

} // verus!
