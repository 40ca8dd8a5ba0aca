//! Layout styling builder: dividers, padding, direction and alignment for
//! structural sections.

use vstd::prelude::*;
use crate::classlist::views;
use crate::foundation::color::ColorProvider;
use crate::patterns::layout::{layout_classes_build, layout_classes_spec, LayoutAlignment,
    LayoutDirection, LayoutDivider, LayoutSpacing};

verus! {

broadcast use vstd::seq_lib::group_seq_properties;

/// Layout styling builder.
#[derive(Debug, Clone)]
pub struct LayoutStyles<C: ColorProvider> {
    pub divider: LayoutDivider,
    pub spacing: LayoutSpacing,
    pub alignment: Option<LayoutAlignment>,
    pub direction: Option<LayoutDirection>,
    pub custom_classes: Vec<String>,
    pub color_provider: C,
}

impl<C: ColorProvider> LayoutStyles<C> {
    /// Creates a layout builder with default values.
    pub fn new(color_provider: C) -> (r: Self)
        ensures
            r.divider == LayoutDivider::NoDivider,
            r.spacing == LayoutSpacing::MD,
            r.alignment is None,
            r.direction is None,
            r.custom_classes@.len() == 0,
            r.color_provider == color_provider,
    {
        LayoutStyles {
            divider: LayoutDivider::NoDivider,
            spacing: LayoutSpacing::MD,
            alignment: Option::None,
            direction: Option::None,
            custom_classes: Vec::new(),
            color_provider,
        }
    }

    /// Removes the divider.
    pub fn divider_none(self) -> (r: Self)
        ensures
            r == (LayoutStyles { divider: LayoutDivider::NoDivider, ..self }),
    {
        LayoutStyles { divider: LayoutDivider::NoDivider, ..self }
    }

    /// Configures a top border divider.
    pub fn divider_top(self) -> (r: Self)
        ensures
            r == (LayoutStyles { divider: LayoutDivider::Top, ..self }),
    {
        LayoutStyles { divider: LayoutDivider::Top, ..self }
    }

    /// Configures a bottom border divider.
    pub fn divider_bottom(self) -> (r: Self)
        ensures
            r == (LayoutStyles { divider: LayoutDivider::Bottom, ..self }),
    {
        LayoutStyles { divider: LayoutDivider::Bottom, ..self }
    }

    /// Configures a left border divider.
    pub fn divider_left(self) -> (r: Self)
        ensures
            r == (LayoutStyles { divider: LayoutDivider::Left, ..self }),
    {
        LayoutStyles { divider: LayoutDivider::Left, ..self }
    }

    /// Configures a right border divider.
    pub fn divider_right(self) -> (r: Self)
        ensures
            r == (LayoutStyles { divider: LayoutDivider::Right, ..self }),
    {
        LayoutStyles { divider: LayoutDivider::Right, ..self }
    }

    /// Removes internal spacing.
    pub fn spacing_none(self) -> (r: Self)
        ensures
            r == (LayoutStyles { spacing: LayoutSpacing::Zero, ..self }),
    {
        LayoutStyles { spacing: LayoutSpacing::Zero, ..self }
    }

    /// Configures extra-small spacing.
    pub fn spacing_xs(self) -> (r: Self)
        ensures
            r == (LayoutStyles { spacing: LayoutSpacing::XS, ..self }),
    {
        LayoutStyles { spacing: LayoutSpacing::XS, ..self }
    }

    /// Configures small spacing.
    pub fn spacing_sm(self) -> (r: Self)
        ensures
            r == (LayoutStyles { spacing: LayoutSpacing::SM, ..self }),
    {
        LayoutStyles { spacing: LayoutSpacing::SM, ..self }
    }

    /// Configures medium spacing.
    pub fn spacing_md(self) -> (r: Self)
        ensures
            r == (LayoutStyles { spacing: LayoutSpacing::MD, ..self }),
    {
        LayoutStyles { spacing: LayoutSpacing::MD, ..self }
    }

    /// Configures large spacing.
    pub fn spacing_lg(self) -> (r: Self)
        ensures
            r == (LayoutStyles { spacing: LayoutSpacing::LG, ..self }),
    {
        LayoutStyles { spacing: LayoutSpacing::LG, ..self }
    }

    /// Configures extra-large spacing.
    pub fn spacing_xl(self) -> (r: Self)
        ensures
            r == (LayoutStyles { spacing: LayoutSpacing::XL, ..self }),
    {
        LayoutStyles { spacing: LayoutSpacing::XL, ..self }
    }

    /// Configures double extra-large spacing.
    pub fn spacing_xl2(self) -> (r: Self)
        ensures
            r == (LayoutStyles { spacing: LayoutSpacing::XL2, ..self }),
    {
        LayoutStyles { spacing: LayoutSpacing::XL2, ..self }
    }

    /// Configures vertical flow.
    pub fn direction_vertical(self) -> (r: Self)
        ensures
            r == (LayoutStyles {
                direction: Option::Some(LayoutDirection::Vertical),
                ..self
            }),
    {
        LayoutStyles { direction: Option::Some(LayoutDirection::Vertical), ..self }
    }

    /// Configures horizontal flow.
    pub fn direction_horizontal(self) -> (r: Self)
        ensures
            r == (LayoutStyles {
                direction: Option::Some(LayoutDirection::Horizontal),
                ..self
            }),
    {
        LayoutStyles { direction: Option::Some(LayoutDirection::Horizontal), ..self }
    }

    /// Configures start alignment.
    pub fn alignment_start(self) -> (r: Self)
        ensures
            r == (LayoutStyles {
                alignment: Option::Some(LayoutAlignment::Start),
                ..self
            }),
    {
        LayoutStyles { alignment: Option::Some(LayoutAlignment::Start), ..self }
    }

    /// Configures centered alignment.
    pub fn alignment_center(self) -> (r: Self)
        ensures
            r == (LayoutStyles {
                alignment: Option::Some(LayoutAlignment::Center),
                ..self
            }),
    {
        LayoutStyles { alignment: Option::Some(LayoutAlignment::Center), ..self }
    }

    /// Configures end alignment.
    pub fn alignment_end(self) -> (r: Self)
        ensures
            r == (LayoutStyles { alignment: Option::Some(LayoutAlignment::End), ..self }),
    {
        LayoutStyles { alignment: Option::Some(LayoutAlignment::End), ..self }
    }

    /// Configures space-between alignment.
    pub fn alignment_between(self) -> (r: Self)
        ensures
            r == (LayoutStyles {
                alignment: Option::Some(LayoutAlignment::Between),
                ..self
            }),
    {
        LayoutStyles { alignment: Option::Some(LayoutAlignment::Between), ..self }
    }

    /// Configures space-around alignment.
    pub fn alignment_around(self) -> (r: Self)
        ensures
            r == (LayoutStyles {
                alignment: Option::Some(LayoutAlignment::Around),
                ..self
            }),
    {
        LayoutStyles { alignment: Option::Some(LayoutAlignment::Around), ..self }
    }

    /// Configures space-evenly alignment.
    pub fn alignment_evenly(self) -> (r: Self)
        ensures
            r == (LayoutStyles {
                alignment: Option::Some(LayoutAlignment::Evenly),
                ..self
            }),
    {
        LayoutStyles { alignment: Option::Some(LayoutAlignment::Evenly), ..self }
    }

    /// Appends one custom class.
    pub fn custom(self, class: &str) -> (r: Self)
        ensures
            r == (LayoutStyles { custom_classes: r.custom_classes, ..self }),
            views(r.custom_classes@) == views(self.custom_classes@).push(class@),
    {
        let mut c = self;
        let owned = class.to_owned();
        c.custom_classes.push(owned);
        proof {
            assert(views(c.custom_classes@) =~= views(self.custom_classes@).push(class@));
        }
        c
    }

    /// Appends each whitespace-separated class of the given string.
    pub fn custom_classes(self, classes: &str) -> (r: Self)
        ensures
            r == (LayoutStyles { custom_classes: r.custom_classes, ..self }),
            views(r.custom_classes@) == views(self.custom_classes@) + crate::classlist::split_ws(
                classes@,
            ),
    {
        let toks = crate::classlist::split_tokens(classes);
        let mut c = self;
        crate::classlist::push_all_parts(&mut c.custom_classes, &toks);
        c
    }

    /// Builds the normalized class string.
    pub fn classes(self) -> (r: String)
        ensures
            r@ == layout_classes_spec(
                self.divider,
                self.spacing,
                self.direction,
                self.alignment,
                views(self.custom_classes@),
                self.color_provider.spec_palette(),
            ),
    {
        self.build()
    }

    /// Builds the normalized class string; `classes` and `build` agree.
    pub fn build(self) -> (r: String)
        ensures
            r@ == layout_classes_spec(
                self.divider,
                self.spacing,
                self.direction,
                self.alignment,
                views(self.custom_classes@),
                self.color_provider.spec_palette(),
            ),
    {
        layout_classes_build(
            self.divider,
            self.spacing,
            self.direction,
            self.alignment,
            &self.custom_classes,
            &self.color_provider,
        )
    }
}

/// Creates a layout builder.
pub fn layout_styles<C: ColorProvider>(color_provider: C) -> (r: LayoutStyles<C>)
    ensures
        r.divider == LayoutDivider::NoDivider,
        r.spacing == LayoutSpacing::MD,
        r.alignment is None,
        r.direction is None,
        r.custom_classes@.len() == 0,
        r.color_provider == color_provider,
{
    LayoutStyles::new(color_provider)
}

/// Creates a card header layout builder: bottom divider, medium spacing.
pub fn card_header_styles<C: ColorProvider>(color_provider: C) -> (r: LayoutStyles<C>)
    ensures
        r.divider == LayoutDivider::Bottom,
        r.spacing == LayoutSpacing::MD,
        r.alignment is None,
        r.direction is None,
        r.custom_classes@.len() == 0,
        r.color_provider == color_provider,
{
    LayoutStyles::new(color_provider).divider_bottom().spacing_md()
}

/// Creates a card content layout builder: medium spacing, vertical rhythm.
pub fn card_content_styles<C: ColorProvider>(color_provider: C) -> (r: LayoutStyles<C>)
    ensures
        r.divider == LayoutDivider::NoDivider,
        r.spacing == LayoutSpacing::MD,
        r.alignment is None,
        r.direction is None,
        views(r.custom_classes@) == Seq::<Seq<char>>::empty().push("space-y-4"@),
        r.color_provider == color_provider,
{
    let r = LayoutStyles::new(color_provider).spacing_md().custom("space-y-4");
    proof {
        assert(views(r.custom_classes@) =~= Seq::<Seq<char>>::empty().push("space-y-4"@));
    }
    r
}

/// Creates a card footer layout builder: top divider, horizontal,
/// space-between.
pub fn card_footer_styles<C: ColorProvider>(color_provider: C) -> (r: LayoutStyles<C>)
    ensures
        r.divider == LayoutDivider::Top,
        r.spacing == LayoutSpacing::MD,
        r.alignment == Option::Some(LayoutAlignment::Between),
        r.direction == Option::Some(LayoutDirection::Horizontal),
        r.custom_classes@.len() == 0,
        r.color_provider == color_provider,
{
    LayoutStyles::new(
        color_provider,
    ).divider_top().spacing_md().direction_horizontal().alignment_between()
}

} // verus!
