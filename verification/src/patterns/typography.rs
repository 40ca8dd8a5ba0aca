//! Typography pattern: semantic text hierarchy, sizing, weight, color,
//! alignment and overflow, resolved to one normalized class string.

use vstd::prelude::*;
use crate::classlist::{assemble, assemble_fragments, clamp_prefix, clamp_suffix, dec_rep,
    push_part, push_part_string, views};
use crate::foundation::color::{Color, ColorPalette, ColorProvider};

verus! {

broadcast use vstd::seq_lib::group_seq_properties;

/// Typography hierarchy levels.
#[derive(Debug, Clone, Copy, PartialEq, Eq, Hash, Structural)]
pub enum TypographyHierarchy {
    Title,
    Heading,
    Subheading,
    H4,
    Body,
    BodyLarge,
    BodySmall,
    Caption,
    Overline,
    Code,
}

/// Typography sizes.
#[derive(Debug, Clone, Copy, PartialEq, Eq, Hash, Structural)]
pub enum TypographySize {
    XS,
    SM,
    MD,
    LG,
    XL,
    XL2,
    XL3,
    XL4,
}

/// Typography weights.
#[derive(Debug, Clone, Copy, PartialEq, Eq, Hash, Structural)]
pub enum TypographyWeight {
    Light,
    Normal,
    Medium,
    Semibold,
    Bold,
    ExtraBold,
}

/// Typography color semantics.
#[derive(Debug, Clone, Copy, PartialEq, Eq, Hash, Structural)]
pub enum TypographyColor {
    Primary,
    Secondary,
    Accent,
    Muted,
    Disabled,
    White,
    Black,
    Success,
    Warning,
    Error,
    Info,
    Auto,
}

/// Text alignments.
#[derive(Debug, Clone, Copy, PartialEq, Eq, Hash, Structural)]
pub enum TypographyAlignment {
    Left,
    Center,
    Right,
    Justify,
}

/// Text overflow behavior.
#[derive(Debug, Clone, Copy, PartialEq, Eq, Hash, Structural)]
pub enum TypographyOverflow {
    Normal,
    Truncate,
    Clamp(u32),
}

/// The HTML element a text style renders as.
#[derive(Debug, Clone, Copy, PartialEq, Eq, Hash, Structural)]
pub enum TypographyElement {
    Auto,
    H1,
    H2,
    H3,
    H4,
    H5,
    H6,
    P,
    Span,
    Div,
}

/// Typography pattern configuration.
#[derive(Debug, Clone)]
pub struct TypographyPattern<T: ColorProvider> {
    pub hierarchy: TypographyHierarchy,
    pub size: Option<TypographySize>,
    pub weight: Option<TypographyWeight>,
    pub color: TypographyColor,
    pub alignment: Option<TypographyAlignment>,
    pub overflow: TypographyOverflow,
    pub element: TypographyElement,
    pub color_provider: T,
}

/// The fixed tracking/background classes of a hierarchy.
pub open spec fn hierarchy_base(h: TypographyHierarchy) -> Seq<char> {
    match h {
        TypographyHierarchy::Title => "tracking-tight"@,
        TypographyHierarchy::Heading => "tracking-tight"@,
        TypographyHierarchy::Subheading => "tracking-tight"@,
        TypographyHierarchy::H4 => "tracking-tight"@,
        TypographyHierarchy::Body => ""@,
        TypographyHierarchy::BodyLarge => ""@,
        TypographyHierarchy::BodySmall => ""@,
        TypographyHierarchy::Caption => ""@,
        TypographyHierarchy::Overline => "uppercase tracking-wider"@,
        TypographyHierarchy::Code => "font-mono bg-gray-100 px-1 py-0.5 rounded"@,
    }
}

/// The default text size of a hierarchy, applied when no size override is
/// set.
pub open spec fn hierarchy_default_size(h: TypographyHierarchy) -> Seq<char> {
    match h {
        TypographyHierarchy::Title => " text-4xl"@,
        TypographyHierarchy::Heading => " text-3xl"@,
        TypographyHierarchy::Subheading => " text-2xl"@,
        TypographyHierarchy::H4 => " text-xl"@,
        TypographyHierarchy::Body => " text-base"@,
        TypographyHierarchy::BodyLarge => " text-lg"@,
        TypographyHierarchy::BodySmall => " text-sm"@,
        TypographyHierarchy::Caption => " text-sm"@,
        TypographyHierarchy::Overline => " text-xs"@,
        TypographyHierarchy::Code => " text-sm"@,
    }
}

/// The default font weight of a hierarchy, applied when no weight override
/// is set.
pub open spec fn hierarchy_default_weight(h: TypographyHierarchy) -> Seq<char> {
    match h {
        TypographyHierarchy::Title => " font-bold"@,
        TypographyHierarchy::Heading => " font-bold"@,
        TypographyHierarchy::Subheading => " font-bold"@,
        TypographyHierarchy::H4 => " font-bold"@,
        TypographyHierarchy::Body => " font-normal"@,
        TypographyHierarchy::BodyLarge => " font-normal"@,
        TypographyHierarchy::BodySmall => " font-normal"@,
        TypographyHierarchy::Caption => " font-medium"@,
        TypographyHierarchy::Overline => " font-medium"@,
        TypographyHierarchy::Code => ""@,
    }
}

/// The hierarchy fragment: fixed classes plus hierarchy defaults for
/// whichever of size and weight has no override.
pub open spec fn hierarchy_fragment(
    h: TypographyHierarchy,
    size_none: bool,
    weight_none: bool,
) -> Seq<char> {
    hierarchy_base(h) + (if size_none {
        hierarchy_default_size(h)
    } else {
        ""@
    }) + (if weight_none {
        hierarchy_default_weight(h)
    } else {
        ""@
    })
}

/// The class of a size override.
pub open spec fn size_class(s: TypographySize) -> Seq<char> {
    match s {
        TypographySize::XS => "text-xs"@,
        TypographySize::SM => "text-sm"@,
        TypographySize::MD => "text-base"@,
        TypographySize::LG => "text-lg"@,
        TypographySize::XL => "text-xl"@,
        TypographySize::XL2 => "text-2xl"@,
        TypographySize::XL3 => "text-3xl"@,
        TypographySize::XL4 => "text-4xl"@,
    }
}

/// The class of a weight override.
pub open spec fn weight_class(w: TypographyWeight) -> Seq<char> {
    match w {
        TypographyWeight::Light => "font-light"@,
        TypographyWeight::Normal => "font-normal"@,
        TypographyWeight::Medium => "font-medium"@,
        TypographyWeight::Semibold => "font-semibold"@,
        TypographyWeight::Bold => "font-bold"@,
        TypographyWeight::ExtraBold => "font-extrabold"@,
    }
}

/// The size override fragment.
pub open spec fn size_fragment(s: Option<TypographySize>) -> Seq<char> {
    match s {
        Option::Some(v) => size_class(v),
        Option::None => ""@,
    }
}

/// The weight override fragment.
pub open spec fn weight_fragment(w: Option<TypographyWeight>) -> Seq<char> {
    match w {
        Option::Some(v) => weight_class(v),
        Option::None => ""@,
    }
}

/// The color tag a typography color resolves through, given the hierarchy
/// for automatic selection.
pub open spec fn typography_color_tag(c: TypographyColor, h: TypographyHierarchy) -> Color {
    match c {
        TypographyColor::Primary => Color::Primary,
        TypographyColor::Secondary => Color::Secondary,
        TypographyColor::Accent => Color::Accent,
        TypographyColor::Muted => Color::TextSecondary,
        TypographyColor::Disabled => Color::InteractiveDisabled,
        TypographyColor::White => Color::TextInverse,
        TypographyColor::Black => Color::Foreground,
        TypographyColor::Success => Color::Success,
        TypographyColor::Warning => Color::Warning,
        TypographyColor::Error => Color::Error,
        TypographyColor::Info => Color::Info,
        TypographyColor::Auto => match h {
            TypographyHierarchy::Caption => Color::TextSecondary,
            TypographyHierarchy::Overline => Color::TextTertiary,
            _ => Color::TextPrimary,
        },
    }
}

/// The color fragment of a typography configuration.
pub open spec fn typography_color_fragment(
    c: TypographyColor,
    h: TypographyHierarchy,
    p: ColorPalette,
) -> Seq<char> {
    "text-"@ + crate::foundation::color::slot_view(p, typography_color_tag(c, h))
}

/// The alignment fragment.
pub open spec fn alignment_fragment(a: Option<TypographyAlignment>) -> Seq<char> {
    match a {
        Option::Some(TypographyAlignment::Left) => "text-left"@,
        Option::Some(TypographyAlignment::Center) => "text-center"@,
        Option::Some(TypographyAlignment::Right) => "text-right"@,
        Option::Some(TypographyAlignment::Justify) => "text-justify"@,
        Option::None => ""@,
    }
}

/// The overflow fragment; line clamping is an inline style, not a class.
pub open spec fn overflow_fragment(o: TypographyOverflow) -> Seq<char> {
    match o {
        TypographyOverflow::Normal => ""@,
        TypographyOverflow::Truncate => "truncate"@,
        TypographyOverflow::Clamp(_) => ""@,
    }
}

/// All fragments of a typography pattern, in order.
pub open spec fn typography_fragments(
    h: TypographyHierarchy,
    size: Option<TypographySize>,
    weight: Option<TypographyWeight>,
    color: TypographyColor,
    alignment: Option<TypographyAlignment>,
    overflow: TypographyOverflow,
    p: ColorPalette,
) -> Seq<Seq<char>> {
    seq![
        "leading-relaxed"@,
        hierarchy_fragment(h, size is None, weight is None),
        size_fragment(size),
        weight_fragment(weight),
        typography_color_fragment(color, h, p),
        alignment_fragment(alignment),
        overflow_fragment(overflow),
    ]
}

/// The normalized class string of a typography pattern.
pub open spec fn typography_classes_spec<T: ColorProvider>(t: TypographyPattern<T>) -> Seq<char> {
    assemble(
        typography_fragments(
            t.hierarchy,
            t.size,
            t.weight,
            t.color,
            t.alignment,
            t.overflow,
            t.color_provider.spec_palette(),
        ),
    )
}

/// The HTML element name of a typography pattern.
pub open spec fn element_view(e: TypographyElement, h: TypographyHierarchy) -> Seq<char> {
    match e {
        TypographyElement::Auto => match h {
            TypographyHierarchy::Title => "h1"@,
            TypographyHierarchy::Heading => "h2"@,
            TypographyHierarchy::Subheading => "h3"@,
            TypographyHierarchy::H4 => "h4"@,
            TypographyHierarchy::Caption => "span"@,
            TypographyHierarchy::Overline => "span"@,
            TypographyHierarchy::Code => "code"@,
            _ => "p"@,
        },
        TypographyElement::H1 => "h1"@,
        TypographyElement::H2 => "h2"@,
        TypographyElement::H3 => "h3"@,
        TypographyElement::H4 => "h4"@,
        TypographyElement::H5 => "h5"@,
        TypographyElement::H6 => "h6"@,
        TypographyElement::P => "p"@,
        TypographyElement::Span => "span"@,
        TypographyElement::Div => "div"@,
    }
}

/// The inline clamp style of an overflow setting.
pub open spec fn clamp_style_view(o: TypographyOverflow) -> Seq<char> {
    match o {
        TypographyOverflow::Clamp(n) => clamp_prefix() + dec_rep(n as nat) + clamp_suffix(),
        _ => ""@,
    }
}

impl<T: ColorProvider> TypographyPattern<T> {
    /// Creates a typography pattern with default values.
    pub fn new(color_provider: T) -> (r: Self)
        ensures
            r.hierarchy == TypographyHierarchy::Body,
            r.size is None,
            r.weight is None,
            r.color == TypographyColor::Auto,
            r.alignment is None,
            r.overflow == TypographyOverflow::Normal,
            r.element == TypographyElement::Auto,
            r.color_provider == color_provider,
    {
        TypographyPattern {
            hierarchy: TypographyHierarchy::Body,
            size: Option::None,
            weight: Option::None,
            color: TypographyColor::Auto,
            alignment: Option::None,
            overflow: TypographyOverflow::Normal,
            element: TypographyElement::Auto,
            color_provider,
        }
    }

    /// Configures the hierarchy.
    pub fn hierarchy(self, hierarchy: TypographyHierarchy) -> (r: Self)
        ensures
            r == (TypographyPattern { hierarchy, ..self }),
    {
        TypographyPattern { hierarchy, ..self }
    }

    /// Configures a size override.
    pub fn size(self, size: TypographySize) -> (r: Self)
        ensures
            r == (TypographyPattern { size: Option::Some(size), ..self }),
    {
        TypographyPattern { size: Option::Some(size), ..self }
    }

    /// Configures a weight override.
    pub fn weight(self, weight: TypographyWeight) -> (r: Self)
        ensures
            r == (TypographyPattern { weight: Option::Some(weight), ..self }),
    {
        TypographyPattern { weight: Option::Some(weight), ..self }
    }

    /// Configures the color.
    pub fn color(self, color: TypographyColor) -> (r: Self)
        ensures
            r == (TypographyPattern { color, ..self }),
    {
        TypographyPattern { color, ..self }
    }

    /// Configures the alignment.
    pub fn alignment(self, alignment: TypographyAlignment) -> (r: Self)
        ensures
            r == (TypographyPattern { alignment: Option::Some(alignment), ..self }),
    {
        TypographyPattern { alignment: Option::Some(alignment), ..self }
    }

    /// Configures the overflow behavior.
    pub fn overflow(self, overflow: TypographyOverflow) -> (r: Self)
        ensures
            r == (TypographyPattern { overflow, ..self }),
    {
        TypographyPattern { overflow, ..self }
    }

    /// Configures the HTML element.
    pub fn element(self, element: TypographyElement) -> (r: Self)
        ensures
            r == (TypographyPattern { element, ..self }),
    {
        TypographyPattern { element, ..self }
    }

    /// Builds the normalized class string of this pattern.
    pub fn classes(&self) -> (r: String)
        ensures
            r@ == typography_classes_spec(*self),
    {
        let mut parts: Vec<String> = Vec::new();
        push_part(&mut parts, "leading-relaxed");
        push_part_string(&mut parts, self.hierarchy_string());
        push_part(
            &mut parts,
            match self.size {
                Option::Some(TypographySize::XS) => "text-xs",
                Option::Some(TypographySize::SM) => "text-sm",
                Option::Some(TypographySize::MD) => "text-base",
                Option::Some(TypographySize::LG) => "text-lg",
                Option::Some(TypographySize::XL) => "text-xl",
                Option::Some(TypographySize::XL2) => "text-2xl",
                Option::Some(TypographySize::XL3) => "text-3xl",
                Option::Some(TypographySize::XL4) => "text-4xl",
                Option::None => "",
            },
        );
        push_part(
            &mut parts,
            match self.weight {
                Option::Some(TypographyWeight::Light) => "font-light",
                Option::Some(TypographyWeight::Normal) => "font-normal",
                Option::Some(TypographyWeight::Medium) => "font-medium",
                Option::Some(TypographyWeight::Semibold) => "font-semibold",
                Option::Some(TypographyWeight::Bold) => "font-bold",
                Option::Some(TypographyWeight::ExtraBold) => "font-extrabold",
                Option::None => "",
            },
        );
        push_part_string(&mut parts, self.color_string());
        push_part(
            &mut parts,
            match self.alignment {
                Option::Some(TypographyAlignment::Left) => "text-left",
                Option::Some(TypographyAlignment::Center) => "text-center",
                Option::Some(TypographyAlignment::Right) => "text-right",
                Option::Some(TypographyAlignment::Justify) => "text-justify",
                Option::None => "",
            },
        );
        push_part(
            &mut parts,
            match self.overflow {
                TypographyOverflow::Normal => "",
                TypographyOverflow::Truncate => "truncate",
                TypographyOverflow::Clamp(_) => "",
            },
        );
        proof {
            assert(views(parts@) =~= typography_fragments(
                self.hierarchy,
                self.size,
                self.weight,
                self.color,
                self.alignment,
                self.overflow,
                self.color_provider.spec_palette(),
            ));
        }
        assemble_fragments(&parts)
    }

    /// Builds the hierarchy fragment.
    fn hierarchy_string(&self) -> (r: String)
        ensures
            r@ == hierarchy_fragment(self.hierarchy, self.size is None, self.weight is None),
    {
        let mut s = match self.hierarchy {
            TypographyHierarchy::Title => "tracking-tight",
            TypographyHierarchy::Heading => "tracking-tight",
            TypographyHierarchy::Subheading => "tracking-tight",
            TypographyHierarchy::H4 => "tracking-tight",
            TypographyHierarchy::Body => "",
            TypographyHierarchy::BodyLarge => "",
            TypographyHierarchy::BodySmall => "",
            TypographyHierarchy::Caption => "",
            TypographyHierarchy::Overline => "uppercase tracking-wider",
            TypographyHierarchy::Code => "font-mono bg-gray-100 px-1 py-0.5 rounded",
        }.to_owned();
        if self.size.is_none() {
            s.append(
                match self.hierarchy {
                    TypographyHierarchy::Title => " text-4xl",
                    TypographyHierarchy::Heading => " text-3xl",
                    TypographyHierarchy::Subheading => " text-2xl",
                    TypographyHierarchy::H4 => " text-xl",
                    TypographyHierarchy::Body => " text-base",
                    TypographyHierarchy::BodyLarge => " text-lg",
                    TypographyHierarchy::BodySmall => " text-sm",
                    TypographyHierarchy::Caption => " text-sm",
                    TypographyHierarchy::Overline => " text-xs",
                    TypographyHierarchy::Code => " text-sm",
                },
            );
        }
        if self.weight.is_none() {
            s.append(
                match self.hierarchy {
                    TypographyHierarchy::Title => " font-bold",
                    TypographyHierarchy::Heading => " font-bold",
                    TypographyHierarchy::Subheading => " font-bold",
                    TypographyHierarchy::H4 => " font-bold",
                    TypographyHierarchy::Body => " font-normal",
                    TypographyHierarchy::BodyLarge => " font-normal",
                    TypographyHierarchy::BodySmall => " font-normal",
                    TypographyHierarchy::Caption => " font-medium",
                    TypographyHierarchy::Overline => " font-medium",
                    TypographyHierarchy::Code => "",
                },
            );
        }
        proof {
            reveal_strlit("");
            assert(""@ =~= Seq::<char>::empty());
            assert(s@ =~= hierarchy_fragment(
                self.hierarchy,
                self.size is None,
                self.weight is None,
            ));
        }
        s
    }

    /// Builds the color fragment.
    fn color_string(&self) -> (r: String)
        ensures
            r@ == typography_color_fragment(
                self.color,
                self.hierarchy,
                self.color_provider.spec_palette(),
            ),
    {
        let tag = match self.color {
            TypographyColor::Primary => Color::Primary,
            TypographyColor::Secondary => Color::Secondary,
            TypographyColor::Accent => Color::Accent,
            TypographyColor::Muted => Color::TextSecondary,
            TypographyColor::Disabled => Color::InteractiveDisabled,
            TypographyColor::White => Color::TextInverse,
            TypographyColor::Black => Color::Foreground,
            TypographyColor::Success => Color::Success,
            TypographyColor::Warning => Color::Warning,
            TypographyColor::Error => Color::Error,
            TypographyColor::Info => Color::Info,
            TypographyColor::Auto => match self.hierarchy {
                TypographyHierarchy::Caption => Color::TextSecondary,
                TypographyHierarchy::Overline => Color::TextTertiary,
                _ => Color::TextPrimary,
            },
        };
        self.color_provider.text_class(tag)
    }

    /// The HTML element for this pattern.
    pub fn get_element(&self) -> (r: String)
        ensures
            r@ == element_view(self.element, self.hierarchy),
    {
        match self.element {
            TypographyElement::Auto => match self.hierarchy {
                TypographyHierarchy::Title => "h1",
                TypographyHierarchy::Heading => "h2",
                TypographyHierarchy::Subheading => "h3",
                TypographyHierarchy::H4 => "h4",
                TypographyHierarchy::Caption => "span",
                TypographyHierarchy::Overline => "span",
                TypographyHierarchy::Code => "code",
                _ => "p",
            },
            TypographyElement::H1 => "h1",
            TypographyElement::H2 => "h2",
            TypographyElement::H3 => "h3",
            TypographyElement::H4 => "h4",
            TypographyElement::H5 => "h5",
            TypographyElement::H6 => "h6",
            TypographyElement::P => "p",
            TypographyElement::Span => "span",
            TypographyElement::Div => "div",
        }.to_owned()
    }

    /// The inline CSS for line clamping, when clamping is configured.
    pub fn get_clamp_style(&self) -> (r: String)
        ensures
            r@ == clamp_style_view(self.overflow),
    {
        match self.overflow {
            TypographyOverflow::Clamp(lines) => crate::classlist::clamp_style_string(lines),
            _ => {
                proof {
                    reveal_strlit("");
                    assert(""@ =~= Seq::<char>::empty());
                }
                String::new()
            },
        }
    }
}

/// Creates a typography pattern.
pub fn typography_pattern<T: ColorProvider>(color_provider: T) -> (r: TypographyPattern<T>)
    ensures
        r.hierarchy == TypographyHierarchy::Body,
        r.size is None,
        r.weight is None,
        r.color == TypographyColor::Auto,
        r.alignment is None,
        r.overflow == TypographyOverflow::Normal,
        r.element == TypographyElement::Auto,
        r.color_provider == color_provider,
{
    TypographyPattern::new(color_provider)
}

/// Creates a title typography pattern.
pub fn title_typography<T: ColorProvider>(color_provider: T) -> (r: TypographyPattern<T>)
    ensures
        r.hierarchy == TypographyHierarchy::Title,
        r.size is None,
        r.weight is None,
        r.color == TypographyColor::Auto,
        r.alignment is None,
        r.overflow == TypographyOverflow::Normal,
        r.element == TypographyElement::Auto,
        r.color_provider == color_provider,
{
    TypographyPattern::new(color_provider).hierarchy(TypographyHierarchy::Title)
}

/// Creates a heading typography pattern.
pub fn heading_typography<T: ColorProvider>(color_provider: T) -> (r: TypographyPattern<T>)
    ensures
        r.hierarchy == TypographyHierarchy::Heading,
        r.size is None,
        r.weight is None,
        r.color == TypographyColor::Auto,
        r.alignment is None,
        r.overflow == TypographyOverflow::Normal,
        r.element == TypographyElement::Auto,
        r.color_provider == color_provider,
{
    TypographyPattern::new(color_provider).hierarchy(TypographyHierarchy::Heading)
}

/// Creates a body typography pattern.
pub fn body_typography<T: ColorProvider>(color_provider: T) -> (r: TypographyPattern<T>)
    ensures
        r.hierarchy == TypographyHierarchy::Body,
        r.size is None,
        r.weight is None,
        r.color == TypographyColor::Auto,
        r.alignment is None,
        r.overflow == TypographyOverflow::Normal,
        r.element == TypographyElement::Auto,
        r.color_provider == color_provider,
{
    TypographyPattern::new(color_provider).hierarchy(TypographyHierarchy::Body)
}

/// Creates a caption typography pattern.
pub fn caption_typography<T: ColorProvider>(color_provider: T) -> (r: TypographyPattern<T>)
    ensures
        r.hierarchy == TypographyHierarchy::Caption,
        r.size is None,
        r.weight is None,
        r.color == TypographyColor::Auto,
        r.alignment is None,
        r.overflow == TypographyOverflow::Normal,
        r.element == TypographyElement::Auto,
        r.color_provider == color_provider,
{
    TypographyPattern::new(color_provider).hierarchy(TypographyHierarchy::Caption)
}

/// Creates a code typography pattern.
pub fn code_typography<T: ColorProvider>(color_provider: T) -> (r: TypographyPattern<T>)
    ensures
        r.hierarchy == TypographyHierarchy::Code,
        r.size is None,
        r.weight is None,
        r.color == TypographyColor::Auto,
        r.alignment is None,
        r.overflow == TypographyOverflow::Normal,
        r.element == TypographyElement::Auto,
        r.color_provider == color_provider,
{
    TypographyPattern::new(color_provider).hierarchy(TypographyHierarchy::Code)
}

} // verus!
