//! Text styling builder: a chainable front end over the typography pattern,
//! with string-keyed convenience setters and custom classes.

use vstd::prelude::*;
use crate::classlist::{assemble, assemble_fragments, clamp_prefix, clamp_suffix, dec_rep,
    push_part, push_part_string, str_eq, views};
use crate::foundation::color::ColorProvider;
use crate::patterns::typography::{clamp_style_view, element_view, typography_classes_spec,
    TypographyAlignment, TypographyColor, TypographyHierarchy, TypographyOverflow,
    TypographyPattern, TypographySize, TypographyWeight};

verus! {

broadcast use vstd::seq_lib::group_seq_properties;

/// Text styling builder.
#[derive(Debug, Clone)]
pub struct TextStyles<T: ColorProvider> {
    pub pattern: TypographyPattern<T>,
    pub custom_classes: Vec<String>,
}

/// The normalized class string of a text configuration: the typography
/// pattern's classes plus the custom classes, renormalized together.
pub open spec fn text_classes_spec<T: ColorProvider>(t: TextStyles<T>) -> Seq<char> {
    assemble(seq![typography_classes_spec(t.pattern)] + views(t.custom_classes@))
}

/// The hierarchy named by a string, with `Body` as the fallback.
pub open spec fn text_hierarchy_from_str(s: Seq<char>) -> TypographyHierarchy {
    if s == "title"@ {
        TypographyHierarchy::Title
    } else if s == "heading"@ {
        TypographyHierarchy::Heading
    } else if s == "subheading"@ {
        TypographyHierarchy::Subheading
    } else if s == "h4"@ {
        TypographyHierarchy::H4
    } else if s == "body"@ {
        TypographyHierarchy::Body
    } else if s == "body-large"@ {
        TypographyHierarchy::BodyLarge
    } else if s == "body-small"@ {
        TypographyHierarchy::BodySmall
    } else if s == "caption"@ {
        TypographyHierarchy::Caption
    } else if s == "overline"@ {
        TypographyHierarchy::Overline
    } else if s == "code"@ {
        TypographyHierarchy::Code
    } else {
        TypographyHierarchy::Body
    }
}

/// The size named by a string; unrecognized names configure nothing.
pub open spec fn text_size_from_str(s: Seq<char>) -> Option<TypographySize> {
    if s == "xs"@ {
        Option::Some(TypographySize::XS)
    } else if s == "sm"@ {
        Option::Some(TypographySize::SM)
    } else if s == "md"@ {
        Option::Some(TypographySize::MD)
    } else if s == "lg"@ {
        Option::Some(TypographySize::LG)
    } else if s == "xl"@ {
        Option::Some(TypographySize::XL)
    } else if s == "2xl"@ {
        Option::Some(TypographySize::XL2)
    } else if s == "3xl"@ {
        Option::Some(TypographySize::XL3)
    } else if s == "4xl"@ {
        Option::Some(TypographySize::XL4)
    } else {
        Option::None
    }
}

/// The weight named by a string; unrecognized names configure nothing.
pub open spec fn text_weight_from_str(s: Seq<char>) -> Option<TypographyWeight> {
    if s == "light"@ {
        Option::Some(TypographyWeight::Light)
    } else if s == "normal"@ {
        Option::Some(TypographyWeight::Normal)
    } else if s == "medium"@ {
        Option::Some(TypographyWeight::Medium)
    } else if s == "semibold"@ {
        Option::Some(TypographyWeight::Semibold)
    } else if s == "bold"@ {
        Option::Some(TypographyWeight::Bold)
    } else if s == "extrabold"@ {
        Option::Some(TypographyWeight::ExtraBold)
    } else {
        Option::None
    }
}

/// The color named by a string; unrecognized names configure nothing.
pub open spec fn text_color_from_str(s: Seq<char>) -> Option<TypographyColor> {
    if s == "primary"@ {
        Option::Some(TypographyColor::Primary)
    } else if s == "secondary"@ {
        Option::Some(TypographyColor::Secondary)
    } else if s == "accent"@ {
        Option::Some(TypographyColor::Accent)
    } else if s == "muted"@ {
        Option::Some(TypographyColor::Muted)
    } else if s == "disabled"@ {
        Option::Some(TypographyColor::Disabled)
    } else if s == "white"@ {
        Option::Some(TypographyColor::White)
    } else if s == "black"@ {
        Option::Some(TypographyColor::Black)
    } else if s == "success"@ {
        Option::Some(TypographyColor::Success)
    } else if s == "warning"@ {
        Option::Some(TypographyColor::Warning)
    } else if s == "error"@ {
        Option::Some(TypographyColor::Error)
    } else if s == "info"@ {
        Option::Some(TypographyColor::Info)
    } else if s == "auto"@ {
        Option::Some(TypographyColor::Auto)
    } else {
        Option::None
    }
}

/// The alignment named by a string; unrecognized names configure nothing.
pub open spec fn text_alignment_from_str(s: Seq<char>) -> Option<TypographyAlignment> {
    if s == "left"@ {
        Option::Some(TypographyAlignment::Left)
    } else if s == "center"@ {
        Option::Some(TypographyAlignment::Center)
    } else if s == "right"@ {
        Option::Some(TypographyAlignment::Right)
    } else if s == "justify"@ {
        Option::Some(TypographyAlignment::Justify)
    } else {
        Option::None
    }
}

impl<T: ColorProvider> TextStyles<T> {
    /// Creates a text builder with default typography.
    pub fn new(color_provider: T) -> (r: Self)
        ensures
            r.pattern.hierarchy == TypographyHierarchy::Body,
            r.pattern.size is None,
            r.pattern.weight is None,
            r.pattern.color == TypographyColor::Auto,
            r.pattern.alignment is None,
            r.pattern.overflow == TypographyOverflow::Normal,
            r.pattern.color_provider == color_provider,
            r.custom_classes@.len() == 0,
    {
        TextStyles { pattern: TypographyPattern::new(color_provider), custom_classes: Vec::new() }
    }

    /// Configures the hierarchy.
    pub fn hierarchy(self, hierarchy: TypographyHierarchy) -> (r: Self)
        ensures
            r.pattern == (TypographyPattern { hierarchy, ..self.pattern }),
            r.custom_classes == self.custom_classes,
    {
        TextStyles { pattern: self.pattern.hierarchy(hierarchy), ..self }
    }

    /// Configures the hierarchy named by a string; unrecognized names fall
    /// back to `Body`.
    pub fn hierarchy_str(self, hierarchy: &str) -> (r: Self)
        ensures
            r.pattern == (TypographyPattern {
                hierarchy: text_hierarchy_from_str(hierarchy@),
                ..self.pattern
            }),
            r.custom_classes == self.custom_classes,
    {
        let h = if str_eq(hierarchy, "title") {
            TypographyHierarchy::Title
        } else if str_eq(hierarchy, "heading") {
            TypographyHierarchy::Heading
        } else if str_eq(hierarchy, "subheading") {
            TypographyHierarchy::Subheading
        } else if str_eq(hierarchy, "h4") {
            TypographyHierarchy::H4
        } else if str_eq(hierarchy, "body") {
            TypographyHierarchy::Body
        } else if str_eq(hierarchy, "body-large") {
            TypographyHierarchy::BodyLarge
        } else if str_eq(hierarchy, "body-small") {
            TypographyHierarchy::BodySmall
        } else if str_eq(hierarchy, "caption") {
            TypographyHierarchy::Caption
        } else if str_eq(hierarchy, "overline") {
            TypographyHierarchy::Overline
        } else if str_eq(hierarchy, "code") {
            TypographyHierarchy::Code
        } else {
            TypographyHierarchy::Body
        };
        TextStyles { pattern: self.pattern.hierarchy(h), ..self }
    }

    /// Configures a size override.
    pub fn size(self, size: TypographySize) -> (r: Self)
        ensures
            r.pattern == (TypographyPattern { size: Option::Some(size), ..self.pattern }),
            r.custom_classes == self.custom_classes,
    {
        TextStyles { pattern: self.pattern.size(size), ..self }
    }

    /// Configures the size named by a string; unrecognized names change
    /// nothing.
    pub fn size_str(self, size: &str) -> (r: Self)
        ensures
            r.pattern == (TypographyPattern {
                size: match text_size_from_str(size@) {
                    Option::Some(v) => Option::Some(v),
                    Option::None => self.pattern.size,
                },
                ..self.pattern
            }),
            r.custom_classes == self.custom_classes,
    {
        let v = if str_eq(size, "xs") {
            Option::Some(TypographySize::XS)
        } else if str_eq(size, "sm") {
            Option::Some(TypographySize::SM)
        } else if str_eq(size, "md") {
            Option::Some(TypographySize::MD)
        } else if str_eq(size, "lg") {
            Option::Some(TypographySize::LG)
        } else if str_eq(size, "xl") {
            Option::Some(TypographySize::XL)
        } else if str_eq(size, "2xl") {
            Option::Some(TypographySize::XL2)
        } else if str_eq(size, "3xl") {
            Option::Some(TypographySize::XL3)
        } else if str_eq(size, "4xl") {
            Option::Some(TypographySize::XL4)
        } else {
            Option::None
        };
        match v {
            Option::Some(sz) => TextStyles { pattern: self.pattern.size(sz), ..self },
            Option::None => self,
        }
    }

    /// Configures a weight override.
    pub fn weight(self, weight: TypographyWeight) -> (r: Self)
        ensures
            r.pattern == (TypographyPattern { weight: Option::Some(weight), ..self.pattern }),
            r.custom_classes == self.custom_classes,
    {
        TextStyles { pattern: self.pattern.weight(weight), ..self }
    }

    /// Configures the weight named by a string; unrecognized names change
    /// nothing.
    pub fn weight_str(self, weight: &str) -> (r: Self)
        ensures
            r.pattern == (TypographyPattern {
                weight: match text_weight_from_str(weight@) {
                    Option::Some(v) => Option::Some(v),
                    Option::None => self.pattern.weight,
                },
                ..self.pattern
            }),
            r.custom_classes == self.custom_classes,
    {
        let v = if str_eq(weight, "light") {
            Option::Some(TypographyWeight::Light)
        } else if str_eq(weight, "normal") {
            Option::Some(TypographyWeight::Normal)
        } else if str_eq(weight, "medium") {
            Option::Some(TypographyWeight::Medium)
        } else if str_eq(weight, "semibold") {
            Option::Some(TypographyWeight::Semibold)
        } else if str_eq(weight, "bold") {
            Option::Some(TypographyWeight::Bold)
        } else if str_eq(weight, "extrabold") {
            Option::Some(TypographyWeight::ExtraBold)
        } else {
            Option::None
        };
        match v {
            Option::Some(w) => TextStyles { pattern: self.pattern.weight(w), ..self },
            Option::None => self,
        }
    }

    /// Configures the color.
    pub fn color(self, color: TypographyColor) -> (r: Self)
        ensures
            r.pattern == (TypographyPattern { color, ..self.pattern }),
            r.custom_classes == self.custom_classes,
    {
        TextStyles { pattern: self.pattern.color(color), ..self }
    }

    /// Configures the color named by a string; unrecognized names change
    /// nothing.
    pub fn color_str(self, color: &str) -> (r: Self)
        ensures
            r.pattern == (TypographyPattern {
                color: match text_color_from_str(color@) {
                    Option::Some(v) => v,
                    Option::None => self.pattern.color,
                },
                ..self.pattern
            }),
            r.custom_classes == self.custom_classes,
    {
        let v = if str_eq(color, "primary") {
            Option::Some(TypographyColor::Primary)
        } else if str_eq(color, "secondary") {
            Option::Some(TypographyColor::Secondary)
        } else if str_eq(color, "accent") {
            Option::Some(TypographyColor::Accent)
        } else if str_eq(color, "muted") {
            Option::Some(TypographyColor::Muted)
        } else if str_eq(color, "disabled") {
            Option::Some(TypographyColor::Disabled)
        } else if str_eq(color, "white") {
            Option::Some(TypographyColor::White)
        } else if str_eq(color, "black") {
            Option::Some(TypographyColor::Black)
        } else if str_eq(color, "success") {
            Option::Some(TypographyColor::Success)
        } else if str_eq(color, "warning") {
            Option::Some(TypographyColor::Warning)
        } else if str_eq(color, "error") {
            Option::Some(TypographyColor::Error)
        } else if str_eq(color, "info") {
            Option::Some(TypographyColor::Info)
        } else if str_eq(color, "auto") {
            Option::Some(TypographyColor::Auto)
        } else {
            Option::None
        };
        match v {
            Option::Some(c) => TextStyles { pattern: self.pattern.color(c), ..self },
            Option::None => self,
        }
    }

    /// Configures the alignment.
    pub fn alignment(self, alignment: TypographyAlignment) -> (r: Self)
        ensures
            r.pattern == (TypographyPattern {
                alignment: Option::Some(alignment),
                ..self.pattern
            }),
            r.custom_classes == self.custom_classes,
    {
        TextStyles { pattern: self.pattern.alignment(alignment), ..self }
    }

    /// Configures the alignment named by a string; unrecognized names change
    /// nothing.
    pub fn alignment_str(self, alignment: &str) -> (r: Self)
        ensures
            r.pattern == (TypographyPattern {
                alignment: match text_alignment_from_str(alignment@) {
                    Option::Some(v) => Option::Some(v),
                    Option::None => self.pattern.alignment,
                },
                ..self.pattern
            }),
            r.custom_classes == self.custom_classes,
    {
        let v = if str_eq(alignment, "left") {
            Option::Some(TypographyAlignment::Left)
        } else if str_eq(alignment, "center") {
            Option::Some(TypographyAlignment::Center)
        } else if str_eq(alignment, "right") {
            Option::Some(TypographyAlignment::Right)
        } else if str_eq(alignment, "justify") {
            Option::Some(TypographyAlignment::Justify)
        } else {
            Option::None
        };
        match v {
            Option::Some(a) => TextStyles { pattern: self.pattern.alignment(a), ..self },
            Option::None => self,
        }
    }

    /// Configures the overflow behavior.
    pub fn overflow(self, overflow: TypographyOverflow) -> (r: Self)
        ensures
            r.pattern == (TypographyPattern { overflow, ..self.pattern }),
            r.custom_classes == self.custom_classes,
    {
        TextStyles { pattern: self.pattern.overflow(overflow), ..self }
    }

    /// Enables truncation with an ellipsis.
    pub fn truncate(self) -> (r: Self)
        ensures
            r.pattern == (TypographyPattern {
                overflow: TypographyOverflow::Truncate,
                ..self.pattern
            }),
            r.custom_classes == self.custom_classes,
    {
        TextStyles { pattern: self.pattern.overflow(TypographyOverflow::Truncate), ..self }
    }

    /// Clamps the text to the given number of lines.
    pub fn clamp_lines(self, lines: u32) -> (r: Self)
        ensures
            r.pattern == (TypographyPattern {
                overflow: TypographyOverflow::Clamp(lines),
                ..self.pattern
            }),
            r.custom_classes == self.custom_classes,
    {
        TextStyles { pattern: self.pattern.overflow(TypographyOverflow::Clamp(lines)), ..self }
    }

    /// Appends a custom class string; an empty string adds nothing.
    pub fn custom_classes(self, classes: &str) -> (r: Self)
        ensures
            r.pattern == self.pattern,
            classes@.len() == 0 ==> r.custom_classes == self.custom_classes,
            classes@.len() > 0 ==> views(r.custom_classes@) == views(self.custom_classes@).push(
                classes@,
            ),
    {
        if classes.is_empty() {
            self
        } else {
            let mut c = self;
            let owned = classes.to_owned();
            c.custom_classes.push(owned);
            proof {
                assert(views(c.custom_classes@) =~= views(self.custom_classes@).push(classes@));
            }
            c
        }
    }

    /// Configures the title hierarchy.
    pub fn title(self) -> (r: Self)
        ensures
            r.pattern == (TypographyPattern {
                hierarchy: TypographyHierarchy::Title,
                ..self.pattern
            }),
            r.custom_classes == self.custom_classes,
    {
        self.hierarchy(TypographyHierarchy::Title)
    }

    /// Configures the heading hierarchy.
    pub fn heading(self) -> (r: Self)
        ensures
            r.pattern == (TypographyPattern {
                hierarchy: TypographyHierarchy::Heading,
                ..self.pattern
            }),
            r.custom_classes == self.custom_classes,
    {
        self.hierarchy(TypographyHierarchy::Heading)
    }

    /// Configures the subheading hierarchy.
    pub fn subheading(self) -> (r: Self)
        ensures
            r.pattern == (TypographyPattern {
                hierarchy: TypographyHierarchy::Subheading,
                ..self.pattern
            }),
            r.custom_classes == self.custom_classes,
    {
        self.hierarchy(TypographyHierarchy::Subheading)
    }

    /// Configures the minor heading hierarchy.
    pub fn h4(self) -> (r: Self)
        ensures
            r.pattern == (TypographyPattern {
                hierarchy: TypographyHierarchy::H4,
                ..self.pattern
            }),
            r.custom_classes == self.custom_classes,
    {
        self.hierarchy(TypographyHierarchy::H4)
    }

    /// Configures the body hierarchy.
    pub fn body(self) -> (r: Self)
        ensures
            r.pattern == (TypographyPattern {
                hierarchy: TypographyHierarchy::Body,
                ..self.pattern
            }),
            r.custom_classes == self.custom_classes,
    {
        self.hierarchy(TypographyHierarchy::Body)
    }

    /// Configures the large body hierarchy.
    pub fn body_large(self) -> (r: Self)
        ensures
            r.pattern == (TypographyPattern {
                hierarchy: TypographyHierarchy::BodyLarge,
                ..self.pattern
            }),
            r.custom_classes == self.custom_classes,
    {
        self.hierarchy(TypographyHierarchy::BodyLarge)
    }

    /// Configures the small body hierarchy.
    pub fn body_small(self) -> (r: Self)
        ensures
            r.pattern == (TypographyPattern {
                hierarchy: TypographyHierarchy::BodySmall,
                ..self.pattern
            }),
            r.custom_classes == self.custom_classes,
    {
        self.hierarchy(TypographyHierarchy::BodySmall)
    }

    /// Configures the caption hierarchy.
    pub fn caption(self) -> (r: Self)
        ensures
            r.pattern == (TypographyPattern {
                hierarchy: TypographyHierarchy::Caption,
                ..self.pattern
            }),
            r.custom_classes == self.custom_classes,
    {
        self.hierarchy(TypographyHierarchy::Caption)
    }

    /// Configures the overline hierarchy.
    pub fn overline(self) -> (r: Self)
        ensures
            r.pattern == (TypographyPattern {
                hierarchy: TypographyHierarchy::Overline,
                ..self.pattern
            }),
            r.custom_classes == self.custom_classes,
    {
        self.hierarchy(TypographyHierarchy::Overline)
    }

    /// Configures the code hierarchy.
    pub fn code(self) -> (r: Self)
        ensures
            r.pattern == (TypographyPattern {
                hierarchy: TypographyHierarchy::Code,
                ..self.pattern
            }),
            r.custom_classes == self.custom_classes,
    {
        self.hierarchy(TypographyHierarchy::Code)
    }

    /// Configures the extra-small size.
    pub fn extra_small(self) -> (r: Self)
        ensures
            r.pattern == (TypographyPattern {
                size: Option::Some(TypographySize::XS),
                ..self.pattern
            }),
            r.custom_classes == self.custom_classes,
    {
        self.size(TypographySize::XS)
    }

    /// Configures the small size.
    pub fn small(self) -> (r: Self)
        ensures
            r.pattern == (TypographyPattern {
                size: Option::Some(TypographySize::SM),
                ..self.pattern
            }),
            r.custom_classes == self.custom_classes,
    {
        self.size(TypographySize::SM)
    }

    /// Configures the medium size.
    pub fn medium(self) -> (r: Self)
        ensures
            r.pattern == (TypographyPattern {
                size: Option::Some(TypographySize::MD),
                ..self.pattern
            }),
            r.custom_classes == self.custom_classes,
    {
        self.size(TypographySize::MD)
    }

    /// Configures the large size.
    pub fn large(self) -> (r: Self)
        ensures
            r.pattern == (TypographyPattern {
                size: Option::Some(TypographySize::LG),
                ..self.pattern
            }),
            r.custom_classes == self.custom_classes,
    {
        self.size(TypographySize::LG)
    }

    /// Configures the extra-large size.
    pub fn extra_large(self) -> (r: Self)
        ensures
            r.pattern == (TypographyPattern {
                size: Option::Some(TypographySize::XL),
                ..self.pattern
            }),
            r.custom_classes == self.custom_classes,
    {
        self.size(TypographySize::XL)
    }

    /// Configures the light weight.
    pub fn light(self) -> (r: Self)
        ensures
            r.pattern == (TypographyPattern {
                weight: Option::Some(TypographyWeight::Light),
                ..self.pattern
            }),
            r.custom_classes == self.custom_classes,
    {
        self.weight(TypographyWeight::Light)
    }

    /// Configures the normal weight.
    pub fn normal(self) -> (r: Self)
        ensures
            r.pattern == (TypographyPattern {
                weight: Option::Some(TypographyWeight::Normal),
                ..self.pattern
            }),
            r.custom_classes == self.custom_classes,
    {
        self.weight(TypographyWeight::Normal)
    }

    /// Configures the medium weight.
    pub fn medium_weight(self) -> (r: Self)
        ensures
            r.pattern == (TypographyPattern {
                weight: Option::Some(TypographyWeight::Medium),
                ..self.pattern
            }),
            r.custom_classes == self.custom_classes,
    {
        self.weight(TypographyWeight::Medium)
    }

    /// Configures the semibold weight.
    pub fn semibold(self) -> (r: Self)
        ensures
            r.pattern == (TypographyPattern {
                weight: Option::Some(TypographyWeight::Semibold),
                ..self.pattern
            }),
            r.custom_classes == self.custom_classes,
    {
        self.weight(TypographyWeight::Semibold)
    }

    /// Configures the bold weight.
    pub fn bold(self) -> (r: Self)
        ensures
            r.pattern == (TypographyPattern {
                weight: Option::Some(TypographyWeight::Bold),
                ..self.pattern
            }),
            r.custom_classes == self.custom_classes,
    {
        self.weight(TypographyWeight::Bold)
    }

    /// Configures the primary brand color.
    pub fn primary(self) -> (r: Self)
        ensures
            r.pattern == (TypographyPattern {
                color: TypographyColor::Primary,
                ..self.pattern
            }),
            r.custom_classes == self.custom_classes,
    {
        self.color(TypographyColor::Primary)
    }

    /// Configures the secondary brand color.
    pub fn secondary(self) -> (r: Self)
        ensures
            r.pattern == (TypographyPattern {
                color: TypographyColor::Secondary,
                ..self.pattern
            }),
            r.custom_classes == self.custom_classes,
    {
        self.color(TypographyColor::Secondary)
    }

    /// Configures the accent color.
    pub fn accent(self) -> (r: Self)
        ensures
            r.pattern == (TypographyPattern {
                color: TypographyColor::Accent,
                ..self.pattern
            }),
            r.custom_classes == self.custom_classes,
    {
        self.color(TypographyColor::Accent)
    }

    /// Configures the muted color.
    pub fn muted(self) -> (r: Self)
        ensures
            r.pattern == (TypographyPattern { color: TypographyColor::Muted, ..self.pattern }),
            r.custom_classes == self.custom_classes,
    {
        self.color(TypographyColor::Muted)
    }

    /// Configures the disabled color.
    pub fn disabled(self) -> (r: Self)
        ensures
            r.pattern == (TypographyPattern {
                color: TypographyColor::Disabled,
                ..self.pattern
            }),
            r.custom_classes == self.custom_classes,
    {
        self.color(TypographyColor::Disabled)
    }

    /// Configures the white color.
    pub fn white(self) -> (r: Self)
        ensures
            r.pattern == (TypographyPattern { color: TypographyColor::White, ..self.pattern }),
            r.custom_classes == self.custom_classes,
    {
        self.color(TypographyColor::White)
    }

    /// Configures the success color.
    pub fn success(self) -> (r: Self)
        ensures
            r.pattern == (TypographyPattern {
                color: TypographyColor::Success,
                ..self.pattern
            }),
            r.custom_classes == self.custom_classes,
    {
        self.color(TypographyColor::Success)
    }

    /// Configures the warning color.
    pub fn warning(self) -> (r: Self)
        ensures
            r.pattern == (TypographyPattern {
                color: TypographyColor::Warning,
                ..self.pattern
            }),
            r.custom_classes == self.custom_classes,
    {
        self.color(TypographyColor::Warning)
    }

    /// Configures the error color.
    pub fn error(self) -> (r: Self)
        ensures
            r.pattern == (TypographyPattern { color: TypographyColor::Error, ..self.pattern }),
            r.custom_classes == self.custom_classes,
    {
        self.color(TypographyColor::Error)
    }

    /// Configures left alignment.
    pub fn left(self) -> (r: Self)
        ensures
            r.pattern == (TypographyPattern {
                alignment: Option::Some(TypographyAlignment::Left),
                ..self.pattern
            }),
            r.custom_classes == self.custom_classes,
    {
        self.alignment(TypographyAlignment::Left)
    }

    /// Configures centered alignment.
    pub fn center(self) -> (r: Self)
        ensures
            r.pattern == (TypographyPattern {
                alignment: Option::Some(TypographyAlignment::Center),
                ..self.pattern
            }),
            r.custom_classes == self.custom_classes,
    {
        self.alignment(TypographyAlignment::Center)
    }

    /// Configures right alignment.
    pub fn right(self) -> (r: Self)
        ensures
            r.pattern == (TypographyPattern {
                alignment: Option::Some(TypographyAlignment::Right),
                ..self.pattern
            }),
            r.custom_classes == self.custom_classes,
    {
        self.alignment(TypographyAlignment::Right)
    }

    /// Configures justified alignment.
    pub fn justify(self) -> (r: Self)
        ensures
            r.pattern == (TypographyPattern {
                alignment: Option::Some(TypographyAlignment::Justify),
                ..self.pattern
            }),
            r.custom_classes == self.custom_classes,
    {
        self.alignment(TypographyAlignment::Justify)
    }

    /// Builds the normalized class string.
    pub fn classes(&self) -> (r: String)
        ensures
            r@ == text_classes_spec(*self),
    {
        let mut parts: Vec<String> = Vec::new();
        push_part_string(&mut parts, self.pattern.classes());
        let ghost head = views(parts@);
        proof {
            assert(head =~= seq![typography_classes_spec(self.pattern)]);
        }
        let mut i: usize = 0;
        let ghost customs = views(self.custom_classes@);
        proof {
            assert(head + customs.take(0) =~= head);
        }
        while i < self.custom_classes.len()
            invariant
                i <= self.custom_classes.len(),
                head == seq![typography_classes_spec(self.pattern)],
                customs == views(self.custom_classes@),
                views(parts@) == head + customs.take(i as int),
            decreases self.custom_classes.len() - i,
        {
            proof {
                assert(customs[i as int] == self.custom_classes@[i as int]@);
            }
            push_part(&mut parts, self.custom_classes[i].as_str());
            proof {
                assert(views(parts@) =~= head + customs.take(i + 1));
            }
            i += 1;
        }
        proof {
            assert(customs.take(self.custom_classes@.len() as int) =~= customs);
        }
        assemble_fragments(&parts)
    }

    /// The HTML element for this text style.
    pub fn element(&self) -> (r: String)
        ensures
            r@ == element_view(self.pattern.element, self.pattern.hierarchy),
    {
        self.pattern.get_element()
    }

    /// The inline CSS for line clamping, when clamping is configured.
    pub fn clamp_style(&self) -> (r: String)
        ensures
            r@ == clamp_style_view(self.pattern.overflow),
    {
        self.pattern.get_clamp_style()
    }
}

/// Creates a text builder.
pub fn text_styles<T: ColorProvider>(color_provider: T) -> (r: TextStyles<T>)
    ensures
        r.pattern.hierarchy == TypographyHierarchy::Body,
        r.pattern.size is None,
        r.pattern.weight is None,
        r.pattern.color == TypographyColor::Auto,
        r.pattern.alignment is None,
        r.pattern.overflow == TypographyOverflow::Normal,
        r.pattern.color_provider == color_provider,
        r.custom_classes@.len() == 0,
{
    TextStyles::new(color_provider)
}

/// Builds text classes from string-valued options in one call.
pub fn text_classes_from_strings<T: ColorProvider>(
    color_provider: T,
    hierarchy: &str,
    size: Option<&str>,
    weight: Option<&str>,
    color: Option<&str>,
    alignment: Option<&str>,
    truncate: bool,
    clamp_lines: Option<u32>,
    custom_classes: Option<&str>,
) -> (r: String)
    ensures
        ({
            let p = TypographyPattern {
                hierarchy: text_hierarchy_from_str(hierarchy@),
                size: match size {
                    Option::Some(s) => text_size_from_str(s@),
                    Option::None => Option::None,
                },
                weight: match weight {
                    Option::Some(s) => text_weight_from_str(s@),
                    Option::None => Option::None,
                },
                color: match color {
                    Option::Some(s) => match text_color_from_str(s@) {
                        Option::Some(v) => v,
                        Option::None => TypographyColor::Auto,
                    },
                    Option::None => TypographyColor::Auto,
                },
                alignment: match alignment {
                    Option::Some(s) => text_alignment_from_str(s@),
                    Option::None => Option::None,
                },
                overflow: match clamp_lines {
                    Option::Some(n) => TypographyOverflow::Clamp(n),
                    Option::None => if truncate {
                        TypographyOverflow::Truncate
                    } else {
                        TypographyOverflow::Normal
                    },
                },
                element: crate::patterns::typography::TypographyElement::Auto,
                color_provider,
            };
            let customs = match custom_classes {
                Option::Some(cc) => if cc@.len() > 0 {
                    seq![cc@]
                } else {
                    Seq::<Seq<char>>::empty()
                },
                Option::None => Seq::<Seq<char>>::empty(),
            };
            r@ == assemble(seq![typography_classes_spec(p)] + customs)
        }),
{
    let mut builder = text_styles(color_provider).hierarchy_str(hierarchy);
    if let Option::Some(s) = size {
        builder = builder.size_str(s);
    }
    if let Option::Some(w) = weight {
        builder = builder.weight_str(w);
    }
    if let Option::Some(c) = color {
        builder = builder.color_str(c);
    }
    if let Option::Some(a) = alignment {
        builder = builder.alignment_str(a);
    }
    if truncate {
        builder = builder.truncate();
    }
    if let Option::Some(lines) = clamp_lines {
        builder = builder.clamp_lines(lines);
    }
    if let Option::Some(custom) = custom_classes {
        builder = builder.custom_classes(custom);
    }
    builder.classes()
}

/// The HTML element name for a hierarchy name.
pub open spec fn element_from_hierarchy_view(s: Seq<char>) -> Seq<char> {
    if s == "title"@ {
        "h1"@
    } else if s == "heading"@ {
        "h2"@
    } else if s == "subheading"@ {
        "h3"@
    } else if s == "h4"@ {
        "h4"@
    } else if s == "caption"@ || s == "overline"@ {
        "span"@
    } else if s == "code"@ {
        "code"@
    } else {
        "p"@
    }
}

/// Maps a hierarchy name to the HTML element it renders as.
pub fn text_element_from_hierarchy(hierarchy: &str) -> (r: String)
    ensures
        r@ == element_from_hierarchy_view(hierarchy@),
{
    if str_eq(hierarchy, "title") {
        "h1".to_owned()
    } else if str_eq(hierarchy, "heading") {
        "h2".to_owned()
    } else if str_eq(hierarchy, "subheading") {
        "h3".to_owned()
    } else if str_eq(hierarchy, "h4") {
        "h4".to_owned()
    } else if str_eq(hierarchy, "caption") || str_eq(hierarchy, "overline") {
        "span".to_owned()
    } else if str_eq(hierarchy, "code") {
        "code".to_owned()
    } else {
        "p".to_owned()
    }
}

/// The inline clamp style for an optional line count.
pub fn text_clamp_style(clamp_lines: Option<u32>) -> (r: String)
    ensures
        match clamp_lines {
            Option::Some(n) => r@ == clamp_prefix() + dec_rep(n as nat) + clamp_suffix(),
            Option::None => r@.len() == 0,
        },
{
    match clamp_lines {
        Option::Some(lines) => crate::classlist::clamp_style_string(lines),
        Option::None => String::new(),
    }
}

} // verus!
