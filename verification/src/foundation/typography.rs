//! Typography tokens and the provider capability that resolves them.

use vstd::prelude::*;

verus! {

/// Typography tokens for consistent text styling.
#[derive(Debug, Clone, Copy, PartialEq, Eq, Hash, Structural)]
pub enum Typography {
    Heading1,
    Heading2,
    Heading3,
    Heading4,
    Heading5,
    Heading6,
    Body,
    BodySmall,
    Caption,
    Label,
}

/// Font weight tokens.
#[derive(Debug, Clone, Copy, PartialEq, Eq, Hash, Structural)]
pub enum FontWeight {
    Light,
    Normal,
    Medium,
    SemiBold,
    Bold,
}

/// Font family tokens.
#[derive(Debug, Clone, Copy, PartialEq, Eq, Hash, Structural)]
pub enum FontFamily {
    Sans,
    Serif,
    Mono,
}

/// The utility class for a font weight token.
pub open spec fn font_weight_view(weight: FontWeight) -> Seq<char> {
    match weight {
        FontWeight::Light => "font-light"@,
        FontWeight::Normal => "font-normal"@,
        FontWeight::Medium => "font-medium"@,
        FontWeight::SemiBold => "font-semibold"@,
        FontWeight::Bold => "font-bold"@,
    }
}

/// The utility class for a font family token.
pub open spec fn font_family_view(family: FontFamily) -> Seq<char> {
    match family {
        FontFamily::Sans => "font-sans"@,
        FontFamily::Serif => "font-serif"@,
        FontFamily::Mono => "font-mono"@,
    }
}

/// A source of typography fragments.
pub trait TypographyProvider: Sized {
    /// The fragment this provider resolves a typography token to.
    spec fn typography_token(&self, typography: Typography) -> Seq<char>;

    /// Resolves a typography token to its fragment.
    fn resolve_typography(&self, typography: Typography) -> (r: &str)
        ensures
            r@ == self.typography_token(typography),
    ;

    /// The text utility class for a typography token.
    fn typography_class(&self, typography: Typography) -> (r: String)
        ensures
            r@ == "text-"@ + self.typography_token(typography),
    {
        let mut s = "text-".to_owned();
        s.append(self.resolve_typography(typography));
        s
    }

    /// The utility class for a font weight token.
    fn font_weight_class(&self, weight: FontWeight) -> (r: String)
        ensures
            r@ == font_weight_view(weight),
    {
        match weight {
            FontWeight::Light => "font-light".to_owned(),
            FontWeight::Normal => "font-normal".to_owned(),
            FontWeight::Medium => "font-medium".to_owned(),
            FontWeight::SemiBold => "font-semibold".to_owned(),
            FontWeight::Bold => "font-bold".to_owned(),
        }
    }

    /// The utility class for a font family token.
    fn font_family_class(&self, family: FontFamily) -> (r: String)
        ensures
            r@ == font_family_view(family),
    {
        match family {
            FontFamily::Sans => "font-sans".to_owned(),
            FontFamily::Serif => "font-serif".to_owned(),
            FontFamily::Mono => "font-mono".to_owned(),
        }
    }
}

} // verus!
