//! Spacing tokens and the provider capability that resolves them.

use vstd::prelude::*;

verus! {

/// Spacing tokens for consistent spacing.
#[derive(Debug, Clone, Copy, PartialEq, Eq, Hash, Structural)]
pub enum Spacing {
    Zero,
    XSmall,
    Small,
    Medium,
    Large,
    XLarge,
    XXLarge,
}

/// A source of spacing fragments.
pub trait SpacingProvider: Sized {
    /// The fragment this provider resolves a spacing token to.
    spec fn spacing_token(&self, spacing: Spacing) -> Seq<char>;

    /// Resolves a spacing token to its fragment.
    fn resolve_spacing(&self, spacing: Spacing) -> (r: &str)
        ensures
            r@ == self.spacing_token(spacing),
    ;

    /// The padding utility class for a spacing token.
    fn padding_class(&self, spacing: Spacing) -> (r: String)
        ensures
            r@ == "p-"@ + self.spacing_token(spacing),
    {
        let mut s = "p-".to_owned();
        s.append(self.resolve_spacing(spacing));
        s
    }

    /// The margin utility class for a spacing token.
    fn margin_class(&self, spacing: Spacing) -> (r: String)
        ensures
            r@ == "m-"@ + self.spacing_token(spacing),
    {
        let mut s = "m-".to_owned();
        s.append(self.resolve_spacing(spacing));
        s
    }
}

} // verus!
