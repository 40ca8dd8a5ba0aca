//! Sizing tokens and the provider capability that resolves them.

use vstd::prelude::*;

verus! {

/// Size tokens for consistent component sizing.
#[derive(Debug, Clone, Copy, PartialEq, Eq, Hash, Structural)]
pub enum Size {
    XSmall,
    Small,
    Medium,
    Large,
    XLarge,
}

/// Breakpoint tokens for responsive design.
#[derive(Debug, Clone, Copy, PartialEq, Eq, Hash, Structural)]
pub enum Breakpoint {
    Mobile,
    Tablet,
    Desktop,
    Large,
}

/// A source of size fragments.
pub trait SizeProvider: Sized {
    /// The fragment this provider resolves a size token to.
    spec fn size_token(&self, size: Size) -> Seq<char>;

    /// Resolves a size token to its fragment.
    fn resolve_size(&self, size: Size) -> (r: &str)
        ensures
            r@ == self.size_token(size),
    ;

    /// The width utility class for a size token.
    fn width_class(&self, size: Size) -> (r: String)
        ensures
            r@ == "w-"@ + self.size_token(size),
    {
        let mut s = "w-".to_owned();
        s.append(self.resolve_size(size));
        s
    }

    /// The height utility class for a size token.
    fn height_class(&self, size: Size) -> (r: String)
        ensures
            r@ == "h-"@ + self.size_token(size),
    {
        let mut s = "h-".to_owned();
        s.append(self.resolve_size(size));
        s
    }
}

} // verus!
