//! Theme layer: named bundles of one color palette.

use vstd::prelude::*;
use crate::foundation::color::{jupiter_palette, make_jupiter_palette, ColorPalette, ColorProvider};

verus! {

/// A named theme.
pub trait Theme: Sized {
    /// The theme's display name.
    spec fn spec_name(&self) -> Seq<char>;

    /// Returns the theme's display name.
    fn name(&self) -> (r: &str)
        ensures
            r@ == self.spec_name(),
    ;
}

/// The brand color provider of the default theme, carrying the jupiter
/// palette.
#[derive(Debug, Clone)]
pub struct VibeColors {
    palette: ColorPalette,
}

impl Default for VibeColors {
    fn default() -> (r: Self)
        ensures
            jupiter_palette(r.spec_palette()),
    {
        VibeColors { palette: make_jupiter_palette() }
    }
}

impl ColorProvider for VibeColors {
    closed spec fn spec_palette(&self) -> ColorPalette {
        self.palette
    }

    fn palette(&self) -> (p: &ColorPalette) {
        &self.palette
    }

    fn clone_provider(&self) -> (r: Self) {
        VibeColors { palette: self.palette.duplicate() }
    }
}

impl VibeColors {
    /// Creates the default theme provider.
    pub fn new() -> (r: Self)
        ensures
            jupiter_palette(r.spec_palette()),
    {
        VibeColors { palette: make_jupiter_palette() }
    }

    /// Creates a provider whose palette is the default theme palette after
    /// the given customization.
    pub fn with_overrides<F: Fn(ColorPalette) -> ColorPalette>(overrides: F) -> (r: Self)
        requires
            forall|p: ColorPalette| #[trigger] call_requires(overrides, (p,)),
        ensures
            exists|d: ColorPalette|
                jupiter_palette(d) && #[trigger] call_ensures(overrides, (d,), r.spec_palette()),
    {
        let d = make_jupiter_palette();
        let ghost d0 = d;
        let p = overrides(d);
        let r = VibeColors { palette: p };
        proof {
            assert(jupiter_palette(d0) && call_ensures(overrides, (d0,), r.spec_palette()));
        }
        r
    }
}

/// The default theme.
#[derive(Debug, Clone)]
pub struct VibeTheme {
    colors: VibeColors,
}

impl Default for VibeTheme {
    fn default() -> (r: Self) {
        VibeTheme { colors: VibeColors::default() }
    }
}

impl Theme for VibeTheme {
    closed spec fn spec_name(&self) -> Seq<char> {
        "Jupiter"@
    }

    fn name(&self) -> (r: &str) {
        "Jupiter"
    }
}

impl VibeTheme {
    /// Creates the default theme.
    pub fn new() -> (r: Self) {
        VibeTheme { colors: VibeColors::default() }
    }

    /// The identifiers of the available themes.
    pub fn available_themes() -> (r: Vec<&'static str>)
        ensures
            r@.len() == 1,
            r@[0]@ == "jupiter"@,
    {
        let mut v: Vec<&'static str> = Vec::new();
        v.push("jupiter");
        v
    }

    /// Describes a theme by its identifier.
    pub fn theme_description(theme: &str) -> (r: &'static str)
        ensures
            theme@ == "jupiter"@ ==> r@
                == "Jupiter Design System with vibrant psychedelic colors"@,
            theme@ != "jupiter"@ ==> r@ == "Unknown theme"@,
    {
        if crate::classlist::str_eq(theme, "jupiter") {
            "Jupiter Design System with vibrant psychedelic colors"
        } else {
            "Unknown theme"
        }
    }
}

} // verus!
