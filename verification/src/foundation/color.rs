//! Color system: semantic color tags, palettes, and palette-backed providers
//! that resolve a tag to a utility-class fragment.

use vstd::prelude::*;

verus! {

/// Semantic color tags.
#[derive(Debug, Clone, Copy, PartialEq, Eq, Hash, Structural)]
pub enum Color {
    Primary,
    Secondary,
    Accent,
    Success,
    Warning,
    Error,
    Info,
    Surface,
    Background,
    Foreground,
    Border,
    TextPrimary,
    TextSecondary,
    TextTertiary,
    TextInverse,
    Interactive,
    InteractiveHover,
    InteractiveActive,
    InteractiveDisabled,
}

/// One utility-class fragment per semantic color tag.
#[derive(Debug, Clone)]
pub struct ColorPalette {
    pub primary: String,
    pub secondary: String,
    pub accent: String,
    pub success: String,
    pub warning: String,
    pub error: String,
    pub info: String,
    pub surface: String,
    pub background: String,
    pub foreground: String,
    pub border: String,
    pub text_primary: String,
    pub text_secondary: String,
    pub text_tertiary: String,
    pub text_inverse: String,
    pub interactive: String,
    pub interactive_hover: String,
    pub interactive_active: String,
    pub interactive_disabled: String,
}

/// The palette fragment for a semantic color tag.
pub open spec fn slot_view(p: ColorPalette, c: Color) -> Seq<char> {
    match c {
        Color::Primary => p.primary@,
        Color::Secondary => p.secondary@,
        Color::Accent => p.accent@,
        Color::Success => p.success@,
        Color::Warning => p.warning@,
        Color::Error => p.error@,
        Color::Info => p.info@,
        Color::Surface => p.surface@,
        Color::Background => p.background@,
        Color::Foreground => p.foreground@,
        Color::Border => p.border@,
        Color::TextPrimary => p.text_primary@,
        Color::TextSecondary => p.text_secondary@,
        Color::TextTertiary => p.text_tertiary@,
        Color::TextInverse => p.text_inverse@,
        Color::Interactive => p.interactive@,
        Color::InteractiveHover => p.interactive_hover@,
        Color::InteractiveActive => p.interactive_active@,
        Color::InteractiveDisabled => p.interactive_disabled@,
    }
}

/// Resolves a semantic color tag against a palette.
pub fn resolve_in_palette(p: &ColorPalette, c: Color) -> (r: &str)
    ensures
        r@ == slot_view(*p, c),
{
    match c {
        Color::Primary => p.primary.as_str(),
        Color::Secondary => p.secondary.as_str(),
        Color::Accent => p.accent.as_str(),
        Color::Success => p.success.as_str(),
        Color::Warning => p.warning.as_str(),
        Color::Error => p.error.as_str(),
        Color::Info => p.info.as_str(),
        Color::Surface => p.surface.as_str(),
        Color::Background => p.background.as_str(),
        Color::Foreground => p.foreground.as_str(),
        Color::Border => p.border.as_str(),
        Color::TextPrimary => p.text_primary.as_str(),
        Color::TextSecondary => p.text_secondary.as_str(),
        Color::TextTertiary => p.text_tertiary.as_str(),
        Color::TextInverse => p.text_inverse.as_str(),
        Color::Interactive => p.interactive.as_str(),
        Color::InteractiveHover => p.interactive_hover.as_str(),
        Color::InteractiveActive => p.interactive_active.as_str(),
        Color::InteractiveDisabled => p.interactive_disabled.as_str(),
    }
}

/// Builds `prefix` followed by the palette fragment for `c`.
fn prefixed_class(prefix: &str, frag: &str) -> (r: String)
    ensures
        r@ == prefix@ + frag@,
{
    let mut s = prefix.to_owned();
    s.append(frag);
    s
}

/// The ring color token derived from a palette's primary color: any `bg-`
/// prefix is stripped and the `-500` shade is swapped for `-300`.
pub open spec fn primary_ring_token(p: ColorPalette) -> Seq<char> {
    crate::classlist::replace_seq(
        crate::classlist::replace_seq(p.primary@, "bg-"@, ""@),
        "-500"@,
        "-300"@,
    )
}

/// The focus ring token derived from a palette's border color: any
/// `border-` prefix is stripped.
pub open spec fn border_ring_token(p: ColorPalette) -> Seq<char> {
    crate::classlist::replace_seq(p.border@, "border-"@, ""@)
}

/// Builds the ring color token from the primary color fragment.
pub fn primary_ring_string(primary: &str) -> (r: String)
    ensures
        r@ == crate::classlist::replace_seq(
            crate::classlist::replace_seq(primary@, "bg-"@, ""@),
            "-500"@,
            "-300"@,
        ),
{
    proof {
        reveal_strlit("bg-");
        reveal_strlit("-500");
    }
    let stripped = crate::classlist::replace_all(primary, "bg-", "");
    crate::classlist::replace_all(stripped.as_str(), "-500", "-300")
}

/// Builds the focus ring token from the border color fragment.
pub fn border_ring_string(border: &str) -> (r: String)
    ensures
        r@ == crate::classlist::replace_seq(border@, "border-"@, ""@),
{
    proof {
        reveal_strlit("border-");
    }
    crate::classlist::replace_all(border, "border-", "")
}

impl ColorPalette {
    /// Copies the palette field by field.
    pub fn duplicate(&self) -> (r: Self)
        ensures
            r == *self,
    {
        ColorPalette {
            primary: self.primary.clone(),
            secondary: self.secondary.clone(),
            accent: self.accent.clone(),
            success: self.success.clone(),
            warning: self.warning.clone(),
            error: self.error.clone(),
            info: self.info.clone(),
            surface: self.surface.clone(),
            background: self.background.clone(),
            foreground: self.foreground.clone(),
            border: self.border.clone(),
            text_primary: self.text_primary.clone(),
            text_secondary: self.text_secondary.clone(),
            text_tertiary: self.text_tertiary.clone(),
            text_inverse: self.text_inverse.clone(),
            interactive: self.interactive.clone(),
            interactive_hover: self.interactive_hover.clone(),
            interactive_active: self.interactive_active.clone(),
            interactive_disabled: self.interactive_disabled.clone(),
        }
    }
}

/// A source of color classes backed by one palette.
pub trait ColorProvider: Sized {
    /// The palette this provider resolves against.
    spec fn spec_palette(&self) -> ColorPalette;

    /// Borrows the provider's palette.
    fn palette(&self) -> (p: &ColorPalette)
        ensures
            *p == self.spec_palette(),
    ;

    /// Copies this provider; the copy resolves against the same palette.
    fn clone_provider(&self) -> (r: Self)
        ensures
            r.spec_palette() == self.spec_palette(),
    ;

    /// Resolves a semantic color tag to its palette fragment.
    fn resolve_color(&self, color: Color) -> (r: &str)
        ensures
            r@ == slot_view(self.spec_palette(), color),
    {
        resolve_in_palette(self.palette(), color)
    }

    /// The `text-` utility class for a semantic color tag.
    fn text_class(&self, color: Color) -> (r: String)
        ensures
            r@ == "text-"@ + slot_view(self.spec_palette(), color),
    {
        prefixed_class("text-", self.resolve_color(color))
    }

    /// The `bg-` utility class for a semantic color tag.
    fn bg_class(&self, color: Color) -> (r: String)
        ensures
            r@ == "bg-"@ + slot_view(self.spec_palette(), color),
    {
        prefixed_class("bg-", self.resolve_color(color))
    }

    /// The `border-` utility class for a semantic color tag.
    fn border_class(&self, color: Color) -> (r: String)
        ensures
            r@ == "border-"@ + slot_view(self.spec_palette(), color),
    {
        prefixed_class("border-", self.resolve_color(color))
    }
}

/// The default brand palette: aquatic blue/green brand colors over light
/// neutral surfaces.
pub open spec fn water_palette(p: ColorPalette) -> bool {
    &&& p.primary@ == "water-blue-500"@
    &&& p.secondary@ == "water-green-500"@
    &&& p.accent@ == "water-orange-500"@
    &&& p.success@ == "green-500"@
    &&& p.warning@ == "amber-500"@
    &&& p.error@ == "red-500"@
    &&& p.info@ == "blue-500"@
    &&& p.surface@ == "white"@
    &&& p.background@ == "gray-50"@
    &&& p.foreground@ == "gray-900"@
    &&& p.border@ == "gray-200"@
    &&& p.text_primary@ == "gray-900"@
    &&& p.text_secondary@ == "gray-600"@
    &&& p.text_tertiary@ == "gray-400"@
    &&& p.text_inverse@ == "white"@
    &&& p.interactive@ == "water-blue-500"@
    &&& p.interactive_hover@ == "water-blue-600"@
    &&& p.interactive_active@ == "water-blue-700"@
    &&& p.interactive_disabled@ == "gray-300"@
}

/// The jupiter brand palette: blue/green/orange brand colors over light
/// neutral surfaces.
pub open spec fn jupiter_palette(p: ColorPalette) -> bool {
    &&& p.primary@ == "jupiter-blue-500"@
    &&& p.secondary@ == "jupiter-green-500"@
    &&& p.accent@ == "jupiter-orange-500"@
    &&& p.success@ == "green-500"@
    &&& p.warning@ == "amber-500"@
    &&& p.error@ == "red-500"@
    &&& p.info@ == "blue-500"@
    &&& p.surface@ == "white"@
    &&& p.background@ == "gray-50"@
    &&& p.foreground@ == "gray-900"@
    &&& p.border@ == "gray-200"@
    &&& p.text_primary@ == "gray-900"@
    &&& p.text_secondary@ == "gray-600"@
    &&& p.text_tertiary@ == "gray-400"@
    &&& p.text_inverse@ == "white"@
    &&& p.interactive@ == "jupiter-blue-500"@
    &&& p.interactive_hover@ == "jupiter-blue-600"@
    &&& p.interactive_active@ == "jupiter-blue-700"@
    &&& p.interactive_disabled@ == "gray-300"@
}

/// The wellness palette: water brand colors with deeper semantic shades.
pub open spec fn wellness_palette(p: ColorPalette) -> bool {
    &&& p.primary@ == "water-blue-500"@
    &&& p.secondary@ == "water-green-500"@
    &&& p.accent@ == "water-orange-500"@
    &&& p.success@ == "green-600"@
    &&& p.warning@ == "yellow-600"@
    &&& p.error@ == "red-600"@
    &&& p.info@ == "blue-600"@
    &&& p.surface@ == "white"@
    &&& p.background@ == "gray-50"@
    &&& p.foreground@ == "black"@
    &&& p.border@ == "gray-200"@
    &&& p.text_primary@ == "gray-900"@
    &&& p.text_secondary@ == "gray-600"@
    &&& p.text_tertiary@ == "gray-500"@
    &&& p.text_inverse@ == "white"@
    &&& p.interactive@ == "water-blue-500"@
    &&& p.interactive_hover@ == "water-blue-600"@
    &&& p.interactive_active@ == "water-blue-700"@
    &&& p.interactive_disabled@ == "gray-400"@
}

/// Builds the jupiter palette.
pub(crate) fn make_jupiter_palette() -> (p: ColorPalette)
    ensures
        jupiter_palette(p),
{
    ColorPalette {
        primary: "jupiter-blue-500".to_owned(),
        secondary: "jupiter-green-500".to_owned(),
        accent: "jupiter-orange-500".to_owned(),
        success: "green-500".to_owned(),
        warning: "amber-500".to_owned(),
        error: "red-500".to_owned(),
        info: "blue-500".to_owned(),
        surface: "white".to_owned(),
        background: "gray-50".to_owned(),
        foreground: "gray-900".to_owned(),
        border: "gray-200".to_owned(),
        text_primary: "gray-900".to_owned(),
        text_secondary: "gray-600".to_owned(),
        text_tertiary: "gray-400".to_owned(),
        text_inverse: "white".to_owned(),
        interactive: "jupiter-blue-500".to_owned(),
        interactive_hover: "jupiter-blue-600".to_owned(),
        interactive_active: "jupiter-blue-700".to_owned(),
        interactive_disabled: "gray-300".to_owned(),
    }
}

/// Builds the water palette.
fn make_water_palette() -> (p: ColorPalette)
    ensures
        water_palette(p),
{
    ColorPalette {
        primary: "water-blue-500".to_owned(),
        secondary: "water-green-500".to_owned(),
        accent: "water-orange-500".to_owned(),
        success: "green-500".to_owned(),
        warning: "amber-500".to_owned(),
        error: "red-500".to_owned(),
        info: "blue-500".to_owned(),
        surface: "white".to_owned(),
        background: "gray-50".to_owned(),
        foreground: "gray-900".to_owned(),
        border: "gray-200".to_owned(),
        text_primary: "gray-900".to_owned(),
        text_secondary: "gray-600".to_owned(),
        text_tertiary: "gray-400".to_owned(),
        text_inverse: "white".to_owned(),
        interactive: "water-blue-500".to_owned(),
        interactive_hover: "water-blue-600".to_owned(),
        interactive_active: "water-blue-700".to_owned(),
        interactive_disabled: "gray-300".to_owned(),
    }
}

/// Builds the wellness palette.
fn make_wellness_palette() -> (p: ColorPalette)
    ensures
        wellness_palette(p),
{
    ColorPalette {
        primary: "water-blue-500".to_owned(),
        secondary: "water-green-500".to_owned(),
        accent: "water-orange-500".to_owned(),
        success: "green-600".to_owned(),
        warning: "yellow-600".to_owned(),
        error: "red-600".to_owned(),
        info: "blue-600".to_owned(),
        surface: "white".to_owned(),
        background: "gray-50".to_owned(),
        foreground: "black".to_owned(),
        border: "gray-200".to_owned(),
        text_primary: "gray-900".to_owned(),
        text_secondary: "gray-600".to_owned(),
        text_tertiary: "gray-500".to_owned(),
        text_inverse: "white".to_owned(),
        interactive: "water-blue-500".to_owned(),
        interactive_hover: "water-blue-600".to_owned(),
        interactive_active: "water-blue-700".to_owned(),
        interactive_disabled: "gray-400".to_owned(),
    }
}

impl Default for ColorPalette {
    /// The default palette is the jupiter brand palette.
    fn default() -> (p: Self)
        ensures
            jupiter_palette(p),
    {
        make_jupiter_palette()
    }
}

/// The default color provider, carrying the water brand palette.
#[derive(Debug, Clone)]
pub struct VibeColors {
    palette: ColorPalette,
}

impl Default for VibeColors {
    fn default() -> (r: Self)
        ensures
            water_palette(r.spec_palette()),
    {
        VibeColors { palette: make_water_palette() }
    }
}

impl ColorProvider for VibeColors {
    closed spec fn spec_palette(&self) -> ColorPalette {
        self.palette
    }

    fn palette(&self) -> (p: &ColorPalette) {
        &self.palette
    }

    fn clone_provider(&self) -> (r: Self) {
        VibeColors { palette: self.palette.duplicate() }
    }
}

impl VibeColors {
    /// Creates the default provider.
    pub fn new() -> (r: Self)
        ensures
            water_palette(r.spec_palette()),
    {
        VibeColors { palette: make_water_palette() }
    }

    /// Creates a provider whose palette is the default water palette after
    /// the given customization.
    pub fn with_overrides<F: Fn(ColorPalette) -> ColorPalette>(overrides: F) -> (r: Self)
        requires
            forall|p: ColorPalette| #[trigger] call_requires(overrides, (p,)),
        ensures
            exists|d: ColorPalette|
                water_palette(d) && #[trigger] call_ensures(overrides, (d,), r.spec_palette()),
    {
        let d = make_water_palette();
        let ghost d0 = d;
        let p = overrides(d);
        let r = VibeColors { palette: p };
        proof {
            assert(water_palette(d0) && call_ensures(overrides, (d0,), r.spec_palette()));
        }
        r
    }
}

/// The wellness color provider, carrying the wellness palette.
#[derive(Debug, Clone)]
pub struct WaterWellnessColors {
    palette: ColorPalette,
}

impl Default for WaterWellnessColors {
    fn default() -> (r: Self)
        ensures
            wellness_palette(r.spec_palette()),
    {
        WaterWellnessColors { palette: make_wellness_palette() }
    }
}

impl ColorProvider for WaterWellnessColors {
    closed spec fn spec_palette(&self) -> ColorPalette {
        self.palette
    }

    fn palette(&self) -> (p: &ColorPalette) {
        &self.palette
    }

    fn clone_provider(&self) -> (r: Self) {
        WaterWellnessColors { palette: self.palette.duplicate() }
    }
}

impl WaterWellnessColors {
    /// Creates the default wellness provider.
    pub fn new() -> (r: Self)
        ensures
            wellness_palette(r.spec_palette()),
    {
        WaterWellnessColors { palette: make_wellness_palette() }
    }

    /// Creates a provider whose palette is the wellness palette after the
    /// given customization.
    pub fn with_overrides<F: Fn(ColorPalette) -> ColorPalette>(overrides: F) -> (r: Self)
        requires
            forall|p: ColorPalette| #[trigger] call_requires(overrides, (p,)),
        ensures
            exists|d: ColorPalette|
                wellness_palette(d) && #[trigger] call_ensures(
                    overrides,
                    (d,),
                    r.spec_palette(),
                ),
    {
        let d = make_wellness_palette();
        let ghost d0 = d;
        let p = overrides(d);
        let r = WaterWellnessColors { palette: p };
        proof {
            assert(wellness_palette(d0) && call_ensures(overrides, (d0,), r.spec_palette()));
        }
        r
    }
}

} // verus!
