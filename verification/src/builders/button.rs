//! Button styling builder: assembles the class string for a button from its
//! variant, size, state, width, icon spacing and custom classes.

use vstd::prelude::*;
use crate::classlist::{assemble, assemble_fragments, push_part, push_part_string, split_all,
    split_ws, str_eq, views};
use crate::classlist::{lemma_assemble_tokens, lemma_sort_dedup_member, lemma_split_all_member};
use crate::foundation::color::{Color, ColorPalette, ColorProvider};

verus! {

broadcast use vstd::seq_lib::group_seq_properties;

/// Button variants.
#[derive(Debug, Clone, Copy, PartialEq, Eq, Hash, Structural)]
pub enum ButtonVariant {
    Primary,
    Secondary,
    Success,
    Warning,
    Error,
    Phantom,
    Link,
}

/// Button states.
#[derive(Debug, Clone, Copy, PartialEq, Eq, Hash, Structural)]
pub enum ButtonState {
    Default,
    Hover,
    Active,
    Disabled,
    Loading,
}

/// Button styling builder.
#[derive(Debug, Clone)]
pub struct ButtonStyles<C: ColorProvider> {
    pub variant: ButtonVariant,
    pub size: crate::foundation::sizing::Size,
    pub state: ButtonState,
    pub full_width: bool,
    pub with_icon: bool,
    pub custom_classes: Vec<String>,
    pub color_provider: C,
}

/// The fixed base fragment every button carries.
pub open spec fn button_base() -> Seq<char> {
    "inline-flex items-center justify-center font-medium transition-colors duration-200 disabled:opacity-50 disabled:cursor-not-allowed"@
}

/// The padding, text size and corner fragment for a button size.
pub open spec fn button_size_fragment(size: crate::foundation::sizing::Size) -> Seq<char> {
    match size {
        crate::foundation::sizing::Size::XSmall => "px-2 py-1 text-xs rounded"@,
        crate::foundation::sizing::Size::Small => "px-3 py-1.5 text-sm rounded"@,
        crate::foundation::sizing::Size::Medium => "px-4 py-2 text-sm rounded-md"@,
        crate::foundation::sizing::Size::Large => "px-6 py-3 text-base rounded-md"@,
        crate::foundation::sizing::Size::XLarge => "px-8 py-4 text-lg rounded-lg"@,
    }
}

/// The color fragment for a button variant under a palette.
pub open spec fn button_variant_fragment(variant: ButtonVariant, p: ColorPalette) -> Seq<char> {
    match variant {
        ButtonVariant::Primary => "bg-"@ + p.primary@ + " text-"@ + p.text_inverse@
            + " hover:bg-"@ + p.interactive_hover@,
        ButtonVariant::Secondary => "bg-"@ + p.surface@ + " text-"@ + p.text_primary@
            + " border-"@ + p.border@ + " border"@,
        ButtonVariant::Success => "bg-"@ + p.success@ + " text-"@ + p.text_inverse@
            + " hover:bg-green-600"@,
        ButtonVariant::Warning => "bg-"@ + p.warning@ + " text-"@ + p.text_inverse@
            + " hover:bg-amber-600"@,
        ButtonVariant::Error => "bg-"@ + p.error@ + " text-"@ + p.text_inverse@
            + " hover:bg-red-600"@,
        ButtonVariant::Phantom => "bg-transparent text-"@ + p.text_primary@ + " hover:bg-"@
            + p.background@,
        ButtonVariant::Link => "bg-transparent text-"@ + p.primary@ + " hover:underline"@,
    }
}

/// The fragment for a button state.
pub open spec fn button_state_fragment(state: ButtonState) -> Seq<char> {
    match state {
        ButtonState::Default => ""@,
        ButtonState::Hover => "hover:scale-105"@,
        ButtonState::Active => "active:scale-95"@,
        ButtonState::Disabled => "opacity-50 cursor-not-allowed"@,
        ButtonState::Loading => "cursor-wait"@,
    }
}

/// The width fragment.
pub open spec fn button_width_fragment(full_width: bool) -> Seq<char> {
    if full_width {
        "w-full"@
    } else {
        ""@
    }
}

/// The icon spacing fragment.
pub open spec fn button_icon_fragment(with_icon: bool) -> Seq<char> {
    if with_icon {
        "space-x-2"@
    } else {
        ""@
    }
}

/// All fragments a button class string is assembled from, in order.
pub open spec fn button_fragments(
    variant: ButtonVariant,
    size: crate::foundation::sizing::Size,
    state: ButtonState,
    full_width: bool,
    with_icon: bool,
    customs: Seq<Seq<char>>,
    p: ColorPalette,
) -> Seq<Seq<char>> {
    seq![
        button_base(),
        button_size_fragment(size),
        button_variant_fragment(variant, p),
        button_state_fragment(state),
        button_width_fragment(full_width),
        button_icon_fragment(with_icon),
    ] + customs
}

/// The normalized class string of a button configuration.
pub open spec fn button_classes_spec<C: ColorProvider>(b: ButtonStyles<C>) -> Seq<char> {
    assemble(
        button_fragments(
            b.variant,
            b.size,
            b.state,
            b.full_width,
            b.with_icon,
            views(b.custom_classes@),
            b.color_provider.spec_palette(),
        ),
    )
}

/// The variant configured by a variant name, with `Primary` as the fallback
/// for unrecognized names.
pub open spec fn button_variant_from_str(s: Seq<char>) -> ButtonVariant {
    if s == "primary"@ || s == "water"@ {
        ButtonVariant::Primary
    } else if s == "secondary"@ || s == "outline"@ {
        ButtonVariant::Secondary
    } else if s == "success"@ {
        ButtonVariant::Success
    } else if s == "warning"@ {
        ButtonVariant::Warning
    } else if s == "error"@ || s == "danger"@ {
        ButtonVariant::Error
    } else if s == "ghost"@ {
        ButtonVariant::Phantom
    } else if s == "link"@ {
        ButtonVariant::Link
    } else {
        ButtonVariant::Primary
    }
}

/// The size configured by a size name, with `Medium` as the fallback.
pub open spec fn button_size_from_str(s: Seq<char>) -> crate::foundation::sizing::Size {
    if s == "xs"@ || s == "extra_small"@ {
        crate::foundation::sizing::Size::XSmall
    } else if s == "sm"@ || s == "small"@ {
        crate::foundation::sizing::Size::Small
    } else if s == "md"@ || s == "medium"@ {
        crate::foundation::sizing::Size::Medium
    } else if s == "lg"@ || s == "large"@ {
        crate::foundation::sizing::Size::Large
    } else if s == "xl"@ || s == "extra_large"@ {
        crate::foundation::sizing::Size::XLarge
    } else {
        crate::foundation::sizing::Size::Medium
    }
}

/// The state configured by a state name, with `Default` as the fallback.
pub open spec fn button_state_from_str(s: Seq<char>) -> ButtonState {
    if s == "default"@ {
        ButtonState::Default
    } else if s == "hover"@ {
        ButtonState::Hover
    } else if s == "active"@ {
        ButtonState::Active
    } else if s == "disabled"@ {
        ButtonState::Disabled
    } else if s == "loading"@ {
        ButtonState::Loading
    } else {
        ButtonState::Default
    }
}

impl<C: ColorProvider> ButtonStyles<C> {
    /// Creates a button builder with the default configuration.
    pub fn new(color_provider: C) -> (r: Self)
        ensures
            r.variant == ButtonVariant::Primary,
            r.size == crate::foundation::sizing::Size::Medium,
            r.state == ButtonState::Default,
            !r.full_width,
            !r.with_icon,
            r.custom_classes@.len() == 0,
            r.color_provider == color_provider,
    {
        ButtonStyles {
            variant: ButtonVariant::Primary,
            size: crate::foundation::sizing::Size::Medium,
            state: ButtonState::Default,
            full_width: false,
            with_icon: false,
            custom_classes: Vec::new(),
            color_provider,
        }
    }

    /// Configures the primary variant.
    pub fn primary(self) -> (r: Self)
        ensures
            r == (ButtonStyles { variant: ButtonVariant::Primary, ..self }),
    {
        ButtonStyles { variant: ButtonVariant::Primary, ..self }
    }

    /// Configures the secondary variant.
    pub fn secondary(self) -> (r: Self)
        ensures
            r == (ButtonStyles { variant: ButtonVariant::Secondary, ..self }),
    {
        ButtonStyles { variant: ButtonVariant::Secondary, ..self }
    }

    /// Configures the success variant.
    pub fn success(self) -> (r: Self)
        ensures
            r == (ButtonStyles { variant: ButtonVariant::Success, ..self }),
    {
        ButtonStyles { variant: ButtonVariant::Success, ..self }
    }

    /// Configures the warning variant.
    pub fn warning(self) -> (r: Self)
        ensures
            r == (ButtonStyles { variant: ButtonVariant::Warning, ..self }),
    {
        ButtonStyles { variant: ButtonVariant::Warning, ..self }
    }

    /// Configures the error variant.
    pub fn error(self) -> (r: Self)
        ensures
            r == (ButtonStyles { variant: ButtonVariant::Error, ..self }),
    {
        ButtonStyles { variant: ButtonVariant::Error, ..self }
    }

    /// Configures the ghost variant.
    pub fn ghost(self) -> (r: Self)
        ensures
            r == (ButtonStyles { variant: ButtonVariant::Phantom, ..self }),
    {
        ButtonStyles { variant: ButtonVariant::Phantom, ..self }
    }

    /// Configures the link variant.
    pub fn link(self) -> (r: Self)
        ensures
            r == (ButtonStyles { variant: ButtonVariant::Link, ..self }),
    {
        ButtonStyles { variant: ButtonVariant::Link, ..self }
    }

    /// Configures a variant.
    pub fn variant(self, variant: ButtonVariant) -> (r: Self)
        ensures
            r == (ButtonStyles { variant, ..self }),
    {
        ButtonStyles { variant, ..self }
    }

    /// Configures the variant named by a string; unrecognized names fall
    /// back to `Primary`.
    pub fn variant_str(self, variant: &str) -> (r: Self)
        ensures
            r == (ButtonStyles { variant: button_variant_from_str(variant@), ..self }),
    {
        let v = if str_eq(variant, "primary") || str_eq(variant, "water") {
            ButtonVariant::Primary
        } else if str_eq(variant, "secondary") || str_eq(variant, "outline") {
            ButtonVariant::Secondary
        } else if str_eq(variant, "success") {
            ButtonVariant::Success
        } else if str_eq(variant, "warning") {
            ButtonVariant::Warning
        } else if str_eq(variant, "error") || str_eq(variant, "danger") {
            ButtonVariant::Error
        } else if str_eq(variant, "ghost") {
            ButtonVariant::Phantom
        } else if str_eq(variant, "link") {
            ButtonVariant::Link
        } else {
            ButtonVariant::Primary
        };
        ButtonStyles { variant: v, ..self }
    }

    /// Configures the extra-small size.
    pub fn extra_small(self) -> (r: Self)
        ensures
            r == (ButtonStyles { size: crate::foundation::sizing::Size::XSmall, ..self }),
    {
        ButtonStyles { size: crate::foundation::sizing::Size::XSmall, ..self }
    }

    /// Configures the small size.
    pub fn small(self) -> (r: Self)
        ensures
            r == (ButtonStyles { size: crate::foundation::sizing::Size::Small, ..self }),
    {
        ButtonStyles { size: crate::foundation::sizing::Size::Small, ..self }
    }

    /// Configures the medium size.
    pub fn medium(self) -> (r: Self)
        ensures
            r == (ButtonStyles { size: crate::foundation::sizing::Size::Medium, ..self }),
    {
        ButtonStyles { size: crate::foundation::sizing::Size::Medium, ..self }
    }

    /// Configures the large size.
    pub fn large(self) -> (r: Self)
        ensures
            r == (ButtonStyles { size: crate::foundation::sizing::Size::Large, ..self }),
    {
        ButtonStyles { size: crate::foundation::sizing::Size::Large, ..self }
    }

    /// Configures the extra-large size.
    pub fn extra_large(self) -> (r: Self)
        ensures
            r == (ButtonStyles { size: crate::foundation::sizing::Size::XLarge, ..self }),
    {
        ButtonStyles { size: crate::foundation::sizing::Size::XLarge, ..self }
    }

    /// Configures a size.
    pub fn size(self, size: crate::foundation::sizing::Size) -> (r: Self)
        ensures
            r == (ButtonStyles { size, ..self }),
    {
        ButtonStyles { size, ..self }
    }

    /// Configures the size named by a string; unrecognized names fall back
    /// to `Medium`.
    pub fn size_str(self, size: &str) -> (r: Self)
        ensures
            r == (ButtonStyles { size: button_size_from_str(size@), ..self }),
    {
        let v = if str_eq(size, "xs") || str_eq(size, "extra_small") {
            crate::foundation::sizing::Size::XSmall
        } else if str_eq(size, "sm") || str_eq(size, "small") {
            crate::foundation::sizing::Size::Small
        } else if str_eq(size, "md") || str_eq(size, "medium") {
            crate::foundation::sizing::Size::Medium
        } else if str_eq(size, "lg") || str_eq(size, "large") {
            crate::foundation::sizing::Size::Large
        } else if str_eq(size, "xl") || str_eq(size, "extra_large") {
            crate::foundation::sizing::Size::XLarge
        } else {
            crate::foundation::sizing::Size::Medium
        };
        ButtonStyles { size: v, ..self }
    }

    /// Configures the disabled state.
    pub fn disabled(self) -> (r: Self)
        ensures
            r == (ButtonStyles { state: ButtonState::Disabled, ..self }),
    {
        ButtonStyles { state: ButtonState::Disabled, ..self }
    }

    /// Configures the loading state.
    pub fn loading(self) -> (r: Self)
        ensures
            r == (ButtonStyles { state: ButtonState::Loading, ..self }),
    {
        ButtonStyles { state: ButtonState::Loading, ..self }
    }

    /// Configures the hover state.
    pub fn hover(self) -> (r: Self)
        ensures
            r == (ButtonStyles { state: ButtonState::Hover, ..self }),
    {
        ButtonStyles { state: ButtonState::Hover, ..self }
    }

    /// Configures the active state.
    pub fn active(self) -> (r: Self)
        ensures
            r == (ButtonStyles { state: ButtonState::Active, ..self }),
    {
        ButtonStyles { state: ButtonState::Active, ..self }
    }

    /// Configures a state.
    pub fn state(self, state: ButtonState) -> (r: Self)
        ensures
            r == (ButtonStyles { state, ..self }),
    {
        ButtonStyles { state, ..self }
    }

    /// Configures the state named by a string; unrecognized names fall back
    /// to `Default`.
    pub fn state_str(self, state: &str) -> (r: Self)
        ensures
            r == (ButtonStyles { state: button_state_from_str(state@), ..self }),
    {
        let v = if str_eq(state, "default") {
            ButtonState::Default
        } else if str_eq(state, "hover") {
            ButtonState::Hover
        } else if str_eq(state, "active") {
            ButtonState::Active
        } else if str_eq(state, "disabled") {
            ButtonState::Disabled
        } else if str_eq(state, "loading") {
            ButtonState::Loading
        } else {
            ButtonState::Default
        };
        ButtonStyles { state: v, ..self }
    }

    /// Makes the button span the full width of its container.
    pub fn full_width(self) -> (r: Self)
        ensures
            r == (ButtonStyles { full_width: true, ..self }),
    {
        ButtonStyles { full_width: true, ..self }
    }

    /// Adds spacing for an icon beside the label.
    pub fn with_icon(self) -> (r: Self)
        ensures
            r == (ButtonStyles { with_icon: true, ..self }),
    {
        ButtonStyles { with_icon: true, ..self }
    }

    /// Appends one custom class.
    pub fn custom(self, class: &str) -> (r: Self)
        ensures
            r == (ButtonStyles {
                custom_classes: r.custom_classes,
                ..self
            }),
            views(r.custom_classes@) == views(self.custom_classes@).push(class@),
    {
        let mut c = self;
        let owned = class.to_owned();
        c.custom_classes.push(owned);
        proof {
            assert(views(c.custom_classes@) =~= views(self.custom_classes@).push(class@));
        }
        c
    }

    /// Appends each whitespace-separated class of the given string.
    pub fn custom_classes(self, classes: &str) -> (r: Self)
        ensures
            r == (ButtonStyles {
                custom_classes: r.custom_classes,
                ..self
            }),
            views(r.custom_classes@) == views(self.custom_classes@) + split_ws(classes@),
    {
        let toks = crate::classlist::split_tokens(classes);
        let mut c = self;
        let ghost base = views(c.custom_classes@);
        let mut i: usize = 0;
        proof {
            assert(base + views(toks@).take(0) =~= base);
        }
        while i < toks.len()
            invariant
                i <= toks.len(),
                views(toks@) == split_ws(classes@),
                views(c.custom_classes@) == base + views(toks@).take(i as int),
                c.variant == self.variant,
                c.size == self.size,
                c.state == self.state,
                c.full_width == self.full_width,
                c.with_icon == self.with_icon,
                c.color_provider == self.color_provider,
                base == views(self.custom_classes@),
            decreases toks.len() - i,
        {
            let ghost before = c.custom_classes@;
            let t = toks[i].clone();
            proof {
                assert(t@ == views(toks@)[i as int]);
            }
            c.custom_classes.push(t);
            proof {
                assert(c.custom_classes@ == before.push(t));
                assert(views(c.custom_classes@) =~= views(before).push(t@));
                assert(views(before).push(t@) =~= base + views(toks@).take(i + 1));
            }
            i += 1;
        }
        proof {
            assert(views(toks@).take(toks@.len() as int) =~= views(toks@));
        }
        c
    }

    /// Appends each class of the given list.
    pub fn custom_vec(self, classes: Vec<&str>) -> (r: Self)
        ensures
            r == (ButtonStyles {
                custom_classes: r.custom_classes,
                ..self
            }),
            views(r.custom_classes@) == views(self.custom_classes@) + classes@.map_values(
                |s: &str| s@,
            ),
    {
        let mut c = self;
        let ghost base = views(c.custom_classes@);
        let ghost target = classes@.map_values(|s: &str| s@);
        let mut i: usize = 0;
        proof {
            assert(base + target.take(0) =~= base);
        }
        while i < classes.len()
            invariant
                i <= classes.len(),
                target == classes@.map_values(|s: &str| s@),
                views(c.custom_classes@) == base + target.take(i as int),
                c.variant == self.variant,
                c.size == self.size,
                c.state == self.state,
                c.full_width == self.full_width,
                c.with_icon == self.with_icon,
                c.color_provider == self.color_provider,
                base == views(self.custom_classes@),
            decreases classes.len() - i,
        {
            let ghost before = c.custom_classes@;
            let t = classes[i].to_owned();
            proof {
                assert(target[i as int] == classes@[i as int]@);
            }
            c.custom_classes.push(t);
            proof {
                assert(c.custom_classes@ == before.push(t));
                assert(views(c.custom_classes@) =~= views(before).push(t@));
                assert(views(before).push(t@) =~= base + target.take(i + 1));
            }
            i += 1;
        }
        proof {
            assert(target.take(classes@.len() as int) =~= target);
        }
        c
    }

    /// Builds the normalized class string.
    pub fn classes(self) -> (r: String)
        ensures
            r@ == button_classes_spec(self),
    {
        self.build()
    }

    /// Builds the normalized class string; `classes` and `build` agree.
    #[verifier::rlimit(80)]
    pub fn build(self) -> (r: String)
        ensures
            r@ == button_classes_spec(self),
    {
        let mut parts: Vec<String> = Vec::new();
        push_part(
            &mut parts,
            "inline-flex items-center justify-center font-medium transition-colors duration-200 disabled:opacity-50 disabled:cursor-not-allowed",
        );
        push_part(&mut parts, button_size_str(self.size));
        push_part_string(&mut parts, button_variant_string(&self));
        push_part(&mut parts, button_state_str(self.state));
        push_part(&mut parts, if self.full_width { "w-full" } else { "" });
        push_part(&mut parts, if self.with_icon { "space-x-2" } else { "" });
        let ghost frags = button_fragments(
            self.variant,
            self.size,
            self.state,
            self.full_width,
            self.with_icon,
            views(self.custom_classes@),
            self.color_provider.spec_palette(),
        );
        let ghost head = views(parts@);
        proof {
            assert(head =~= frags.take(6));
        }
        let mut i: usize = 0;
        let ghost customs = views(self.custom_classes@);
        proof {
            assert(head + customs.take(0) =~= head);
        }
        while i < self.custom_classes.len()
            invariant
                i <= self.custom_classes.len(),
                head == frags.take(6),
                frags == button_fragments(
                    self.variant,
                    self.size,
                    self.state,
                    self.full_width,
                    self.with_icon,
                    views(self.custom_classes@),
                    self.color_provider.spec_palette(),
                ),
                customs == views(self.custom_classes@),
                views(parts@) == head + customs.take(i as int),
            decreases self.custom_classes.len() - i,
        {
            proof {
                assert(customs[i as int] == self.custom_classes@[i as int]@);
            }
            push_part(&mut parts, self.custom_classes[i].as_str());
            proof {
                assert(views(parts@) =~= head + customs.take(i + 1));
            }
            i += 1;
        }
        proof {
            assert(customs.take(self.custom_classes@.len() as int) =~= customs);
            assert(head + customs =~= frags);
        }
        assemble_fragments(&parts)
    }
}

/// The size fragment as a string slice.
fn button_size_str(size: crate::foundation::sizing::Size) -> (r: &'static str)
    ensures
        r@ == button_size_fragment(size),
{
    match size {
        crate::foundation::sizing::Size::XSmall => "px-2 py-1 text-xs rounded",
        crate::foundation::sizing::Size::Small => "px-3 py-1.5 text-sm rounded",
        crate::foundation::sizing::Size::Medium => "px-4 py-2 text-sm rounded-md",
        crate::foundation::sizing::Size::Large => "px-6 py-3 text-base rounded-md",
        crate::foundation::sizing::Size::XLarge => "px-8 py-4 text-lg rounded-lg",
    }
}

/// The state fragment as a string slice.
fn button_state_str(state: ButtonState) -> (r: &'static str)
    ensures
        r@ == button_state_fragment(state),
{
    match state {
        ButtonState::Default => "",
        ButtonState::Hover => "hover:scale-105",
        ButtonState::Active => "active:scale-95",
        ButtonState::Disabled => "opacity-50 cursor-not-allowed",
        ButtonState::Loading => "cursor-wait",
    }
}

/// Builds the variant color fragment.
fn button_variant_string<C: ColorProvider>(b: &ButtonStyles<C>) -> (r: String)
    ensures
        r@ == button_variant_fragment(b.variant, b.color_provider.spec_palette()),
{
    match b.variant {
        ButtonVariant::Primary => {
            let mut s = "bg-".to_owned();
            s.append(b.color_provider.resolve_color(Color::Primary));
            s.append(" text-");
            s.append(b.color_provider.resolve_color(Color::TextInverse));
            s.append(" hover:bg-");
            s.append(b.color_provider.resolve_color(Color::InteractiveHover));
            s
        },
        ButtonVariant::Secondary => {
            let mut s = "bg-".to_owned();
            s.append(b.color_provider.resolve_color(Color::Surface));
            s.append(" text-");
            s.append(b.color_provider.resolve_color(Color::TextPrimary));
            s.append(" border-");
            s.append(b.color_provider.resolve_color(Color::Border));
            s.append(" border");
            s
        },
        ButtonVariant::Success => {
            let mut s = "bg-".to_owned();
            s.append(b.color_provider.resolve_color(Color::Success));
            s.append(" text-");
            s.append(b.color_provider.resolve_color(Color::TextInverse));
            s.append(" hover:bg-green-600");
            s
        },
        ButtonVariant::Warning => {
            let mut s = "bg-".to_owned();
            s.append(b.color_provider.resolve_color(Color::Warning));
            s.append(" text-");
            s.append(b.color_provider.resolve_color(Color::TextInverse));
            s.append(" hover:bg-amber-600");
            s
        },
        ButtonVariant::Error => {
            let mut s = "bg-".to_owned();
            s.append(b.color_provider.resolve_color(Color::Error));
            s.append(" text-");
            s.append(b.color_provider.resolve_color(Color::TextInverse));
            s.append(" hover:bg-red-600");
            s
        },
        ButtonVariant::Phantom => {
            let mut s = "bg-transparent text-".to_owned();
            s.append(b.color_provider.resolve_color(Color::TextPrimary));
            s.append(" hover:bg-");
            s.append(b.color_provider.resolve_color(Color::Background));
            s
        },
        ButtonVariant::Link => {
            let mut s = "bg-transparent text-".to_owned();
            s.append(b.color_provider.resolve_color(Color::Primary));
            s.append(" hover:underline");
            s
        },
    }
}

/// Creates a button builder.
pub fn button_styles<C: ColorProvider>(color_provider: C) -> (r: ButtonStyles<C>)
    ensures
        r.variant == ButtonVariant::Primary,
        r.size == crate::foundation::sizing::Size::Medium,
        r.state == ButtonState::Default,
        !r.full_width,
        !r.with_icon,
        r.custom_classes@.len() == 0,
        r.color_provider == color_provider,
{
    ButtonStyles::new(color_provider)
}

/// Builds button classes from string-valued options in one call.
pub fn button_classes_from_strings<C: ColorProvider>(
    color_provider: C,
    variant: &str,
    size: &str,
    disabled: bool,
    loading: bool,
    full_width: bool,
) -> (r: String)
    ensures
        r@ == assemble(
            button_fragments(
                button_variant_from_str(variant@),
                button_size_from_str(size@),
                if loading {
                    ButtonState::Loading
                } else if disabled {
                    ButtonState::Disabled
                } else {
                    ButtonState::Default
                },
                full_width,
                false,
                Seq::empty(),
                color_provider.spec_palette(),
            ),
        ),
{
    let mut builder = ButtonStyles::new(color_provider).variant_str(variant).size_str(size);
    if loading {
        builder = builder.loading();
    } else if disabled {
        builder = builder.disabled();
    }
    if full_width {
        builder = builder.full_width();
    }
    proof {
        assert(views(builder.custom_classes@) =~= Seq::<Seq<char>>::empty());
    }
    builder.classes()
}

/// Every token of each configured fragment of a button appears among the
/// tokens of its final class string: nothing configured is lost.
pub proof fn lemma_button_tokens_present<C: ColorProvider>(b: ButtonStyles<C>, i: int)
    requires
        0 <= i < button_fragments(
            b.variant,
            b.size,
            b.state,
            b.full_width,
            b.with_icon,
            views(b.custom_classes@),
            b.color_provider.spec_palette(),
        ).len(),
    ensures
        forall|x: Seq<char>|
            #[trigger] split_ws(
                button_fragments(
                    b.variant,
                    b.size,
                    b.state,
                    b.full_width,
                    b.with_icon,
                    views(b.custom_classes@),
                    b.color_provider.spec_palette(),
                )[i],
            ).contains(x) ==> split_ws(button_classes_spec(b)).contains(x),
{
    let frags = button_fragments(
        b.variant,
        b.size,
        b.state,
        b.full_width,
        b.with_icon,
        views(b.custom_classes@),
        b.color_provider.spec_palette(),
    );
    lemma_assemble_tokens(frags);
    lemma_sort_dedup_member(split_all(frags));
    lemma_split_all_member(frags, i);
}

/// A variant name outside the recognized set configures the `Primary`
/// variant, exactly as `primary()` does.
pub proof fn lemma_button_variant_fallback(s: Seq<char>)
    requires
        s != "primary"@,
        s != "water"@,
        s != "secondary"@,
        s != "outline"@,
        s != "success"@,
        s != "warning"@,
        s != "error"@,
        s != "danger"@,
        s != "ghost"@,
        s != "link"@,
    ensures
        button_variant_from_str(s) == ButtonVariant::Primary,
{
}

} // verus!
