//! Focus and accessibility patterns: focus rings, keyboard behavior and
//! screen reader roles.

use vstd::prelude::*;
use crate::classlist::{assemble, assemble_fragments, dec_rep, push_all_parts, push_part,
    push_part_string, views};
use crate::foundation::color::{border_ring_string, border_ring_token, primary_ring_string,
    primary_ring_token, Color, ColorPalette, ColorProvider};

verus! {

broadcast use vstd::seq_lib::group_seq_properties;

/// Focus indication styles.
#[derive(Debug, Clone, Copy, PartialEq, Eq, Hash, Structural)]
pub enum FocusBehavior {
    Standard,
    Subtle,
    Prominent,
    Hidden,
    Custom,
}

/// Keyboard navigation patterns.
#[derive(Debug, Clone, Copy, PartialEq, Eq, Hash, Structural)]
pub enum KeyboardPattern {
    Button,
    Link,
    MenuItem,
    Tab,
    Toggle,
    Expandable,
}

/// Screen reader roles.
#[derive(Debug, Clone, Copy, PartialEq, Eq, Hash, Structural)]
pub enum ScreenReaderPattern {
    Button,
    Link,
    MenuItem,
    Tab,
    ToggleButton,
    Expandable,
}

/// The focus ring fragment of a focus behavior under a palette.
pub open spec fn focus_ring_fragment(b: FocusBehavior, p: ColorPalette) -> Seq<char> {
    match b {
        FocusBehavior::Standard => "focus:ring-2 focus:ring-offset-2 focus:ring-"@
            + primary_ring_token(p),
        FocusBehavior::Subtle => "focus:ring-1 focus:ring-offset-1 focus:ring-"@
            + border_ring_token(p),
        FocusBehavior::Prominent => "focus:ring-4 focus:ring-offset-2 focus:ring-"@
            + primary_ring_token(p),
        FocusBehavior::Hidden => "focus:ring-0"@,
        FocusBehavior::Custom => ""@,
    }
}

/// All fragments of a focus configuration, in order.
pub open spec fn focus_fragments(
    behavior: FocusBehavior,
    is_focusable: bool,
    customs: Seq<Seq<char>>,
    p: ColorPalette,
) -> Seq<Seq<char>> {
    seq![
        if is_focusable {
            "focus:outline-none"@
        } else {
            ""@
        },
        if is_focusable {
            focus_ring_fragment(behavior, p)
        } else {
            ""@
        },
    ] + customs
}

/// The view of one rendered data attribute.
pub open spec fn attr_view(a: (&str, String)) -> (Seq<char>, Seq<char>) {
    (a.0@, a.1@)
}

/// The views of a rendered attribute list.
pub open spec fn attr_views(attrs: Seq<(&str, String)>) -> Seq<(Seq<char>, Seq<char>)> {
    Seq::new(attrs.len(), |i: int| attr_view(attrs[i]))
}

/// The decimal text of a tab index.
pub open spec fn tab_index_view(i: i32) -> Seq<char> {
    if i >= 0 {
        dec_rep(i as nat)
    } else {
        seq!['-'] + dec_rep((-(i as int)) as nat)
    }
}

/// The data attributes a focus configuration renders: a tab index, a role
/// from the screen reader pattern, and state attributes for toggles.
pub open spec fn focus_attr_views(
    is_focusable: bool,
    tab_index: Option<i32>,
    srp: Option<ScreenReaderPattern>,
) -> Seq<(Seq<char>, Seq<char>)> {
    let tabs: Seq<(Seq<char>, Seq<char>)> = match tab_index {
        Option::Some(i) => seq![("tabindex"@, tab_index_view(i))],
        Option::None => if is_focusable {
            seq![("tabindex"@, "0"@)]
        } else {
            Seq::empty()
        },
    };
    let roles: Seq<(Seq<char>, Seq<char>)> = match srp {
        Option::Some(ScreenReaderPattern::Button) => seq![("role"@, "button"@)],
        Option::Some(ScreenReaderPattern::Link) => seq![("role"@, "link"@)],
        Option::Some(ScreenReaderPattern::MenuItem) => seq![("role"@, "menuitem"@)],
        Option::Some(ScreenReaderPattern::Tab) => seq![("role"@, "tab"@)],
        Option::Some(ScreenReaderPattern::ToggleButton) => seq![("role"@, "button"@)],
        Option::Some(ScreenReaderPattern::Expandable) => seq![("role"@, "button"@)],
        Option::None => Seq::empty(),
    };
    let states: Seq<(Seq<char>, Seq<char>)> = match srp {
        Option::Some(ScreenReaderPattern::ToggleButton) => seq![("aria-pressed"@, "false"@)],
        Option::Some(ScreenReaderPattern::Expandable) => seq![("aria-expanded"@, "false"@)],
        _ => Seq::empty(),
    };
    tabs + roles + states
}

/// Focus management configuration.
#[derive(Debug, Clone)]
pub struct FocusManagement<C: ColorProvider> {
    pub focus_behavior: FocusBehavior,
    pub keyboard_pattern: Option<KeyboardPattern>,
    pub screen_reader_pattern: Option<ScreenReaderPattern>,
    pub is_focusable: bool,
    pub tab_index: Option<i32>,
    pub custom_classes: Vec<String>,
    pub color_provider: C,
}

/// The normalized class string of a focus configuration.
pub open spec fn focus_classes_spec<C: ColorProvider>(f: FocusManagement<C>) -> Seq<char> {
    assemble(
        focus_fragments(
            f.focus_behavior,
            f.is_focusable,
            views(f.custom_classes@),
            f.color_provider.spec_palette(),
        ),
    )
}

impl<C: ColorProvider> FocusManagement<C> {
    /// Creates focus management with default values.
    pub fn new(color_provider: C) -> (r: Self)
        ensures
            r.focus_behavior == FocusBehavior::Standard,
            r.keyboard_pattern is None,
            r.screen_reader_pattern is None,
            r.is_focusable,
            r.tab_index is None,
            r.custom_classes@.len() == 0,
            r.color_provider == color_provider,
    {
        FocusManagement {
            focus_behavior: FocusBehavior::Standard,
            keyboard_pattern: Option::None,
            screen_reader_pattern: Option::None,
            is_focusable: true,
            tab_index: Option::None,
            custom_classes: Vec::new(),
            color_provider,
        }
    }

    /// Configures the focus behavior.
    pub fn focus_behavior(self, behavior: FocusBehavior) -> (r: Self)
        ensures
            r == (FocusManagement { focus_behavior: behavior, ..self }),
    {
        FocusManagement { focus_behavior: behavior, ..self }
    }

    /// Configures standard button accessibility.
    pub fn button(self) -> (r: Self)
        ensures
            r == (FocusManagement {
                keyboard_pattern: Option::Some(KeyboardPattern::Button),
                screen_reader_pattern: Option::Some(ScreenReaderPattern::Button),
                focus_behavior: FocusBehavior::Standard,
                ..self
            }),
    {
        FocusManagement {
            keyboard_pattern: Option::Some(KeyboardPattern::Button),
            screen_reader_pattern: Option::Some(ScreenReaderPattern::Button),
            focus_behavior: FocusBehavior::Standard,
            ..self
        }
    }

    /// Configures link accessibility.
    pub fn link(self) -> (r: Self)
        ensures
            r == (FocusManagement {
                keyboard_pattern: Option::Some(KeyboardPattern::Link),
                screen_reader_pattern: Option::Some(ScreenReaderPattern::Link),
                focus_behavior: FocusBehavior::Standard,
                ..self
            }),
    {
        FocusManagement {
            keyboard_pattern: Option::Some(KeyboardPattern::Link),
            screen_reader_pattern: Option::Some(ScreenReaderPattern::Link),
            focus_behavior: FocusBehavior::Standard,
            ..self
        }
    }

    /// Configures menu item accessibility.
    pub fn menu_item(self) -> (r: Self)
        ensures
            r == (FocusManagement {
                keyboard_pattern: Option::Some(KeyboardPattern::MenuItem),
                screen_reader_pattern: Option::Some(ScreenReaderPattern::MenuItem),
                focus_behavior: FocusBehavior::Subtle,
                ..self
            }),
    {
        FocusManagement {
            keyboard_pattern: Option::Some(KeyboardPattern::MenuItem),
            screen_reader_pattern: Option::Some(ScreenReaderPattern::MenuItem),
            focus_behavior: FocusBehavior::Subtle,
            ..self
        }
    }

    /// Configures tab accessibility.
    pub fn tab(self) -> (r: Self)
        ensures
            r == (FocusManagement {
                keyboard_pattern: Option::Some(KeyboardPattern::Tab),
                screen_reader_pattern: Option::Some(ScreenReaderPattern::Tab),
                focus_behavior: FocusBehavior::Standard,
                ..self
            }),
    {
        FocusManagement {
            keyboard_pattern: Option::Some(KeyboardPattern::Tab),
            screen_reader_pattern: Option::Some(ScreenReaderPattern::Tab),
            focus_behavior: FocusBehavior::Standard,
            ..self
        }
    }

    /// Configures toggle button accessibility.
    pub fn toggle(self) -> (r: Self)
        ensures
            r == (FocusManagement {
                keyboard_pattern: Option::Some(KeyboardPattern::Toggle),
                screen_reader_pattern: Option::Some(ScreenReaderPattern::ToggleButton),
                focus_behavior: FocusBehavior::Standard,
                ..self
            }),
    {
        FocusManagement {
            keyboard_pattern: Option::Some(KeyboardPattern::Toggle),
            screen_reader_pattern: Option::Some(ScreenReaderPattern::ToggleButton),
            focus_behavior: FocusBehavior::Standard,
            ..self
        }
    }

    /// Builds the normalized class string.
    pub fn classes(self) -> (r: String)
        ensures
            r@ == focus_classes_spec(self),
    {
        let mut parts: Vec<String> = Vec::new();
        push_part(&mut parts, if self.is_focusable { "focus:outline-none" } else { "" });
        if self.is_focusable {
            push_part_string(&mut parts, focus_ring_string(&self.color_provider, self.focus_behavior));
        } else {
            push_part(&mut parts, "");
        }
        push_all_parts(&mut parts, &self.custom_classes);
        proof {
            assert(views(parts@) =~= focus_fragments(
                self.focus_behavior,
                self.is_focusable,
                views(self.custom_classes@),
                self.color_provider.spec_palette(),
            ));
        }
        assemble_fragments(&parts)
    }

    /// The data attributes for semantic markup: tab index, role and toggle
    /// state.
    pub fn data_attributes(&self) -> (r: Vec<(&'static str, String)>)
        ensures
            attr_views(r@) == focus_attr_views(
                self.is_focusable,
                self.tab_index,
                self.screen_reader_pattern,
            ),
    {
        let mut attrs: Vec<(&'static str, String)> = Vec::new();
        if let Option::Some(index) = self.tab_index {
            let text = tab_index_string(index);
            attrs.push(("tabindex", text));
        } else if self.is_focusable {
            attrs.push(("tabindex", "0".to_owned()));
        }
        if let Option::Some(pattern) = self.screen_reader_pattern {
            let role = match pattern {
                ScreenReaderPattern::Button => "button",
                ScreenReaderPattern::Link => "link",
                ScreenReaderPattern::MenuItem => "menuitem",
                ScreenReaderPattern::Tab => "tab",
                ScreenReaderPattern::ToggleButton => "button",
                ScreenReaderPattern::Expandable => "button",
            };
            attrs.push(("role", role.to_owned()));
        }
        match self.screen_reader_pattern {
            Option::Some(ScreenReaderPattern::ToggleButton) => {
                attrs.push(("aria-pressed", "false".to_owned()));
            },
            Option::Some(ScreenReaderPattern::Expandable) => {
                attrs.push(("aria-expanded", "false".to_owned()));
            },
            _ => {},
        }
        proof {
            assert(attr_views(attrs@) =~= focus_attr_views(
                self.is_focusable,
                self.tab_index,
                self.screen_reader_pattern,
            ));
        }
        attrs
    }
}

/// Builds the focus ring fragment.
pub(crate) fn focus_ring_string<C: ColorProvider>(
    provider: &C,
    behavior: FocusBehavior,
) -> (r: String)
    ensures
        r@ == focus_ring_fragment(behavior, provider.spec_palette()),
{
    match behavior {
        FocusBehavior::Standard => {
            let mut s = "focus:ring-2 focus:ring-offset-2 focus:ring-".to_owned();
            let ring = primary_ring_string(provider.resolve_color(Color::Primary));
            s.append(ring.as_str());
            s
        },
        FocusBehavior::Subtle => {
            let mut s = "focus:ring-1 focus:ring-offset-1 focus:ring-".to_owned();
            let ring = border_ring_string(provider.resolve_color(Color::Border));
            s.append(ring.as_str());
            s
        },
        FocusBehavior::Prominent => {
            let mut s = "focus:ring-4 focus:ring-offset-2 focus:ring-".to_owned();
            let ring = primary_ring_string(provider.resolve_color(Color::Primary));
            s.append(ring.as_str());
            s
        },
        FocusBehavior::Hidden => "focus:ring-0".to_owned(),
        FocusBehavior::Custom => "".to_owned(),
    }
}

/// Formats a tab index in decimal.
fn tab_index_string(i: i32) -> (r: String)
    ensures
        r@ == tab_index_view(i),
{
    if i >= 0 {
        crate::classlist::u32_dec(i as u32)
    } else {
        let mut s = "-".to_owned();
        let magnitude: u32 = (-(i as i64)) as u32;
        let d = crate::classlist::u32_dec(magnitude);
        s.append(d.as_str());
        proof {
            reveal_strlit("-");
            assert("-"@ =~= seq!['-']);
        }
        s
    }
}

/// Creates focus management.
pub fn focus_management<C: ColorProvider>(color_provider: C) -> (r: FocusManagement<C>)
    ensures
        r.focus_behavior == FocusBehavior::Standard,
        r.keyboard_pattern is None,
        r.screen_reader_pattern is None,
        r.is_focusable,
        r.tab_index is None,
        r.custom_classes@.len() == 0,
        r.color_provider == color_provider,
{
    FocusManagement::new(color_provider)
}

} // verus!
