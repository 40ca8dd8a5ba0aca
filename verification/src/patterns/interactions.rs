//! Interactive element patterns: hover, press and focus behavior for any
//! clickable element.

use vstd::prelude::*;
use crate::classlist::{assemble, assemble_fragments, push_all_parts, push_part,
    push_part_string, views};
use crate::foundation::color::{primary_ring_string, primary_ring_token, Color, ColorPalette,
    ColorProvider};

verus! {

broadcast use vstd::seq_lib::group_seq_properties;

/// Interactive element states.
#[derive(Debug, Clone, Copy, PartialEq, Eq, Hash, Structural)]
pub enum InteractiveState {
    Default,
    Hover,
    Active,
    Focused,
    Disabled,
    Loading,
}

/// Intensity of interactive effects.
#[derive(Debug, Clone, Copy, PartialEq, Eq, Structural)]
pub enum InteractionIntensity {
    Gentle,
    Standard,
    Prominent,
}

/// The transition fragment, present for any interactive capability.
pub open spec fn interactive_base_fragment(any_capability: bool) -> Seq<char> {
    if any_capability {
        "transition-all duration-200 ease-in-out"@
    } else {
        ""@
    }
}

/// The cursor fragment of an interactive state.
pub open spec fn interactive_cursor_fragment(
    state: InteractiveState,
    hover_or_press: bool,
) -> Seq<char> {
    if state == InteractiveState::Disabled {
        "cursor-not-allowed"@
    } else if state == InteractiveState::Loading {
        "cursor-wait"@
    } else if hover_or_press {
        "cursor-pointer"@
    } else {
        ""@
    }
}

/// The hover fragment of an interaction intensity.
pub open spec fn interactive_hover_fragment(
    enabled: bool,
    intensity: InteractionIntensity,
) -> Seq<char> {
    if enabled {
        match intensity {
            InteractionIntensity::Gentle => "hover:scale-101 hover:shadow-sm"@,
            InteractionIntensity::Standard => "hover:scale-105 hover:shadow-md"@,
            InteractionIntensity::Prominent => "hover:scale-110 hover:shadow-lg"@,
        }
    } else {
        ""@
    }
}

/// The press fragment of an interaction intensity.
pub open spec fn interactive_press_fragment(
    enabled: bool,
    intensity: InteractionIntensity,
) -> Seq<char> {
    if enabled {
        match intensity {
            InteractionIntensity::Gentle => "active:scale-100"@,
            InteractionIntensity::Standard => "active:scale-95"@,
            InteractionIntensity::Prominent => "active:scale-95"@,
        }
    } else {
        ""@
    }
}

/// The focus ring fragment, present when the element is focusable.
pub open spec fn interactive_focus_fragment(focusable: bool, p: ColorPalette) -> Seq<char> {
    if focusable {
        "focus:outline-none focus:ring-2 focus:ring-offset-2 focus:ring-"@
            + primary_ring_token(p)
    } else {
        ""@
    }
}

/// The extra fragment of the current state.
pub open spec fn interactive_state_fragment(
    state: InteractiveState,
    focusable: bool,
    p: ColorPalette,
) -> Seq<char> {
    match state {
        InteractiveState::Focused => if focusable {
            "ring-2 ring-offset-2 ring-"@ + primary_ring_token(p)
        } else {
            ""@
        },
        InteractiveState::Disabled => "opacity-50 pointer-events-none"@,
        InteractiveState::Loading => "opacity-75"@,
        _ => ""@,
    }
}

/// All fragments of an interactive element configuration, in order.
pub open spec fn interactive_fragments(
    state: InteractiveState,
    is_hoverable: bool,
    is_focusable: bool,
    is_pressable: bool,
    intensity: InteractionIntensity,
    customs: Seq<Seq<char>>,
    p: ColorPalette,
) -> Seq<Seq<char>> {
    seq![
        interactive_base_fragment(is_hoverable || is_focusable || is_pressable),
        interactive_cursor_fragment(state, is_hoverable || is_pressable),
        interactive_hover_fragment(
            is_hoverable && state != InteractiveState::Disabled,
            intensity,
        ),
        interactive_press_fragment(
            is_pressable && state != InteractiveState::Disabled,
            intensity,
        ),
        interactive_focus_fragment(is_focusable, p),
        interactive_state_fragment(state, is_focusable, p),
    ] + customs
}

/// Interactive element configuration.
#[derive(Debug, Clone)]
pub struct InteractiveElement<C: ColorProvider> {
    pub state: InteractiveState,
    pub is_hoverable: bool,
    pub is_focusable: bool,
    pub is_pressable: bool,
    pub interaction_intensity: InteractionIntensity,
    pub custom_classes: Vec<String>,
    pub color_provider: C,
}

/// The normalized class string of an interactive element configuration.
pub open spec fn interactive_classes_spec<C: ColorProvider>(e: InteractiveElement<C>) -> Seq<
    char,
> {
    assemble(
        interactive_fragments(
            e.state,
            e.is_hoverable,
            e.is_focusable,
            e.is_pressable,
            e.interaction_intensity,
            views(e.custom_classes@),
            e.color_provider.spec_palette(),
        ),
    )
}

impl<C: ColorProvider> InteractiveElement<C> {
    /// Creates an interactive element with default values.
    pub fn new(color_provider: C) -> (r: Self)
        ensures
            r.state == InteractiveState::Default,
            !r.is_hoverable,
            !r.is_focusable,
            !r.is_pressable,
            r.interaction_intensity == InteractionIntensity::Standard,
            r.custom_classes@.len() == 0,
            r.color_provider == color_provider,
    {
        InteractiveElement {
            state: InteractiveState::Default,
            is_hoverable: false,
            is_focusable: false,
            is_pressable: false,
            interaction_intensity: InteractionIntensity::Standard,
            custom_classes: Vec::new(),
            color_provider,
        }
    }

    /// Enables hover effects.
    pub fn hoverable(self) -> (r: Self)
        ensures
            r == (InteractiveElement { is_hoverable: true, ..self }),
    {
        InteractiveElement { is_hoverable: true, ..self }
    }

    /// Enables focus effects.
    pub fn focusable(self) -> (r: Self)
        ensures
            r == (InteractiveElement { is_focusable: true, ..self }),
    {
        InteractiveElement { is_focusable: true, ..self }
    }

    /// Enables press effects.
    pub fn pressable(self) -> (r: Self)
        ensures
            r == (InteractiveElement { is_pressable: true, ..self }),
    {
        InteractiveElement { is_pressable: true, ..self }
    }

    /// Configures gentle interaction effects.
    pub fn gentle_interaction(self) -> (r: Self)
        ensures
            r == (InteractiveElement {
                interaction_intensity: InteractionIntensity::Gentle,
                ..self
            }),
    {
        InteractiveElement { interaction_intensity: InteractionIntensity::Gentle, ..self }
    }

    /// Configures standard interaction effects.
    pub fn standard_interaction(self) -> (r: Self)
        ensures
            r == (InteractiveElement {
                interaction_intensity: InteractionIntensity::Standard,
                ..self
            }),
    {
        InteractiveElement { interaction_intensity: InteractionIntensity::Standard, ..self }
    }

    /// Configures prominent interaction effects.
    pub fn prominent_interaction(self) -> (r: Self)
        ensures
            r == (InteractiveElement {
                interaction_intensity: InteractionIntensity::Prominent,
                ..self
            }),
    {
        InteractiveElement { interaction_intensity: InteractionIntensity::Prominent, ..self }
    }

    /// Configures the current state.
    pub fn state(self, state: InteractiveState) -> (r: Self)
        ensures
            r == (InteractiveElement { state, ..self }),
    {
        InteractiveElement { state, ..self }
    }

    /// Appends a custom class string.
    pub fn custom(self, class: &str) -> (r: Self)
        ensures
            r == (InteractiveElement { custom_classes: r.custom_classes, ..self }),
            views(r.custom_classes@) == views(self.custom_classes@).push(class@),
    {
        let mut c = self;
        let owned = class.to_owned();
        c.custom_classes.push(owned);
        proof {
            assert(views(c.custom_classes@) =~= views(self.custom_classes@).push(class@));
        }
        c
    }

    /// Configures the hover state.
    pub fn hover(self) -> (r: Self)
        ensures
            r == (InteractiveElement { state: InteractiveState::Hover, ..self }),
    {
        InteractiveElement { state: InteractiveState::Hover, ..self }
    }

    /// Configures the active state.
    pub fn active(self) -> (r: Self)
        ensures
            r == (InteractiveElement { state: InteractiveState::Active, ..self }),
    {
        InteractiveElement { state: InteractiveState::Active, ..self }
    }

    /// Configures the focused state.
    pub fn focused(self) -> (r: Self)
        ensures
            r == (InteractiveElement { state: InteractiveState::Focused, ..self }),
    {
        InteractiveElement { state: InteractiveState::Focused, ..self }
    }

    /// Configures the disabled state.
    pub fn disabled(self) -> (r: Self)
        ensures
            r == (InteractiveElement { state: InteractiveState::Disabled, ..self }),
    {
        InteractiveElement { state: InteractiveState::Disabled, ..self }
    }

    /// Configures the loading state.
    pub fn loading(self) -> (r: Self)
        ensures
            r == (InteractiveElement { state: InteractiveState::Loading, ..self }),
    {
        InteractiveElement { state: InteractiveState::Loading, ..self }
    }

    /// Builds the normalized class string.
    pub fn classes(self) -> (r: String)
        ensures
            r@ == interactive_classes_spec(self),
    {
        let any = self.is_hoverable || self.is_focusable || self.is_pressable;
        let hover_or_press = self.is_hoverable || self.is_pressable;
        let mut parts: Vec<String> = Vec::new();
        push_part(&mut parts, if any { "transition-all duration-200 ease-in-out" } else { "" });
        push_part(
            &mut parts,
            if matches!(self.state, InteractiveState::Disabled) {
                "cursor-not-allowed"
            } else if matches!(self.state, InteractiveState::Loading) {
                "cursor-wait"
            } else if hover_or_press {
                "cursor-pointer"
            } else {
                ""
            },
        );
        push_part(
            &mut parts,
            if self.is_hoverable && !matches!(self.state, InteractiveState::Disabled) {
                match self.interaction_intensity {
                    InteractionIntensity::Gentle => "hover:scale-101 hover:shadow-sm",
                    InteractionIntensity::Standard => "hover:scale-105 hover:shadow-md",
                    InteractionIntensity::Prominent => "hover:scale-110 hover:shadow-lg",
                }
            } else {
                ""
            },
        );
        push_part(
            &mut parts,
            if self.is_pressable && !matches!(self.state, InteractiveState::Disabled) {
                match self.interaction_intensity {
                    InteractionIntensity::Gentle => "active:scale-100",
                    InteractionIntensity::Standard => "active:scale-95",
                    InteractionIntensity::Prominent => "active:scale-95",
                }
            } else {
                ""
            },
        );
        if self.is_focusable {
            let mut s = "focus:outline-none focus:ring-2 focus:ring-offset-2 focus:ring-"
                .to_owned();
            let ring = primary_ring_string(self.color_provider.resolve_color(Color::Primary));
            s.append(ring.as_str());
            push_part_string(&mut parts, s);
        } else {
            push_part(&mut parts, "");
        }
        if matches!(self.state, InteractiveState::Focused) && self.is_focusable {
            let mut s = "ring-2 ring-offset-2 ring-".to_owned();
            let ring = primary_ring_string(self.color_provider.resolve_color(Color::Primary));
            s.append(ring.as_str());
            push_part_string(&mut parts, s);
        } else {
            push_part(
                &mut parts,
                match self.state {
                    InteractiveState::Disabled => "opacity-50 pointer-events-none",
                    InteractiveState::Loading => "opacity-75",
                    _ => "",
                },
            );
        }
        push_all_parts(&mut parts, &self.custom_classes);
        proof {
            assert(views(parts@) =~= interactive_fragments(
                self.state,
                self.is_hoverable,
                self.is_focusable,
                self.is_pressable,
                self.interaction_intensity,
                views(self.custom_classes@),
                self.color_provider.spec_palette(),
            ));
        }
        assemble_fragments(&parts)
    }
}

/// Creates an interactive element.
pub fn interactive_element<C: ColorProvider>(color_provider: C) -> (r: InteractiveElement<C>)
    ensures
        r.state == InteractiveState::Default,
        !r.is_hoverable,
        !r.is_focusable,
        !r.is_pressable,
        r.interaction_intensity == InteractionIntensity::Standard,
        r.custom_classes@.len() == 0,
        r.color_provider == color_provider,
{
    InteractiveElement::new(color_provider)
}

} // verus!
