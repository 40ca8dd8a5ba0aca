//! State styling builder: classes and companion values for empty, loading,
//! error and success displays.

use vstd::prelude::*;
use crate::classlist::{assemble, assemble_fragments, push_part, push_part_string, str_eq, views};
use crate::foundation::color::{Color, ColorPalette, ColorProvider};
use crate::patterns::states::{opt_view, state_action_text_view, state_fullscreen_fragment,
    state_icon_view, state_intent_fragment, state_layout_fragment, state_spacing_fragment,
    LoadingVariant, StateActionRequirement, StateAlignment, StateIntent, StateProminence,
    StateSize};

verus! {

broadcast use vstd::seq_lib::group_seq_properties;

/// State styling builder.
#[derive(Debug, Clone)]
pub struct StateStyles<C: ColorProvider> {
    pub intent: StateIntent,
    pub prominence: StateProminence,
    pub size: StateSize,
    pub alignment: StateAlignment,
    pub action_requirement: StateActionRequirement,
    pub loading_variant: Option<LoadingVariant>,
    pub fullscreen: bool,
    pub custom_classes: Vec<String>,
    pub color_provider: C,
}

/// The animation fragment of a loading variant, in the builder layer.
pub open spec fn builder_loading_fragment(v: Option<LoadingVariant>) -> Seq<char> {
    match v {
        Option::Some(LoadingVariant::Spinner) => "animate-spin border-4 border-t-transparent rounded-full"@,
        Option::Some(LoadingVariant::Dots) => "animate-bounce rounded-full"@,
        Option::Some(LoadingVariant::Pulse) => "animate-pulse rounded-full"@,
        Option::Some(LoadingVariant::Bars) => "animate-pulse rounded-sm"@,
        Option::Some(LoadingVariant::Skeleton) => "animate-pulse rounded"@,
        Option::None => ""@,
    }
}

/// All fragments of a state builder configuration, in order.
pub open spec fn state_styles_fragments(
    intent: StateIntent,
    size: StateSize,
    alignment: StateAlignment,
    loading_variant: Option<LoadingVariant>,
    fullscreen: bool,
    customs: Seq<Seq<char>>,
    p: ColorPalette,
) -> Seq<Seq<char>> {
    seq![
        "state-pattern"@,
        state_layout_fragment(alignment),
        state_fullscreen_fragment(fullscreen),
        state_spacing_fragment(size),
        state_intent_fragment(intent, p),
        builder_loading_fragment(loading_variant),
    ] + customs
}

/// The normalized class string of a state builder configuration.
pub open spec fn state_classes_spec<C: ColorProvider>(s: StateStyles<C>) -> Seq<char> {
    assemble(
        state_styles_fragments(
            s.intent,
            s.size,
            s.alignment,
            s.loading_variant,
            s.fullscreen,
            views(s.custom_classes@),
            s.color_provider.spec_palette(),
        ),
    )
}

/// The intent named by a string, with `Informational` as the fallback.
pub open spec fn state_intent_from_str(s: Seq<char>) -> StateIntent {
    if s == "informational"@ || s == "info"@ {
        StateIntent::Informational
    } else if s == "loading"@ {
        StateIntent::Loading
    } else if s == "success"@ {
        StateIntent::Success
    } else if s == "warning"@ || s == "warn"@ {
        StateIntent::Warning
    } else if s == "error"@ {
        StateIntent::Error
    } else if s == "empty"@ {
        StateIntent::Empty
    } else {
        StateIntent::Informational
    }
}

/// The prominence named by a string, with `Standard` as the fallback.
pub open spec fn state_prominence_from_str(s: Seq<char>) -> StateProminence {
    if s == "subtle"@ {
        StateProminence::Subtle
    } else if s == "standard"@ {
        StateProminence::Standard
    } else if s == "prominent"@ {
        StateProminence::Prominent
    } else {
        StateProminence::Standard
    }
}

/// The size named by a string, with `MD` as the fallback.
pub open spec fn state_size_from_str(s: Seq<char>) -> StateSize {
    if s == "xs"@ {
        StateSize::XS
    } else if s == "sm"@ {
        StateSize::SM
    } else if s == "md"@ {
        StateSize::MD
    } else if s == "lg"@ {
        StateSize::LG
    } else if s == "xl"@ {
        StateSize::XL
    } else {
        StateSize::MD
    }
}

/// The alignment named by a string, with `Center` as the fallback.
pub open spec fn state_alignment_from_str(s: Seq<char>) -> StateAlignment {
    if s == "left"@ {
        StateAlignment::Left
    } else if s == "center"@ {
        StateAlignment::Center
    } else if s == "right"@ {
        StateAlignment::Right
    } else {
        StateAlignment::Center
    }
}

/// The loading variant named by a string; unrecognized names configure none.
pub open spec fn loading_variant_from_str(s: Seq<char>) -> Option<LoadingVariant> {
    if s == "spinner"@ {
        Option::Some(LoadingVariant::Spinner)
    } else if s == "dots"@ {
        Option::Some(LoadingVariant::Dots)
    } else if s == "pulse"@ {
        Option::Some(LoadingVariant::Pulse)
    } else if s == "bars"@ {
        Option::Some(LoadingVariant::Bars)
    } else if s == "skeleton"@ {
        Option::Some(LoadingVariant::Skeleton)
    } else {
        Option::None
    }
}

impl<C: ColorProvider> StateStyles<C> {
    /// Creates a state builder with default values.
    pub fn new(color_provider: C) -> (r: Self)
        ensures
            r.intent == StateIntent::Informational,
            r.prominence == StateProminence::Standard,
            r.size == StateSize::MD,
            r.alignment == StateAlignment::Center,
            r.action_requirement == StateActionRequirement::NoAction,
            r.loading_variant is None,
            !r.fullscreen,
            r.custom_classes@.len() == 0,
            r.color_provider == color_provider,
    {
        StateStyles {
            intent: StateIntent::Informational,
            prominence: StateProminence::Standard,
            size: StateSize::MD,
            alignment: StateAlignment::Center,
            action_requirement: StateActionRequirement::NoAction,
            loading_variant: Option::None,
            fullscreen: false,
            custom_classes: Vec::new(),
            color_provider,
        }
    }

    /// Configures the informational intent.
    pub fn informational(self) -> (r: Self)
        ensures
            r == (StateStyles { intent: StateIntent::Informational, ..self }),
    {
        StateStyles { intent: StateIntent::Informational, ..self }
    }

    /// Configures the loading intent.
    pub fn loading(self) -> (r: Self)
        ensures
            r == (StateStyles { intent: StateIntent::Loading, ..self }),
    {
        StateStyles { intent: StateIntent::Loading, ..self }
    }

    /// Configures the success intent.
    pub fn success(self) -> (r: Self)
        ensures
            r == (StateStyles { intent: StateIntent::Success, ..self }),
    {
        StateStyles { intent: StateIntent::Success, ..self }
    }

    /// Configures the warning intent.
    pub fn warning(self) -> (r: Self)
        ensures
            r == (StateStyles { intent: StateIntent::Warning, ..self }),
    {
        StateStyles { intent: StateIntent::Warning, ..self }
    }

    /// Configures the error intent.
    pub fn error(self) -> (r: Self)
        ensures
            r == (StateStyles { intent: StateIntent::Error, ..self }),
    {
        StateStyles { intent: StateIntent::Error, ..self }
    }

    /// Configures the empty intent.
    pub fn empty(self) -> (r: Self)
        ensures
            r == (StateStyles { intent: StateIntent::Empty, ..self }),
    {
        StateStyles { intent: StateIntent::Empty, ..self }
    }

    /// Configures subtle prominence.
    pub fn subtle(self) -> (r: Self)
        ensures
            r == (StateStyles { prominence: StateProminence::Subtle, ..self }),
    {
        StateStyles { prominence: StateProminence::Subtle, ..self }
    }

    /// Configures standard prominence.
    pub fn standard(self) -> (r: Self)
        ensures
            r == (StateStyles { prominence: StateProminence::Standard, ..self }),
    {
        StateStyles { prominence: StateProminence::Standard, ..self }
    }

    /// Configures prominent prominence.
    pub fn prominent(self) -> (r: Self)
        ensures
            r == (StateStyles { prominence: StateProminence::Prominent, ..self }),
    {
        StateStyles { prominence: StateProminence::Prominent, ..self }
    }

    /// Configures the extra-small size.
    pub fn xs(self) -> (r: Self)
        ensures
            r == (StateStyles { size: StateSize::XS, ..self }),
    {
        StateStyles { size: StateSize::XS, ..self }
    }

    /// Configures the small size.
    pub fn sm(self) -> (r: Self)
        ensures
            r == (StateStyles { size: StateSize::SM, ..self }),
    {
        StateStyles { size: StateSize::SM, ..self }
    }

    /// Configures the medium size.
    pub fn md(self) -> (r: Self)
        ensures
            r == (StateStyles { size: StateSize::MD, ..self }),
    {
        StateStyles { size: StateSize::MD, ..self }
    }

    /// Configures the large size.
    pub fn lg(self) -> (r: Self)
        ensures
            r == (StateStyles { size: StateSize::LG, ..self }),
    {
        StateStyles { size: StateSize::LG, ..self }
    }

    /// Configures the extra-large size.
    pub fn xl(self) -> (r: Self)
        ensures
            r == (StateStyles { size: StateSize::XL, ..self }),
    {
        StateStyles { size: StateSize::XL, ..self }
    }

    /// Configures left alignment.
    pub fn left_aligned(self) -> (r: Self)
        ensures
            r == (StateStyles { alignment: StateAlignment::Left, ..self }),
    {
        StateStyles { alignment: StateAlignment::Left, ..self }
    }

    /// Configures centered alignment.
    pub fn center_aligned(self) -> (r: Self)
        ensures
            r == (StateStyles { alignment: StateAlignment::Center, ..self }),
    {
        StateStyles { alignment: StateAlignment::Center, ..self }
    }

    /// Configures right alignment.
    pub fn right_aligned(self) -> (r: Self)
        ensures
            r == (StateStyles { alignment: StateAlignment::Right, ..self }),
    {
        StateStyles { alignment: StateAlignment::Right, ..self }
    }

    /// Configures no action.
    pub fn no_action(self) -> (r: Self)
        ensures
            r == (StateStyles {
                action_requirement: StateActionRequirement::NoAction,
                ..self
            }),
    {
        StateStyles { action_requirement: StateActionRequirement::NoAction, ..self }
    }

    /// Configures an optional action.
    pub fn optional_action(self) -> (r: Self)
        ensures
            r == (StateStyles {
                action_requirement: StateActionRequirement::Optional,
                ..self
            }),
    {
        StateStyles { action_requirement: StateActionRequirement::Optional, ..self }
    }

    /// Configures a recommended action.
    pub fn recommended_action(self) -> (r: Self)
        ensures
            r == (StateStyles {
                action_requirement: StateActionRequirement::Recommended,
                ..self
            }),
    {
        StateStyles { action_requirement: StateActionRequirement::Recommended, ..self }
    }

    /// Configures a required action.
    pub fn required_action(self) -> (r: Self)
        ensures
            r == (StateStyles {
                action_requirement: StateActionRequirement::Required,
                ..self
            }),
    {
        StateStyles { action_requirement: StateActionRequirement::Required, ..self }
    }

    /// Configures the spinner loading animation.
    pub fn spinner(self) -> (r: Self)
        ensures
            r == (StateStyles {
                loading_variant: Option::Some(LoadingVariant::Spinner),
                ..self
            }),
    {
        StateStyles { loading_variant: Option::Some(LoadingVariant::Spinner), ..self }
    }

    /// Configures the dots loading animation.
    pub fn dots(self) -> (r: Self)
        ensures
            r == (StateStyles {
                loading_variant: Option::Some(LoadingVariant::Dots),
                ..self
            }),
    {
        StateStyles { loading_variant: Option::Some(LoadingVariant::Dots), ..self }
    }

    /// Configures the pulse loading animation.
    pub fn pulse(self) -> (r: Self)
        ensures
            r == (StateStyles {
                loading_variant: Option::Some(LoadingVariant::Pulse),
                ..self
            }),
    {
        StateStyles { loading_variant: Option::Some(LoadingVariant::Pulse), ..self }
    }

    /// Configures the bars loading animation.
    pub fn bars(self) -> (r: Self)
        ensures
            r == (StateStyles {
                loading_variant: Option::Some(LoadingVariant::Bars),
                ..self
            }),
    {
        StateStyles { loading_variant: Option::Some(LoadingVariant::Bars), ..self }
    }

    /// Configures the skeleton loading animation.
    pub fn skeleton(self) -> (r: Self)
        ensures
            r == (StateStyles {
                loading_variant: Option::Some(LoadingVariant::Skeleton),
                ..self
            }),
    {
        StateStyles { loading_variant: Option::Some(LoadingVariant::Skeleton), ..self }
    }

    /// Configures the fullscreen layout.
    pub fn fullscreen(self, fullscreen: bool) -> (r: Self)
        ensures
            r == (StateStyles { fullscreen, ..self }),
    {
        StateStyles { fullscreen, ..self }
    }

    /// Enables the fullscreen layout.
    pub fn is_fullscreen(self) -> (r: Self)
        ensures
            r == (StateStyles { fullscreen: true, ..self }),
    {
        StateStyles { fullscreen: true, ..self }
    }

    /// Appends one custom class.
    pub fn custom(self, class: &str) -> (r: Self)
        ensures
            r == (StateStyles { custom_classes: r.custom_classes, ..self }),
            views(r.custom_classes@) == views(self.custom_classes@).push(class@),
    {
        let mut c = self;
        let owned = class.to_owned();
        c.custom_classes.push(owned);
        proof {
            assert(views(c.custom_classes@) =~= views(self.custom_classes@).push(class@));
        }
        c
    }

    /// Appends each whitespace-separated class of the given string.
    pub fn custom_classes(self, classes: &str) -> (r: Self)
        ensures
            r == (StateStyles { custom_classes: r.custom_classes, ..self }),
            views(r.custom_classes@) == views(self.custom_classes@) + crate::classlist::split_ws(
                classes@,
            ),
    {
        let toks = crate::classlist::split_tokens(classes);
        let mut c = self;
        let ghost base = views(c.custom_classes@);
        let mut i: usize = 0;
        proof {
            assert(base + views(toks@).take(0) =~= base);
        }
        while i < toks.len()
            invariant
                i <= toks.len(),
                views(toks@) == crate::classlist::split_ws(classes@),
                views(c.custom_classes@) == base + views(toks@).take(i as int),
                c.intent == self.intent,
                c.prominence == self.prominence,
                c.size == self.size,
                c.alignment == self.alignment,
                c.action_requirement == self.action_requirement,
                c.loading_variant == self.loading_variant,
                c.fullscreen == self.fullscreen,
                c.color_provider == self.color_provider,
                base == views(self.custom_classes@),
            decreases toks.len() - i,
        {
            let ghost before = c.custom_classes@;
            let t = toks[i].clone();
            proof {
                assert(t@ == views(toks@)[i as int]);
            }
            c.custom_classes.push(t);
            proof {
                assert(c.custom_classes@ == before.push(t));
                assert(views(c.custom_classes@) =~= views(before).push(t@));
                assert(views(before).push(t@) =~= base + views(toks@).take(i + 1));
            }
            i += 1;
        }
        proof {
            assert(views(toks@).take(toks@.len() as int) =~= views(toks@));
        }
        c
    }

    /// Configures the intent named by a string; unrecognized names fall back
    /// to `Informational`.
    pub fn intent_str(self, intent: &str) -> (r: Self)
        ensures
            r == (StateStyles { intent: state_intent_from_str(intent@), ..self }),
    {
        let v = if str_eq(intent, "informational") || str_eq(intent, "info") {
            StateIntent::Informational
        } else if str_eq(intent, "loading") {
            StateIntent::Loading
        } else if str_eq(intent, "success") {
            StateIntent::Success
        } else if str_eq(intent, "warning") || str_eq(intent, "warn") {
            StateIntent::Warning
        } else if str_eq(intent, "error") {
            StateIntent::Error
        } else if str_eq(intent, "empty") {
            StateIntent::Empty
        } else {
            StateIntent::Informational
        };
        StateStyles { intent: v, ..self }
    }

    /// Configures the prominence named by a string; unrecognized names fall
    /// back to `Standard`.
    pub fn prominence_str(self, prominence: &str) -> (r: Self)
        ensures
            r == (StateStyles {
                prominence: state_prominence_from_str(prominence@),
                ..self
            }),
    {
        let v = if str_eq(prominence, "subtle") {
            StateProminence::Subtle
        } else if str_eq(prominence, "standard") {
            StateProminence::Standard
        } else if str_eq(prominence, "prominent") {
            StateProminence::Prominent
        } else {
            StateProminence::Standard
        };
        StateStyles { prominence: v, ..self }
    }

    /// Configures the size named by a string; unrecognized names fall back
    /// to `MD`.
    pub fn size_str(self, size: &str) -> (r: Self)
        ensures
            r == (StateStyles { size: state_size_from_str(size@), ..self }),
    {
        let v = if str_eq(size, "xs") {
            StateSize::XS
        } else if str_eq(size, "sm") {
            StateSize::SM
        } else if str_eq(size, "md") {
            StateSize::MD
        } else if str_eq(size, "lg") {
            StateSize::LG
        } else if str_eq(size, "xl") {
            StateSize::XL
        } else {
            StateSize::MD
        };
        StateStyles { size: v, ..self }
    }

    /// Configures the alignment named by a string; unrecognized names fall
    /// back to `Center`.
    pub fn alignment_str(self, alignment: &str) -> (r: Self)
        ensures
            r == (StateStyles {
                alignment: state_alignment_from_str(alignment@),
                ..self
            }),
    {
        let v = if str_eq(alignment, "left") {
            StateAlignment::Left
        } else if str_eq(alignment, "center") {
            StateAlignment::Center
        } else if str_eq(alignment, "right") {
            StateAlignment::Right
        } else {
            StateAlignment::Center
        };
        StateStyles { alignment: v, ..self }
    }

    /// Configures the loading variant named by a string; unrecognized names
    /// configure none.
    pub fn loading_variant_str(self, variant: &str) -> (r: Self)
        ensures
            r == (StateStyles {
                loading_variant: loading_variant_from_str(variant@),
                ..self
            }),
    {
        let v = if str_eq(variant, "spinner") {
            Option::Some(LoadingVariant::Spinner)
        } else if str_eq(variant, "dots") {
            Option::Some(LoadingVariant::Dots)
        } else if str_eq(variant, "pulse") {
            Option::Some(LoadingVariant::Pulse)
        } else if str_eq(variant, "bars") {
            Option::Some(LoadingVariant::Bars)
        } else if str_eq(variant, "skeleton") {
            Option::Some(LoadingVariant::Skeleton)
        } else {
            Option::None
        };
        StateStyles { loading_variant: v, ..self }
    }

    /// Builds the normalized class string.
    pub fn classes(self) -> (r: String)
        ensures
            r@ == state_classes_spec(self),
    {
        self.build()
    }

    /// Builds the normalized class string; `classes` and `build` agree.
    pub fn build(self) -> (r: String)
        ensures
            r@ == state_classes_spec(self),
    {
        let mut parts: Vec<String> = Vec::new();
        push_part(&mut parts, "state-pattern");
        push_part(
            &mut parts,
            match self.alignment {
                StateAlignment::Left => "flex flex-col items-start text-left",
                StateAlignment::Center => "flex flex-col items-center text-center",
                StateAlignment::Right => "flex flex-col items-end text-right",
            },
        );
        push_part(&mut parts, if self.fullscreen { "min-h-screen justify-center" } else { "" });
        push_part(
            &mut parts,
            match self.size {
                StateSize::XS => "px-4 py-8",
                StateSize::SM => "px-6 py-12",
                StateSize::MD => "px-8 py-16",
                StateSize::LG => "px-12 py-20",
                StateSize::XL => "px-16 py-24",
            },
        );
        push_part_string(&mut parts, state_builder_intent_string(&self.color_provider, self.intent));
        push_part(
            &mut parts,
            match self.loading_variant {
                Option::Some(LoadingVariant::Spinner) => "animate-spin border-4 border-t-transparent rounded-full",
                Option::Some(LoadingVariant::Dots) => "animate-bounce rounded-full",
                Option::Some(LoadingVariant::Pulse) => "animate-pulse rounded-full",
                Option::Some(LoadingVariant::Bars) => "animate-pulse rounded-sm",
                Option::Some(LoadingVariant::Skeleton) => "animate-pulse rounded",
                Option::None => "",
            },
        );
        let ghost frags = state_styles_fragments(
            self.intent,
            self.size,
            self.alignment,
            self.loading_variant,
            self.fullscreen,
            views(self.custom_classes@),
            self.color_provider.spec_palette(),
        );
        let ghost head = views(parts@);
        proof {
            assert(head =~= frags.take(6));
        }
        let mut i: usize = 0;
        let ghost customs = views(self.custom_classes@);
        proof {
            assert(head + customs.take(0) =~= head);
        }
        while i < self.custom_classes.len()
            invariant
                i <= self.custom_classes.len(),
                head == frags.take(6),
                frags == state_styles_fragments(
                    self.intent,
                    self.size,
                    self.alignment,
                    self.loading_variant,
                    self.fullscreen,
                    views(self.custom_classes@),
                    self.color_provider.spec_palette(),
                ),
                customs == views(self.custom_classes@),
                views(parts@) == head + customs.take(i as int),
            decreases self.custom_classes.len() - i,
        {
            proof {
                assert(customs[i as int] == self.custom_classes@[i as int]@);
            }
            push_part(&mut parts, self.custom_classes[i].as_str());
            proof {
                assert(views(parts@) =~= head + customs.take(i + 1));
            }
            i += 1;
        }
        proof {
            assert(customs.take(self.custom_classes@.len() as int) =~= customs);
            assert(head + customs =~= frags);
        }
        assemble_fragments(&parts)
    }

    /// The suggested icon name for this state.
    pub fn suggested_icon(&self) -> (r: String)
        ensures
            r@ == state_icon_view(self.intent),
    {
        match self.intent {
            StateIntent::Informational => "info",
            StateIntent::Loading => "loader",
            StateIntent::Success => "check-circle",
            StateIntent::Warning => "alert-triangle",
            StateIntent::Error => "alert-circle",
            StateIntent::Empty => "inbox",
        }.to_owned()
    }

    /// The suggested action label for this state, when one is called for.
    pub fn suggested_action_text(&self) -> (r: Option<String>)
        ensures
            opt_view(r) == state_action_text_view(self.intent, self.action_requirement),
    {
        match (self.intent, self.action_requirement) {
            (StateIntent::Error, StateActionRequirement::Recommended) => Option::Some(
                "Try Again".to_owned(),
            ),
            (StateIntent::Empty, StateActionRequirement::Optional) => Option::Some(
                "Refresh".to_owned(),
            ),
            (StateIntent::Empty, StateActionRequirement::Recommended) => Option::Some(
                "Add Item".to_owned(),
            ),
            (StateIntent::Warning, StateActionRequirement::Required) => Option::Some(
                "Take Action".to_owned(),
            ),
            _ => Option::None,
        }
    }

    /// The text size class for the state's main content.
    pub fn content_size_classes(&self) -> (r: String)
        ensures
            r@ == match self.size {
                StateSize::XS => "text-lg"@,
                StateSize::SM => "text-xl"@,
                StateSize::MD => "text-2xl"@,
                StateSize::LG => "text-3xl"@,
                StateSize::XL => "text-4xl"@,
            },
    {
        match self.size {
            StateSize::XS => "text-lg",
            StateSize::SM => "text-xl",
            StateSize::MD => "text-2xl",
            StateSize::LG => "text-3xl",
            StateSize::XL => "text-4xl",
        }.to_owned()
    }

    /// The text size class for the state's description.
    pub fn description_size_classes(&self) -> (r: String)
        ensures
            r@ == match self.size {
                StateSize::XS => "text-sm"@,
                StateSize::SM => "text-base"@,
                StateSize::MD => "text-lg"@,
                StateSize::LG => "text-xl"@,
                StateSize::XL => "text-2xl"@,
            },
    {
        match self.size {
            StateSize::XS => "text-sm",
            StateSize::SM => "text-base",
            StateSize::MD => "text-lg",
            StateSize::LG => "text-xl",
            StateSize::XL => "text-2xl",
        }.to_owned()
    }

    /// The size classes for the state's icon.
    pub fn icon_size_classes(&self) -> (r: String)
        ensures
            r@ == match self.size {
                StateSize::XS => "w-8 h-8"@,
                StateSize::SM => "w-12 h-12"@,
                StateSize::MD => "w-16 h-16"@,
                StateSize::LG => "w-20 h-20"@,
                StateSize::XL => "w-24 h-24"@,
            },
    {
        match self.size {
            StateSize::XS => "w-8 h-8",
            StateSize::SM => "w-12 h-12",
            StateSize::MD => "w-16 h-16",
            StateSize::LG => "w-20 h-20",
            StateSize::XL => "w-24 h-24",
        }.to_owned()
    }

    /// The size classes for the loading animation element.
    pub fn loading_size_classes(&self) -> (r: String)
        ensures
            r@ == match self.loading_variant {
                Option::Some(LoadingVariant::Spinner) => match self.size {
                    StateSize::XS => "w-6 h-6"@,
                    StateSize::SM => "w-8 h-8"@,
                    StateSize::MD => "w-12 h-12"@,
                    StateSize::LG => "w-16 h-16"@,
                    StateSize::XL => "w-20 h-20"@,
                },
                Option::Some(LoadingVariant::Dots) => match self.size {
                    StateSize::XS => "w-2 h-2"@,
                    StateSize::SM => "w-3 h-3"@,
                    StateSize::MD => "w-4 h-4"@,
                    StateSize::LG => "w-5 h-5"@,
                    StateSize::XL => "w-6 h-6"@,
                },
                _ => "w-8 h-8"@,
            },
    {
        match self.loading_variant {
            Option::Some(LoadingVariant::Spinner) => match self.size {
                StateSize::XS => "w-6 h-6",
                StateSize::SM => "w-8 h-8",
                StateSize::MD => "w-12 h-12",
                StateSize::LG => "w-16 h-16",
                StateSize::XL => "w-20 h-20",
            },
            Option::Some(LoadingVariant::Dots) => match self.size {
                StateSize::XS => "w-2 h-2",
                StateSize::SM => "w-3 h-3",
                StateSize::MD => "w-4 h-4",
                StateSize::LG => "w-5 h-5",
                StateSize::XL => "w-6 h-6",
            },
            _ => "w-8 h-8",
        }.to_owned()
    }
}

/// An intent name outside the recognized set configures the
/// `Informational` intent, exactly as `informational()` does.
pub proof fn lemma_state_intent_fallback(s: Seq<char>)
    requires
        s != "informational"@,
        s != "info"@,
        s != "loading"@,
        s != "success"@,
        s != "warning"@,
        s != "warn"@,
        s != "error"@,
        s != "empty"@,
    ensures
        state_intent_from_str(s) == StateIntent::Informational,
{
}

/// Builds the intent color fragment for the builder layer.
fn state_builder_intent_string<C: ColorProvider>(provider: &C, intent: StateIntent) -> (r: String)
    ensures
        r@ == state_intent_fragment(intent, provider.spec_palette()),
{
    match intent {
        StateIntent::Informational => {
            let mut s = "text-".to_owned();
            s.append(provider.resolve_color(Color::TextPrimary));
            s.append(" bg-");
            s.append(provider.resolve_color(Color::Background));
            s
        },
        StateIntent::Loading => {
            let mut s = "text-".to_owned();
            s.append(provider.resolve_color(Color::Primary));
            s.append(" bg-");
            s.append(provider.resolve_color(Color::Background));
            s
        },
        StateIntent::Success => "text-green-600 bg-green-50".to_owned(),
        StateIntent::Warning => "text-orange-600 bg-orange-50".to_owned(),
        StateIntent::Error => "text-red-600 bg-red-50".to_owned(),
        StateIntent::Empty => {
            let mut s = "text-".to_owned();
            s.append(provider.resolve_color(Color::TextSecondary));
            s.append(" bg-");
            s.append(provider.resolve_color(Color::Background));
            s
        },
    }
}

/// Creates a state builder.
pub fn state_styles<C: ColorProvider>(color_provider: C) -> (r: StateStyles<C>)
    ensures
        r.intent == StateIntent::Informational,
        r.prominence == StateProminence::Standard,
        r.size == StateSize::MD,
        r.alignment == StateAlignment::Center,
        r.action_requirement == StateActionRequirement::NoAction,
        r.loading_variant is None,
        !r.fullscreen,
        r.custom_classes@.len() == 0,
        r.color_provider == color_provider,
{
    StateStyles::new(color_provider)
}

/// Creates a loading state builder.
pub fn loading_state_styles<C: ColorProvider>(color_provider: C) -> (r: StateStyles<C>)
    ensures
        r.intent == StateIntent::Loading,
        r.prominence == StateProminence::Standard,
        r.alignment == StateAlignment::Center,
        r.loading_variant == Option::Some(LoadingVariant::Spinner),
        r.action_requirement == StateActionRequirement::NoAction,
        r.size == StateSize::MD,
        !r.fullscreen,
        r.custom_classes@.len() == 0,
        r.color_provider == color_provider,
{
    StateStyles::new(color_provider).loading().standard().center_aligned().spinner().no_action()
}

/// Creates an empty state builder.
pub fn empty_state_styles<C: ColorProvider>(color_provider: C) -> (r: StateStyles<C>)
    ensures
        r.intent == StateIntent::Empty,
        r.prominence == StateProminence::Standard,
        r.alignment == StateAlignment::Center,
        r.action_requirement == StateActionRequirement::Optional,
        r.size == StateSize::MD,
        r.loading_variant is None,
        !r.fullscreen,
        r.custom_classes@.len() == 0,
        r.color_provider == color_provider,
{
    StateStyles::new(color_provider).empty().standard().center_aligned().optional_action()
}

/// Creates an error state builder.
pub fn error_state_styles<C: ColorProvider>(color_provider: C) -> (r: StateStyles<C>)
    ensures
        r.intent == StateIntent::Error,
        r.prominence == StateProminence::Prominent,
        r.alignment == StateAlignment::Center,
        r.action_requirement == StateActionRequirement::Recommended,
        r.size == StateSize::MD,
        r.loading_variant is None,
        !r.fullscreen,
        r.custom_classes@.len() == 0,
        r.color_provider == color_provider,
{
    StateStyles::new(color_provider).error().prominent().center_aligned().recommended_action()
}

/// Creates a success state builder.
pub fn success_state_styles<C: ColorProvider>(color_provider: C) -> (r: StateStyles<C>)
    ensures
        r.intent == StateIntent::Success,
        r.prominence == StateProminence::Standard,
        r.alignment == StateAlignment::Center,
        r.action_requirement == StateActionRequirement::NoAction,
        r.size == StateSize::MD,
        r.loading_variant is None,
        !r.fullscreen,
        r.custom_classes@.len() == 0,
        r.color_provider == color_provider,
{
    StateStyles::new(color_provider).success().standard().center_aligned().no_action()
}

/// Builds state classes from string-valued options in one call.
pub fn state_classes_from_strings<C: ColorProvider>(
    color_provider: C,
    intent: &str,
    prominence: &str,
    size: &str,
    alignment: &str,
    loading_variant: Option<&str>,
    fullscreen: bool,
) -> (r: String)
    ensures
        r@ == assemble(
            state_styles_fragments(
                state_intent_from_str(intent@),
                state_size_from_str(size@),
                state_alignment_from_str(alignment@),
                match loading_variant {
                    Option::Some(v) => loading_variant_from_str(v@),
                    Option::None => Option::None,
                },
                fullscreen,
                Seq::empty(),
                color_provider.spec_palette(),
            ),
        ),
{
    let mut builder = StateStyles::new(color_provider).intent_str(intent).prominence_str(
        prominence,
    ).size_str(size).alignment_str(alignment).fullscreen(fullscreen);
    if let Option::Some(variant) = loading_variant {
        builder = builder.loading_variant_str(variant);
    }
    proof {
        assert(views(builder.custom_classes@) =~= Seq::<Seq<char>>::empty());
    }
    builder.classes()
}

} // verus!
