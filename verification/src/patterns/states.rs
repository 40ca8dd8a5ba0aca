//! State patterns: empty, loading, error and success states with
//! prominence, size, alignment and action semantics.

use vstd::prelude::*;
use crate::classlist::{assemble, assemble_fragments, push_part, push_part_string, views};
use crate::foundation::color::{Color, ColorPalette, ColorProvider};

verus! {

broadcast use vstd::seq_lib::group_seq_properties;

/// The semantic meaning of a state display.
#[derive(Debug, Clone, Copy, PartialEq, Eq, Hash, Structural)]
pub enum StateIntent {
    Informational,
    Loading,
    Success,
    Warning,
    Error,
    Empty,
}

/// The visual prominence of a state display.
#[derive(Debug, Clone, Copy, PartialEq, Eq, Hash, Structural)]
pub enum StateProminence {
    Subtle,
    Standard,
    Prominent,
}

/// The size of a state display.
#[derive(Debug, Clone, Copy, PartialEq, Eq, Hash, Structural)]
pub enum StateSize {
    XS,
    SM,
    MD,
    LG,
    XL,
}

/// The alignment of a state display.
#[derive(Debug, Clone, Copy, PartialEq, Eq, Hash, Structural)]
pub enum StateAlignment {
    Left,
    Center,
    Right,
}

/// Whether the state asks the user for an action.
#[derive(Debug, Clone, Copy, PartialEq, Eq, Hash, Structural)]
pub enum StateActionRequirement {
    NoAction,
    Optional,
    Recommended,
    Required,
}

/// The loading animation variant.
#[derive(Debug, Clone, Copy, PartialEq, Eq, Hash, Structural)]
pub enum LoadingVariant {
    Spinner,
    Dots,
    Pulse,
    Bars,
    Skeleton,
}

/// The layout fragment for an alignment.
pub open spec fn state_layout_fragment(a: StateAlignment) -> Seq<char> {
    match a {
        StateAlignment::Left => "flex flex-col items-start text-left"@,
        StateAlignment::Center => "flex flex-col items-center text-center"@,
        StateAlignment::Right => "flex flex-col items-end text-right"@,
    }
}

/// The spacing fragment for a state size.
pub open spec fn state_spacing_fragment(s: StateSize) -> Seq<char> {
    match s {
        StateSize::XS => "px-4 py-8"@,
        StateSize::SM => "px-6 py-12"@,
        StateSize::MD => "px-8 py-16"@,
        StateSize::LG => "px-12 py-20"@,
        StateSize::XL => "px-16 py-24"@,
    }
}

/// The color fragment for a state intent under a palette.
pub open spec fn state_intent_fragment(i: StateIntent, p: ColorPalette) -> Seq<char> {
    match i {
        StateIntent::Informational => "text-"@ + p.text_primary@ + " bg-"@ + p.background@,
        StateIntent::Loading => "text-"@ + p.primary@ + " bg-"@ + p.background@,
        StateIntent::Success => "text-green-600 bg-green-50"@,
        StateIntent::Warning => "text-orange-600 bg-orange-50"@,
        StateIntent::Error => "text-red-600 bg-red-50"@,
        StateIntent::Empty => "text-"@ + p.text_secondary@ + " bg-"@ + p.background@,
    }
}

/// The fullscreen fragment.
pub open spec fn state_fullscreen_fragment(fullscreen: bool) -> Seq<char> {
    if fullscreen {
        "min-h-screen justify-center"@
    } else {
        ""@
    }
}

/// The animation fragment of a loading variant, in the pattern layer.
pub open spec fn pattern_loading_fragment(v: Option<LoadingVariant>) -> Seq<char> {
    match v {
        Option::Some(LoadingVariant::Spinner) => "animate-spin"@,
        Option::Some(LoadingVariant::Dots) => "animate-bounce"@,
        Option::Some(LoadingVariant::Pulse) => "animate-pulse"@,
        Option::Some(LoadingVariant::Bars) => "animate-pulse"@,
        Option::Some(LoadingVariant::Skeleton) => "animate-pulse"@,
        Option::None => ""@,
    }
}

/// The suggested icon name for a state intent.
pub open spec fn state_icon_view(i: StateIntent) -> Seq<char> {
    match i {
        StateIntent::Informational => "info"@,
        StateIntent::Loading => "loader"@,
        StateIntent::Success => "check-circle"@,
        StateIntent::Warning => "alert-triangle"@,
        StateIntent::Error => "alert-circle"@,
        StateIntent::Empty => "inbox"@,
    }
}

/// The suggested action text for an intent and action requirement.
pub open spec fn state_action_text_view(
    i: StateIntent,
    a: StateActionRequirement,
) -> Option<Seq<char>> {
    if i == StateIntent::Error && a == StateActionRequirement::Recommended {
        Option::Some("Try Again"@)
    } else if i == StateIntent::Empty && a == StateActionRequirement::Optional {
        Option::Some("Refresh"@)
    } else if i == StateIntent::Empty && a == StateActionRequirement::Recommended {
        Option::Some("Add Item"@)
    } else if i == StateIntent::Warning && a == StateActionRequirement::Required {
        Option::Some("Take Action"@)
    } else {
        Option::None
    }
}

/// The character view of an optional string.
pub open spec fn opt_view(o: Option<String>) -> Option<Seq<char>> {
    match o {
        Option::Some(s) => Option::Some(s@),
        Option::None => Option::None,
    }
}

/// All fragments of a state configuration, in order.
pub open spec fn state_fragments(
    intent: StateIntent,
    size: StateSize,
    alignment: StateAlignment,
    loading_variant: Option<LoadingVariant>,
    fullscreen: bool,
    customs: Seq<Seq<char>>,
    p: ColorPalette,
) -> Seq<Seq<char>> {
    seq![
        "state-pattern"@,
        state_layout_fragment(alignment),
        state_fullscreen_fragment(fullscreen),
        state_spacing_fragment(size),
        state_intent_fragment(intent, p),
        pattern_loading_fragment(loading_variant),
    ] + customs
}

/// State pattern configuration.
#[derive(Debug, Clone)]
pub struct StatePattern<C: ColorProvider> {
    pub intent: StateIntent,
    pub prominence: StateProminence,
    pub size: StateSize,
    pub alignment: StateAlignment,
    pub action_requirement: StateActionRequirement,
    pub loading_variant: Option<LoadingVariant>,
    pub fullscreen: bool,
    pub custom_classes: Vec<String>,
    pub color_provider: C,
}

/// The normalized class string of a state pattern.
pub open spec fn state_pattern_classes_spec<C: ColorProvider>(s: StatePattern<C>) -> Seq<char> {
    assemble(
        state_fragments(
            s.intent,
            s.size,
            s.alignment,
            s.loading_variant,
            s.fullscreen,
            views(s.custom_classes@),
            s.color_provider.spec_palette(),
        ),
    )
}

/// Semantic information about a state pattern.
#[derive(Debug, Clone)]
pub struct StateSemanticInfo {
    pub intent: StateIntent,
    pub prominence: StateProminence,
    pub size: StateSize,
    pub alignment: StateAlignment,
    pub action_requirement: StateActionRequirement,
    pub loading_variant: Option<LoadingVariant>,
    pub requires_action: bool,
    pub is_interactive: bool,
}

impl<C: ColorProvider> StatePattern<C> {
    /// Creates a state pattern with default values.
    pub fn new(color_provider: C) -> (r: Self)
        ensures
            r.intent == StateIntent::Informational,
            r.prominence == StateProminence::Standard,
            r.size == StateSize::MD,
            r.alignment == StateAlignment::Center,
            r.action_requirement == StateActionRequirement::NoAction,
            r.loading_variant is None,
            !r.fullscreen,
            r.custom_classes@.len() == 0,
            r.color_provider == color_provider,
    {
        StatePattern {
            intent: StateIntent::Informational,
            prominence: StateProminence::Standard,
            size: StateSize::MD,
            alignment: StateAlignment::Center,
            action_requirement: StateActionRequirement::NoAction,
            loading_variant: Option::None,
            fullscreen: false,
            custom_classes: Vec::new(),
            color_provider,
        }
    }

    /// Configures the informational intent.
    pub fn informational(self) -> (r: Self)
        ensures
            r == (StatePattern { intent: StateIntent::Informational, ..self }),
    {
        StatePattern { intent: StateIntent::Informational, ..self }
    }

    /// Configures the loading intent.
    pub fn loading(self) -> (r: Self)
        ensures
            r == (StatePattern { intent: StateIntent::Loading, ..self }),
    {
        StatePattern { intent: StateIntent::Loading, ..self }
    }

    /// Configures the success intent.
    pub fn success(self) -> (r: Self)
        ensures
            r == (StatePattern { intent: StateIntent::Success, ..self }),
    {
        StatePattern { intent: StateIntent::Success, ..self }
    }

    /// Configures the warning intent.
    pub fn warning(self) -> (r: Self)
        ensures
            r == (StatePattern { intent: StateIntent::Warning, ..self }),
    {
        StatePattern { intent: StateIntent::Warning, ..self }
    }

    /// Configures the error intent.
    pub fn error(self) -> (r: Self)
        ensures
            r == (StatePattern { intent: StateIntent::Error, ..self }),
    {
        StatePattern { intent: StateIntent::Error, ..self }
    }

    /// Configures the empty intent.
    pub fn empty(self) -> (r: Self)
        ensures
            r == (StatePattern { intent: StateIntent::Empty, ..self }),
    {
        StatePattern { intent: StateIntent::Empty, ..self }
    }

    /// Configures subtle prominence.
    pub fn subtle(self) -> (r: Self)
        ensures
            r == (StatePattern { prominence: StateProminence::Subtle, ..self }),
    {
        StatePattern { prominence: StateProminence::Subtle, ..self }
    }

    /// Configures standard prominence.
    pub fn standard(self) -> (r: Self)
        ensures
            r == (StatePattern { prominence: StateProminence::Standard, ..self }),
    {
        StatePattern { prominence: StateProminence::Standard, ..self }
    }

    /// Configures prominent prominence.
    pub fn prominent(self) -> (r: Self)
        ensures
            r == (StatePattern { prominence: StateProminence::Prominent, ..self }),
    {
        StatePattern { prominence: StateProminence::Prominent, ..self }
    }

    /// Configures the extra-small size.
    pub fn xs(self) -> (r: Self)
        ensures
            r == (StatePattern { size: StateSize::XS, ..self }),
    {
        StatePattern { size: StateSize::XS, ..self }
    }

    /// Configures the small size.
    pub fn sm(self) -> (r: Self)
        ensures
            r == (StatePattern { size: StateSize::SM, ..self }),
    {
        StatePattern { size: StateSize::SM, ..self }
    }

    /// Configures the medium size.
    pub fn md(self) -> (r: Self)
        ensures
            r == (StatePattern { size: StateSize::MD, ..self }),
    {
        StatePattern { size: StateSize::MD, ..self }
    }

    /// Configures the large size.
    pub fn lg(self) -> (r: Self)
        ensures
            r == (StatePattern { size: StateSize::LG, ..self }),
    {
        StatePattern { size: StateSize::LG, ..self }
    }

    /// Configures the extra-large size.
    pub fn xl(self) -> (r: Self)
        ensures
            r == (StatePattern { size: StateSize::XL, ..self }),
    {
        StatePattern { size: StateSize::XL, ..self }
    }

    /// Configures left alignment.
    pub fn left_aligned(self) -> (r: Self)
        ensures
            r == (StatePattern { alignment: StateAlignment::Left, ..self }),
    {
        StatePattern { alignment: StateAlignment::Left, ..self }
    }

    /// Configures centered alignment.
    pub fn center_aligned(self) -> (r: Self)
        ensures
            r == (StatePattern { alignment: StateAlignment::Center, ..self }),
    {
        StatePattern { alignment: StateAlignment::Center, ..self }
    }

    /// Configures right alignment.
    pub fn right_aligned(self) -> (r: Self)
        ensures
            r == (StatePattern { alignment: StateAlignment::Right, ..self }),
    {
        StatePattern { alignment: StateAlignment::Right, ..self }
    }

    /// Configures no action.
    pub fn no_action(self) -> (r: Self)
        ensures
            r == (StatePattern {
                action_requirement: StateActionRequirement::NoAction,
                ..self
            }),
    {
        StatePattern { action_requirement: StateActionRequirement::NoAction, ..self }
    }

    /// Configures an optional action.
    pub fn optional_action(self) -> (r: Self)
        ensures
            r == (StatePattern {
                action_requirement: StateActionRequirement::Optional,
                ..self
            }),
    {
        StatePattern { action_requirement: StateActionRequirement::Optional, ..self }
    }

    /// Configures a recommended action.
    pub fn recommended_action(self) -> (r: Self)
        ensures
            r == (StatePattern {
                action_requirement: StateActionRequirement::Recommended,
                ..self
            }),
    {
        StatePattern { action_requirement: StateActionRequirement::Recommended, ..self }
    }

    /// Configures a required action.
    pub fn required_action(self) -> (r: Self)
        ensures
            r == (StatePattern {
                action_requirement: StateActionRequirement::Required,
                ..self
            }),
    {
        StatePattern { action_requirement: StateActionRequirement::Required, ..self }
    }

    /// Configures the spinner loading animation.
    pub fn spinner(self) -> (r: Self)
        ensures
            r == (StatePattern {
                loading_variant: Option::Some(LoadingVariant::Spinner),
                ..self
            }),
    {
        StatePattern { loading_variant: Option::Some(LoadingVariant::Spinner), ..self }
    }

    /// Configures the dots loading animation.
    pub fn dots(self) -> (r: Self)
        ensures
            r == (StatePattern {
                loading_variant: Option::Some(LoadingVariant::Dots),
                ..self
            }),
    {
        StatePattern { loading_variant: Option::Some(LoadingVariant::Dots), ..self }
    }

    /// Configures the pulse loading animation.
    pub fn pulse(self) -> (r: Self)
        ensures
            r == (StatePattern {
                loading_variant: Option::Some(LoadingVariant::Pulse),
                ..self
            }),
    {
        StatePattern { loading_variant: Option::Some(LoadingVariant::Pulse), ..self }
    }

    /// Configures the bars loading animation.
    pub fn bars(self) -> (r: Self)
        ensures
            r == (StatePattern {
                loading_variant: Option::Some(LoadingVariant::Bars),
                ..self
            }),
    {
        StatePattern { loading_variant: Option::Some(LoadingVariant::Bars), ..self }
    }

    /// Configures the skeleton loading animation.
    pub fn skeleton(self) -> (r: Self)
        ensures
            r == (StatePattern {
                loading_variant: Option::Some(LoadingVariant::Skeleton),
                ..self
            }),
    {
        StatePattern { loading_variant: Option::Some(LoadingVariant::Skeleton), ..self }
    }

    /// Configures the fullscreen layout.
    pub fn fullscreen(self, fullscreen: bool) -> (r: Self)
        ensures
            r == (StatePattern { fullscreen, ..self }),
    {
        StatePattern { fullscreen, ..self }
    }

    /// Appends a custom class string.
    pub fn custom(self, classes: &str) -> (r: Self)
        ensures
            r == (StatePattern { custom_classes: r.custom_classes, ..self }),
            views(r.custom_classes@) == views(self.custom_classes@).push(classes@),
    {
        let mut c = self;
        let owned = classes.to_owned();
        c.custom_classes.push(owned);
        proof {
            assert(views(c.custom_classes@) =~= views(self.custom_classes@).push(classes@));
        }
        c
    }

    /// Builds the normalized class string.
    pub fn classes(self) -> (r: String)
        ensures
            r@ == state_pattern_classes_spec(self),
    {
        let mut parts: Vec<String> = Vec::new();
        push_part(&mut parts, "state-pattern");
        push_part(
            &mut parts,
            match self.alignment {
                StateAlignment::Left => "flex flex-col items-start text-left",
                StateAlignment::Center => "flex flex-col items-center text-center",
                StateAlignment::Right => "flex flex-col items-end text-right",
            },
        );
        push_part(&mut parts, if self.fullscreen { "min-h-screen justify-center" } else { "" });
        push_part(
            &mut parts,
            match self.size {
                StateSize::XS => "px-4 py-8",
                StateSize::SM => "px-6 py-12",
                StateSize::MD => "px-8 py-16",
                StateSize::LG => "px-12 py-20",
                StateSize::XL => "px-16 py-24",
            },
        );
        push_part_string(&mut parts, state_intent_string(&self.color_provider, self.intent));
        push_part(
            &mut parts,
            match self.loading_variant {
                Option::Some(LoadingVariant::Spinner) => "animate-spin",
                Option::Some(LoadingVariant::Dots) => "animate-bounce",
                Option::Some(LoadingVariant::Pulse) => "animate-pulse",
                Option::Some(LoadingVariant::Bars) => "animate-pulse",
                Option::Some(LoadingVariant::Skeleton) => "animate-pulse",
                Option::None => "",
            },
        );
        let ghost frags = state_fragments(
            self.intent,
            self.size,
            self.alignment,
            self.loading_variant,
            self.fullscreen,
            views(self.custom_classes@),
            self.color_provider.spec_palette(),
        );
        let ghost head = views(parts@);
        proof {
            assert(head =~= frags.take(6));
        }
        let mut i: usize = 0;
        let ghost customs = views(self.custom_classes@);
        proof {
            assert(head + customs.take(0) =~= head);
        }
        while i < self.custom_classes.len()
            invariant
                i <= self.custom_classes.len(),
                head == frags.take(6),
                frags == state_fragments(
                    self.intent,
                    self.size,
                    self.alignment,
                    self.loading_variant,
                    self.fullscreen,
                    views(self.custom_classes@),
                    self.color_provider.spec_palette(),
                ),
                customs == views(self.custom_classes@),
                views(parts@) == head + customs.take(i as int),
            decreases self.custom_classes.len() - i,
        {
            proof {
                assert(customs[i as int] == self.custom_classes@[i as int]@);
            }
            push_part(&mut parts, self.custom_classes[i].as_str());
            proof {
                assert(views(parts@) =~= head + customs.take(i + 1));
            }
            i += 1;
        }
        proof {
            assert(customs.take(self.custom_classes@.len() as int) =~= customs);
            assert(head + customs =~= frags);
        }
        assemble_fragments(&parts)
    }

    /// The suggested icon name for this state.
    pub fn suggested_icon(&self) -> (r: String)
        ensures
            r@ == state_icon_view(self.intent),
    {
        match self.intent {
            StateIntent::Informational => "info",
            StateIntent::Loading => "loader",
            StateIntent::Success => "check-circle",
            StateIntent::Warning => "alert-triangle",
            StateIntent::Error => "alert-circle",
            StateIntent::Empty => "inbox",
        }.to_owned()
    }

    /// The suggested action label for this state, when one is called for.
    pub fn suggested_action_text(&self) -> (r: Option<String>)
        ensures
            opt_view(r) == state_action_text_view(self.intent, self.action_requirement),
    {
        match (self.intent, self.action_requirement) {
            (StateIntent::Error, StateActionRequirement::Recommended) => Option::Some(
                "Try Again".to_owned(),
            ),
            (StateIntent::Empty, StateActionRequirement::Optional) => Option::Some(
                "Refresh".to_owned(),
            ),
            (StateIntent::Empty, StateActionRequirement::Recommended) => Option::Some(
                "Add Item".to_owned(),
            ),
            (StateIntent::Warning, StateActionRequirement::Required) => Option::Some(
                "Take Action".to_owned(),
            ),
            _ => Option::None,
        }
    }

    /// A snapshot of the semantic configuration of this state.
    pub fn semantic_info(&self) -> (r: StateSemanticInfo)
        ensures
            r.intent == self.intent,
            r.prominence == self.prominence,
            r.size == self.size,
            r.alignment == self.alignment,
            r.action_requirement == self.action_requirement,
            r.loading_variant == self.loading_variant,
            r.requires_action == (self.action_requirement == StateActionRequirement::Required),
            r.is_interactive == (self.action_requirement != StateActionRequirement::NoAction),
    {
        StateSemanticInfo {
            intent: self.intent,
            prominence: self.prominence,
            size: self.size,
            alignment: self.alignment,
            action_requirement: self.action_requirement,
            loading_variant: self.loading_variant,
            requires_action: matches!(self.action_requirement, StateActionRequirement::Required),
            is_interactive: !matches!(
                self.action_requirement,
                StateActionRequirement::NoAction
            ),
        }
    }
}

/// Builds the intent color fragment.
fn state_intent_string<C: ColorProvider>(provider: &C, intent: StateIntent) -> (r: String)
    ensures
        r@ == state_intent_fragment(intent, provider.spec_palette()),
{
    match intent {
        StateIntent::Informational => {
            let mut s = "text-".to_owned();
            s.append(provider.resolve_color(Color::TextPrimary));
            s.append(" bg-");
            s.append(provider.resolve_color(Color::Background));
            s
        },
        StateIntent::Loading => {
            let mut s = "text-".to_owned();
            s.append(provider.resolve_color(Color::Primary));
            s.append(" bg-");
            s.append(provider.resolve_color(Color::Background));
            s
        },
        StateIntent::Success => "text-green-600 bg-green-50".to_owned(),
        StateIntent::Warning => "text-orange-600 bg-orange-50".to_owned(),
        StateIntent::Error => "text-red-600 bg-red-50".to_owned(),
        StateIntent::Empty => {
            let mut s = "text-".to_owned();
            s.append(provider.resolve_color(Color::TextSecondary));
            s.append(" bg-");
            s.append(provider.resolve_color(Color::Background));
            s
        },
    }
}

/// Creates an informational state pattern.
pub fn informational_state<C: ColorProvider>(color_provider: C) -> (r: StatePattern<C>)
    ensures
        r.intent == StateIntent::Informational,
        r.prominence == StateProminence::Standard,
        r.alignment == StateAlignment::Center,
        r.action_requirement == StateActionRequirement::NoAction,
        r.size == StateSize::MD,
        r.loading_variant is None,
        !r.fullscreen,
        r.custom_classes@.len() == 0,
        r.color_provider == color_provider,
{
    StatePattern::new(color_provider).informational().standard().center_aligned().no_action()
}

/// Creates a loading state pattern.
pub fn loading_state<C: ColorProvider>(color_provider: C) -> (r: StatePattern<C>)
    ensures
        r.intent == StateIntent::Loading,
        r.prominence == StateProminence::Standard,
        r.alignment == StateAlignment::Center,
        r.action_requirement == StateActionRequirement::NoAction,
        r.size == StateSize::MD,
        r.loading_variant == Option::Some(LoadingVariant::Spinner),
        !r.fullscreen,
        r.custom_classes@.len() == 0,
        r.color_provider == color_provider,
{
    StatePattern::new(color_provider).loading().standard().center_aligned().spinner().no_action()
}

/// Creates an empty state pattern.
pub fn empty_state<C: ColorProvider>(color_provider: C) -> (r: StatePattern<C>)
    ensures
        r.intent == StateIntent::Empty,
        r.prominence == StateProminence::Standard,
        r.alignment == StateAlignment::Center,
        r.action_requirement == StateActionRequirement::Optional,
        r.size == StateSize::MD,
        r.loading_variant is None,
        !r.fullscreen,
        r.custom_classes@.len() == 0,
        r.color_provider == color_provider,
{
    StatePattern::new(color_provider).empty().standard().center_aligned().optional_action()
}

/// Creates an error state pattern.
pub fn error_state<C: ColorProvider>(color_provider: C) -> (r: StatePattern<C>)
    ensures
        r.intent == StateIntent::Error,
        r.prominence == StateProminence::Prominent,
        r.alignment == StateAlignment::Center,
        r.action_requirement == StateActionRequirement::Recommended,
        r.size == StateSize::MD,
        r.loading_variant is None,
        !r.fullscreen,
        r.custom_classes@.len() == 0,
        r.color_provider == color_provider,
{
    StatePattern::new(color_provider).error().prominent().center_aligned().recommended_action()
}

/// Creates a success state pattern.
pub fn success_state<C: ColorProvider>(color_provider: C) -> (r: StatePattern<C>)
    ensures
        r.intent == StateIntent::Success,
        r.prominence == StateProminence::Standard,
        r.alignment == StateAlignment::Center,
        r.action_requirement == StateActionRequirement::NoAction,
        r.size == StateSize::MD,
        r.loading_variant is None,
        !r.fullscreen,
        r.custom_classes@.len() == 0,
        r.color_provider == color_provider,
{
    StatePattern::new(color_provider).success().standard().center_aligned().no_action()
}

/// Creates a warning state pattern.
pub fn warning_state<C: ColorProvider>(color_provider: C) -> (r: StatePattern<C>)
    ensures
        r.intent == StateIntent::Warning,
        r.prominence == StateProminence::Prominent,
        r.alignment == StateAlignment::Center,
        r.action_requirement == StateActionRequirement::Recommended,
        r.size == StateSize::MD,
        r.loading_variant is None,
        !r.fullscreen,
        r.custom_classes@.len() == 0,
        r.color_provider == color_provider,
{
    StatePattern::new(color_provider).warning().prominent().center_aligned().recommended_action()
}

} // verus!
