//! Action semantics: the meaning and importance of user actions,
//! independent of any concrete component.

use vstd::prelude::*;
use crate::classlist::{assemble, assemble_fragments, push_all_parts, push_part,
    push_part_string, views};
use crate::foundation::color::{Color, ColorPalette, ColorProvider};

verus! {

broadcast use vstd::seq_lib::group_seq_properties;

/// The semantic intent of an action.
#[derive(Debug, Clone, Copy, PartialEq, Eq, Hash, Structural)]
pub enum ActionIntent {
    Primary,
    Secondary,
    Constructive,
    Destructive,
    Navigation,
    Informational,
}

/// How prominent an action is.
#[derive(Debug, Clone, Copy, PartialEq, Eq, Hash, Structural)]
pub enum ActionHierarchy {
    Hero,
    Primary,
    Secondary,
    Tertiary,
    Minimal,
}

/// Where an action is used.
#[derive(Debug, Clone, Copy, PartialEq, Eq, Hash, Structural)]
pub enum ActionContext {
    Standalone,
    Form,
    Navigation,
    Inline,
    Toolbar,
    Floating,
}

/// The color fragment of an action intent under a palette.
pub open spec fn action_intent_fragment(i: ActionIntent, p: ColorPalette) -> Seq<char> {
    match i {
        ActionIntent::Primary => "bg-"@ + p.primary@ + " text-"@ + p.text_inverse@
            + " hover:bg-"@ + p.interactive_hover@,
        ActionIntent::Secondary => "bg-"@ + p.surface@ + " text-"@ + p.text_primary@
            + " border-"@ + p.border@ + " border"@,
        ActionIntent::Constructive => "bg-"@ + p.success@ + " text-"@ + p.text_inverse@
            + " hover:bg-green-600"@,
        ActionIntent::Destructive => "bg-"@ + p.error@ + " text-"@ + p.text_inverse@
            + " hover:bg-red-600"@,
        ActionIntent::Navigation => "bg-transparent text-"@ + p.text_primary@ + " hover:bg-"@
            + p.background@,
        ActionIntent::Informational => "bg-transparent text-"@ + p.text_secondary@
            + " hover:underline"@,
    }
}

/// The weight fragment of an action hierarchy.
pub open spec fn action_hierarchy_fragment(h: ActionHierarchy) -> Seq<char> {
    match h {
        ActionHierarchy::Hero => "text-xl font-bold px-8 py-4 rounded-lg shadow-lg"@,
        ActionHierarchy::Primary => "text-base font-semibold px-6 py-3 rounded-md shadow-md"@,
        ActionHierarchy::Secondary => "text-sm font-medium px-4 py-2 rounded-md shadow-sm"@,
        ActionHierarchy::Tertiary => "text-sm font-normal px-3 py-1.5 rounded"@,
        ActionHierarchy::Minimal => "text-xs font-normal px-2 py-1 rounded"@,
    }
}

/// The adjustment fragment of an action context.
pub open spec fn action_context_fragment(c: ActionContext) -> Seq<char> {
    match c {
        ActionContext::Standalone => ""@,
        ActionContext::Form => "min-w-24"@,
        ActionContext::Navigation => "w-full justify-start"@,
        ActionContext::Inline => "inline underline-offset-2"@,
        ActionContext::Toolbar => "h-8 px-2 text-xs"@,
        ActionContext::Floating => "rounded-full w-14 h-14 shadow-xl"@,
    }
}

/// The urgency fragment.
pub open spec fn action_urgency_fragment(is_urgent: bool) -> Seq<char> {
    if is_urgent {
        "animate-pulse"@
    } else {
        ""@
    }
}

/// All fragments of an action configuration, in order.
pub open spec fn action_fragments(
    intent: ActionIntent,
    hierarchy: ActionHierarchy,
    context: ActionContext,
    is_urgent: bool,
    customs: Seq<Seq<char>>,
    p: ColorPalette,
) -> Seq<Seq<char>> {
    seq![
        action_intent_fragment(intent, p),
        action_hierarchy_fragment(hierarchy),
        action_context_fragment(context),
        action_urgency_fragment(is_urgent),
    ] + customs
}

/// Action semantics configuration.
#[derive(Debug, Clone)]
pub struct ActionSemantics<C: ColorProvider> {
    pub intent: ActionIntent,
    pub hierarchy: ActionHierarchy,
    pub context: ActionContext,
    pub is_urgent: bool,
    pub custom_classes: Vec<String>,
    pub color_provider: C,
}

/// The normalized class string of an action configuration.
pub open spec fn action_classes_spec<C: ColorProvider>(a: ActionSemantics<C>) -> Seq<char> {
    assemble(
        action_fragments(
            a.intent,
            a.hierarchy,
            a.context,
            a.is_urgent,
            views(a.custom_classes@),
            a.color_provider.spec_palette(),
        ),
    )
}

impl<C: ColorProvider> ActionSemantics<C> {
    /// Creates action semantics with default values.
    pub fn new(color_provider: C) -> (r: Self)
        ensures
            r.intent == ActionIntent::Secondary,
            r.hierarchy == ActionHierarchy::Secondary,
            r.context == ActionContext::Standalone,
            !r.is_urgent,
            r.custom_classes@.len() == 0,
            r.color_provider == color_provider,
    {
        ActionSemantics {
            intent: ActionIntent::Secondary,
            hierarchy: ActionHierarchy::Secondary,
            context: ActionContext::Standalone,
            is_urgent: false,
            custom_classes: Vec::new(),
            color_provider,
        }
    }

    /// Configures the intent.
    pub fn intent(self, intent: ActionIntent) -> (r: Self)
        ensures
            r == (ActionSemantics { intent, ..self }),
    {
        ActionSemantics { intent, ..self }
    }

    /// Configures the hierarchy.
    pub fn hierarchy(self, hierarchy: ActionHierarchy) -> (r: Self)
        ensures
            r == (ActionSemantics { hierarchy, ..self }),
    {
        ActionSemantics { hierarchy, ..self }
    }

    /// Configures the context.
    pub fn context(self, context: ActionContext) -> (r: Self)
        ensures
            r == (ActionSemantics { context, ..self }),
    {
        ActionSemantics { context, ..self }
    }

    /// Marks the action urgent.
    pub fn urgent(self) -> (r: Self)
        ensures
            r == (ActionSemantics { is_urgent: true, ..self }),
    {
        ActionSemantics { is_urgent: true, ..self }
    }

    /// Appends a custom class string.
    pub fn custom(self, class: &str) -> (r: Self)
        ensures
            r == (ActionSemantics { custom_classes: r.custom_classes, ..self }),
            views(r.custom_classes@) == views(self.custom_classes@).push(class@),
    {
        let mut c = self;
        let owned = class.to_owned();
        c.custom_classes.push(owned);
        proof {
            assert(views(c.custom_classes@) =~= views(self.custom_classes@).push(class@));
        }
        c
    }

    /// Configures a primary action.
    pub fn primary(self) -> (r: Self)
        ensures
            r == (ActionSemantics {
                intent: ActionIntent::Primary,
                hierarchy: ActionHierarchy::Primary,
                ..self
            }),
    {
        ActionSemantics {
            intent: ActionIntent::Primary,
            hierarchy: ActionHierarchy::Primary,
            ..self
        }
    }

    /// Configures a secondary action.
    pub fn secondary(self) -> (r: Self)
        ensures
            r == (ActionSemantics {
                intent: ActionIntent::Secondary,
                hierarchy: ActionHierarchy::Secondary,
                ..self
            }),
    {
        ActionSemantics {
            intent: ActionIntent::Secondary,
            hierarchy: ActionHierarchy::Secondary,
            ..self
        }
    }

    /// Configures a destructive action.
    pub fn destructive(self) -> (r: Self)
        ensures
            r == (ActionSemantics { intent: ActionIntent::Destructive, ..self }),
    {
        ActionSemantics { intent: ActionIntent::Destructive, ..self }
    }

    /// Configures a hero call-to-action.
    pub fn hero(self) -> (r: Self)
        ensures
            r == (ActionSemantics {
                intent: ActionIntent::Primary,
                hierarchy: ActionHierarchy::Hero,
                ..self
            }),
    {
        ActionSemantics { intent: ActionIntent::Primary, hierarchy: ActionHierarchy::Hero, ..self }
    }

    /// Configures a navigation action.
    pub fn navigation(self) -> (r: Self)
        ensures
            r == (ActionSemantics {
                intent: ActionIntent::Navigation,
                context: ActionContext::Navigation,
                ..self
            }),
    {
        ActionSemantics {
            intent: ActionIntent::Navigation,
            context: ActionContext::Navigation,
            ..self
        }
    }

    /// Builds the normalized class string.
    pub fn classes(self) -> (r: String)
        ensures
            r@ == action_classes_spec(self),
    {
        let mut parts: Vec<String> = Vec::new();
        push_part_string(&mut parts, action_intent_string(&self.color_provider, self.intent));
        push_part(
            &mut parts,
            match self.hierarchy {
                ActionHierarchy::Hero => "text-xl font-bold px-8 py-4 rounded-lg shadow-lg",
                ActionHierarchy::Primary => "text-base font-semibold px-6 py-3 rounded-md shadow-md",
                ActionHierarchy::Secondary => "text-sm font-medium px-4 py-2 rounded-md shadow-sm",
                ActionHierarchy::Tertiary => "text-sm font-normal px-3 py-1.5 rounded",
                ActionHierarchy::Minimal => "text-xs font-normal px-2 py-1 rounded",
            },
        );
        push_part(
            &mut parts,
            match self.context {
                ActionContext::Standalone => "",
                ActionContext::Form => "min-w-24",
                ActionContext::Navigation => "w-full justify-start",
                ActionContext::Inline => "inline underline-offset-2",
                ActionContext::Toolbar => "h-8 px-2 text-xs",
                ActionContext::Floating => "rounded-full w-14 h-14 shadow-xl",
            },
        );
        push_part(&mut parts, if self.is_urgent { "animate-pulse" } else { "" });
        push_all_parts(&mut parts, &self.custom_classes);
        proof {
            assert(views(parts@) =~= action_fragments(
                self.intent,
                self.hierarchy,
                self.context,
                self.is_urgent,
                views(self.custom_classes@),
                self.color_provider.spec_palette(),
            ));
        }
        assemble_fragments(&parts)
    }
}

/// Builds the intent color fragment.
pub(crate) fn action_intent_string<C: ColorProvider>(
    provider: &C,
    intent: ActionIntent,
) -> (r: String)
    ensures
        r@ == action_intent_fragment(intent, provider.spec_palette()),
{
    match intent {
        ActionIntent::Primary => {
            let mut s = "bg-".to_owned();
            s.append(provider.resolve_color(Color::Primary));
            s.append(" text-");
            s.append(provider.resolve_color(Color::TextInverse));
            s.append(" hover:bg-");
            s.append(provider.resolve_color(Color::InteractiveHover));
            s
        },
        ActionIntent::Secondary => {
            let mut s = "bg-".to_owned();
            s.append(provider.resolve_color(Color::Surface));
            s.append(" text-");
            s.append(provider.resolve_color(Color::TextPrimary));
            s.append(" border-");
            s.append(provider.resolve_color(Color::Border));
            s.append(" border");
            s
        },
        ActionIntent::Constructive => {
            let mut s = "bg-".to_owned();
            s.append(provider.resolve_color(Color::Success));
            s.append(" text-");
            s.append(provider.resolve_color(Color::TextInverse));
            s.append(" hover:bg-green-600");
            s
        },
        ActionIntent::Destructive => {
            let mut s = "bg-".to_owned();
            s.append(provider.resolve_color(Color::Error));
            s.append(" text-");
            s.append(provider.resolve_color(Color::TextInverse));
            s.append(" hover:bg-red-600");
            s
        },
        ActionIntent::Navigation => {
            let mut s = "bg-transparent text-".to_owned();
            s.append(provider.resolve_color(Color::TextPrimary));
            s.append(" hover:bg-");
            s.append(provider.resolve_color(Color::Background));
            s
        },
        ActionIntent::Informational => {
            let mut s = "bg-transparent text-".to_owned();
            s.append(provider.resolve_color(Color::TextSecondary));
            s.append(" hover:underline");
            s
        },
    }
}

/// Creates action semantics.
pub fn action_semantics<C: ColorProvider>(color_provider: C) -> (r: ActionSemantics<C>)
    ensures
        r.intent == ActionIntent::Secondary,
        r.hierarchy == ActionHierarchy::Secondary,
        r.context == ActionContext::Standalone,
        !r.is_urgent,
        r.custom_classes@.len() == 0,
        r.color_provider == color_provider,
{
    ActionSemantics::new(color_provider)
}

} // verus!
