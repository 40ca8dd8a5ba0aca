//! Button pattern: the complete interactive, semantic and accessible
//! button experience, composed from action semantics, interactive behavior
//! and focus management.

use vstd::prelude::*;
use crate::classlist::{assemble, assemble_fragments, push_all_parts, push_part,
    push_part_string, views};
use crate::foundation::color::ColorProvider;
use crate::patterns::actions::{action_classes_spec, ActionContext, ActionHierarchy, ActionIntent,
    ActionSemantics};
use crate::patterns::focus::{attr_views, focus_attr_views, focus_classes_spec, FocusBehavior,
    FocusManagement, KeyboardPattern, ScreenReaderPattern};
use crate::patterns::interactions::{interactive_classes_spec, InteractionIntensity,
    InteractiveElement, InteractiveState};

verus! {

broadcast use vstd::seq_lib::group_seq_properties;

/// Button pattern configuration.
#[derive(Debug, Clone)]
pub struct ButtonPattern<C: ColorProvider + Clone> {
    pub disabled: bool,
    pub loading: bool,
    pub selected: bool,
    pub action_semantics: ActionSemantics<C>,
    pub interactive_element: InteractiveElement<C>,
    pub focus_management: FocusManagement<C>,
    pub custom_classes: Vec<String>,
    pub color_provider: C,
}

/// The selection fragment.
pub open spec fn button_selected_fragment(selected: bool) -> Seq<char> {
    if selected {
        "bg-opacity-80"@
    } else {
        ""@
    }
}

/// The normalized class string of a button pattern: the classes of its
/// three sub-patterns, the selection fragment and the custom classes,
/// renormalized together.
pub open spec fn button_pattern_classes_spec<C: ColorProvider + Clone>(b: ButtonPattern<C>) -> Seq<
    char,
> {
    assemble(
        seq![
            action_classes_spec(b.action_semantics),
            interactive_classes_spec(b.interactive_element),
            focus_classes_spec(b.focus_management),
            button_selected_fragment(b.selected),
        ] + views(b.custom_classes@),
    )
}

/// Semantic information about a button pattern.
#[derive(Debug, Clone)]
pub struct ButtonSemanticInfo {
    pub action_intent: ActionIntent,
    pub is_primary: bool,
    pub is_destructive: bool,
    pub is_disabled: bool,
    pub is_loading: bool,
    pub is_selected: bool,
}

impl<C: ColorProvider + Clone> ButtonPattern<C> {
    /// Creates a button pattern with sensible defaults: a secondary,
    /// standalone action that is hoverable, focusable and pressable.
    pub fn new(color_provider: C) -> (r: Self)
        ensures
            !r.disabled,
            !r.loading,
            !r.selected,
            r.action_semantics.intent == ActionIntent::Secondary,
            r.action_semantics.hierarchy == ActionHierarchy::Secondary,
            r.action_semantics.context == ActionContext::Standalone,
            !r.action_semantics.is_urgent,
            r.action_semantics.custom_classes@.len() == 0,
            r.action_semantics.color_provider.spec_palette() == color_provider.spec_palette(),
            r.interactive_element.state == InteractiveState::Default,
            r.interactive_element.is_hoverable,
            r.interactive_element.is_focusable,
            r.interactive_element.is_pressable,
            r.interactive_element.interaction_intensity == InteractionIntensity::Standard,
            r.interactive_element.custom_classes@.len() == 0,
            r.interactive_element.color_provider.spec_palette() == color_provider.spec_palette(),
            r.focus_management.focus_behavior == FocusBehavior::Standard,
            r.focus_management.keyboard_pattern == Option::Some(KeyboardPattern::Button),
            r.focus_management.screen_reader_pattern == Option::Some(
                ScreenReaderPattern::Button,
            ),
            r.focus_management.is_focusable,
            r.focus_management.tab_index is None,
            r.focus_management.custom_classes@.len() == 0,
            r.focus_management.color_provider.spec_palette() == color_provider.spec_palette(),
            r.custom_classes@.len() == 0,
            r.color_provider == color_provider,
    {
        let actions = ActionSemantics::new(color_provider.clone_provider()).secondary().context(
            ActionContext::Standalone,
        );
        let interactive = InteractiveElement::new(
            color_provider.clone_provider(),
        ).hoverable().focusable().pressable().standard_interaction();
        let focus = FocusManagement::new(color_provider.clone_provider()).button();
        ButtonPattern {
            disabled: false,
            loading: false,
            selected: false,
            action_semantics: actions,
            interactive_element: interactive,
            focus_management: focus,
            custom_classes: Vec::new(),
            color_provider,
        }
    }

    /// Configures a primary action.
    pub fn primary_action(self) -> (r: Self)
        ensures
            r == (ButtonPattern { action_semantics: r.action_semantics, ..self }),
            r.action_semantics == (ActionSemantics {
                intent: ActionIntent::Primary,
                hierarchy: ActionHierarchy::Primary,
                ..self.action_semantics
            }),
    {
        ButtonPattern { action_semantics: self.action_semantics.primary(), ..self }
    }

    /// Configures a secondary action.
    pub fn secondary_action(self) -> (r: Self)
        ensures
            r == (ButtonPattern { action_semantics: r.action_semantics, ..self }),
            r.action_semantics == (ActionSemantics {
                intent: ActionIntent::Secondary,
                hierarchy: ActionHierarchy::Secondary,
                ..self.action_semantics
            }),
    {
        ButtonPattern { action_semantics: self.action_semantics.secondary(), ..self }
    }

    /// Configures a destructive action.
    pub fn destructive_action(self) -> (r: Self)
        ensures
            r == (ButtonPattern { action_semantics: r.action_semantics, ..self }),
            r.action_semantics == (ActionSemantics {
                intent: ActionIntent::Destructive,
                ..self.action_semantics
            }),
    {
        ButtonPattern { action_semantics: self.action_semantics.destructive(), ..self }
    }

    /// Configures a navigation action.
    pub fn navigation_action(self) -> (r: Self)
        ensures
            r == (ButtonPattern { action_semantics: r.action_semantics, ..self }),
            r.action_semantics == (ActionSemantics {
                intent: ActionIntent::Navigation,
                context: ActionContext::Navigation,
                ..self.action_semantics
            }),
    {
        ButtonPattern { action_semantics: self.action_semantics.navigation(), ..self }
    }

    /// Configures hero prominence.
    pub fn hero_prominence(self) -> (r: Self)
        ensures
            r == (ButtonPattern { action_semantics: r.action_semantics, ..self }),
            r.action_semantics == (ActionSemantics {
                hierarchy: ActionHierarchy::Hero,
                ..self.action_semantics
            }),
    {
        ButtonPattern { action_semantics: self.action_semantics.hierarchy(ActionHierarchy::Hero), ..self }
    }

    /// Configures primary prominence.
    pub fn primary_prominence(self) -> (r: Self)
        ensures
            r == (ButtonPattern { action_semantics: r.action_semantics, ..self }),
            r.action_semantics == (ActionSemantics {
                hierarchy: ActionHierarchy::Primary,
                ..self.action_semantics
            }),
    {
        ButtonPattern {
            action_semantics: self.action_semantics.hierarchy(ActionHierarchy::Primary),
            ..self
        }
    }

    /// Configures standard (secondary) prominence.
    pub fn standard_prominence(self) -> (r: Self)
        ensures
            r == (ButtonPattern { action_semantics: r.action_semantics, ..self }),
            r.action_semantics == (ActionSemantics {
                hierarchy: ActionHierarchy::Secondary,
                ..self.action_semantics
            }),
    {
        ButtonPattern {
            action_semantics: self.action_semantics.hierarchy(ActionHierarchy::Secondary),
            ..self
        }
    }

    /// Configures tertiary prominence.
    pub fn tertiary_prominence(self) -> (r: Self)
        ensures
            r == (ButtonPattern { action_semantics: r.action_semantics, ..self }),
            r.action_semantics == (ActionSemantics {
                hierarchy: ActionHierarchy::Tertiary,
                ..self.action_semantics
            }),
    {
        ButtonPattern {
            action_semantics: self.action_semantics.hierarchy(ActionHierarchy::Tertiary),
            ..self
        }
    }

    /// Configures the inline context.
    pub fn inline_context(self) -> (r: Self)
        ensures
            r == (ButtonPattern { action_semantics: r.action_semantics, ..self }),
            r.action_semantics == (ActionSemantics {
                context: ActionContext::Inline,
                ..self.action_semantics
            }),
    {
        ButtonPattern { action_semantics: self.action_semantics.context(ActionContext::Inline), ..self }
    }

    /// Configures the form context.
    pub fn form_context(self) -> (r: Self)
        ensures
            r == (ButtonPattern { action_semantics: r.action_semantics, ..self }),
            r.action_semantics == (ActionSemantics {
                context: ActionContext::Form,
                ..self.action_semantics
            }),
    {
        ButtonPattern { action_semantics: self.action_semantics.context(ActionContext::Form), ..self }
    }

    /// Configures the toolbar context.
    pub fn toolbar_context(self) -> (r: Self)
        ensures
            r == (ButtonPattern { action_semantics: r.action_semantics, ..self }),
            r.action_semantics == (ActionSemantics {
                context: ActionContext::Toolbar,
                ..self.action_semantics
            }),
    {
        ButtonPattern {
            action_semantics: self.action_semantics.context(ActionContext::Toolbar),
            ..self
        }
    }

    /// Configures gentle interaction.
    pub fn gentle_interaction(self) -> (r: Self)
        ensures
            r == (ButtonPattern { interactive_element: r.interactive_element, ..self }),
            r.interactive_element == (InteractiveElement {
                interaction_intensity: InteractionIntensity::Gentle,
                ..self.interactive_element
            }),
    {
        ButtonPattern { interactive_element: self.interactive_element.gentle_interaction(), ..self }
    }

    /// Configures standard interaction.
    pub fn standard_interaction(self) -> (r: Self)
        ensures
            r == (ButtonPattern { interactive_element: r.interactive_element, ..self }),
            r.interactive_element == (InteractiveElement {
                interaction_intensity: InteractionIntensity::Standard,
                ..self.interactive_element
            }),
    {
        ButtonPattern {
            interactive_element: self.interactive_element.standard_interaction(),
            ..self
        }
    }

    /// Configures prominent interaction.
    pub fn prominent_interaction(self) -> (r: Self)
        ensures
            r == (ButtonPattern { interactive_element: r.interactive_element, ..self }),
            r.interactive_element == (InteractiveElement {
                interaction_intensity: InteractionIntensity::Prominent,
                ..self.interactive_element
            }),
    {
        ButtonPattern {
            interactive_element: self.interactive_element.prominent_interaction(),
            ..self
        }
    }

    /// Adds custom interaction classes.
    pub fn custom_interaction(self, classes: &str) -> (r: Self)
        ensures
            r == (ButtonPattern { interactive_element: r.interactive_element, ..self }),
            r.interactive_element == (InteractiveElement {
                custom_classes: r.interactive_element.custom_classes,
                ..self.interactive_element
            }),
            views(r.interactive_element.custom_classes@) == views(
                self.interactive_element.custom_classes@,
            ).push(classes@),
    {
        ButtonPattern { interactive_element: self.interactive_element.custom(classes), ..self }
    }

    /// Configures menu item focus behavior.
    pub fn menu_item_focus(self) -> (r: Self)
        ensures
            r == (ButtonPattern { focus_management: r.focus_management, ..self }),
            r.focus_management == (FocusManagement {
                keyboard_pattern: Option::Some(KeyboardPattern::MenuItem),
                screen_reader_pattern: Option::Some(ScreenReaderPattern::MenuItem),
                focus_behavior: FocusBehavior::Subtle,
                ..self.focus_management
            }),
    {
        ButtonPattern { focus_management: self.focus_management.menu_item(), ..self }
    }

    /// Configures link focus behavior.
    pub fn link_focus(self) -> (r: Self)
        ensures
            r == (ButtonPattern { focus_management: r.focus_management, ..self }),
            r.focus_management == (FocusManagement {
                keyboard_pattern: Option::Some(KeyboardPattern::Link),
                screen_reader_pattern: Option::Some(ScreenReaderPattern::Link),
                focus_behavior: FocusBehavior::Standard,
                ..self.focus_management
            }),
    {
        ButtonPattern { focus_management: self.focus_management.link(), ..self }
    }

    /// Configures toggle focus behavior.
    pub fn toggle_focus(self) -> (r: Self)
        ensures
            r == (ButtonPattern { focus_management: r.focus_management, ..self }),
            r.focus_management == (FocusManagement {
                keyboard_pattern: Option::Some(KeyboardPattern::Toggle),
                screen_reader_pattern: Option::Some(ScreenReaderPattern::ToggleButton),
                focus_behavior: FocusBehavior::Standard,
                ..self.focus_management
            }),
    {
        ButtonPattern { focus_management: self.focus_management.toggle(), ..self }
    }

    /// Configures subtle focus behavior.
    pub fn subtle_focus(self) -> (r: Self)
        ensures
            r == (ButtonPattern { focus_management: r.focus_management, ..self }),
            r.focus_management == (FocusManagement {
                focus_behavior: FocusBehavior::Subtle,
                ..self.focus_management
            }),
    {
        ButtonPattern {
            focus_management: self.focus_management.focus_behavior(FocusBehavior::Subtle),
            ..self
        }
    }

    /// Configures prominent focus behavior.
    pub fn prominent_focus(self) -> (r: Self)
        ensures
            r == (ButtonPattern { focus_management: r.focus_management, ..self }),
            r.focus_management == (FocusManagement {
                focus_behavior: FocusBehavior::Prominent,
                ..self.focus_management
            }),
    {
        ButtonPattern {
            focus_management: self.focus_management.focus_behavior(FocusBehavior::Prominent),
            ..self
        }
    }

    /// Configures the disabled state; a disabled button also disables its
    /// interactive behavior.
    pub fn disabled(self, disabled: bool) -> (r: Self)
        ensures
            r == (ButtonPattern {
                disabled,
                interactive_element: r.interactive_element,
                ..self
            }),
            disabled ==> r.interactive_element == (InteractiveElement {
                state: InteractiveState::Disabled,
                ..self.interactive_element
            }),
            !disabled ==> r.interactive_element == self.interactive_element,
    {
        if disabled {
            ButtonPattern {
                disabled,
                interactive_element: self.interactive_element.disabled(),
                ..self
            }
        } else {
            ButtonPattern { disabled, ..self }
        }
    }

    /// Configures the loading state; a loading button also marks its
    /// interactive behavior loading.
    pub fn loading(self, loading: bool) -> (r: Self)
        ensures
            r == (ButtonPattern {
                loading,
                interactive_element: r.interactive_element,
                ..self
            }),
            loading ==> r.interactive_element == (InteractiveElement {
                state: InteractiveState::Loading,
                ..self.interactive_element
            }),
            !loading ==> r.interactive_element == self.interactive_element,
    {
        if loading {
            ButtonPattern {
                loading,
                interactive_element: self.interactive_element.loading(),
                ..self
            }
        } else {
            ButtonPattern { loading, ..self }
        }
    }

    /// Configures the selected state.
    pub fn selected(self, selected: bool) -> (r: Self)
        ensures
            r == (ButtonPattern { selected, ..self }),
    {
        ButtonPattern { selected, ..self }
    }

    /// Configures the hover state.
    pub fn hover(self) -> (r: Self)
        ensures
            r == (ButtonPattern { interactive_element: r.interactive_element, ..self }),
            r.interactive_element == (InteractiveElement {
                state: InteractiveState::Hover,
                ..self.interactive_element
            }),
    {
        ButtonPattern { interactive_element: self.interactive_element.hover(), ..self }
    }

    /// Configures the active state.
    pub fn active(self) -> (r: Self)
        ensures
            r == (ButtonPattern { interactive_element: r.interactive_element, ..self }),
            r.interactive_element == (InteractiveElement {
                state: InteractiveState::Active,
                ..self.interactive_element
            }),
    {
        ButtonPattern { interactive_element: self.interactive_element.active(), ..self }
    }

    /// Configures the focused state.
    pub fn focused(self) -> (r: Self)
        ensures
            r == (ButtonPattern { interactive_element: r.interactive_element, ..self }),
            r.interactive_element == (InteractiveElement {
                state: InteractiveState::Focused,
                ..self.interactive_element
            }),
    {
        ButtonPattern { interactive_element: self.interactive_element.focused(), ..self }
    }

    /// Appends a custom class string.
    pub fn custom(self, classes: &str) -> (r: Self)
        ensures
            r == (ButtonPattern { custom_classes: r.custom_classes, ..self }),
            views(r.custom_classes@) == views(self.custom_classes@).push(classes@),
    {
        let mut c = self;
        let owned = classes.to_owned();
        c.custom_classes.push(owned);
        proof {
            assert(views(c.custom_classes@) =~= views(self.custom_classes@).push(classes@));
        }
        c
    }

    /// Marks the action urgent.
    pub fn urgent(self) -> (r: Self)
        ensures
            r == (ButtonPattern { action_semantics: r.action_semantics, ..self }),
            r.action_semantics == (ActionSemantics {
                is_urgent: true,
                ..self.action_semantics
            }),
    {
        ButtonPattern { action_semantics: self.action_semantics.urgent(), ..self }
    }

    /// Builds the complete normalized class string.
    pub fn classes(self) -> (r: String)
        ensures
            r@ == button_pattern_classes_spec(self),
    {
        let ghost this = self;
        let mut parts: Vec<String> = Vec::new();
        let ButtonPattern {
            disabled: _,
            loading: _,
            selected,
            action_semantics,
            interactive_element,
            focus_management,
            custom_classes,
            color_provider: _,
        } = self;
        push_part_string(&mut parts, action_semantics.classes());
        push_part_string(&mut parts, interactive_element.classes());
        push_part_string(&mut parts, focus_management.classes());
        push_part(&mut parts, if selected { "bg-opacity-80" } else { "" });
        push_all_parts(&mut parts, &custom_classes);
        proof {
            assert(views(parts@) =~= seq![
                action_classes_spec(this.action_semantics),
                interactive_classes_spec(this.interactive_element),
                focus_classes_spec(this.focus_management),
                button_selected_fragment(this.selected),
            ] + views(this.custom_classes@));
        }
        assemble_fragments(&parts)
    }

    /// The accessibility attributes: the focus attributes followed by state
    /// attributes for disabled, loading and selected buttons.
    pub fn accessibility_attributes(&self) -> (r: Vec<(&'static str, String)>)
        ensures
            attr_views(r@) == focus_attr_views(
                self.focus_management.is_focusable,
                self.focus_management.tab_index,
                self.focus_management.screen_reader_pattern,
            ) + (if self.disabled {
                seq![("aria-disabled"@, "true"@)]
            } else {
                Seq::empty()
            }) + (if self.loading {
                seq![("aria-busy"@, "true"@)]
            } else {
                Seq::empty()
            }) + (if self.selected {
                seq![("aria-pressed"@, "true"@)]
            } else {
                Seq::empty()
            }),
    {
        let mut attrs = self.focus_management.data_attributes();
        if self.disabled {
            attrs.push(("aria-disabled", "true".to_owned()));
        }
        if self.loading {
            attrs.push(("aria-busy", "true".to_owned()));
        }
        if self.selected {
            attrs.push(("aria-pressed", "true".to_owned()));
        }
        proof {
            assert(attr_views(attrs@) =~= focus_attr_views(
                self.focus_management.is_focusable,
                self.focus_management.tab_index,
                self.focus_management.screen_reader_pattern,
            ) + (if self.disabled {
                seq![("aria-disabled"@, "true"@)]
            } else {
                Seq::<(Seq<char>, Seq<char>)>::empty()
            }) + (if self.loading {
                seq![("aria-busy"@, "true"@)]
            } else {
                Seq::<(Seq<char>, Seq<char>)>::empty()
            }) + (if self.selected {
                seq![("aria-pressed"@, "true"@)]
            } else {
                Seq::<(Seq<char>, Seq<char>)>::empty()
            }));
        }
        attrs
    }

    /// A snapshot of the semantic configuration of this button.
    pub fn semantic_info(&self) -> (r: ButtonSemanticInfo)
        ensures
            r.action_intent == self.action_semantics.intent,
            r.is_primary == (self.action_semantics.intent == ActionIntent::Primary),
            r.is_destructive == (self.action_semantics.intent == ActionIntent::Destructive),
            r.is_disabled == self.disabled,
            r.is_loading == self.loading,
            r.is_selected == self.selected,
    {
        ButtonSemanticInfo {
            action_intent: self.action_semantics.intent,
            is_primary: matches!(self.action_semantics.intent, ActionIntent::Primary),
            is_destructive: matches!(self.action_semantics.intent, ActionIntent::Destructive),
            is_disabled: self.disabled,
            is_loading: self.loading,
            is_selected: self.selected,
        }
    }
}

/// Creates a button pattern.
pub fn button_pattern<C: ColorProvider + Clone>(color_provider: C) -> (r: ButtonPattern<C>)
    ensures
        r.action_semantics.intent == ActionIntent::Secondary,
        r.action_semantics.hierarchy == ActionHierarchy::Secondary,
        !r.disabled,
        !r.loading,
        !r.selected,
{
    ButtonPattern::new(color_provider)
}

/// Creates a primary button pattern.
pub fn primary_button<C: ColorProvider + Clone>(color_provider: C) -> (r: ButtonPattern<C>)
    ensures
        r.action_semantics.intent == ActionIntent::Primary,
        r.action_semantics.hierarchy == ActionHierarchy::Primary,
        r.interactive_element.interaction_intensity == InteractionIntensity::Standard,
        !r.disabled,
        !r.loading,
        !r.selected,
{
    ButtonPattern::new(color_provider).primary_action().primary_prominence().standard_interaction()
}

/// Creates a secondary button pattern.
pub fn secondary_button<C: ColorProvider + Clone>(color_provider: C) -> (r: ButtonPattern<C>)
    ensures
        r.action_semantics.intent == ActionIntent::Secondary,
        r.action_semantics.hierarchy == ActionHierarchy::Secondary,
        r.interactive_element.interaction_intensity == InteractionIntensity::Standard,
        !r.disabled,
        !r.loading,
        !r.selected,
{
    ButtonPattern::new(
        color_provider,
    ).secondary_action().standard_prominence().standard_interaction()
}

/// Creates a destructive button pattern.
pub fn destructive_button<C: ColorProvider + Clone>(color_provider: C) -> (r: ButtonPattern<C>)
    ensures
        r.action_semantics.intent == ActionIntent::Destructive,
        r.action_semantics.hierarchy == ActionHierarchy::Secondary,
        r.interactive_element.interaction_intensity == InteractionIntensity::Standard,
        !r.disabled,
        !r.loading,
        !r.selected,
{
    ButtonPattern::new(
        color_provider,
    ).destructive_action().standard_prominence().standard_interaction()
}

/// Creates a hero call-to-action button pattern.
pub fn hero_button<C: ColorProvider + Clone>(color_provider: C) -> (r: ButtonPattern<C>)
    ensures
        r.action_semantics.intent == ActionIntent::Primary,
        r.action_semantics.hierarchy == ActionHierarchy::Hero,
        r.interactive_element.interaction_intensity == InteractionIntensity::Prominent,
        r.focus_management.focus_behavior == FocusBehavior::Prominent,
        !r.disabled,
        !r.loading,
        !r.selected,
{
    ButtonPattern::new(
        color_provider,
    ).primary_action().hero_prominence().prominent_interaction().prominent_focus()
}

/// Creates a navigation button pattern.
pub fn navigation_button<C: ColorProvider + Clone>(color_provider: C) -> (r: ButtonPattern<C>)
    ensures
        r.action_semantics.intent == ActionIntent::Navigation,
        r.action_semantics.context == ActionContext::Navigation,
        r.action_semantics.hierarchy == ActionHierarchy::Tertiary,
        r.interactive_element.interaction_intensity == InteractionIntensity::Gentle,
        r.focus_management.focus_behavior == FocusBehavior::Subtle,
        !r.disabled,
        !r.loading,
        !r.selected,
{
    ButtonPattern::new(
        color_provider,
    ).navigation_action().tertiary_prominence().gentle_interaction().menu_item_focus()
}

/// Creates a link that acts like a button.
pub fn button_link<C: ColorProvider + Clone>(color_provider: C) -> (r: ButtonPattern<C>)
    ensures
        r.action_semantics.intent == ActionIntent::Secondary,
        r.action_semantics.context == ActionContext::Inline,
        r.interactive_element.interaction_intensity == InteractionIntensity::Gentle,
        !r.disabled,
        !r.loading,
        !r.selected,
{
    ButtonPattern::new(
        color_provider,
    ).secondary_action().inline_context().gentle_interaction().link_focus()
}

} // verus!
