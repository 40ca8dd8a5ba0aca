//! Selection styling builder: container and item classes for filter bars,
//! chip groups, tab rows and other selectable collections.

use vstd::prelude::*;
use crate::classlist::{str_eq, views};
use crate::foundation::color::ColorProvider;
use crate::patterns::selection::{selection_container_build, selection_container_spec,
    selection_count_string, selection_count_view, selection_item_build, selection_item_spec,
    SelectionBehavior, SelectionDisplay, SelectionInteraction, SelectionLayout, SelectionSize,
    SelectionState};

verus! {

broadcast use vstd::seq_lib::group_seq_properties;

/// Selection styling builder.
#[derive(Debug, Clone)]
pub struct SelectionStyles<C: ColorProvider> {
    pub behavior: SelectionBehavior,
    pub state: SelectionState,
    pub display: SelectionDisplay,
    pub layout: SelectionLayout,
    pub size: SelectionSize,
    pub interaction: SelectionInteraction,
    pub show_counts: bool,
    pub show_clear_all: bool,
    pub custom_classes: Vec<String>,
    pub color_provider: C,
}

/// The behavior named by a string, with `Single` as the fallback.
pub open spec fn selection_behavior_from_str(s: Seq<char>) -> SelectionBehavior {
    if s == "none"@ {
        SelectionBehavior::DisplayOnly
    } else if s == "single"@ {
        SelectionBehavior::Single
    } else if s == "multiple"@ {
        SelectionBehavior::Multiple
    } else if s == "toggle"@ {
        SelectionBehavior::Toggle
    } else {
        SelectionBehavior::Single
    }
}

/// The state named by a string, with `Unselected` as the fallback.
pub open spec fn selection_state_from_str(s: Seq<char>) -> SelectionState {
    if s == "unselected"@ || s == "inactive"@ {
        SelectionState::Unselected
    } else if s == "selected"@ || s == "active"@ {
        SelectionState::Selected
    } else if s == "partial"@ {
        SelectionState::PartiallySelected
    } else if s == "disabled"@ {
        SelectionState::Disabled
    } else {
        SelectionState::Unselected
    }
}

/// The display named by a string, with `Button` as the fallback.
pub open spec fn selection_display_from_str(s: Seq<char>) -> SelectionDisplay {
    if s == "button"@ {
        SelectionDisplay::Button
    } else if s == "chip"@ {
        SelectionDisplay::Chip
    } else if s == "list"@ || s == "list-item"@ {
        SelectionDisplay::ListItem
    } else if s == "card"@ {
        SelectionDisplay::Card
    } else if s == "tab"@ {
        SelectionDisplay::Tab
    } else {
        SelectionDisplay::Button
    }
}

/// The layout named by a string, with `Horizontal` as the fallback.
pub open spec fn selection_layout_from_str(s: Seq<char>) -> SelectionLayout {
    if s == "horizontal"@ {
        SelectionLayout::Horizontal
    } else if s == "vertical"@ {
        SelectionLayout::Vertical
    } else if s == "grid"@ {
        SelectionLayout::Grid
    } else if s == "dropdown"@ {
        SelectionLayout::Dropdown
    } else if s == "inline"@ {
        SelectionLayout::Inline
    } else {
        SelectionLayout::Horizontal
    }
}

/// The size named by a string, with `MD` as the fallback.
pub open spec fn selection_size_from_str(s: Seq<char>) -> SelectionSize {
    if s == "xs"@ {
        SelectionSize::XS
    } else if s == "sm"@ {
        SelectionSize::SM
    } else if s == "md"@ {
        SelectionSize::MD
    } else if s == "lg"@ {
        SelectionSize::LG
    } else if s == "xl"@ {
        SelectionSize::XL
    } else {
        SelectionSize::MD
    }
}

/// The interaction named by a string, with `Standard` as the fallback.
pub open spec fn selection_interaction_from_str(s: Seq<char>) -> SelectionInteraction {
    if s == "subtle"@ {
        SelectionInteraction::Subtle
    } else if s == "standard"@ {
        SelectionInteraction::Standard
    } else if s == "prominent"@ {
        SelectionInteraction::Prominent
    } else {
        SelectionInteraction::Standard
    }
}

impl<C: ColorProvider> SelectionStyles<C> {
    /// Creates a selection builder with default values.
    pub fn new(color_provider: C) -> (r: Self)
        ensures
            r.behavior == SelectionBehavior::Single,
            r.state == SelectionState::Unselected,
            r.display == SelectionDisplay::Button,
            r.layout == SelectionLayout::Horizontal,
            r.size == SelectionSize::MD,
            r.interaction == SelectionInteraction::Standard,
            !r.show_counts,
            !r.show_clear_all,
            r.custom_classes@.len() == 0,
            r.color_provider == color_provider,
    {
        SelectionStyles {
            behavior: SelectionBehavior::Single,
            state: SelectionState::Unselected,
            display: SelectionDisplay::Button,
            layout: SelectionLayout::Horizontal,
            size: SelectionSize::MD,
            interaction: SelectionInteraction::Standard,
            show_counts: false,
            show_clear_all: false,
            custom_classes: Vec::new(),
            color_provider,
        }
    }

    /// Configures display-only behavior.
    pub fn no_selection(self) -> (r: Self)
        ensures
            r == (SelectionStyles { behavior: SelectionBehavior::DisplayOnly, ..self }),
    {
        SelectionStyles { behavior: SelectionBehavior::DisplayOnly, ..self }
    }

    /// Configures single selection.
    pub fn single_selection(self) -> (r: Self)
        ensures
            r == (SelectionStyles { behavior: SelectionBehavior::Single, ..self }),
    {
        SelectionStyles { behavior: SelectionBehavior::Single, ..self }
    }

    /// Configures multiple selection.
    pub fn multiple_selection(self) -> (r: Self)
        ensures
            r == (SelectionStyles { behavior: SelectionBehavior::Multiple, ..self }),
    {
        SelectionStyles { behavior: SelectionBehavior::Multiple, ..self }
    }

    /// Configures toggle selection.
    pub fn toggle_selection(self) -> (r: Self)
        ensures
            r == (SelectionStyles { behavior: SelectionBehavior::Toggle, ..self }),
    {
        SelectionStyles { behavior: SelectionBehavior::Toggle, ..self }
    }

    /// Configures the unselected state.
    pub fn unselected(self) -> (r: Self)
        ensures
            r == (SelectionStyles { state: SelectionState::Unselected, ..self }),
    {
        SelectionStyles { state: SelectionState::Unselected, ..self }
    }

    /// Configures the selected state.
    pub fn selected(self) -> (r: Self)
        ensures
            r == (SelectionStyles { state: SelectionState::Selected, ..self }),
    {
        SelectionStyles { state: SelectionState::Selected, ..self }
    }

    /// Configures the partially selected state.
    pub fn partially_selected(self) -> (r: Self)
        ensures
            r == (SelectionStyles { state: SelectionState::PartiallySelected, ..self }),
    {
        SelectionStyles { state: SelectionState::PartiallySelected, ..self }
    }

    /// Configures the disabled state.
    pub fn disabled(self) -> (r: Self)
        ensures
            r == (SelectionStyles { state: SelectionState::Disabled, ..self }),
    {
        SelectionStyles { state: SelectionState::Disabled, ..self }
    }

    /// Configures the button display.
    pub fn button_display(self) -> (r: Self)
        ensures
            r == (SelectionStyles { display: SelectionDisplay::Button, ..self }),
    {
        SelectionStyles { display: SelectionDisplay::Button, ..self }
    }

    /// Configures the chip display.
    pub fn chip_display(self) -> (r: Self)
        ensures
            r == (SelectionStyles { display: SelectionDisplay::Chip, ..self }),
    {
        SelectionStyles { display: SelectionDisplay::Chip, ..self }
    }

    /// Configures the list item display.
    pub fn list_item_display(self) -> (r: Self)
        ensures
            r == (SelectionStyles { display: SelectionDisplay::ListItem, ..self }),
    {
        SelectionStyles { display: SelectionDisplay::ListItem, ..self }
    }

    /// Configures the card display.
    pub fn card_display(self) -> (r: Self)
        ensures
            r == (SelectionStyles { display: SelectionDisplay::Card, ..self }),
    {
        SelectionStyles { display: SelectionDisplay::Card, ..self }
    }

    /// Configures the tab display.
    pub fn tab_display(self) -> (r: Self)
        ensures
            r == (SelectionStyles { display: SelectionDisplay::Tab, ..self }),
    {
        SelectionStyles { display: SelectionDisplay::Tab, ..self }
    }

    /// Configures the horizontal layout.
    pub fn horizontal_layout(self) -> (r: Self)
        ensures
            r == (SelectionStyles { layout: SelectionLayout::Horizontal, ..self }),
    {
        SelectionStyles { layout: SelectionLayout::Horizontal, ..self }
    }

    /// Configures the vertical layout.
    pub fn vertical_layout(self) -> (r: Self)
        ensures
            r == (SelectionStyles { layout: SelectionLayout::Vertical, ..self }),
    {
        SelectionStyles { layout: SelectionLayout::Vertical, ..self }
    }

    /// Configures the grid layout.
    pub fn grid_layout(self) -> (r: Self)
        ensures
            r == (SelectionStyles { layout: SelectionLayout::Grid, ..self }),
    {
        SelectionStyles { layout: SelectionLayout::Grid, ..self }
    }

    /// Configures the dropdown layout.
    pub fn dropdown_layout(self) -> (r: Self)
        ensures
            r == (SelectionStyles { layout: SelectionLayout::Dropdown, ..self }),
    {
        SelectionStyles { layout: SelectionLayout::Dropdown, ..self }
    }

    /// Configures the inline layout.
    pub fn inline_layout(self) -> (r: Self)
        ensures
            r == (SelectionStyles { layout: SelectionLayout::Inline, ..self }),
    {
        SelectionStyles { layout: SelectionLayout::Inline, ..self }
    }

    /// Configures the extra-small size.
    pub fn xs(self) -> (r: Self)
        ensures
            r == (SelectionStyles { size: SelectionSize::XS, ..self }),
    {
        SelectionStyles { size: SelectionSize::XS, ..self }
    }

    /// Configures the small size.
    pub fn sm(self) -> (r: Self)
        ensures
            r == (SelectionStyles { size: SelectionSize::SM, ..self }),
    {
        SelectionStyles { size: SelectionSize::SM, ..self }
    }

    /// Configures the medium size.
    pub fn md(self) -> (r: Self)
        ensures
            r == (SelectionStyles { size: SelectionSize::MD, ..self }),
    {
        SelectionStyles { size: SelectionSize::MD, ..self }
    }

    /// Configures the large size.
    pub fn lg(self) -> (r: Self)
        ensures
            r == (SelectionStyles { size: SelectionSize::LG, ..self }),
    {
        SelectionStyles { size: SelectionSize::LG, ..self }
    }

    /// Configures the extra-large size.
    pub fn xl(self) -> (r: Self)
        ensures
            r == (SelectionStyles { size: SelectionSize::XL, ..self }),
    {
        SelectionStyles { size: SelectionSize::XL, ..self }
    }

    /// Configures the subtle interaction.
    pub fn subtle_interaction(self) -> (r: Self)
        ensures
            r == (SelectionStyles { interaction: SelectionInteraction::Subtle, ..self }),
    {
        SelectionStyles { interaction: SelectionInteraction::Subtle, ..self }
    }

    /// Configures the standard interaction.
    pub fn standard_interaction(self) -> (r: Self)
        ensures
            r == (SelectionStyles {
                interaction: SelectionInteraction::Standard,
                ..self
            }),
    {
        SelectionStyles { interaction: SelectionInteraction::Standard, ..self }
    }

    /// Configures the prominent interaction.
    pub fn prominent_interaction(self) -> (r: Self)
        ensures
            r == (SelectionStyles {
                interaction: SelectionInteraction::Prominent,
                ..self
            }),
    {
        SelectionStyles { interaction: SelectionInteraction::Prominent, ..self }
    }

    /// Shows or hides count badges.
    pub fn with_counts(self, show_counts: bool) -> (r: Self)
        ensures
            r == (SelectionStyles { show_counts, ..self }),
    {
        SelectionStyles { show_counts, ..self }
    }

    /// Shows or hides the clear-all control.
    pub fn with_clear_all(self, show_clear_all: bool) -> (r: Self)
        ensures
            r == (SelectionStyles { show_clear_all, ..self }),
    {
        SelectionStyles { show_clear_all, ..self }
    }

    /// Configures the behavior named by a string; unrecognized names fall
    /// back to `Single`.
    pub fn behavior_str(self, behavior: &str) -> (r: Self)
        ensures
            r == (SelectionStyles {
                behavior: selection_behavior_from_str(behavior@),
                ..self
            }),
    {
        let v = if str_eq(behavior, "none") {
            SelectionBehavior::DisplayOnly
        } else if str_eq(behavior, "single") {
            SelectionBehavior::Single
        } else if str_eq(behavior, "multiple") {
            SelectionBehavior::Multiple
        } else if str_eq(behavior, "toggle") {
            SelectionBehavior::Toggle
        } else {
            SelectionBehavior::Single
        };
        SelectionStyles { behavior: v, ..self }
    }

    /// Configures the state named by a string; unrecognized names fall back
    /// to `Unselected`.
    pub fn state_str(self, state: &str) -> (r: Self)
        ensures
            r == (SelectionStyles { state: selection_state_from_str(state@), ..self }),
    {
        let v = if str_eq(state, "unselected") || str_eq(state, "inactive") {
            SelectionState::Unselected
        } else if str_eq(state, "selected") || str_eq(state, "active") {
            SelectionState::Selected
        } else if str_eq(state, "partial") {
            SelectionState::PartiallySelected
        } else if str_eq(state, "disabled") {
            SelectionState::Disabled
        } else {
            SelectionState::Unselected
        };
        SelectionStyles { state: v, ..self }
    }

    /// Configures the display named by a string; unrecognized names fall
    /// back to `Button`.
    pub fn display_str(self, display: &str) -> (r: Self)
        ensures
            r == (SelectionStyles {
                display: selection_display_from_str(display@),
                ..self
            }),
    {
        let v = if str_eq(display, "button") {
            SelectionDisplay::Button
        } else if str_eq(display, "chip") {
            SelectionDisplay::Chip
        } else if str_eq(display, "list") || str_eq(display, "list-item") {
            SelectionDisplay::ListItem
        } else if str_eq(display, "card") {
            SelectionDisplay::Card
        } else if str_eq(display, "tab") {
            SelectionDisplay::Tab
        } else {
            SelectionDisplay::Button
        };
        SelectionStyles { display: v, ..self }
    }

    /// Configures the layout named by a string; unrecognized names fall back
    /// to `Horizontal`.
    pub fn layout_str(self, layout: &str) -> (r: Self)
        ensures
            r == (SelectionStyles { layout: selection_layout_from_str(layout@), ..self }),
    {
        let v = if str_eq(layout, "horizontal") {
            SelectionLayout::Horizontal
        } else if str_eq(layout, "vertical") {
            SelectionLayout::Vertical
        } else if str_eq(layout, "grid") {
            SelectionLayout::Grid
        } else if str_eq(layout, "dropdown") {
            SelectionLayout::Dropdown
        } else if str_eq(layout, "inline") {
            SelectionLayout::Inline
        } else {
            SelectionLayout::Horizontal
        };
        SelectionStyles { layout: v, ..self }
    }

    /// Configures the size named by a string; unrecognized names fall back
    /// to `MD`.
    pub fn size_str(self, size: &str) -> (r: Self)
        ensures
            r == (SelectionStyles { size: selection_size_from_str(size@), ..self }),
    {
        let v = if str_eq(size, "xs") {
            SelectionSize::XS
        } else if str_eq(size, "sm") {
            SelectionSize::SM
        } else if str_eq(size, "md") {
            SelectionSize::MD
        } else if str_eq(size, "lg") {
            SelectionSize::LG
        } else if str_eq(size, "xl") {
            SelectionSize::XL
        } else {
            SelectionSize::MD
        };
        SelectionStyles { size: v, ..self }
    }

    /// Configures the interaction named by a string; unrecognized names fall
    /// back to `Standard`.
    pub fn interaction_str(self, interaction: &str) -> (r: Self)
        ensures
            r == (SelectionStyles {
                interaction: selection_interaction_from_str(interaction@),
                ..self
            }),
    {
        let v = if str_eq(interaction, "subtle") {
            SelectionInteraction::Subtle
        } else if str_eq(interaction, "standard") {
            SelectionInteraction::Standard
        } else if str_eq(interaction, "prominent") {
            SelectionInteraction::Prominent
        } else {
            SelectionInteraction::Standard
        };
        SelectionStyles { interaction: v, ..self }
    }

    /// Appends one custom class.
    pub fn custom(self, class: &str) -> (r: Self)
        ensures
            r == (SelectionStyles { custom_classes: r.custom_classes, ..self }),
            views(r.custom_classes@) == views(self.custom_classes@).push(class@),
    {
        let mut c = self;
        let owned = class.to_owned();
        c.custom_classes.push(owned);
        proof {
            assert(views(c.custom_classes@) =~= views(self.custom_classes@).push(class@));
        }
        c
    }

    /// Appends each whitespace-separated class of the given string.
    pub fn custom_classes(self, classes: &str) -> (r: Self)
        ensures
            r == (SelectionStyles { custom_classes: r.custom_classes, ..self }),
            views(r.custom_classes@) == views(self.custom_classes@) + crate::classlist::split_ws(
                classes@,
            ),
    {
        let toks = crate::classlist::split_tokens(classes);
        let mut c = self;
        crate::classlist::push_all_parts(&mut c.custom_classes, &toks);
        c
    }

    /// Builds the normalized container class string for the group.
    pub fn container_classes(self) -> (r: String)
        ensures
            r@ == selection_container_spec(self.layout, self.size, views(self.custom_classes@)),
    {
        selection_container_build(
            self.layout,
            self.size,
            &self.custom_classes,
            &self.color_provider,
        )
    }

    /// Builds the normalized item class string for one item.
    pub fn item_classes(&self) -> (r: String)
        ensures
            r@ == selection_item_spec(
                self.display,
                self.size,
                self.state,
                self.interaction,
                self.color_provider.spec_palette(),
            ),
    {
        selection_item_build(
            self.display,
            self.size,
            self.state,
            self.interaction,
            &self.color_provider,
        )
    }

    /// The count badge classes; empty when counts are not shown.
    pub fn count_classes(&self) -> (r: String)
        ensures
            r@ == selection_count_view(
                self.show_counts,
                self.state,
                self.color_provider.spec_palette(),
            ),
    {
        selection_count_string(&self.color_provider, self.show_counts, self.state)
    }
}

/// Creates a selection builder.
pub fn selection_styles<C: ColorProvider>(color_provider: C) -> (r: SelectionStyles<C>)
    ensures
        r.behavior == SelectionBehavior::Single,
        r.state == SelectionState::Unselected,
        r.display == SelectionDisplay::Button,
        r.layout == SelectionLayout::Horizontal,
        r.size == SelectionSize::MD,
        r.interaction == SelectionInteraction::Standard,
        !r.show_counts,
        !r.show_clear_all,
        r.custom_classes@.len() == 0,
        r.color_provider == color_provider,
{
    SelectionStyles::new(color_provider)
}

/// Creates a filter selection builder.
pub fn filter_selection_styles<C: ColorProvider>(color_provider: C) -> (r: SelectionStyles<C>)
    ensures
        r.behavior == SelectionBehavior::Single,
        r.display == SelectionDisplay::Button,
        r.layout == SelectionLayout::Horizontal,
        r.interaction == SelectionInteraction::Standard,
        r.show_counts,
        r.state == SelectionState::Unselected,
        r.size == SelectionSize::MD,
        !r.show_clear_all,
        r.custom_classes@.len() == 0,
        r.color_provider == color_provider,
{
    SelectionStyles::new(
        color_provider,
    ).single_selection().button_display().horizontal_layout().standard_interaction().with_counts(
        true,
    )
}

/// Creates a chip selection builder.
pub fn chip_selection_styles<C: ColorProvider>(color_provider: C) -> (r: SelectionStyles<C>)
    ensures
        r.behavior == SelectionBehavior::Multiple,
        r.display == SelectionDisplay::Chip,
        r.layout == SelectionLayout::Inline,
        r.interaction == SelectionInteraction::Subtle,
        r.show_clear_all,
        r.state == SelectionState::Unselected,
        r.size == SelectionSize::MD,
        !r.show_counts,
        r.custom_classes@.len() == 0,
        r.color_provider == color_provider,
{
    SelectionStyles::new(
        color_provider,
    ).multiple_selection().chip_display().inline_layout().subtle_interaction().with_clear_all(true)
}

/// Creates a tab selection builder.
pub fn tab_selection_styles<C: ColorProvider>(color_provider: C) -> (r: SelectionStyles<C>)
    ensures
        r.behavior == SelectionBehavior::Single,
        r.display == SelectionDisplay::Tab,
        r.layout == SelectionLayout::Horizontal,
        r.interaction == SelectionInteraction::Standard,
        r.state == SelectionState::Unselected,
        r.size == SelectionSize::MD,
        !r.show_counts,
        !r.show_clear_all,
        r.custom_classes@.len() == 0,
        r.color_provider == color_provider,
{
    SelectionStyles::new(
        color_provider,
    ).single_selection().tab_display().horizontal_layout().standard_interaction()
}

/// Builds container and item classes from string-valued options in one call.
pub fn selection_classes_from_strings<C: ColorProvider + Clone>(
    color_provider: C,
    behavior: &str,
    state: &str,
    display: &str,
    layout: &str,
    size: &str,
    interaction: &str,
    show_counts: bool,
) -> (r: (String, String))
    ensures
        r.0@ == selection_container_spec(
            selection_layout_from_str(layout@),
            selection_size_from_str(size@),
            Seq::empty(),
        ),
        r.1@ == selection_item_spec(
            selection_display_from_str(display@),
            selection_size_from_str(size@),
            selection_state_from_str(state@),
            selection_interaction_from_str(interaction@),
            color_provider.spec_palette(),
        ),
{
    let builder = SelectionStyles::new(color_provider).behavior_str(behavior).state_str(
        state,
    ).display_str(display).layout_str(layout).size_str(size).interaction_str(
        interaction,
    ).with_counts(show_counts);
    let item = builder.item_classes();
    let container = builder.container_classes();
    proof {
        assert(views(builder.custom_classes@) =~= Seq::<Seq<char>>::empty());
    }
    (container, item)
}

} // verus!
