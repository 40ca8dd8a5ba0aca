//! Selection patterns: filters, chips, tabs, lists and cards with
//! selectable items.

use vstd::prelude::*;
use crate::classlist::{assemble, assemble_fragments, push_part, push_part_string, views};
use crate::foundation::color::{Color, ColorPalette, ColorProvider};

verus! {

broadcast use vstd::seq_lib::group_seq_properties;

/// How items of a selection group may be selected.
#[derive(Debug, Clone, Copy, PartialEq, Eq, Hash, Structural)]
pub enum SelectionBehavior {
    DisplayOnly,
    Single,
    Multiple,
    Toggle,
}

/// The selection state of one item.
#[derive(Debug, Clone, Copy, PartialEq, Eq, Hash, Structural)]
pub enum SelectionState {
    Unselected,
    Selected,
    PartiallySelected,
    Disabled,
}

/// The visual presentation of selection items.
#[derive(Debug, Clone, Copy, PartialEq, Eq, Hash, Structural)]
pub enum SelectionDisplay {
    Button,
    Chip,
    ListItem,
    Card,
    Tab,
}

/// The layout of a selection group.
#[derive(Debug, Clone, Copy, PartialEq, Eq, Hash, Structural)]
pub enum SelectionLayout {
    Horizontal,
    Vertical,
    Grid,
    Dropdown,
    Inline,
}

/// The size of selection items.
#[derive(Debug, Clone, Copy, PartialEq, Eq, Hash, Structural)]
pub enum SelectionSize {
    XS,
    SM,
    MD,
    LG,
    XL,
}

/// The interaction intensity of selection items.
#[derive(Debug, Clone, Copy, PartialEq, Eq, Hash, Structural)]
pub enum SelectionInteraction {
    Subtle,
    Standard,
    Prominent,
}

/// The layout fragment of a selection group.
pub open spec fn selection_layout_fragment(l: SelectionLayout) -> Seq<char> {
    match l {
        SelectionLayout::Horizontal => "flex flex-row gap-2 items-center"@,
        SelectionLayout::Vertical => "flex flex-col gap-2"@,
        SelectionLayout::Grid => "grid grid-cols-auto gap-2"@,
        SelectionLayout::Dropdown => "relative"@,
        SelectionLayout::Inline => "flex flex-wrap gap-2 items-center"@,
    }
}

/// The gap fragment of a selection group size.
pub open spec fn selection_gap_fragment(s: SelectionSize) -> Seq<char> {
    match s {
        SelectionSize::XS => "gap-1"@,
        SelectionSize::SM => "gap-1.5"@,
        SelectionSize::MD => "gap-2"@,
        SelectionSize::LG => "gap-3"@,
        SelectionSize::XL => "gap-4"@,
    }
}

/// The display fragment of a selection item.
pub open spec fn selection_display_fragment(d: SelectionDisplay) -> Seq<char> {
    match d {
        SelectionDisplay::Button => "inline-flex items-center justify-center font-medium rounded-md transition-all duration-200"@,
        SelectionDisplay::Chip => "inline-flex items-center rounded-full transition-all duration-200"@,
        SelectionDisplay::ListItem => "flex items-center w-full px-3 py-2 transition-all duration-200"@,
        SelectionDisplay::Card => "flex flex-col items-center p-4 rounded-lg border transition-all duration-200"@,
        SelectionDisplay::Tab => "flex items-center px-4 py-2 border-b-2 transition-all duration-200"@,
    }
}

/// The size fragment of a selection item, keyed by display and size.
pub open spec fn selection_item_size_fragment(d: SelectionDisplay, s: SelectionSize) -> Seq<char> {
    match (d, s) {
        (SelectionDisplay::Button, SelectionSize::XS) => "px-2 py-1 text-xs"@,
        (SelectionDisplay::Button, SelectionSize::SM) => "px-3 py-1.5 text-sm"@,
        (SelectionDisplay::Button, SelectionSize::MD) => "px-4 py-2 text-base"@,
        (SelectionDisplay::Button, SelectionSize::LG) => "px-6 py-3 text-lg"@,
        (SelectionDisplay::Button, SelectionSize::XL) => "px-8 py-4 text-xl"@,
        (SelectionDisplay::Chip, SelectionSize::XS) => "px-2 py-0.5 text-xs"@,
        (SelectionDisplay::Chip, SelectionSize::SM) => "px-3 py-1 text-sm"@,
        (SelectionDisplay::Chip, SelectionSize::MD) => "px-3 py-1.5 text-base"@,
        (SelectionDisplay::Chip, SelectionSize::LG) => "px-4 py-2 text-lg"@,
        (SelectionDisplay::Chip, SelectionSize::XL) => "px-6 py-3 text-xl"@,
        _ => "px-4 py-2 text-base"@,
    }
}

/// The color fragment of a selection state under a palette.
pub open spec fn selection_state_fragment(st: SelectionState, p: ColorPalette) -> Seq<char> {
    match st {
        SelectionState::Unselected => "bg-"@ + p.surface@ + " text-"@ + p.text_primary@
            + " border-"@ + p.border@,
        SelectionState::Selected => "bg-"@ + p.primary@ + " text-"@ + p.text_inverse@
            + " border-"@ + p.primary@,
        SelectionState::PartiallySelected => "bg-"@ + p.background@ + " text-"@ + p.primary@
            + " border-"@ + p.primary@,
        SelectionState::Disabled => "bg-"@ + p.interactive_disabled@ + " text-"@
            + p.text_tertiary@ + " border-"@ + p.interactive_disabled@,
    }
}

/// The interaction fragment of a selection item: cursor and hover effects.
pub open spec fn selection_interaction_fragment(
    st: SelectionState,
    i: SelectionInteraction,
    p: ColorPalette,
) -> Seq<char> {
    if st == SelectionState::Disabled {
        "cursor-not-allowed"@
    } else {
        match i {
            SelectionInteraction::Subtle => "cursor-pointer hover:opacity-80"@,
            SelectionInteraction::Standard => if st == SelectionState::Unselected {
                "cursor-pointer hover:bg-"@ + p.background@ + " hover:border-"@ + p.interactive@
                    + " hover:scale-105 active:scale-95"@
            } else {
                "cursor-pointer hover:scale-105 active:scale-95"@
            },
            SelectionInteraction::Prominent => if st == SelectionState::Unselected {
                "cursor-pointer hover:bg-"@ + p.interactive@ + " hover:text-"@ + p.text_inverse@
                    + " hover:scale-110 active:scale-90 shadow-lg hover:shadow-xl"@
            } else {
                "cursor-pointer hover:scale-110 active:scale-90 shadow-lg hover:shadow-xl"@
            },
        }
    }
}

/// The count badge text of a selection configuration; empty when counts are
/// not shown.
pub open spec fn selection_count_view(
    show_counts: bool,
    st: SelectionState,
    p: ColorPalette,
) -> Seq<char> {
    if !show_counts {
        Seq::empty()
    } else if st == SelectionState::Selected {
        "ml-2 px-2 py-0.5 text-xs rounded-full bg-"@ + p.primary@ + " text-"@ + p.text_inverse@
    } else {
        "ml-2 px-2 py-0.5 text-xs rounded-full bg-"@ + p.background@ + " text-"@
            + p.text_secondary@
    }
}

/// The normalized container class string of a selection group.
pub open spec fn selection_container_spec(
    layout: SelectionLayout,
    size: SelectionSize,
    customs: Seq<Seq<char>>,
) -> Seq<char> {
    assemble(
        seq![
            "selection-pattern"@,
            selection_layout_fragment(layout),
            selection_gap_fragment(size),
        ] + customs,
    )
}

/// The normalized item class string of a selection configuration.
pub open spec fn selection_item_spec(
    display: SelectionDisplay,
    size: SelectionSize,
    st: SelectionState,
    i: SelectionInteraction,
    p: ColorPalette,
) -> Seq<char> {
    assemble(
        seq![
            "selection-item"@,
            selection_display_fragment(display),
            selection_item_size_fragment(display, size),
            selection_state_fragment(st, p),
            selection_interaction_fragment(st, i, p),
        ],
    )
}

/// Builds the state color fragment.
pub(crate) fn selection_state_string<C: ColorProvider>(
    provider: &C,
    st: SelectionState,
) -> (r: String)
    ensures
        r@ == selection_state_fragment(st, provider.spec_palette()),
{
    match st {
        SelectionState::Unselected => {
            let mut s = "bg-".to_owned();
            s.append(provider.resolve_color(Color::Surface));
            s.append(" text-");
            s.append(provider.resolve_color(Color::TextPrimary));
            s.append(" border-");
            s.append(provider.resolve_color(Color::Border));
            s
        },
        SelectionState::Selected => {
            let mut s = "bg-".to_owned();
            s.append(provider.resolve_color(Color::Primary));
            s.append(" text-");
            s.append(provider.resolve_color(Color::TextInverse));
            s.append(" border-");
            s.append(provider.resolve_color(Color::Primary));
            s
        },
        SelectionState::PartiallySelected => {
            let mut s = "bg-".to_owned();
            s.append(provider.resolve_color(Color::Background));
            s.append(" text-");
            s.append(provider.resolve_color(Color::Primary));
            s.append(" border-");
            s.append(provider.resolve_color(Color::Primary));
            s
        },
        SelectionState::Disabled => {
            let mut s = "bg-".to_owned();
            s.append(provider.resolve_color(Color::InteractiveDisabled));
            s.append(" text-");
            s.append(provider.resolve_color(Color::TextTertiary));
            s.append(" border-");
            s.append(provider.resolve_color(Color::InteractiveDisabled));
            s
        },
    }
}

/// Builds the interaction fragment.
pub(crate) fn selection_interaction_string<C: ColorProvider>(
    provider: &C,
    st: SelectionState,
    i: SelectionInteraction,
) -> (r: String)
    ensures
        r@ == selection_interaction_fragment(st, i, provider.spec_palette()),
{
    if matches!(st, SelectionState::Disabled) {
        return "cursor-not-allowed".to_owned();
    }
    match i {
        SelectionInteraction::Subtle => "cursor-pointer hover:opacity-80".to_owned(),
        SelectionInteraction::Standard => {
            if matches!(st, SelectionState::Unselected) {
                let mut s = "cursor-pointer hover:bg-".to_owned();
                s.append(provider.resolve_color(Color::Background));
                s.append(" hover:border-");
                s.append(provider.resolve_color(Color::Interactive));
                s.append(" hover:scale-105 active:scale-95");
                s
            } else {
                "cursor-pointer hover:scale-105 active:scale-95".to_owned()
            }
        },
        SelectionInteraction::Prominent => {
            if matches!(st, SelectionState::Unselected) {
                let mut s = "cursor-pointer hover:bg-".to_owned();
                s.append(provider.resolve_color(Color::Interactive));
                s.append(" hover:text-");
                s.append(provider.resolve_color(Color::TextInverse));
                s.append(" hover:scale-110 active:scale-90 shadow-lg hover:shadow-xl");
                s
            } else {
                "cursor-pointer hover:scale-110 active:scale-90 shadow-lg hover:shadow-xl".to_owned()
            }
        },
    }
}

/// Builds the count badge string.
pub(crate) fn selection_count_string<C: ColorProvider>(
    provider: &C,
    show_counts: bool,
    st: SelectionState,
) -> (r: String)
    ensures
        r@ == selection_count_view(show_counts, st, provider.spec_palette()),
{
    if !show_counts {
        return String::new();
    }
    if matches!(st, SelectionState::Selected) {
        let mut s = "ml-2 px-2 py-0.5 text-xs rounded-full bg-".to_owned();
        s.append(provider.resolve_color(Color::Primary));
        s.append(" text-");
        s.append(provider.resolve_color(Color::TextInverse));
        s
    } else {
        let mut s = "ml-2 px-2 py-0.5 text-xs rounded-full bg-".to_owned();
        s.append(provider.resolve_color(Color::Background));
        s.append(" text-");
        s.append(provider.resolve_color(Color::TextSecondary));
        s
    }
}

/// Builds the normalized container class string from configuration values.
pub(crate) fn selection_container_build<C: ColorProvider>(
    layout: SelectionLayout,
    size: SelectionSize,
    custom_classes: &Vec<String>,
    _provider: &C,
) -> (r: String)
    ensures
        r@ == selection_container_spec(layout, size, views(custom_classes@)),
{
    let mut parts: Vec<String> = Vec::new();
    push_part(&mut parts, "selection-pattern");
    push_part(
        &mut parts,
        match layout {
            SelectionLayout::Horizontal => "flex flex-row gap-2 items-center",
            SelectionLayout::Vertical => "flex flex-col gap-2",
            SelectionLayout::Grid => "grid grid-cols-auto gap-2",
            SelectionLayout::Dropdown => "relative",
            SelectionLayout::Inline => "flex flex-wrap gap-2 items-center",
        },
    );
    push_part(
        &mut parts,
        match size {
            SelectionSize::XS => "gap-1",
            SelectionSize::SM => "gap-1.5",
            SelectionSize::MD => "gap-2",
            SelectionSize::LG => "gap-3",
            SelectionSize::XL => "gap-4",
        },
    );
    crate::classlist::push_all_parts(&mut parts, custom_classes);
    proof {
        assert(views(parts@) =~= seq![
            "selection-pattern"@,
            selection_layout_fragment(layout),
            selection_gap_fragment(size),
        ] + views(custom_classes@));
    }
    assemble_fragments(&parts)
}

/// Builds the normalized item class string from configuration values.
pub(crate) fn selection_item_build<C: ColorProvider>(
    display: SelectionDisplay,
    size: SelectionSize,
    st: SelectionState,
    interaction: SelectionInteraction,
    provider: &C,
) -> (r: String)
    ensures
        r@ == selection_item_spec(display, size, st, interaction, provider.spec_palette()),
{
    let mut parts: Vec<String> = Vec::new();
    push_part(&mut parts, "selection-item");
    push_part(
        &mut parts,
        match display {
            SelectionDisplay::Button => "inline-flex items-center justify-center font-medium rounded-md transition-all duration-200",
            SelectionDisplay::Chip => "inline-flex items-center rounded-full transition-all duration-200",
            SelectionDisplay::ListItem => "flex items-center w-full px-3 py-2 transition-all duration-200",
            SelectionDisplay::Card => "flex flex-col items-center p-4 rounded-lg border transition-all duration-200",
            SelectionDisplay::Tab => "flex items-center px-4 py-2 border-b-2 transition-all duration-200",
        },
    );
    push_part(
        &mut parts,
        match (display, size) {
            (SelectionDisplay::Button, SelectionSize::XS) => "px-2 py-1 text-xs",
            (SelectionDisplay::Button, SelectionSize::SM) => "px-3 py-1.5 text-sm",
            (SelectionDisplay::Button, SelectionSize::MD) => "px-4 py-2 text-base",
            (SelectionDisplay::Button, SelectionSize::LG) => "px-6 py-3 text-lg",
            (SelectionDisplay::Button, SelectionSize::XL) => "px-8 py-4 text-xl",
            (SelectionDisplay::Chip, SelectionSize::XS) => "px-2 py-0.5 text-xs",
            (SelectionDisplay::Chip, SelectionSize::SM) => "px-3 py-1 text-sm",
            (SelectionDisplay::Chip, SelectionSize::MD) => "px-3 py-1.5 text-base",
            (SelectionDisplay::Chip, SelectionSize::LG) => "px-4 py-2 text-lg",
            (SelectionDisplay::Chip, SelectionSize::XL) => "px-6 py-3 text-xl",
            _ => "px-4 py-2 text-base",
        },
    );
    push_part_string(&mut parts, selection_state_string(provider, st));
    push_part_string(&mut parts, selection_interaction_string(provider, st, interaction));
    proof {
        assert(views(parts@) =~= seq![
            "selection-item"@,
            selection_display_fragment(display),
            selection_item_size_fragment(display, size),
            selection_state_fragment(st, provider.spec_palette()),
            selection_interaction_fragment(st, interaction, provider.spec_palette()),
        ]);
    }
    assemble_fragments(&parts)
}

/// Selection pattern configuration.
#[derive(Debug, Clone)]
pub struct SelectionPattern<C: ColorProvider> {
    pub behavior: SelectionBehavior,
    pub state: SelectionState,
    pub display: SelectionDisplay,
    pub layout: SelectionLayout,
    pub size: SelectionSize,
    pub interaction: SelectionInteraction,
    pub show_counts: bool,
    pub show_clear_all: bool,
    pub custom_classes: Vec<String>,
    pub color_provider: C,
}

/// Semantic information about a selection pattern.
#[derive(Debug, Clone)]
pub struct SelectionSemanticInfo {
    pub behavior: SelectionBehavior,
    pub state: SelectionState,
    pub display: SelectionDisplay,
    pub layout: SelectionLayout,
    pub size: SelectionSize,
    pub interaction: SelectionInteraction,
    pub allows_multiple: bool,
    pub is_interactive: bool,
    pub has_counts: bool,
    pub has_clear_all: bool,
}

impl<C: ColorProvider> SelectionPattern<C> {
    /// Creates a selection pattern with default values.
    pub fn new(color_provider: C) -> (r: Self)
        ensures
            r.behavior == SelectionBehavior::Single,
            r.state == SelectionState::Unselected,
            r.display == SelectionDisplay::Button,
            r.layout == SelectionLayout::Horizontal,
            r.size == SelectionSize::MD,
            r.interaction == SelectionInteraction::Standard,
            !r.show_counts,
            !r.show_clear_all,
            r.custom_classes@.len() == 0,
            r.color_provider == color_provider,
    {
        SelectionPattern {
            behavior: SelectionBehavior::Single,
            state: SelectionState::Unselected,
            display: SelectionDisplay::Button,
            layout: SelectionLayout::Horizontal,
            size: SelectionSize::MD,
            interaction: SelectionInteraction::Standard,
            show_counts: false,
            show_clear_all: false,
            custom_classes: Vec::new(),
            color_provider,
        }
    }

    /// Configures display-only behavior.
    pub fn no_selection(self) -> (r: Self)
        ensures
            r == (SelectionPattern { behavior: SelectionBehavior::DisplayOnly, ..self }),
    {
        SelectionPattern { behavior: SelectionBehavior::DisplayOnly, ..self }
    }

    /// Configures single selection.
    pub fn single_selection(self) -> (r: Self)
        ensures
            r == (SelectionPattern { behavior: SelectionBehavior::Single, ..self }),
    {
        SelectionPattern { behavior: SelectionBehavior::Single, ..self }
    }

    /// Configures multiple selection.
    pub fn multiple_selection(self) -> (r: Self)
        ensures
            r == (SelectionPattern { behavior: SelectionBehavior::Multiple, ..self }),
    {
        SelectionPattern { behavior: SelectionBehavior::Multiple, ..self }
    }

    /// Configures toggle selection.
    pub fn toggle_selection(self) -> (r: Self)
        ensures
            r == (SelectionPattern { behavior: SelectionBehavior::Toggle, ..self }),
    {
        SelectionPattern { behavior: SelectionBehavior::Toggle, ..self }
    }

    /// Configures the unselected state.
    pub fn unselected(self) -> (r: Self)
        ensures
            r == (SelectionPattern { state: SelectionState::Unselected, ..self }),
    {
        SelectionPattern { state: SelectionState::Unselected, ..self }
    }

    /// Configures the selected state.
    pub fn selected(self) -> (r: Self)
        ensures
            r == (SelectionPattern { state: SelectionState::Selected, ..self }),
    {
        SelectionPattern { state: SelectionState::Selected, ..self }
    }

    /// Configures the partially selected state.
    pub fn partially_selected(self) -> (r: Self)
        ensures
            r == (SelectionPattern { state: SelectionState::PartiallySelected, ..self }),
    {
        SelectionPattern { state: SelectionState::PartiallySelected, ..self }
    }

    /// Configures the disabled state.
    pub fn disabled(self) -> (r: Self)
        ensures
            r == (SelectionPattern { state: SelectionState::Disabled, ..self }),
    {
        SelectionPattern { state: SelectionState::Disabled, ..self }
    }

    /// Configures the button display.
    pub fn button_display(self) -> (r: Self)
        ensures
            r == (SelectionPattern { display: SelectionDisplay::Button, ..self }),
    {
        SelectionPattern { display: SelectionDisplay::Button, ..self }
    }

    /// Configures the chip display.
    pub fn chip_display(self) -> (r: Self)
        ensures
            r == (SelectionPattern { display: SelectionDisplay::Chip, ..self }),
    {
        SelectionPattern { display: SelectionDisplay::Chip, ..self }
    }

    /// Configures the list item display.
    pub fn list_item_display(self) -> (r: Self)
        ensures
            r == (SelectionPattern { display: SelectionDisplay::ListItem, ..self }),
    {
        SelectionPattern { display: SelectionDisplay::ListItem, ..self }
    }

    /// Configures the card display.
    pub fn card_display(self) -> (r: Self)
        ensures
            r == (SelectionPattern { display: SelectionDisplay::Card, ..self }),
    {
        SelectionPattern { display: SelectionDisplay::Card, ..self }
    }

    /// Configures the tab display.
    pub fn tab_display(self) -> (r: Self)
        ensures
            r == (SelectionPattern { display: SelectionDisplay::Tab, ..self }),
    {
        SelectionPattern { display: SelectionDisplay::Tab, ..self }
    }

    /// Configures the horizontal layout.
    pub fn horizontal_layout(self) -> (r: Self)
        ensures
            r == (SelectionPattern { layout: SelectionLayout::Horizontal, ..self }),
    {
        SelectionPattern { layout: SelectionLayout::Horizontal, ..self }
    }

    /// Configures the vertical layout.
    pub fn vertical_layout(self) -> (r: Self)
        ensures
            r == (SelectionPattern { layout: SelectionLayout::Vertical, ..self }),
    {
        SelectionPattern { layout: SelectionLayout::Vertical, ..self }
    }

    /// Configures the grid layout.
    pub fn grid_layout(self) -> (r: Self)
        ensures
            r == (SelectionPattern { layout: SelectionLayout::Grid, ..self }),
    {
        SelectionPattern { layout: SelectionLayout::Grid, ..self }
    }

    /// Configures the dropdown layout.
    pub fn dropdown_layout(self) -> (r: Self)
        ensures
            r == (SelectionPattern { layout: SelectionLayout::Dropdown, ..self }),
    {
        SelectionPattern { layout: SelectionLayout::Dropdown, ..self }
    }

    /// Configures the inline layout.
    pub fn inline_layout(self) -> (r: Self)
        ensures
            r == (SelectionPattern { layout: SelectionLayout::Inline, ..self }),
    {
        SelectionPattern { layout: SelectionLayout::Inline, ..self }
    }

    /// Configures the extra-small size.
    pub fn xs(self) -> (r: Self)
        ensures
            r == (SelectionPattern { size: SelectionSize::XS, ..self }),
    {
        SelectionPattern { size: SelectionSize::XS, ..self }
    }

    /// Configures the small size.
    pub fn sm(self) -> (r: Self)
        ensures
            r == (SelectionPattern { size: SelectionSize::SM, ..self }),
    {
        SelectionPattern { size: SelectionSize::SM, ..self }
    }

    /// Configures the medium size.
    pub fn md(self) -> (r: Self)
        ensures
            r == (SelectionPattern { size: SelectionSize::MD, ..self }),
    {
        SelectionPattern { size: SelectionSize::MD, ..self }
    }

    /// Configures the large size.
    pub fn lg(self) -> (r: Self)
        ensures
            r == (SelectionPattern { size: SelectionSize::LG, ..self }),
    {
        SelectionPattern { size: SelectionSize::LG, ..self }
    }

    /// Configures the extra-large size.
    pub fn xl(self) -> (r: Self)
        ensures
            r == (SelectionPattern { size: SelectionSize::XL, ..self }),
    {
        SelectionPattern { size: SelectionSize::XL, ..self }
    }

    /// Configures the subtle interaction.
    pub fn subtle_interaction(self) -> (r: Self)
        ensures
            r == (SelectionPattern { interaction: SelectionInteraction::Subtle, ..self }),
    {
        SelectionPattern { interaction: SelectionInteraction::Subtle, ..self }
    }

    /// Configures the standard interaction.
    pub fn standard_interaction(self) -> (r: Self)
        ensures
            r == (SelectionPattern { interaction: SelectionInteraction::Standard, ..self }),
    {
        SelectionPattern { interaction: SelectionInteraction::Standard, ..self }
    }

    /// Configures the prominent interaction.
    pub fn prominent_interaction(self) -> (r: Self)
        ensures
            r == (SelectionPattern {
                interaction: SelectionInteraction::Prominent,
                ..self
            }),
    {
        SelectionPattern { interaction: SelectionInteraction::Prominent, ..self }
    }

    /// Shows or hides count badges.
    pub fn with_counts(self, show_counts: bool) -> (r: Self)
        ensures
            r == (SelectionPattern { show_counts, ..self }),
    {
        SelectionPattern { show_counts, ..self }
    }

    /// Shows or hides the clear-all control.
    pub fn with_clear_all(self, show_clear_all: bool) -> (r: Self)
        ensures
            r == (SelectionPattern { show_clear_all, ..self }),
    {
        SelectionPattern { show_clear_all, ..self }
    }

    /// Appends a custom class string.
    pub fn custom(self, classes: &str) -> (r: Self)
        ensures
            r == (SelectionPattern { custom_classes: r.custom_classes, ..self }),
            views(r.custom_classes@) == views(self.custom_classes@).push(classes@),
    {
        let mut c = self;
        let owned = classes.to_owned();
        c.custom_classes.push(owned);
        proof {
            assert(views(c.custom_classes@) =~= views(self.custom_classes@).push(classes@));
        }
        c
    }

    /// Builds the normalized container class string for the group.
    pub fn container_classes(self) -> (r: String)
        ensures
            r@ == selection_container_spec(self.layout, self.size, views(self.custom_classes@)),
    {
        selection_container_build(self.layout, self.size, &self.custom_classes, &self.color_provider)
    }

    /// Builds the normalized item class string for one item.
    pub fn item_classes(&self) -> (r: String)
        ensures
            r@ == selection_item_spec(
                self.display,
                self.size,
                self.state,
                self.interaction,
                self.color_provider.spec_palette(),
            ),
    {
        selection_item_build(
            self.display,
            self.size,
            self.state,
            self.interaction,
            &self.color_provider,
        )
    }

    /// The count badge classes; empty when counts are not shown.
    pub fn count_classes(&self) -> (r: String)
        ensures
            r@ == selection_count_view(
                self.show_counts,
                self.state,
                self.color_provider.spec_palette(),
            ),
    {
        selection_count_string(&self.color_provider, self.show_counts, self.state)
    }

    /// A snapshot of the semantic configuration of this selection.
    pub fn semantic_info(&self) -> (r: SelectionSemanticInfo)
        ensures
            r.behavior == self.behavior,
            r.state == self.state,
            r.display == self.display,
            r.layout == self.layout,
            r.size == self.size,
            r.interaction == self.interaction,
            r.allows_multiple == (self.behavior == SelectionBehavior::Multiple
                || self.behavior == SelectionBehavior::Toggle),
            r.is_interactive == (self.behavior != SelectionBehavior::DisplayOnly
                && self.state != SelectionState::Disabled),
            r.has_counts == self.show_counts,
            r.has_clear_all == self.show_clear_all,
    {
        SelectionSemanticInfo {
            behavior: self.behavior,
            state: self.state,
            display: self.display,
            layout: self.layout,
            size: self.size,
            interaction: self.interaction,
            allows_multiple: matches!(
                self.behavior,
                SelectionBehavior::Multiple | SelectionBehavior::Toggle
            ),
            is_interactive: !matches!(self.behavior, SelectionBehavior::DisplayOnly) && !matches!(
                self.state,
                SelectionState::Disabled
            ),
            has_counts: self.show_counts,
            has_clear_all: self.show_clear_all,
        }
    }
}

/// Creates a filter selection pattern: single selection, button display.
pub fn filter_selection<C: ColorProvider>(color_provider: C) -> (r: SelectionPattern<C>)
    ensures
        r.behavior == SelectionBehavior::Single,
        r.display == SelectionDisplay::Button,
        r.layout == SelectionLayout::Horizontal,
        r.interaction == SelectionInteraction::Standard,
        r.show_counts,
        r.state == SelectionState::Unselected,
        r.size == SelectionSize::MD,
        !r.show_clear_all,
        r.custom_classes@.len() == 0,
        r.color_provider == color_provider,
{
    SelectionPattern::new(
        color_provider,
    ).single_selection().button_display().horizontal_layout().standard_interaction().with_counts(
        true,
    )
}

/// Creates a chip selection pattern: multiple selection, chip display.
pub fn chip_selection<C: ColorProvider>(color_provider: C) -> (r: SelectionPattern<C>)
    ensures
        r.behavior == SelectionBehavior::Multiple,
        r.display == SelectionDisplay::Chip,
        r.layout == SelectionLayout::Inline,
        r.interaction == SelectionInteraction::Subtle,
        r.show_clear_all,
        r.state == SelectionState::Unselected,
        r.size == SelectionSize::MD,
        !r.show_counts,
        r.custom_classes@.len() == 0,
        r.color_provider == color_provider,
{
    SelectionPattern::new(
        color_provider,
    ).multiple_selection().chip_display().inline_layout().subtle_interaction().with_clear_all(true)
}

/// Creates a tab selection pattern: single selection, tab display.
pub fn tab_selection<C: ColorProvider>(color_provider: C) -> (r: SelectionPattern<C>)
    ensures
        r.behavior == SelectionBehavior::Single,
        r.display == SelectionDisplay::Tab,
        r.layout == SelectionLayout::Horizontal,
        r.interaction == SelectionInteraction::Standard,
        r.state == SelectionState::Unselected,
        r.size == SelectionSize::MD,
        !r.show_counts,
        !r.show_clear_all,
        r.custom_classes@.len() == 0,
        r.color_provider == color_provider,
{
    SelectionPattern::new(
        color_provider,
    ).single_selection().tab_display().horizontal_layout().standard_interaction()
}

/// Creates a list selection pattern: multiple selection, list item display.
pub fn list_selection<C: ColorProvider>(color_provider: C) -> (r: SelectionPattern<C>)
    ensures
        r.behavior == SelectionBehavior::Multiple,
        r.display == SelectionDisplay::ListItem,
        r.layout == SelectionLayout::Vertical,
        r.interaction == SelectionInteraction::Standard,
        r.show_counts,
        r.state == SelectionState::Unselected,
        r.size == SelectionSize::MD,
        !r.show_clear_all,
        r.custom_classes@.len() == 0,
        r.color_provider == color_provider,
{
    SelectionPattern::new(
        color_provider,
    ).multiple_selection().list_item_display().vertical_layout().standard_interaction().with_counts(
        true,
    )
}

/// Creates a card selection pattern: single selection, card display.
pub fn card_selection<C: ColorProvider>(color_provider: C) -> (r: SelectionPattern<C>)
    ensures
        r.behavior == SelectionBehavior::Single,
        r.display == SelectionDisplay::Card,
        r.layout == SelectionLayout::Grid,
        r.interaction == SelectionInteraction::Prominent,
        r.state == SelectionState::Unselected,
        r.size == SelectionSize::MD,
        !r.show_counts,
        !r.show_clear_all,
        r.custom_classes@.len() == 0,
        r.color_provider == color_provider,
{
    SelectionPattern::new(
        color_provider,
    ).single_selection().card_display().grid_layout().prominent_interaction()
}

} // verus!
