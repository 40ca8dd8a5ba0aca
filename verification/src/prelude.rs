//! Common imports for everyday usage.

pub use crate::builders::button::{button_classes_from_strings, button_styles, ButtonState,
    ButtonStyles, ButtonVariant};
pub use crate::builders::card::{card_classes_from_strings, card_styles, CardStyles};
pub use crate::builders::text::{text_classes_from_strings, text_styles, TextStyles};
pub use crate::foundation::color::{Color, ColorPalette, ColorProvider, VibeColors};
pub use crate::foundation::sizing::{Breakpoint, Size};
pub use crate::foundation::spacing::Spacing;
pub use crate::foundation::typography::Typography;
pub use crate::patterns::actions::{action_semantics, ActionIntent, ActionSemantics};
pub use crate::patterns::button::{destructive_button, hero_button, primary_button,
    secondary_button, ButtonPattern};
pub use crate::patterns::card::{card_pattern, CardElevation, CardInteraction, CardPattern,
    CardSpacing, CardSurface};
pub use crate::patterns::focus::{focus_management, FocusManagement};
pub use crate::patterns::interactions::{interactive_element, InteractiveElement,
    InteractiveState};
pub use crate::patterns::typography::{body_typography, caption_typography, code_typography,
    heading_typography, title_typography, typography_pattern, TypographyAlignment,
    TypographyColor, TypographyHierarchy, TypographyOverflow, TypographyPattern, TypographySize,
    TypographyWeight};
pub use crate::themes::{Theme, VibeTheme};
pub use crate::utils::DesignSystem;
