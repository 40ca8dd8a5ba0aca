use jupiter_design_system::prelude::{button_styles, VibeTheme};
use jupiter_design_system::themes::Theme;

#[test]
fn test_prelude_imports() {
    // Basic smoke test to ensure prelude exports work
    let theme = VibeTheme::default();
    assert_eq!(theme.name(), "Jupiter");
    let classes = button_styles(jupiter_design_system::prelude::VibeColors::default()).classes();
    assert!(classes.contains("inline-flex"));
}
