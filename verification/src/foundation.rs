//! Core design-system primitives: colors, sizing, spacing and typography.

pub mod color;
pub mod sizing;
pub mod spacing;
pub mod typography;

pub use color::{Color, ColorPalette, ColorProvider};
pub use sizing::{Breakpoint, Size, SizeProvider};
pub use spacing::{Spacing, SpacingProvider};
pub use typography::{FontFamily, FontWeight, Typography, TypographyProvider};
