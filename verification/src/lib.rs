//! Styling utility library: chainable builders that assemble space-separated
//! CSS utility class strings for UI primitives (buttons, cards, text, selection,
//! state and product displays) under a set of named color palettes.
//!
//! Every terminal `classes()` / `build()` call produces a normalized class
//! string: the assembled fragments are split on whitespace, sorted, deduplicated
//! and rejoined with single spaces. The normalization pipeline and the exact
//! token content of each builder's output are specified and verified in full.

pub mod builders;
pub mod classlist;
pub mod foundation;
pub mod patterns;
pub mod prelude;
pub mod themes;
pub mod utils;
