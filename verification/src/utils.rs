//! Utility entry point for the design system.

use vstd::prelude::*;

verus! {

/// Design system utility handle.
#[derive(Debug, Clone, Copy, PartialEq, Eq, Structural)]
pub struct DesignSystem;

impl DesignSystem {
    /// Creates the design system handle.
    pub fn new() -> (r: Self)
        ensures
            r == DesignSystem,
    {
        DesignSystem
    }
}

impl Default for DesignSystem {
    fn default() -> (r: Self)
        ensures
            r == DesignSystem,
    {
        DesignSystem::new()
    }
}

} // verus!
