//! Abstract design patterns: semantic compositions over the same
//! class-string assembly that the builders use.

pub mod actions;
pub mod button;
pub mod card;
pub mod focus;
pub mod interactions;
pub mod layout;
pub mod product;
pub mod selection;
pub mod states;
pub mod typography;
