//! Verified core of a set of plugins for building terminal applications with Bevy and Ratatui.
//!
//! The library decides which plugins a terminal application is made of, guards the terminal so
//! that only one context owns it at a time, and copies software-rendered frames into window
//! images. The Bevy and Ratatui glue that performs these decisions lives around it.

pub mod crossterm_context;
pub mod features;
pub mod ratatui_plugin;
pub mod windowed_context;

pub use crossterm_context::CrosstermPlugin;
pub use features::Features;
pub use ratatui_plugin::{GroupMember, RatatuiPlugins};
