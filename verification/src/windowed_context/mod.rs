//! Rendering the terminal into a window instead of a terminal buffer.

pub mod plugin;
