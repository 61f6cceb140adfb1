//! Verified core of the terminal UI: alt-screen mouse forwarding, the
//! single-line editor's decisions and the shared editor keybinding table.

pub mod geometry;
pub mod mouse;
pub mod alt_screen;
pub mod keybindings;
pub mod editor;
