//! Verified decision logic of the rshell terminal client: window sizing, terminal font
//! routing, clipboard results, pane layouts, the visual smoke checkpoints and SSH
//! authentication plans.

pub mod window_size;
pub mod pane_tree;
pub mod terminal_font;
pub mod clipboard;
pub mod smoke_visual;
pub mod smoke_driver;
pub mod smoke_fixtures;
pub mod smoke_matrix;
pub mod auth;
