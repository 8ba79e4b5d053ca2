//! Borderless-window chrome: edge-based resize gestures, a press-to-move
//! title strip, and translation of window events into ordered batches of
//! window-manager actions.
//!
//! The gesture engine works on plain integer pixel geometry; the embedding
//! shell converts the host toolkit's events and coordinates at the boundary.

pub mod drag_window;
pub mod geometry;
pub mod menu_theme;
pub mod resize;
pub mod window;
