//! Verified core of the roster-manager scene: terminal-cell geometry, the
//! carousel/selection state machine, the prompt-editor popup's focus and
//! write-debounce state, and the diagnostics text mapping.

mod geometry;
pub mod text;
pub mod diagnostics;
pub mod scene;
pub mod popup;
pub mod layout;
pub mod dots;
pub mod stats;
pub mod dot_row;
pub mod details;
pub mod hydration;

pub use geometry::{Position, Rect};
