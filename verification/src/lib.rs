//! A transparent, click-through overlay that follows another window.
//!
//! The library decides; the host performs. Every operation on the overlay
//! takes what the host has learned from the window system and the graphics
//! device as plain values and answers with the actions the host has to carry
//! out next.

pub mod color;
pub mod error;
pub mod geometry;
pub mod laws;
pub mod overlay;
pub mod protocol;
pub mod surface;
pub mod utils;

pub use error::{ErrorKind, OverlayError};
pub use geometry::Rect;
pub use overlay::{Overlay, OverlayState, Stage};
pub use protocol::{Action, Reply};
pub use surface::BackBuffer;
pub use utils::find_window;
