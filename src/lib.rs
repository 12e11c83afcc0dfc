//! Screen capture: pixel-format decoding, target resolution, and the
//! capture backends' verified logic.

pub mod format;
pub mod image;
pub mod error;
pub mod fb;
pub mod target;
pub mod xlib;
pub mod laws;
