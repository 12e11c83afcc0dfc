//! The ways a capture can fail.

use vstd::prelude::*;

verus! {

/// Why a capture did not produce a bitmap.
#[derive(Clone, Copy, Debug, PartialEq, Eq, Structural)]
pub enum CaptureError {
    /// The windowing system or the framebuffer device cannot be reached.
    ConnectionError,
    /// The compositing extension that capture needs is missing.
    UnsupportedExtension,
    /// A malformed or nonexistent window, or a target the backend cannot serve.
    InvalidTarget,
    /// A native resource could not be created, composited or fetched.
    CaptureFailure,
}

} // verus!
