//! Error taxonomy of the rendering core.

use vstd::prelude::*;

verus! {

/// Errors the rendering core can report.
#[derive(Clone, Copy, Debug, PartialEq, Eq, Structural)]
pub enum RenderError {
    /// The presentation surface could not supply a new image; the caller may
    /// retry on the next tick.
    SurfaceUnavailable,
    /// The image payload could not be parsed in the stated encoding.
    DecodeError,
    /// Submission or presentation failed after the frame was finalized
    /// (surface lost mid-present, device lost). Reported by the executor.
    PresentationLost,
}

} // verus!
