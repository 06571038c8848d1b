//! Handles for draw bundles and for the acquired surface image.

use vstd::prelude::*;

verus! {

/// A non-owning handle to a precompiled, immutable batch of GPU draw
/// commands. Upstream systems (geometry batching, lighting, post-processing)
/// compile their bundles and register them with the application, which hands
/// out slot handles; the frame only records which bundles replay, and in what
/// order. `PassThrough` names the default display filter's bundle, which the
/// application keeps precompiled.
#[derive(Clone, Copy, Debug, PartialEq, Eq, Structural)]
pub enum BundleRef {
    /// A bundle registered by an upstream system, addressed by its slot.
    External { slot: u64 },
    /// The default pass-through display filter bundle.
    PassThrough,
}

/// A handle to one acquired presentable surface image. The application
/// obtains it from the presentation surface and releases it by presenting;
/// the frame carries it so that the plan presents the image it was built for.
#[derive(Clone, Copy, Debug, PartialEq, Eq, Structural)]
pub struct SurfaceImage {
    pub id: u64,
}

} // verus!
