//! The default pass-through display filter.

use vstd::prelude::*;

use crate::bundle::BundleRef;

verus! {

/// The fallback post-process filter: a pass-through that copies the lit image
/// to the output target unmodified, with no color grading. It is synthesized
/// lazily during finalize, only when no explicit filter chain was submitted.
/// Stateless beyond its precompiled bundle, so it is safe to construct
/// repeatedly; each construction replays the same pass-through bundle.
#[derive(Clone, Copy, Debug, PartialEq, Eq, Structural)]
pub struct DisplayFilter {}

impl DisplayFilter {
    /// The bundle this filter replays.
    pub open spec fn spec_bundle(&self) -> BundleRef {
        BundleRef::PassThrough
    }

    /// Returns the precompiled pass-through draw bundle of this filter.
    pub fn bundle(&self) -> (r: BundleRef)
        ensures
            r == self.spec_bundle(),
    {
        BundleRef::PassThrough
    }
}

impl Default for DisplayFilter {
    /// Cheap value construction of the pass-through filter.
    fn default() -> (r: Self)
        ensures
            r == (DisplayFilter {}),
    {
        DisplayFilter {}
    }
}

/// Law: constructing the default filter twice yields two independently valid,
/// behaviorally identical filters — any two `DisplayFilter` values are equal
/// and replay the same pass-through bundle.
pub proof fn lemma_default_filter_identical(a: DisplayFilter, b: DisplayFilter)
    ensures
        a == b,
        a.spec_bundle() == b.spec_bundle(),
{
}

} // verus!
