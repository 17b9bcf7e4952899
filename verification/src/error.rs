//! Error taxonomy of the resource layer.

use vstd::prelude::*;

verus! {

/// Failures found while a resource is described. They are fatal at setup time
/// and never retried.
#[derive(Clone, Copy, Debug, PartialEq, Eq, Structural)]
pub enum ConstructionError {
    /// An image of a layered texture differs in size from the first one.
    DimensionMismatch,
    /// A layered texture was requested from no images at all.
    EmptyInput,
    /// The resources supplied for a bind group do not match its layout's slots.
    SlotArityError,
    /// A format or sampler kind that the neighbouring slots cannot work with.
    UnsupportedFormatCombination,
}

/// Failures of target acquisition that the caller recovers from by
/// reconfiguring the surface and retrying the frame.
#[derive(Clone, Copy, Debug, PartialEq, Eq, Structural)]
pub enum TransientSurfaceError {
    SurfaceLost,
    SurfaceOutdated,
}

/// What can stop a frame before anything is recorded.
#[derive(Clone, Copy, Debug, PartialEq, Eq, Structural)]
pub enum FrameError {
    /// Recoverable: reconfigure the target and retry.
    Transient(TransientSurfaceError),
    /// Unrecoverable here: the owning process has to reinitialize.
    DeviceLost,
}

} // verus!
