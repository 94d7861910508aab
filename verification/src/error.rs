//! The fatal error tier: programmer or environment errors on which the
//! current call aborts. Tolerated conditions (empty frames, degenerate
//! meshes, missing textures, clipboard failures) never surface here.

use vstd::prelude::*;

verus! {

/// Why an entry point aborted. Every variant is fatal for its call; none is
/// recovered from or retried.
#[derive(Clone, Copy, PartialEq, Eq, Debug)]
pub enum BackendError {
    /// An entry point ran before initialization.
    NotInitialized,
    /// Initialization ran twice.
    AlreadyInitialized,
    /// The swap chain yields no valid output window.
    InvalidWindow,
    /// The render target could not be recreated after a resize.
    TargetCreation,
    /// The GUI produced a paint-callback primitive, which this backend does
    /// not support.
    UnsupportedPaintCallback,
}

} // verus!
