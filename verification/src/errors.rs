//! The error vocabulary: initialization can find a logger already
//! installed or fail to construct the collector client; a single
//! forwarding attempt can fail with a send error.

use vstd::prelude::*;

verus! {

/// Why initialization failed.
#[derive(Clone, Copy, Debug, PartialEq, Eq, Structural)]
pub enum InitError {
    /// A process-wide logger was already installed; not retryable.
    AlreadyInitialized,
    /// The event-collector client could not be constructed; surfaced at
    /// initialization, never deferred to the first record.
    CollectorConstruction,
}

/// A single best-effort forwarding attempt failed or timed out; the
/// attempt is never retried and never stops the console write.
#[derive(Clone, Copy, Debug, PartialEq, Eq, Structural)]
pub struct SendError;

} // verus!
