//! The single recoverable failure this layer reports.

use vstd::prelude::*;

verus! {

/// Opaque connection-failure marker.
///
/// The layer keeps recoverable errors deliberately coarse: a companion
/// connection either yields a descriptor or this single marker, whether the
/// slot was absent, the host refused, or process confinement forbade the
/// call.  Callers branch on it explicitly; nothing finer is promised.
#[derive(Clone, Copy, PartialEq, Eq, Structural, Debug)]
pub struct ZygiskError;

impl ZygiskError {
    /// A short description of the failure, for diagnostics outside this crate.
    pub fn message(&self) -> (r: &'static str) {
        "companion connection failed"
    }
}

} // verus!
