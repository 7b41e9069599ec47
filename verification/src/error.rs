//! The two ways in which a call over the bridge fails.

use vstd::prelude::*;

use crate::carrier::Field;

verus! {

/// Why a proving or verifying call did not complete.
///
/// A proof that is well formed but does not hold is no failure: verifying it
/// completes with `false`.
#[derive(Clone, Copy, Debug, PartialEq, Eq, Structural)]
pub enum BridgeError {
    /// The named field could not be moved across the boundary: it is absent
    /// on the carrier, or it was accessed as the wrong kind of value.
    Marshal(Field),
    /// The proof engine rejected the request or failed while working on it.
    Engine,
}

/// The proof engine's report that it could not serve a request. The engine's
/// own diagnostics do not cross the bridge.
#[derive(Clone, Copy, Debug, PartialEq, Eq, Structural)]
pub struct EngineFailure {}

} // verus!
