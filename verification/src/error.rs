//! The errors of the runtime.

use vstd::prelude::*;

verus! {

/// What the runtime reports when it refuses or fails an operation.
#[derive(Clone, Copy, Debug, PartialEq, Eq, Structural)]
pub enum PluginError {
    /// The manifest does not grant the capability that the operation needs.
    PermissionDenied,
    /// The operation does not fit the state of the instance's life cycle.
    LifecycleViolation,
    /// The host reported that it could not perform the operation.
    HostCallFailed,
}

/// The result of a plugin operation.
pub type PluginResult<T> = Result<T, PluginError>;

} // verus!
