//! The error taxonomy of the host core.
//!
//! Load and lifecycle failures are returned to the caller as typed values and
//! never panic; a full bridge is reported so the control thread can retry on a
//! later tick; a processing fault is non-fatal and confined to one callback
//! period.

use vstd::prelude::*;
use crate::lifecycle::{LifecycleState, TransitionKind};

verus! {

/// Why loading a plugin bundle failed. Every failure is recoverable: the
/// caller may retry with another path, and no partial plugin state is left
/// behind.
#[derive(Clone, Copy, Debug, PartialEq, Eq, Structural)]
pub enum LoadError {
    /// No bundle exists at the given path, or it could not be opened.
    BundleNotFound,
    /// The bundle opened, but its factory exposes no plugin entry.
    NoPluginInFactory,
    /// The first plugin entry refused to instantiate against this host.
    InstantiationRejected,
}

/// A lifecycle request that could not be honoured. The plugin's state is
/// left exactly as it was.
#[derive(Clone, Copy, Debug, PartialEq, Eq, Structural)]
pub enum LifecycleError {
    /// The transition is not defined from the current state.
    InvalidTransition { from: LifecycleState, attempted: TransitionKind },
    /// The underlying plugin rejected activation; the plugin stays in the
    /// state it was in (`Loaded` or `Deactivated`), never half-activated.
    ActivationFailed,
}

/// A failure of the control-to-audio bridge.
#[derive(Clone, Copy, Debug, PartialEq, Eq, Structural)]
pub enum BridgeError {
    /// The bounded queue had no free slot. Lifecycle transitions are rare
    /// relative to audio callbacks, so the caller simply retries later.
    Full,
}

/// One non-fatal failure of the plugin's processing call during a single
/// callback period. The period's audio degrades; the callback never panics.
#[derive(Clone, Copy, Debug, PartialEq, Eq, Structural)]
pub struct ProcessingFault;

/// Everything a lifecycle transition can report: either the transition was
/// rejected, or the bridge could not carry the hand-off message.
#[derive(Clone, Copy, Debug, PartialEq, Eq, Structural)]
pub enum HostError {
    Lifecycle(LifecycleError),
    Bridge(BridgeError),
}

} // verus!
