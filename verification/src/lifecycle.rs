//! Names for the plugin lifecycle: the states a loaded plugin moves through
//! and the transitions that may be attempted on it.

use vstd::prelude::*;

verus! {

/// The state of one hosted plugin.
///
/// A plugin is `Loaded` right after its bundle has been opened and its
/// parameters enumerated. Activation allocates the real-time processor
/// (`Activated`); starting processing hands that processor to the audio
/// thread (`Processing`); stopping it relinquishes the processor again
/// (`Stopped`). Deactivation releases the plugin's activation resources
/// (`Deactivated`), and `Unloaded` is terminal.
#[derive(Clone, Copy, Debug, PartialEq, Eq, Structural)]
pub enum LifecycleState {
    Loaded,
    Activated,
    Processing,
    Stopped,
    Deactivated,
    Unloaded,
}

/// The transition that a caller attempted; used to report exactly which
/// request was rejected from which state.
#[derive(Clone, Copy, Debug, PartialEq, Eq, Structural)]
pub enum TransitionKind {
    Activate,
    StartProcessing,
    StopProcessing,
    Deactivate,
    Unload,
}

} // verus!
