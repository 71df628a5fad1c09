//! The audio configuration a plugin is activated against.

use vstd::prelude::*;

verus! {

/// The configuration negotiated with the audio device, supplied once per
/// activation. Re-activating with a different configuration requires a full
/// deactivate/activate cycle, so the value is kept and compared as plain
/// data. The sample rate is held in integral hertz; the plugin interface
/// takes it as a floating-point number only at the outermost boundary.
#[derive(Clone, Copy, Debug, PartialEq, Eq, Structural)]
pub struct AudioConfiguration {
    pub sample_rate: u32,
    pub min_frames: u32,
    pub max_frames: u32,
}

impl AudioConfiguration {
    /// A configuration is meaningful when its frame-count range is non-empty.
    pub open spec fn wf(self) -> bool {
        self.min_frames <= self.max_frames
    }
}

} // verus!
