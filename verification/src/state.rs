//! The player's own record of its state.

use vstd::prelude::*;
use crate::speed::Speed;

verus! {

/// What the player remembers beside the page: one record for the page's
/// lifetime, handed by reference to every action that needs it.
#[derive(Debug, Clone, Copy, PartialEq, Eq)]
pub struct VideoState {
    pub wasm_initialized: bool,
    pub is_muted: bool,
    pub playback_speed: Speed,
}

impl VideoState {
    /// The playback speed is greater than zero.
    pub open spec fn wf(self) -> bool {
        self.playback_speed.positive()
    }

    /// The state at start: not initialized, not muted, normal speed.
    pub fn new() -> (r: VideoState)
        ensures
            r == (VideoState {
                wasm_initialized: false,
                is_muted: false,
                playback_speed: Speed { thousandths: 1000 },
            }),
            r.wf(),
    {
        VideoState { wasm_initialized: false, is_muted: false, playback_speed: Speed::normal() }
    }
}

} // verus!
