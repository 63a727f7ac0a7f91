//! Whether the monitor is taking in what arrives, or holding what it has.
//!
//! Pausing stops retention, not just the display: the log evicts oldest-first
//! at its cap, so a monitor that kept retaining while paused would quietly
//! evict the very rows the user paused to read. Traffic that passes during a
//! pause is not recorded.

use vstd::prelude::*;

verus! {

/// Whether arriving events are being taken in. Never persisted: a monitor
/// restored paused would look like a broken launch.
#[derive(Debug, Clone, Copy, PartialEq, Eq, Structural, Hash)]
pub enum CaptureState {
    /// Arriving events are retained, and the visible ones are streamed.
    Running,
    /// Arriving events are discarded; everything already retained is untouched.
    Paused,
}

impl Default for CaptureState {
    /// A monitor that has just started is monitoring.
    fn default() -> (c: Self)
        ensures
            c == CaptureState::Running,
    {
        CaptureState::Running
    }
}

} // verus!
