//! The handle of a running microphone capture.

use vstd::prelude::*;
use std::sync::Arc;
use std::sync::atomic::AtomicBool;

verus! {

/// A running microphone capture: its sample format and the flag that asks
/// the capture thread to stop (the thread then closes its sample channel).
pub struct MicCapture {
    pub sample_rate: u32,
    pub channels: u16,
    stop: Arc<AtomicBool>,
}

impl View for MicCapture {
    /// The capture's sample rate and channel count.
    type V = (u32, u16);

    closed spec fn view(&self) -> (u32, u16) {
        (self.sample_rate, self.channels)
    }
}

impl MicCapture {
    /// The handle of a capture delivering `channels` interleaved channels at
    /// `sample_rate` Hz, stopped through `stop`.
    pub fn new(sample_rate: u32, channels: u16, stop: Arc<AtomicBool>) -> (r: MicCapture)
        ensures
            r@ == (sample_rate, channels),
    {
        MicCapture { sample_rate, channels, stop }
    }

    /// Asks the capture thread to stop.
    pub fn stop(&self) {
        self.stop.store(true, std::sync::atomic::Ordering::Relaxed);
    }
}

} // verus!
