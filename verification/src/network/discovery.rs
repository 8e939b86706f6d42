//! What a network device can play.

use vstd::prelude::*;

verus! {

/// Limits and formats of a network device.
#[derive(Debug)]
pub struct DeviceCapabilities {
    pub max_sample_rate: u32,
    pub max_channels: u16,
    pub supported_formats: Vec<String>,
    pub latency_ms: u32,
}

impl DeviceCapabilities {
    /// Whether the device plays `channels` channels at `sample_rate`.
    pub fn supports(&self, sample_rate: u32, channels: u16) -> (ok: bool)
        ensures
            ok == (sample_rate <= self.max_sample_rate && channels <= self.max_channels),
    {
        sample_rate <= self.max_sample_rate && channels <= self.max_channels
    }
}

} // verus!
