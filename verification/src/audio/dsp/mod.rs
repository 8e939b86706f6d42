//! DSP stages, as far as they are arithmetic on whole numbers.

pub mod convolver;
pub mod dsd_processor;
pub mod resampler;

pub use convolver::Convolver;
pub use dsd_processor::{DsdProcessor, DsdRate};
pub use resampler::{Resampler, ResamplerQuality};
