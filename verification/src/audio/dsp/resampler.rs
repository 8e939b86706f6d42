//! Quality presets of the sample-rate converter.

use crate::error::{AudioError, VortexError};
use crate::ratio::Ratio;
use vstd::prelude::*;
use vstd::string::StringExecFns;

verus! {

/// Quality preset: the length of the polyphase filter and the stopband
/// attenuation that it aims at.
#[derive(Debug, Clone, Copy, PartialEq, Eq, Structural)]
pub enum ResamplerQuality {
    Draft,
    Standard,
    High,
    Maximum,
}

impl ResamplerQuality {
    /// Taps of the filter: 16, 64, 256 or 1024.
    pub open spec fn spec_filter_length(&self) -> nat {
        match self {
            ResamplerQuality::Draft => 16,
            ResamplerQuality::Standard => 64,
            ResamplerQuality::High => 256,
            ResamplerQuality::Maximum => 1024,
        }
    }

    /// Stopband attenuation aimed at, in dB: 60, 96, 120 or 150.
    pub open spec fn spec_stopband_db(&self) -> nat {
        match self {
            ResamplerQuality::Draft => 60,
            ResamplerQuality::Standard => 96,
            ResamplerQuality::High => 120,
            ResamplerQuality::Maximum => 150,
        }
    }

    pub fn filter_length(&self) -> (taps: usize)
        ensures
            taps == self.spec_filter_length(),
    {
        match self {
            ResamplerQuality::Draft => 16,
            ResamplerQuality::Standard => 64,
            ResamplerQuality::High => 256,
            ResamplerQuality::Maximum => 1024,
        }
    }

    pub fn stopband_db(&self) -> (db: u32)
        ensures
            db == self.spec_stopband_db(),
    {
        match self {
            ResamplerQuality::Draft => 60,
            ResamplerQuality::Standard => 96,
            ResamplerQuality::High => 120,
            ResamplerQuality::Maximum => 150,
        }
    }
}

/// The rates and the quality of a sample-rate conversion. The interpolation
/// itself belongs to the sample type and is done where that type is known.
#[derive(Debug, Clone, Copy, PartialEq, Eq, Structural)]
pub struct Resampler {
    input_rate: u32,
    output_rate: u32,
    quality: ResamplerQuality,
}

impl Resampler {
    pub closed spec fn spec_input_rate(&self) -> u32 {
        self.input_rate
    }

    pub closed spec fn spec_output_rate(&self) -> u32 {
        self.output_rate
    }

    pub closed spec fn spec_quality(&self) -> ResamplerQuality {
        self.quality
    }

    /// A conversion from `input_rate` to `output_rate`. A rate of 0 is refused.
    pub fn new(input_rate: u32, output_rate: u32, quality: ResamplerQuality) -> (r: Result<
        Self,
        VortexError,
    >)
        ensures
            input_rate > 0 && output_rate > 0 ==> (r matches Ok(resampler)
                && resampler.spec_input_rate() == input_rate && resampler.spec_output_rate()
                == output_rate && resampler.spec_quality() == quality),
            input_rate == 0 || output_rate == 0 ==> (r matches Err(
                VortexError::Audio(AudioError::InvalidConfig { reason }),
            ) && reason@ == "Sample rates must be > 0"@),
    {
        if input_rate == 0 || output_rate == 0 {
            return Err(
                VortexError::Audio(
                    AudioError::InvalidConfig {
                        reason: String::from_str("Sample rates must be > 0"),
                    },
                ),
            );
        }
        Ok(Resampler { input_rate, output_rate, quality })
    }

    /// Output samples for each input sample: the output rate over the input rate.
    pub fn ratio(&self) -> (ratio: Ratio)
        ensures
            ratio.numerator == self.spec_output_rate(),
            ratio.denominator == self.spec_input_rate(),
    {
        Ratio { numerator: self.output_rate as u128, denominator: self.input_rate as u128 }
    }

    /// Whether the two rates are the same, so that nothing is to be converted.
    pub fn is_identity(&self) -> (same: bool)
        ensures
            same == (self.spec_input_rate() == self.spec_output_rate()),
    {
        self.input_rate == self.output_rate
    }

    pub fn input_rate(&self) -> (rate: u32)
        ensures
            rate == self.spec_input_rate(),
    {
        self.input_rate
    }

    pub fn output_rate(&self) -> (rate: u32)
        ensures
            rate == self.spec_output_rate(),
    {
        self.output_rate
    }

    pub fn quality(&self) -> (quality: ResamplerQuality)
        ensures
            quality == self.spec_quality(),
    {
        self.quality
    }
}

} // verus!
