//! Processing statistics of the audio worker.
//!
//! The counters wrap in unsigned arithmetic, as free-running counters do.

use crate::error::{AudioError, VortexError};
use crate::lockfree::{is_power_of_two, power_of_two};
use crate::ratio::Ratio;
use vstd::arithmetic::div_mod::lemma_div_denominator;
use vstd::prelude::*;
use vstd::string::StringExecFns;

verus! {

/// A snapshot of the counters of an `AudioProcessor`.
#[derive(Debug, Clone, Copy, PartialEq, Eq, Structural)]
pub struct ProcessingStats {
    pub samples_processed: u64,
    pub buffer_underruns: usize,
    pub buffer_overruns: usize,
    /// Sum of the recorded latencies over their number, in microseconds.
    pub average_latency_us: Ratio,
    pub peak_latency_us: u64,
    /// Average latency as a share of the time that a block lasts, in percent,
    /// in steps of a thousandth and no more than 100.
    pub cpu_usage_percent: Ratio,
}

impl Default for ProcessingStats {
    fn default() -> (stats: Self)
        ensures
            stats == ProcessingStats::zero(),
    {
        ProcessingStats {
            samples_processed: 0,
            buffer_underruns: 0,
            buffer_overruns: 0,
            average_latency_us: Ratio { numerator: 0, denominator: 1 },
            peak_latency_us: 0,
            cpu_usage_percent: Ratio { numerator: 0, denominator: 1000 },
        }
    }
}

impl ProcessingStats {
    /// The statistics of a processor that has recorded nothing.
    pub open spec fn zero() -> ProcessingStats {
        ProcessingStats {
            samples_processed: 0,
            buffer_underruns: 0,
            buffer_overruns: 0,
            average_latency_us: Ratio { numerator: 0, denominator: 1 },
            peak_latency_us: 0,
            cpu_usage_percent: Ratio { numerator: 0, denominator: 1000 },
        }
    }
}

/// The format of the stream and the counters of the worker.
pub struct AudioProcessor {
    sample_rate: u32,
    buffer_size: usize,
    channels: u16,
    samples_processed: u64,
    underruns: usize,
    overruns: usize,
    latency_sum_us: u64,
    latency_count: u64,
    peak_latency_us: u64,
}

/// The counters as plain numbers.
pub struct Counters {
    pub samples_processed: u64,
    pub underruns: usize,
    pub overruns: usize,
    pub latency_sum_us: u64,
    pub latency_count: u64,
    pub peak_latency_us: u64,
}

/// Why `AudioProcessor::new` refuses a format, if it does: the first of the
/// three conditions that fails.
pub open spec fn format_fault(sample_rate: u32, buffer_size: usize, channels: u16) -> Option<
    Seq<char>,
> {
    if sample_rate == 0 {
        Some("Sample rate must be > 0"@)
    } else if !is_power_of_two(buffer_size as int) {
        Some("Buffer size must be power of 2"@)
    } else if channels == 0 {
        Some("Channel count must be > 0"@)
    } else {
        None
    }
}

/// Average latency over block duration in thousandths of a percent, capped at
/// 100 percent: the latency sum times the sample rate, over ten times the
/// number of latencies times the block size, rounded down.
pub open spec fn cpu_usage_milli_percent(
    latency_sum_us: int,
    latency_count: int,
    sample_rate: int,
    buffer_size: int,
) -> int {
    if latency_count == 0 {
        0
    } else {
        let exact = (latency_sum_us * sample_rate) / (latency_count * buffer_size * 10);
        if exact > 100_000 {
            100_000
        } else {
            exact
        }
    }
}

impl AudioProcessor {
    pub closed spec fn spec_sample_rate(&self) -> u32 {
        self.sample_rate
    }

    pub closed spec fn spec_buffer_size(&self) -> usize {
        self.buffer_size
    }

    pub closed spec fn spec_channels(&self) -> u16 {
        self.channels
    }

    pub closed spec fn counters(&self) -> Counters {
        Counters {
            samples_processed: self.samples_processed,
            underruns: self.underruns,
            overruns: self.overruns,
            latency_sum_us: self.latency_sum_us,
            latency_count: self.latency_count,
            peak_latency_us: self.peak_latency_us,
        }
    }

    /// The format is one that `new` accepts.
    pub open spec fn wf(&self) -> bool {
        format_fault(self.spec_sample_rate(), self.spec_buffer_size(), self.spec_channels())
            is None
    }

    /// A processor for blocks of `buffer_size` frames of `channels` channels
    /// at `sample_rate`, with all counters at 0. The sample rate and the
    /// channel count must be positive and the block size a power of two.
    pub fn new(sample_rate: u32, buffer_size: usize, channels: u16) -> (r: Result<
        Self,
        VortexError,
    >)
        ensures
            match format_fault(sample_rate, buffer_size, channels) {
                None => r matches Ok(p) && p.wf() && p.spec_sample_rate() == sample_rate
                    && p.spec_buffer_size() == buffer_size && p.spec_channels() == channels
                    && p.counters() == (Counters {
                    samples_processed: 0,
                    underruns: 0,
                    overruns: 0,
                    latency_sum_us: 0,
                    latency_count: 0,
                    peak_latency_us: 0,
                }),
                Some(fault) => r matches Err(VortexError::Audio(AudioError::InvalidConfig { reason }))
                    && reason@ == fault,
            },
    {
        if sample_rate == 0 {
            return Err(
                VortexError::Audio(
                    AudioError::InvalidConfig {
                        reason: String::from_str("Sample rate must be > 0"),
                    },
                ),
            );
        }
        if !power_of_two(buffer_size) {
            return Err(
                VortexError::Audio(
                    AudioError::InvalidConfig {
                        reason: String::from_str("Buffer size must be power of 2"),
                    },
                ),
            );
        }
        if channels == 0 {
            return Err(
                VortexError::Audio(
                    AudioError::InvalidConfig {
                        reason: String::from_str("Channel count must be > 0"),
                    },
                ),
            );
        }
        Ok(
            AudioProcessor {
                sample_rate,
                buffer_size,
                channels,
                samples_processed: 0,
                underruns: 0,
                overruns: 0,
                latency_sum_us: 0,
                latency_count: 0,
                peak_latency_us: 0,
            },
        )
    }

    /// Counts `samples` more processed samples.
    pub fn update_stats(&mut self, samples: usize)
        ensures
            final(self).spec_sample_rate() == old(self).spec_sample_rate(),
            final(self).spec_buffer_size() == old(self).spec_buffer_size(),
            final(self).spec_channels() == old(self).spec_channels(),
            final(self).counters() == (Counters {
                samples_processed: vstd::wrapping::u64_specs::wrapping_add(
                    old(self).counters().samples_processed,
                    samples as u64,
                ),
                ..old(self).counters()
            }),
    {
        self.samples_processed = self.samples_processed.wrapping_add(samples as u64);
    }

    /// Counts one block for which the input had nothing.
    pub fn record_underrun(&mut self)
        ensures
            final(self).spec_sample_rate() == old(self).spec_sample_rate(),
            final(self).spec_buffer_size() == old(self).spec_buffer_size(),
            final(self).spec_channels() == old(self).spec_channels(),
            final(self).counters() == (Counters {
                underruns: vstd::wrapping::usize_specs::wrapping_add(
                    old(self).counters().underruns,
                    1,
                ),
                ..old(self).counters()
            }),
    {
        self.underruns = self.underruns.wrapping_add(1);
    }

    /// Counts one block that the output did not take whole.
    pub fn record_overrun(&mut self)
        ensures
            final(self).spec_sample_rate() == old(self).spec_sample_rate(),
            final(self).spec_buffer_size() == old(self).spec_buffer_size(),
            final(self).spec_channels() == old(self).spec_channels(),
            final(self).counters() == (Counters {
                overruns: vstd::wrapping::usize_specs::wrapping_add(old(self).counters().overruns, 1),
                ..old(self).counters()
            }),
    {
        self.overruns = self.overruns.wrapping_add(1);
    }

    /// Records that a block took `latency_us` microseconds: the sum and the
    /// number of latencies grow, and the peak rises to `latency_us` if it was below.
    pub fn record_latency(&mut self, latency_us: u64)
        ensures
            final(self).spec_sample_rate() == old(self).spec_sample_rate(),
            final(self).spec_buffer_size() == old(self).spec_buffer_size(),
            final(self).spec_channels() == old(self).spec_channels(),
            final(self).counters() == (Counters {
                latency_sum_us: vstd::wrapping::u64_specs::wrapping_add(
                    old(self).counters().latency_sum_us,
                    latency_us,
                ),
                latency_count: vstd::wrapping::u64_specs::wrapping_add(
                    old(self).counters().latency_count,
                    1,
                ),
                peak_latency_us: if latency_us > old(self).counters().peak_latency_us {
                    latency_us
                } else {
                    old(self).counters().peak_latency_us
                },
                ..old(self).counters()
            }),
    {
        self.latency_sum_us = self.latency_sum_us.wrapping_add(latency_us);
        self.latency_count = self.latency_count.wrapping_add(1);
        if latency_us > self.peak_latency_us {
            self.peak_latency_us = latency_us;
        }
    }

    /// A snapshot of the counters, with the average latency and the load
    /// derived from them.
    pub fn get_stats(&self) -> (stats: ProcessingStats)
        requires
            self.wf(),
        ensures
            stats.samples_processed == self.counters().samples_processed,
            stats.buffer_underruns == self.counters().underruns,
            stats.buffer_overruns == self.counters().overruns,
            stats.peak_latency_us == self.counters().peak_latency_us,
            stats.average_latency_us == if self.counters().latency_count == 0 {
                Ratio { numerator: 0, denominator: 1 }
            } else {
                Ratio {
                    numerator: self.counters().latency_sum_us as u128,
                    denominator: self.counters().latency_count as u128,
                }
            },
            stats.cpu_usage_percent.denominator == 1000,
            stats.cpu_usage_percent.numerator == cpu_usage_milli_percent(
                self.counters().latency_sum_us as int,
                self.counters().latency_count as int,
                self.spec_sample_rate() as int,
                self.spec_buffer_size() as int,
            ),
    {
        let average = if self.latency_count > 0 {
            Ratio {
                numerator: self.latency_sum_us as u128,
                denominator: self.latency_count as u128,
            }
        } else {
            Ratio { numerator: 0, denominator: 1 }
        };
        let milli: u128 = if self.latency_count > 0 {
            proof {
                assert(!is_power_of_two(0)) by {
                    assert forall|e: nat| 0 != vstd::arithmetic::power2::pow2(e) by {
                        vstd::arithmetic::power2::lemma_pow2_pos(e);
                    }
                }
                let s = self.latency_sum_us as int;
                let r = self.sample_rate as int;
                let c = self.latency_count as int;
                let b = self.buffer_size as int;
                assert(0 <= s * r <= 0xffff_ffff_ffff_ffff * 0xffff_ffff) by (nonlinear_arith)
                    requires
                        0 <= s <= 0xffff_ffff_ffff_ffff,
                        0 <= r <= 0xffff_ffff,
                ;
                lemma_div_denominator(s * r, c, b);
                lemma_div_denominator(s * r, c * b, 10);
            }
            let work: u128 = (self.latency_sum_us as u128) * (self.sample_rate as u128);
            let exact = ((work / (self.latency_count as u128)) / (self.buffer_size as u128)) / 10;
            if exact > 100_000 {
                100_000
            } else {
                exact
            }
        } else {
            0
        };
        ProcessingStats {
            samples_processed: self.samples_processed,
            buffer_underruns: self.underruns,
            buffer_overruns: self.overruns,
            average_latency_us: average,
            peak_latency_us: self.peak_latency_us,
            cpu_usage_percent: Ratio { numerator: milli, denominator: 1000 },
        }
    }

    /// Sets every counter back to 0.
    pub fn reset_stats(&mut self)
        ensures
            final(self).spec_sample_rate() == old(self).spec_sample_rate(),
            final(self).spec_buffer_size() == old(self).spec_buffer_size(),
            final(self).spec_channels() == old(self).spec_channels(),
            final(self).counters() == (Counters {
                samples_processed: 0,
                underruns: 0,
                overruns: 0,
                latency_sum_us: 0,
                latency_count: 0,
                peak_latency_us: 0,
            }),
    {
        self.samples_processed = 0;
        self.underruns = 0;
        self.overruns = 0;
        self.latency_sum_us = 0;
        self.latency_count = 0;
        self.peak_latency_us = 0;
    }

    pub fn sample_rate(&self) -> (rate: u32)
        ensures
            rate == self.spec_sample_rate(),
    {
        self.sample_rate
    }

    pub fn buffer_size(&self) -> (size: usize)
        ensures
            size == self.spec_buffer_size(),
    {
        self.buffer_size
    }

    pub fn channels(&self) -> (channels: u16)
        ensures
            channels == self.spec_channels(),
    {
        self.channels
    }

    /// Time that one block lasts, in microseconds: a million times the block
    /// size, over the sample rate.
    pub fn buffer_duration_us(&self) -> (duration: Ratio)
        requires
            self.wf(),
        ensures
            duration.numerator == self.spec_buffer_size() * 1_000_000,
            duration.denominator == self.spec_sample_rate(),
            duration.denominator > 0,
    {
        Ratio {
            numerator: (self.buffer_size as u128) * 1_000_000,
            denominator: self.sample_rate as u128,
        }
    }
}

} // verus!
