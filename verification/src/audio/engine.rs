//! The audio engine: its configuration, its life cycle, and the step that
//! its worker repeats.
//!
//! The engine owns the two rings, the filter chain, the statistics and the
//! slot of the compute backend. It does not own a thread: a host runs
//! `process_block` in a loop and does what the returned action says.

use crate::audio::filters::filter_chain::{chain_after, chain_response, Filter, FilterChain};
use crate::audio::processor::{AudioProcessor, Counters, ProcessingStats};
use crate::error::{AudioError, ConfigError, VortexError, VortexResult};
use crate::gpu::{GpuBackend, GpuProcessor};
use crate::lockfree::{
    admissible, is_next_power_of_two, max_capacity, requested_samples, AudioRingBuffer,
};
use crate::validation::{is_valid_buffer_size, is_valid_sample_rate, ParameterValidator};
use vstd::prelude::*;
use vstd::string::StringExecFns;

verus! {

/// What an engine is made with.
#[derive(Debug)]
pub struct AudioConfig {
    pub sample_rate: u32,
    pub buffer_size: usize,
    pub channels: u16,
    pub enable_gpu: bool,
    pub gpu_backend: Option<String>,
}

impl Clone for AudioConfig {
    fn clone(&self) -> (copy: Self)
        ensures
            copy == *self,
    {
        AudioConfig {
            sample_rate: self.sample_rate,
            buffer_size: self.buffer_size,
            channels: self.channels,
            enable_gpu: self.enable_gpu,
            gpu_backend: match &self.gpu_backend {
                Some(name) => Some(name.clone()),
                None => None,
            },
        }
    }
}

impl Default for AudioConfig {
    /// 48 kHz stereo in blocks of 512 frames, with acceleration wanted and no
    /// backend named.
    fn default() -> (config: Self)
        ensures
            config.sample_rate == 48000,
            config.buffer_size == 512,
            config.channels == 2,
            config.enable_gpu,
            config.gpu_backend is None,
    {
        AudioConfig {
            sample_rate: 48000,
            buffer_size: 512,
            channels: 2,
            enable_gpu: true,
            gpu_backend: None,
        }
    }
}

/// Milliseconds of audio that each ring of an engine holds.
pub const RING_DURATION_MS: usize = 5000;

impl AudioConfig {
    /// The sample rate is one of the eight rates of the core, the block size
    /// a power of two from 64 to 8192, and there is a channel at least.
    pub open spec fn is_valid(&self) -> bool {
        &&& is_valid_sample_rate(self.sample_rate)
        &&& is_valid_buffer_size(self.buffer_size)
        &&& self.channels >= 1
    }

    /// Samples in one block: the block size times the channels.
    pub open spec fn block_samples(&self) -> nat {
        (self.buffer_size * self.channels) as nat
    }

    /// Slots that a ring of five seconds asks for.
    pub open spec fn ring_samples(&self) -> int {
        requested_samples(RING_DURATION_MS as int, self.sample_rate as int, self.channels as int)
    }
}

/// Errors of the engine's life cycle.
#[derive(Debug)]
pub enum AudioEngineError {
    NotInitialized,
    AlreadyRunning,
    ProcessingError(String),
    GpuInitFailed(String),
}

/// Where an engine is in its life.
#[derive(Debug, Clone, Copy, PartialEq, Eq, Structural)]
pub enum EngineState {
    Uninitialized,
    Initialized,
    Running,
}

/// What the worker does after a step.
#[derive(Debug, Clone, Copy, PartialEq, Eq, Structural)]
pub enum WorkerAction {
    /// A block was processed: go on with the next.
    Continue,
    /// The input had nothing: wait a moment, about 100 microseconds, and try again.
    Sleep,
    /// The engine is not running: leave the loop.
    Stop,
}

/// Blocks that the worker keeps between steps, so that a step allocates nothing.
pub struct WorkerScratch<T> {
    input: Vec<T>,
    output: Vec<T>,
    first: Vec<T>,
    second: Vec<T>,
}

impl<T: Copy> WorkerScratch<T> {
    /// Samples that each of the four blocks holds.
    pub closed spec fn spec_len(&self) -> nat {
        self.input@.len()
    }

    /// The four blocks are of one length.
    pub closed spec fn wf(&self) -> bool {
        &&& self.output@.len() == self.input@.len()
        &&& self.first@.len() == self.input@.len()
        &&& self.second@.len() == self.input@.len()
    }

    /// Four blocks of `samples` samples, each of them `fill`.
    pub fn new(samples: usize, fill: T) -> (scratch: Self)
        ensures
            scratch.wf(),
            scratch.spec_len() == samples,
    {
        WorkerScratch {
            input: Self::block(samples, fill),
            output: Self::block(samples, fill),
            first: Self::block(samples, fill),
            second: Self::block(samples, fill),
        }
    }

    fn block(samples: usize, fill: T) -> (v: Vec<T>)
        ensures
            v@.len() == samples,
    {
        let mut v: Vec<T> = Vec::with_capacity(samples);
        let mut i: usize = 0;
        while i < samples
            invariant
                i <= samples,
                v@.len() == i,
            decreases samples - i,
        {
            v.push(fill);
            i += 1;
        }
        v
    }
}

/// The engine.
pub struct AudioEngine<F: Filter, B: GpuBackend> {
    config: AudioConfig,
    processor: Option<AudioProcessor>,
    filter_chain: FilterChain<F>,
    gpu_processor: Option<GpuProcessor<B>>,
    input_buffer: AudioRingBuffer<F::Sample>,
    output_buffer: AudioRingBuffer<F::Sample>,
    running: bool,
}

/// The counters after a step that read `read` samples and got `written` of
/// them into the output.
pub open spec fn counters_after_block(before: Counters, read: nat, written: nat) -> Counters {
    Counters {
        samples_processed: vstd::wrapping::u64_specs::wrapping_add(
            before.samples_processed,
            read as u64,
        ),
        overruns: if written < read {
            vstd::wrapping::usize_specs::wrapping_add(before.overruns, 1)
        } else {
            before.overruns
        },
        ..before
    }
}

impl<F: Filter, B: GpuBackend> AudioEngine<F, B> where F::Sample: Default {
    pub closed spec fn spec_config(&self) -> AudioConfig {
        self.config
    }

    /// The samples that wait in the input ring, oldest first.
    pub closed spec fn spec_input(&self) -> Seq<F::Sample> {
        self.input_buffer@
    }

    /// The samples that wait in the output ring, oldest first.
    pub closed spec fn spec_output(&self) -> Seq<F::Sample> {
        self.output_buffer@
    }

    /// Slots of the output ring.
    pub closed spec fn spec_output_capacity(&self) -> nat {
        self.output_buffer.spec_capacity()
    }

    /// Slots of the input ring.
    pub closed spec fn spec_input_capacity(&self) -> nat {
        self.input_buffer.spec_capacity()
    }

    /// The filters of the chain, in order.
    pub closed spec fn spec_chain(&self) -> Seq<F> {
        self.filter_chain@
    }

    /// The counters of the worker, once the engine is initialized.
    pub closed spec fn spec_counters(&self) -> Option<Counters> {
        match self.processor {
            Some(p) => Some(p.counters()),
            None => None,
        }
    }

    /// Whether a compute backend is installed.
    pub closed spec fn spec_accelerated(&self) -> bool {
        self.gpu_processor is Some
    }

    pub closed spec fn state(&self) -> EngineState {
        if self.running {
            EngineState::Running
        } else if self.processor is Some {
            EngineState::Initialized
        } else {
            EngineState::Uninitialized
        }
    }

    /// The configuration is valid, the rings and the chain are well formed,
    /// and an engine that runs is initialized.
    pub closed spec fn wf(&self) -> bool {
        &&& self.config.is_valid()
        &&& self.input_buffer.wf()
        &&& self.output_buffer.wf()
        &&& self.filter_chain.wf()
        &&& self.filter_chain.spec_max_filters() == 32
        &&& (self.running ==> self.processor is Some)
        &&& (self.processor matches Some(p) ==> p.wf() && p.spec_sample_rate()
            == self.config.sample_rate && p.spec_buffer_size() == self.config.buffer_size
            && p.spec_channels() == self.config.channels)
    }

    /// An engine for `config`, not yet initialized: two empty rings of five
    /// seconds each and an empty chain of at most 32 filters. A configuration
    /// that is not valid is refused, and so is one whose rings would not fit
    /// the address space.
    pub fn new(config: AudioConfig) -> (r: VortexResult<Self>)
        ensures
            config.is_valid() && config.ring_samples() <= max_capacity() ==> (r matches Ok(engine)
                && engine.wf() && engine.state() == EngineState::Uninitialized
                && engine.spec_config() == config && engine.spec_input().len() == 0
                && engine.spec_output().len() == 0 && engine.spec_chain().len() == 0
                && !engine.spec_accelerated() && is_next_power_of_two(
                config.ring_samples(),
                engine.spec_input_capacity() as int,
            ) && is_next_power_of_two(
                config.ring_samples(),
                engine.spec_output_capacity() as int,
            )),
            !(config.is_valid() && config.ring_samples() <= max_capacity()) ==> r matches Err(
                VortexError::Config(ConfigError::InvalidValue { .. }),
            ),
    {
        match ParameterValidator::validate_sample_rate(config.sample_rate) {
            Ok(_) => {},
            Err(e) => {
                return Err(e);
            },
        }
        match ParameterValidator::validate_buffer_size(config.buffer_size) {
            Ok(_) => {},
            Err(e) => {
                return Err(e);
            },
        }
        if config.channels == 0 {
            return Err(
                VortexError::Config(
                    ConfigError::InvalidValue {
                        key: String::from_str("channels"),
                        reason: String::from_str("Channel count must be > 0"),
                    },
                ),
            );
        }
        let frames: u128 = ((RING_DURATION_MS as u128) * (config.sample_rate as u128) + 999) / 1000;
        assert(0 < frames * config.channels <= 1_920_000 * 65535) by (nonlinear_arith)
            requires
                0 < frames <= 1_920_000,
                0 < config.channels <= 65535,
        ;
        let samples: u128 = frames * (config.channels as u128);
        assert(samples == config.ring_samples());
        if samples > (usize::MAX / 2 + 1) as u128 {
            return Err(
                VortexError::Config(
                    ConfigError::InvalidValue {
                        key: String::from_str("channels"),
                        reason: String::from_str("Rings exceed the address space"),
                    },
                ),
            );
        }
        let input_buffer = AudioRingBuffer::new(
            RING_DURATION_MS,
            config.sample_rate,
            config.channels as usize,
        );
        let output_buffer = AudioRingBuffer::new(
            RING_DURATION_MS,
            config.sample_rate,
            config.channels as usize,
        );
        Ok(
            AudioEngine {
                config,
                processor: None,
                filter_chain: FilterChain::new(),
                gpu_processor: None,
                input_buffer,
                output_buffer,
                running: false,
            },
        )
    }

    /// Sets up the statistics and, where the configuration wants
    /// acceleration, the compute backend. A backend that does not come up is
    /// no error: the engine goes on without one. The counters start at 0, the
    /// rings and the chain stay as they are.
    pub fn initialize(&mut self) -> (r: VortexResult<()>)
        requires
            old(self).wf(),
        ensures
            final(self).wf(),
            r is Ok,
            final(self).state() == if old(self).state() == EngineState::Running {
                EngineState::Running
            } else {
                EngineState::Initialized
            },
            final(self).spec_counters() == Some(
                Counters {
                    samples_processed: 0,
                    underruns: 0,
                    overruns: 0,
                    latency_sum_us: 0,
                    latency_count: 0,
                    peak_latency_us: 0,
                },
            ),
            !old(self).spec_config().enable_gpu ==> final(self).spec_accelerated() == old(self).spec_accelerated(),
            final(self).spec_config() == old(self).spec_config(),
            final(self).spec_input() == old(self).spec_input(),
            final(self).spec_output() == old(self).spec_output(),
            final(self).spec_chain() == old(self).spec_chain(),
    {
        match AudioProcessor::new(
            self.config.sample_rate,
            self.config.buffer_size,
            self.config.channels,
        ) {
            Ok(processor) => {
                self.processor = Some(processor);
            },
            Err(e) => {
                return Err(e);
            },
        }
        if self.config.enable_gpu {
            match B::initialize() {
                Ok(backend) => {
                    self.gpu_processor = Some(GpuProcessor::with_backend(backend));
                },
                Err(_) => {},
            }
        }
        Ok(())
    }

    /// Marks the engine as running. An engine that runs already refuses, and
    /// so does one that was not initialized; both stay as they are.
    pub fn start_processing(&mut self) -> (r: Result<(), AudioEngineError>)
        requires
            old(self).wf(),
        ensures
            final(self).wf(),
            match old(self).state() {
                EngineState::Running => r matches Err(AudioEngineError::AlreadyRunning)
                    && *final(self) == *old(self),
                EngineState::Uninitialized => r matches Err(AudioEngineError::NotInitialized)
                    && *final(self) == *old(self),
                EngineState::Initialized => r is Ok && final(self).state()
                    == EngineState::Running,
            },
            final(self).spec_config() == old(self).spec_config(),
            final(self).spec_input() == old(self).spec_input(),
            final(self).spec_output() == old(self).spec_output(),
            final(self).spec_chain() == old(self).spec_chain(),
            final(self).spec_counters() == old(self).spec_counters(),
            final(self).spec_accelerated() == old(self).spec_accelerated(),
    {
        if self.running {
            return Err(AudioEngineError::AlreadyRunning);
        }
        if self.processor.is_none() {
            return Err(AudioEngineError::NotInitialized);
        }
        self.running = true;
        Ok(())
    }

    /// Marks the engine as stopped. On an engine that does not run this does nothing.
    pub fn stop_processing(&mut self) -> (r: Result<(), AudioEngineError>)
        requires
            old(self).wf(),
        ensures
            final(self).wf(),
            r is Ok,
            old(self).state() != EngineState::Running ==> *final(self) == *old(self),
            old(self).state() == EngineState::Running ==> final(self).state()
                == EngineState::Initialized,
            final(self).spec_config() == old(self).spec_config(),
            final(self).spec_input() == old(self).spec_input(),
            final(self).spec_output() == old(self).spec_output(),
            final(self).spec_chain() == old(self).spec_chain(),
            final(self).spec_counters() == old(self).spec_counters(),
            final(self).spec_accelerated() == old(self).spec_accelerated(),
    {
        if !self.running {
            return Ok(());
        }
        self.running = false;
        Ok(())
    }

    pub fn is_running(&self) -> (running: bool)
        ensures
            running == (self.state() == EngineState::Running),
    {
        self.running
    }

    /// Appends `filter` to the chain and returns its identifier.
    pub fn add_filter(&mut self, filter: F) -> (id: String)
        requires
            old(self).wf(),
        ensures
            final(self).wf(),
            final(self).spec_chain() == (if old(self).spec_chain().len() >= 32 {
                old(self).spec_chain().drop_first()
            } else {
                old(self).spec_chain()
            }).push(filter),
            id@ == filter.spec_metadata().id@,
            final(self).state() == old(self).state(),
            final(self).spec_config() == old(self).spec_config(),
            final(self).spec_input() == old(self).spec_input(),
            final(self).spec_output() == old(self).spec_output(),
            final(self).spec_counters() == old(self).spec_counters(),
            final(self).spec_accelerated() == old(self).spec_accelerated(),
    {
        self.filter_chain.add_filter(filter)
    }

    /// Removes the filter that `filter_id` names from the chain.
    pub fn remove_filter(&mut self, filter_id: &str) -> (r: VortexResult<()>)
        requires
            old(self).wf(),
        ensures
            final(self).wf(),
            match crate::audio::filters::filter_chain::position_of(
                old(self).spec_chain(),
                filter_id@,
            ) {
                Some(i) => r is Ok && final(self).spec_chain() == old(self).spec_chain().remove(i),
                None => final(self).spec_chain() == old(self).spec_chain() && (r matches Err(
                    VortexError::Audio(AudioError::InvalidConfig { reason }),
                ) && reason@ == "Filter removal failed: Filter not found: "@ + filter_id@),
            },
            final(self).state() == old(self).state(),
            final(self).spec_config() == old(self).spec_config(),
            final(self).spec_input() == old(self).spec_input(),
            final(self).spec_output() == old(self).spec_output(),
            final(self).spec_counters() == old(self).spec_counters(),
            final(self).spec_accelerated() == old(self).spec_accelerated(),
    {
        match self.filter_chain.remove_filter(filter_id) {
            Ok(()) => Ok(()),
            Err(message) => {
                let reason = String::from_str("Filter removal failed: ").concat(message.as_str());
                assert(reason@ =~= "Filter removal failed: Filter not found: "@ + filter_id@) by {
                    reveal_strlit("Filter removal failed: ");
                    reveal_strlit("Filter not found: ");
                    reveal_strlit("Filter removal failed: Filter not found: ");
                }
                Err(VortexError::Audio(AudioError::InvalidConfig { reason }))
            },
        }
    }

    /// Queues as many of `samples` as fit in the input ring, and returns how many.
    pub fn write_input(&mut self, samples: &[F::Sample]) -> (n: usize)
        requires
            old(self).wf(),
        ensures
            final(self).wf(),
            n == admissible(
                old(self).spec_input_capacity(),
                old(self).spec_input().len(),
                samples@.len(),
            ),
            final(self).spec_input() == old(self).spec_input() + samples@.take(n as int),
            final(self).spec_input_capacity() == old(self).spec_input_capacity(),
            final(self).spec_output_capacity() == old(self).spec_output_capacity(),
            final(self).state() == old(self).state(),
            final(self).spec_config() == old(self).spec_config(),
            final(self).spec_output() == old(self).spec_output(),
            final(self).spec_chain() == old(self).spec_chain(),
            final(self).spec_counters() == old(self).spec_counters(),
            final(self).spec_accelerated() == old(self).spec_accelerated(),
    {
        self.input_buffer.write_samples(samples)
    }

    /// Moves the oldest samples of the output ring to the front of `output`,
    /// as many as wait and fit, and returns how many.
    pub fn read_output(&mut self, output: &mut [F::Sample]) -> (n: usize)
        requires
            old(self).wf(),
        ensures
            final(self).wf(),
            n == if old(output)@.len() <= old(self).spec_output().len() {
                old(output)@.len()
            } else {
                old(self).spec_output().len()
            },
            final(output)@ == old(self).spec_output().take(n as int) + old(output)@.skip(n as int),
            final(self).spec_output() == old(self).spec_output().skip(n as int),
            final(self).spec_input_capacity() == old(self).spec_input_capacity(),
            final(self).spec_output_capacity() == old(self).spec_output_capacity(),
            final(self).state() == old(self).state(),
            final(self).spec_config() == old(self).spec_config(),
            final(self).spec_input() == old(self).spec_input(),
            final(self).spec_chain() == old(self).spec_chain(),
            final(self).spec_counters() == old(self).spec_counters(),
            final(self).spec_accelerated() == old(self).spec_accelerated(),
    {
        self.output_buffer.read_samples(output)
    }

    /// The statistics of the worker; those of a processor that has recorded
    /// nothing while the engine is not initialized.
    pub fn get_stats(&self) -> (stats: ProcessingStats)
        requires
            self.wf(),
        ensures
            self.spec_counters() is None ==> stats == ProcessingStats::zero(),
            self.spec_counters() matches Some(c) ==> stats.samples_processed
                == c.samples_processed && stats.buffer_underruns == c.underruns
                && stats.buffer_overruns == c.overruns && stats.peak_latency_us
                == c.peak_latency_us,
    {
        match &self.processor {
            Some(p) => p.get_stats(),
            None => ProcessingStats::default(),
        }
    }

    /// Records that a step took `latency_us` microseconds. An engine that is
    /// not initialized has no statistics and records nothing.
    pub fn record_latency(&mut self, latency_us: u64)
        requires
            old(self).wf(),
        ensures
            final(self).wf(),
            final(self).state() == old(self).state(),
            final(self).spec_config() == old(self).spec_config(),
            final(self).spec_input() == old(self).spec_input(),
            final(self).spec_output() == old(self).spec_output(),
            final(self).spec_chain() == old(self).spec_chain(),
            final(self).spec_accelerated() == old(self).spec_accelerated(),
            match old(self).spec_counters() {
                None => final(self).spec_counters() is None,
                Some(c) => final(self).spec_counters() == Some(
                    Counters {
                        latency_sum_us: vstd::wrapping::u64_specs::wrapping_add(
                            c.latency_sum_us,
                            latency_us,
                        ),
                        latency_count: vstd::wrapping::u64_specs::wrapping_add(c.latency_count, 1),
                        peak_latency_us: if latency_us > c.peak_latency_us {
                            latency_us
                        } else {
                            c.peak_latency_us
                        },
                        ..c
                    },
                ),
            },
    {
        match &mut self.processor {
            Some(p) => p.record_latency(latency_us),
            None => {},
        }
    }

    /// One step of the worker.
    ///
    /// An engine that does not run says `Stop` and changes nothing. One that
    /// runs takes up to a block of samples from the input ring. If there is
    /// none, it counts an underrun and says `Sleep`. Otherwise it runs what
    /// it took through the chain, queues the result in the output ring as far
    /// as it fits, counts an overrun if not all of it did, counts the samples
    /// and says `Continue`.
    pub fn process_block(&mut self, scratch: &mut WorkerScratch<F::Sample>) -> (action:
        WorkerAction)
        requires
            old(self).wf(),
            old(scratch).wf(),
            old(scratch).spec_len() == old(self).spec_config().block_samples(),
        ensures
            final(self).wf(),
            final(scratch).wf(),
            final(scratch).spec_len() == old(scratch).spec_len(),
            final(self).state() == old(self).state(),
            final(self).spec_config() == old(self).spec_config(),
            final(self).spec_accelerated() == old(self).spec_accelerated(),
            final(self).spec_input_capacity() == old(self).spec_input_capacity(),
            final(self).spec_output_capacity() == old(self).spec_output_capacity(),
            final(self).spec_chain().len() == old(self).spec_chain().len(),
            forall|k: int|
                0 <= k < old(self).spec_chain().len() ==> (#[trigger] final(self).spec_chain()[k]).spec_metadata() == old(self).spec_chain()[k].spec_metadata(),
            old(self).state() != EngineState::Running ==> action == WorkerAction::Stop
                && final(self).spec_input() == old(self).spec_input() && final(self).spec_output() == old(self).spec_output() && final(self).spec_counters() == old(self).spec_counters() && final(self).spec_chain() == old(self).spec_chain(),
            old(self).state() == EngineState::Running && old(self).spec_input().len() == 0
                ==> action == WorkerAction::Sleep && final(self).spec_input() == old(self).spec_input() && final(self).spec_output() == old(self).spec_output() && final(self).spec_chain() == old(self).spec_chain() && (final(self).spec_counters() matches Some(
                c,
            ) && c == (Counters {
                underruns: vstd::wrapping::usize_specs::wrapping_add(
                    old(self).spec_counters().unwrap().underruns,
                    1,
                ),
                ..old(self).spec_counters().unwrap()
            })),
            old(self).state() == EngineState::Running && old(self).spec_input().len() > 0 ==> {
                let block = old(self).spec_config().block_samples() as int;
                let read = if old(self).spec_input().len() <= block {
                    old(self).spec_input().len() as int
                } else {
                    block
                };
                let result = chain_response(
                    old(self).spec_chain(),
                    old(self).spec_input().take(read),
                );
                let written = admissible(
                    old(self).spec_output_capacity(),
                    old(self).spec_output().len(),
                    read as nat,
                );
                &&& action == WorkerAction::Continue
                &&& final(self).spec_chain() == chain_after(
                    old(self).spec_chain(),
                    old(self).spec_input().take(read),
                )
                &&& final(self).spec_input() == old(self).spec_input().skip(read)
                &&& final(self).spec_output() == old(self).spec_output() + result.take(
                    written as int,
                )
                &&& final(self).spec_counters() == Some(
                    counters_after_block(
                        old(self).spec_counters().unwrap(),
                        read as nat,
                        written,
                    ),
                )
            },
    {
        if !self.running {
            return WorkerAction::Stop;
        }
        let ghost block = self.config.block_samples() as int;
        let ghost queued = self.input_buffer@;
        assert(self.config.buffer_size * self.config.channels >= 64) by (nonlinear_arith)
            requires
                self.config.buffer_size >= 64,
                self.config.channels >= 1,
        ;
        let read = self.input_buffer.read_samples(scratch.input.as_mut_slice());
        if read == 0 {
            match &mut self.processor {
                Some(p) => p.record_underrun(),
                None => {},
            }
            return WorkerAction::Sleep;
        }
        let (taken, _) = scratch.input.as_slice().split_at(read);
        assert(taken@ =~= queued.take(read as int));
        let (result, _) = scratch.output.as_mut_slice().split_at_mut(read);
        let (first, _) = scratch.first.as_mut_slice().split_at_mut(read);
        let (second, _) = scratch.second.as_mut_slice().split_at_mut(read);
        self.filter_chain.process(taken, result, first, second);
        let written = self.output_buffer.write_samples(result);
        match &mut self.processor {
            Some(p) => {
                if written < read {
                    p.record_overrun();
                }
                p.update_stats(read);
            },
            None => {},
        }
        WorkerAction::Continue
    }

    pub fn config(&self) -> (config: &AudioConfig)
        ensures
            *config == self.spec_config(),
    {
        &self.config
    }

    /// Whether a compute backend is installed.
    pub fn is_gpu_enabled(&self) -> (enabled: bool)
        ensures
            enabled == self.spec_accelerated(),
    {
        self.gpu_processor.is_some()
    }
}

} // verus!
