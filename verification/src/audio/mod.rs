//! The audio subsystem: buffer pool, filters, DSP stages, statistics and the engine.

pub mod dsp;
pub mod engine;
pub mod filters;
pub mod memory_pool;
pub mod processor;

pub use engine::{AudioConfig, AudioEngine, AudioEngineError, EngineState, WorkerAction, WorkerScratch};
pub use processor::{AudioProcessor, ProcessingStats};
pub use memory_pool::{AudioMemoryPool, PoolStats, PoolTier, PooledBuffer};
