//! Real-time audio processing core: a single-producer single-consumer sample
//! transport, a tiered buffer pool, a composable filter chain, a compute-backend
//! interface with its CPU reference, and the engine that ties them together.

pub mod audio;
pub mod error;
pub mod fileio;
pub mod gpu;
pub mod ident;
pub mod lockfree;
pub mod messages;
pub mod network;
pub mod ratio;
pub mod text;
pub mod validation;
