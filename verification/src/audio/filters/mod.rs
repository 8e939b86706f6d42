//! Filters and their composition.

pub mod biquad;
pub mod filter_chain;

pub use biquad::FilterType;
pub use filter_chain::{Filter, FilterChain, FilterMetadata};
