//! Gamma-correct, alpha-aware image resampling.
//!
//! The library resamples 8-bit RGBA rasters in linear light: every color
//! sample is gamma-decoded and premultiplied by its alpha before filtering,
//! and the inverse transforms run after filtering.  All arithmetic is
//! fixed-point integer arithmetic, so every stage has an exact contract.

use vstd::prelude::*;

pub mod alpha;
pub mod fixed;
pub mod gamma;
pub mod kernel;
pub mod laws;
pub mod pipeline;
pub mod resample;

verus! {

/// Failure value carried out of the pipeline: a single human-readable message.
#[derive(Debug)]
pub enum ToolKitRustError {
    Error(String),
}

} // verus!
