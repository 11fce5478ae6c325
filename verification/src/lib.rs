//! Offline spectral-analysis support library.
//!
//! The analytical core of a spectral pipeline: framing policy for
//! overlapping windows, transform-length selection and zero-padding for
//! the analytic-signal envelope, parameter validation, and the intensity
//! colour mapping used when a spectrogram is rasterised. Sample decoding,
//! the floating-point transforms themselves and chart rendering are
//! external collaborators that consume and produce the plain values this
//! library works on.

pub mod color;
pub mod domain;
pub mod envelope;
pub mod framing;
pub mod spectrum;

use vstd::prelude::*;

verus! {

/// Default transform frame length for the short-time transform.
pub const DEFAULT_WINDOW_SIZE: usize = 1024;

/// Default frame step: successive frames start this many samples apart.
pub const DEFAULT_STRIDE: usize = 512;

} // verus!

