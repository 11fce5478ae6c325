//! Domain validation for the spectral pipeline.
//!
//! Caller-configuration mistakes (a window too small for the taper, a
//! zero frame step, a window longer than the recording) and invalid
//! input (an empty sample buffer) are rejected here, before any data
//! reaches the transforms, and reported distinctly from I/O failures.

use vstd::prelude::*;

verus! {

/// A caller-configuration or input mistake, detected before any
/// spectral computation starts.
#[derive(Clone, Copy, Debug, PartialEq, Eq, Structural)]
pub enum DomainError {
    /// The sample buffer is empty; a transform of length zero is invalid.
    EmptyInput,
    /// The window length is at most one; the taper weight is undefined
    /// for a single-sample window.
    WindowTooSmall,
    /// The frame step is zero; framing would never advance.
    StrideZero,
    /// The window is longer than the sample buffer.
    WindowExceedsBuffer,
}

/// Validates the short-time-transform parameters against the buffer:
/// the window must hold at least two samples, the frame step must
/// advance, and the window must fit in the buffer. The first violation
/// in that order is reported.
pub fn validate_stft_params(buffer_len: usize, window_size: usize, stride: usize) -> (r: Result<
    (),
    DomainError,
>)
    ensures
        r == Err::<(), DomainError>(DomainError::WindowTooSmall) <==> window_size <= 1,
        r == Err::<(), DomainError>(DomainError::StrideZero) <==> (window_size > 1 && stride == 0),
        r == Err::<(), DomainError>(DomainError::WindowExceedsBuffer) <==> (window_size > 1
            && stride >= 1 && window_size > buffer_len),
        r is Ok <==> (window_size > 1 && stride >= 1 && window_size <= buffer_len),
{
    if window_size <= 1 {
        Err(DomainError::WindowTooSmall)
    } else if stride == 0 {
        Err(DomainError::StrideZero)
    } else if window_size > buffer_len {
        Err(DomainError::WindowExceedsBuffer)
    } else {
        Ok(())
    }
}

/// Validates the input of a full-signal transform: an empty buffer is
/// rejected rather than yielding an empty spectrum.
pub fn validate_transform_input(sample_len: usize) -> (r: Result<(), DomainError>)
    ensures
        r == Err::<(), DomainError>(DomainError::EmptyInput) <==> sample_len == 0,
        r is Ok <==> sample_len > 0,
{
    if sample_len == 0 {
        Err(DomainError::EmptyInput)
    } else {
        Ok(())
    }
}

} // verus!
