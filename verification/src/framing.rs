//! Framing policy: fixed-size, fixed-stride slicing of a sample buffer.
//!
//! A buffer of length `s` is cut into frames of `window_size` samples
//! whose start offsets are `0, stride, 2 * stride, ...`, keeping exactly
//! the offsets with `offset + window_size <= s`; a final partial window
//! is dropped, never padded. A buffer shorter than one window yields
//! zero frames, which is a valid outcome, not an error. Each frame is an
//! independent copy, so the per-frame taper and transform of one frame
//! never touch a neighbour.

use crate::domain::{validate_stft_params, DomainError};
use vstd::arithmetic::div_mod::{
    lemma_div_is_ordered,
    lemma_div_multiples_vanish,
    lemma_fundamental_div_mod,
    lemma_mod_bound,
};
use vstd::arithmetic::mul::lemma_mul_inequality;
use vstd::prelude::*;

verus! {

/// How many frames the policy produces: the number of offsets
/// `k * stride` with `k * stride + window_size <= buffer_len`.
pub open spec fn frame_count(buffer_len: int, window_size: int, stride: int) -> int
    recommends
        window_size >= 1,
        stride >= 1,
{
    if buffer_len < window_size {
        0
    } else {
        (buffer_len - window_size) / stride + 1
    }
}

/// The framing policy law: for a positive window and stride, the offsets
/// `k * stride` that fit (`k * stride + window_size <= buffer_len`) are
/// exactly those with `k < frame_count(buffer_len, window_size, stride)`.
pub proof fn lemma_frame_count_exact(buffer_len: int, window_size: int, stride: int, k: int)
    requires
        window_size >= 1,
        stride >= 1,
        k >= 0,
    ensures
        k < frame_count(buffer_len, window_size, stride) <==> k * stride + window_size
            <= buffer_len,
{
    if buffer_len < window_size {
        assert(k * stride >= 0) by {
            lemma_mul_inequality(0, k, stride);
        }
    } else {
        let d = buffer_len - window_size;
        if k <= d / stride {
            lemma_mul_inequality(k, d / stride, stride);
            lemma_fundamental_div_mod(d, stride);
            lemma_mod_bound(d, stride);
            assert((d / stride) * stride <= d);
        }
        if k * stride <= d {
            lemma_div_is_ordered(k * stride, d, stride);
            lemma_div_multiples_vanish(k, stride);
            assert(k * stride == stride * k);
        }
    }
}

/// The frame start offsets for a buffer of `buffer_len` samples:
/// `0, stride, 2 * stride, ...`, exactly those that leave room for a
/// whole window. Empty when the buffer is shorter than one window.
pub fn frame_offsets(buffer_len: usize, window_size: usize, stride: usize) -> (offsets: Vec<usize>)
    requires
        window_size >= 1,
        stride >= 1,
    ensures
        offsets.len() == frame_count(buffer_len as int, window_size as int, stride as int),
        forall|k: int| 0 <= k < offsets.len() ==> #[trigger] offsets[k] == k * stride,
        forall|k: int|
            0 <= k < offsets.len() ==> #[trigger] offsets[k] + window_size <= buffer_len,
{
    let mut offsets: Vec<usize> = Vec::new();
    if buffer_len < window_size {
        return offsets;
    }
    let count: usize = (buffer_len - window_size) / stride + 1;
    let mut k: usize = 0;
    while k < count
        invariant
            count == frame_count(buffer_len as int, window_size as int, stride as int),
            window_size >= 1,
            stride >= 1,
            window_size <= buffer_len,
            k <= count,
            offsets.len() == k,
            forall|j: int| 0 <= j < k ==> #[trigger] offsets[j] == j * stride,
            forall|j: int| 0 <= j < k ==> #[trigger] offsets[j] + window_size <= buffer_len,
        decreases count - k,
    {
        proof {
            lemma_frame_count_exact(buffer_len as int, window_size as int, stride as int, k as int);
            assert(k * stride + window_size <= buffer_len);
            assert(k * stride >= 0) by {
                lemma_mul_inequality(0, k as int, stride as int);
            }
        }
        let offset: usize = k * stride;
        offsets.push(offset);
        k = k + 1;
    }
    offsets
}

/// Cuts the buffer into its frames: one independent copy of
/// `window_size` consecutive samples per offset of the framing policy,
/// in offset order.
pub fn frames<T: Copy>(samples: &Vec<T>, window_size: usize, stride: usize) -> (fr: Vec<Vec<T>>)
    requires
        window_size >= 1,
        stride >= 1,
    ensures
        fr.len() == frame_count(samples.len() as int, window_size as int, stride as int),
        forall|k: int|
            0 <= k < fr.len() ==> #[trigger] fr[k]@ == samples@.subrange(
                k * stride,
                k * stride + window_size,
            ),
        forall|k: int| 0 <= k < fr.len() ==> #[trigger] fr[k]@.len() == window_size,
{
    let offsets = frame_offsets(samples.len(), window_size, stride);
    let mut fr: Vec<Vec<T>> = Vec::new();
    let mut k: usize = 0;
    while k < offsets.len()
        invariant
            offsets.len() == frame_count(samples.len() as int, window_size as int, stride as int),
            forall|j: int| 0 <= j < offsets.len() ==> #[trigger] offsets[j] == j * stride,
            forall|j: int|
                0 <= j < offsets.len() ==> #[trigger] offsets[j] + window_size <= samples.len(),
            k <= offsets.len(),
            fr.len() == k,
            forall|j: int|
                0 <= j < k ==> #[trigger] fr[j]@ == samples@.subrange(
                    j * stride,
                    j * stride + window_size,
                ),
        decreases offsets.len() - k,
    {
        let offset = offsets[k];
        let mut frame: Vec<T> = Vec::new();
        let mut i: usize = 0;
        while i < window_size
            invariant
                offset + window_size <= samples.len(),
                i <= window_size,
                frame@ == samples@.subrange(offset as int, offset + i),
            decreases window_size - i,
        {
            frame.push(samples[offset + i]);
            proof {
                assert(frame@ == samples@.subrange(offset as int, offset + i + 1));
            }
            i = i + 1;
        }
        fr.push(frame);
        k = k + 1;
    }
    proof {
        assert forall|j: int| 0 <= j < fr.len() implies #[trigger] fr[j]@.len()
            == window_size by {
            lemma_frame_count_exact(samples.len() as int, window_size as int, stride as int, j);
            assert(j * stride >= 0) by {
                lemma_mul_inequality(0, j, stride as int);
            }
        }
    }
    fr
}

/// The framing stage of the short-time transform: the parameters are
/// validated first, and only a valid configuration reaches the framing
/// policy. The rows returned are the frames, in offset order, ready to
/// be tapered and transformed one by one.
pub fn stft_frames<T: Copy>(samples: &Vec<T>, window_size: usize, stride: usize) -> (r: Result<
    Vec<Vec<T>>,
    DomainError,
>)
    ensures
        r is Ok <==> (window_size > 1 && stride >= 1 && window_size <= samples.len()),
        r == Err::<Vec<Vec<T>>, DomainError>(DomainError::WindowTooSmall) <==> window_size <= 1,
        r == Err::<Vec<Vec<T>>, DomainError>(DomainError::StrideZero) <==> (window_size > 1
            && stride == 0),
        r == Err::<Vec<Vec<T>>, DomainError>(DomainError::WindowExceedsBuffer) <==> (window_size
            > 1 && stride >= 1 && window_size > samples.len()),
        r is Ok ==> r->Ok_0.len() == frame_count(
            samples.len() as int,
            window_size as int,
            stride as int,
        ),
        r is Ok ==> forall|k: int|
            0 <= k < r->Ok_0.len() ==> #[trigger] r->Ok_0[k]@ == samples@.subrange(
                k * stride,
                k * stride + window_size,
            ),
        r is Ok ==> forall|k: int|
            0 <= k < r->Ok_0.len() ==> #[trigger] r->Ok_0[k]@.len() == window_size,
{
    match validate_stft_params(samples.len(), window_size, stride) {
        Ok(_) => Ok(frames(samples, window_size, stride)),
        Err(err) => Err(err),
    }
}

} // verus!
