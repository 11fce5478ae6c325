//! Support for the analytic-signal envelope procedure.
//!
//! The envelope of a recording is taken by zero-padding the samples to
//! the next power of two, forward-transforming, immediately
//! inverse-transforming, and keeping the element-wise modulus. This
//! module owns the integer half of that procedure: choosing the padded
//! transform length and building the zero-padded buffer. The transforms
//! themselves are the external collaborator's.

use crate::domain::DomainError;
use vstd::arithmetic::power2::{lemma2_to64, lemma_pow2_pos, lemma_pow2_strictly_increases, pow2};
use vstd::prelude::*;

verus! {

/// The smallest power of two that is at least `n` (and at least one).
/// The bound on `n` is the machine limit: the next power of two must
/// itself fit in `usize`.
pub fn next_pow2(n: usize) -> (r: usize)
    requires
        n <= usize::MAX / 2 + 1,
    ensures
        r >= n,
        r >= 1,
        exists|e: nat| r == pow2(e),
        forall|e: nat| #[trigger] pow2(e) >= n ==> r <= pow2(e),
{
    let ghost mut e: nat = 0;
    let mut r: usize = 1;
    proof {
        lemma2_to64();
    }
    while r < n
        invariant
            n <= usize::MAX / 2 + 1,
            r >= 1,
            r == pow2(e),
            e == 0 || pow2((e - 1) as nat) < n,
        decreases (if r < n {
            n - r
        } else {
            0int
        }),
    {
        proof {
            lemma2_to64();
            assert(pow2((e + 1) as nat) == pow2(e) * pow2(1)) by {
                vstd::arithmetic::power2::lemma_pow2_adds(e, 1);
            }
            e = e + 1;
        }
        r = r * 2;
    }
    proof {
        assert forall|f: nat| #[trigger] pow2(f) >= n implies r <= pow2(f) by {
            if e == 0 {
                lemma_pow2_pos(f);
            } else if f < e {
                if f < (e - 1) as nat {
                    lemma_pow2_strictly_increases(f, (e - 1) as nat);
                }
            } else if e < f {
                lemma_pow2_strictly_increases(e, f);
            }
        }
    }
    r
}

/// The transform length for the envelope of `sample_len` samples: the
/// smallest power of two holding the whole buffer. An empty buffer is
/// rejected, never transformed.
pub fn analytic_fft_len(sample_len: usize) -> (r: Result<usize, DomainError>)
    requires
        sample_len <= usize::MAX / 2 + 1,
    ensures
        r == Err::<usize, DomainError>(DomainError::EmptyInput) <==> sample_len == 0,
        r is Ok <==> sample_len > 0,
        r is Ok ==> r->Ok_0 >= sample_len,
        r is Ok ==> exists|e: nat| r->Ok_0 == pow2(e),
        r is Ok ==> forall|e: nat| #[trigger] pow2(e) >= sample_len ==> r->Ok_0 <= pow2(e),
{
    if sample_len == 0 {
        Err(DomainError::EmptyInput)
    } else {
        Ok(next_pow2(sample_len))
    }
}

/// The samples extended to `target_len`: the original buffer as a
/// prefix, a copy of `fill` — the zero sample, for the envelope's
/// zero-padding — in every added slot.
pub fn pad_to_length<T: Copy>(samples: &Vec<T>, target_len: usize, fill: T) -> (padded: Vec<T>)
    requires
        samples.len() <= target_len,
    ensures
        padded.len() == target_len,
        forall|i: int| 0 <= i < samples.len() ==> padded[i] == samples[i],
        forall|i: int| samples.len() <= i < target_len ==> padded[i] == fill,
{
    let mut padded: Vec<T> = Vec::new();
    let mut i: usize = 0;
    while i < samples.len()
        invariant
            i <= samples.len(),
            samples.len() <= target_len,
            padded.len() == i,
            forall|j: int| 0 <= j < i ==> padded[j] == samples[j],
        decreases samples.len() - i,
    {
        padded.push(samples[i]);
        i = i + 1;
    }
    while i < target_len
        invariant
            samples.len() <= i <= target_len,
            padded.len() == i,
            forall|j: int| 0 <= j < samples.len() ==> padded[j] == samples[j],
            forall|j: int| samples.len() <= j < i ==> padded[j] == fill,
        decreases target_len - i,
    {
        padded.push(fill);
        i = i + 1;
    }
    padded
}

} // verus!
