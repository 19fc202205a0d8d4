//! The noise gate.
//!
//! Samples are single-precision floats in the normalised range. The library
//! carries each one as its IEEE-754 bit pattern (`u32`): for numbers that are
//! not NaN, the order of absolute values is the unsigned order of the bit
//! patterns with the sign bit cleared, so the filter compares magnitudes exactly
//! with integer operations.
use vstd::prelude::*;

verus! {

/// Bit pattern of `0.001_f32`, the threshold used when none is configured.
pub const DEFAULT_NOISE_THRESHOLD: u32 = 0x3a83_126f;

/// The bit pattern with its sign bit cleared: the pattern of the absolute value.
pub open spec fn magnitude(bits: u32) -> u32 {
    bits & 0x7fff_ffff
}

/// The pattern encodes a NaN: exponent all ones and a non-zero fraction.
pub open spec fn is_nan(bits: u32) -> bool {
    magnitude(bits) > 0x7f80_0000
}

/// The pattern encodes a number strictly below zero.
pub open spec fn is_negative(bits: u32) -> bool {
    !is_nan(bits) && bits >= 0x8000_0000 && magnitude(bits) != 0
}

/// `|sample| > threshold`, as floating-point comparison decides it: false when
/// either side is NaN, true for every other sample when the threshold is below
/// zero, and otherwise a comparison of magnitudes.
pub open spec fn passes_gate(sample: u32, threshold: u32) -> bool {
    !is_nan(sample) && !is_nan(threshold) && (is_negative(threshold) || magnitude(sample)
        > magnitude(threshold))
}

/// The samples that the filter lets through, in their original order.
pub open spec fn gated(samples: Seq<u32>, threshold: u32) -> Seq<u32> {
    samples.filter(|s: u32| passes_gate(s, threshold))
}

/// Whether one sample's absolute amplitude lies strictly above the threshold.
pub fn passes(sample: u32, threshold: u32) -> (r: bool)
    ensures
        r == passes_gate(sample, threshold),
{
    let s = sample & 0x7fff_ffff;
    let t = threshold & 0x7fff_ffff;
    if s > 0x7f80_0000 || t > 0x7f80_0000 {
        false
    } else if threshold >= 0x8000_0000 && t != 0 {
        true
    } else {
        s > t
    }
}

/// Drops every sample whose absolute amplitude is at or below the threshold
/// and keeps the rest in order.
pub fn gate_samples(samples: &[u32], threshold: u32) -> (r: Vec<u32>)
    ensures
        r@ == gated(samples@, threshold),
        forall|i: int| 0 <= i < r@.len() ==> passes_gate(#[trigger] r@[i], threshold),
        forall|i: int|
            0 <= i < samples@.len() && passes_gate(#[trigger] samples@[i], threshold)
                ==> r@.contains(samples@[i]),
{
    let mut out: Vec<u32> = Vec::new();
    let mut i: usize = 0;
    while i < samples.len()
        invariant
            i <= samples@.len(),
            out@ == gated(samples@.subrange(0, i as int), threshold),
        decreases samples@.len() - i,
    {
        let s = samples[i];
        proof {
            let pre = samples@.subrange(0, i as int);
            let next = samples@.subrange(0, i + 1);
            assert(next.drop_last() =~= pre);
            assert(next.last() == s);
            reveal_with_fuel(Seq::filter, 1);
        }
        if passes(s, threshold) {
            out.push(s);
        }
        i += 1;
    }
    assert(samples@.subrange(0, samples@.len() as int) =~= samples@);
    proof {
        broadcast use vstd::seq_lib::group_filter_ensures;

    }
    out
}

} // verus!
