//! Verdicts of the voice-activity detector.
//!
//! The detector itself is a black box that gives a probability of speech
//! for each frame. Probabilities and the threshold are handled here as the
//! bit patterns of single-precision numbers, and compared as such numbers
//! compare.

use vstd::prelude::*;
use crate::frame::{FRAME_SIZE, SAMPLE_RATE};

verus! {

/// Samples per second that the detector works at.
pub const VAD_SAMPLE_RATE: u32 = SAMPLE_RATE;

/// Samples in a frame for the detector.
pub const VAD_FRAME_SIZE: usize = FRAME_SIZE;

/// Bit pattern of the default threshold, one half.
pub const DEFAULT_THRESHOLD_BITS: u32 = 0x3F00_0000;

/// Bit pattern of the number one.
pub const ONE_BITS: u32 = 0x3F80_0000;

/// What the detector said about one frame.
#[derive(Clone, Copy, Debug)]
pub enum VadEvent {
    /// No speech in the frame.
    Silence,
    /// Speech in the frame, with the bit pattern of its probability.
    Speech { probability_bits: u32 },
}

impl VadEvent {
    /// Whether the verdict is `Speech`.
    pub open spec fn speech(self) -> bool {
        self is Speech
    }

    /// Whether the verdict is `Speech`.
    pub fn is_speech(&self) -> (r: bool)
        ensures
            r == self.speech(),
    {
        match self {
            VadEvent::Speech { .. } => true,
            VadEvent::Silence => false,
        }
    }
}

/// Whether a bit pattern stands for no number at all.
pub open spec fn is_nan(bits: u32) -> bool {
    bits % 0x8000_0000 > 0x7F80_0000
}

/// Where the number of a bit pattern stands among all numbers: patterns
/// with the sign bit count downwards from zero, the others upwards. The
/// two zeros stand at the same place.
pub open spec fn rank(bits: u32) -> int {
    if bits >= 0x8000_0000 {
        -((bits - 0x8000_0000) as int)
    } else {
        bits as int
    }
}

/// Whether the number of `a` is greater than that of `b`. Nothing is
/// greater or less than a pattern that stands for no number.
pub open spec fn greater(a: u32, b: u32) -> bool {
    !is_nan(a) && !is_nan(b) && rank(a) > rank(b)
}

/// Whether the number of `a` is greater than that of `b`.
pub fn is_greater(a: u32, b: u32) -> (r: bool)
    ensures
        r == greater(a, b),
{
    if a % 0x8000_0000 > 0x7F80_0000 || b % 0x8000_0000 > 0x7F80_0000 {
        return false;
    }
    let a_negative = a >= 0x8000_0000;
    let b_negative = b >= 0x8000_0000;
    if a_negative && b_negative {
        a < b
    } else if a_negative {
        false
    } else if b_negative {
        a > 0 || b > 0x8000_0000
    } else {
        a > b
    }
}

/// The verdict on a frame whose probability of speech has the given bit
/// pattern: speech where the probability is greater than the threshold,
/// silence otherwise.
pub fn classify(probability_bits: u32, threshold_bits: u32) -> (r: VadEvent)
    ensures
        r.speech() == greater(probability_bits, threshold_bits),
        r matches VadEvent::Speech { probability_bits: p } ==> p == probability_bits,
{
    if is_greater(probability_bits, threshold_bits) {
        VadEvent::Speech { probability_bits }
    } else {
        VadEvent::Silence
    }
}

/// A probability that counts as speech lies above the threshold; where
/// it is at most one and the threshold is not negative, its bit pattern
/// lies between those of the threshold and of one.
pub proof fn lemma_speech_lies_above_threshold(probability_bits: u32, threshold_bits: u32)
    requires
        greater(probability_bits, threshold_bits),
        threshold_bits < 0x8000_0000,
        !greater(probability_bits, ONE_BITS),
    ensures
        threshold_bits < probability_bits <= ONE_BITS,
{
}

} // verus!
