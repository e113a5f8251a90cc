//! Fixed-size frames of monophonic audio at the canonical rate.

use vstd::prelude::*;

verus! {

/// Samples per second of every frame.
pub const SAMPLE_RATE: u32 = 16000;

/// Samples in one frame.
pub const FRAME_SIZE: usize = 512;

/// Duration of one frame in milliseconds (`FRAME_SIZE` samples at `SAMPLE_RATE`).
pub const FRAME_MILLIS: u32 = 32;

/// An owned block of exactly `FRAME_SIZE` mono samples.
///
/// The sample type is left open: the library only moves samples around and
/// never computes on them.
pub struct Frame<T> {
    samples: Vec<T>,
}

impl<T> View for Frame<T> {
    type V = Seq<T>;

    closed spec fn view(&self) -> Seq<T> {
        self.samples@
    }
}

impl<T> Frame<T> {
    /// A frame holds exactly `FRAME_SIZE` samples.
    #[verifier::type_invariant]
    pub closed spec fn wf(&self) -> bool {
        self.samples@.len() == FRAME_SIZE
    }

    /// Well-formed frames have `FRAME_SIZE` samples.
    pub proof fn lemma_len(&self)
        requires
            self.wf(),
        ensures
            self@.len() == FRAME_SIZE,
    {
    }

    /// Wraps `samples` as a frame if there are exactly `FRAME_SIZE` of them.
    pub fn new(samples: Vec<T>) -> (r: Option<Frame<T>>)
        ensures
            r is Some <==> samples@.len() == FRAME_SIZE,
            r matches Some(f) ==> f@ == samples@ && f.wf(),
    {
        if samples.len() == FRAME_SIZE {
            Some(Frame { samples })
        } else {
            None
        }
    }

    /// The samples of the frame, in capture order.
    pub fn samples(&self) -> (r: &Vec<T>)
        ensures
            r@ == self@,
            r@.len() == FRAME_SIZE,
    {
        proof {
            use_type_invariant(self);
        }
        &self.samples
    }

    /// Gives the samples back.
    pub fn into_samples(self) -> (r: Vec<T>)
        ensures
            r@ == self@,
            r@.len() == FRAME_SIZE,
    {
        proof {
            use_type_invariant(&self);
        }
        self.samples
    }
}

} // verus!
