//! The segmenter: a state machine that cuts a stream of frames and detector
//! verdicts into speech segments, each led by a short pre-roll.
//!
//! While idle the segmenter keeps the most recent frames in a pre-roll ring.
//! The first speech verdict opens a segment seeded with the ring and the
//! current frame. Every further frame is appended until enough consecutive
//! silence has been seen or the segment has reached its maximum length; the
//! segment is then handed out if it is long enough, and dropped otherwise.

use vstd::prelude::*;
use std::collections::VecDeque;
use crate::frame::{Frame, FRAME_SIZE};
use crate::vad::VadEvent;

verus! {

/// Shortest segment that is handed out, in samples (half a second).
pub const MIN_SEGMENT_SAMPLES: usize = 8000;

/// Frames kept in the pre-roll ring (300 ms, rounded up to whole frames).
pub const PRE_ROLL_FRAMES: usize = 10;

/// Default silence that ends a segment, in milliseconds.
pub const DEFAULT_SILENCE_TAIL_MS: u32 = 1500;

/// Default longest segment, in milliseconds.
pub const DEFAULT_MAX_SEGMENT_MS: u32 = 60000;

/// Number of whole frames needed to cover `ms` milliseconds.
pub open spec fn frames_covering(ms: int) -> int {
    (ms + 31) / 32
}

/// Number of whole frames needed to cover `ms` milliseconds.
pub fn frames_for_millis(ms: u32) -> (n: u32)
    ensures
        n == frames_covering(ms as int),
{
    if ms % 32 == 0 {
        ms / 32
    } else {
        ms / 32 + 1
    }
}

/// Whether a segment of this many samples is long enough to be handed
/// out: it has to hold at least half a second.
pub fn long_enough(samples: usize) -> (r: bool)
    ensures
        r == (samples >= MIN_SEGMENT_SAMPLES),
{
    samples >= MIN_SEGMENT_SAMPLES
}

/// The last `limit` elements of `frames`, or all of them if there are fewer.
pub open spec fn newest<A>(frames: Seq<A>, limit: nat) -> Seq<A> {
    if frames.len() > limit {
        frames.skip(frames.len() - limit)
    } else {
        frames
    }
}

/// A finished segment as a mathematical value.
pub ghost struct SegmentModel<T> {
    /// Position of the segment among those handed out, starting at 1.
    pub index: nat,
    /// All samples of the segment, pre-roll first.
    pub samples: Seq<T>,
    /// Number of leading frames that came from the pre-roll ring.
    pub lead_frames: nat,
}

/// The segmenter as a mathematical value.
pub ghost struct SegmenterModel<T> {
    /// Whether a segment is in progress.
    pub speaking: bool,
    /// Frames in the pre-roll ring, oldest first.
    pub pre_roll: Seq<Seq<T>>,
    /// Samples of the segment in progress.
    pub audio: Seq<T>,
    /// Frames in the segment in progress, pre-roll included.
    pub frames: nat,
    /// How many of those frames came from the pre-roll ring.
    pub lead_frames: nat,
    /// Consecutive silence verdicts seen last.
    pub silence_run: nat,
    /// Silence verdicts in a row that end a segment.
    pub silence_frames: nat,
    /// Frames at which a segment is split by force.
    pub max_frames: nat,
    /// Segments handed out so far.
    pub emitted: nat,
}

impl<T> SegmenterModel<T> {
    /// A fresh segmenter with the given limits.
    pub open spec fn initial(silence_frames: nat, max_frames: nat) -> Self {
        SegmenterModel {
            speaking: false,
            pre_roll: Seq::empty(),
            audio: Seq::empty(),
            frames: 0,
            lead_frames: 0,
            silence_run: 0,
            silence_frames,
            max_frames,
            emitted: 0,
        }
    }

    /// The idle state that follows the end of a segment.
    pub open spec fn cleared(self) -> Self {
        SegmenterModel {
            speaking: false,
            pre_roll: Seq::empty(),
            audio: Seq::empty(),
            frames: 0,
            lead_frames: 0,
            silence_run: 0,
            ..self
        }
    }

    /// Whether the segment in progress would be handed out if it ended now.
    pub open spec fn deliverable(self) -> bool {
        self.audio.len() >= MIN_SEGMENT_SAMPLES && self.emitted < u32::MAX
    }

    /// Ends the segment in progress: it is handed out if it is long enough
    /// and the index has not run out, and dropped otherwise.
    pub open spec fn finalize(self) -> (Self, Option<SegmentModel<T>>) {
        if self.deliverable() {
            (
                SegmenterModel { emitted: self.emitted + 1, ..self.cleared() },
                Some(
                    SegmentModel {
                        index: self.emitted + 1,
                        samples: self.audio,
                        lead_frames: self.lead_frames,
                    },
                ),
            )
        } else {
            (self.cleared(), None)
        }
    }

    /// The state after appending one frame to the segment in progress.
    pub open spec fn appended(self, frame: Seq<T>, speech: bool) -> Self {
        SegmenterModel {
            audio: self.audio + frame,
            frames: self.frames + 1,
            silence_run: if speech {
                0
            } else {
                self.silence_run + 1
            },
            ..self
        }
    }

    /// Whether the segment in progress has to end.
    pub open spec fn due(self) -> bool {
        self.silence_run >= self.silence_frames || self.frames >= self.max_frames
    }

    /// One step of the machine: the next state and the segment handed out.
    pub open spec fn step(self, frame: Seq<T>, speech: bool) -> (Self, Option<SegmentModel<T>>) {
        if !self.speaking {
            if speech {
                (
                    SegmenterModel {
                        speaking: true,
                        pre_roll: Seq::empty(),
                        audio: self.pre_roll.flatten() + frame,
                        frames: self.pre_roll.len() + 1,
                        lead_frames: self.pre_roll.len(),
                        silence_run: 0,
                        ..self
                    },
                    None,
                )
            } else {
                (
                    SegmenterModel {
                        pre_roll: newest(self.pre_roll.push(frame), PRE_ROLL_FRAMES as nat),
                        ..self
                    },
                    None,
                )
            }
        } else {
            let next = self.appended(frame, speech);
            if next.due() {
                next.finalize()
            } else {
                (next, None)
            }
        }
    }

    /// What stopping does: a segment in progress is ended, an idle segmenter
    /// is left as it is.
    pub open spec fn flush(self) -> (Self, Option<SegmentModel<T>>) {
        if self.speaking {
            self.finalize()
        } else {
            (self, None)
        }
    }

    /// The states that a segmenter can be in.
    pub open spec fn valid(self) -> bool {
        &&& self.pre_roll.len() <= PRE_ROLL_FRAMES
        &&& forall|i: int| 0 <= i < self.pre_roll.len() ==> (#[trigger] self.pre_roll[i]).len() == FRAME_SIZE
        &&& self.audio.len() == self.frames * FRAME_SIZE
        &&& self.emitted <= u32::MAX
        &&& self.max_frames <= u32::MAX
        &&& self.silence_frames <= u32::MAX
        &&& if self.speaking {
            &&& self.pre_roll.len() == 0
            &&& self.lead_frames <= PRE_ROLL_FRAMES
            &&& self.lead_frames + 1 <= self.frames
            &&& self.silence_run + self.lead_frames + 1 <= self.frames
            &&& (self.frames < self.max_frames || self.frames == self.lead_frames + 1)
            &&& (self.silence_run < self.silence_frames || self.silence_run == 0)
        } else {
            &&& self.audio.len() == 0
            &&& self.frames == 0
            &&& self.lead_frames == 0
            &&& self.silence_run == 0
        }
    }
}

/// A finished speech segment.
pub struct Segment<T> {
    /// Position of the segment among those handed out in this session,
    /// starting at 1.
    pub index: u32,
    /// All samples of the segment, pre-roll first.
    pub samples: Vec<T>,
    /// Number of leading frames that came from the pre-roll ring.
    pub lead_frames: usize,
}

impl<T> View for Segment<T> {
    type V = SegmentModel<T>;

    open spec fn view(&self) -> SegmentModel<T> {
        SegmentModel {
            index: self.index as nat,
            samples: self.samples@,
            lead_frames: self.lead_frames as nat,
        }
    }
}

impl<T> Segment<T> {
    /// Length of the segment in milliseconds, rounded down.
    pub fn duration_ms(&self) -> (ms: usize)
        ensures
            ms == self.samples@.len() / 16,
    {
        self.samples.len() / 16
    }
}

/// The model of an optional segment.
pub open spec fn segment_model<T>(s: Option<Segment<T>>) -> Option<SegmentModel<T>> {
    match s {
        Some(seg) => Some(seg@),
        None => None,
    }
}

/// The models of the frames in a ring.
pub open spec fn frame_models<T>(ring: Seq<Frame<T>>) -> Seq<Seq<T>> {
    ring.map_values(|f: Frame<T>| f@)
}

/// The segmenter.
pub struct Segmenter<T> {
    speaking: bool,
    silence_run: u32,
    silence_frames: u32,
    max_frames: u32,
    pre_roll: VecDeque<Frame<T>>,
    audio: Vec<T>,
    frames: u32,
    lead_frames: usize,
    emitted: u32,
}

impl<T> View for Segmenter<T> {
    type V = SegmenterModel<T>;

    closed spec fn view(&self) -> SegmenterModel<T> {
        SegmenterModel {
            speaking: self.speaking,
            pre_roll: frame_models(self.pre_roll@),
            audio: self.audio@,
            frames: self.frames as nat,
            lead_frames: self.lead_frames as nat,
            silence_run: self.silence_run as nat,
            silence_frames: self.silence_frames as nat,
            max_frames: self.max_frames as nat,
            emitted: self.emitted as nat,
        }
    }
}

impl<T> Segmenter<T> {
    /// The invariant of the segmenter: its model is a valid state.
    pub closed spec fn wf(&self) -> bool {
        &&& self@.valid()
        &&& forall|i: int| 0 <= i < self.pre_roll@.len() ==> (#[trigger] self.pre_roll@[i]).wf()
    }

    /// The model of a well-formed segmenter is a valid state.
    pub proof fn lemma_wf_is_valid(&self)
        requires
            self.wf(),
        ensures
            self@.valid(),
    {
    }

    /// A segmenter that ends a segment after `silence_tail_ms` of silence and
    /// splits it once it covers `max_segment_ms`.
    pub fn new(silence_tail_ms: u32, max_segment_ms: u32) -> (s: Segmenter<T>)
        ensures
            s.wf(),
            s@ == SegmenterModel::<T>::initial(
                frames_covering(silence_tail_ms as int) as nat,
                frames_covering(max_segment_ms as int) as nat,
            ),
    {
        let s = Segmenter {
            speaking: false,
            silence_run: 0,
            silence_frames: frames_for_millis(silence_tail_ms),
            max_frames: frames_for_millis(max_segment_ms),
            pre_roll: VecDeque::new(),
            audio: Vec::new(),
            frames: 0,
            lead_frames: 0,
            emitted: 0,
        };
        assert(frame_models(s.pre_roll@) =~= Seq::<Seq<T>>::empty());
        s
    }

    /// Whether a segment is in progress.
    pub fn is_speaking(&self) -> (r: bool)
        ensures
            r == self@.speaking,
    {
        self.speaking
    }

    /// Number of segments handed out so far.
    pub fn segment_count(&self) -> (r: u32)
        ensures
            r == self@.emitted,
    {
        self.emitted
    }

    /// Number of frames waiting in the pre-roll ring.
    pub fn pre_roll_len(&self) -> (r: usize)
        ensures
            r == self@.pre_roll.len(),
    {
        self.pre_roll.len()
    }

    /// Number of samples in the segment in progress.
    pub fn pending_samples(&self) -> (r: usize)
        ensures
            r == self@.audio.len(),
    {
        self.audio.len()
    }

    /// Takes one frame with the detector's verdict on it and returns the
    /// segment that this frame completed, if any.
    pub fn process(&mut self, event: VadEvent, frame: Frame<T>) -> (r: Option<Segment<T>>)
        requires
            old(self).wf(),
        ensures
            final(self).wf(),
            final(self)@ == old(self)@.step(frame@, event.speech()).0,
            segment_model(r) == old(self)@.step(frame@, event.speech()).1,
    {
        proof {
            use_type_invariant(&frame);
            frame.lemma_len();
        }
        let speech = event.is_speech();
        if !self.speaking {
            if speech {
                self.open_segment(frame);
            } else {
                self.remember(frame);
            }
            None
        } else {
            let ghost before = self@;
            let mut samples = frame.into_samples();
            self.audio.append(&mut samples);
            self.frames = self.frames + 1;
            if speech {
                self.silence_run = 0;
            } else {
                self.silence_run = self.silence_run + 1;
            }
            assert(self@ == before.appended(frame@, speech));
            if self.silence_run >= self.silence_frames || self.frames >= self.max_frames {
                self.finalize()
            } else {
                None
            }
        }
    }

    /// Ends the segment in progress, as on a stop request, and returns it if
    /// it is long enough. An idle segmenter is left as it is.
    pub fn flush(&mut self) -> (r: Option<Segment<T>>)
        requires
            old(self).wf(),
        ensures
            final(self).wf(),
            final(self)@ == old(self)@.flush().0,
            segment_model(r) == old(self)@.flush().1,
    {
        if self.speaking {
            self.finalize()
        } else {
            None
        }
    }

    /// Puts a frame into the pre-roll ring, pushing out the oldest one when
    /// the ring is full.
    fn remember(&mut self, frame: Frame<T>)
        requires
            old(self).wf(),
            !old(self)@.speaking,
            frame.wf(),
        ensures
            final(self).wf(),
            final(self)@ == old(self)@.step(frame@, false).0,
    {
        proof {
            frame.lemma_len();
        }
        let ghost ring = self.pre_roll@;
        self.pre_roll.push_back(frame);
        assert(frame_models(self.pre_roll@) =~= frame_models(ring).push(frame@));
        if self.pre_roll.len() > PRE_ROLL_FRAMES {
            let ghost full = self.pre_roll@;
            let _ = self.pre_roll.pop_front();
            assert(self.pre_roll@ =~= full.skip(1));
            assert(frame_models(self.pre_roll@) =~= frame_models(full).skip(1));
        }
        assert forall|i: int| 0 <= i < self.pre_roll@.len() implies (#[trigger] frame_models(
            self.pre_roll@,
        )[i]).len() == FRAME_SIZE by {
            self.pre_roll@[i].lemma_len();
        }
    }

    /// Opens a segment with the contents of the pre-roll ring and `frame`.
    fn open_segment(&mut self, frame: Frame<T>)
        requires
            old(self).wf(),
            !old(self)@.speaking,
            frame.wf(),
        ensures
            final(self).wf(),
            final(self)@ == old(self)@.step(frame@, true).0,
    {
        proof {
            frame.lemma_len();
        }
        let ghost ring = self.pre_roll@;
        let ghost models = frame_models(ring);
        let mut taken: usize = 0;
        assert(models.take(0) =~= Seq::<Seq<T>>::empty());
        while self.pre_roll.len() > 0
            invariant
                taken + self.pre_roll@.len() == ring.len(),
                ring.len() <= PRE_ROLL_FRAMES,
                self.pre_roll@ =~= ring.skip(taken as int),
                self.audio@ == models.take(taken as int).flatten(),
                self.audio@.len() == taken * FRAME_SIZE,
                models == frame_models(ring),
                forall|i: int| 0 <= i < ring.len() ==> (#[trigger] ring[i]).wf(),
                self.speaking == old(self).speaking,
                self.silence_run == old(self).silence_run,
                self.silence_frames == old(self).silence_frames,
                self.max_frames == old(self).max_frames,
                self.frames == old(self).frames,
                self.lead_frames == old(self).lead_frames,
                self.emitted == old(self).emitted,
            decreases self.pre_roll@.len(),
        {
            let oldest = self.pre_roll.pop_front();
            match oldest {
                Some(f) => {
                    proof {
                        assert(f == ring[taken as int]);
                        f.lemma_len();
                        assert(models.take(taken + 1) =~= models.take(taken as int).push(f@));
                        models.take(taken as int).lemma_flatten_push(f@);
                    }
                    let mut samples = f.into_samples();
                    self.audio.append(&mut samples);
                    taken = taken + 1;
                },
                None => {},
            }
        }
        assert(models.take(taken as int) =~= models);
        let mut samples = frame.into_samples();
        self.audio.append(&mut samples);
        self.speaking = true;
        self.silence_run = 0;
        self.frames = (taken + 1) as u32;
        self.lead_frames = taken;
        assert(frame_models(self.pre_roll@) =~= Seq::<Seq<T>>::empty());
    }

    /// Ends the segment in progress and returns it if it is long enough.
    fn finalize(&mut self) -> (r: Option<Segment<T>>)
        requires
            old(self)@.speaking,
            old(self)@.pre_roll.len() == 0,
            old(self)@.emitted <= u32::MAX,
            old(self)@.audio.len() == old(self)@.frames * FRAME_SIZE,
        ensures
            final(self).wf(),
            final(self)@ == old(self)@.finalize().0,
            segment_model(r) == old(self)@.finalize().1,
    {
        let mut samples: Vec<T> = Vec::new();
        samples.append(&mut self.audio);
        let lead_frames = self.lead_frames;
        self.speaking = false;
        self.silence_run = 0;
        self.frames = 0;
        self.lead_frames = 0;
        assert(self.pre_roll@.len() == 0);
        assert(frame_models(self.pre_roll@) =~= Seq::<Seq<T>>::empty());
        if long_enough(samples.len()) && self.emitted < u32::MAX {
            self.emitted = self.emitted + 1;
            Some(Segment { index: self.emitted, samples, lead_frames })
        } else {
            None
        }
    }
}

} // verus!
