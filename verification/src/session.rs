//! What a segmenter does over a whole listening session.
//!
//! A session is the sequence of frames and verdicts that a fresh segmenter is
//! fed. The theorems here tie every segment that is handed out back to the
//! inputs it was cut from: where it starts, what its pre-roll is, why it
//! ended, how long it is and which index it carries.

use vstd::prelude::*;
use crate::frame::FRAME_SIZE;
use crate::segmenter::{
    frames_covering, newest, SegmentModel, SegmenterModel, MIN_SEGMENT_SAMPLES, PRE_ROLL_FRAMES,
};

verus! {

/// One input of a session: a frame and the detector's verdict on it.
pub ghost struct Observed<T> {
    /// The samples of the frame.
    pub frame: Seq<T>,
    /// Whether the detector heard speech in it.
    pub speech: bool,
}

/// The frames of a run of inputs.
pub open spec fn frames_of<T>(inputs: Seq<Observed<T>>) -> Seq<Seq<T>> {
    inputs.map_values(|o: Observed<T>| o.frame)
}

/// Every input carries a full frame.
pub open spec fn well_framed<T>(inputs: Seq<Observed<T>>) -> bool {
    forall|i: int| 0 <= i < inputs.len() ==> (#[trigger] inputs[i]).frame.len() == FRAME_SIZE
}

/// No input in `[from, to)` carries a speech verdict.
pub open spec fn all_silence<T>(inputs: Seq<Observed<T>>, from: int, to: int) -> bool {
    forall|k: int| from <= k < to ==> !(#[trigger] inputs[k]).speech
}

/// The state of a segmenter that started in `start` and took `inputs`.
pub open spec fn state_after<T>(start: SegmenterModel<T>, inputs: Seq<Observed<T>>) -> SegmenterModel<T>
    decreases inputs.len(),
{
    if inputs.len() == 0 {
        start
    } else {
        state_after(start, inputs.drop_last()).step(inputs.last().frame, inputs.last().speech).0
    }
}

/// The segment handed out when input `j` of the session is taken.
pub open spec fn emitted_at<T>(start: SegmenterModel<T>, inputs: Seq<Observed<T>>, j: int) -> Option<
    SegmentModel<T>,
> {
    state_after(start, inputs.take(j)).step(inputs[j].frame, inputs[j].speech).1
}

/// Number of segments handed out while taking `inputs`.
pub open spec fn emitted_count<T>(start: SegmenterModel<T>, inputs: Seq<Observed<T>>) -> nat
    decreases inputs.len(),
{
    if inputs.len() == 0 {
        0
    } else {
        let before = emitted_count(start, inputs.drop_last());
        if emitted_at(start, inputs, inputs.len() - 1) is Some {
            before + 1
        } else {
            before
        }
    }
}

/// Index of the input that opened the segment in progress, when `n` inputs
/// have been taken.
pub open spec fn onset<T>(s: SegmenterModel<T>, n: int) -> int {
    n - (s.frames - s.lead_frames)
}

/// The state `s` agrees with the inputs taken so far: the segment in
/// progress is made of the inputs since its onset and of the silent inputs
/// just before it, and the pre-roll ring holds the newest silent inputs.
pub open spec fn tracks<T>(s: SegmenterModel<T>, inputs: Seq<Observed<T>>) -> bool {
    let n = inputs.len() as int;
    &&& s.valid()
    &&& if s.speaking {
        let o = onset(s, n);
        &&& 0 <= o - s.lead_frames
        &&& o < n
        &&& inputs[o].speech
        &&& all_silence(inputs, o - s.lead_frames, o)
        &&& s.audio == frames_of(inputs.subrange(o - s.lead_frames, n)).flatten()
        &&& all_silence(inputs, n - s.silence_run, n)
    } else {
        let p = s.pre_roll.len() as int;
        &&& p <= n
        &&& s.pre_roll == frames_of(inputs.subrange(n - p, n))
        &&& all_silence(inputs, n - p, n)
    }
}

/// What holds of a segment `seg` handed out when input `j` is taken by a
/// segmenter with the limits of `start`.
pub open spec fn cut_from<T>(
    start: SegmenterModel<T>,
    inputs: Seq<Observed<T>>,
    j: int,
    seg: SegmentModel<T>,
) -> bool {
    let total = seg.samples.len() as int / FRAME_SIZE as int;
    let o = j + 1 - (total - seg.lead_frames);
    &&& seg.samples.len() == total * FRAME_SIZE
    &&& seg.lead_frames <= PRE_ROLL_FRAMES
    &&& 0 <= o - seg.lead_frames
    &&& o <= j
    &&& inputs[o].speech
    &&& all_silence(inputs, o - seg.lead_frames, o)
    &&& seg.samples == frames_of(inputs.subrange(o - seg.lead_frames, j + 1)).flatten()
    &&& seg.samples.len() >= MIN_SEGMENT_SAMPLES
    &&& total <= start.max_frames
    &&& {
        ||| (start.silence_frames <= j - o && all_silence(inputs, j + 1 - start.silence_frames, j + 1))
        ||| total >= start.max_frames
    }
}

/// Taking a full frame leads from a valid state to a valid state.
pub proof fn lemma_step_valid<T>(s: SegmenterModel<T>, frame: Seq<T>, speech: bool)
    requires
        s.valid(),
        frame.len() == FRAME_SIZE,
    ensures
        s.step(frame, speech).0.valid(),
        s.step(frame, speech).0.silence_frames == s.silence_frames,
        s.step(frame, speech).0.max_frames == s.max_frames,
{
    if !s.speaking {
        if speech {
            lemma_flatten_frames(s.pre_roll);
        } else {
            let pushed = s.pre_roll.push(frame);
            let kept = newest(pushed, PRE_ROLL_FRAMES as nat);
            assert forall|i: int| 0 <= i < kept.len() implies (#[trigger] kept[i]).len() == FRAME_SIZE by {
                if pushed.len() > PRE_ROLL_FRAMES {
                    assert(kept[i] == pushed[i + pushed.len() - PRE_ROLL_FRAMES]);
                }
            }
        }
    } else {
    }
}

/// Full frames, laid end to end, hold `FRAME_SIZE` samples each.
pub proof fn lemma_flatten_frames<T>(frames: Seq<Seq<T>>)
    requires
        forall|i: int| 0 <= i < frames.len() ==> (#[trigger] frames[i]).len() == FRAME_SIZE,
    ensures
        frames.flatten().len() == frames.len() * FRAME_SIZE,
    decreases frames.len(),
{
    if frames.len() == 0 {
    } else {
        let front = frames.drop_last();
        lemma_flatten_frames(front);
        front.lemma_flatten_push(frames.last());
        assert(front.push(frames.last()) =~= frames);
        assert((front.len() + 1) * FRAME_SIZE == front.len() * FRAME_SIZE + FRAME_SIZE) by (nonlinear_arith);
    }
}

/// One step keeps the state in agreement with the inputs, and a segment that
/// the step hands out is cut from them as `cut_from` says.
pub proof fn lemma_step_tracks<T>(
    start: SegmenterModel<T>,
    s: SegmenterModel<T>,
    inputs: Seq<Observed<T>>,
    next: Observed<T>,
)
    requires
        tracks(s, inputs),
        next.frame.len() == FRAME_SIZE,
        s.silence_frames == start.silence_frames,
        s.max_frames == start.max_frames,
    ensures
        tracks(s.step(next.frame, next.speech).0, inputs.push(next)),
        s.step(next.frame, next.speech).1 matches Some(seg) ==> cut_from(
            start,
            inputs.push(next),
            inputs.len() as int,
            seg,
        ),
        s.step(next.frame, next.speech).1 matches Some(seg) ==> seg.index == s.emitted + 1
            && s.step(next.frame, next.speech).0.emitted == s.emitted + 1,
        s.step(next.frame, next.speech).1 is None ==> s.step(next.frame, next.speech).0.emitted
            == s.emitted,
{
    let n = inputs.len() as int;
    let all = inputs.push(next);
    let after = s.step(next.frame, next.speech).0;
    lemma_step_valid(s, next.frame, next.speech);
    if !s.speaking {
        let p = s.pre_roll.len() as int;
        if next.speech {
            assert(onset(after, n + 1) == n);
            assert(all[n] == next);
            assert(all.subrange(n - p, n + 1) =~= inputs.subrange(n - p, n).push(next));
            assert(frames_of(all.subrange(n - p, n + 1)) =~= frames_of(inputs.subrange(n - p, n)).push(
                next.frame,
            ));
            frames_of(inputs.subrange(n - p, n)).lemma_flatten_push(next.frame);
            assert forall|k: int| n - p <= k < n implies !(#[trigger] all[k]).speech by {
                assert(all[k] == inputs[k]);
            }
        } else {
            let pushed = s.pre_roll.push(next.frame);
            let q = after.pre_roll.len() as int;
            assert(pushed =~= frames_of(all.subrange(n - p, n + 1))) by {
                assert(all.subrange(n - p, n + 1) =~= inputs.subrange(n - p, n).push(next));
            }
            assert(after.pre_roll =~= frames_of(all.subrange(n + 1 - q, n + 1)));
            assert forall|k: int| n + 1 - q <= k < n + 1 implies !(#[trigger] all[k]).speech by {
                if k < n {
                    assert(all[k] == inputs[k]);
                }
            }
        }
    } else {
        let o = onset(s, n);
        let a = o - s.lead_frames;
        let grown = s.appended(next.frame, next.speech);
        assert(all.subrange(a, n + 1) =~= inputs.subrange(a, n).push(next));
        assert(frames_of(all.subrange(a, n + 1)) =~= frames_of(inputs.subrange(a, n)).push(next.frame));
        frames_of(inputs.subrange(a, n)).lemma_flatten_push(next.frame);
        assert(grown.audio == frames_of(all.subrange(a, n + 1)).flatten());
        assert(all[o] == inputs[o]);
        assert forall|k: int| a <= k < o implies !(#[trigger] all[k]).speech by {
            assert(all[k] == inputs[k]);
        }
        assert forall|k: int| n + 1 - grown.silence_run <= k < n + 1 implies !(#[trigger] all[k]).speech by {
            if k < n {
                assert(all[k] == inputs[k]);
            }
        }
        assert(grown.audio.len() == grown.frames * FRAME_SIZE) by (nonlinear_arith)
            requires
                grown.audio.len() == s.audio.len() + FRAME_SIZE,
                s.audio.len() == s.frames * FRAME_SIZE,
                grown.frames == s.frames + 1,
        ;
        assert(after.pre_roll.len() == 0);
        assert(frames_of(all.subrange(n + 1, n + 1)) =~= Seq::<Seq<T>>::empty());
        if grown.due() {
            if grown.deliverable() {
                let seg = grown.finalize().1->0;
                let total = seg.samples.len() as int / FRAME_SIZE as int;
                assert(total == grown.frames) by (nonlinear_arith)
                    requires
                        seg.samples.len() == grown.frames * FRAME_SIZE,
                        total == seg.samples.len() as int / FRAME_SIZE as int,
                        FRAME_SIZE == 512,
                ;
                assert(n + 1 - (total - seg.lead_frames) == o);
                assert(grown.frames >= 16) by (nonlinear_arith)
                    requires
                        grown.frames * 512 >= 8000,
                ;
            }
        }
    }
}

/// Taking well-framed inputs from a fresh segmenter keeps state and inputs
/// in agreement.
pub proof fn lemma_session_tracks<T>(silence_frames: nat, max_frames: nat, inputs: Seq<Observed<T>>)
    requires
        silence_frames <= u32::MAX,
        max_frames <= u32::MAX,
        well_framed(inputs),
    ensures
        tracks(state_after(SegmenterModel::<T>::initial(silence_frames, max_frames), inputs), inputs),
        state_after(SegmenterModel::<T>::initial(silence_frames, max_frames), inputs).silence_frames
            == silence_frames,
        state_after(SegmenterModel::<T>::initial(silence_frames, max_frames), inputs).max_frames
            == max_frames,
        state_after(SegmenterModel::<T>::initial(silence_frames, max_frames), inputs).emitted
            == emitted_count(SegmenterModel::<T>::initial(silence_frames, max_frames), inputs),
    decreases inputs.len(),
{
    let start = SegmenterModel::<T>::initial(silence_frames, max_frames);
    if inputs.len() == 0 {
        assert(inputs.subrange(0, 0) =~= Seq::<Observed<T>>::empty());
        assert(frames_of(inputs.subrange(0, 0)) =~= Seq::<Seq<T>>::empty());
    } else {
        let front = inputs.drop_last();
        let last = inputs.last();
        lemma_session_tracks::<T>(silence_frames, max_frames, front);
        let s = state_after(start, front);
        lemma_step_tracks(start, s, front, last);
        lemma_step_valid(s, last.frame, last.speech);
        assert(front.push(last) =~= inputs);
        assert(inputs.take(inputs.len() - 1) =~= front);
    }
}

/// Every segment handed out in a session is cut from the session's inputs:
/// it starts with at most `PRE_ROLL_FRAMES` frames that carried silence
/// verdicts and came right before the first speech verdict of the segment,
/// runs without a gap up to the input that ended it, holds at least half a
/// second and at most `max_frames` frames, and ended either on
/// `silence_frames` silence verdicts in a row, seen after the onset, or at
/// `max_frames` frames.
pub proof fn theorem_segments_cut_from_inputs<T>(
    silence_frames: nat,
    max_frames: nat,
    inputs: Seq<Observed<T>>,
    j: int,
)
    requires
        silence_frames <= u32::MAX,
        max_frames <= u32::MAX,
        well_framed(inputs),
        0 <= j < inputs.len(),
    ensures
        emitted_at(SegmenterModel::<T>::initial(silence_frames, max_frames), inputs, j) matches Some(
            seg,
        ) ==> cut_from(SegmenterModel::<T>::initial(silence_frames, max_frames), inputs, j, seg),
{
    let start = SegmenterModel::<T>::initial(silence_frames, max_frames);
    let front = inputs.take(j);
    lemma_session_tracks::<T>(silence_frames, max_frames, front);
    let s = state_after(start, front);
    lemma_step_tracks(start, s, front, inputs[j]);
    if let Some(seg) = emitted_at(start, inputs, j) {
        let upto = front.push(inputs[j]);
        assert(cut_from(start, upto, j, seg));
        lemma_cut_from_prefix(start, upto, inputs, j, seg);
    }
}

/// `cut_from` speaks only of the inputs up to `j`.
proof fn lemma_cut_from_prefix<T>(
    start: SegmenterModel<T>,
    upto: Seq<Observed<T>>,
    inputs: Seq<Observed<T>>,
    j: int,
    seg: SegmentModel<T>,
)
    requires
        0 <= j < inputs.len(),
        upto =~= inputs.take(j + 1),
        cut_from(start, upto, j, seg),
    ensures
        cut_from(start, inputs, j, seg),
{
    let total = seg.samples.len() as int / FRAME_SIZE as int;
    let o = j + 1 - (total - seg.lead_frames);
    let a = o - seg.lead_frames;
    assert(upto[o] == inputs[o]);
    assert(upto.subrange(a, j + 1) =~= inputs.subrange(a, j + 1));
    assert forall|k: int| a <= k < o implies !(#[trigger] inputs[k]).speech by {
        assert(upto[k] == inputs[k]);
    }
    if start.silence_frames <= j - o && all_silence(upto, j + 1 - start.silence_frames, j + 1) {
        assert forall|k: int| j + 1 - start.silence_frames <= k < j + 1 implies !(
        #[trigger] inputs[k]).speech by {
            assert(upto[k] == inputs[k]);
        }
    }
}

/// The segments of a session are numbered 1, 2, 3, … in the order in which
/// they are handed out: a segment's index is one more than the number of
/// segments handed out before it.
pub proof fn theorem_indices_count_up<T>(
    silence_frames: nat,
    max_frames: nat,
    inputs: Seq<Observed<T>>,
    j: int,
)
    requires
        silence_frames <= u32::MAX,
        max_frames <= u32::MAX,
        well_framed(inputs),
        0 <= j < inputs.len(),
    ensures
        emitted_at(SegmenterModel::<T>::initial(silence_frames, max_frames), inputs, j) matches Some(
            seg,
        ) ==> seg.index == emitted_count(
            SegmenterModel::<T>::initial(silence_frames, max_frames),
            inputs.take(j),
        ) + 1,
{
    let start = SegmenterModel::<T>::initial(silence_frames, max_frames);
    let front = inputs.take(j);
    lemma_session_tracks::<T>(silence_frames, max_frames, front);
    lemma_step_tracks(start, state_after(start, front), front, inputs[j]);
}

/// The number of segments handed out never goes down as a session goes on,
/// so indices of later segments are strictly greater than those of earlier
/// ones.
pub proof fn theorem_indices_increase<T>(
    silence_frames: nat,
    max_frames: nat,
    inputs: Seq<Observed<T>>,
    i: int,
    j: int,
)
    requires
        silence_frames <= u32::MAX,
        max_frames <= u32::MAX,
        well_framed(inputs),
        0 <= i < j < inputs.len(),
        emitted_at(SegmenterModel::<T>::initial(silence_frames, max_frames), inputs, i) is Some,
        emitted_at(SegmenterModel::<T>::initial(silence_frames, max_frames), inputs, j) is Some,
    ensures
        emitted_at(SegmenterModel::<T>::initial(silence_frames, max_frames), inputs, i)->0.index
            < emitted_at(SegmenterModel::<T>::initial(silence_frames, max_frames), inputs, j)->0.index,
        emitted_at(SegmenterModel::<T>::initial(silence_frames, max_frames), inputs, i)->0.index >= 1,
{
    let start = SegmenterModel::<T>::initial(silence_frames, max_frames);
    theorem_indices_count_up::<T>(silence_frames, max_frames, inputs, i);
    theorem_indices_count_up::<T>(silence_frames, max_frames, inputs, j);
    lemma_count_grows(start, inputs.take(j), i + 1);
    assert(inputs.take(j).take(i + 1) =~= inputs.take(i + 1));
    assert(inputs.take(i + 1).drop_last() =~= inputs.take(i));
    assert(inputs.take(i + 1).take(i) =~= inputs.take(i));
    assert(inputs.take(i + 1)[i] == inputs[i]);
}

/// A longer session has handed out at least as many segments as any of its
/// prefixes.
pub proof fn lemma_count_grows<T>(start: SegmenterModel<T>, inputs: Seq<Observed<T>>, k: int)
    requires
        0 <= k <= inputs.len(),
    ensures
        emitted_count(start, inputs.take(k)) <= emitted_count(start, inputs),
    decreases inputs.len(),
{
    if k == inputs.len() {
        assert(inputs.take(k) =~= inputs);
    } else {
        lemma_count_grows(start, inputs.drop_last(), k);
        assert(inputs.drop_last().take(k) =~= inputs.take(k));
    }
}

/// Whole frames cover a duration with less than one frame to spare, and
/// exactly where the duration is a whole number of frames.
pub proof fn lemma_frames_cover_exactly(ms: int)
    requires
        0 <= ms,
    ensures
        ms * 16 <= frames_covering(ms) * FRAME_SIZE < ms * 16 + FRAME_SIZE,
        ms % 32 == 0 ==> frames_covering(ms) * FRAME_SIZE == ms * 16,
{
}

/// Every segment handed out in a session holds at least half a second of
/// audio and no more frames than cover the longest segment allowed. Where
/// that limit is a whole number of frames, the segment is no longer than
/// the limit itself, at 16 samples to the millisecond.
pub proof fn theorem_segment_length<T>(
    silence_tail_ms: u32,
    max_segment_ms: u32,
    inputs: Seq<Observed<T>>,
    j: int,
)
    requires
        well_framed(inputs),
        0 <= j < inputs.len(),
    ensures
        emitted_at(
            SegmenterModel::<T>::initial(
                frames_covering(silence_tail_ms as int) as nat,
                frames_covering(max_segment_ms as int) as nat,
            ),
            inputs,
            j,
        ) matches Some(seg) ==> {
            &&& seg.samples.len() >= MIN_SEGMENT_SAMPLES
            &&& seg.samples.len() <= frames_covering(max_segment_ms as int) * FRAME_SIZE
            &&& max_segment_ms % 32 == 0 ==> seg.samples.len() <= max_segment_ms * 16
        },
{
    let silence_frames = frames_covering(silence_tail_ms as int) as nat;
    let max_frames = frames_covering(max_segment_ms as int) as nat;
    theorem_segments_cut_from_inputs::<T>(silence_frames, max_frames, inputs, j);
    lemma_frames_cover_exactly(max_segment_ms as int);
    let start = SegmenterModel::<T>::initial(silence_frames, max_frames);
    if let Some(seg) = emitted_at(start, inputs, j) {
        let total = seg.samples.len() as int / FRAME_SIZE as int;
        assert(total * FRAME_SIZE <= max_frames * FRAME_SIZE) by (nonlinear_arith)
            requires
                total <= max_frames,
        ;
    }
}

/// Stopping a session hands out exactly one segment if a segment is in
/// progress, holds at least half a second and the index has not run out,
/// and none otherwise. The segmenter is idle afterwards, so that stopping
/// once more hands out nothing.
pub proof fn theorem_stop_flushes_once<T>(s: SegmenterModel<T>)
    requires
        s.valid(),
    ensures
        s.flush().1 is Some <==> s.speaking && s.audio.len() >= MIN_SEGMENT_SAMPLES && s.emitted
            < u32::MAX,
        s.flush().1 matches Some(seg) ==> seg.samples == s.audio && seg.index == s.emitted + 1,
        !s.flush().0.speaking,
        s.flush().0.valid(),
        s.flush().0.flush() == (s.flush().0, None::<SegmentModel<T>>),
{
}

} // verus!
