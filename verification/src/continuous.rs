//! Continuous listening: what the thread that segments speech does with
//! each frame, and what the worker does with each transcription.

use vstd::prelude::*;
use vstd::string::*;
use crate::database::TranscriptionEntry;
use crate::frame::Frame;
use crate::json::{lemma_list_view, lemma_object_view, print_json, printed_json, Json, JsonModel};
use crate::request::text_member;
use crate::segmenter::{segment_model, Segment, Segmenter};
use crate::text::{chars_of, decimal_text, opt_text, push_decimal, string_of, trim_range, trimmed};
use crate::transcription::EngineError;
use crate::types::{TranscriptionResult, TranscriptionSegment};
use crate::vad::VadEvent;

verus! {

/// Longest wait for a frame before the segmenting thread looks at the
/// stop request again, in milliseconds.
pub const FRAME_WAIT_MS: u64 = 100;

/// Longest wait for a segment before the worker looks at the stop request
/// again, in milliseconds.
pub const SEGMENT_WAIT_MS: u64 = 500;

/// Whether continuous listening is on, and how much it has transcribed.
#[derive(Debug, Clone, Copy)]
pub struct ContinuousListeningStatus {
    /// Whether the pipeline runs.
    pub is_listening: bool,
    /// Number of segments transcribed and kept in this session.
    pub segment_count: u32,
}

/// The news that a segment was transcribed and kept.
#[derive(Debug)]
pub struct ContinuousTranscriptionEvent {
    /// Key of the entry in the history.
    pub id: i64,
    /// What was said.
    pub text: String,
    /// When the entry was made.
    pub created_at: String,
    /// Length of the segment in milliseconds.
    pub duration_ms: Option<u64>,
    /// The language that was spoken.
    pub language: Option<String>,
    /// Name of the model that transcribed.
    pub model_name: Option<String>,
}

/// What the segmenting thread meets at the top of its loop.
pub enum LoopInput<T> {
    /// A stop was requested.
    Stop,
    /// A frame came, with the detector's verdict on it.
    Frame(VadEvent, Frame<T>),
    /// No frame came in time.
    Timeout,
    /// The frame queue is closed and empty.
    Disconnected,
}

/// What the segmenting thread has to do next.
pub struct LoopStep<T> {
    /// The segment to write out and to queue for the worker.
    pub segment: Option<Segment<T>>,
    /// Whether the detector has to be reset before the next frame.
    pub reset_detector: bool,
    /// Whether the thread is done.
    pub exit: bool,
}

/// One round of the segmenting thread. A frame goes through the
/// segmenter. A stop request and the end of the frame queue end the
/// thread; a segment that was in progress is finished first. The detector
/// is reset after every segment that is handed out.
pub fn loop_step<T>(segmenter: &mut Segmenter<T>, input: LoopInput<T>) -> (step: LoopStep<T>)
    requires
        old(segmenter).wf(),
    ensures
        final(segmenter).wf(),
        match input {
            LoopInput::Frame(event, frame) => {
                &&& final(segmenter)@ == old(segmenter)@.step(frame@, event.speech()).0
                &&& segment_model(step.segment) == old(segmenter)@.step(frame@, event.speech()).1
                &&& !step.exit
            },
            LoopInput::Timeout => {
                &&& final(segmenter)@ == old(segmenter)@
                &&& step.segment is None
                &&& !step.exit
            },
            LoopInput::Stop | LoopInput::Disconnected => {
                &&& final(segmenter)@ == old(segmenter)@.flush().0
                &&& segment_model(step.segment) == old(segmenter)@.flush().1
                &&& step.exit
            },
        },
        step.reset_detector == step.segment is Some,
{
    match input {
        LoopInput::Frame(event, frame) => {
            let segment = segmenter.process(event, frame);
            let reset_detector = segment.is_some();
            LoopStep { segment, reset_detector, exit: false }
        },
        LoopInput::Timeout => LoopStep { segment: None, reset_detector: false, exit: false },
        LoopInput::Stop | LoopInput::Disconnected => {
            let segment = segmenter.flush();
            let reset_detector = segment.is_some();
            LoopStep { segment, reset_detector, exit: true }
        },
    }
}

/// What the worker meets when it waits for a segment in vain.
#[derive(Debug, Clone, Copy)]
pub enum Idle {
    /// No segment came in time.
    Timeout,
    /// The segment queue is closed and empty.
    Disconnected,
}

/// Whether the worker is done: the segment queue is closed, or a stop
/// was requested and no segment is left in the queue. Segments that are
/// queued at the time of a stop are still transcribed.
pub fn worker_done(idle: Idle, stop_requested: bool, queue_empty: bool) -> (done: bool)
    ensures
        done == (idle is Disconnected || (stop_requested && queue_empty)),
{
    match idle {
        Idle::Disconnected => true,
        Idle::Timeout => stop_requested && queue_empty,
    }
}

/// Why a transcription is not kept.
#[derive(Debug, Clone, Copy, PartialEq, Eq, Structural)]
pub enum Skip {
    /// The engine gave no result.
    Failed,
    /// The engine's result is marked as failed.
    Unsuccessful,
    /// The engine heard no speech.
    NoSpeech,
    /// The text is empty or white space only.
    Blank,
}

/// What becomes of a segment once the engine has answered.
#[derive(Debug)]
pub enum SegmentOutcome {
    /// The entry goes into the history.
    Keep(TranscriptionEntry),
    /// Nothing is kept.
    Skip(Skip),
}

/// The reason for which a result is not kept, if there is one.
pub open spec fn skip_reason(result: Result<TranscriptionResult, EngineError>) -> Option<Skip> {
    match result {
        Err(_) => Some(Skip::Failed),
        Ok(t) => if !t.success {
            Some(Skip::Unsuccessful)
        } else if t.no_speech == Some(true) {
            Some(Skip::NoSpeech)
        } else if trimmed(t.text@).len() == 0 {
            Some(Skip::Blank)
        } else {
            None
        },
    }
}

/// The pieces of a transcription as a JSON array of objects.
pub open spec fn pieces_doc(pieces: Seq<TranscriptionSegment>) -> JsonModel {
    JsonModel::List(
        Seq::new(
            pieces.len(),
            |i: int|
                JsonModel::Object(
                    seq![
                        ("start"@, JsonModel::Number(pieces[i].start@)),
                        ("end"@, JsonModel::Number(pieces[i].end@)),
                        text_member("text"@, pieces[i].text@),
                    ],
                ),
        ),
    )
}

/// The pieces of a transcription as a JSON array of objects.
pub fn pieces_json(pieces: &Vec<TranscriptionSegment>) -> (doc: Json)
    ensures
        doc@ == pieces_doc(pieces@),
{
    let mut items: Vec<Json> = Vec::new();
    let mut i: usize = 0;
    while i < pieces.len()
        invariant
            i <= pieces@.len(),
            items@.len() == i,
            forall|k: int|
                0 <= k < i ==> (#[trigger] items@[k])@ == JsonModel::Object(
                    seq![
                        ("start"@, JsonModel::Number(pieces@[k].start@)),
                        ("end"@, JsonModel::Number(pieces@[k].end@)),
                        text_member("text"@, pieces@[k].text@),
                    ],
                ),
        decreases pieces@.len() - i,
    {
        let mut members: Vec<(String, Json)> = Vec::new();
        members.push((String::from_str("start"), Json::Number(pieces[i].start.duplicate())));
        members.push((String::from_str("end"), Json::Number(pieces[i].end.duplicate())));
        members.push((String::from_str("text"), Json::Text(pieces[i].text.clone())));
        proof {
            lemma_object_view(members);
            assert(Json::Object(members)@->Object_0 =~= seq![
                ("start"@, JsonModel::Number(pieces@[i as int].start@)),
                ("end"@, JsonModel::Number(pieces@[i as int].end@)),
                text_member("text"@, pieces@[i as int].text@),
            ]);
        }
        items.push(Json::Object(members));
        i = i + 1;
    }
    proof {
        lemma_list_view(items);
        assert(Json::List(items)@->List_0 =~= pieces_doc(pieces@)->List_0);
    }
    Json::List(items)
}

/// Whether `entry` is the entry that is kept for a transcription of a
/// segment of `duration_ms` milliseconds: the text without the white
/// space around it, the language unless it is empty, the pieces as JSON
/// unless there are none, and nothing that only the store knows.
pub open spec fn entry_matches(entry: TranscriptionEntry, t: TranscriptionResult, duration_ms: u64) -> bool {
    &&& entry.id is None
    &&& entry.created_at@.len() == 0
    &&& entry.duration_ms == Some(duration_ms)
    &&& entry.text@ == trimmed(t.text@)
    &&& entry.raw_text is None
    &&& opt_text(entry.language) == if t.language@.len() == 0 {
        None
    } else {
        Some(t.language@)
    }
    &&& entry.model_name is None
    &&& opt_text(entry.segments_json) == if t.segments@.len() == 0 {
        None
    } else {
        Some(printed_json(pieces_doc(t.segments@)))
    }
}

/// Decides what becomes of a segment of `duration_ms` milliseconds once
/// the engine has answered. Nothing is kept where the engine failed,
/// heard no speech or gave a text of white space only. The recording of
/// the segment is of no use afterwards either way.
pub fn decide_segment(result: Result<TranscriptionResult, EngineError>, duration_ms: u64) -> (outcome:
    SegmentOutcome)
    ensures
        match outcome {
            SegmentOutcome::Skip(why) => skip_reason(result) == Some(why),
            SegmentOutcome::Keep(entry) => {
                &&& skip_reason(result) is None
                &&& result matches Ok(t)
                &&& entry_matches(entry, t, duration_ms)
            },
        },
{
    let t = match result {
        Ok(t) => t,
        Err(_) => {
            return SegmentOutcome::Skip(Skip::Failed);
        },
    };
    if !t.success {
        return SegmentOutcome::Skip(Skip::Unsuccessful);
    }
    match t.no_speech {
        Some(true) => {
            return SegmentOutcome::Skip(Skip::NoSpeech);
        },
        _ => {},
    }
    let chars = chars_of(t.text.as_str());
    let (from, to) = trim_range(&chars, 0, chars.len());
    assert(chars@.subrange(0, chars@.len() as int) =~= chars@);
    assert(chars@.subrange(from as int, to as int).len() == to - from);
    if from == to {
        return SegmentOutcome::Skip(Skip::Blank);
    }
    let language = if t.language.as_str().is_empty() {
        None
    } else {
        Some(t.language.clone())
    };
    let segments_json = if t.segments.len() == 0 {
        None
    } else {
        Some(print_json(&pieces_json(&t.segments)))
    };
    SegmentOutcome::Keep(
        TranscriptionEntry {
            id: None,
            created_at: String::new(),
            duration_ms: Some(duration_ms),
            text: string_of(&chars, from, to),
            raw_text: None,
            language,
            model_name: None,
            segments_json,
        },
    )
}

/// The news of an entry that the store took under the key `id`.
pub fn transcription_event(id: i64, entry: &TranscriptionEntry) -> (event: ContinuousTranscriptionEvent)
    ensures
        event.id == id,
        event.text@ == entry.text@,
        event.created_at@ == entry.created_at@,
        event.duration_ms == entry.duration_ms,
        opt_text(event.language) == opt_text(entry.language),
        event.model_name is None,
{
    ContinuousTranscriptionEvent {
        id,
        text: entry.text.clone(),
        created_at: entry.created_at.clone(),
        duration_ms: entry.duration_ms,
        language: match &entry.language {
            Some(l) => Some(l.clone()),
            None => None,
        },
        model_name: None,
    }
}

/// A result that is kept has a text that is more than white space, and a
/// result that reports no speech is never kept.
pub proof fn lemma_blank_and_silent_results_are_skipped(result: Result<TranscriptionResult, EngineError>)
    ensures
        (result matches Ok(t) && trimmed(t.text@).len() == 0) ==> skip_reason(result) is Some,
        (result matches Ok(t) && t.no_speech == Some(true)) ==> skip_reason(result) is Some,
        result is Err ==> skip_reason(result) == Some(Skip::Failed),
{
}

/// The name of the file that holds the recording of a segment.
pub open spec fn segment_file(index: nat) -> Seq<char> {
    "segment_"@ + decimal_text(index) + ".wav"@
}

/// The name of the file that holds the recording of the segment with the
/// given index: `segment_`, the index, and `.wav`.
pub fn segment_file_name(index: u32) -> (name: String)
    ensures
        name@ == segment_file(index as nat),
{
    let mut name = String::from_str("segment_");
    push_decimal(&mut name, index);
    name.append(".wav");
    name
}

} // verus!
