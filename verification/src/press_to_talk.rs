//! Press-to-talk: what happens when the hotkey goes down and when it
//! comes up again.
//!
//! The controller decides and the program acts. When the key goes down a
//! running pipeline of continuous listening makes way and a recording is
//! started. When the key comes up the recording is transcribed, rewritten
//! if that is asked for, pasted if that is asked for, and continuous
//! listening is taken up again if it had to make way.

use vstd::prelude::*;
use vstd::string::*;
use crate::transcription::EngineError;
use crate::types::{PostProcessResult, TranscriptionResult};

verus! {

/// What the program shows of a recording.
#[derive(Debug, Clone, Copy, PartialEq, Eq, Structural)]
pub enum RecordingPhase {
    /// Nothing is going on.
    Idle,
    /// The microphone is recorded.
    Recording,
    /// The recording is being transcribed.
    Transcribing,
}

impl RecordingPhase {
    /// The name of the phase in events.
    pub open spec fn wire_name(self) -> Seq<char> {
        match self {
            RecordingPhase::Idle => "idle"@,
            RecordingPhase::Recording => "recording"@,
            RecordingPhase::Transcribing => "transcribing"@,
        }
    }

    /// The name of the phase in events.
    pub fn name(&self) -> (r: &'static str)
        ensures
            r@ == self.wire_name(),
    {
        match self {
            RecordingPhase::Idle => "idle",
            RecordingPhase::Recording => "recording",
            RecordingPhase::Transcribing => "transcribing",
        }
    }
}

/// One thing for the program to do.
#[derive(Debug)]
pub enum TalkStep {
    /// Stop the pipeline of continuous listening and wait for it.
    StopPipeline,
    /// Start recording the microphone into a fresh file.
    StartCapture,
    /// Tell the user interface about the phase.
    Emit(RecordingPhase),
    /// Tell the user interface that something went wrong.
    EmitError(String),
    /// Announce the transcription.
    Complete { text: String, no_speech: bool },
    /// Announce that there is no transcription, and why.
    Failed(String),
    /// Paste the text into the application in front.
    Paste(String),
    /// Remove the file of the recording.
    RemoveFile(String),
    /// Start the pipeline of continuous listening again, as it was.
    ResumePipeline,
}

/// One thing for the program to do, as a mathematical value.
pub ghost enum StepModel {
    StopPipeline,
    StartCapture,
    Emit(RecordingPhase),
    EmitError(Seq<char>),
    Complete { text: Seq<char>, no_speech: bool },
    Failed(Seq<char>),
    Paste(Seq<char>),
    RemoveFile(Seq<char>),
    ResumePipeline,
}

impl View for TalkStep {
    type V = StepModel;

    open spec fn view(&self) -> StepModel {
        match self {
            TalkStep::StopPipeline => StepModel::StopPipeline,
            TalkStep::StartCapture => StepModel::StartCapture,
            TalkStep::Emit(p) => StepModel::Emit(*p),
            TalkStep::EmitError(m) => StepModel::EmitError(m@),
            TalkStep::Complete { text, no_speech } => StepModel::Complete {
                text: text@,
                no_speech: *no_speech,
            },
            TalkStep::Failed(m) => StepModel::Failed(m@),
            TalkStep::Paste(t) => StepModel::Paste(t@),
            TalkStep::RemoveFile(f) => StepModel::RemoveFile(f@),
            TalkStep::ResumePipeline => StepModel::ResumePipeline,
        }
    }
}

/// The steps of a list as mathematical values.
pub open spec fn plan(steps: Seq<TalkStep>) -> Seq<StepModel> {
    steps.map_values(|s: TalkStep| s@)
}

/// The step that takes continuous listening up again, if it had to make
/// way.
pub open spec fn resume_if(was_listening: bool) -> Seq<StepModel> {
    if was_listening {
        seq![StepModel::ResumePipeline]
    } else {
        seq![]
    }
}

/// Whether the engine heard no speech.
pub open spec fn heard_nothing(t: TranscriptionResult) -> bool {
    t.no_speech == Some(true)
}

/// Whether a transcription is to be rewritten: rewriting is switched on,
/// there is a text, and the engine heard speech.
pub open spec fn rewrite_wanted(enabled: bool, t: TranscriptionResult) -> bool {
    enabled && t.text@.len() > 0 && !heard_nothing(t)
}

/// The text that goes out: the rewritten text where rewriting worked, and
/// the text as transcribed in every other case.
pub open spec fn text_to_use(
    transcribed: Seq<char>,
    rewritten: Option<Result<PostProcessResult, EngineError>>,
) -> Seq<char> {
    match rewritten {
        Some(Ok(p)) => if p.success {
            p.processed_text@
        } else {
            transcribed
        },
        _ => transcribed,
    }
}

/// Whether a text is to be pasted: pasting is switched on, there is a
/// text, and the engine heard speech.
pub open spec fn insert_wanted(auto_insert: bool, text: Seq<char>, no_speech: bool) -> bool {
    auto_insert && text.len() > 0 && !no_speech
}

/// Whether a transcription is to be rewritten.
pub fn wants_rewrite(enabled: bool, t: &TranscriptionResult) -> (r: bool)
    ensures
        r == rewrite_wanted(enabled, *t),
{
    enabled && !t.text.as_str().is_empty() && !no_speech_in(t)
}

/// Whether the engine heard no speech.
pub fn no_speech_in(t: &TranscriptionResult) -> (r: bool)
    ensures
        r == heard_nothing(*t),
{
    match t.no_speech {
        Some(true) => true,
        _ => false,
    }
}

/// The text that goes out: the rewritten text where rewriting worked, and
/// the text as transcribed where it failed or was not tried.
pub fn choose_text(transcribed: &str, rewritten: Option<Result<PostProcessResult, EngineError>>) -> (r: String)
    ensures
        r@ == text_to_use(transcribed@, rewritten),
{
    match rewritten {
        Some(Ok(p)) => if p.success {
            p.processed_text
        } else {
            String::from_str(transcribed)
        },
        _ => String::from_str(transcribed),
    }
}

/// The controller as a mathematical value.
pub ghost struct TalkModel {
    /// Whether a recording is under way.
    pub recording: bool,
    /// The file that is recorded into.
    pub file: Option<Seq<char>>,
    /// Whether continuous listening had to make way for the recording.
    pub was_listening: bool,
    /// Whether the user has been told that keystrokes may not be sent.
    pub denial_reported: bool,
}

/// The steps that end a press-to-talk round in which no transcription
/// came about.
pub open spec fn abandoned(message: Seq<char>, was_listening: bool) -> Seq<StepModel> {
    seq![StepModel::EmitError(message), StepModel::Emit(RecordingPhase::Idle)] + resume_if(
        was_listening,
    )
}

/// The steps that end a press-to-talk round after the engine answered.
pub open spec fn concluded(
    file: Seq<char>,
    transcription: Result<TranscriptionResult, EngineError>,
    rewritten: Option<Result<PostProcessResult, EngineError>>,
    auto_insert: bool,
    was_listening: bool,
) -> Seq<StepModel> {
    (match transcription {
        Ok(t) => {
            let text = text_to_use(t.text@, rewritten);
            seq![StepModel::Complete { text, no_speech: heard_nothing(t) }] + if insert_wanted(
                auto_insert,
                text,
                heard_nothing(t),
            ) {
                seq![StepModel::Paste(text)]
            } else {
                seq![]
            }
        },
        Err(e) => seq![StepModel::Failed(e@.message_text())],
    }) + seq![StepModel::RemoveFile(file), StepModel::Emit(RecordingPhase::Idle)] + resume_if(
        was_listening,
    )
}

/// The press-to-talk controller.
pub struct PressToTalk {
    recording: bool,
    file: Option<String>,
    was_listening: bool,
    denial_reported: bool,
}

impl View for PressToTalk {
    type V = TalkModel;

    closed spec fn view(&self) -> TalkModel {
        TalkModel {
            recording: self.recording,
            file: match self.file {
                Some(f) => Some(f@),
                None => None,
            },
            was_listening: self.was_listening,
            denial_reported: self.denial_reported,
        }
    }
}

impl PressToTalk {
    /// A controller with nothing going on.
    pub fn new() -> (r: PressToTalk)
        ensures
            r@ == (TalkModel {
                recording: false,
                file: None,
                was_listening: false,
                denial_reported: false,
            }),
    {
        PressToTalk { recording: false, file: None, was_listening: false, denial_reported: false }
    }

    /// Keystrokes could not be sent because the desktop does not permit
    /// it. Pasting is skipped; the user is told so once, and the answer
    /// is whether this is that one time.
    pub fn paste_denied(&mut self) -> (tell: bool)
        ensures
            tell == !old(self)@.denial_reported,
            final(self)@ == (TalkModel { denial_reported: true, ..old(self)@ }),
    {
        let tell = !self.denial_reported;
        self.denial_reported = true;
        tell
    }

    /// Whether a recording is under way.
    pub fn is_recording(&self) -> (r: bool)
        ensures
            r == self@.recording,
    {
        self.recording
    }

    /// Whether continuous listening had to make way and is to be taken up
    /// again.
    pub fn was_listening(&self) -> (r: bool)
        ensures
            r == self@.was_listening,
    {
        self.was_listening
    }

    /// The hotkey went down. A running pipeline is stopped first, and is
    /// remembered; then the recording is started.
    pub fn key_down(&mut self, pipeline_running: bool) -> (steps: Vec<TalkStep>)
        ensures
            final(self)@ == (TalkModel {
                was_listening: old(self)@.was_listening || pipeline_running,
                ..old(self)@
            }),
            plan(steps@) == if pipeline_running {
                seq![StepModel::StopPipeline, StepModel::StartCapture]
            } else {
                seq![StepModel::StartCapture]
            },
    {
        let mut steps: Vec<TalkStep> = Vec::new();
        if pipeline_running {
            self.was_listening = true;
            steps.push(TalkStep::StopPipeline);
        }
        steps.push(TalkStep::StartCapture);
        assert(plan(steps@) =~= if pipeline_running {
            seq![StepModel::StopPipeline, StepModel::StartCapture]
        } else {
            seq![StepModel::StartCapture]
        });
        steps
    }

    /// The recording was started, into the file named, or could not be
    /// started, for the reason given. A recording that runs is shown as
    /// such; one that could not be started is reported, and what is shown
    /// goes back to idle.
    pub fn capture_started(&mut self, outcome: Result<String, String>) -> (steps: Vec<TalkStep>)
        ensures
            match outcome {
                Ok(file) => final(self)@ == (TalkModel {
                    recording: true,
                    file: Some(file@),
                    ..old(self)@
                }) && plan(steps@) == seq![StepModel::Emit(RecordingPhase::Recording)],
                Err(why) => final(self)@ == old(self)@ && plan(steps@) == seq![
                    StepModel::EmitError(why@),
                    StepModel::Emit(RecordingPhase::Idle),
                ],
            },
    {
        let mut steps: Vec<TalkStep> = Vec::new();
        match outcome {
            Ok(file) => {
                self.recording = true;
                self.file = Some(file);
                steps.push(TalkStep::Emit(RecordingPhase::Recording));
                assert(plan(steps@) =~= seq![StepModel::Emit(RecordingPhase::Recording)]);
            },
            Err(why) => {
                steps.push(TalkStep::EmitError(why));
                steps.push(TalkStep::Emit(RecordingPhase::Idle));
                assert(plan(steps@) =~= seq![
                    StepModel::EmitError(why@),
                    StepModel::Emit(RecordingPhase::Idle),
                ]);
            },
        }
        steps
    }

    /// The hotkey came up. The recording is over; its file, if there is
    /// one, is handed out for the work that follows. The program shows
    /// that it transcribes, and, before any of that work starts, looks
    /// which application is in front if the text is to be rewritten.
    pub fn key_up(&mut self) -> (file: Option<String>)
        ensures
            final(self)@ == (TalkModel { recording: false, file: None, ..old(self)@ }),
            crate::text::opt_text(file) == old(self)@.file,
    {
        self.recording = false;
        self.file.take()
    }

    /// The recording could not be stopped, or there is no file to
    /// transcribe: the round ends with the reason, what is shown goes back
    /// to idle, and continuous listening is taken up again if it had to
    /// make way.
    pub fn abandon(&mut self, message: &str) -> (steps: Vec<TalkStep>)
        ensures
            final(self)@ == (TalkModel { was_listening: false, ..old(self)@ }),
            plan(steps@) == abandoned(message@, old(self)@.was_listening),
    {
        let mut steps: Vec<TalkStep> = Vec::new();
        steps.push(TalkStep::EmitError(String::from_str(message)));
        steps.push(TalkStep::Emit(RecordingPhase::Idle));
        if self.was_listening {
            steps.push(TalkStep::ResumePipeline);
        }
        assert(plan(steps@) =~= abandoned(message@, old(self)@.was_listening));
        self.was_listening = false;
        steps
    }

    /// The engine has answered, and the rewriter too if it was asked. The
    /// transcription is announced with the text that goes out, the text
    /// is pasted if that is wanted, the file of the recording is removed,
    /// what is shown goes back to idle, and continuous listening is taken
    /// up again if it had to make way.
    pub fn conclude(
        &mut self,
        file: String,
        transcription: Result<TranscriptionResult, EngineError>,
        rewritten: Option<Result<PostProcessResult, EngineError>>,
        auto_insert: bool,
    ) -> (steps: Vec<TalkStep>)
        ensures
            final(self)@ == (TalkModel { was_listening: false, ..old(self)@ }),
            plan(steps@) == concluded(
                file@,
                transcription,
                rewritten,
                auto_insert,
                old(self)@.was_listening,
            ),
    {
        let mut steps: Vec<TalkStep> = Vec::new();
        match transcription {
            Ok(t) => {
                let no_speech = no_speech_in(&t);
                let text = choose_text(t.text.as_str(), rewritten);
                let paste = auto_insert && !text.as_str().is_empty() && !no_speech;
                if paste {
                    steps.push(TalkStep::Complete { text: text.clone(), no_speech });
                    steps.push(TalkStep::Paste(text));
                } else {
                    steps.push(TalkStep::Complete { text, no_speech });
                }
            },
            Err(e) => {
                steps.push(TalkStep::Failed(e.message()));
            },
        }
        steps.push(TalkStep::RemoveFile(file));
        steps.push(TalkStep::Emit(RecordingPhase::Idle));
        if self.was_listening {
            steps.push(TalkStep::ResumePipeline);
        }
        assert(plan(steps@) =~= concluded(
            file@,
            transcription,
            rewritten,
            auto_insert,
            old(self)@.was_listening,
        ));
        self.was_listening = false;
        steps
    }
}

/// Every round of press-to-talk ends with what is shown back at idle, and
/// continuous listening is taken up again exactly when it had to make
/// way, as the last step.
pub proof fn lemma_round_ends_idle_and_resumes(
    file: Seq<char>,
    transcription: Result<TranscriptionResult, EngineError>,
    rewritten: Option<Result<PostProcessResult, EngineError>>,
    auto_insert: bool,
    was_listening: bool,
)
    ensures
        ({
            let steps = concluded(file, transcription, rewritten, auto_insert, was_listening);
            let n = steps.len() as int;
            &&& n >= 3
            &&& was_listening ==> steps[n - 1] == StepModel::ResumePipeline && steps[n - 2]
                == StepModel::Emit(RecordingPhase::Idle) && steps[n - 3] == StepModel::RemoveFile(
                file,
            )
            &&& !was_listening ==> steps[n - 1] == StepModel::Emit(RecordingPhase::Idle) && steps[n
                - 2] == StepModel::RemoveFile(file)
            &&& forall|i: int| 0 <= i < n - 1 ==> steps[i] != StepModel::ResumePipeline
        }),
{
}

/// A text is pasted only where pasting is switched on, the text is not
/// empty and the engine heard speech; and what is pasted is what was
/// announced.
pub proof fn lemma_paste_follows_announcement(
    file: Seq<char>,
    t: TranscriptionResult,
    rewritten: Option<Result<PostProcessResult, EngineError>>,
    auto_insert: bool,
    was_listening: bool,
)
    ensures
        ({
            let steps = concluded(
                file,
                Ok::<TranscriptionResult, EngineError>(t),
                rewritten,
                auto_insert,
                was_listening,
            );
            let text = text_to_use(t.text@, rewritten);
            &&& steps[0] == StepModel::Complete { text, no_speech: heard_nothing(t) }
            &&& steps[1] == StepModel::Paste(text) <==> insert_wanted(auto_insert, text, heard_nothing(t))
            &&& forall|i: int| 2 <= i < steps.len() ==> !(steps[i] is Paste)
        }),
{
}

} // verus!
