//! Settings and the plain records that travel between the parts of the
//! program.

use vstd::prelude::*;
use vstd::string::*;
use crate::json::Number;
use crate::text::{opt_text, str_eq};

verus! {

/// Settings of the post-processing step.
#[derive(Debug)]
pub struct PostProcessSettings {
    /// Whether transcriptions are rewritten at all.
    pub enabled: bool,
    /// Words that are often misheard, each with the word that was meant.
    pub dictionary: Vec<(String, String)>,
    /// Prompt that replaces the built-in one for rewriting.
    pub custom_prompt: Option<String>,
    /// Name of the model that rewrites.
    pub model_name: Option<String>,
    /// Prompt that replaces the built-in one for summaries.
    pub custom_summary_prompt: Option<String>,
}

impl Default for PostProcessSettings {
    /// Post-processing is off and nothing is customised.
    fn default() -> (r: Self)
        ensures
            !r.enabled,
            r.dictionary@.len() == 0,
            r.custom_prompt is None,
            r.model_name is None,
            r.custom_summary_prompt is None,
    {
        PostProcessSettings {
            enabled: false,
            dictionary: Vec::new(),
            custom_prompt: None,
            model_name: None,
            custom_summary_prompt: None,
        }
    }
}

/// Settings of the program.
#[derive(Debug)]
pub struct Settings {
    /// The hotkey for press-to-talk.
    pub hotkey: String,
    /// Language of the speech, or `auto`.
    pub language: String,
    /// Whether a transcription is pasted into the frontmost application.
    pub auto_insert: bool,
    /// Name of the input device; the default device if there is none.
    pub device_name: Option<String>,
    /// Name of the speech model.
    pub model_name: Option<String>,
    /// Settings of the post-processing step.
    pub postprocess: PostProcessSettings,
}

impl Default for Settings {
    /// The settings of a fresh installation.
    fn default() -> (r: Self)
        ensures
            r.hotkey@ == "CommandOrControl+Shift+Space"@,
            r.language@ == "auto"@,
            r.auto_insert,
            r.device_name is None,
            r.model_name is None,
            !r.postprocess.enabled,
            r.postprocess.dictionary@.len() == 0,
            r.postprocess.custom_prompt is None,
            r.postprocess.model_name is None,
            r.postprocess.custom_summary_prompt is None,
    {
        Settings {
            hotkey: String::from_str("CommandOrControl+Shift+Space"),
            language: String::from_str("auto"),
            auto_insert: true,
            device_name: None,
            model_name: None,
            postprocess: PostProcessSettings::default(),
        }
    }
}

/// The language to ask the engine for: none where the setting is `auto`.
pub open spec fn language_choice(language: Seq<char>) -> Option<Seq<char>> {
    if language == "auto"@ {
        None
    } else {
        Some(language)
    }
}

/// The language to ask the engine for: none where the setting is `auto`.
pub fn language_hint(language: &str) -> (r: Option<String>)
    ensures
        opt_text(r) == language_choice(language@),
{
    if str_eq(language, "auto") {
        None
    } else {
        Some(String::from_str(language))
    }
}

/// A piece of a transcription with its place in the recording.
#[derive(Debug)]
pub struct TranscriptionSegment {
    /// Where the piece starts, in seconds.
    pub start: Number,
    /// Where the piece ends, in seconds; the end itself is not part of it.
    pub end: Number,
    /// What was said.
    pub text: String,
}

/// What the engine made of a recording.
#[derive(Debug)]
pub struct TranscriptionResult {
    /// Whether the engine succeeded.
    pub success: bool,
    /// The whole text.
    pub text: String,
    /// The text in pieces.
    pub segments: Vec<TranscriptionSegment>,
    /// The language that was spoken.
    pub language: String,
    /// Whether the engine heard no speech at all, where it says so.
    pub no_speech: Option<bool>,
}

/// An input device.
#[derive(Debug)]
pub struct AudioDevice {
    /// Name of the device.
    pub name: String,
    /// Whether it is the default input device.
    pub is_default: bool,
}

/// State of the post-processing model.
#[derive(Debug)]
pub struct PostProcessModelStatus {
    /// Name of the model.
    pub model_name: String,
    /// Whether the model is in memory.
    pub loaded: bool,
    /// Whether the model is being loaded.
    pub loading: bool,
    /// What went wrong, if anything.
    pub error: Option<String>,
    /// Models to choose from.
    pub available_models: Vec<String>,
}

/// A rewritten transcription.
#[derive(Debug)]
pub struct PostProcessResult {
    /// Whether rewriting worked.
    pub success: bool,
    /// The rewritten text.
    pub processed_text: String,
    /// How long rewriting took, in milliseconds.
    pub processing_time_ms: Option<Number>,
    /// What went wrong, if anything.
    pub error: Option<String>,
}

/// A transcription handed in for a summary.
#[derive(Debug)]
pub struct SummarizeEntry {
    /// What was said.
    pub text: String,
    /// When it was said.
    pub created_at: String,
}

/// A summary of recent transcriptions.
#[derive(Debug)]
pub struct SummarizeResult {
    /// Whether summarising worked.
    pub success: bool,
    /// The summary.
    pub summary: String,
    /// How long summarising took, in milliseconds.
    pub processing_time_ms: Option<Number>,
    /// What went wrong, if anything.
    pub error: Option<String>,
    /// Number of transcriptions that were summarised.
    pub entry_count: usize,
}

/// Whether a press-to-talk recording is under way, and into which file.
#[derive(Debug)]
pub struct RecordingState {
    /// Whether a recording is under way.
    pub is_recording: bool,
    /// The file that is recorded into.
    pub current_file: Option<String>,
    /// Name of the device that is recorded from.
    pub device_name: Option<String>,
}

impl Default for RecordingState {
    /// Nothing is recorded.
    fn default() -> (r: Self)
        ensures
            !r.is_recording,
            r.current_file is None,
            r.device_name is None,
    {
        RecordingState { is_recording: false, current_file: None, device_name: None }
    }
}

} // verus!
