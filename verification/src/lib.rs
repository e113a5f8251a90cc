//! Verified core of a desktop voice-input pipeline: fixed-size audio frames,
//! voice-activity segmentation, the line protocol spoken with the model
//! process, and the controllers that decide what the surrounding program does.
//!
//! The library opens no device, file or process. Its functions map plain
//! values to plain values and carry contracts; the program around the
//! library performs the actions that the functions decide on. The one
//! thing the library acts on itself is the bounded queue of frames, which
//! it offers frames to without waiting.

pub mod active_app;
pub mod audio_capture;
pub mod clipboard;
pub mod commands;
pub mod continuous;
pub mod database;
pub mod engine;
pub mod frame;
pub mod hotkey;
pub mod input;
pub mod json;
pub mod pipeline;
pub mod press_to_talk;
pub mod producer;
pub mod request;
pub mod segmenter;
pub mod session;
pub mod text;
pub mod transcription;
pub mod types;
pub mod vad;
pub mod wake_word;
