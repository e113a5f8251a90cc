//! Pasting a text through the clipboard while keeping what the clipboard
//! held before.

use vstd::prelude::*;
use vstd::string::*;

verus! {

/// Time to let the clipboard and the receiving application settle, in
/// milliseconds.
pub const PASTE_SETTLE_MS: u64 = 50;

/// One thing to do while pasting.
#[derive(Debug)]
pub enum PasteStep {
    /// Put this text on the clipboard.
    Write(String),
    /// Wait this many milliseconds.
    Wait(u64),
    /// Send the paste keystroke.
    SendPaste,
}

/// Plans clipboard work.
#[derive(Debug, Clone, Copy)]
pub struct ClipboardManager;

impl ClipboardManager {
    /// A clipboard manager.
    pub fn new() -> (r: ClipboardManager) {
        ClipboardManager
    }

    /// The steps that paste `text` and then put `previous`, the text that
    /// the clipboard held before, back: write the new text, wait, send the
    /// paste keystroke, wait, and write the previous text again unless it
    /// is empty. The steps are to be taken in order, stopping at the
    /// first that fails.
    pub fn paste_with_restore(&self, previous: &str, text: &str) -> (steps: Vec<PasteStep>)
        ensures
            steps@.len() == if previous@.len() == 0 {
                4int
            } else {
                5int
            },
            steps@[0] matches PasteStep::Write(t) && t@ == text@,
            steps@[1] matches PasteStep::Wait(ms) && ms == PASTE_SETTLE_MS,
            steps@[2] is SendPaste,
            steps@[3] matches PasteStep::Wait(ms) && ms == PASTE_SETTLE_MS,
            previous@.len() > 0 ==> (steps@[4] matches PasteStep::Write(t) && t@ == previous@),
    {
        let mut steps: Vec<PasteStep> = Vec::new();
        steps.push(PasteStep::Write(String::from_str(text)));
        steps.push(PasteStep::Wait(PASTE_SETTLE_MS));
        steps.push(PasteStep::SendPaste);
        steps.push(PasteStep::Wait(PASTE_SETTLE_MS));
        if !previous.is_empty() {
            steps.push(PasteStep::Write(String::from_str(previous)));
        }
        steps
    }
}

} // verus!
