//! Wake words: telling whether a transcription starts with the keyword and
//! what command follows it.

use vstd::prelude::*;
use vstd::string::*;
use crate::text::{
    byte_len, char_index_at, chars_of, contains_char, has_prefix, index_at_byte, lemma_char_index_at,
    lowercase, opt_text, starts_with, str_eq, string_of, to_lowercase, trim_range, trimmed, utf8_len,
};

verus! {

/// Punctuation and blanks that may stand between the keyword and the
/// command.
pub open spec fn is_separator(c: char) -> bool {
    c == ',' || c == '.' || c == '!' || c == '?' || c == ':' || c == ';' || c == '、' || c == '。'
        || c == '！' || c == '？' || c == ' ' || c == '\u{3000}' || c == '\n' || c == '\r'
}

/// Whether `c` may stand between the keyword and the command.
pub fn separates(c: char) -> (r: bool)
    ensures
        r == is_separator(c),
{
    c == ',' || c == '.' || c == '!' || c == '?' || c == ':' || c == ';' || c == '、' || c == '。'
        || c == '！' || c == '？' || c == ' ' || c == '\u{3000}' || c == '\n' || c == '\r'
}

/// Number of separators in front of `s`.
pub open spec fn leading_separators(s: Seq<char>) -> nat
    decreases s.len(),
{
    if s.len() > 0 && is_separator(s[0]) {
        1 + leading_separators(s.drop_first())
    } else {
        0
    }
}

/// The command in `rest`, the text behind the keyword: separators in
/// front and white space around it are dropped, and an empty command is
/// none.
pub open spec fn command_in(rest: Seq<char>) -> Option<Seq<char>> {
    let command = trimmed(rest.skip(leading_separators(rest) as int));
    if command.len() == 0 {
        None
    } else {
        Some(command)
    }
}

/// The command that follows the keyword in a trimmed text, given the
/// lowercase forms of both. The keyword is found by comparing the lowercase
/// forms; it is then cut off the text itself, at the byte length of the
/// lowercase keyword. Where that length does not fall between two
/// characters of the text there is no command.
pub open spec fn command_after(text: Seq<char>, text_lower: Seq<char>, keyword_lower: Seq<char>) -> Option<
    Seq<char>,
> {
    if !starts_with(text_lower, keyword_lower) {
        None
    } else {
        match char_index_at(text, utf8_len(keyword_lower)) {
            None => None,
            Some(i) => command_in(text.skip(i as int)),
        }
    }
}

proof fn lemma_leading_separators_step(s: Seq<char>, i: int)
    requires
        0 <= i < s.len(),
    ensures
        leading_separators(s.skip(i)) == if is_separator(s[i]) {
            1 + leading_separators(s.skip(i + 1))
        } else {
            0
        },
{
    assert(s.skip(i).drop_first() =~= s.skip(i + 1));
}

/// The command that follows the keyword in `text`, a trimmed text, given
/// the lowercase forms of the text and of the keyword.
pub fn strip_lowered(text: &Vec<char>, text_lower: &str, keyword_lower: &str) -> (r: Option<String>)
    ensures
        opt_text(r) == command_after(text@, text_lower@, keyword_lower@),
{
    let lower = chars_of(text_lower);
    let keyword = chars_of(keyword_lower);
    if !has_prefix(&lower, &keyword) {
        return None;
    }
    proof {
        lemma_char_index_at(text@, utf8_len(keyword@));
    }
    let cut = match index_at_byte(text, byte_len(&keyword)) {
        Some(i) => i,
        None => {
            return None;
        },
    };
    assert(char_index_at(text@, utf8_len(keyword@)) == Some(cut as nat));
    let ghost rest = text@.skip(cut as int);
    let mut start: usize = cut;
    assert(rest.skip(0) =~= rest);
    while start < text.len() && separates(text[start])
        invariant
            cut <= start <= text@.len(),
            rest == text@.skip(cut as int),
            leading_separators(rest) == (start - cut) + leading_separators(rest.skip(start - cut)),
        decreases text@.len() - start,
    {
        proof {
            lemma_leading_separators_step(rest, start - cut);
        }
        start = start + 1;
    }
    proof {
        if start < text.len() {
            lemma_leading_separators_step(rest, start - cut);
        } else {
            assert(rest.skip(start - cut).len() == 0);
        }
        assert(rest.skip(leading_separators(rest) as int) =~= text@.subrange(
            start as int,
            text@.len() as int,
        ));
    }
    let (from, to) = trim_range(text, start, text.len());
    assert(text@.subrange(from as int, to as int).len() == to - from);
    if from == to {
        None
    } else {
        Some(string_of(text, from, to))
    }
}

/// The command that follows the wake word in a transcription, if the
/// transcription starts with the wake word and a command follows. Upper and
/// lower case are not told apart, and punctuation and blanks between wake
/// word and command are dropped.
pub fn strip_wake_word(text: &str, keyword: &str) -> (r: Option<String>)
    ensures
        opt_text(r) == command_after(
            trimmed(text@),
            lowercase(trimmed(text@)),
            lowercase(keyword@),
        ),
{
    let chars = chars_of(text);
    let (from, to) = trim_range(&chars, 0, chars.len());
    assert(chars@.subrange(0, chars@.len() as int) =~= chars@);
    let trimmed_text = string_of(&chars, from, to);
    let trimmed_chars = chars_of(trimmed_text.as_str());
    let text_lower = to_lowercase(trimmed_text.as_str());
    let keyword_lower = to_lowercase(keyword);
    strip_lowered(&trimmed_chars, text_lower.as_str(), keyword_lower.as_str())
}

/// A text that does not start with the keyword, in lowercase, holds no
/// command.
pub proof fn lemma_no_keyword_no_command(text: Seq<char>, text_lower: Seq<char>, keyword_lower: Seq<char>)
    requires
        !starts_with(text_lower, keyword_lower),
    ensures
        command_after(text, text_lower, keyword_lower) is None,
{
}

/// A command is never empty and has no white space at either end of the
/// text it was cut from: it is a trimmed piece of the text behind the
/// keyword.
pub proof fn lemma_command_is_piece_of_text(text: Seq<char>, text_lower: Seq<char>, keyword_lower: Seq<char>)
    requires
        command_after(text, text_lower, keyword_lower) is Some,
    ensures
        ({
            let command = command_after(text, text_lower, keyword_lower)->0;
            let cut = char_index_at(text, utf8_len(keyword_lower))->0;
            let rest = text.skip(cut as int);
            &&& command.len() > 0
            &&& cut <= text.len()
            &&& utf8_len(text.take(cut as int)) == utf8_len(keyword_lower)
            &&& command == trimmed(rest.skip(leading_separators(rest) as int))
        }),
{
    lemma_char_index_at(text, utf8_len(keyword_lower));
}

/// Silence after which an utterance counts as over, in milliseconds.
pub const SILENCE_DURATION_MS: u64 = 800;

/// Shortest utterance that is transcribed, in milliseconds.
pub const MIN_SPEECH_DURATION_MS: u64 = 500;

/// Longest utterance, in milliseconds; a longer one is cut.
pub const MAX_SPEECH_DURATION_MS: u64 = 30000;

/// Time between two looks at the audio, in milliseconds.
pub const POLL_INTERVAL_MS: u64 = 100;

/// Time to let the target application come to the front, in milliseconds.
pub const APP_SWITCH_DELAY_MS: u64 = 300;

/// Time between pasting and pressing Enter, in milliseconds.
pub const SEND_DELAY_MS: u64 = 150;

/// What the listener does with the audio it has gathered.
#[derive(Debug, Clone, Copy, PartialEq, Eq, Structural)]
pub enum Listen {
    /// Go on gathering.
    Wait,
    /// Throw the audio away.
    Discard,
    /// Have the audio transcribed.
    Transcribe,
}

/// Decides about the audio gathered so far. While a press-to-talk
/// recording runs, everything is thrown away. An utterance is over after
/// `SILENCE_DURATION_MS` of silence or at `MAX_SPEECH_DURATION_MS`; it is
/// transcribed if it lasted `MIN_SPEECH_DURATION_MS` and holds samples,
/// and thrown away otherwise.
pub fn listen_step(
    hotkey_recording: bool,
    speech_active: bool,
    silence_ms: u64,
    speech_ms: u64,
    samples: usize,
) -> (r: Listen)
    ensures
        r == if hotkey_recording {
            Listen::Discard
        } else if !speech_active || !(silence_ms > SILENCE_DURATION_MS || speech_ms
            > MAX_SPEECH_DURATION_MS) {
            Listen::Wait
        } else if speech_ms < MIN_SPEECH_DURATION_MS || samples == 0 {
            Listen::Discard
        } else {
            Listen::Transcribe
        },
{
    if hotkey_recording {
        Listen::Discard
    } else if !speech_active || !(silence_ms > SILENCE_DURATION_MS || speech_ms
        > MAX_SPEECH_DURATION_MS) {
        Listen::Wait
    } else if speech_ms < MIN_SPEECH_DURATION_MS || samples == 0 {
        Listen::Discard
    } else {
        Listen::Transcribe
    }
}

/// The application that a command goes to, as a bundle identifier. In
/// the mode `notification` it is the application that notified last, and
/// the one in front where none did. In the mode `last_app` it is the one
/// in front. Any other mode that is not empty and holds a dot is itself
/// the bundle identifier; failing that, it is the one in front again.
pub open spec fn target_of(
    mode: Seq<char>,
    notifier: Option<Seq<char>>,
    frontmost: Option<Seq<char>>,
) -> Option<Seq<char>> {
    if mode == "notification"@ {
        match notifier {
            Some(n) => Some(n),
            None => frontmost,
        }
    } else if mode == "last_app"@ {
        frontmost
    } else if mode.contains('.') {
        Some(mode)
    } else {
        frontmost
    }
}

/// The application that a command goes to, as a bundle identifier.
pub fn determine_target_app(target_mode: &str, notifier: Option<String>, frontmost: Option<String>) -> (r:
    Option<String>)
    ensures
        opt_text(r) == target_of(target_mode@, opt_text(notifier), opt_text(frontmost)),
{
    if str_eq(target_mode, "notification") {
        match notifier {
            Some(n) => Some(n),
            None => frontmost,
        }
    } else if str_eq(target_mode, "last_app") {
        frontmost
    } else {
        let chars = chars_of(target_mode);
        if contains_char(&chars, '.') {
            Some(String::from_str(target_mode))
        } else {
            frontmost
        }
    }
}

/// Whether a transcription holds anything to look for the wake word in.
pub fn worth_checking(no_speech: Option<bool>, text: &str) -> (r: bool)
    ensures
        r == (no_speech != Some(true) && text@.len() > 0),
{
    match no_speech {
        Some(true) => false,
        _ => !text.is_empty(),
    }
}

/// One thing to do to deliver a command to an application.
#[derive(Debug, Clone, Copy, PartialEq, Eq, Structural)]
pub enum Deliver {
    /// Bring the target application to the front.
    Activate,
    /// Wait this many milliseconds.
    Wait(u64),
    /// Paste the command.
    Paste,
    /// Press Enter.
    Enter,
}

/// The steps that deliver a command.
pub open spec fn delivery(has_target: bool, auto_send: bool) -> Seq<Deliver> {
    (if has_target {
        seq![Deliver::Activate, Deliver::Wait(APP_SWITCH_DELAY_MS)]
    } else {
        seq![]
    }) + seq![Deliver::Paste] + (if auto_send {
        seq![Deliver::Wait(SEND_DELAY_MS), Deliver::Enter]
    } else {
        seq![]
    })
}

/// The steps that deliver a command: the target application, if there
/// is one, is brought to the front and given time; the command is
/// pasted; and where commands are sent at once, Enter follows after a
/// pause.
pub fn insert_and_send(has_target: bool, auto_send: bool) -> (steps: Vec<Deliver>)
    ensures
        steps@ == delivery(has_target, auto_send),
{
    let mut steps: Vec<Deliver> = Vec::new();
    if has_target {
        steps.push(Deliver::Activate);
        steps.push(Deliver::Wait(APP_SWITCH_DELAY_MS));
    }
    steps.push(Deliver::Paste);
    if auto_send {
        steps.push(Deliver::Wait(SEND_DELAY_MS));
        steps.push(Deliver::Enter);
    }
    assert(steps@ =~= delivery(has_target, auto_send));
    steps
}

} // verus!
