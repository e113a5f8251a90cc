//! Hotkeys: which hotkey strings may be registered, how modifier keys are
//! named, and the bookkeeping of the thread that owns the registration.

use vstd::prelude::*;
use vstd::string::*;
use crate::text::{
    chars_of, contains_char, lowercase, parse_u32, parsed_u32, range_is, string_of, texts, to_lowercase,
    to_uppercase, trim_range, trimmed, uppercase,
};

verus! {

/// Why a hotkey string is refused.
#[derive(Debug)]
pub enum HotkeyError {
    /// The hotkey is one character on its own; it holds that character.
    SingleKey(String),
    /// The hotkey is a typing or navigation key on its own; it holds the
    /// key's name.
    BareKey(String),
}

/// What is decided about a hotkey string in lowercase.
pub enum HotkeyVerdict {
    /// The hotkey may be registered.
    Accepted,
    /// The hotkey is one character on its own.
    SingleKey,
    /// The hotkey is a typing or navigation key on its own.
    BareKey,
}

/// `f1` to `f24`, the number written as `u32` parses it.
pub open spec fn is_function_key(key: Seq<char>) -> bool {
    key.len() > 0 && key[0] == 'f' && match parsed_u32(key.drop_first()) {
        Some(n) => 1 <= n <= 24,
        None => false,
    }
}

/// Special keys that may be a hotkey on their own.
pub open spec fn allowed_alone(key: Seq<char>) -> bool {
    key == "fn"@ || key == "printscreen"@ || key == "scrolllock"@ || key == "pause"@ || key
        == "insert"@
}

/// Named keys that would get in the way of typing.
pub open spec fn refused_alone(key: Seq<char>) -> bool {
    key == "space"@ || key == "return"@ || key == "enter"@ || key == "tab"@ || key == "escape"@
        || key == "backspace"@ || key == "delete"@ || key == "up"@ || key == "down"@ || key
        == "left"@ || key == "right"@ || key == "home"@ || key == "end"@ || key == "pageup"@
        || key == "pagedown"@
}

/// The verdict on a hotkey string that is already in lowercase. A hotkey
/// with a `+` combines keys and is accepted. A hotkey without one is a key
/// on its own: function keys and a few special keys are accepted, a single
/// character and the named typing keys are refused.
pub open spec fn verdict_on(lower: Seq<char>) -> HotkeyVerdict {
    if lower.contains('+') {
        HotkeyVerdict::Accepted
    } else {
        let key = trimmed(lower);
        if is_function_key(key) || allowed_alone(key) {
            HotkeyVerdict::Accepted
        } else if key.len() == 1 {
            HotkeyVerdict::SingleKey
        } else if refused_alone(key) {
            HotkeyVerdict::BareKey
        } else {
            HotkeyVerdict::Accepted
        }
    }
}

/// Whether `r` is the result that goes with the verdict on `lower`.
pub open spec fn result_matches(r: Result<(), HotkeyError>, lower: Seq<char>) -> bool {
    match verdict_on(lower) {
        HotkeyVerdict::Accepted => r is Ok,
        HotkeyVerdict::SingleKey => r matches Err(HotkeyError::SingleKey(k)) && k@ == trimmed(lower),
        HotkeyVerdict::BareKey => r matches Err(HotkeyError::BareKey(k)) && k@ == trimmed(lower),
    }
}

/// Checks a hotkey string that is already in lowercase.
pub fn validate_lowered(lower: &str) -> (r: Result<(), HotkeyError>)
    ensures
        result_matches(r, lower@),
{
    let chars = chars_of(lower);
    if contains_char(&chars, '+') {
        return Ok(());
    }
    let (from, to) = trim_range(&chars, 0, chars.len());
    assert(chars@.subrange(0, chars@.len() as int) =~= chars@);
    let ghost key = trimmed(lower@);
    if to > from && chars[from] == 'f' {
        assert(chars@.subrange(from + 1, to as int) =~= key.drop_first());
        match parse_u32(&chars, from + 1, to) {
            Some(n) => {
                if 1 <= n && n <= 24 {
                    return Ok(());
                }
            },
            None => {},
        }
    }
    if range_is(&chars, from, to, "fn") || range_is(&chars, from, to, "printscreen") || range_is(
        &chars,
        from,
        to,
        "scrolllock",
    ) || range_is(&chars, from, to, "pause") || range_is(&chars, from, to, "insert") {
        return Ok(());
    }
    if to - from == 1 {
        return Err(HotkeyError::SingleKey(string_of(&chars, from, to)));
    }
    if range_is(&chars, from, to, "space") || range_is(&chars, from, to, "return") || range_is(
        &chars,
        from,
        to,
        "enter",
    ) || range_is(&chars, from, to, "tab") || range_is(&chars, from, to, "escape") || range_is(
        &chars,
        from,
        to,
        "backspace",
    ) || range_is(&chars, from, to, "delete") || range_is(&chars, from, to, "up") || range_is(
        &chars,
        from,
        to,
        "down",
    ) || range_is(&chars, from, to, "left") || range_is(&chars, from, to, "right") || range_is(
        &chars,
        from,
        to,
        "home",
    ) || range_is(&chars, from, to, "end") || range_is(&chars, from, to, "pageup") || range_is(
        &chars,
        from,
        to,
        "pagedown",
    ) {
        return Err(HotkeyError::BareKey(string_of(&chars, from, to)));
    }
    Ok(())
}

/// Checks a hotkey string before it is registered. Upper and lower case are
/// not told apart.
pub fn validate_hotkey(hotkey: &str) -> (r: Result<(), HotkeyError>)
    ensures
        result_matches(r, lowercase(hotkey@)),
{
    let lower = to_lowercase(hotkey);
    validate_lowered(lower.as_str())
}

/// Every hotkey that joins keys with `+` is accepted.
pub proof fn lemma_combinations_are_accepted(lower: Seq<char>)
    requires
        lower.contains('+'),
    ensures
        verdict_on(lower) is Accepted,
{
}

/// A hotkey that is one character on its own, white space around it
/// aside, is refused.
pub proof fn lemma_single_characters_are_refused(lower: Seq<char>)
    requires
        !lower.contains('+'),
        trimmed(lower).len() == 1,
    ensures
        verdict_on(lower) is SingleKey,
{
    let key = trimmed(lower);
    assert(!allowed_alone(key)) by {
        reveal_strlit("fn");
        reveal_strlit("printscreen");
        reveal_strlit("scrolllock");
        reveal_strlit("pause");
        reveal_strlit("insert");
    }
    assert(!is_function_key(key)) by {
        assert(key.drop_first().len() == 0);
    }
}

impl HotkeyError {
    /// The text shown to the user.
    pub open spec fn message_text(self) -> Seq<char> {
        match self {
            HotkeyError::SingleKey(k) => single_key_text(k@),
            HotkeyError::BareKey(k) => bare_key_text(k@),
        }
    }

    /// The text shown to the user.
    pub fn message(&self) -> (r: String)
        ensures
            r@ == self.message_text(),
    {
        match self {
            HotkeyError::SingleKey(k) => {
                let upper = to_uppercase(k.as_str());
                let mut r = String::from_str("Single key '");
                r.append(upper.as_str());
                r.append(
                    "' is not allowed as a hotkey. Please use a modifier (Cmd, Ctrl, Option, Shift) or a function key.",
                );
                r
            },
            HotkeyError::BareKey(k) => {
                let mut r = String::from_str("Key '");
                r.append(k.as_str());
                r.append(
                    "' alone is not allowed as a hotkey. Please add a modifier (Cmd, Ctrl, Option, Shift).",
                );
                r
            },
        }
    }
}

/// The modifier keys that are held down.
#[derive(Clone, Copy, Debug)]
pub struct Modifiers {
    /// Control.
    pub ctrl: bool,
    /// Option (Alt).
    pub opt: bool,
    /// Shift.
    pub shift: bool,
    /// Command (Super).
    pub cmd: bool,
    /// The platform's Fn key.
    pub function: bool,
}

/// The names of the modifiers that are held down, in a fixed order.
pub open spec fn modifier_names(m: Modifiers) -> Seq<Seq<char>> {
    (if m.ctrl {
        seq!["ctrl"@]
    } else {
        seq![]
    }) + (if m.opt {
        seq!["option"@]
    } else {
        seq![]
    }) + (if m.shift {
        seq!["shift"@]
    } else {
        seq![]
    }) + (if m.cmd {
        seq!["command"@]
    } else {
        seq![]
    }) + (if m.function {
        seq!["fn"@]
    } else {
        seq![]
    })
}

/// The names of the modifiers that are held down: `ctrl`, `option`,
/// `shift`, `command`, `fn`, in this order.
pub fn modifiers_to_strings(modifiers: Modifiers) -> (r: Vec<String>)
    ensures
        texts(r@) == modifier_names(modifiers),
{
    let mut r: Vec<String> = Vec::new();
    assert(texts(r@) =~= seq![]);
    if modifiers.ctrl {
        let ghost before = r@;
        r.push(String::from_str("ctrl"));
        assert(texts(r@) =~= texts(before) + seq!["ctrl"@]);
    }
    if modifiers.opt {
        let ghost before = r@;
        r.push(String::from_str("option"));
        assert(texts(r@) =~= texts(before) + seq!["option"@]);
    }
    if modifiers.shift {
        let ghost before = r@;
        r.push(String::from_str("shift"));
        assert(texts(r@) =~= texts(before) + seq!["shift"@]);
    }
    if modifiers.cmd {
        let ghost before = r@;
        r.push(String::from_str("command"));
        assert(texts(r@) =~= texts(before) + seq!["command"@]);
    }
    if modifiers.function {
        let ghost before = r@;
        r.push(String::from_str("fn"));
        assert(texts(r@) =~= texts(before) + seq!["fn"@]);
    }
    assert(texts(r@) =~= modifier_names(modifiers));
    r
}

/// A key event as it is shown while the user records a hotkey.
#[derive(Debug)]
pub struct FrontendKeyEvent {
    /// Names of the modifier keys that are held down.
    pub modifiers: Vec<String>,
    /// The key that was pressed, if any, in lowercase.
    pub key: Option<String>,
    /// Whether the key went down.
    pub is_key_down: bool,
    /// The whole hotkey as a string, such as `fn` or `command+space`.
    pub hotkey_string: String,
}

impl FrontendKeyEvent {
    /// The event for a key with the given name going down or up. The name is
    /// put in lowercase; a key event that is no hotkey has an empty hotkey
    /// string.
    pub fn from_key(modifiers: Modifiers, key: Option<&str>, is_key_down: bool, hotkey: Option<String>) -> (r:
        FrontendKeyEvent)
        ensures
            texts(r.modifiers@) == modifier_names(modifiers),
            key matches Some(k) ==> r.key matches Some(l) && l@ == lowercase(k@),
            key is None ==> r.key is None,
            r.is_key_down == is_key_down,
            hotkey matches Some(h) ==> r.hotkey_string@ == h@,
            hotkey is None ==> r.hotkey_string@.len() == 0,
    {
        let key = match key {
            Some(k) => Some(to_lowercase(k)),
            None => None,
        };
        let hotkey_string = match hotkey {
            Some(h) => h,
            None => String::new(),
        };
        FrontendKeyEvent { modifiers: modifiers_to_strings(modifiers), key, is_key_down, hotkey_string }
    }
}

/// Whether the hotkey went down or came up.
#[derive(Debug, Clone, Copy, PartialEq, Eq, Structural)]
pub enum KeyEdge {
    /// The hotkey went down.
    Pressed,
    /// The hotkey came up.
    Released,
}

/// How often the hotkey is tried to be registered when the program
/// starts.
pub const REGISTRATION_ATTEMPTS: u32 = 3;

/// Time between two such tries, in milliseconds.
pub const REGISTRATION_RETRY_MS: u64 = 200;

/// What to do after a try to register the hotkey has failed.
#[derive(Debug, Clone, Copy, PartialEq, Eq, Structural)]
pub enum Retry {
    /// Wait this many milliseconds and try again.
    After(u64),
    /// Give up and report the last failure.
    GiveUp,
}

/// Decides what follows the failure of try number `attempt`, counted
/// from 1: up to `REGISTRATION_ATTEMPTS` tries are made.
pub fn after_failed_attempt(attempt: u32) -> (r: Retry)
    ensures
        r == if attempt < REGISTRATION_ATTEMPTS {
            Retry::After(REGISTRATION_RETRY_MS)
        } else {
            Retry::GiveUp
        },
{
    if attempt < REGISTRATION_ATTEMPTS {
        Retry::After(REGISTRATION_RETRY_MS)
    } else {
        Retry::GiveUp
    }
}

/// The registration that the hotkey thread holds, as a mathematical
/// value: the number under which the hotkey is registered, and the
/// hotkey.
pub type Registration = Option<(u64, Seq<char>)>;

/// The bookkeeping of the thread that owns the hotkey. At most one hotkey
/// is registered at a time.
pub struct HandyKeysState {
    current: Option<(u64, String)>,
    capturing: bool,
}

impl View for HandyKeysState {
    type V = Registration;

    closed spec fn view(&self) -> Registration {
        match self.current {
            Some((id, hotkey)) => Some((id, hotkey@)),
            None => None,
        }
    }
}

impl HandyKeysState {
    /// Whether key events are shown to the user, who is choosing a hotkey.
    pub closed spec fn capturing(&self) -> bool {
        self.capturing
    }

    /// Bookkeeping with no hotkey registered.
    pub fn new() -> (r: HandyKeysState)
        ensures
            r@ is None,
            !r.capturing(),
    {
        HandyKeysState { current: None, capturing: false }
    }

    /// The hotkey that is registered.
    pub fn hotkey(&self) -> (r: Option<String>)
        ensures
            match r {
                Some(h) => self@ matches Some((_, hotkey)) && h@ == hotkey,
                None => self@ is None,
            },
    {
        match &self.current {
            Some((_, hotkey)) => Some(hotkey.clone()),
            None => None,
        }
    }

    /// Forgets the registration and gives the number to unregister, if a
    /// hotkey is registered. This is the first step of registering a new
    /// hotkey, and of unregistering.
    pub fn release(&mut self) -> (r: Option<u64>)
        ensures
            final(self)@ is None,
            final(self).capturing() == old(self).capturing(),
            match r {
                Some(id) => (old(self)@ matches Some((old_id, _)) && id == old_id),
                None => old(self)@ is None,
            },
    {
        match self.current.take() {
            Some((id, _)) => Some(id),
            None => None,
        }
    }

    /// Checks a hotkey before it is registered; one that would get in the
    /// way of typing is refused with the text to show.
    pub fn register(&self, hotkey: &str) -> (r: Result<(), String>)
        ensures
            match verdict_on(lowercase(hotkey@)) {
                HotkeyVerdict::Accepted => r is Ok,
                HotkeyVerdict::SingleKey => r matches Err(m) && m@ == single_key_text(
                    trimmed(lowercase(hotkey@)),
                ),
                HotkeyVerdict::BareKey => r matches Err(m) && m@ == bare_key_text(
                    trimmed(lowercase(hotkey@)),
                ),
            },
    {
        match validate_hotkey(hotkey) {
            Ok(()) => Ok(()),
            Err(e) => {
                Err(e.message())
            },
        }
    }

    /// Notes the outcome of registering `hotkey` with the system: on
    /// success the hotkey is held under the number given, on failure
    /// nothing changes and the failure is passed on.
    pub fn registered(&mut self, hotkey: &str, outcome: Result<u64, String>) -> (r: Result<(), String>)
        ensures
            final(self).capturing() == old(self).capturing(),
            match outcome {
                Ok(id) => final(self)@ == Some((id, hotkey@)) && r is Ok,
                Err(why) => {
                    &&& final(self)@ == old(self)@
                    &&& r matches Err(m)
                    &&& m@ == "Failed to register hotkey: "@ + why@
                },
            },
    {
        match outcome {
            Ok(id) => {
                self.current = Some((id, String::from_str(hotkey)));
                Ok(())
            },
            Err(why) => {
                let mut m = String::from_str("Failed to register hotkey: ");
                m.append(why.as_str());
                Err(m)
            },
        }
    }

    /// Starts showing key events to the user. A second start is refused
    /// while events are shown.
    pub fn start_recording(&mut self) -> (r: Result<(), String>)
        ensures
            final(self)@ == old(self)@,
            final(self).capturing(),
            match r {
                Ok(_) => !old(self).capturing(),
                Err(m) => old(self).capturing() && m@ == "Already recording"@,
            },
    {
        if self.capturing {
            return Err(String::from_str("Already recording"));
        }
        self.capturing = true;
        Ok(())
    }

    /// Stops showing key events to the user.
    pub fn stop_recording(&mut self)
        ensures
            final(self)@ == old(self)@,
            !final(self).capturing(),
    {
        self.capturing = false;
    }

    /// Whether key events are shown to the user.
    pub fn is_recording(&self) -> (r: bool)
        ensures
            r == self.capturing(),
    {
        self.capturing
    }

    /// Tells whether a key event is about the registered hotkey, and if
    /// so what it means. Events under another number are of no concern.
    pub fn dispatch(&self, id: u64, pressed: bool) -> (r: Option<KeyEdge>)
        ensures
            r == if self@ matches Some((current, _)) && current == id {
                Some(
                    if pressed {
                        KeyEdge::Pressed
                    } else {
                        KeyEdge::Released
                    },
                )
            } else {
                None
            },
    {
        match &self.current {
            Some((current, _)) => if *current == id {
                Some(
                    if pressed {
                        KeyEdge::Pressed
                    } else {
                        KeyEdge::Released
                    },
                )
            } else {
                None
            },
            None => None,
        }
    }
}

/// The text shown for a hotkey that is one character on its own.
pub open spec fn single_key_text(key: Seq<char>) -> Seq<char> {
    "Single key '"@ + uppercase(key)
        + "' is not allowed as a hotkey. Please use a modifier (Cmd, Ctrl, Option, Shift) or a function key."@
}

/// The text shown for a typing key on its own.
pub open spec fn bare_key_text(key: Seq<char>) -> Seq<char> {
    "Key '"@ + key
        + "' alone is not allowed as a hotkey. Please add a modifier (Cmd, Ctrl, Option, Shift)."@
}

} // verus!
