//! The keystrokes that make an application paste.

use vstd::prelude::*;

verus! {

/// Time between pressing the modifier and hitting the key, in milliseconds.
pub const KEY_LEAD_MS: u64 = 20;

/// Time between hitting the key and letting go of the modifier, in
/// milliseconds.
pub const KEY_HOLD_MS: u64 = 100;

/// A key that takes part in pasting.
#[derive(Debug, Clone, Copy, PartialEq, Eq, Structural)]
pub enum PasteKey {
    /// Command on a Mac.
    Meta,
    /// Control.
    Control,
    /// Shift.
    Shift,
    /// The letter V.
    V,
}

/// One thing to do with the keyboard.
#[derive(Debug, Clone, Copy, PartialEq, Eq, Structural)]
pub enum KeyStep {
    /// Press the key and keep it down.
    Press(PasteKey),
    /// Press the key and let go of it.
    Click(PasteKey),
    /// Let go of the key.
    Release(PasteKey),
    /// Wait this many milliseconds.
    Wait(u64),
}

/// The modifier that goes with V for pasting: Command on a Mac, Control
/// elsewhere.
pub open spec fn paste_modifier(mac: bool) -> PasteKey {
    if mac {
        PasteKey::Meta
    } else {
        PasteKey::Control
    }
}

/// The keystrokes of a plain paste.
pub open spec fn paste_keys(mac: bool) -> Seq<KeyStep> {
    seq![
        KeyStep::Press(paste_modifier(mac)),
        KeyStep::Wait(KEY_LEAD_MS),
        KeyStep::Click(PasteKey::V),
        KeyStep::Wait(KEY_HOLD_MS),
        KeyStep::Release(paste_modifier(mac)),
    ]
}

/// The keystrokes of a paste with Shift, as terminals want it.
pub open spec fn shifted_paste_keys(mac: bool) -> Seq<KeyStep> {
    seq![
        KeyStep::Press(paste_modifier(mac)),
        KeyStep::Press(PasteKey::Shift),
        KeyStep::Wait(KEY_LEAD_MS),
        KeyStep::Click(PasteKey::V),
        KeyStep::Wait(KEY_HOLD_MS),
        KeyStep::Release(PasteKey::Shift),
        KeyStep::Release(paste_modifier(mac)),
    ]
}

/// Stands for the keyboard that keystrokes are sent through.
#[derive(Debug, Clone, Copy)]
pub struct EnigoState;

impl EnigoState {
    /// A stand-in for the keyboard.
    pub fn new() -> (r: EnigoState) {
        EnigoState
    }

    /// The keystrokes of a plain paste: the modifier goes down, V is hit,
    /// the modifier comes up, with a pause before and after V.
    pub fn send_paste(&self, mac: bool) -> (steps: Vec<KeyStep>)
        ensures
            steps@ == paste_keys(mac),
    {
        let modifier = if mac {
            PasteKey::Meta
        } else {
            PasteKey::Control
        };
        let mut steps: Vec<KeyStep> = Vec::new();
        steps.push(KeyStep::Press(modifier));
        steps.push(KeyStep::Wait(KEY_LEAD_MS));
        steps.push(KeyStep::Click(PasteKey::V));
        steps.push(KeyStep::Wait(KEY_HOLD_MS));
        steps.push(KeyStep::Release(modifier));
        assert(steps@ =~= paste_keys(mac));
        steps
    }

    /// The keystrokes of a paste with Shift: modifier and Shift go down, V
    /// is hit, Shift and modifier come up in reverse order.
    pub fn send_paste_ctrl_shift_v(&self, mac: bool) -> (steps: Vec<KeyStep>)
        ensures
            steps@ == shifted_paste_keys(mac),
    {
        let modifier = if mac {
            PasteKey::Meta
        } else {
            PasteKey::Control
        };
        let mut steps: Vec<KeyStep> = Vec::new();
        steps.push(KeyStep::Press(modifier));
        steps.push(KeyStep::Press(PasteKey::Shift));
        steps.push(KeyStep::Wait(KEY_LEAD_MS));
        steps.push(KeyStep::Click(PasteKey::V));
        steps.push(KeyStep::Wait(KEY_HOLD_MS));
        steps.push(KeyStep::Release(PasteKey::Shift));
        steps.push(KeyStep::Release(modifier));
        assert(steps@ =~= shifted_paste_keys(mac));
        steps
    }

    /// The keystrokes of a paste with Shift and Insert: none, as this way
    /// of pasting is not in use.
    pub fn send_paste_shift_insert(&self) -> (steps: Vec<KeyStep>)
        ensures
            steps@.len() == 0,
    {
        Vec::new()
    }
}

/// In every paste each key that goes down comes up again, and the
/// modifier is the first to go down and the last to come up.
pub proof fn lemma_paste_keys_are_balanced(mac: bool)
    ensures
        paste_keys(mac).first() == KeyStep::Press(paste_modifier(mac)),
        paste_keys(mac).last() == KeyStep::Release(paste_modifier(mac)),
        shifted_paste_keys(mac).first() == KeyStep::Press(paste_modifier(mac)),
        shifted_paste_keys(mac).last() == KeyStep::Release(paste_modifier(mac)),
        shifted_paste_keys(mac)[1] == KeyStep::Press(PasteKey::Shift),
        shifted_paste_keys(mac)[5] == KeyStep::Release(PasteKey::Shift),
{
}

} // verus!
