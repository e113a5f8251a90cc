use echo_core::hotkey::{
    after_failed_attempt, modifiers_to_strings, validate_hotkey, validate_lowered, FrontendKeyEvent,
    HandyKeysState, HotkeyError, KeyEdge, Modifiers, Retry, REGISTRATION_RETRY_MS,
};

fn no_modifiers() -> Modifiers {
    Modifiers { ctrl: false, opt: false, shift: false, cmd: false, function: false }
}

#[test]
fn single_key_is_rejected_and_special_keys_are_accepted() {
    assert!(matches!(validate_hotkey("a"), Err(HotkeyError::SingleKey(_))));
    assert!(validate_hotkey("F7").is_ok());
    assert!(validate_hotkey("fn").is_ok());
    assert!(validate_hotkey("cmd+space").is_ok());
}

#[test]
fn function_keys_run_from_1_to_24() {
    for n in 1..=24 {
        assert!(validate_hotkey(&format!("F{}", n)).is_ok());
        assert!(validate_hotkey(&format!("f{}", n)).is_ok());
    }
    assert!(validate_hotkey("f007").is_ok());
    assert!(validate_hotkey("f+5").is_ok());
    // Beyond the range they are names like any other.
    assert!(validate_hotkey("f0").is_ok());
    assert!(validate_hotkey("f25").is_ok());
    assert!(matches!(validate_hotkey("f"), Err(HotkeyError::SingleKey(_))));
}

#[test]
fn single_characters_are_rejected_with_their_key() {
    for key in ["a", "Z", "7", " q ", ",", "é"] {
        match validate_hotkey(key) {
            Err(HotkeyError::SingleKey(k)) => assert_eq!(k, key.trim().to_lowercase()),
            other => panic!("{:?} gave {:?}", key, other),
        }
    }
}

#[test]
fn typing_keys_are_rejected_alone_and_accepted_with_a_modifier() {
    let names = [
        "space", "return", "enter", "tab", "escape", "backspace", "delete", "up", "down", "left",
        "right", "home", "end", "pageup", "pagedown",
    ];
    for name in names {
        match validate_hotkey(name) {
            Err(HotkeyError::BareKey(k)) => assert_eq!(k, name),
            other => panic!("{:?} gave {:?}", name, other),
        }
        assert!(matches!(validate_hotkey(&name.to_uppercase()), Err(HotkeyError::BareKey(_))));
        assert!(validate_hotkey(&format!("ctrl+{}", name)).is_ok());
    }
    for name in ["fn", "printscreen", "scrolllock", "pause", "insert", "PrintScreen"] {
        assert!(validate_hotkey(name).is_ok());
    }
    assert!(validate_hotkey("CommandOrControl+Shift+Space").is_ok());
    assert!(validate_hotkey("a+b").is_ok());
    assert!(validate_hotkey("globe").is_ok());
    assert!(validate_hotkey("").is_ok());
}

#[test]
fn lowered_hotkeys_are_judged_as_they_stand() {
    assert!(matches!(validate_lowered("space"), Err(HotkeyError::BareKey(_))));
    // The check expects lowercase and does not fold case itself.
    assert!(validate_lowered("SPACE").is_ok());
    assert!(validate_lowered("F7").is_ok());
    assert!(validate_lowered("f7").is_ok());
}

#[test]
fn messages_name_the_key() {
    let e = validate_hotkey("a").unwrap_err();
    assert_eq!(
        e.message(),
        "Single key 'A' is not allowed as a hotkey. Please use a modifier (Cmd, Ctrl, Option, Shift) or a function key."
    );
    let e = validate_hotkey("Space").unwrap_err();
    assert_eq!(
        e.message(),
        "Key 'space' alone is not allowed as a hotkey. Please add a modifier (Cmd, Ctrl, Option, Shift)."
    );
}

#[test]
fn modifiers_are_named_in_a_fixed_order() {
    assert!(modifiers_to_strings(no_modifiers()).is_empty());
    let all = Modifiers { ctrl: true, opt: true, shift: true, cmd: true, function: true };
    assert_eq!(modifiers_to_strings(all), vec!["ctrl", "option", "shift", "command", "fn"]);
    let some = Modifiers { ctrl: false, opt: true, shift: false, cmd: true, function: false };
    assert_eq!(modifiers_to_strings(some), vec!["option", "command"]);
}

#[test]
fn key_events_carry_the_key_in_lowercase() {
    let m = Modifiers { ctrl: false, opt: false, shift: true, cmd: false, function: false };
    let e = FrontendKeyEvent::from_key(m, Some("Space"), true, Some("shift+space".to_string()));
    assert_eq!(e.modifiers, vec!["shift"]);
    assert_eq!(e.key, Some("space".to_string()));
    assert!(e.is_key_down);
    assert_eq!(e.hotkey_string, "shift+space");
    let e = FrontendKeyEvent::from_key(no_modifiers(), None, false, None);
    assert!(e.modifiers.is_empty());
    assert_eq!(e.key, None);
    assert!(!e.is_key_down);
    assert_eq!(e.hotkey_string, "");
}

#[test]
fn hotkey_registration_is_tried_three_times() {
    assert_eq!(after_failed_attempt(1), Retry::After(REGISTRATION_RETRY_MS));
    assert_eq!(after_failed_attempt(2), Retry::After(200));
    assert_eq!(after_failed_attempt(3), Retry::GiveUp);
    assert_eq!(after_failed_attempt(4), Retry::GiveUp);
}

#[test]
fn one_hotkey_is_registered_at_a_time() {
    let mut keys = HandyKeysState::new();
    assert_eq!(keys.hotkey(), None);
    assert_eq!(keys.release(), None);
    assert_eq!(keys.dispatch(1, true), None);
    assert!(keys.register("fn").is_ok());
    assert_eq!(
        keys.register("a").unwrap_err(),
        "Single key 'A' is not allowed as a hotkey. Please use a modifier (Cmd, Ctrl, Option, Shift) or a function key."
    );
    assert_eq!(
        keys.register("Tab").unwrap_err(),
        "Key 'tab' alone is not allowed as a hotkey. Please add a modifier (Cmd, Ctrl, Option, Shift)."
    );
    assert!(keys.registered("fn", Ok(4)).is_ok());
    assert_eq!(keys.hotkey(), Some("fn".to_string()));
    assert_eq!(keys.dispatch(4, true), Some(KeyEdge::Pressed));
    assert_eq!(keys.dispatch(4, false), Some(KeyEdge::Released));
    assert_eq!(keys.dispatch(5, true), None);
    // Registering another hotkey lets go of the first.
    assert_eq!(keys.release(), Some(4));
    assert_eq!(keys.hotkey(), None);
    assert_eq!(
        keys.registered("cmd+space", Err("no permission".to_string())).unwrap_err(),
        "Failed to register hotkey: no permission"
    );
    assert_eq!(keys.hotkey(), None);
    assert!(keys.registered("cmd+space", Ok(9)).is_ok());
    assert_eq!(keys.dispatch(4, true), None);
    assert_eq!(keys.dispatch(9, false), Some(KeyEdge::Released));
}

#[test]
fn key_events_are_shown_once_at_a_time() {
    let mut keys = HandyKeysState::new();
    assert!(!keys.is_recording());
    assert!(keys.start_recording().is_ok());
    assert!(keys.is_recording());
    assert_eq!(keys.start_recording().unwrap_err(), "Already recording");
    keys.stop_recording();
    assert!(!keys.is_recording());
    assert!(keys.start_recording().is_ok());
}
