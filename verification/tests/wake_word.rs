use echo_core::wake_word::{
    determine_target_app, insert_and_send, listen_step, separates, strip_lowered, strip_wake_word,
    worth_checking, Deliver, Listen,
};

#[test]
fn test_strip_wake_word_english() {
    assert_eq!(
        strip_wake_word("Echo, hello world", "echo"),
        Some("hello world".to_string())
    );
    assert_eq!(
        strip_wake_word("echo hello world", "echo"),
        Some("hello world".to_string())
    );
    assert_eq!(
        strip_wake_word("ECHO! Send this message", "echo"),
        Some("Send this message".to_string())
    );
    assert_eq!(strip_wake_word("Echo", "echo"), None);
    assert_eq!(strip_wake_word("Something else", "echo"), None);
}

#[test]
fn test_strip_wake_word_japanese() {
    assert_eq!(
        strip_wake_word("エコー、今から帰ります", "エコー"),
        Some("今から帰ります".to_string())
    );
    assert_eq!(
        strip_wake_word("エコー今から帰ります", "エコー"),
        Some("今から帰ります".to_string())
    );
    assert_eq!(strip_wake_word("エコー", "エコー"), None);
}

#[test]
fn wake_word_is_found_whatever_its_case() {
    assert_eq!(strip_wake_word("  echo:  do it  ", "ECHO"), Some("do it".to_string()));
    assert_eq!(strip_wake_word("Echo...!?", "echo"), None);
    assert_eq!(strip_wake_word("echoes of the past", "echo"), Some("es of the past".to_string()));
    assert_eq!(strip_wake_word("", "echo"), None);
    assert_eq!(strip_wake_word("anything", ""), Some("anything".to_string()));
}

#[test]
fn keyword_is_cut_at_its_lowercase_byte_length() {
    // The capital I with a dot takes two bytes, its lowercase form three:
    // the cut falls inside the next character and there is no command.
    assert_eq!(strip_wake_word("İé go", "İ"), None);
    // Where the cut falls between characters the command is what follows.
    assert_eq!(strip_wake_word("Éa go", "é"), Some("a go".to_string()));
}

#[test]
fn lowered_forms_decide_about_the_keyword() {
    let text: Vec<char> = "Echo, hi".chars().collect();
    assert_eq!(strip_lowered(&text, "echo, hi", "echo"), Some("hi".to_string()));
    assert_eq!(strip_lowered(&text, "echo, hi", "ECHO"), None);
    assert_eq!(strip_lowered(&text, "xcho, hi", "echo"), None);
}

#[test]
fn separators_are_punctuation_and_blanks() {
    for c in [',', '.', '!', '?', ':', ';', '、', '。', '！', '？', ' ', '\u{3000}', '\n', '\r'] {
        assert!(separates(c));
    }
    for c in ['a', '-', '\t', '…', '0'] {
        assert!(!separates(c));
    }
}

#[test]
fn wake_word_listener_waits_for_the_end_of_an_utterance() {
    assert_eq!(listen_step(false, false, 5000, 0, 0), Listen::Wait);
    assert_eq!(listen_step(false, true, 800, 2000, 100), Listen::Wait);
    assert_eq!(listen_step(false, true, 801, 2000, 100), Listen::Transcribe);
    assert_eq!(listen_step(false, true, 0, 30000, 100), Listen::Wait);
    assert_eq!(listen_step(false, true, 0, 30001, 100), Listen::Transcribe);
    assert_eq!(listen_step(false, true, 801, 499, 100), Listen::Discard);
    assert_eq!(listen_step(false, true, 801, 500, 100), Listen::Transcribe);
    assert_eq!(listen_step(false, true, 801, 2000, 0), Listen::Discard);
    assert_eq!(listen_step(true, true, 801, 2000, 100), Listen::Discard);
    assert_eq!(listen_step(true, false, 0, 0, 0), Listen::Discard);
    assert!(worth_checking(None, "echo"));
    assert!(worth_checking(Some(false), "echo"));
    assert!(!worth_checking(Some(true), "echo"));
    assert!(!worth_checking(None, ""));
}

#[test]
fn target_application_goes_by_the_mode() {
    let front = Some("com.apple.mail".to_string());
    let notifier = Some("com.tinyspeck.slackmacgap".to_string());
    assert_eq!(determine_target_app("notification", notifier.clone(), front.clone()), notifier);
    assert_eq!(determine_target_app("notification", None, front.clone()), front);
    assert_eq!(determine_target_app("last_app", notifier.clone(), front.clone()), front);
    assert_eq!(
        determine_target_app("md.obsidian", notifier.clone(), front.clone()),
        Some("md.obsidian".to_string())
    );
    assert_eq!(determine_target_app("", notifier.clone(), front.clone()), front);
    assert_eq!(determine_target_app("frontmost", notifier.clone(), None), None);
}

#[test]
fn commands_are_delivered_step_by_step() {
    assert_eq!(insert_and_send(false, false), vec![Deliver::Paste]);
    assert_eq!(
        insert_and_send(true, false),
        vec![Deliver::Activate, Deliver::Wait(300), Deliver::Paste]
    );
    assert_eq!(
        insert_and_send(false, true),
        vec![Deliver::Paste, Deliver::Wait(150), Deliver::Enter]
    );
    assert_eq!(
        insert_and_send(true, true),
        vec![Deliver::Activate, Deliver::Wait(300), Deliver::Paste, Deliver::Wait(150), Deliver::Enter]
    );
}
