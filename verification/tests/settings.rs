use echo_core::commands::{dictionary_to_send, language_of, recent_minutes, summarize_entries};
use echo_core::database::{TranscriptionEntry, DEFAULT_RECENT_MINUTES};
use echo_core::types::{language_hint, PostProcessSettings, Settings};

fn entry(text: &str, language: Option<&str>) -> TranscriptionEntry {
    TranscriptionEntry {
        id: Some(1),
        created_at: format!("at {}", text),
        duration_ms: Some(2500),
        text: text.to_string(),
        raw_text: None,
        language: language.map(|l| l.to_string()),
        model_name: None,
        segments_json: None,
    }
}

#[test]
fn summary_takes_text_time_and_first_language() {
    let entries = vec![entry("one", None), entry("two", Some("Japanese")), entry("three", Some("English"))];
    let given = summarize_entries(&entries);
    assert_eq!(given.len(), 3);
    assert_eq!(given[0].text, "one");
    assert_eq!(given[0].created_at, "at one");
    assert_eq!(given[2].text, "three");
    assert_eq!(language_of(&entries), Some("Japanese".to_string()));
    assert_eq!(language_of(&vec![entry("x", None)]), None);
    assert_eq!(language_of(&Vec::new()), None);
    assert_eq!(recent_minutes(None), DEFAULT_RECENT_MINUTES);
    assert_eq!(recent_minutes(Some(5)), 5);
    assert_eq!(DEFAULT_RECENT_MINUTES, 30);
}

#[test]
fn settings_of_a_fresh_installation() {
    let s = Settings::default();
    assert_eq!(s.hotkey, "CommandOrControl+Shift+Space");
    assert_eq!(s.language, "auto");
    assert!(s.auto_insert);
    assert!(s.device_name.is_none() && s.model_name.is_none());
    assert!(!s.postprocess.enabled);
    assert!(s.postprocess.dictionary.is_empty());
    assert!(s.postprocess.custom_prompt.is_none());
    assert!(s.postprocess.model_name.is_none());
    assert!(s.postprocess.custom_summary_prompt.is_none());
    assert_eq!(language_hint("auto"), None);
    assert_eq!(language_hint("ja"), Some("ja".to_string()));
    assert_eq!(language_hint("Auto"), Some("Auto".to_string()));
    assert!(dictionary_to_send(&s.postprocess).is_none());
    let mut p = PostProcessSettings::default();
    p.dictionary.push(("eko".to_string(), "Echo".to_string()));
    assert_eq!(dictionary_to_send(&p).unwrap().len(), 1);
}
