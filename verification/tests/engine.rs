use echo_core::engine::{
    cache_variables, choose_binary, handshake_step, quit_request, ASREngine, Handshake,
    HANDSHAKE_TIMEOUT_MS, QUIT_GRACE_MS,
};
use echo_core::json::{Json, Number};
use echo_core::request::{
    model_request, postprocess_request, summarize_request, transcribe_request, Command, Request,
};
use echo_core::transcription::{transcribe_reply, EngineError, ProtocolFault};
use echo_core::types::SummarizeEntry;

fn parsed(line: &str) -> serde_json::Value {
    serde_json::from_str(line).unwrap()
}

#[test]
fn requests_are_numbered_from_one_and_take_turns_with_replies() {
    let mut engine = ASREngine::new();
    assert!(!engine.is_running());
    assert!(matches!(engine.begin(Command::Ping), Err(EngineError::NotRunning)));
    engine.started();
    assert!(engine.is_running());
    assert_eq!(engine.begin(Command::Ping).unwrap(), 1);
    assert_eq!(engine.waiting(), Some(Command::Ping));
    // No second request may be written before the reply to the first is read.
    assert!(matches!(
        engine.begin(Command::GetStatus),
        Err(EngineError::Protocol(ProtocolFault::Busy))
    ));
    assert!(engine.reply(r#"{"id":1,"result":{"pong":true},"error":null}"#).is_ok());
    assert_eq!(engine.waiting(), None);
    // No second line is taken for the same request.
    assert!(matches!(
        engine.reply(r#"{"id":1,"result":{},"error":null}"#),
        Err(EngineError::Protocol(ProtocolFault::Unexpected))
    ));
    assert!(engine.is_running());
    assert_eq!(engine.begin(Command::GetStatus).unwrap(), 2);
    assert!(engine.reply("{}").is_ok());
    assert_eq!(engine.begin(Command::LoadModel).unwrap(), 3);
}

#[test]
fn unreadable_reply_brings_the_engine_down() {
    let mut engine = ASREngine::new();
    engine.started();
    engine.begin(Command::Transcribe).unwrap();
    assert!(matches!(
        engine.reply("Traceback (most recent call last):"),
        Err(EngineError::Protocol(ProtocolFault::Unreadable))
    ));
    assert!(!engine.is_running());
    assert!(matches!(engine.begin(Command::Ping), Err(EngineError::NotRunning)));
}

#[test]
fn crash_during_transcription_is_a_fault_and_a_restart_restores_service() {
    let mut engine = ASREngine::new();
    engine.started();
    let id = engine.begin(Command::Transcribe).unwrap();
    let _line = transcribe_request(id, "/tmp/segment_1.wav", None).into_line().unwrap();
    // The process dies before it answers: nothing can be read.
    assert!(matches!(engine.broken(), EngineError::Protocol(ProtocolFault::Closed)));
    assert!(!engine.is_running());
    assert_eq!(engine.waiting(), None);
    assert!(matches!(engine.begin(Command::Transcribe), Err(EngineError::NotRunning)));
    assert!(matches!(engine.begin(Command::Ping), Err(EngineError::NotRunning)));
    engine.started();
    assert_eq!(engine.begin(Command::Transcribe).unwrap(), 2);
}

#[test]
fn fault_in_a_result_brings_the_engine_down() {
    let mut engine = ASREngine::new();
    engine.started();
    engine.begin(Command::Transcribe).unwrap();
    let doc = engine.reply(r#"{"id":1,"result":{"success":true},"error":null}"#).unwrap();
    let result = engine.settle(transcribe_reply(&doc));
    assert!(matches!(result, Err(EngineError::Protocol(ProtocolFault::Malformed))));
    assert!(!engine.is_running());

    engine.started();
    engine.begin(Command::Transcribe).unwrap();
    let doc = engine.reply(r#"{"id":2,"result":null,"error":"model not loaded"}"#).unwrap();
    let result = engine.settle(transcribe_reply(&doc));
    match result {
        Err(EngineError::Model(m)) => assert_eq!(m, "model not loaded"),
        other => panic!("{:?}", other),
    }
    // A failure that the engine reports leaves it running.
    assert!(engine.is_running());
}

#[test]
fn stopping_forgets_the_waiting_request() {
    let mut engine = ASREngine::new();
    engine.started();
    engine.begin(Command::LoadModel).unwrap();
    engine.stopped();
    assert!(!engine.is_running());
    assert_eq!(engine.waiting(), None);
    assert!(matches!(
        engine.broken(),
        EngineError::Protocol(ProtocolFault::Unexpected)
    ));
}

#[test]
fn reply_documents_hold_what_the_line_holds() {
    let mut engine = ASREngine::new();
    engine.started();
    engine.begin(Command::Ping).unwrap();
    let doc = engine
        .reply(r#"{"a":null,"b":true,"c":7,"d":-2,"e":1.5,"f":"x","g":[1,"y"],"h":{"k":false}}"#)
        .unwrap();
    assert!(matches!(doc.get("a"), Some(Json::Null)));
    assert!(doc.present("a").is_none());
    assert_eq!(doc.bool_at("b"), Some(true));
    assert!(matches!(doc.get("c"), Some(Json::Number(Number::Whole(7)))));
    match doc.number_at("d") {
        Some(Number::Other(t)) => assert_eq!(t, "-2"),
        other => panic!("{:?}", other),
    }
    match doc.number_at("e") {
        Some(Number::Other(t)) => assert_eq!(t, "1.5"),
        other => panic!("{:?}", other),
    }
    assert_eq!(doc.text_at("f"), Some("x".to_string()));
    assert_eq!(doc.text_at("b"), None);
    let list = doc.get("g").unwrap().as_list().unwrap();
    assert_eq!(list.len(), 2);
    assert_eq!(list[0].as_whole(), Some(1));
    assert_eq!(list[1].as_text(), Some("y".to_string()));
    assert_eq!(doc.get("h").unwrap().bool_at("k"), Some(false));
    assert!(doc.get("missing").is_none());
    assert!(list[0].get("k").is_none());
}

#[test]
fn plain_request_holds_command_and_number() {
    let line = Request::new(Command::Ping, 7).into_line().unwrap();
    assert!(!line.contains('\n'));
    assert_eq!(parsed(&line), parsed(r#"{"command":"ping","id":7}"#));
    let line = quit_request().into_line().unwrap();
    assert_eq!(parsed(&line), parsed(r#"{"command":"quit","id":0}"#));
    let line = Request::new(Command::LoadModel, u64::MAX).into_line().unwrap();
    assert_eq!(parsed(&line)["id"].as_u64(), Some(u64::MAX));
}

#[test]
fn every_command_has_its_wire_name() {
    let names = [
        (Command::Ping, "ping"),
        (Command::GetStatus, "get_status"),
        (Command::LoadModel, "load_model"),
        (Command::SetModel, "set_model"),
        (Command::IsModelCached, "is_model_cached"),
        (Command::WarmupModel, "warmup_model"),
        (Command::LoadVad, "load_vad"),
        (Command::WarmupVad, "warmup_vad"),
        (Command::Transcribe, "transcribe"),
        (Command::LoadPostprocessModel, "load_postprocess_model"),
        (Command::UnloadPostprocessModel, "unload_postprocess_model"),
        (Command::IsPostprocessModelCached, "is_postprocess_model_cached"),
        (Command::SetPostprocessModel, "set_postprocess_model"),
        (Command::GetPostprocessStatus, "get_postprocess_status"),
        (Command::PostprocessText, "postprocess_text"),
        (Command::SummarizeTranscriptions, "summarize_transcriptions"),
        (Command::Quit, "quit"),
    ];
    for (command, name) in names {
        assert_eq!(command.name(), name);
    }
}

#[test]
fn transcribe_request_leaves_out_a_language_that_is_not_given() {
    let line = transcribe_request(3, "/tmp/a \"b\".wav", Some("ja")).into_line().unwrap();
    assert!(!line.contains('\n'));
    assert_eq!(
        parsed(&line),
        parsed(r#"{"command":"transcribe","id":3,"audio_path":"/tmp/a \"b\".wav","language":"ja"}"#)
    );
    let line = transcribe_request(4, "/tmp/a.wav", None).into_line().unwrap();
    assert_eq!(parsed(&line), parsed(r#"{"command":"transcribe","id":4,"audio_path":"/tmp/a.wav"}"#));
}

#[test]
fn model_requests_name_the_model() {
    let line = model_request(Command::SetModel, 5, Some("whisper-small")).into_line().unwrap();
    assert_eq!(
        parsed(&line),
        parsed(r#"{"command":"set_model","id":5,"model_name":"whisper-small"}"#)
    );
    let line = model_request(Command::IsModelCached, 6, None).into_line().unwrap();
    assert_eq!(parsed(&line), parsed(r#"{"command":"is_model_cached","id":6}"#));
}

#[test]
fn postprocess_request_sends_null_for_what_is_not_given() {
    let dictionary = vec![
        ("eko".to_string(), "Echo".to_string()),
        ("rast".to_string(), "Rust".to_string()),
    ];
    let line = postprocess_request(
        9,
        "line one\nline two",
        Some("Mail"),
        None,
        Some(&dictionary),
        None,
    )
    .into_line().unwrap();
    // A line break inside a text is escaped: the request stays on one line.
    assert!(!line.contains('\n'));
    assert_eq!(
        parsed(&line),
        parsed(
            r#"{"command":"postprocess_text","id":9,"text":"line one\nline two","app_name":"Mail",
               "app_bundle_id":null,"dictionary":{"eko":"Echo","rast":"Rust"},"custom_prompt":null}"#
        )
    );
    let line = postprocess_request(10, "x", None, Some("com.apple.mail"), None, Some("be brief")).into_line().unwrap();
    assert_eq!(
        parsed(&line),
        parsed(
            r#"{"command":"postprocess_text","id":10,"text":"x","app_name":null,
               "app_bundle_id":"com.apple.mail","dictionary":null,"custom_prompt":"be brief"}"#
        )
    );
}

#[test]
fn summarize_request_lists_the_transcriptions() {
    let entries = vec![
        SummarizeEntry { text: "first".to_string(), created_at: "2024-01-01 10:00:00".to_string() },
        SummarizeEntry { text: "second".to_string(), created_at: "2024-01-01 10:05:00".to_string() },
    ];
    let line = summarize_request(11, &entries, Some("English"), None).into_line().unwrap();
    assert_eq!(
        parsed(&line),
        parsed(
            r#"{"command":"summarize_transcriptions","id":11,
               "texts":[{"text":"first","created_at":"2024-01-01 10:00:00"},
                        {"text":"second","created_at":"2024-01-01 10:05:00"}],
               "language_hint":"English","custom_prompt":null}"#
        )
    );
}

#[test]
fn handshake_waits_for_the_ready_line() {
    assert_eq!(handshake_step(Some("{\"status\":\"ready\"}\n"), 10), Handshake::Ready);
    assert_eq!(handshake_step(Some("  {\"status\": \"ready\", \"pid\": 4}  "), 59_000), Handshake::Ready);
    assert_eq!(handshake_step(Some("{\"status\":\"loading\"}"), 10), Handshake::Waiting);
    assert_eq!(handshake_step(Some("Loading model..."), 10), Handshake::Waiting);
    assert_eq!(handshake_step(Some(""), 10), Handshake::Waiting);
    assert_eq!(handshake_step(Some("{\"status\":1}"), 10), Handshake::Waiting);
    assert_eq!(handshake_step(None, 10), Handshake::Closed);
    assert_eq!(handshake_step(Some("{\"status\":\"ready\"}"), HANDSHAKE_TIMEOUT_MS), Handshake::Ready);
    assert_eq!(handshake_step(Some("{\"status\":\"ready\"}"), HANDSHAKE_TIMEOUT_MS + 1), Handshake::TimedOut);
    assert_eq!(handshake_step(None, HANDSHAKE_TIMEOUT_MS + 1), Handshake::TimedOut);
    assert_eq!(HANDSHAKE_TIMEOUT_MS, 60_000);
    assert_eq!(QUIT_GRACE_MS, 500);
}

#[test]
fn first_place_with_the_program_is_chosen() {
    assert_eq!(choose_binary(&vec![true, true, true]), Some(0));
    assert_eq!(choose_binary(&vec![false, true, true]), Some(1));
    assert_eq!(choose_binary(&vec![false, false, true]), Some(2));
    assert_eq!(choose_binary(&vec![false, false, false]), None);
    assert_eq!(choose_binary(&vec![]), None);
    assert_eq!(cache_variables(), vec!["HF_HOME", "TORCH_HOME"]);
}
