use echo_core::continuous::{
    decide_segment, loop_step, pieces_json, segment_file_name, transcription_event, worker_done, Idle,
    LoopInput,
    SegmentOutcome, Skip, FRAME_WAIT_MS, SEGMENT_WAIT_MS,
};
use echo_core::frame::{Frame, FRAME_SIZE};
use echo_core::json::Number;
use echo_core::pipeline::{ContinuousPipeline, Phase, PipelineError, Role, StopStep};
use echo_core::request::Request;
use echo_core::request::Command;
use echo_core::segmenter::Segmenter;
use echo_core::transcription::{EngineError, ProtocolFault};
use echo_core::types::{TranscriptionResult, TranscriptionSegment};
use echo_core::vad::VadEvent;

const SPEECH: VadEvent = VadEvent::Speech { probability_bits: 0x3F80_0000 };

fn result(text: &str) -> TranscriptionResult {
    TranscriptionResult {
        success: true,
        text: text.to_string(),
        segments: Vec::new(),
        language: "Japanese".to_string(),
        no_speech: None,
    }
}

#[test]
fn segmenting_thread_flushes_on_stop() {
    let mut seg = Segmenter::<f32>::new(1500, 60000);
    for _ in 0..20 {
        let step = loop_step(
            &mut seg,
            LoopInput::Frame(SPEECH, Frame::new(vec![0.5f32; FRAME_SIZE]).unwrap()),
        );
        assert!(step.segment.is_none() && !step.reset_detector && !step.exit);
    }
    let step = loop_step(&mut seg, LoopInput::Timeout);
    assert!(step.segment.is_none() && !step.reset_detector && !step.exit);
    assert!(seg.is_speaking());
    let step = loop_step(&mut seg, LoopInput::Stop);
    assert!(step.exit);
    assert!(step.reset_detector);
    assert_eq!(step.segment.unwrap().samples.len(), 20 * FRAME_SIZE);
    let step = loop_step(&mut seg, LoopInput::Stop);
    assert!(step.exit && step.segment.is_none() && !step.reset_detector);
}

#[test]
fn segmenting_thread_flushes_when_the_queue_closes() {
    let mut seg = Segmenter::<f32>::new(1500, 60000);
    for _ in 0..10 {
        loop_step(&mut seg, LoopInput::Frame(SPEECH, Frame::new(vec![0.5f32; FRAME_SIZE]).unwrap()));
    }
    // Ten frames are less than half a second: nothing is handed out.
    let step = loop_step(&mut seg, LoopInput::Disconnected);
    assert!(step.exit && step.segment.is_none() && !step.reset_detector);
    assert!(!seg.is_speaking());
}

#[test]
fn detector_is_reset_after_every_segment() {
    let mut seg = Segmenter::<f32>::new(64, 60000);
    let mut resets = 0;
    let mut segments = 0;
    for round in 0..3 {
        for i in 0..22 {
            let event = if i < 20 { SPEECH } else { VadEvent::Silence };
            let step = loop_step(
                &mut seg,
                LoopInput::Frame(event, Frame::new(vec![round as f32; FRAME_SIZE]).unwrap()),
            );
            assert_eq!(step.reset_detector, step.segment.is_some());
            if step.reset_detector {
                resets += 1;
            }
            if step.segment.is_some() {
                segments += 1;
            }
        }
    }
    assert_eq!(segments, 3);
    assert_eq!(resets, 3);
}

#[test]
fn worker_drains_the_queue_before_it_leaves() {
    assert!(!worker_done(Idle::Timeout, false, true));
    assert!(!worker_done(Idle::Timeout, false, false));
    assert!(!worker_done(Idle::Timeout, true, false));
    assert!(worker_done(Idle::Timeout, true, true));
    assert!(worker_done(Idle::Disconnected, false, false));
    assert!(worker_done(Idle::Disconnected, true, true));
    assert!(FRAME_WAIT_MS <= 500 && SEGMENT_WAIT_MS <= 500);
}

#[test]
fn kept_entry_holds_the_trimmed_text() {
    let mut r = result("  こんにちは \n");
    r.segments = vec![TranscriptionSegment {
        start: Number::Whole(0),
        end: Number::Other("1.5".to_string()),
        text: "こんにちは".to_string(),
    }];
    match decide_segment(Ok(r), 1536) {
        SegmentOutcome::Keep(e) => {
            assert_eq!(e.id, None);
            assert_eq!(e.created_at, "");
            assert_eq!(e.duration_ms, Some(1536));
            assert_eq!(e.text, "こんにちは");
            assert_eq!(e.raw_text, None);
            assert_eq!(e.language, Some("Japanese".to_string()));
            assert_eq!(e.model_name, None);
            let json: serde_json::Value = serde_json::from_str(&e.segments_json.unwrap()).unwrap();
            let expected: serde_json::Value =
                serde_json::from_str(r#"[{"start":0,"end":1.5,"text":"こんにちは"}]"#).unwrap();
            assert_eq!(json, expected);
            let event = transcription_event(42, &echo_core::database::TranscriptionEntry {
                id: Some(42),
                created_at: "2024-05-01 12:00:00".to_string(),
                duration_ms: Some(1536),
                text: "こんにちは".to_string(),
                raw_text: None,
                language: Some("Japanese".to_string()),
                model_name: Some("m".to_string()),
                segments_json: None,
            });
            assert_eq!(event.id, 42);
            assert_eq!(event.text, "こんにちは");
            assert_eq!(event.created_at, "2024-05-01 12:00:00");
            assert_eq!(event.duration_ms, Some(1536));
            assert_eq!(event.language, Some("Japanese".to_string()));
            assert_eq!(event.model_name, None);
        }
        other => panic!("{:?}", other),
    }
}

#[test]
fn entry_without_language_and_pieces() {
    let mut r = result("text");
    r.language = String::new();
    match decide_segment(Ok(r), 500) {
        SegmentOutcome::Keep(e) => {
            assert_eq!(e.language, None);
            assert_eq!(e.segments_json, None);
        }
        other => panic!("{:?}", other),
    }
}

#[test]
fn blank_silent_and_failed_results_are_skipped() {
    assert!(matches!(decide_segment(Ok(result("")), 900), SegmentOutcome::Skip(Skip::Blank)));
    assert!(matches!(decide_segment(Ok(result(" \t\n　 ")), 900), SegmentOutcome::Skip(Skip::Blank)));
    let mut r = result("hello");
    r.no_speech = Some(true);
    assert!(matches!(decide_segment(Ok(r), 900), SegmentOutcome::Skip(Skip::NoSpeech)));
    let mut r = result("hello");
    r.no_speech = Some(false);
    assert!(matches!(decide_segment(Ok(r), 900), SegmentOutcome::Keep(_)));
    let mut r = result("hello");
    r.success = false;
    assert!(matches!(decide_segment(Ok(r), 900), SegmentOutcome::Skip(Skip::Unsuccessful)));
    assert!(matches!(
        decide_segment(Err(EngineError::Protocol(ProtocolFault::Closed)), 900),
        SegmentOutcome::Skip(Skip::Failed)
    ));
    assert!(matches!(
        decide_segment(Err(EngineError::NotRunning), 900),
        SegmentOutcome::Skip(Skip::Failed)
    ));
}

#[test]
fn pieces_are_written_as_an_array() {
    let pieces = vec![
        TranscriptionSegment { start: Number::Whole(0), end: Number::Whole(1), text: "a".to_string() },
        TranscriptionSegment {
            start: Number::Whole(1),
            end: Number::Other("2.75".to_string()),
            text: "b".to_string(),
        },
    ];
    let line = Request::new(Command::Ping, 1).with("pieces", pieces_json(&pieces)).into_line().unwrap();
    let value: serde_json::Value = serde_json::from_str(&line).unwrap();
    let expected: serde_json::Value = serde_json::from_str(
        r#"[{"start":0,"end":1,"text":"a"},{"start":1,"end":2.75,"text":"b"}]"#,
    )
    .unwrap();
    assert_eq!(value["pieces"], expected);
}

#[test]
fn second_start_is_refused_and_stop_on_idle_does_nothing() {
    let mut p = ContinuousPipeline::new();
    assert_eq!(p.phase(), Phase::Stopped);
    assert!(p.stop().is_empty());
    assert_eq!(p.phase(), Phase::Stopped);
    assert!(!p.status().is_listening);
    assert_eq!(p.start().unwrap(), vec![Role::Producer, Role::Segmenter, Role::Worker]);
    assert!(p.status().is_listening);
    assert_eq!(p.start(), Err(PipelineError::AlreadyRunning));
    for role in [Role::Producer, Role::Segmenter, Role::Worker] {
        p.thread_started(role);
    }
    assert_eq!(p.start(), Err(PipelineError::AlreadyRunning));
    p.segment_kept();
    p.segment_kept();
    assert_eq!(p.segment_count(), 2);
    assert_eq!(p.status().segment_count, 2);
    assert_eq!(
        p.stop(),
        vec![
            StopStep::RaiseStopFlag,
            StopStep::Join(Role::Producer),
            StopStep::Join(Role::Segmenter),
            StopStep::Join(Role::Worker),
        ]
    );
    assert_eq!(p.phase(), Phase::Stopping);
    assert_eq!(p.start(), Err(PipelineError::AlreadyRunning));
    assert_eq!(p.thread_joined(Role::Producer), None);
    assert_eq!(p.thread_joined(Role::Segmenter), None);
    // The worker still keeps what was queued.
    p.segment_kept();
    assert_eq!(p.thread_joined(Role::Worker), Some(3));
    assert_eq!(p.phase(), Phase::Stopped);
    assert!(!p.status().is_listening);
    // A new session counts from zero.
    assert!(p.start().is_ok());
    assert_eq!(p.segment_count(), 0);
}

#[test]
fn failed_start_is_undone_by_a_stop() {
    let mut p = ContinuousPipeline::new();
    p.start().unwrap();
    p.thread_started(Role::Producer);
    // The segmenting thread cannot be started: only the producer is joined.
    assert_eq!(p.stop(), vec![StopStep::RaiseStopFlag, StopStep::Join(Role::Producer)]);
    assert_eq!(p.thread_joined(Role::Producer), Some(0));
    assert_eq!(p.phase(), Phase::Stopped);

    let mut p = ContinuousPipeline::new();
    p.start().unwrap();
    assert_eq!(p.stop(), vec![StopStep::RaiseStopFlag]);
    assert_eq!(p.phase(), Phase::Stopped);
}

#[test]
fn segment_files_are_named_by_index() {
    assert_eq!(segment_file_name(1), "segment_1.wav");
    assert_eq!(segment_file_name(0), "segment_0.wav");
    assert_eq!(segment_file_name(10), "segment_10.wav");
    assert_eq!(segment_file_name(907), "segment_907.wav");
    assert_eq!(segment_file_name(u32::MAX), "segment_4294967295.wav");
}
