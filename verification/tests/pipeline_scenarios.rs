use opencode_talk::cancel::CancelState;
use opencode_talk::engine::Engine;
use opencode_talk::error::TtsError;
use opencode_talk::pipeline::{
    clear_audio_queue, init_audio_player, shutdown_audio_player, speak, speak_sentence, Pipeline,
    WorkerAction, WorkerStep,
};
use opencode_talk::playback::PlaybackEffect;
use opencode_talk::queue::QUEUE_CAPACITY;
use opencode_talk::request::PlaybackCommand;

fn started() -> Pipeline {
    let mut pipeline = Pipeline::new();
    assert!(init_audio_player(&mut pipeline, true).is_ok());
    pipeline
}

fn enqueue(pipeline: &mut Pipeline, text: &str) {
    assert!(speak_sentence(pipeline, text, "af_heart", 1200, "kokoro").is_ok());
}

fn take(pipeline: &mut Pipeline, expect_text: &str) -> u64 {
    match pipeline.worker_next() {
        WorkerStep::Generate(ticket, request) => {
            assert_eq!(request.text, expect_text);
            assert_eq!(request.voice, "af_heart");
            assert_eq!(request.speed_permille, 1200);
            assert_eq!(request.engine, Engine::Kokoro);
            ticket
        }
        other => panic!("expected a request to synthesize, got {:?}", other),
    }
}

fn forward(pipeline: &mut Pipeline, path: &str) {
    match pipeline.worker_generated(Ok(path.to_string())) {
        WorkerAction::Play(artifact) => assert_eq!(artifact.path, path),
        other => panic!("expected a play command, got {:?}", other),
    }
}

fn append(pipeline: &mut Pipeline) -> String {
    match pipeline.playback_step(true) {
        PlaybackEffect::Appended(artifact) => artifact.path,
        other => panic!("expected an append, got {:?}", other),
    }
}

fn paths(artifacts: Vec<opencode_talk::request::AudioArtifact>) -> Vec<String> {
    let mut out = Vec::new();
    for artifact in artifacts {
        out.push(artifact.path);
    }
    out
}

#[test]
fn three_sentences_play_in_order_and_leave_no_file() {
    let mut pipeline = started();
    for text in ["one", "two", "three"] {
        enqueue(&mut pipeline, text);
    }
    assert_eq!(pipeline.queued_requests(), 3);
    let mut played = Vec::new();
    let mut tickets = Vec::new();
    for (text, path) in [("one", "/tmp/1.wav"), ("two", "/tmp/2.wav"), ("three", "/tmp/3.wav")] {
        tickets.push(take(&mut pipeline, text));
        forward(&mut pipeline, path);
        played.push(append(&mut pipeline));
    }
    assert_eq!(tickets, vec![0, 1, 2]);
    assert_eq!(played, vec!["/tmp/1.wav", "/tmp/2.wav", "/tmp/3.wav"]);
    assert_eq!(pipeline.pending_files(), 3);
    assert!(pipeline.housekeeping(false).is_empty());
    assert_eq!(pipeline.pending_files(), 3);
    let deleted = paths(pipeline.housekeeping(true));
    assert_eq!(deleted, vec!["/tmp/1.wav", "/tmp/2.wav", "/tmp/3.wav"]);
    assert_eq!(pipeline.pending_files(), 0);
    assert!(matches!(pipeline.worker_next(), WorkerStep::Idle));
    assert!(matches!(pipeline.playback_step(true), PlaybackEffect::Idle));
}

#[test]
fn all_generated_before_playback_still_plays_in_order() {
    let mut pipeline = started();
    for text in ["one", "two", "three"] {
        enqueue(&mut pipeline, text);
    }
    for (text, path) in [("one", "/a"), ("two", "/b"), ("three", "/c")] {
        take(&mut pipeline, text);
        forward(&mut pipeline, path);
    }
    match pipeline.next_command() {
        Some(PlaybackCommand::Play(artifact)) => {
            assert_eq!(artifact.ticket, 0);
            assert_eq!(artifact.path, "/a");
        }
        other => panic!("expected a play command, got {:?}", other),
    }
    assert_eq!(append(&mut pipeline), "/a");
    assert_eq!(append(&mut pipeline), "/b");
    assert_eq!(append(&mut pipeline), "/c");
    assert!(pipeline.next_command().is_none());
}

#[test]
fn stop_before_second_sentence_is_generated() {
    let mut pipeline = started();
    enqueue(&mut pipeline, "one");
    enqueue(&mut pipeline, "two");
    take(&mut pipeline, "one");
    forward(&mut pipeline, "/tmp/one.wav");
    assert_eq!(append(&mut pipeline), "/tmp/one.wav");
    take(&mut pipeline, "two");
    assert!(clear_audio_queue(&mut pipeline).is_ok());
    assert_eq!(pipeline.cancel_state(), CancelState::Stopping);
    match pipeline.worker_generated(Ok("/tmp/two.wav".to_string())) {
        WorkerAction::Delete(path) => assert_eq!(path, "/tmp/two.wav"),
        other => panic!("expected a deletion, got {:?}", other),
    }
    assert!(matches!(pipeline.next_command(), Some(PlaybackCommand::Stop)));
    match pipeline.playback_step(true) {
        PlaybackEffect::Cleared(released) => {
            assert_eq!(paths(released), vec!["/tmp/one.wav"]);
        }
        other => panic!("expected the device to be cleared, got {:?}", other),
    }
    assert_eq!(pipeline.pending_files(), 0);
    assert_eq!(pipeline.cancel_state(), CancelState::Stopping);
    match pipeline.worker_next() {
        WorkerStep::Discarded(dropped) => assert!(dropped.is_empty()),
        other => panic!("expected the worker to acknowledge, got {:?}", other),
    }
    assert_eq!(pipeline.cancel_state(), CancelState::Idle);
    assert!(matches!(pipeline.playback_step(true), PlaybackEffect::Idle));
    assert!(pipeline.housekeeping(true).is_empty());
}

#[test]
fn stop_clears_queued_artifacts_and_none_is_played_later() {
    let mut pipeline = started();
    for text in ["a", "b", "c", "d"] {
        enqueue(&mut pipeline, text);
    }
    take(&mut pipeline, "a");
    forward(&mut pipeline, "/a");
    assert_eq!(append(&mut pipeline), "/a");
    take(&mut pipeline, "b");
    forward(&mut pipeline, "/b");
    take(&mut pipeline, "c");
    forward(&mut pipeline, "/c");
    assert!(clear_audio_queue(&mut pipeline).is_ok());
    assert!(clear_audio_queue(&mut pipeline).is_ok());
    match pipeline.playback_step(true) {
        PlaybackEffect::Cleared(released) => {
            assert_eq!(paths(released), vec!["/a", "/b", "/c"]);
        }
        other => panic!("expected the device to be cleared, got {:?}", other),
    }
    assert!(matches!(pipeline.playback_step(true), PlaybackEffect::Idle));
    match pipeline.worker_next() {
        WorkerStep::Discarded(dropped) => {
            assert_eq!(dropped.len(), 1);
            assert_eq!(dropped[0].text, "d");
        }
        other => panic!("expected the queue to be dropped, got {:?}", other),
    }
    assert_eq!(pipeline.cancel_state(), CancelState::Idle);
    enqueue(&mut pipeline, "e");
    assert_eq!(take(&mut pipeline, "e"), 4);
    forward(&mut pipeline, "/e");
    assert_eq!(append(&mut pipeline), "/e");
    assert_eq!(paths(pipeline.housekeeping(true)), vec!["/e"]);
    assert_eq!(pipeline.pending_files(), 0);
}

#[test]
fn requests_enqueued_while_stopping_are_dropped() {
    let mut pipeline = started();
    assert!(clear_audio_queue(&mut pipeline).is_ok());
    enqueue(&mut pipeline, "late");
    match pipeline.worker_next() {
        WorkerStep::Discarded(dropped) => assert_eq!(dropped.len(), 1),
        other => panic!("expected the queue to be dropped, got {:?}", other),
    }
    assert_eq!(pipeline.cancel_state(), CancelState::Stopping);
    match pipeline.playback_step(false) {
        PlaybackEffect::Cleared(released) => assert!(released.is_empty()),
        other => panic!("expected the device to be cleared, got {:?}", other),
    }
    assert_eq!(pipeline.cancel_state(), CancelState::Idle);
}

#[test]
fn adapter_failure_does_not_halt_the_pipeline() {
    let mut pipeline = started();
    enqueue(&mut pipeline, "one");
    enqueue(&mut pipeline, "two");
    take(&mut pipeline, "one");
    match pipeline.worker_generated(Err("Piper failed: no model".to_string())) {
        WorkerAction::Report(TtsError::AdapterFailure(reason)) => {
            assert_eq!(reason, "Piper failed: no model");
        }
        other => panic!("expected a report, got {:?}", other),
    }
    assert_eq!(pipeline.pending_files(), 0);
    take(&mut pipeline, "two");
    forward(&mut pipeline, "/two");
    assert_eq!(append(&mut pipeline), "/two");
    assert_eq!(paths(pipeline.housekeeping(true)), vec!["/two"]);
}

#[test]
fn decode_failure_deletes_the_artifact_and_goes_on() {
    let mut pipeline = started();
    enqueue(&mut pipeline, "one");
    enqueue(&mut pipeline, "two");
    take(&mut pipeline, "one");
    forward(&mut pipeline, "/one");
    take(&mut pipeline, "two");
    forward(&mut pipeline, "/two");
    match pipeline.playback_step(false) {
        PlaybackEffect::Dropped(artifact, TtsError::DecodeFailure) => {
            assert_eq!(artifact.path, "/one");
        }
        other => panic!("expected a drop, got {:?}", other),
    }
    assert_eq!(pipeline.pending_files(), 1);
    assert_eq!(append(&mut pipeline), "/two");
    assert_eq!(paths(pipeline.housekeeping(true)), vec!["/two"]);
    assert_eq!(pipeline.pending_files(), 0);
}

#[test]
fn a_path_that_is_still_pending_is_refused() {
    let mut pipeline = started();
    enqueue(&mut pipeline, "one");
    enqueue(&mut pipeline, "two");
    take(&mut pipeline, "one");
    forward(&mut pipeline, "/same");
    take(&mut pipeline, "two");
    match pipeline.worker_generated(Ok("/same".to_string())) {
        WorkerAction::Report(TtsError::AdapterFailure(reason)) => {
            assert_eq!(reason, "Synthesis returned a path that is still pending");
        }
        other => panic!("expected a report, got {:?}", other),
    }
    assert_eq!(pipeline.pending_files(), 1);
    assert_eq!(append(&mut pipeline), "/same");
}

#[test]
fn enqueue_before_initialization_fails() {
    let mut pipeline = Pipeline::new();
    assert!(!pipeline.is_initialized());
    assert!(matches!(
        speak_sentence(&mut pipeline, "one", "v", 1000, "piper"),
        Err(TtsError::QueueUninitialized)
    ));
    assert!(matches!(pipeline.worker_next(), WorkerStep::Idle));
    assert!(pipeline.next_command().is_none());
    assert!(clear_audio_queue(&mut pipeline).is_ok());
    assert_eq!(pipeline.cancel_state(), CancelState::Idle);
}

#[test]
fn initialization_is_idempotent_and_reports_a_missing_device() {
    let mut pipeline = Pipeline::new();
    assert!(matches!(init_audio_player(&mut pipeline, false), Err(TtsError::DeviceInitFailure)));
    assert!(pipeline.is_initialized());
    assert!(matches!(init_audio_player(&mut pipeline, true), Err(TtsError::DeviceInitFailure)));
    enqueue(&mut pipeline, "one");
    take(&mut pipeline, "one");
    forward(&mut pipeline, "/one");
    assert!(pipeline.next_command().is_none());
    assert!(matches!(pipeline.playback_step(true), PlaybackEffect::Idle));
    assert_eq!(pipeline.pending_files(), 1);
    assert_eq!(paths(shutdown_audio_player(&mut pipeline)), vec!["/one"]);
    assert_eq!(pipeline.pending_files(), 0);

    let mut ready = Pipeline::new();
    assert!(init_audio_player(&mut ready, true).is_ok());
    assert!(init_audio_player(&mut ready, false).is_ok());
}

#[test]
fn full_queue_asks_the_caller_to_wait() {
    let mut pipeline = started();
    for _ in 0..QUEUE_CAPACITY {
        enqueue(&mut pipeline, "x");
    }
    assert_eq!(QUEUE_CAPACITY, 64);
    assert_eq!(pipeline.queued_requests(), 64);
    let answer = speak_sentence(&mut pipeline, "y", "v", 1000, "kokoro");
    match answer {
        Err(error) => {
            assert!(matches!(error, TtsError::QueueFull));
            assert!(!error.is_failure());
        }
        Ok(()) => panic!("a full queue accepted a request"),
    }
    assert_eq!(pipeline.queued_requests(), 64);
    take(&mut pipeline, "x");
    assert!(speak_sentence(&mut pipeline, "y", "af_heart", 1200, "kokoro").is_ok());
    assert_eq!(pipeline.queued_requests(), 64);
}

#[test]
fn shutdown_twice_is_harmless() {
    let mut pipeline = started();
    enqueue(&mut pipeline, "one");
    enqueue(&mut pipeline, "two");
    enqueue(&mut pipeline, "three");
    take(&mut pipeline, "one");
    forward(&mut pipeline, "/one");
    assert_eq!(append(&mut pipeline), "/one");
    take(&mut pipeline, "two");
    forward(&mut pipeline, "/two");
    assert_eq!(paths(shutdown_audio_player(&mut pipeline)), vec!["/one", "/two"]);
    assert_eq!(pipeline.pending_files(), 0);
    assert_eq!(pipeline.queued_requests(), 0);
    assert!(shutdown_audio_player(&mut pipeline).is_empty());
    assert_eq!(pipeline.pending_files(), 0);
    assert!(matches!(
        speak_sentence(&mut pipeline, "late", "v", 1000, "kokoro"),
        Err(TtsError::QueueClosed)
    ));
    assert!(matches!(pipeline.next_command(), Some(PlaybackCommand::Shutdown)));
    match pipeline.playback_step(true) {
        PlaybackEffect::Terminated(released) => assert!(released.is_empty()),
        other => panic!("expected the engine to end, got {:?}", other),
    }
    assert!(matches!(pipeline.playback_step(true), PlaybackEffect::Idle));
    assert!(matches!(pipeline.worker_next(), WorkerStep::Closed));
    assert!(shutdown_audio_player(&mut pipeline).is_empty());
}

#[test]
fn artifact_that_arrives_after_shutdown_is_deleted() {
    let mut pipeline = started();
    enqueue(&mut pipeline, "one");
    take(&mut pipeline, "one");
    assert!(shutdown_audio_player(&mut pipeline).is_empty());
    match pipeline.worker_generated(Ok("/one".to_string())) {
        WorkerAction::Delete(path) => assert_eq!(path, "/one"),
        other => panic!("expected a deletion, got {:?}", other),
    }
    assert_eq!(pipeline.pending_files(), 0);
}

#[test]
fn outcome_without_request_in_synthesis_is_deleted() {
    let mut pipeline = started();
    match pipeline.worker_generated(Ok("/stray".to_string())) {
        WorkerAction::Delete(path) => assert_eq!(path, "/stray"),
        other => panic!("expected a deletion, got {:?}", other),
    }
}

#[test]
fn only_one_request_is_in_synthesis_at_a_time() {
    let mut pipeline = started();
    enqueue(&mut pipeline, "one");
    enqueue(&mut pipeline, "two");
    take(&mut pipeline, "one");
    assert!(matches!(pipeline.worker_next(), WorkerStep::Idle));
    assert_eq!(pipeline.queued_requests(), 1);
    forward(&mut pipeline, "/one");
    take(&mut pipeline, "two");
}

#[test]
fn streamed_sentences_go_to_piper_only_by_name() {
    let mut pipeline = started();
    assert!(speak_sentence(&mut pipeline, "a", "v", 900, "piper").is_ok());
    assert!(speak_sentence(&mut pipeline, "b", "v", 900, "macos").is_ok());
    assert!(speak_sentence(&mut pipeline, "c", "v", 900, "nonsense").is_ok());
    let mut engines = Vec::new();
    for _ in 0..3 {
        match pipeline.worker_next() {
            WorkerStep::Generate(_, request) => engines.push(request.engine),
            other => panic!("expected a request, got {:?}", other),
        }
        let _ = pipeline.worker_generated(Err("x".to_string()));
    }
    assert_eq!(engines, vec![Engine::Piper, Engine::Kokoro, Engine::Kokoro]);
}

#[test]
fn single_utterance_stops_the_queue_and_names_its_engine() {
    let mut pipeline = started();
    enqueue(&mut pipeline, "queued");
    match speak(&mut pipeline, "hello", "edge", "en-US-AriaNeural", 1100) {
        Ok(request) => {
            assert_eq!(request.text, "hello");
            assert_eq!(request.voice, "en-US-AriaNeural");
            assert_eq!(request.speed_permille, 1100);
            assert_eq!(request.engine, Engine::Edge);
        }
        Err(error) => panic!("unexpected error {:?}", error),
    }
    assert_eq!(pipeline.cancel_state(), CancelState::Stopping);
    match speak(&mut pipeline, "hello", "festival", "v", 1000) {
        Err(error) => {
            assert!(matches!(&error, TtsError::UnknownEngine(name) if name == "festival"));
            assert_eq!(error.message(), "Unknown TTS engine: festival");
        }
        Ok(request) => panic!("unexpected request {:?}", request),
    }
}
