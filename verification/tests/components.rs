use opencode_talk::cancel::{CancelState, CancellationCoordinator, Stage};
use opencode_talk::engine::Engine;
use opencode_talk::error::TtsError;
use opencode_talk::playback::{PlaybackEffect, PlaybackEngine};
use opencode_talk::processes::{stop_speaking, ProcessTracker};
use opencode_talk::queue::GenerationQueue;
use opencode_talk::registry::TempFileRegistry;
use opencode_talk::request::{AudioArtifact, PlaybackCommand, SpeechRequest};

fn artifact(ticket: u64, path: &str) -> AudioArtifact {
    AudioArtifact { ticket, path: path.to_string() }
}

#[test]
fn registry_holds_each_path_once() {
    let mut registry = TempFileRegistry::new();
    assert!(registry.is_empty());
    assert!(registry.register("/tmp/a.wav"));
    assert!(registry.register("/tmp/b.wav"));
    assert!(!registry.register("/tmp/a.wav"));
    assert_eq!(registry.len(), 2);
    assert!(registry.contains("/tmp/a.wav"));
    assert!(!registry.contains("/tmp/c.wav"));
}

#[test]
fn registry_release_is_idempotent() {
    let mut registry = TempFileRegistry::new();
    registry.register("/tmp/a.wav");
    registry.register("/tmp/b.wav");
    registry.register("/tmp/c.wav");
    assert!(registry.release("/tmp/b.wav"));
    assert!(!registry.release("/tmp/b.wav"));
    assert!(!registry.release("/tmp/never"));
    assert_eq!(registry.len(), 2);
    assert_eq!(registry.drain(), vec!["/tmp/a.wav", "/tmp/c.wav"]);
    assert!(registry.is_empty());
    assert!(registry.drain().is_empty());
}

#[test]
fn coordinator_clears_only_after_both_stages() {
    let mut coordinator = CancellationCoordinator::new();
    assert_eq!(coordinator.state(), CancelState::Idle);
    assert!(!coordinator.acknowledge(Stage::Playback));
    assert_eq!(coordinator.state(), CancelState::Idle);
    assert!(coordinator.request_stop());
    assert!(!coordinator.request_stop());
    assert!(coordinator.is_stopping());
    assert!(!coordinator.acknowledge(Stage::Generation));
    assert!(!coordinator.acknowledge(Stage::Generation));
    assert!(coordinator.has_drained(Stage::Generation));
    assert!(!coordinator.has_drained(Stage::Playback));
    assert_eq!(coordinator.state(), CancelState::Stopping);
    assert!(!coordinator.request_stop());
    assert!(coordinator.has_drained(Stage::Generation));
    assert!(coordinator.acknowledge(Stage::Playback));
    assert_eq!(coordinator.state(), CancelState::Idle);
    assert!(!coordinator.has_drained(Stage::Generation));
    assert!(coordinator.request_stop());
    assert!(!coordinator.acknowledge(Stage::Playback));
    assert!(coordinator.acknowledge(Stage::Generation));
    assert!(!coordinator.is_stopping());
}

#[test]
fn queue_is_first_in_first_out_with_tickets() {
    let mut queue = GenerationQueue::new();
    assert!(queue.dequeue().is_none());
    for text in ["a", "b", "c"] {
        assert!(queue.enqueue(SpeechRequest::new(text, "v", 1000, Engine::Piper)).is_ok());
    }
    assert_eq!(queue.len(), 3);
    assert_eq!(queue.next_ticket(), 0);
    let (ticket, request) = queue.dequeue().unwrap();
    assert_eq!((ticket, request.text.as_str()), (0, "a"));
    let dropped = queue.discard_all();
    assert_eq!(dropped.len(), 2);
    assert_eq!(dropped[0].text, "b");
    assert_eq!(dropped[1].text, "c");
    assert_eq!(queue.next_ticket(), 3);
    assert!(queue.enqueue(SpeechRequest::new("d", "v", 1000, Engine::Piper)).is_ok());
    let (ticket, request) = queue.dequeue().unwrap();
    assert_eq!((ticket, request.text.as_str()), (3, "d"));
}

#[test]
fn closed_queue_refuses() {
    let mut queue = GenerationQueue::new();
    assert!(!queue.is_closed());
    queue.close();
    assert!(queue.is_closed());
    let answer = queue.enqueue(SpeechRequest::new("a", "v", 1000, Engine::Kokoro));
    assert!(matches!(answer, Err(TtsError::QueueClosed)));
    assert_eq!(queue.len(), 0);
}

#[test]
fn playback_engine_follows_its_commands() {
    let mut engine = PlaybackEngine::new();
    assert!(matches!(
        engine.handle(PlaybackCommand::Play(artifact(0, "/a")), true),
        PlaybackEffect::Appended(a) if a.path == "/a" && a.ticket == 0
    ));
    assert!(matches!(
        engine.handle(PlaybackCommand::Play(artifact(1, "/b")), false),
        PlaybackEffect::Dropped(a, TtsError::DecodeFailure) if a.path == "/b"
    ));
    assert!(matches!(engine.play(artifact(2, "/c"), true), PlaybackEffect::Appended(_)));
    assert_eq!(engine.pending(), 2);
    assert!(engine.housekeeping(false).is_empty());
    match engine.handle(PlaybackCommand::Stop, true) {
        PlaybackEffect::Cleared(released) => {
            assert_eq!(released.len(), 2);
            assert_eq!(released[0].path, "/a");
            assert_eq!(released[1].path, "/c");
        }
        other => panic!("expected a clear, got {:?}", other),
    }
    assert_eq!(engine.pending(), 0);
    assert!(matches!(engine.play(artifact(3, "/d"), true), PlaybackEffect::Appended(_)));
    let finished = engine.housekeeping(true);
    assert_eq!(finished.len(), 1);
    assert_eq!(finished[0].path, "/d");
    assert!(matches!(engine.play(artifact(4, "/e"), true), PlaybackEffect::Appended(_)));
    match engine.handle(PlaybackCommand::Shutdown, true) {
        PlaybackEffect::Terminated(released) => assert_eq!(released[0].path, "/e"),
        other => panic!("expected the end, got {:?}", other),
    }
    assert!(engine.is_terminated());
    assert!(matches!(engine.shutdown(), PlaybackEffect::Idle));
    assert!(matches!(engine.stop(), PlaybackEffect::Idle));
    assert!(matches!(
        engine.play(artifact(5, "/f"), true),
        PlaybackEffect::Dropped(a, TtsError::Cancelled) if a.path == "/f"
    ));
    assert!(engine.housekeeping(true).is_empty());
    assert!(engine.release_all().is_empty());
}

#[test]
fn only_started_processes_are_killed() {
    let mut tracker = ProcessTracker::new();
    tracker.track(42);
    tracker.track(7);
    tracker.track(42);
    assert_eq!(tracker.len(), 2);
    assert!(tracker.is_tracked(7));
    tracker.untrack(7);
    tracker.untrack(7);
    assert!(!tracker.is_tracked(7));
    tracker.track(9);
    assert_eq!(stop_speaking(&mut tracker), vec![42, 9]);
    assert_eq!(tracker.len(), 0);
    assert!(stop_speaking(&mut tracker).is_empty());
}

#[test]
fn errors_have_their_texts() {
    assert_eq!(TtsError::QueueUninitialized.message(), "Audio player not initialized");
    assert_eq!(TtsError::QueueClosed.message(), "Failed to queue task: channel closed");
    assert_eq!(TtsError::QueueFull.message(), "Generation queue is full");
    assert_eq!(TtsError::AdapterFailure("boom".to_string()).message(), "boom");
    assert_eq!(TtsError::DeviceInitFailure.message(), "Failed to open audio output device");
    assert_eq!(TtsError::DecodeFailure.message(), "Failed to decode audio");
    assert_eq!(TtsError::Cancelled.message(), "cancelled");
    assert_eq!(TtsError::UnknownEngine("x".to_string()).message(), "Unknown TTS engine: x");
    assert!(!TtsError::Cancelled.is_failure());
    assert!(TtsError::DecodeFailure.is_failure());
    assert!(TtsError::QueueClosed.is_failure());
}

#[test]
fn copies_keep_every_field() {
    let request = SpeechRequest::new("text", "voice", 1500, Engine::Macos);
    let copy = request.duplicate();
    assert_eq!(copy.text, "text");
    assert_eq!(copy.voice, "voice");
    assert_eq!(copy.speed_permille, 1500);
    assert_eq!(copy.engine, Engine::Macos);
    let again = artifact(3, "/p").duplicate();
    assert_eq!((again.ticket, again.path.as_str()), (3, "/p"));
}
