use opencode_talk::audio::{choose_system_sound, parse_voice_list, playback_outcome, system_sound_path};
use opencode_talk::engine::{
    edge_rate, engine_from_name, fallback_engine, kokoro_artifact, kokoro_verdict, macos_rate,
    same_text, streaming_engine, synthesis_outcome, Engine, ServerReply, Verdict,
};
use opencode_talk::error::TtsError;
use opencode_talk::hotkey::{decode_superwhisper_hotkey, describe_hotkey, key_name};
use opencode_talk::paths::{
    application_path, choose_server_script, join_path, path_below_home, piper_model, single_path,
    stamped_path, ServerScript,
};
use opencode_talk::pipeline::{init_audio_player, speak_sentence, Pipeline, WorkerAction, WorkerStep};
use opencode_talk::playback::PlaybackEffect;
use opencode_talk::setup::{
    config_names_action, menu_action, releases_on_destroy, service_reports_running,
    service_start_outcome, toggle_panel, MenuAction, PanelAction,
};
use opencode_talk::text::{
    chars_of, contains_text, decimal_string, first_word_of_each_line, has_suffix, is_white, trim,
};
use opencode_talk::transcription::{
    get_server_url, route_request, server_bind_address, take_transcription, wants_json, Reply,
    SERVER_PORT,
};
use opencode_talk::voice::{
    get_voice_state, set_voice_state, tray_icon_name, voice_state_name, AppState, VoiceState,
};

#[test]
fn engines_are_found_by_name() {
    assert_eq!(engine_from_name("macos"), Some(Engine::Macos));
    assert_eq!(engine_from_name("piper"), Some(Engine::Piper));
    assert_eq!(engine_from_name("kokoro"), Some(Engine::Kokoro));
    assert_eq!(engine_from_name("edge"), Some(Engine::Edge));
    assert_eq!(engine_from_name("Piper"), None);
    assert_eq!(engine_from_name(""), None);
    assert_eq!(streaming_engine("piper"), Engine::Piper);
    assert_eq!(streaming_engine("edge"), Engine::Kokoro);
    assert_eq!(fallback_engine(Engine::Kokoro), Some(Engine::Piper));
    assert_eq!(fallback_engine(Engine::Piper), None);
    assert!(same_text("abc", "abc"));
    assert!(!same_text("abc", "abd"));
}

#[test]
fn unreachable_server_falls_back_and_the_sentence_is_played() {
    let verdict = kokoro_verdict(ServerReply::Unreachable("connection refused".to_string()));
    match verdict {
        Verdict::Fallback(notice) => assert_eq!(
            notice,
            "Kokoro server unavailable (connection refused), falling back to Piper"
        ),
        other => panic!("expected the fallback, got {:?}", other),
    }
    let mut pipeline = Pipeline::new();
    assert!(init_audio_player(&mut pipeline, true).is_ok());
    assert!(speak_sentence(&mut pipeline, "hello", "af_heart", 1000, "kokoro").is_ok());
    let engine = match pipeline.worker_next() {
        WorkerStep::Generate(_, request) => request.engine,
        other => panic!("expected a request, got {:?}", other),
    };
    let second = fallback_engine(engine).unwrap();
    assert_eq!(second, Engine::Piper);
    let outcome = synthesis_outcome(true, "/tmp/opencode-talk-piper-1-2.wav", "Piper", "");
    assert!(matches!(pipeline.worker_generated(outcome), WorkerAction::Play(_)));
    assert!(matches!(
        pipeline.playback_step(true),
        PlaybackEffect::Appended(a) if a.path == "/tmp/opencode-talk-piper-1-2.wav"
    ));
}

#[test]
fn server_answers_are_judged() {
    let body = br#"{"file": "/tmp/kokoro-17.wav", "duration": 1.5}"#.to_vec();
    assert!(matches!(
        kokoro_verdict(ServerReply::Answered(200, body.clone())),
        Verdict::Artifact(path) if path == "/tmp/kokoro-17.wav"
    ));
    assert!(matches!(
        kokoro_verdict(ServerReply::Answered(299, body.clone())),
        Verdict::Artifact(_)
    ));
    match kokoro_verdict(ServerReply::Answered(503, body.clone())) {
        Verdict::Fallback(notice) => {
            assert_eq!(notice, "Kokoro server returned 503, falling back to Piper")
        }
        other => panic!("expected the fallback, got {:?}", other),
    }
    assert!(matches!(kokoro_verdict(ServerReply::Answered(199, body.clone())), Verdict::Fallback(_)));
    assert!(matches!(kokoro_verdict(ServerReply::Answered(300, body)), Verdict::Fallback(_)));
    match kokoro_verdict(ServerReply::Answered(200, br#"{"path": "/x"}"#.to_vec())) {
        Verdict::Failure(TtsError::AdapterFailure(reason)) => {
            assert_eq!(reason, "Missing file path in response")
        }
        other => panic!("expected a failure, got {:?}", other),
    }
    assert!(matches!(
        kokoro_verdict(ServerReply::Answered(200, br#"{"file": 3}"#.to_vec())),
        Verdict::Failure(TtsError::AdapterFailure(reason)) if reason == "Missing file path in response"
    ));
    assert!(matches!(
        kokoro_verdict(ServerReply::Answered(200, b"[1, 2]".to_vec())),
        Verdict::Failure(TtsError::AdapterFailure(reason)) if reason == "Missing file path in response"
    ));
    match kokoro_verdict(ServerReply::Answered(200, b"not json".to_vec())) {
        Verdict::Failure(TtsError::AdapterFailure(reason)) => {
            assert!(reason.starts_with("Failed to parse Kokoro response: "));
            assert!(reason.len() > "Failed to parse Kokoro response: ".len());
        }
        other => panic!("expected a failure, got {:?}", other),
    }
}

#[test]
fn artifact_of_a_lookup() {
    assert!(matches!(kokoro_artifact(Ok(Some("/f".to_string()))), Ok(path) if path == "/f"));
    assert!(matches!(
        kokoro_artifact(Ok(None)),
        Err(TtsError::AdapterFailure(reason)) if reason == "Missing file path in response"
    ));
    assert!(matches!(
        kokoro_artifact(Err("EOF".to_string())),
        Err(TtsError::AdapterFailure(reason)) if reason == "Failed to parse Kokoro response: EOF"
    ));
}

#[test]
fn rates_follow_the_speed() {
    assert_eq!(macos_rate(1000), 175);
    assert_eq!(macos_rate(1200), 210);
    assert_eq!(macos_rate(1150), 201);
    assert_eq!(macos_rate(0), 0);
    assert_eq!(macos_rate(u32::MAX), 751619276);
    assert_eq!(edge_rate(1000), "+0%");
    assert_eq!(edge_rate(1100), "+10%");
    assert_eq!(edge_rate(1259), "+25%");
    assert_eq!(edge_rate(995), "+0%");
    assert_eq!(edge_rate(991), "+0%");
    assert_eq!(edge_rate(990), "-1%");
    assert_eq!(edge_rate(750), "-25%");
    assert_eq!(edge_rate(0), "-100%");
}

#[test]
fn subprocess_outcomes() {
    assert_eq!(synthesis_outcome(true, "/tmp/x.wav", "Piper", "ignored"), Ok("/tmp/x.wav".to_string()));
    assert_eq!(
        synthesis_outcome(false, "/tmp/x.wav", "Piper", "no such model"),
        Err("Piper failed: no such model".to_string())
    );
    assert_eq!(playback_outcome(true), Ok(()));
    assert_eq!(playback_outcome(false), Err("Audio playback failed".to_string()));
    assert_eq!(service_start_outcome(true, "started", "warn"), Ok("started".to_string()));
    assert_eq!(
        service_start_outcome(false, "out", "err"),
        Err("Service start failed: outerr".to_string())
    );
}

#[test]
fn hotkeys_are_decoded() {
    let json = r#"{"carbonKeyCode":49,"carbonModifiers":256,"mouseButtonNumbers":[]}"#;
    assert_eq!(decode_superwhisper_hotkey(json), Some("\u{2318}Space".to_string()));
    let all = r#"{"carbonKeyCode":0,"carbonModifiers":6912}"#;
    assert_eq!(
        decode_superwhisper_hotkey(all),
        Some("\u{2303}\u{2325}\u{21e7}\u{2318}A".to_string())
    );
    assert_eq!(
        decode_superwhisper_hotkey(r#"{"carbonKeyCode":53,"carbonModifiers":0}"#),
        Some("Escape".to_string())
    );
    assert_eq!(decode_superwhisper_hotkey(r#"{"carbonKeyCode":10,"carbonModifiers":0}"#), None);
    assert_eq!(decode_superwhisper_hotkey(r#"{"carbonKeyCode":49}"#), None);
    assert_eq!(decode_superwhisper_hotkey(r#"{"carbonModifiers":256}"#), None);
    assert_eq!(decode_superwhisper_hotkey(r#"{"carbonKeyCode":-1,"carbonModifiers":0}"#), None);
    assert_eq!(decode_superwhisper_hotkey(r#"{"carbonKeyCode":"49","carbonModifiers":0}"#), None);
    assert_eq!(decode_superwhisper_hotkey("carbonKeyCode"), None);
    assert_eq!(decode_superwhisper_hotkey(""), None);
}

#[test]
fn hotkey_labels_from_numbers() {
    assert_eq!(describe_hotkey(Some(49), Some(2048 + 512)), Some("\u{2325}\u{21e7}Space".to_string()));
    assert_eq!(describe_hotkey(Some(122), Some(4096)), Some("\u{2303}F1".to_string()));
    assert_eq!(describe_hotkey(Some(4294967296 + 49), Some(4294967296 + 256)), Some("\u{2318}Space".to_string()));
    assert_eq!(describe_hotkey(Some(49), Some(1)), Some("Space".to_string()));
    assert_eq!(describe_hotkey(None, Some(256)), None);
    assert_eq!(describe_hotkey(Some(49), None), None);
    assert_eq!(describe_hotkey(Some(30), Some(256)), None);
    assert_eq!(key_name(111), Some("F12"));
    assert_eq!(key_name(22), Some("6"));
    assert_eq!(key_name(23), Some("5"));
    assert_eq!(key_name(112), None);
}

#[test]
fn text_helpers() {
    assert_eq!(decimal_string(0), "0");
    assert_eq!(decimal_string(7), "7");
    assert_eq!(decimal_string(10), "10");
    assert_eq!(decimal_string(7891), "7891");
    assert_eq!(decimal_string(u128::MAX), "340282366920938463463374607431768211455");
    assert_eq!(chars_of("a\u{e9}z"), vec!['a', '\u{e9}', 'z']);
    assert!(is_white(' ') && is_white('\n') && is_white('\u{a0}') && is_white('\u{3000}'));
    assert!(!is_white('a') && !is_white('\u{200b}') && !is_white('\u{1c}'));
    assert_eq!(trim("  hello world \n"), "hello world");
    assert_eq!(trim("x"), "x");
    assert_eq!(trim(" \t\r\n"), "");
    assert_eq!(trim(""), "");
    assert_eq!(trim("\u{2003}\u{e9}t\u{e9} \u{85}"), "\u{e9}t\u{e9}");
    assert!(contains_text("Status\nRunning: Yes\n", "Running: Yes"));
    assert!(!contains_text("Running: No", "Running: Yes"));
    assert!(contains_text("abc", ""));
    assert!(contains_text("", ""));
    assert!(!contains_text("ab", "abc"));
    assert!(contains_text("aab", "ab"));
    assert!(has_suffix("voice.onnx", ".onnx"));
    assert!(!has_suffix("voice.onnx.bak", ".onnx"));
    assert!(!has_suffix("x", ".onnx"));
    assert!(has_suffix("x", ""));
}

#[test]
fn voices_are_the_first_words_of_the_lines() {
    let listing = "Albert              en_US    # Hello! My name is Albert.\nAlice               it_IT    # Ciao!\n\n   \nBad News            en_US    # x\r\n  Zarvox  en_US";
    assert_eq!(parse_voice_list(listing), vec!["Albert", "Alice", "Bad", "Zarvox"]);
    assert!(parse_voice_list("").is_empty());
    assert!(parse_voice_list("\n\n").is_empty());
    assert_eq!(first_word_of_each_line("one"), vec!["one"]);
    assert_eq!(first_word_of_each_line("one\n"), vec!["one"]);
    assert_eq!(first_word_of_each_line("\u{e9}t\u{e9} x\n\ty z"), vec!["\u{e9}t\u{e9}", "y"]);
}

#[test]
fn paths_are_built() {
    assert_eq!(join_path("/Users/x", "Library/bin/piper"), "/Users/x/Library/bin/piper");
    assert_eq!(join_path("/", "tmp"), "/tmp");
    assert_eq!(join_path("", "tmp"), "tmp");
    assert_eq!(
        path_below_home(Some("/Users/x"), "Library/Python/3.9/bin/piper", "piper"),
        "/Users/x/Library/Python/3.9/bin/piper"
    );
    assert_eq!(path_below_home(None, "Library/Python/3.9/bin/piper", "piper"), "piper");
    assert_eq!(piper_model("/m/amy.onnx", Some("/Users/x")), "/m/amy.onnx");
    assert_eq!(
        piper_model("amy", Some("/Users/x")),
        "/Users/x/.local/share/piper-voices/en_US-lessac-high.onnx"
    );
    assert_eq!(piper_model("amy", None), "en_US-lessac-high.onnx");
    assert_eq!(
        stamped_path("piper", 4242, 1700000000123456789, "wav"),
        "/tmp/opencode-talk-piper-4242-1700000000123456789.wav"
    );
    assert_ne!(stamped_path("piper", 1, 23, "wav"), stamped_path("piper", 12, 3, "wav"));
    assert_eq!(single_path(77, "mp3"), "/tmp/opencode-talk-77.mp3");
    assert_eq!(application_path("superwhisper"), "/Applications/superwhisper.app");
    assert_eq!(choose_server_script(true, true), ServerScript::Bundled);
    assert_eq!(choose_server_script(false, true), ServerScript::Local);
    assert_eq!(choose_server_script(false, false), ServerScript::SourceTree);
    assert_eq!(system_sound_path("Glass", "aiff"), "/System/Library/Sounds/Glass.aiff");
    assert_eq!(choose_system_sound("Glass", true, true), "/System/Library/Sounds/Glass.aiff");
    assert_eq!(choose_system_sound("Glass", false, true), "/System/Library/Sounds/Glass.wav");
    assert_eq!(choose_system_sound("Glass", false, false), "/System/Library/Sounds/Glass.aiff");
}

#[test]
fn server_decisions() {
    assert_eq!(SERVER_PORT, 7891);
    assert_eq!(get_server_url(), "http://127.0.0.1:7891/transcription");
    assert_eq!(server_bind_address(), "127.0.0.1:7891");
    assert_eq!(route_request(false, "/transcription"), Some(Reply::MethodNotAllowed));
    assert_eq!(route_request(true, "/other"), Some(Reply::NotFound));
    assert_eq!(route_request(true, "/transcription?x=1"), Some(Reply::NotFound));
    assert_eq!(route_request(true, "/transcription"), None);
    assert_eq!(route_request(true, "/transcription/"), None);
    assert!(wants_json("  {\"text\": \"hi\"}"));
    assert!(!wants_json("hello {"));
    assert!(!wants_json("   "));
    assert_eq!(
        take_transcription(" {\"text\": \"hi\"} ", Some("hi".to_string())),
        ("hi".to_string(), Reply::Accepted)
    );
    assert_eq!(
        take_transcription(" {broken ", None),
        ("{broken".to_string(), Reply::Accepted)
    );
    assert_eq!(take_transcription("  plain words\n", None), ("plain words".to_string(), Reply::Accepted));
    assert_eq!(take_transcription(" \n ", None), (String::new(), Reply::EmptyTranscription));
    assert_eq!(
        take_transcription("{\"text\": \"\"}", Some(String::new())),
        (String::new(), Reply::EmptyTranscription)
    );
    assert_eq!((Reply::Accepted.status(), Reply::Accepted.body()), (200, "OK"));
    assert_eq!(
        (Reply::MethodNotAllowed.status(), Reply::MethodNotAllowed.body()),
        (405, "Method not allowed")
    );
    assert_eq!((Reply::NotFound.status(), Reply::NotFound.body()), (404, "Not found"));
    assert_eq!(
        (Reply::UnreadableBody.status(), Reply::UnreadableBody.body()),
        (400, "Failed to read body")
    );
    assert_eq!(
        (Reply::EmptyTranscription.status(), Reply::EmptyTranscription.body()),
        (400, "Empty transcription")
    );
}

#[test]
fn voice_state_follows_the_flags() {
    let mut state = AppState::default();
    assert!(!state.is_listening && !state.is_speaking && !state.is_processing);
    assert!(state.current_session_id.is_none());
    assert_eq!(get_voice_state(&state), VoiceState::Idle);
    state.current_session_id = Some("s1".to_string());
    for voice_state in [
        VoiceState::Listening,
        VoiceState::Processing,
        VoiceState::Speaking,
        VoiceState::Idle,
    ] {
        set_voice_state(&mut state, voice_state);
        assert_eq!(get_voice_state(&state), voice_state);
        assert_eq!(state.current_session_id.as_deref(), Some("s1"));
    }
    state.is_speaking = true;
    state.is_processing = true;
    assert_eq!(get_voice_state(&state), VoiceState::Processing);
    state.is_listening = true;
    assert_eq!(get_voice_state(&state), VoiceState::Listening);
    assert_eq!(tray_icon_name(VoiceState::Idle), "icon.png");
    assert_eq!(tray_icon_name(VoiceState::Listening), "icon-listening.png");
    assert_eq!(tray_icon_name(VoiceState::Processing), "icon-processing.png");
    assert_eq!(tray_icon_name(VoiceState::Speaking), "icon-speaking.png");
    assert_eq!(voice_state_name(VoiceState::Idle), "idle");
    assert_eq!(voice_state_name(VoiceState::Speaking), "speaking");
}

#[test]
fn setup_decisions() {
    assert!(service_reports_running("Service\n  Running: Yes\n"));
    assert!(!service_reports_running("Running: yes"));
    assert!(config_names_action("{\"scriptsShell\": {\"opencodeTalk\": {}}}"));
    assert!(!config_names_action("{}"));
    assert_eq!(toggle_panel(true), PanelAction::Hide);
    assert_eq!(toggle_panel(false), PanelAction::ShowAndFocus);
    assert_eq!(menu_action("show"), MenuAction::ShowPanel);
    assert_eq!(menu_action("settings"), MenuAction::ShowSettings);
    assert_eq!(menu_action("quit"), MenuAction::Quit);
    assert_eq!(menu_action("sep"), MenuAction::Ignore);
    assert!(releases_on_destroy("main"));
    assert!(!releases_on_destroy("settings"));
}
