use jarvis::commands::{AssistantCommand, CommandMatch};
use jarvis::config::WakeWordEngine;
use jarvis::error::{JarvisError, RecorderError};
use jarvis::events::EventTypes;
use jarvis::listener::porcupine::{api_key_to_use, keyword_file, PorcupineFailure};
use jarvis::listener::vosk::ratio_of_holders;
use jarvis::listener::{
    command_executed, data_callback, engine_from_name, find_and_execute_command,
    force_stop_recording, frame_fits, get_wake_word_engine, init, is_initialized, is_listening,
    keyword_callback, porcupine, recording_loop, rustpotter, start_listening, start_recording,
    stop_listening, stop_poll, stop_recording, vosk, BackendOutput, DetectionEvent, Detector,
    DetectorCall, ListenerFlags, StopStep,
};
use jarvis::listener::rustpotter::count_loaded;

fn frame(value: i16) -> Vec<i16> {
    vec![value; 512]
}

#[test]
fn detections_are_well_formed_for_silent_and_loud_frames() {
    for f in [frame(0), frame(i16::MAX), frame(i16::MIN)] {
        assert_eq!(data_callback(&f, &BackendOutput::Rustpotter(None)), None);
        assert_eq!(data_callback(&f, &BackendOutput::Rustpotter(Some(619))), None);
        assert_eq!(
            data_callback(&f, &BackendOutput::Rustpotter(Some(620))),
            Some(DetectionEvent { keyword_index: 0, score: 620 })
        );
        assert_eq!(data_callback(&f, &BackendOutput::Porcupine(Ok(-1))), None);
        assert_eq!(
            data_callback(&f, &BackendOutput::Porcupine(Ok(2))),
            Some(DetectionEvent { keyword_index: 2, score: 1000 })
        );
        assert_eq!(data_callback(&f, &BackendOutput::Porcupine(Err("bad frame".to_string()))), None);
        assert_eq!(data_callback(&f, &BackendOutput::Vosk(None)), None);
        assert_eq!(
            data_callback(&f, &BackendOutput::Vosk(Some("Джарвис".to_string()))),
            Some(DetectionEvent { keyword_index: 0, score: 1000 })
        );
    }
}

#[test]
fn frame_of_another_length_gives_no_detection() {
    let short = vec![0i16; 256];
    assert!(!frame_fits(&short));
    assert_eq!(data_callback(&short, &BackendOutput::Rustpotter(Some(900))), None);
    assert_eq!(data_callback(&Vec::new(), &BackendOutput::Porcupine(Ok(0))), None);
}

#[test]
fn streaming_match_needs_seventy_percent_of_the_words() {
    assert_eq!(ratio_of_holders("джарвис", "джарвис"), 100);
    assert_eq!(ratio_of_holders("ДЖАРВИС привет", "джарвис"), 50);
    assert_eq!(ratio_of_holders("эй джарвиса", "джарвис"), 50);
    assert_eq!(ratio_of_holders("", "джарвис"), 0);
    assert_eq!(ratio_of_holders("   ", "джарвис"), 0);
    assert_eq!(vosk::data_callback(Some("джарвис привет")), None);
    // 7 of 10 words.
    let text = "джарвис джарвис джарвис джарвис джарвис джарвис джарвис a b c";
    assert_eq!(
        vosk::data_callback(Some(text)),
        Some(DetectionEvent { keyword_index: 0, score: 700 })
    );
    assert_eq!(vosk::data_callback(None), None);
}

#[test]
fn back_end_is_selected_by_name() {
    assert_eq!(get_wake_word_engine(Some(" Vosk ")).unwrap(), WakeWordEngine::Vosk);
    assert_eq!(get_wake_word_engine(Some("PICOVOICE")).unwrap(), WakeWordEngine::Porcupine);
    assert_eq!(get_wake_word_engine(Some("rustpotter")).unwrap(), WakeWordEngine::Rustpotter);
    assert_eq!(get_wake_word_engine(Some("other")).unwrap(), WakeWordEngine::Rustpotter);
    assert_eq!(get_wake_word_engine(None).unwrap(), WakeWordEngine::Rustpotter);
    // The name itself is compared as it stands.
    assert_eq!(engine_from_name("Vosk"), WakeWordEngine::Rustpotter);
    assert_eq!(engine_from_name("vosk"), WakeWordEngine::Vosk);
}

#[test]
fn acoustic_model_needs_one_loaded_file() {
    let mut detector = Detector::new();
    assert_eq!(
        rustpotter::init(&mut detector, &Ok(()), &vec![false, false]),
        Err("No Rustpotter wake-word files could be loaded".to_string())
    );
    assert_eq!(
        rustpotter::init(&mut detector, &Ok(()), &Vec::new()),
        Err("No Rustpotter wake-word files could be loaded".to_string())
    );
    assert_eq!(
        rustpotter::init(&mut detector, &Err("bad config".to_string()), &vec![true]),
        Err("Failed to create Rustpotter instance: bad config".to_string())
    );
    assert!(!is_initialized(&detector));
    assert_eq!(count_loaded(&vec![false, true, true, false, false]), 2);
    assert_eq!(rustpotter::init(&mut detector, &Ok(()), &vec![false, true, true, false, false]), Ok(()));
    assert_eq!(detector.active, Some(WakeWordEngine::Rustpotter));
}

#[test]
fn keyword_model_needs_a_key_and_a_keyword_file() {
    assert_eq!(api_key_to_use(None), Err("Picovoice API key not set in settings".to_string()));
    assert_eq!(
        api_key_to_use(Some("  ")),
        Err("Picovoice API key is empty. Please set it in settings.".to_string())
    );
    assert_eq!(api_key_to_use(Some(" abc \n")), Ok("abc".to_string()));
    assert!(keyword_file("k.ppn", true).is_ok());
    assert_eq!(
        keyword_file("k.ppn", false),
        Err("Picovoice keyword file not found: k.ppn".to_string())
    );
    let mut detector = Detector::new();
    assert_eq!(
        porcupine::init(&mut detector, Err(PorcupineFailure::InvalidApiKey)),
        Err("Invalid Picovoice API key. Please check your settings.".to_string())
    );
    assert_eq!(
        porcupine::init(&mut detector, Err(PorcupineFailure::NetworkError)),
        Err("Network error. Please check your internet connection.".to_string())
    );
    assert_eq!(
        porcupine::init(&mut detector, Err(PorcupineFailure::Other("x".to_string()))),
        Err("Porcupine error: x".to_string())
    );
    assert!(!is_initialized(&detector));
    assert!(porcupine::init(&mut detector, Ok(())).is_ok());
    assert_eq!(detector.active, Some(WakeWordEngine::Porcupine));

    let mut streaming = Detector::new();
    assert_eq!(
        vosk::init(&mut streaming, "model", false),
        Err("Vosk model not found at: model".to_string())
    );
    assert!(!is_initialized(&streaming));
    assert!(vosk::init(&mut streaming, "model", true).is_ok());
    assert_eq!(streaming.active, Some(WakeWordEngine::Vosk));
}

#[test]
fn detector_is_set_up_once() {
    let mut detector = Detector::new();
    let mut built = 0;
    for _ in 0..2 {
        if let DetectorCall::SetUp(engine) = init(&detector, WakeWordEngine::Rustpotter).unwrap() {
            assert_eq!(engine, WakeWordEngine::Rustpotter);
            built += 1;
            rustpotter::init(&mut detector, &Ok(()), &vec![true]).unwrap();
        }
    }
    assert_eq!(built, 1);
    assert_eq!(init(&detector, WakeWordEngine::Vosk).unwrap(), DetectorCall::Nothing);
    // Reports to a detector that is set up change nothing and succeed.
    assert!(rustpotter::init(&mut detector, &Err("x".to_string()), &Vec::new()).is_ok());
    assert!(porcupine::init(&mut detector, Err(PorcupineFailure::NetworkError)).is_ok());
    assert!(vosk::init(&mut detector, "model", false).is_ok());
    assert_eq!(detector.active, Some(WakeWordEngine::Rustpotter));
}

#[test]
fn listening_starts_once() {
    let mut flags = ListenerFlags::new();
    assert!(!is_listening(&flags));
    assert_eq!(start_listening(&flags, Some("vosk")), Ok(Some(WakeWordEngine::Vosk)));
    start_recording(&mut flags, &Ok(()), &Ok(())).unwrap();
    assert!(is_listening(&flags));
    // A start while listening succeeds and asks for no second worker.
    assert_eq!(start_listening(&flags, Some("vosk")), Ok(None));
    assert_eq!(start_listening(&flags, None), Ok(None));
    assert!(is_listening(&flags));
    assert!(recording_loop(&flags));
}

#[test]
fn failed_device_start_does_not_listen() {
    let mut flags = ListenerFlags::new();
    let failure = || {
        Err(JarvisError::RecorderError(RecorderError::InitializationFailed("gone".to_string())))
    };
    assert_eq!(
        start_recording(&mut flags, &failure(), &Ok(())),
        Err("Recorder init failed: Recorder error: Recorder initialization failed: gone".to_string())
    );
    assert_eq!(
        start_recording(&mut flags, &Ok(()), &failure()),
        Err(
            "Failed to start recording: Recorder error: Recorder initialization failed: gone"
                .to_string()
        )
    );
    assert!(!is_listening(&flags));
}

#[test]
fn stop_while_listening_ends_within_the_escalation_window() {
    let mut flags = ListenerFlags { listening: true, stop_requested: false };
    assert!(stop_listening(&mut flags));
    assert!(flags.stop_requested);
    assert!(!recording_loop(&flags));
    assert_eq!(stop_poll(&flags, 0), StopStep::Wait);
    assert_eq!(stop_poll(&flags, 4999), StopStep::Wait);
    assert_eq!(stop_poll(&flags, 5000), StopStep::Force);
    force_stop_recording(&mut flags, &Ok(())).unwrap();
    assert!(!is_listening(&flags));
    assert!(!flags.stop_requested);
    assert_eq!(stop_poll(&flags, 5000), StopStep::Done);
    // The worker ending by itself at the same moment changes nothing more.
    stop_recording(&mut flags, &Ok(())).unwrap();
    assert_eq!(flags, ListenerFlags::new());
}

#[test]
fn stop_without_a_worker_is_done_at_once() {
    let mut flags = ListenerFlags::new();
    assert!(!stop_listening(&mut flags));
    assert_eq!(flags, ListenerFlags::new());
    assert_eq!(stop_poll(&flags, 0), StopStep::Done);
}

#[test]
fn failed_forced_stop_keeps_the_flags() {
    let mut flags = ListenerFlags { listening: true, stop_requested: true };
    let failure = Err(JarvisError::Generic("stuck".to_string()));
    assert_eq!(
        force_stop_recording(&mut flags, &failure),
        Err("Failed to stop recording: Failed to stop recording: Error: stuck".to_string())
    );
    assert!(is_listening(&flags));
}

#[test]
fn greeting_is_one_of_the_three() {
    for _ in 0..20 {
        let (sound, event) = keyword_callback(0);
        assert!(["greet1", "greet2", "greet3"].contains(&sound.as_str()));
        assert_eq!(event, EventTypes::AssistantGreet);
    }
}

#[test]
fn command_lookup_for_the_listener() {
    assert_eq!(find_and_execute_command("x", None), Err("Commands not initialized".to_string()));
    let table = vec![AssistantCommand {
        path: "p".to_string(),
        phrases: vec!["open mail".to_string()],
        threshold: None,
        chain: true,
        sounds: Vec::new(),
    }];
    assert_eq!(
        find_and_execute_command("open mail", Some(&table)),
        Ok(Some(CommandMatch { index: 0, phrase: 0, ratio: 100 }))
    );
    assert_eq!(find_and_execute_command("zzz", Some(&table)), Ok(None));
    assert_eq!(command_executed(Ok(true)), Ok(Some(true)));
    assert_eq!(
        command_executed(Err("boom".to_string())),
        Err("Failed to execute command: boom".to_string())
    );
}
