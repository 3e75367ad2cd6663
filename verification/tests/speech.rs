use jarvis::error::{AudioError, JarvisError};
use jarvis::stt::{recognize, RecognitionResult};
use jarvis::tts::{
    detect_best_engine, get_available_voices, is_speaking, shutdown, speak, spoken, stop,
    test_openai_tts, TtsEngine, TtsManager,
};

fn result(text: &str, is_partial: bool) -> Option<RecognitionResult> {
    Some(RecognitionResult { text: text.to_string(), is_partial })
}

#[test]
fn blank_or_missing_recognition_means_keep_listening() {
    assert_eq!(recognize(None, false), None);
    assert_eq!(recognize(result("", false), false), None);
    assert_eq!(recognize(result("  \n", false), true), None);
    assert_eq!(recognize(result("включи", false), false), Some("включи".to_string()));
    assert_eq!(recognize(result("вкл", true), false), None);
    assert_eq!(recognize(result("вкл", true), true), Some("вкл".to_string()));
}

#[test]
fn one_utterance_at_a_time() {
    let mut slot = Some(TtsManager { engine: TtsEngine::System, is_speaking: false });
    assert_eq!(speak(&mut slot).unwrap(), Some(TtsEngine::System));
    assert!(is_speaking(&slot));
    // A request during an utterance is dropped.
    assert_eq!(speak(&mut slot).unwrap(), None);
    assert!(is_speaking(&slot));
    spoken(&mut slot);
    assert!(!is_speaking(&slot));
    assert_eq!(speak(&mut slot).unwrap(), Some(TtsEngine::System));
    stop(&mut slot).unwrap();
    assert!(!is_speaking(&slot));
    speak(&mut slot).unwrap();
    shutdown(&mut slot).unwrap();
    assert!(!is_speaking(&slot));
}

#[test]
fn speech_needs_a_set_up_engine_that_can_speak() {
    let mut none: Option<TtsManager> = None;
    match speak(&mut none) {
        Err(JarvisError::AudioError(AudioError::InitializationFailed(msg))) => {
            assert_eq!(msg, "TTS not initialized")
        }
        _ => panic!("failure expected"),
    }
    assert!(stop(&mut none).is_err());
    assert!(!is_speaking(&none));
    assert!(shutdown(&mut none).is_ok());
    let mut silero = Some(TtsManager { engine: TtsEngine::Silero, is_speaking: false });
    match speak(&mut silero) {
        Err(JarvisError::AudioError(AudioError::PlaybackFailed(msg))) => {
            assert_eq!(msg, "TTS engine not implemented")
        }
        _ => panic!("failure expected"),
    }
    assert!(!is_speaking(&silero));
    let mut openai = Some(TtsManager { engine: TtsEngine::OpenAI, is_speaking: false });
    assert_eq!(speak(&mut openai).unwrap(), Some(TtsEngine::OpenAI));
}

#[test]
fn engine_detection() {
    let long_key_text = "k".repeat(23);
    let long_key = long_key_text.as_str();
    assert!(test_openai_tts(Some(long_key)).is_ok());
    match test_openai_tts(Some("short")) {
        Err(JarvisError::AudioError(AudioError::InitializationFailed(msg))) => {
            assert_eq!(msg, "OpenAI API key too short")
        }
        _ => panic!("failure expected"),
    }
    // Nineteen bytes are too few, twenty are enough; bytes count, not letters.
    assert!(test_openai_tts(Some("k".repeat(19).as_str())).is_err());
    assert!(test_openai_tts(Some("k".repeat(20).as_str())).is_ok());
    assert!(test_openai_tts(Some("ключключкл")).is_ok());
    for missing in [None, Some(""), Some("   ")] {
        match test_openai_tts(missing) {
            Err(JarvisError::AudioError(AudioError::InitializationFailed(msg))) => {
                assert_eq!(msg, "OpenAI API key not found")
            }
            _ => panic!("failure expected"),
        }
    }
    assert_eq!(detect_best_engine(Some(long_key), true).unwrap(), TtsEngine::OpenAI);
    assert_eq!(detect_best_engine(Some(long_key), false).unwrap(), TtsEngine::OpenAI);
    assert_eq!(detect_best_engine(Some("short"), true).unwrap(), TtsEngine::System);
    assert_eq!(detect_best_engine(None, true).unwrap(), TtsEngine::System);
    match detect_best_engine(None, false) {
        Err(JarvisError::AudioError(AudioError::InitializationFailed(msg))) => {
            assert_eq!(msg, "No working TTS engine found")
        }
        _ => panic!("failure expected"),
    }
}

#[test]
fn voices_by_engine() {
    let system = Some(TtsManager { engine: TtsEngine::System, is_speaking: false });
    assert_eq!(get_available_voices(&system, Vec::new()).unwrap(), vec!["default"]);
    assert_eq!(
        get_available_voices(&system, vec!["Irina".to_string(), "Pavel".to_string()]).unwrap(),
        vec!["Irina", "Pavel"]
    );
    let openai = Some(TtsManager { engine: TtsEngine::OpenAI, is_speaking: false });
    assert_eq!(
        get_available_voices(&openai, vec!["x".to_string()]).unwrap(),
        vec!["alloy", "echo", "fable", "onyx", "nova", "shimmer"]
    );
    let other = Some(TtsManager { engine: TtsEngine::ElevenLabs, is_speaking: false });
    assert_eq!(get_available_voices(&other, Vec::new()).unwrap(), vec!["default"]);
    assert!(get_available_voices(&None, Vec::new()).is_err());
}
