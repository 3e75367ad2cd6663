use jarvis::error::{
    decimal_string, prefixed, AudioError, CommandError, ConfigError, DatabaseError, JarvisError,
    ListenerError, RecorderError, SttError,
};
use jarvis::events::{greeting_or_default, pick_greeting, sound_file, EventTypes};

#[test]
fn decimal_notation() {
    assert_eq!(decimal_string(0), "0");
    assert_eq!(decimal_string(7), "7");
    assert_eq!(decimal_string(10), "10");
    assert_eq!(decimal_string(-1), "-1");
    assert_eq!(decimal_string(2000), "2000");
    assert_eq!(decimal_string(i64::MAX), i64::MAX.to_string());
    assert_eq!(decimal_string(i64::MIN), i64::MIN.to_string());
    assert_eq!(prefixed("a: ", "b"), "a: b");
}

#[test]
fn every_subsystem_error_has_its_text() {
    assert_eq!(
        ConfigError::DirectoryCreationFailed("p".into()).message(),
        "Failed to create directory: p"
    );
    assert_eq!(ConfigError::InvalidConfiguration("m".into()).message(), "Invalid configuration: m");
    assert_eq!(
        ConfigError::MissingRequiredSetting("s".into()).message(),
        "Missing required setting: s"
    );
    assert_eq!(ConfigError::FileNotFound("f".into()).message(), "Configuration file not found: f");
    assert_eq!(
        DatabaseError::InitializationFailed("m".into()).message(),
        "Database initialization failed: m"
    );
    assert_eq!(DatabaseError::ReadError("k".into()).message(), "Failed to read from database, key: k");
    assert_eq!(DatabaseError::WriteError("k".into()).message(), "Failed to write to database, key: k");
    assert_eq!(
        DatabaseError::CorruptedData("m".into()).message(),
        "Database contains corrupted data: m"
    );
    assert_eq!(
        RecorderError::InitializationFailed("m".into()).message(),
        "Recorder initialization failed: m"
    );
    assert_eq!(RecorderError::DeviceNotFound(-3).message(), "Audio device not found, ID: -3");
    assert_eq!(RecorderError::DeviceNotFound(42).message(), "Audio device not found, ID: 42");
    assert_eq!(RecorderError::PermissionDenied.message(), "Permission denied to access microphone");
    assert_eq!(RecorderError::RecordingFailed("m".into()).message(), "Recording failed: m");
    assert_eq!(RecorderError::UnsupportedFormat.message(), "Unsupported audio format");
    assert_eq!(RecorderError::DeviceInUse.message(), "Audio device is already in use");
    assert_eq!(
        AudioError::InitializationFailed("m".into()).message(),
        "Audio system initialization failed: m"
    );
    assert_eq!(AudioError::FileNotFound("f".into()).message(), "Audio file not found: f");
    assert_eq!(AudioError::UnsupportedFormat("x".into()).message(), "Unsupported audio format: x");
    assert_eq!(AudioError::PlaybackFailed("m".into()).message(), "Audio playback failed: m");
    assert_eq!(AudioError::VolumeControlError.message(), "Failed to control volume");
    assert_eq!(
        ListenerError::EngineInitializationFailed("e".into()).message(),
        "Wake-word engine initialization failed: e"
    );
    assert_eq!(ListenerError::ApiKeyMissing.message(), "API key is missing");
    assert_eq!(ListenerError::ApiKeyInvalid.message(), "API key is invalid");
    assert_eq!(ListenerError::ModelLoadingFailed("m".into()).message(), "Failed to load model: m");
    assert_eq!(ListenerError::ProcessingError("m".into()).message(), "Processing error: m");
    assert_eq!(ListenerError::NetworkError("m".into()).message(), "Network error: m");
    assert_eq!(SttError::InitializationFailed("m".into()).message(), "STT initialization failed: m");
    assert_eq!(SttError::ModelNotFound("m".into()).message(), "STT model not found: m");
    assert_eq!(SttError::RecognitionFailed("m".into()).message(), "Speech recognition failed: m");
    assert_eq!(SttError::UnsupportedLanguage("l".into()).message(), "Unsupported language: l");
    assert_eq!(CommandError::ParseError("m".into()).message(), "Command parse error: m");
    assert_eq!(CommandError::ExecutionFailed("c".into()).message(), "Command execution failed: c");
    assert_eq!(CommandError::CommandNotFound("c".into()).message(), "Command not found: c");
    assert_eq!(CommandError::InvalidArguments("a".into()).message(), "Invalid arguments: a");
    assert_eq!(
        CommandError::PermissionDenied("c".into()).message(),
        "Permission denied for command: c"
    );
    assert_eq!(CommandError::Timeout.message(), "Command execution timeout");
}

#[test]
fn application_error_names_the_subsystem() {
    assert_eq!(
        JarvisError::ConfigError(ConfigError::FileNotFound("f".into())).message(),
        "Configuration error: Configuration file not found: f"
    );
    assert_eq!(
        JarvisError::DatabaseError(DatabaseError::ReadError("k".into())).message(),
        "Database error: Failed to read from database, key: k"
    );
    assert_eq!(
        JarvisError::RecorderError(RecorderError::DeviceInUse).message(),
        "Recorder error: Audio device is already in use"
    );
    assert_eq!(
        JarvisError::AudioError(AudioError::VolumeControlError).message(),
        "Audio error: Failed to control volume"
    );
    assert_eq!(
        JarvisError::ListenerError(ListenerError::ApiKeyMissing).message(),
        "Listener error: API key is missing"
    );
    assert_eq!(
        JarvisError::SttError(SttError::ModelNotFound("m".into())).message(),
        "Speech-to-text error: STT model not found: m"
    );
    assert_eq!(
        JarvisError::CommandError(CommandError::Timeout).message(),
        "Command error: Command execution timeout"
    );
    assert_eq!(JarvisError::SerializationError("s".into()).message(), "Serialization error: s");
    assert_eq!(JarvisError::Generic("g".into()).message(), "Error: g");
    let io = std::io::Error::new(std::io::ErrorKind::Other, "disk full");
    assert_eq!(JarvisError::IoError(io).message(), "IO error: disk full");
}

#[test]
fn notifications_and_sounds() {
    assert_eq!(EventTypes::AssistantGreet.get(), "greet");
    assert_eq!(EventTypes::AssistantWaiting.get(), "waiting");
    assert_eq!(greeting_or_default(None), "greet1");
    assert_eq!(greeting_or_default(Some("greet3".to_string())), "greet3");
    assert_eq!(sound_file("run"), "run.wav");
    let mut seen = std::collections::BTreeSet::new();
    for _ in 0..200 {
        seen.insert(pick_greeting());
    }
    assert!(seen.iter().all(|s| ["greet1", "greet2", "greet3"].contains(&s.as_str())));
    assert!(seen.len() > 1);
}
