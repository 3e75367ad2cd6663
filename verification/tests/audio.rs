use jarvis::audio::{
    backend_initialized, can_play_file, format_supported, get_sound_directory,
    get_supported_formats, init, is_initialized, play_sound, shutdown, stop_playback, AudioSystem,
    PlaybackCall,
};
use jarvis::config::AudioType;
use jarvis::error::{AudioError, JarvisError};
use tempfile::Builder;

#[test]
fn test_supported_formats() {
    let formats = get_supported_formats();
    assert!(formats.contains(&"wav".to_string()));
    assert!(formats.contains(&"mp3".to_string()));
}

#[test]
fn test_can_play_file() {
    let wav_file = Builder::new().prefix("test").suffix(".wav").tempfile().unwrap();
    assert!(wav_file.path().exists());

    assert!(can_play_file("test.wav", wav_file.path().exists()));

    let invalid_file = Builder::new().prefix("test").suffix(".txt").tempfile().unwrap();
    assert!(invalid_file.path().exists());

    assert!(!can_play_file("test.txt", invalid_file.path().exists()));

    let name = wav_file.path().file_name().unwrap().to_str().unwrap().to_string();
    assert!(can_play_file(&name, wav_file.path().exists()));
}

#[test]
fn playable_files_by_name() {
    assert_eq!(get_supported_formats(), vec!["wav", "mp3", "ogg", "flac", "m4a"]);
    assert!(can_play_file("a.b.MP3", true));
    assert!(can_play_file("song.Flac", true));
    assert!(!can_play_file("song.flac", false));
    assert!(!can_play_file("wav", true));
    assert!(!can_play_file(".wav", true));
    assert!(!can_play_file("x.wav.", true));
    assert!(!can_play_file("", true));
    assert!(format_supported("m4a"));
    assert!(!format_supported("M4A"));
}

#[test]
fn back_end_is_fixed_once() {
    let mut sys = AudioSystem::new();
    assert!(!is_initialized(&sys));
    assert_eq!(init(&mut sys).unwrap(), PlaybackCall::InitBackend(AudioType::Kira));
    assert!(is_initialized(&sys));
    assert_eq!(init(&mut sys).unwrap(), PlaybackCall::Nothing);
    assert!(backend_initialized(AudioType::Kira, Ok(())).is_ok());
    match backend_initialized(AudioType::Kira, Err(())) {
        Err(JarvisError::AudioError(AudioError::InitializationFailed(msg))) => {
            assert_eq!(msg, "Failed to initialize Kira audio backend")
        }
        _ => panic!("failure expected"),
    }
    match backend_initialized(AudioType::Rodio, Err(())) {
        Err(JarvisError::AudioError(AudioError::InitializationFailed(msg))) => {
            assert_eq!(msg, "Failed to initialize Rodio audio backend")
        }
        _ => panic!("failure expected"),
    }
}

#[test]
fn playing_needs_a_back_end_and_a_file() {
    let none = AudioSystem::new();
    match play_sound(&none, "run.wav", true) {
        Err(JarvisError::AudioError(AudioError::InitializationFailed(msg))) => {
            assert_eq!(msg, "Audio system not initialized")
        }
        _ => panic!("failure expected"),
    }
    assert!(stop_playback(&none).is_err());
    assert_eq!(shutdown(&none).unwrap(), PlaybackCall::Nothing);

    let kira = AudioSystem { audio_type: Some(AudioType::Kira) };
    match play_sound(&kira, "sound/none.wav", false) {
        Err(JarvisError::AudioError(AudioError::FileNotFound(name))) => {
            assert_eq!(name, "sound/none.wav")
        }
        _ => panic!("failure expected"),
    }
    assert_eq!(
        play_sound(&kira, "run.wav", true).unwrap(),
        PlaybackCall::Play { backend: AudioType::Kira, blocking: false }
    );
    let rodio = AudioSystem { audio_type: Some(AudioType::Rodio) };
    assert_eq!(
        play_sound(&rodio, "run.wav", true).unwrap(),
        PlaybackCall::Play { backend: AudioType::Rodio, blocking: true }
    );
    assert_eq!(stop_playback(&rodio).unwrap(), PlaybackCall::Stop(AudioType::Rodio));
    assert_eq!(shutdown(&rodio).unwrap(), PlaybackCall::Shutdown(AudioType::Rodio));
}

#[test]
fn sound_directory_prefers_the_resources() {
    assert_eq!(get_sound_directory(Some(("res/sound", true)), None).unwrap(), "res/sound");
    assert_eq!(
        get_sound_directory(Some(("res/sound", false)), Some(("./sound", true))).unwrap(),
        "./sound"
    );
    assert_eq!(get_sound_directory(None, Some(("./sound", true))).unwrap(), "./sound");
    match get_sound_directory(None, Some(("./sound", false))) {
        Err(JarvisError::AudioError(AudioError::FileNotFound(msg))) => {
            assert_eq!(msg, "Sound directory not found: ./sound")
        }
        _ => panic!("failure expected"),
    }
    match get_sound_directory(Some(("res/sound", false)), None) {
        Err(JarvisError::AudioError(AudioError::InitializationFailed(msg))) => {
            assert_eq!(msg, "Sound directory not initialized")
        }
        _ => panic!("failure expected"),
    }
}
