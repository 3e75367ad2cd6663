use jarvis::app::{is_running, stop};
use jarvis::audio::recorder::{Recorder, RecorderCall};
use jarvis::config::{get_config_file_path, get_log_file_path, validate_configuration, RecorderType};
use jarvis::error::{ConfigError, JarvisError};
use jarvis::{is_initialization_complete, request_shutdown, should_shutdown, Lifecycle};

#[test]
fn test_shutdown_flag() {
    let mut flags = Lifecycle::new();
    assert!(!should_shutdown(&flags));

    request_shutdown(&mut flags);
    assert!(should_shutdown(&flags));
}

#[test]
fn test_initialization_flag() {
    let mut flags = Lifecycle::new();
    assert!(!is_initialization_complete(&flags));

    flags.initialization_complete = true;
    assert!(is_initialization_complete(&flags));
}

#[test]
fn stopping_the_run_asks_for_shutdown_and_for_the_device_to_stop() {
    let mut flags = Lifecycle::new();
    let rec = Recorder {
        recorder_type: Some(RecorderType::PvRecorder),
        frame_length: Some(512),
        initialized: true,
        recording: true,
    };
    assert!(is_running(&flags, &rec));
    assert_eq!(stop(&mut flags, &rec).unwrap(), RecorderCall::Stop);
    assert!(should_shutdown(&flags));
    assert!(!is_running(&flags, &rec));

    let idle = Recorder::new();
    let mut fresh = Lifecycle::new();
    assert_eq!(stop(&mut fresh, &idle).unwrap(), RecorderCall::Nothing);
    assert!(!is_running(&fresh, &idle));
}

#[test]
fn configuration_needs_its_directories() {
    assert!(validate_configuration(Some("/cfg"), true, Some("/log")).is_ok());
    match validate_configuration(None, true, Some("/log")) {
        Err(JarvisError::ConfigError(ConfigError::MissingRequiredSetting(m))) => {
            assert_eq!(m, "CONFIG_DIR not initialized")
        }
        _ => panic!("failure expected"),
    }
    match validate_configuration(Some("/cfg"), true, None) {
        Err(JarvisError::ConfigError(ConfigError::MissingRequiredSetting(m))) => {
            assert_eq!(m, "LOG_DIR not initialized")
        }
        _ => panic!("failure expected"),
    }
    match validate_configuration(Some("/cfg"), false, Some("/log")) {
        Err(JarvisError::ConfigError(ConfigError::DirectoryCreationFailed(m))) => {
            assert_eq!(m, "Config directory does not exist: /cfg")
        }
        _ => panic!("failure expected"),
    }
    assert_eq!(get_config_file_path(Some("/cfg")).unwrap(), ("/cfg".to_string(), "app.db"));
    assert_eq!(get_log_file_path(Some("/log")).unwrap(), ("/log".to_string(), "log.txt"));
    assert!(get_config_file_path(None).is_err());
    assert!(get_log_file_path(None).is_err());
}
