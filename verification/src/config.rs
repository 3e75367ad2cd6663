//! Fixed settings of the assistant: engine choices, thresholds, timing and
//! the phrases that are filtered out of recognized speech.

use vstd::prelude::*;
use vstd::string::*;
use crate::error::{prefixed, ConfigError, JarvisError, JarvisResult};

verus! {

/// Wake-word detector back-ends.
#[derive(Clone, Copy, Debug, PartialEq, Eq, Structural)]
pub enum WakeWordEngine {
    /// Local acoustic model.
    Rustpotter,
    /// Keyword match on streaming speech recognition.
    Vosk,
    /// Cloud-activated keyword model.
    Porcupine,
}

/// Speech-to-text back-ends.
#[derive(Clone, Copy, Debug, PartialEq, Eq, Structural)]
pub enum SpeechToTextEngine {
    Vosk,
}

/// Capture back-ends.
#[derive(Clone, Copy, Debug, PartialEq, Eq, Structural)]
pub enum RecorderType {
    Cpal,
    PvRecorder,
    PortAudio,
}

/// Playback back-ends.
#[derive(Clone, Copy, Debug, PartialEq, Eq, Structural)]
pub enum AudioType {
    Rodio,
    Kira,
}

pub const DEFAULT_AUDIO_TYPE: AudioType = AudioType::Kira;

pub const DEFAULT_RECORDER_TYPE: RecorderType = RecorderType::PvRecorder;

pub const DEFAULT_WAKE_WORD_ENGINE: WakeWordEngine = WakeWordEngine::Rustpotter;

pub const DEFAULT_SPEECH_TO_TEXT_ENGINE: SpeechToTextEngine = SpeechToTextEngine::Vosk;

pub const DEFAULT_VOICE: &'static str = "jarvis-og";

pub const BUNDLE_IDENTIFIER: &'static str = "com.priler.jarvis";

pub const DB_FILE_NAME: &'static str = "app.db";

pub const LOG_FILE_NAME: &'static str = "log.txt";

pub const TRAY_ICON: &'static str = "32x32.png";

pub const TRAY_TOOLTIP: &'static str = "Jarvis Voice Assistant";

/// Number of samples in one audio frame, the same for every detector.
pub const FRAME_LENGTH: u32 = 512;

/// Scale of detection scores: a score of one is this many units.
pub const SCORE_SCALE: u32 = 1000;

/// Least score, in units of `SCORE_SCALE`, at which the acoustic model's
/// detection counts.
pub const RUSPOTTER_MIN_SCORE: u32 = 620;

/// Sensitivity handed to the cloud keyword model, in units of `SCORE_SCALE`.
pub const DEFAULT_SENSITIVITY: u32 = 1000;

pub const DEFAULT_KEYWORD: &'static str = "jarvis_windows.ppn";

/// The wake word as the streaming recognizer spells it.
pub const VOSK_FETCH_PHRASE: &'static str = "джарвис";

/// Least percentage of recognized words that must hold the wake word.
pub const VOSK_MIN_RATIO: u32 = 70;

/// Least match percentage for a command without a threshold of its own.
pub const CMD_RATIO_THRESHOLD: u32 = 65;

/// How long a listening session waits for a command, in milliseconds.
pub const CMS_WAIT_DELAY: u64 = 15000;

/// How long a stop request waits for the worker before the device is
/// stopped by force, in milliseconds.
pub const STOP_ESCALATION_DELAY: u64 = 5000;

/// The greeting sounds, in order.
pub open spec fn greet_phrases() -> Seq<Seq<char>> {
    seq!["greet1"@, "greet2"@, "greet3"@]
}

/// The phrases that are cut out of recognized speech, in the order in which
/// they are tried.
pub open spec fn phrases_to_remove() -> Seq<Seq<char>> {
    seq![
        "джарвис"@,
        "сэр"@,
        "слушаю сэр"@,
        "всегда к услугам"@,
        "произнеси"@,
        "ответь"@,
        "покажи"@,
        "скажи"@,
        "давай"@,
        "да сэр"@,
        "к вашим услугам сэр"@,
        "всегда к вашим услугам сэр"@,
        "запрос выполнен сэр"@,
        "выполнен сэр"@,
        "есть"@,
        "загружаю сэр"@,
        "очень тонкое замечание сэр"@,
    ]
}

/// The contents of each string.
pub open spec fn string_views(v: Seq<String>) -> Seq<Seq<char>> {
    Seq::new(v.len(), |i: int| v[i]@)
}

/// The greeting sounds.
pub fn assistant_greet_phrases() -> (r: Vec<String>)
    ensures
        string_views(r@) == greet_phrases(),
{
    let mut v: Vec<String> = Vec::new();
    v.push(String::from_str("greet1"));
    v.push(String::from_str("greet2"));
    v.push(String::from_str("greet3"));
    proof {
        assert(string_views(v@) =~= greet_phrases());
    }
    v
}

/// The phrases that are cut out of recognized speech.
pub fn assistant_phrases_tbr() -> (r: Vec<String>)
    ensures
        string_views(r@) == phrases_to_remove(),
{
    let mut v: Vec<String> = Vec::new();
    v.push(String::from_str("джарвис"));
    v.push(String::from_str("сэр"));
    v.push(String::from_str("слушаю сэр"));
    v.push(String::from_str("всегда к услугам"));
    v.push(String::from_str("произнеси"));
    v.push(String::from_str("ответь"));
    v.push(String::from_str("покажи"));
    v.push(String::from_str("скажи"));
    v.push(String::from_str("давай"));
    v.push(String::from_str("да сэр"));
    v.push(String::from_str("к вашим услугам сэр"));
    v.push(String::from_str("всегда к вашим услугам сэр"));
    v.push(String::from_str("запрос выполнен сэр"));
    v.push(String::from_str("выполнен сэр"));
    v.push(String::from_str("есть"));
    v.push(String::from_str("загружаю сэр"));
    v.push(String::from_str("очень тонкое замечание сэр"));
    proof {
        assert(string_views(v@) =~= phrases_to_remove());
    }
    v
}

/// `r` is the failure of a setting that is missing, named `what`.
pub open spec fn missing_setting<T>(r: JarvisResult<T>, what: Seq<char>) -> bool {
    r matches Err(JarvisError::ConfigError(ConfigError::MissingRequiredSetting(m))) && m@ == what
}

/// `r` is the failure of a directory, worded `msg`.
pub open spec fn directory_failure<T>(r: JarvisResult<T>, msg: Seq<char>) -> bool {
    r matches Err(JarvisError::ConfigError(ConfigError::DirectoryCreationFailed(m))) && m@ == msg
}

fn missing<T>(what: &str) -> (r: JarvisResult<T>)
    ensures
        missing_setting(r, what@),
{
    Err(JarvisError::ConfigError(ConfigError::MissingRequiredSetting(String::from_str(what))))
}

/// Checks that the directories are known and that the configuration
/// directory is there. Each directory is `None` until it has been
/// determined; `config_dir_exists` says whether the first one exists.
pub fn validate_configuration(
    config_dir: Option<&str>,
    config_dir_exists: bool,
    log_dir: Option<&str>,
) -> (r: JarvisResult<()>)
    ensures
        match (config_dir, log_dir) {
            (None, _) => missing_setting(r, "CONFIG_DIR not initialized"@),
            (Some(_), None) => missing_setting(r, "LOG_DIR not initialized"@),
            (Some(dir), Some(_)) => if config_dir_exists {
                r is Ok
            } else {
                directory_failure(r, "Config directory does not exist: "@ + dir@)
            },
        },
{
    let dir = match config_dir {
        Some(dir) => dir,
        None => {
            return missing("CONFIG_DIR not initialized");
        },
    };
    if log_dir.is_none() {
        return missing("LOG_DIR not initialized");
    }
    if !config_dir_exists {
        return Err(
            JarvisError::ConfigError(
                ConfigError::DirectoryCreationFailed(
                    prefixed("Config directory does not exist: ", dir),
                ),
            ),
        );
    }
    Ok(())
}

/// The directory and the name of the settings file.
pub fn get_config_file_path(config_dir: Option<&str>) -> (r: JarvisResult<(String, &'static str)>)
    ensures
        match config_dir {
            None => missing_setting(r, "CONFIG_DIR not initialized"@),
            Some(dir) => match r {
                Ok((d, name)) => d@ == dir@ && name@ == DB_FILE_NAME@,
                Err(_) => false,
            },
        },
{
    match config_dir {
        None => missing("CONFIG_DIR not initialized"),
        Some(dir) => Ok((String::from_str(dir), DB_FILE_NAME)),
    }
}

/// The directory and the name of the log file.
pub fn get_log_file_path(log_dir: Option<&str>) -> (r: JarvisResult<(String, &'static str)>)
    ensures
        match log_dir {
            None => missing_setting(r, "LOG_DIR not initialized"@),
            Some(dir) => match r {
                Ok((d, name)) => d@ == dir@ && name@ == LOG_FILE_NAME@,
                Err(_) => false,
            },
        },
{
    match log_dir {
        None => missing("LOG_DIR not initialized"),
        Some(dir) => Ok((String::from_str(dir), LOG_FILE_NAME)),
    }
}

} // verus!
