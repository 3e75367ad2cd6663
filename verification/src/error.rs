//! Error taxonomy of the assistant, one enum per subsystem, and the text each
//! error is reported with.

use vstd::prelude::*;
use vstd::string::*;
use crate::text::from_chars;

verus! {

/// An I/O failure of the operating system, carried through unchanged.
#[verifier::external_type_specification]
#[verifier::external_body]
pub struct ExIoError(std::io::Error);

/// Top-level error of the whole application.
#[derive(Debug)]
pub enum JarvisError {
    ConfigError(ConfigError),
    DatabaseError(DatabaseError),
    RecorderError(RecorderError),
    AudioError(AudioError),
    ListenerError(ListenerError),
    SttError(SttError),
    CommandError(CommandError),
    IoError(std::io::Error),
    SerializationError(String),
    Generic(String),
}

/// Configuration failures.
#[derive(Debug)]
pub enum ConfigError {
    DirectoryCreationFailed(String),
    InvalidConfiguration(String),
    MissingRequiredSetting(String),
    FileNotFound(String),
}

/// Settings-store failures.
#[derive(Debug)]
pub enum DatabaseError {
    InitializationFailed(String),
    ReadError(String),
    WriteError(String),
    CorruptedData(String),
}

/// Capture-device failures.
#[derive(Debug)]
pub enum RecorderError {
    InitializationFailed(String),
    DeviceNotFound(i32),
    PermissionDenied,
    RecordingFailed(String),
    UnsupportedFormat,
    DeviceInUse,
}

/// Playback failures.
#[derive(Debug)]
pub enum AudioError {
    InitializationFailed(String),
    FileNotFound(String),
    UnsupportedFormat(String),
    PlaybackFailed(String),
    VolumeControlError,
}

/// Wake-word detector failures.
#[derive(Debug)]
pub enum ListenerError {
    EngineInitializationFailed(String),
    ApiKeyMissing,
    ApiKeyInvalid,
    ModelLoadingFailed(String),
    ProcessingError(String),
    NetworkError(String),
}

/// Speech-to-text failures.
#[derive(Debug)]
pub enum SttError {
    InitializationFailed(String),
    ModelNotFound(String),
    RecognitionFailed(String),
    UnsupportedLanguage(String),
}

/// Command-table and execution failures.
#[derive(Debug)]
pub enum CommandError {
    ParseError(String),
    ExecutionFailed(String),
    CommandNotFound(String),
    InvalidArguments(String),
    PermissionDenied(String),
    Timeout,
}

pub type JarvisResult<T> = Result<T, JarvisError>;

/// `r` is a failure worded `msg`.
pub open spec fn fails_with<T>(r: Result<T, String>, msg: Seq<char>) -> bool {
    r matches Err(m) && m@ == msg
}

/// `r` is the capture device's initialization failure with the message `msg`.
pub open spec fn recorder_init_failure<T>(r: JarvisResult<T>, msg: Seq<char>) -> bool {
    r matches Err(JarvisError::RecorderError(RecorderError::InitializationFailed(m))) && m@ == msg
}

/// `r` is the capture device's recording failure with the message `msg`.
pub open spec fn recording_failure<T>(r: JarvisResult<T>, msg: Seq<char>) -> bool {
    r matches Err(JarvisError::RecorderError(RecorderError::RecordingFailed(m))) && m@ == msg
}

/// `r` is the playback system's initialization failure with the message `msg`.
pub open spec fn audio_init_failure<T>(r: JarvisResult<T>, msg: Seq<char>) -> bool {
    r matches Err(JarvisError::AudioError(AudioError::InitializationFailed(m))) && m@ == msg
}

/// `r` is the playback system's missing-file failure for the file `name`.
pub open spec fn audio_file_not_found<T>(r: JarvisResult<T>, name: Seq<char>) -> bool {
    r matches Err(JarvisError::AudioError(AudioError::FileNotFound(m))) && m@ == name
}

/// `r` is the playback failure with the message `msg`.
pub open spec fn playback_failure<T>(r: JarvisResult<T>, msg: Seq<char>) -> bool {
    r matches Err(JarvisError::AudioError(AudioError::PlaybackFailed(m))) && m@ == msg
}

/// `r` is the command system's execution failure with the message `msg`.
pub open spec fn execution_failure<T>(r: JarvisResult<T>, msg: Seq<char>) -> bool {
    r matches Err(JarvisError::CommandError(CommandError::ExecutionFailed(m))) && m@ == msg
}

/// `r` is the command system's lookup failure with the message `msg`.
pub open spec fn command_not_found<T>(r: JarvisResult<T>, msg: Seq<char>) -> bool {
    r matches Err(JarvisError::CommandError(CommandError::CommandNotFound(m))) && m@ == msg
}

/// The decimal digit for a value below ten.
pub open spec fn digit_char(d: int) -> char {
    if d == 0 {
        '0'
    } else if d == 1 {
        '1'
    } else if d == 2 {
        '2'
    } else if d == 3 {
        '3'
    } else if d == 4 {
        '4'
    } else if d == 5 {
        '5'
    } else if d == 6 {
        '6'
    } else if d == 7 {
        '7'
    } else if d == 8 {
        '8'
    } else {
        '9'
    }
}

/// The decimal digits of a natural number, most significant first.
pub open spec fn decimal_digits(n: nat) -> Seq<char>
    decreases n,
{
    if n < 10 {
        seq![digit_char(n as int)]
    } else {
        decimal_digits(n / 10).push(digit_char((n % 10) as int))
    }
}

/// The decimal notation of an integer, with a minus sign where it is negative.
pub open spec fn decimal(i: int) -> Seq<char> {
    if i < 0 {
        seq!['-'] + decimal_digits((-i) as nat)
    } else {
        decimal_digits(i as nat)
    }
}

fn digit_to_char(d: u8) -> (c: char)
    requires
        d < 10,
    ensures
        c == digit_char(d as int),
{
    if d == 0 {
        '0'
    } else if d == 1 {
        '1'
    } else if d == 2 {
        '2'
    } else if d == 3 {
        '3'
    } else if d == 4 {
        '4'
    } else if d == 5 {
        '5'
    } else if d == 6 {
        '6'
    } else if d == 7 {
        '7'
    } else if d == 8 {
        '8'
    } else {
        '9'
    }
}

/// The decimal digits of `n`, most significant first.
pub fn digits_of(n: u64) -> (r: Vec<char>)
    ensures
        r@ == decimal_digits(n as nat),
    decreases n,
{
    if n < 10 {
        let mut v: Vec<char> = Vec::new();
        v.push(digit_to_char(n as u8));
        proof {
            assert(v@ =~= seq![digit_char(n as int)]);
        }
        v
    } else {
        let mut v = digits_of(n / 10);
        v.push(digit_to_char((n % 10) as u8));
        v
    }
}

/// The decimal notation of `i`.
pub fn decimal_string(i: i64) -> (r: String)
    ensures
        r@ == decimal(i as int),
{
    let mut chars: Vec<char> = Vec::new();
    let magnitude: u64 = if i < 0 {
        chars.push('-');
        if i == i64::MIN {
            9223372036854775808u64
        } else {
            (-i) as u64
        }
    } else {
        i as u64
    };
    let digits = digits_of(magnitude);
    let ghost sign = chars@;
    let mut k: usize = 0;
    while k < digits.len()
        invariant
            k <= digits.len(),
            chars@ == sign + digits@.take(k as int),
        decreases digits.len() - k,
    {
        chars.push(digits[k]);
        proof {
            assert(digits@.take(k + 1) =~= digits@.take(k as int).push(digits@[k as int]));
            assert(sign + digits@.take(k + 1) =~= (sign + digits@.take(k as int)).push(
                digits@[k as int],
            ));
        }
        k += 1;
    }
    proof {
        assert(digits@.take(digits.len() as int) =~= digits@);
        assert(sign + digits@.take(0) =~= sign);
    }
    from_chars(&chars)
}

/// `prefix` followed by `detail`.
pub fn prefixed(prefix: &str, detail: &str) -> (r: String)
    ensures
        r@ == prefix@ + detail@,
{
    let mut out = String::from_str(prefix);
    out.append(detail);
    out
}

impl ConfigError {
    /// The text this error is reported with.
    pub open spec fn text(self) -> Seq<char> {
        match self {
            ConfigError::DirectoryCreationFailed(path) => "Failed to create directory: "@ + path@,
            ConfigError::InvalidConfiguration(msg) => "Invalid configuration: "@ + msg@,
            ConfigError::MissingRequiredSetting(setting) => "Missing required setting: "@
                + setting@,
            ConfigError::FileNotFound(file) => "Configuration file not found: "@ + file@,
        }
    }

    /// The text this error is reported with.
    pub fn message(&self) -> (r: String)
        ensures
            r@ == self.text(),
    {
        match self {
            ConfigError::DirectoryCreationFailed(path) => prefixed(
                "Failed to create directory: ",
                path.as_str(),
            ),
            ConfigError::InvalidConfiguration(msg) => prefixed(
                "Invalid configuration: ",
                msg.as_str(),
            ),
            ConfigError::MissingRequiredSetting(setting) => prefixed(
                "Missing required setting: ",
                setting.as_str(),
            ),
            ConfigError::FileNotFound(file) => prefixed(
                "Configuration file not found: ",
                file.as_str(),
            ),
        }
    }
}

impl DatabaseError {
    /// The text this error is reported with.
    pub open spec fn text(self) -> Seq<char> {
        match self {
            DatabaseError::InitializationFailed(msg) => "Database initialization failed: "@
                + msg@,
            DatabaseError::ReadError(key) => "Failed to read from database, key: "@ + key@,
            DatabaseError::WriteError(key) => "Failed to write to database, key: "@ + key@,
            DatabaseError::CorruptedData(msg) => "Database contains corrupted data: "@ + msg@,
        }
    }

    /// The text this error is reported with.
    pub fn message(&self) -> (r: String)
        ensures
            r@ == self.text(),
    {
        match self {
            DatabaseError::InitializationFailed(msg) => prefixed(
                "Database initialization failed: ",
                msg.as_str(),
            ),
            DatabaseError::ReadError(key) => prefixed(
                "Failed to read from database, key: ",
                key.as_str(),
            ),
            DatabaseError::WriteError(key) => prefixed(
                "Failed to write to database, key: ",
                key.as_str(),
            ),
            DatabaseError::CorruptedData(msg) => prefixed(
                "Database contains corrupted data: ",
                msg.as_str(),
            ),
        }
    }
}

impl RecorderError {
    /// The text this error is reported with.
    pub open spec fn text(self) -> Seq<char> {
        match self {
            RecorderError::InitializationFailed(msg) => "Recorder initialization failed: "@
                + msg@,
            RecorderError::DeviceNotFound(id) => "Audio device not found, ID: "@ + decimal(
                id as int,
            ),
            RecorderError::PermissionDenied => "Permission denied to access microphone"@,
            RecorderError::RecordingFailed(msg) => "Recording failed: "@ + msg@,
            RecorderError::UnsupportedFormat => "Unsupported audio format"@,
            RecorderError::DeviceInUse => "Audio device is already in use"@,
        }
    }

    /// The text this error is reported with.
    pub fn message(&self) -> (r: String)
        ensures
            r@ == self.text(),
    {
        match self {
            RecorderError::InitializationFailed(msg) => prefixed(
                "Recorder initialization failed: ",
                msg.as_str(),
            ),
            RecorderError::DeviceNotFound(id) => {
                let number = decimal_string(*id as i64);
                prefixed("Audio device not found, ID: ", number.as_str())
            },
            RecorderError::PermissionDenied => String::from_str(
                "Permission denied to access microphone",
            ),
            RecorderError::RecordingFailed(msg) => prefixed("Recording failed: ", msg.as_str()),
            RecorderError::UnsupportedFormat => String::from_str("Unsupported audio format"),
            RecorderError::DeviceInUse => String::from_str("Audio device is already in use"),
        }
    }
}

impl AudioError {
    /// The text this error is reported with.
    pub open spec fn text(self) -> Seq<char> {
        match self {
            AudioError::InitializationFailed(msg) => "Audio system initialization failed: "@
                + msg@,
            AudioError::FileNotFound(file) => "Audio file not found: "@ + file@,
            AudioError::UnsupportedFormat(format) => "Unsupported audio format: "@ + format@,
            AudioError::PlaybackFailed(msg) => "Audio playback failed: "@ + msg@,
            AudioError::VolumeControlError => "Failed to control volume"@,
        }
    }

    /// The text this error is reported with.
    pub fn message(&self) -> (r: String)
        ensures
            r@ == self.text(),
    {
        match self {
            AudioError::InitializationFailed(msg) => prefixed(
                "Audio system initialization failed: ",
                msg.as_str(),
            ),
            AudioError::FileNotFound(file) => prefixed("Audio file not found: ", file.as_str()),
            AudioError::UnsupportedFormat(format) => prefixed(
                "Unsupported audio format: ",
                format.as_str(),
            ),
            AudioError::PlaybackFailed(msg) => prefixed("Audio playback failed: ", msg.as_str()),
            AudioError::VolumeControlError => String::from_str("Failed to control volume"),
        }
    }
}

impl ListenerError {
    /// The text this error is reported with.
    pub open spec fn text(self) -> Seq<char> {
        match self {
            ListenerError::EngineInitializationFailed(engine) =>
                "Wake-word engine initialization failed: "@ + engine@,
            ListenerError::ApiKeyMissing => "API key is missing"@,
            ListenerError::ApiKeyInvalid => "API key is invalid"@,
            ListenerError::ModelLoadingFailed(model) => "Failed to load model: "@ + model@,
            ListenerError::ProcessingError(msg) => "Processing error: "@ + msg@,
            ListenerError::NetworkError(msg) => "Network error: "@ + msg@,
        }
    }

    /// The text this error is reported with.
    pub fn message(&self) -> (r: String)
        ensures
            r@ == self.text(),
    {
        match self {
            ListenerError::EngineInitializationFailed(engine) => prefixed(
                "Wake-word engine initialization failed: ",
                engine.as_str(),
            ),
            ListenerError::ApiKeyMissing => String::from_str("API key is missing"),
            ListenerError::ApiKeyInvalid => String::from_str("API key is invalid"),
            ListenerError::ModelLoadingFailed(model) => prefixed(
                "Failed to load model: ",
                model.as_str(),
            ),
            ListenerError::ProcessingError(msg) => prefixed("Processing error: ", msg.as_str()),
            ListenerError::NetworkError(msg) => prefixed("Network error: ", msg.as_str()),
        }
    }
}

impl SttError {
    /// The text this error is reported with.
    pub open spec fn text(self) -> Seq<char> {
        match self {
            SttError::InitializationFailed(msg) => "STT initialization failed: "@ + msg@,
            SttError::ModelNotFound(model) => "STT model not found: "@ + model@,
            SttError::RecognitionFailed(msg) => "Speech recognition failed: "@ + msg@,
            SttError::UnsupportedLanguage(lang) => "Unsupported language: "@ + lang@,
        }
    }

    /// The text this error is reported with.
    pub fn message(&self) -> (r: String)
        ensures
            r@ == self.text(),
    {
        match self {
            SttError::InitializationFailed(msg) => prefixed(
                "STT initialization failed: ",
                msg.as_str(),
            ),
            SttError::ModelNotFound(model) => prefixed("STT model not found: ", model.as_str()),
            SttError::RecognitionFailed(msg) => prefixed(
                "Speech recognition failed: ",
                msg.as_str(),
            ),
            SttError::UnsupportedLanguage(lang) => prefixed(
                "Unsupported language: ",
                lang.as_str(),
            ),
        }
    }
}

impl CommandError {
    /// The text this error is reported with.
    pub open spec fn text(self) -> Seq<char> {
        match self {
            CommandError::ParseError(msg) => "Command parse error: "@ + msg@,
            CommandError::ExecutionFailed(cmd) => "Command execution failed: "@ + cmd@,
            CommandError::CommandNotFound(cmd) => "Command not found: "@ + cmd@,
            CommandError::InvalidArguments(args) => "Invalid arguments: "@ + args@,
            CommandError::PermissionDenied(cmd) => "Permission denied for command: "@ + cmd@,
            CommandError::Timeout => "Command execution timeout"@,
        }
    }

    /// The text this error is reported with.
    pub fn message(&self) -> (r: String)
        ensures
            r@ == self.text(),
    {
        match self {
            CommandError::ParseError(msg) => prefixed("Command parse error: ", msg.as_str()),
            CommandError::ExecutionFailed(cmd) => prefixed(
                "Command execution failed: ",
                cmd.as_str(),
            ),
            CommandError::CommandNotFound(cmd) => prefixed("Command not found: ", cmd.as_str()),
            CommandError::InvalidArguments(args) => prefixed("Invalid arguments: ", args.as_str()),
            CommandError::PermissionDenied(cmd) => prefixed(
                "Permission denied for command: ",
                cmd.as_str(),
            ),
            CommandError::Timeout => String::from_str("Command execution timeout"),
        }
    }
}

/// The text of an operating-system failure, as the system words it.
#[verifier::external_body]
fn io_error_text(e: &std::io::Error) -> (r: String) {
    format!("{}", e)
}

impl JarvisError {
    /// The text this error is reported with, up to the wording of an
    /// operating-system failure, which is `detail`.
    pub open spec fn text(self, detail: Seq<char>) -> Seq<char> {
        match self {
            JarvisError::ConfigError(e) => "Configuration error: "@ + e.text(),
            JarvisError::DatabaseError(e) => "Database error: "@ + e.text(),
            JarvisError::RecorderError(e) => "Recorder error: "@ + e.text(),
            JarvisError::AudioError(e) => "Audio error: "@ + e.text(),
            JarvisError::ListenerError(e) => "Listener error: "@ + e.text(),
            JarvisError::SttError(e) => "Speech-to-text error: "@ + e.text(),
            JarvisError::CommandError(e) => "Command error: "@ + e.text(),
            JarvisError::IoError(_) => "IO error: "@ + detail,
            JarvisError::SerializationError(e) => "Serialization error: "@ + e@,
            JarvisError::Generic(e) => "Error: "@ + e@,
        }
    }

    /// The text this error is reported with.
    pub fn message(&self) -> (r: String)
        ensures
            exists|detail: Seq<char>| r@ == self.text(detail),
            !(self is IoError) ==> r@ == self.text(Seq::empty()),
    {
        match self {
            JarvisError::ConfigError(e) => {
                let inner = e.message();
                let out = prefixed("Configuration error: ", inner.as_str());
                assert(out@ == self.text(Seq::empty()));
                out
            },
            JarvisError::DatabaseError(e) => {
                let inner = e.message();
                let out = prefixed("Database error: ", inner.as_str());
                assert(out@ == self.text(Seq::empty()));
                out
            },
            JarvisError::RecorderError(e) => {
                let inner = e.message();
                let out = prefixed("Recorder error: ", inner.as_str());
                assert(out@ == self.text(Seq::empty()));
                out
            },
            JarvisError::AudioError(e) => {
                let inner = e.message();
                let out = prefixed("Audio error: ", inner.as_str());
                assert(out@ == self.text(Seq::empty()));
                out
            },
            JarvisError::ListenerError(e) => {
                let inner = e.message();
                let out = prefixed("Listener error: ", inner.as_str());
                assert(out@ == self.text(Seq::empty()));
                out
            },
            JarvisError::SttError(e) => {
                let inner = e.message();
                let out = prefixed("Speech-to-text error: ", inner.as_str());
                assert(out@ == self.text(Seq::empty()));
                out
            },
            JarvisError::CommandError(e) => {
                let inner = e.message();
                let out = prefixed("Command error: ", inner.as_str());
                assert(out@ == self.text(Seq::empty()));
                out
            },
            JarvisError::IoError(e) => {
                let inner = io_error_text(e);
                let out = prefixed("IO error: ", inner.as_str());
                assert(out@ == self.text(inner@));
                out
            },
            JarvisError::SerializationError(e) => {
                let out = prefixed("Serialization error: ", e.as_str());
                assert(out@ == self.text(Seq::empty()));
                out
            },
            JarvisError::Generic(e) => {
                let out = prefixed("Error: ", e.as_str());
                assert(out@ == self.text(Seq::empty()));
                out
            },
        }
    }
}

} // verus!
