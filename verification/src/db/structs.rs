//! The parts of the settings that the pipeline reads: access keys, the
//! advanced switches and their enumerations.

use vstd::prelude::*;
use vstd::string::*;
use crate::error::fails_with;

verus! {

/// Access keys of the outside services. An empty key means: not set.
#[derive(Clone, Debug)]
pub struct ApiKeys {
    pub picovoice: String,
    pub openai: String,
    pub openrouter: String,
    pub elevenlabs: String,
}

impl Default for ApiKeys {
    fn default() -> (r: Self)
        ensures
            r.picovoice@.len() == 0,
            r.openai@.len() == 0,
            r.openrouter@.len() == 0,
            r.elevenlabs@.len() == 0,
    {
        ApiKeys {
            picovoice: String::new(),
            openai: String::new(),
            openrouter: String::new(),
            elevenlabs: String::new(),
        }
    }
}

/// The services that can answer questions.
#[derive(Clone, Copy, Debug, PartialEq, Eq, Structural)]
pub enum AiProvider {
    OpenRouter,
    OpenAi,
}

impl AiProvider {
    /// The name of the service.
    pub fn name(&self) -> (r: &'static str)
        ensures
            r@ == match self {
                AiProvider::OpenRouter => "openrouter"@,
                AiProvider::OpenAi => "openai"@,
            },
    {
        match self {
            AiProvider::OpenRouter => "openrouter",
            AiProvider::OpenAi => "openai",
        }
    }
}

impl ApiKeys {
    /// The service whose key is used for questions: OpenRouter where its key
    /// is set, else OpenAI where its key is set.
    pub open spec fn active_provider(self) -> Option<AiProvider> {
        if self.openrouter@.len() > 0 {
            Some(AiProvider::OpenRouter)
        } else if self.openai@.len() > 0 {
            Some(AiProvider::OpenAi)
        } else {
            None
        }
    }

    /// The service to ask and its key.
    pub fn get_active_ai_key(&self) -> (r: Option<(&'static str, &str)>)
        ensures
            match (self.active_provider(), r) {
                (Some(AiProvider::OpenRouter), Some((name, key))) => name@ == "openrouter"@
                    && key@ == self.openrouter@,
                (Some(AiProvider::OpenAi), Some((name, key))) => name@ == "openai"@ && key@
                    == self.openai@,
                (None, None) => true,
                _ => false,
            },
    {
        if !self.openrouter.as_str().is_empty() {
            Some(("openrouter", self.openrouter.as_str()))
        } else if !self.openai.as_str().is_empty() {
            Some(("openai", self.openai.as_str()))
        } else {
            None
        }
    }

    /// Whether a key for answering questions is set.
    pub fn has_required_keys(&self) -> (r: bool)
        ensures
            r == (self.openrouter@.len() > 0 || self.openai@.len() > 0),
    {
        !self.openrouter.as_str().is_empty() || !self.openai.as_str().is_empty()
    }

    /// Takes imported keys, keeping the present key wherever the import has
    /// none. The ElevenLabs key is taken as imported.
    pub fn merge_with_imported(&mut self, imported: ApiKeys)
        ensures
            final(self).openai@ == if imported.openai@.len() == 0 {
                old(self).openai@
            } else {
                imported.openai@
            },
            final(self).openrouter@ == if imported.openrouter@.len() == 0 {
                old(self).openrouter@
            } else {
                imported.openrouter@
            },
            final(self).picovoice@ == if imported.picovoice@.len() == 0 {
                old(self).picovoice@
            } else {
                imported.picovoice@
            },
            final(self).elevenlabs@ == imported.elevenlabs@,
    {
        let ApiKeys { picovoice, openai, openrouter, elevenlabs } = imported;
        if !openai.as_str().is_empty() {
            self.openai = openai;
        }
        if !openrouter.as_str().is_empty() {
            self.openrouter = openrouter;
        }
        if !picovoice.as_str().is_empty() {
            self.picovoice = picovoice;
        }
        self.elevenlabs = elevenlabs;
    }
}

/// Most tokens that an answer may be asked to have.
pub const MAX_TOKENS_LIMIT: u32 = 10000;

/// Checks the number of tokens asked for: at least one, at most
/// `MAX_TOKENS_LIMIT`.
pub fn validate_max_tokens(max_tokens: u32) -> (r: Result<(), String>)
    ensures
        1 <= max_tokens <= MAX_TOKENS_LIMIT ==> r is Ok,
        max_tokens == 0 || max_tokens > MAX_TOKENS_LIMIT ==> fails_with(
            r,
            "AI max_tokens must be between 1 and 10000"@,
        ),
{
    if max_tokens == 0 || max_tokens > MAX_TOKENS_LIMIT {
        return Err(String::from_str("AI max_tokens must be between 1 and 10000"));
    }
    Ok(())
}

/// Speech engines that the settings can name.
#[derive(Clone, Copy, Debug, PartialEq, Eq, Structural)]
pub enum TtsEngine {
    System,
    OpenAI,
    ElevenLabs,
    Local,
}

/// How much is logged.
#[derive(Clone, Copy, Debug, PartialEq, Eq, Structural)]
pub enum LogLevel {
    Error,
    Warn,
    Info,
    Debug,
    Trace,
}

/// Looks of the user interface.
#[derive(Clone, Copy, Debug, PartialEq, Eq, Structural)]
pub enum UiTheme {
    Light,
    Dark,
    Auto,
}

/// What the assistant does when it starts.
#[derive(Clone, Copy, Debug, PartialEq, Eq, Structural)]
pub enum StartupBehavior {
    StartListening,
    OpenSettings,
    Minimized,
    Hidden,
}

/// Switches for features that are still being tried out.
#[derive(Clone, Copy, Debug, PartialEq, Eq, Structural)]
pub struct ExperimentalFeatures {
    pub enable_local_ai: bool,
    pub enable_voice_training: bool,
    pub enable_emotion_detection: bool,
    pub enable_multi_language: bool,
    pub enable_plugin_system: bool,
}

impl Default for ExperimentalFeatures {
    fn default() -> (r: Self)
        ensures
            r == (ExperimentalFeatures {
                enable_local_ai: false,
                enable_voice_training: false,
                enable_emotion_detection: false,
                enable_multi_language: false,
                enable_plugin_system: false,
            }),
    {
        ExperimentalFeatures {
            enable_local_ai: false,
            enable_voice_training: false,
            enable_emotion_detection: false,
            enable_multi_language: false,
            enable_plugin_system: false,
        }
    }
}

/// The advanced settings.
#[derive(Clone, Debug)]
pub struct AdvancedSettings {
    pub enable_document_search: bool,
    pub auto_open_documents: bool,
    pub device_monitoring: bool,
    pub enable_tray_icon: bool,
    pub audio_buffer_size: usize,
    pub processing_threads: usize,
    pub enable_gpu_acceleration: bool,
    pub encrypt_api_keys: bool,
    pub enable_logging: bool,
    pub log_level: LogLevel,
    pub theme: UiTheme,
    pub language: String,
    pub startup_behavior: StartupBehavior,
    pub experimental_features: ExperimentalFeatures,
}

impl Default for AdvancedSettings {
    fn default() -> (r: Self)
        ensures
            r.enable_document_search,
            r.auto_open_documents,
            r.device_monitoring,
            r.enable_tray_icon,
            r.audio_buffer_size == 512,
            r.processing_threads == 2,
            !r.enable_gpu_acceleration,
            r.encrypt_api_keys,
            r.enable_logging,
            r.log_level == LogLevel::Info,
            r.theme == UiTheme::Dark,
            r.language@ == "ru"@,
            r.startup_behavior == StartupBehavior::StartListening,
            r.experimental_features == (ExperimentalFeatures {
                enable_local_ai: false,
                enable_voice_training: false,
                enable_emotion_detection: false,
                enable_multi_language: false,
                enable_plugin_system: false,
            }),
    {
        AdvancedSettings {
            enable_document_search: true,
            auto_open_documents: true,
            device_monitoring: true,
            enable_tray_icon: true,
            audio_buffer_size: 512,
            processing_threads: 2,
            enable_gpu_acceleration: false,
            encrypt_api_keys: true,
            enable_logging: true,
            log_level: LogLevel::Info,
            theme: UiTheme::Dark,
            language: String::from_str("ru"),
            startup_behavior: StartupBehavior::StartListening,
            experimental_features: ExperimentalFeatures::default(),
        }
    }
}

} // verus!
