//! Speech output: which engine speaks, and the rule that one utterance is
//! spoken at a time. A request that comes while an utterance is being spoken
//! is dropped, not queued.

use vstd::prelude::*;
use vstd::string::*;
use crate::config::string_views;
use crate::error::{
    audio_init_failure,
    playback_failure,
    AudioError,
    JarvisError,
    JarvisResult,
};
use crate::text::{is_blank, to_chars, trimmed};

verus! {

/// Speech engines.
#[derive(Clone, Copy, Debug, PartialEq, Eq, Structural)]
pub enum TtsEngine {
    /// The speech service of the operating system.
    System,
    /// A local neural engine.
    Silero,
    /// The OpenAI speech service.
    OpenAI,
    /// The ElevenLabs speech service.
    ElevenLabs,
}

/// State of speech output.
#[derive(Clone, Copy, Debug)]
pub struct TtsManager {
    pub engine: TtsEngine,
    pub is_speaking: bool,
}

/// Least number of bytes of a usable OpenAI key.
pub const MIN_OPENAI_KEY_LENGTH: usize = 20;

fn tts_init_failed<T>(msg: &str) -> (r: JarvisResult<T>)
    ensures
        audio_init_failure(r, msg@),
{
    Err(JarvisError::AudioError(AudioError::InitializationFailed(String::from_str(msg))))
}

fn tts_playback_failed<T>(msg: &str) -> (r: JarvisResult<T>)
    ensures
        playback_failure(r, msg@),
{
    Err(JarvisError::AudioError(AudioError::PlaybackFailed(String::from_str(msg))))
}

/// Checks the stored OpenAI key: it has to be there, not blank, and long
/// enough.
pub fn test_openai_tts(api_key: Option<&str>) -> (r: JarvisResult<()>)
    ensures
        match api_key {
            None => audio_init_failure(r, "OpenAI API key not found"@),
            Some(key) => if trimmed(key@).len() == 0 {
                audio_init_failure(r, "OpenAI API key not found"@)
            } else if key.len() < MIN_OPENAI_KEY_LENGTH {
                audio_init_failure(r, "OpenAI API key too short"@)
            } else {
                r is Ok
            },
        },
{
    match api_key {
        None => tts_init_failed("OpenAI API key not found"),
        Some(key) => {
            let chars = to_chars(key);
            if is_blank(&chars) {
                tts_init_failed("OpenAI API key not found")
            } else if key.len() < MIN_OPENAI_KEY_LENGTH {
                tts_init_failed("OpenAI API key too short")
            } else {
                Ok(())
            }
        },
    }
}

/// Whether the stored OpenAI key is usable.
pub open spec fn openai_usable(api_key: Option<&str>) -> bool {
    api_key matches Some(key) && trimmed(key@).len() > 0 && key.len() >= MIN_OPENAI_KEY_LENGTH
}

/// Picks the best engine that works: the OpenAI service with a usable key,
/// else the system's speech service where it answered.
pub fn detect_best_engine(openai_key: Option<&str>, system_available: bool) -> (r: JarvisResult<
    TtsEngine,
>)
    ensures
        if openai_usable(openai_key) {
            r == Ok::<TtsEngine, JarvisError>(TtsEngine::OpenAI)
        } else if system_available {
            r == Ok::<TtsEngine, JarvisError>(TtsEngine::System)
        } else {
            audio_init_failure(r, "No working TTS engine found"@)
        },
{
    if test_openai_tts(openai_key).is_ok() {
        return Ok(TtsEngine::OpenAI);
    }
    if system_available {
        return Ok(TtsEngine::System);
    }
    tts_init_failed("No working TTS engine found")
}

/// Decides whether an utterance is spoken, and by which engine. While one is
/// being spoken the request is dropped. An engine that cannot speak fails
/// the request. `slot` is `None` while speech output has not been set up.
pub fn speak(slot: &mut Option<TtsManager>) -> (r: JarvisResult<Option<TtsEngine>>)
    ensures
        match *old(slot) {
            None => *final(slot) is None && audio_init_failure(r, "TTS not initialized"@),
            Some(m) => if m.is_speaking {
                *final(slot) == *old(slot) && r == Ok::<Option<TtsEngine>, JarvisError>(None)
            } else if m.engine == TtsEngine::System || m.engine == TtsEngine::OpenAI {
                *final(slot) == Some(TtsManager { is_speaking: true, ..m }) && r == Ok::<
                    Option<TtsEngine>,
                    JarvisError,
                >(Some(m.engine))
            } else {
                *final(slot) == *old(slot) && playback_failure(r, "TTS engine not implemented"@)
            },
        },
{
    match slot {
        None => tts_init_failed("TTS not initialized"),
        Some(manager) => {
            if manager.is_speaking {
                return Ok(None);
            }
            match manager.engine {
                TtsEngine::System => {
                    manager.is_speaking = true;
                    Ok(Some(TtsEngine::System))
                },
                TtsEngine::OpenAI => {
                    manager.is_speaking = true;
                    Ok(Some(TtsEngine::OpenAI))
                },
                _ => tts_playback_failed("TTS engine not implemented"),
            }
        },
    }
}

/// Takes the end of an utterance, however it went: nothing is being spoken
/// any more.
pub fn spoken(slot: &mut Option<TtsManager>)
    ensures
        match *old(slot) {
            None => *final(slot) is None,
            Some(m) => *final(slot) == Some(TtsManager { is_speaking: false, ..m }),
        },
{
    match slot {
        None => {},
        Some(manager) => {
            manager.is_speaking = false;
        },
    }
}

/// Marks speech output as silent.
pub fn stop(slot: &mut Option<TtsManager>) -> (r: JarvisResult<()>)
    ensures
        match *old(slot) {
            None => *final(slot) is None && audio_init_failure(r, "TTS not initialized"@),
            Some(m) => r is Ok && *final(slot) == Some(TtsManager { is_speaking: false, ..m }),
        },
{
    match slot {
        None => tts_init_failed("TTS not initialized"),
        Some(manager) => {
            manager.is_speaking = false;
            Ok(())
        },
    }
}

/// Whether an utterance is being spoken.
pub fn is_speaking(slot: &Option<TtsManager>) -> (r: bool)
    ensures
        r == (*slot matches Some(m) && m.is_speaking),
{
    match slot {
        Some(manager) => manager.is_speaking,
        None => false,
    }
}

/// The voices of the OpenAI service.
pub open spec fn openai_voices() -> Seq<Seq<char>> {
    seq!["alloy"@, "echo"@, "fable"@, "onyx"@, "nova"@, "shimmer"@]
}

/// The voices that the engine offers. The system's voices are handed in as
/// the operating system listed them; without any, the one voice `default`
/// stands in.
pub fn get_available_voices(slot: &Option<TtsManager>, system_voices: Vec<String>) -> (r:
    JarvisResult<Vec<String>>)
    ensures
        match *slot {
            None => audio_init_failure(r, "TTS not initialized"@),
            Some(m) => r matches Ok(voices) && string_views(voices@) == (match m.engine {
                TtsEngine::System => if system_voices@.len() == 0 {
                    seq!["default"@]
                } else {
                    string_views(system_voices@)
                },
                TtsEngine::OpenAI => openai_voices(),
                _ => seq!["default"@],
            }),
        },
{
    let manager = match slot {
        None => {
            return tts_init_failed("TTS not initialized");
        },
        Some(m) => m,
    };
    let mut v: Vec<String> = Vec::new();
    match manager.engine {
        TtsEngine::System => {
            if system_voices.len() == 0 {
                v.push(String::from_str("default"));
                proof {
                    assert(string_views(v@) =~= seq!["default"@]);
                }
                Ok(v)
            } else {
                Ok(system_voices)
            }
        },
        TtsEngine::OpenAI => {
            v.push(String::from_str("alloy"));
            v.push(String::from_str("echo"));
            v.push(String::from_str("fable"));
            v.push(String::from_str("onyx"));
            v.push(String::from_str("nova"));
            v.push(String::from_str("shimmer"));
            proof {
                assert(string_views(v@) =~= openai_voices());
            }
            Ok(v)
        },
        _ => {
            v.push(String::from_str("default"));
            proof {
                assert(string_views(v@) =~= seq!["default"@]);
            }
            Ok(v)
        },
    }
}

/// Winds speech output down: nothing is being spoken any more.
pub fn shutdown(slot: &mut Option<TtsManager>) -> (r: JarvisResult<()>)
    ensures
        r is Ok,
        match *old(slot) {
            None => *final(slot) is None,
            Some(m) => *final(slot) == Some(TtsManager { is_speaking: false, ..m }),
        },
{
    spoken(slot);
    Ok(())
}

} // verus!
