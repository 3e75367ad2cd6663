//! The cloud-activated keyword model: set up with an access key and a
//! keyword file, and asked once per frame.

use vstd::prelude::*;
use vstd::string::*;
use crate::config::{WakeWordEngine, SCORE_SCALE};
use crate::error::{fails_with, prefixed};
use crate::listener::{set_up, DetectionEvent, Detector};
use crate::text::{from_chars, to_chars, trim, trimmed};

verus! {

/// Why the keyword model could not be set up.
#[derive(Debug)]
pub enum PorcupineFailure {
    /// The access key was refused.
    InvalidApiKey,
    /// The activation service could not be reached.
    NetworkError,
    /// Anything else, in the model's own words.
    Other(String),
}

/// Checks the stored access key and hands back the key to use: the stored
/// one without surrounding blanks. `api_key` is `None` where no key is
/// stored.
pub fn api_key_to_use(api_key: Option<&str>) -> (r: Result<String, String>)
    ensures
        match api_key {
            None => fails_with(r, "Picovoice API key not set in settings"@),
            Some(key) => if trimmed(key@).len() == 0 {
                fails_with(r, "Picovoice API key is empty. Please set it in settings."@)
            } else {
                r matches Ok(k) && k@ == trimmed(key@)
            },
        },
{
    match api_key {
        None => Err(String::from_str("Picovoice API key not set in settings")),
        Some(key) => {
            let chars = to_chars(key);
            let kept = trim(&chars);
            if kept.len() == 0 {
                Err(String::from_str("Picovoice API key is empty. Please set it in settings."))
            } else {
                Ok(from_chars(&kept))
            }
        },
    }
}

/// Checks that the keyword file is there.
pub fn keyword_file(path: &str, exists: bool) -> (r: Result<(), String>)
    ensures
        exists ==> r is Ok,
        !exists ==> fails_with(r, "Picovoice keyword file not found: "@ + path@),
{
    if !exists {
        return Err(prefixed("Picovoice keyword file not found: ", path));
    }
    Ok(())
}

/// Takes the outcome of setting the keyword model up; a failure is worded
/// for the user. Where a detector is set up already, nothing changes and the
/// call succeeds.
pub fn init(detector: &mut Detector, outcome: Result<(), PorcupineFailure>) -> (r: Result<
    (),
    String,
>)
    ensures
        *final(detector) == set_up(*old(detector), WakeWordEngine::Porcupine, outcome is Ok),
        old(detector).active is Some ==> r is Ok,
        old(detector).active is None ==> (match outcome {
            Ok(_) => r is Ok,
            Err(PorcupineFailure::InvalidApiKey) => fails_with(
                r,
                "Invalid Picovoice API key. Please check your settings."@,
            ),
            Err(PorcupineFailure::NetworkError) => fails_with(
                r,
                "Network error. Please check your internet connection."@,
            ),
            Err(PorcupineFailure::Other(e)) => fails_with(r, "Porcupine error: "@ + e@),
        }),
{
    if detector.active.is_some() {
        return Ok(());
    }
    match outcome {
        Ok(_) => {
            detector.active = Some(WakeWordEngine::Porcupine);
            Ok(())
        },
        Err(PorcupineFailure::InvalidApiKey) => Err(
            String::from_str("Invalid Picovoice API key. Please check your settings."),
        ),
        Err(PorcupineFailure::NetworkError) => Err(
            String::from_str("Network error. Please check your internet connection."),
        ),
        Err(PorcupineFailure::Other(e)) => Err(prefixed("Porcupine error: ", e.as_str())),
    }
}

/// Turns what the keyword model reported for a frame into a detection: the
/// index of the keyword it heard, where that is not negative. A frame that
/// the model failed on counts as a frame without a keyword.
pub fn data_callback(outcome: &Result<i32, String>) -> (r: Option<DetectionEvent>)
    ensures
        r == match *outcome {
            Ok(index) => if index >= 0 {
                Some(DetectionEvent { keyword_index: index, score: SCORE_SCALE })
            } else {
                None
            },
            Err(_) => None,
        },
{
    match outcome {
        Ok(index) => {
            if *index >= 0 {
                Some(DetectionEvent { keyword_index: *index, score: SCORE_SCALE })
            } else {
                None
            }
        },
        Err(_) => None,
    }
}

} // verus!
