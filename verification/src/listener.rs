//! Wake-word detection: the detector back-ends behind one interface, and the
//! listening flags through which other threads start and stop the worker.
//!
//! A back-end is run by the caller on each frame. What it reports is handed
//! to `data_callback`, which decides whether the wake word was heard. A
//! frame that a back-end fails on is a frame without a wake word.

pub mod porcupine;
pub mod rustpotter;
pub mod vosk;

use vstd::prelude::*;
use vstd::string::*;
use crate::config::{
    WakeWordEngine,
    DEFAULT_WAKE_WORD_ENGINE,
    FRAME_LENGTH,
    RUSPOTTER_MIN_SCORE,
    SCORE_SCALE,
    STOP_ESCALATION_DELAY,
    VOSK_MIN_RATIO,
};
use crate::commands::{fetch_command, is_first_match, no_match, AssistantCommand, CommandMatch};
use crate::config::{assistant_phrases_tbr, phrases_to_remove};
use crate::error::{fails_with, prefixed, JarvisError};
use crate::events::{is_one_of, pick_greeting, EventTypes};
use crate::normalizer::{normalize, normalized};
use crate::text::{
    from_chars,
    lowercase,
    same_text,
    to_chars,
    to_lowercase,
    trim,
    trimmed,
    words,
};

verus! {

/// A heard wake word.
#[derive(Clone, Copy, Debug, PartialEq, Eq, Structural)]
pub struct DetectionEvent {
    /// Which keyword was heard.
    pub keyword_index: i32,
    /// How sure the back-end is, in units of `SCORE_SCALE`.
    pub score: u32,
}

/// What a back-end reported for one frame.
#[derive(Debug)]
pub enum BackendOutput {
    /// The acoustic model's score, where it heard something.
    Rustpotter(Option<u32>),
    /// The text that streaming recognition has so far, where it has any.
    Vosk(Option<String>),
    /// The keyword model's keyword index, negative for none, or its failure.
    Porcupine(Result<i32, String>),
}

/// The detector of the process: the back-end that has been set up, if any.
/// A back-end is set up once and stays for the life of the process.
#[derive(Clone, Copy, Debug)]
pub struct Detector {
    pub active: Option<WakeWordEngine>,
}

/// What has to be done to have a detector.
#[derive(Clone, Copy, Debug, PartialEq, Eq, Structural)]
pub enum DetectorCall {
    /// A detector is set up already: nothing has to be done.
    Nothing,
    /// Set this back-end up and report how it went to the back-end's `init`.
    SetUp(WakeWordEngine),
}

impl Detector {
    /// No back-end has been set up.
    pub fn new() -> (r: Detector)
        ensures
            r.active is None,
    {
        Detector { active: None }
    }
}

/// What `init` asks for.
pub open spec fn detector_call(detector: Detector, engine: WakeWordEngine) -> DetectorCall {
    if detector.active is Some {
        DetectorCall::Nothing
    } else {
        DetectorCall::SetUp(engine)
    }
}

/// The detector after an attempt to set `engine` up: a detector that is set
/// up stays as it is, and so does one whose set-up failed.
pub open spec fn set_up(detector: Detector, engine: WakeWordEngine, succeeded: bool) -> Detector {
    if detector.active is Some || !succeeded {
        detector
    } else {
        Detector { active: Some(engine) }
    }
}

/// Decides whether a back-end has to be set up. Once one is set up, nothing
/// is built or loaded again, whichever back-end is asked for.
pub fn init(detector: &Detector, engine: WakeWordEngine) -> (r: Result<DetectorCall, String>)
    ensures
        r == Ok::<DetectorCall, String>(detector_call(*detector, engine)),
{
    if detector.active.is_some() {
        Ok(DetectorCall::Nothing)
    } else {
        Ok(DetectorCall::SetUp(engine))
    }
}

/// Whether a detector is set up.
pub fn is_initialized(detector: &Detector) -> (r: bool)
    ensures
        r == detector.active is Some,
{
    detector.active.is_some()
}

/// A detector is set up once: after a set-up that succeeded, a further
/// initialization asks for nothing, and whatever is reported to it leaves
/// the detector as it is.
pub proof fn lemma_detector_is_set_up_once(
    detector: Detector,
    engine: WakeWordEngine,
    again: WakeWordEngine,
    succeeded: bool,
)
    ensures
        set_up(detector, engine, true).active is Some,
        detector_call(set_up(detector, engine, true), again) == DetectorCall::Nothing,
        set_up(set_up(detector, engine, true), again, succeeded) == set_up(
            detector,
            engine,
            true,
        ),
{
}

/// The least score with which a back-end reports a detection.
pub open spec fn min_score(engine: WakeWordEngine) -> nat {
    match engine {
        WakeWordEngine::Rustpotter => RUSPOTTER_MIN_SCORE as nat,
        WakeWordEngine::Vosk => (VOSK_MIN_RATIO * 10) as nat,
        WakeWordEngine::Porcupine => SCORE_SCALE as nat,
    }
}

/// The back-end that produced an output.
pub open spec fn engine_of(output: BackendOutput) -> WakeWordEngine {
    match output {
        BackendOutput::Rustpotter(_) => WakeWordEngine::Rustpotter,
        BackendOutput::Vosk(_) => WakeWordEngine::Vosk,
        BackendOutput::Porcupine(_) => WakeWordEngine::Porcupine,
    }
}

/// A detection names a keyword and reaches its back-end's least score.
pub open spec fn well_formed(event: DetectionEvent, engine: WakeWordEngine) -> bool {
    event.keyword_index >= 0 && event.score >= min_score(engine)
}

/// Whether a frame has the one length that every back-end takes.
pub fn frame_fits(frame: &Vec<i16>) -> (r: bool)
    ensures
        r == (frame@.len() == FRAME_LENGTH),
{
    frame.len() == FRAME_LENGTH as usize
}

/// The back-end with this name; the default one for any other name.
pub open spec fn engine_named(name: Seq<char>) -> WakeWordEngine {
    if name == "rustpotter"@ {
        WakeWordEngine::Rustpotter
    } else if name == "vosk"@ {
        WakeWordEngine::Vosk
    } else if name == "picovoice"@ {
        WakeWordEngine::Porcupine
    } else {
        DEFAULT_WAKE_WORD_ENGINE
    }
}

/// The back-end with this name, which is taken as it stands.
pub fn engine_from_name(name: &str) -> (r: WakeWordEngine)
    ensures
        r == engine_named(name@),
{
    if same_text(name, "rustpotter") {
        WakeWordEngine::Rustpotter
    } else if same_text(name, "vosk") {
        WakeWordEngine::Vosk
    } else if same_text(name, "picovoice") {
        WakeWordEngine::Porcupine
    } else {
        DEFAULT_WAKE_WORD_ENGINE
    }
}

/// The back-end that the settings select: the stored name is trimmed and
/// lowercased first; without a stored name the default back-end is used.
pub fn get_wake_word_engine(setting: Option<&str>) -> (r: Result<WakeWordEngine, String>)
    ensures
        r == Ok::<WakeWordEngine, String>(
            match setting {
                Some(name) => engine_named(lowercase(trimmed(name@))),
                None => DEFAULT_WAKE_WORD_ENGINE,
            },
        ),
{
    match setting {
        Some(name) => {
            let chars = to_chars(name);
            let kept = from_chars(&trim(&chars));
            let lowered = to_lowercase(kept.as_str());
            Ok(engine_from_name(lowered.as_str()))
        },
        None => Ok(DEFAULT_WAKE_WORD_ENGINE),
    }
}

/// Decides for one frame whether the wake word was heard, from what the
/// back-end reported. A detection is always well formed.
pub fn data_callback(frame: &Vec<i16>, output: &BackendOutput) -> (r: Option<DetectionEvent>)
    ensures
        frame@.len() != FRAME_LENGTH ==> r is None,
        frame@.len() == FRAME_LENGTH ==> r == (match *output {
            BackendOutput::Rustpotter(score) => rustpotter_detection(score),
            BackendOutput::Vosk(text) => vosk_detection(text),
            BackendOutput::Porcupine(outcome) => porcupine_detection(outcome),
        }),
        r matches Some(event) ==> well_formed(event, engine_of(*output)),
{
    if !frame_fits(frame) {
        return None;
    }
    match output {
        BackendOutput::Rustpotter(score) => rustpotter::data_callback(*score),
        BackendOutput::Vosk(text) => match text {
            Some(t) => vosk::data_callback(Some(t.as_str())),
            None => vosk::data_callback(None),
        },
        BackendOutput::Porcupine(outcome) => porcupine::data_callback(outcome),
    }
}

/// What the acoustic model's report amounts to.
pub open spec fn rustpotter_detection(score: Option<u32>) -> Option<DetectionEvent> {
    match score {
        Some(s) => if s >= RUSPOTTER_MIN_SCORE {
            Some(DetectionEvent { keyword_index: 0, score: s })
        } else {
            None
        },
        None => None,
    }
}

/// What the streaming recognizer's report amounts to.
pub open spec fn vosk_detection(text: Option<String>) -> Option<DetectionEvent> {
    match text {
        Some(t) => if vosk::phrase_ratio(t@, crate::config::VOSK_FETCH_PHRASE@)
            >= VOSK_MIN_RATIO {
            Some(
                DetectionEvent {
                    keyword_index: 0,
                    score: (vosk::phrase_ratio(t@, crate::config::VOSK_FETCH_PHRASE@) * 10) as u32,
                },
            )
        } else {
            None
        },
        None => None,
    }
}

/// What the keyword model's report amounts to.
pub open spec fn porcupine_detection(outcome: Result<i32, String>) -> Option<DetectionEvent> {
    match outcome {
        Ok(index) => if index >= 0 {
            Some(DetectionEvent { keyword_index: index, score: SCORE_SCALE })
        } else {
            None
        },
        Err(_) => None,
    }
}

/// The flags through which the worker and the other threads talk: whether
/// the worker is listening, and whether it has been asked to stop. The
/// worker looks at `stop_requested` once per frame.
#[derive(Clone, Copy, Debug, PartialEq, Eq, Structural)]
pub struct ListenerFlags {
    pub listening: bool,
    pub stop_requested: bool,
}

/// What a thread that asked for a stop has to do next.
#[derive(Clone, Copy, Debug, PartialEq, Eq, Structural)]
pub enum StopStep {
    /// The worker has stopped.
    Done,
    /// Look again shortly.
    Wait,
    /// The worker has not answered in time: stop the device by force.
    Force,
}

impl ListenerFlags {
    /// Nobody listens and nobody has asked for a stop.
    pub fn new() -> (r: ListenerFlags)
        ensures
            r == (ListenerFlags { listening: false, stop_requested: false }),
    {
        ListenerFlags { listening: false, stop_requested: false }
    }
}

/// Whether the worker is listening.
pub fn is_listening(flags: &ListenerFlags) -> (r: bool)
    ensures
        r == flags.listening,
{
    flags.listening
}

/// Decides whether a worker has to be started, and with which back-end.
/// While a worker listens, a start asks for nothing and succeeds: there is
/// never a second worker.
pub fn start_listening(flags: &ListenerFlags, setting: Option<&str>) -> (r: Result<
    Option<WakeWordEngine>,
    String,
>)
    ensures
        flags.listening ==> r == Ok::<Option<WakeWordEngine>, String>(None),
        !flags.listening ==> r == Ok::<Option<WakeWordEngine>, String>(
            Some(
                match setting {
                    Some(name) => engine_named(lowercase(trimmed(name@))),
                    None => DEFAULT_WAKE_WORD_ENGINE,
                },
            ),
        ),
{
    if is_listening(flags) {
        return Ok(None);
    }
    match get_wake_word_engine(setting) {
        Ok(engine) => Ok(Some(engine)),
        Err(e) => Err(e),
    }
}

/// Takes the outcome of opening and starting the capture device at the
/// beginning of a listening run: once both went well the worker listens.
pub fn start_recording(
    flags: &mut ListenerFlags,
    opened: &Result<(), JarvisError>,
    started: &Result<(), JarvisError>,
) -> (r: Result<(), String>)
    ensures
        match (*opened, *started) {
            (Err(e), _) => *final(flags) == *old(flags) && exists|detail: Seq<char>|
                fails_with(r, "Recorder init failed: "@ + e.text(detail)),
            (Ok(_), Err(e)) => *final(flags) == *old(flags) && exists|detail: Seq<char>|
                fails_with(r, "Failed to start recording: "@ + e.text(detail)),
            (Ok(_), Ok(_)) => r is Ok && *final(flags) == (ListenerFlags {
                listening: true,
                ..*old(flags)
            }),
        },
{
    match opened {
        Err(e) => {
            let text = e.message();
            return Err(prefixed("Recorder init failed: ", text.as_str()));
        },
        Ok(_) => {},
    }
    match started {
        Err(e) => {
            let text = e.message();
            return Err(prefixed("Failed to start recording: ", text.as_str()));
        },
        Ok(_) => {},
    }
    flags.listening = true;
    Ok(())
}

/// Whether the worker goes on to the next frame: it does until a stop has
/// been asked for.
pub fn recording_loop(flags: &ListenerFlags) -> (r: bool)
    ensures
        r == !flags.stop_requested,
{
    !flags.stop_requested
}

/// The flags once the device has been stopped.
pub open spec fn stopped(flags: ListenerFlags) -> ListenerFlags {
    ListenerFlags { listening: false, stop_requested: false }
}

/// Takes the outcome of stopping the capture device: once it has stopped,
/// nobody listens and the stop request is used up. A failed stop leaves the
/// flags as they are.
pub fn stop_recording(flags: &mut ListenerFlags, device_stopped: &Result<(), JarvisError>) -> (r:
    Result<(), String>)
    ensures
        match *device_stopped {
            Ok(_) => r is Ok && *final(flags) == stopped(*old(flags)),
            Err(e) => *final(flags) == *old(flags) && exists|detail: Seq<char>|
                fails_with(r, "Failed to stop recording: "@ + e.text(detail)),
        },
{
    match device_stopped {
        Err(e) => {
            let text = e.message();
            Err(prefixed("Failed to stop recording: ", text.as_str()))
        },
        Ok(_) => {
            flags.listening = false;
            flags.stop_requested = false;
            Ok(())
        },
    }
}

/// Stops the device on behalf of a thread that has waited long enough.
pub fn force_stop_recording(
    flags: &mut ListenerFlags,
    device_stopped: &Result<(), JarvisError>,
) -> (r: Result<(), String>)
    ensures
        match *device_stopped {
            Ok(_) => r is Ok && *final(flags) == stopped(*old(flags)),
            Err(e) => *final(flags) == *old(flags) && exists|detail: Seq<char>|
                fails_with(
                    r,
                    "Failed to stop recording: "@ + ("Failed to stop recording: "@ + e.text(
                        detail,
                    )),
                ),
        },
{
    match stop_recording(flags, device_stopped) {
        Ok(_) => Ok(()),
        Err(e) => Err(prefixed("Failed to stop recording: ", e.as_str())),
    }
}

/// The flags after a stop has been asked for.
pub open spec fn stop_asked(flags: ListenerFlags) -> ListenerFlags {
    if flags.listening {
        ListenerFlags { stop_requested: true, ..flags }
    } else {
        flags
    }
}

/// What a thread that asked for a stop `waited` milliseconds ago has to do.
pub open spec fn stop_step(flags: ListenerFlags, waited: u64) -> StopStep {
    if !flags.listening {
        StopStep::Done
    } else if waited < STOP_ESCALATION_DELAY {
        StopStep::Wait
    } else {
        StopStep::Force
    }
}

/// Asks the worker to stop. The result says whether there is a worker to
/// wait for.
pub fn stop_listening(flags: &mut ListenerFlags) -> (r: bool)
    ensures
        *final(flags) == stop_asked(*old(flags)),
        r == old(flags).listening,
{
    if is_listening(flags) {
        flags.stop_requested = true;
        return true;
    }
    false
}

/// Decides what a thread that asked for a stop has to do after `waited`
/// milliseconds.
pub fn stop_poll(flags: &ListenerFlags, waited: u64) -> (r: StopStep)
    ensures
        r == stop_step(*flags, waited),
{
    if !is_listening(flags) {
        StopStep::Done
    } else if waited < STOP_ESCALATION_DELAY {
        StopStep::Wait
    } else {
        StopStep::Force
    }
}

/// A stop is over once the escalation delay has passed: by then the thread
/// that asked is told either that the worker has stopped or to stop the
/// device by force, never to wait on; and once the device has stopped,
/// nobody listens. Stopping twice, as when the worker ends by itself just
/// as the device is stopped by force, gives the same flags as stopping once.
pub proof fn lemma_stop_is_bounded(flags: ListenerFlags, waited: u64)
    requires
        waited >= STOP_ESCALATION_DELAY,
    ensures
        stop_step(stop_asked(flags), waited) != StopStep::Wait,
        !stopped(stop_asked(flags)).listening,
        stop_step(stopped(stop_asked(flags)), waited) == StopStep::Done,
        stopped(stopped(stop_asked(flags))) == stopped(stop_asked(flags)),
        stop_asked(stopped(flags)) == stopped(flags),
{
}

/// What greets the user after a wake word: a greeting sound, then the
/// notification that a session has begun.
pub fn keyword_callback(_keyword_index: i32) -> (r: (String, EventTypes))
    ensures
        is_one_of(crate::config::greet_phrases(), r.0@),
        r.1 == EventTypes::AssistantGreet,
{
    let greeting = pick_greeting();
    (greeting, EventTypes::AssistantGreet)
}

/// Normalizes recognized speech with the assistant's filler phrases.
pub fn filter_recognized_text(text: String) -> (r: String)
    ensures
        r@ == normalized(text@, phrases_to_remove()),
{
    let fillers = assistant_phrases_tbr();
    normalize(text.as_str(), &fillers)
}

/// Looks the command for a normalized utterance up. `commands` is `None`
/// while the command table has not been loaded.
pub fn find_and_execute_command(text: &str, commands: Option<&Vec<AssistantCommand>>) -> (r:
    Result<Option<CommandMatch>, String>)
    ensures
        match commands {
            None => fails_with(r, "Commands not initialized"@),
            Some(table) => match r {
                Ok(Some(m)) => is_first_match(words(text@), table@, m),
                Ok(None) => no_match(words(text@), table@),
                Err(_) => false,
            },
        },
{
    match commands {
        None => Err(String::from_str("Commands not initialized")),
        Some(table) => Ok(fetch_command(text, table)),
    }
}

/// Takes the outcome of running a command: whether the session stays open,
/// or the failure worded for the user.
pub fn command_executed(outcome: Result<bool, String>) -> (r: Result<Option<bool>, String>)
    ensures
        match outcome {
            Ok(chain) => r == Ok::<Option<bool>, String>(Some(chain)),
            Err(e) => fails_with(r, "Failed to execute command: "@ + e@),
        },
{
    match outcome {
        Ok(chain) => Ok(Some(chain)),
        Err(e) => Err(prefixed("Failed to execute command: ", e.as_str())),
    }
}

} // verus!
