//! The orchestrator: the session state machine that turns detections,
//! recognized speech and command outcomes into the next state and into what
//! has to be sent outward.
//!
//! A session is either idle, listening for the wake word, or awaiting a
//! command since some moment. The worker asks `next_request` what to do with
//! the next frame, does it, and reports the result to the step function of
//! that state. Time is handed in as milliseconds of the caller's clock.

use vstd::prelude::*;
use vstd::string::*;
use crate::audio::recorder;
use crate::audio::recorder::{Recorder, RecorderCall};
use crate::commands::{
    fetch_command,
    is_first_match,
    no_match,
    AssistantCommand,
    CommandMatch,
};
use crate::config::{
    assistant_phrases_tbr,
    greet_phrases,
    phrases_to_remove,
    string_views,
    CMS_WAIT_DELAY,
};
use crate::error::{
    command_not_found,
    execution_failure,
    CommandError,
    JarvisError,
    JarvisResult,
};
use crate::events::{choose_one, is_one_of, pick_greeting, EventTypes};
use crate::listener::DetectionEvent;
use crate::normalizer::{normalize, normalized};
use crate::text::{is_blank, to_chars, trimmed, words};
use crate::Lifecycle;

verus! {

/// The state of a session. Exactly one state holds at a time.
#[derive(Clone, Copy, Debug, PartialEq, Eq, Structural)]
pub enum SessionState {
    /// Listening for the wake word.
    Idle,
    /// Listening for a command since the moment `since`.
    AwaitingCommand { since: u64 },
}

/// What the worker does with the next frame.
#[derive(Clone, Copy, Debug, PartialEq, Eq, Structural)]
pub enum Request {
    /// Leave the loop and release the device.
    Exit,
    /// Read a frame and run the wake-word detector on it.
    DetectWakeWord,
    /// Read a frame and run the recognizer on it, without partial results.
    RecognizeCommand,
}

/// Something to send outward.
#[derive(Debug)]
pub enum Effect {
    /// Play this feedback sound.
    PlaySound(String),
    /// Send this notification to the user interface.
    Emit(EventTypes),
    /// Run the matched command and report how it went.
    Execute(CommandMatch),
}

/// What an `Effect` holds.
pub enum EffectView {
    PlaySound(Seq<char>),
    Emit(EventTypes),
    Execute(CommandMatch),
}

impl View for Effect {
    type V = EffectView;

    open spec fn view(&self) -> EffectView {
        match self {
            Effect::PlaySound(s) => EffectView::PlaySound(s@),
            Effect::Emit(e) => EffectView::Emit(*e),
            Effect::Execute(m) => EffectView::Execute(*m),
        }
    }
}

/// The contents of each effect.
pub open spec fn effect_views(v: Seq<Effect>) -> Seq<EffectView> {
    Seq::new(v.len(), |i: int| v[i]@)
}

/// The sound that is played when the assistant starts.
pub const STARTUP_SOUND: &'static str = "run";

/// The sound that is played when a command has failed.
pub const ERROR_SOUND: &'static str = "error";

/// What the worker does with the next frame: it leaves once a stop has been
/// asked for, and otherwise serves the state it is in.
pub open spec fn request_for(state: SessionState, stop_requested: bool) -> Request {
    if stop_requested {
        Request::Exit
    } else {
        match state {
            SessionState::Idle => Request::DetectWakeWord,
            SessionState::AwaitingCommand { .. } => Request::RecognizeCommand,
        }
    }
}

/// The state after the detector has looked at a frame.
pub open spec fn after_detection(
    state: SessionState,
    detection: Option<DetectionEvent>,
    now: u64,
) -> SessionState {
    match state {
        SessionState::Idle => if detection is Some {
            SessionState::AwaitingCommand { since: now }
        } else {
            SessionState::Idle
        },
        SessionState::AwaitingCommand { .. } => state,
    }
}

/// More than the waiting time has passed between `since` and `now`.
pub open spec fn timed_out(since: u64, now: u64) -> bool {
    now - since > CMS_WAIT_DELAY
}

/// The state after a frame in which nothing was recognized, or nothing that
/// matched.
pub open spec fn after_silence(state: SessionState, now: u64) -> SessionState {
    match state {
        SessionState::Idle => SessionState::Idle,
        SessionState::AwaitingCommand { since } => if timed_out(since, now) {
            SessionState::Idle
        } else {
            state
        },
    }
}

/// The state after an utterance whose normal form is `text`.
pub open spec fn after_utterance(
    state: SessionState,
    text: Seq<char>,
    table: Seq<AssistantCommand>,
    now: u64,
) -> SessionState {
    match state {
        SessionState::Idle => SessionState::Idle,
        SessionState::AwaitingCommand { .. } => if text.len() == 0 {
            state
        } else if no_match(words(text), table) {
            after_silence(state, now)
        } else {
            state
        },
    }
}

/// The state after a command has run; `chain` says whether it ran well and
/// asked for the session to stay open.
pub open spec fn after_execution(state: SessionState, chain: bool, now: u64) -> SessionState {
    match state {
        SessionState::Idle => SessionState::Idle,
        SessionState::AwaitingCommand { .. } => if chain {
            SessionState::AwaitingCommand { since: now }
        } else {
            SessionState::Idle
        },
    }
}

/// Decides what the worker does with the next frame.
pub fn next_request(state: &SessionState, stop_requested: bool) -> (r: Request)
    ensures
        r == request_for(*state, stop_requested),
{
    if stop_requested {
        return Request::Exit;
    }
    match state {
        SessionState::Idle => Request::DetectWakeWord,
        SessionState::AwaitingCommand { .. } => Request::RecognizeCommand,
    }
}

/// Takes the detector's result for a frame. A detection in the idle state
/// opens a session at `now`, plays `greeting` and tells the user interface;
/// nothing else changes anything.
pub fn wake_step(
    state: &mut SessionState,
    detection: Option<DetectionEvent>,
    greeting: String,
    now: u64,
) -> (r: Vec<Effect>)
    ensures
        *final(state) == after_detection(*old(state), detection, now),
        effect_views(r@) == if *old(state) is Idle && detection is Some {
            seq![EffectView::PlaySound(greeting@), EffectView::Emit(EventTypes::AssistantGreet)]
        } else {
            Seq::<EffectView>::empty()
        },
{
    let mut effects: Vec<Effect> = Vec::new();
    match state {
        SessionState::Idle => {
            if detection.is_some() {
                *state = SessionState::AwaitingCommand { since: now };
                effects.push(Effect::PlaySound(greeting));
                effects.push(Effect::Emit(EventTypes::AssistantGreet));
                proof {
                    assert(effect_views(effects@) =~= seq![
                        EffectView::PlaySound(greeting@),
                        EffectView::Emit(EventTypes::AssistantGreet),
                    ]);
                }
                return effects;
            }
        },
        SessionState::AwaitingCommand { .. } => {},
    }
    proof {
        assert(effect_views(effects@) =~= Seq::<EffectView>::empty());
    }
    effects
}

/// One turn of the idle loop: takes the detector's result for a frame and,
/// on a detection, opens a session with a greeting picked at random.
pub fn main_loop(state: &mut SessionState, detection: Option<DetectionEvent>, now: u64) -> (r: Vec<
    Effect,
>)
    ensures
        *final(state) == after_detection(*old(state), detection, now),
        *old(state) is Idle && detection is Some ==> r@.len() == 2 && (exists|g: Seq<char>|
            is_one_of(greet_phrases(), g) && effect_views(r@) == seq![
                EffectView::PlaySound(g),
                EffectView::Emit(EventTypes::AssistantGreet),
            ]),
        !(*old(state) is Idle && detection is Some) ==> r@.len() == 0,
{
    let greeting = pick_greeting();
    let ghost g = greeting@;
    let effects = wake_step(state, detection, greeting, now);
    proof {
        assert(effect_views(effects@).len() == effects@.len());
        if *old(state) is Idle && detection is Some {
            assert(is_one_of(greet_phrases(), g) && effect_views(effects@) == seq![
                EffectView::PlaySound(g),
                EffectView::Emit(EventTypes::AssistantGreet),
            ]);
        }
    }
    effects
}

/// Whether more than the waiting time has passed between `since` and `now`.
pub fn waited_too_long(since: u64, now: u64) -> (r: bool)
    ensures
        r == timed_out(since, now),
{
    now > since && now - since > CMS_WAIT_DELAY
}

/// Takes a frame in which nothing was recognized, or that could not be read
/// or processed: such a frame is passed over and the worker goes on. A
/// session that has waited too long ends, and the user interface is told.
pub fn silence_step(state: &mut SessionState, now: u64) -> (r: Vec<Effect>)
    ensures
        *final(state) == after_silence(*old(state), now),
        effect_views(r@) == if *old(state) != *final(state) {
            seq![EffectView::Emit(EventTypes::AssistantWaiting)]
        } else {
            Seq::<EffectView>::empty()
        },
{
    let mut effects: Vec<Effect> = Vec::new();
    match state {
        SessionState::Idle => {},
        SessionState::AwaitingCommand { since } => {
            if waited_too_long(*since, now) {
                *state = SessionState::Idle;
                effects.push(Effect::Emit(EventTypes::AssistantWaiting));
                proof {
                    assert(effect_views(effects@) =~= seq![
                        EffectView::Emit(EventTypes::AssistantWaiting),
                    ]);
                }
                return effects;
            }
        },
    }
    proof {
        assert(effect_views(effects@) =~= Seq::<EffectView>::empty());
    }
    effects
}

/// Takes an utterance in its normal form. An empty one is passed over and
/// the session waits on. One that matches a command asks for the command to
/// be run. One that matches nothing is treated as silence.
pub fn command_step(
    state: &mut SessionState,
    text: &str,
    commands: &Vec<AssistantCommand>,
    now: u64,
) -> (r: Vec<Effect>)
    ensures
        *final(state) == after_utterance(*old(state), text@, commands@, now),
        *old(state) is Idle || text@.len() == 0 ==> r@.len() == 0,
        *old(state) is AwaitingCommand && text@.len() > 0 ==> (if no_match(
            words(text@),
            commands@,
        ) {
            effect_views(r@) == if *old(state) != *final(state) {
                seq![EffectView::Emit(EventTypes::AssistantWaiting)]
            } else {
                Seq::<EffectView>::empty()
            }
        } else {
            r@.len() == 1 && (match r@[0] {
                Effect::Execute(m) => is_first_match(words(text@), commands@, m),
                _ => false,
            })
        }),
{
    let mut effects: Vec<Effect> = Vec::new();
    match state {
        SessionState::Idle => {
            return effects;
        },
        SessionState::AwaitingCommand { .. } => {},
    }
    if text.unicode_len() == 0 {
        return effects;
    }
    match fetch_command(text, commands) {
        Some(m) => {
            proof {
                assert(!no_match(words(text@), commands@)) by {
                    lemma_match_excludes_no_match(words(text@), commands@, m);
                }
            }
            effects.push(Effect::Execute(m));
            effects
        },
        None => silence_step(state, now),
    }
}

/// A table in which an entry matches is not a table in which none does.
pub proof fn lemma_match_excludes_no_match(
    ws: Seq<Seq<char>>,
    table: Seq<AssistantCommand>,
    m: CommandMatch,
)
    requires
        is_first_match(ws, table, m),
    ensures
        !no_match(ws, table),
{
    let cmd = table[m.index as int];
    assert(crate::commands::ratio(ws, cmd.phrases@[m.phrase as int]@)
        >= crate::commands::threshold_of(cmd));
    assert(crate::commands::entry_matches(ws, cmd));
}

/// Normalizes recognized speech with the assistant's filler phrases.
pub fn filter_recognized_voice(voice: String) -> (r: String)
    ensures
        r@ == normalized(voice@, phrases_to_remove()),
{
    let fillers = assistant_phrases_tbr();
    normalize(voice.as_str(), &fillers)
}

/// The state after the recognizer has looked at a frame.
pub open spec fn after_recognition(
    state: SessionState,
    recognized: Option<Seq<char>>,
    table: Seq<AssistantCommand>,
    now: u64,
) -> SessionState {
    match recognized {
        None => after_silence(state, now),
        Some(text) => if trimmed(text).len() == 0 {
            after_silence(state, now)
        } else {
            after_utterance(state, normalized(text, phrases_to_remove()), table, now)
        },
    }
}

/// One turn of the command loop: takes the recognizer's result for a frame.
/// No text, or blank text, means that nothing was recognized yet. Other text
/// is normalized and handed to `command_step`.
pub fn handle_voice_commands(
    state: &mut SessionState,
    recognized: Option<&str>,
    commands: &Vec<AssistantCommand>,
    now: u64,
) -> (r: Vec<Effect>)
    ensures
        *final(state) == after_recognition(
            *old(state),
            match recognized {
                Some(t) => Some(t@),
                None => None,
            },
            commands@,
            now,
        ),
        *old(state) is Idle ==> r@.len() == 0,
        recognized is None || trimmed(recognized->0@).len() == 0 ==> effect_views(r@) == if *old(
            state,
        ) != *final(state) {
            seq![EffectView::Emit(EventTypes::AssistantWaiting)]
        } else {
            Seq::<EffectView>::empty()
        },
        *old(state) is AwaitingCommand && recognized is Some && trimmed(recognized->0@).len() > 0
            ==> ({
            let text = normalized(recognized->0@, phrases_to_remove());
            if text.len() == 0 {
                r@.len() == 0
            } else if no_match(words(text), commands@) {
                effect_views(r@) == if *old(state) != *final(state) {
                    seq![EffectView::Emit(EventTypes::AssistantWaiting)]
                } else {
                    Seq::<EffectView>::empty()
                }
            } else {
                r@.len() == 1 && (match r@[0] {
                    Effect::Execute(m) => is_first_match(words(text), commands@, m),
                    _ => false,
                })
            }
        }),
{
    let effects = match recognized {
        None => silence_step(state, now),
        Some(text) => {
            let chars = to_chars(text);
            if is_blank(&chars) {
                silence_step(state, now)
            } else {
                let voice = filter_recognized_voice(String::from_str(text));
                command_step(state, voice.as_str(), commands, now)
            }
        },
    };
    proof {
        assert(effect_views(effects@).len() == effects@.len());
    }
    effects
}

/// Looks the command for a normalized utterance up. `commands` is `None`
/// while the command table has not been loaded.
pub fn find_matching_command(voice: &str, commands: Option<&Vec<AssistantCommand>>) -> (r:
    JarvisResult<Option<CommandMatch>>)
    ensures
        match commands {
            None => command_not_found(r, "Commands list not initialized"@),
            Some(table) => match r {
                Ok(Some(m)) => is_first_match(words(voice@), table@, m),
                Ok(None) => no_match(words(voice@), table@),
                Err(_) => false,
            },
        },
{
    match commands {
        None => Err(
            JarvisError::CommandError(
                CommandError::CommandNotFound(String::from_str("Commands list not initialized")),
            ),
        ),
        Some(table) => Ok(fetch_command(voice, table)),
    }
}

/// The sound for a command's outcome, given a pick among the command's
/// feedback sounds: the pick after a success, the error sound after a
/// failure.
pub fn feedback_sound(outcome: &Result<bool, String>, pick: Option<String>) -> (r: Option<String>)
    ensures
        match *outcome {
            Ok(_) => match pick {
                Some(s) => r is Some && r->0@ == s@,
                None => r is None,
            },
            Err(_) => r is Some && r->0@ == ERROR_SOUND@,
        },
{
    match outcome {
        Ok(_) => pick,
        Err(_) => Some(String::from_str(ERROR_SOUND)),
    }
}

/// Takes the outcome of running a command: whether the session is to stay
/// open, or the failure, and the sound to play. After a success the sound is
/// one of the command's feedback sounds, picked at random.
pub fn execute_found_command(cmd: &AssistantCommand, outcome: Result<bool, String>) -> (r: (
    JarvisResult<bool>,
    Option<String>,
))
    ensures
        match outcome {
            Ok(chain) => r.0 == Ok::<bool, JarvisError>(chain) && (if cmd.sounds@.len() == 0 {
                r.1 is None
            } else {
                r.1 is Some && is_one_of(string_views(cmd.sounds@), r.1->0@)
            }),
            Err(e) => execution_failure(r.0, e@) && r.1 is Some && r.1->0@ == ERROR_SOUND@,
        },
{
    let pick = match &outcome {
        Ok(_) => choose_one(&cmd.sounds),
        Err(_) => None,
    };
    let sound = feedback_sound(&outcome, pick);
    match outcome {
        Ok(chain) => (Ok(chain), sound),
        Err(e) => (Err(JarvisError::CommandError(CommandError::ExecutionFailed(e))), sound),
    }
}

/// Moves the session on after a command has run. A command that ran well and
/// chains keeps the session open and restarts the waiting time; any other
/// outcome, a failure too, ends the session.
pub fn execution_step(state: &mut SessionState, result: &JarvisResult<bool>, now: u64)
    ensures
        *final(state) == after_execution(*old(state), *result == Ok::<bool, JarvisError>(true), now),
{
    match state {
        SessionState::Idle => {},
        SessionState::AwaitingCommand { .. } => {
            let chain = match result {
                Ok(c) => *c,
                Err(_) => false,
            };
            if chain {
                *state = SessionState::AwaitingCommand { since: now };
            } else {
                *state = SessionState::Idle;
            }
        },
    }
}

/// Begins a run: the session is idle and the capture device is asked to
/// start.
pub fn start(state: &mut SessionState, rec: &Recorder, microphone: Option<i32>) -> (r:
    JarvisResult<RecorderCall>)
    ensures
        *final(state) == SessionState::Idle,
        match recorder::start_call(*rec, microphone) {
            Some(call) => r == Ok::<RecorderCall, JarvisError>(call),
            None => r is Err,
        },
{
    *state = SessionState::Idle;
    recorder::start_recording(rec, microphone)
}

/// Ends a run: a shutdown is asked for, and the capture device is asked to
/// stop where it is capturing.
pub fn stop(flags: &mut Lifecycle, rec: &Recorder) -> (r: JarvisResult<RecorderCall>)
    ensures
        final(flags).shutdown_requested,
        final(flags).initialization_complete == old(flags).initialization_complete,
        !rec.recording ==> r == Ok::<RecorderCall, JarvisError>(RecorderCall::Nothing),
        rec.recording ==> match recorder::stop_call(*rec) {
            Some(call) => r == Ok::<RecorderCall, JarvisError>(call),
            None => r is Err,
        },
{
    crate::request_shutdown(flags);
    if recorder::is_recording(rec) {
        return recorder::stop_recording(rec);
    }
    Ok(RecorderCall::Nothing)
}

/// Whether a run is under way: the device captures and no shutdown has been
/// asked for.
pub fn is_running(flags: &Lifecycle, rec: &Recorder) -> (r: bool)
    ensures
        r == (rec.recording && !flags.shutdown_requested),
{
    recorder::is_recording(rec) && !crate::should_shutdown(flags)
}

/// A session opens only on a detection, and on every detection: from the
/// idle state the detector's result leads to awaiting a command exactly when
/// it holds a detection, and no other step leaves the idle state.
pub proof fn lemma_session_opens_on_detection_only(
    detection: Option<DetectionEvent>,
    text: Seq<char>,
    recognized: Option<Seq<char>>,
    table: Seq<AssistantCommand>,
    chain: bool,
    now: u64,
)
    ensures
        after_detection(SessionState::Idle, detection, now) is AwaitingCommand <==> detection
            is Some,
        detection is Some ==> after_detection(SessionState::Idle, detection, now)
            == (SessionState::AwaitingCommand { since: now }),
        after_silence(SessionState::Idle, now) is Idle,
        after_utterance(SessionState::Idle, text, table, now) is Idle,
        after_recognition(SessionState::Idle, recognized, table, now) is Idle,
        after_execution(SessionState::Idle, chain, now) is Idle,
{
}

/// A session without a matching command ends by itself: once more than the
/// waiting time has passed since it began, the next frame in which nothing
/// is recognized, or nothing that matches a command, returns it to idle.
pub proof fn lemma_session_times_out(
    since: u64,
    now: u64,
    text: Seq<char>,
    table: Seq<AssistantCommand>,
)
    requires
        timed_out(since, now),
    ensures
        after_silence(SessionState::AwaitingCommand { since }, now) is Idle,
        text.len() > 0 && no_match(words(text), table) ==> after_utterance(
            SessionState::AwaitingCommand { since },
            text,
            table,
            now,
        ) is Idle,
{
}

} // verus!
