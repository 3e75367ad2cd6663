//! The tray: what it shows of the assistant's state and what its menu
//! entries and clicks ask for.

use vstd::prelude::*;
use vstd::string::*;
use crate::error::{decimal_digits, digits_of};
use crate::text::{from_chars, same_text};
use crate::Lifecycle;

verus! {

pub const MENU_TOGGLE_LISTENING: &'static str = "toggle_listening";

pub const MENU_OPEN_SETTINGS: &'static str = "open_settings";

pub const MENU_SHOW_STATUS: &'static str = "show_status";

pub const MENU_RELOAD_CONFIG: &'static str = "reload_config";

pub const MENU_QUIT: &'static str = "quit";

/// What the tray knows of the assistant.
#[derive(Debug)]
pub struct TrayState {
    pub is_listening: bool,
    pub is_speaking: bool,
    pub last_command: Option<String>,
    pub microphone_count: usize,
}

impl Default for TrayState {
    fn default() -> (r: Self)
        ensures
            !r.is_listening,
            !r.is_speaking,
            r.last_command is None,
            r.microphone_count == 0,
    {
        TrayState {
            is_listening: false,
            is_speaking: false,
            last_command: None,
            microphone_count: 0,
        }
    }
}

/// What a menu entry or a click asks for.
#[derive(Clone, Copy, Debug, PartialEq, Eq, Structural)]
pub enum TrayAction {
    ToggleListening,
    OpenSettings,
    ShowStatus,
    ReloadConfig,
    Quit,
}

/// A click on the tray icon.
#[derive(Clone, Copy, Debug, PartialEq, Eq, Structural)]
pub enum TrayClick {
    Left,
    Right,
    Double,
    Other,
}

/// What toggling asks of the capture device.
#[derive(Clone, Copy, Debug, PartialEq, Eq, Structural)]
pub enum Toggle {
    StartRecording,
    StopRecording,
}

/// The action behind a menu entry's id.
pub open spec fn action_for(id: Seq<char>) -> Option<TrayAction> {
    if id == MENU_TOGGLE_LISTENING@ {
        Some(TrayAction::ToggleListening)
    } else if id == MENU_OPEN_SETTINGS@ {
        Some(TrayAction::OpenSettings)
    } else if id == MENU_SHOW_STATUS@ {
        Some(TrayAction::ShowStatus)
    } else if id == MENU_RELOAD_CONFIG@ {
        Some(TrayAction::ReloadConfig)
    } else if id == MENU_QUIT@ {
        Some(TrayAction::Quit)
    } else {
        None
    }
}

/// The action behind a chosen menu entry; entries without an id, or with an
/// unknown one, ask for nothing.
pub fn handle_menu_event(id: Option<&str>) -> (r: Option<TrayAction>)
    ensures
        r == match id {
            Some(s) => action_for(s@),
            None => None,
        },
{
    match id {
        None => None,
        Some(s) => {
            if same_text(s, MENU_TOGGLE_LISTENING) {
                Some(TrayAction::ToggleListening)
            } else if same_text(s, MENU_OPEN_SETTINGS) {
                Some(TrayAction::OpenSettings)
            } else if same_text(s, MENU_SHOW_STATUS) {
                Some(TrayAction::ShowStatus)
            } else if same_text(s, MENU_RELOAD_CONFIG) {
                Some(TrayAction::ReloadConfig)
            } else if same_text(s, MENU_QUIT) {
                Some(TrayAction::Quit)
            } else {
                None
            }
        },
    }
}

/// The action behind a click on the icon: a left click toggles listening, a
/// double click opens the settings.
pub fn handle_tray_event(click: TrayClick) -> (r: Option<TrayAction>)
    ensures
        r == match click {
            TrayClick::Left => Some(TrayAction::ToggleListening),
            TrayClick::Double => Some(TrayAction::OpenSettings),
            _ => None,
        },
{
    match click {
        TrayClick::Left => Some(TrayAction::ToggleListening),
        TrayClick::Double => Some(TrayAction::OpenSettings),
        _ => None,
    }
}

/// Brings the tray's picture of the assistant up to date. The number of
/// microphones stays where the devices could not be listed.
pub fn update_tray_state(
    state: &mut TrayState,
    recording: bool,
    speaking: bool,
    microphones: Option<usize>,
)
    ensures
        final(state).is_listening == recording,
        final(state).is_speaking == speaking,
        final(state).last_command == old(state).last_command,
        final(state).microphone_count == match microphones {
            Some(n) => n,
            None => old(state).microphone_count,
        },
{
    state.is_listening = recording;
    state.is_speaking = speaking;
    match microphones {
        Some(n) => {
            state.microphone_count = n;
        },
        None => {},
    }
}

/// What toggling asks for, and the notice to show once it is done.
pub fn toggle_listening(state: &TrayState) -> (r: (Toggle, &'static str))
    ensures
        state.is_listening ==> r.0 == Toggle::StopRecording && r.1@
            == "Прослушивание остановлено"@,
        !state.is_listening ==> r.0 == Toggle::StartRecording && r.1@
            == "Прослушивание началось"@,
{
    if state.is_listening {
        (Toggle::StopRecording, "Прослушивание остановлено")
    } else {
        (Toggle::StartRecording, "Прослушивание началось")
    }
}

/// The status text.
pub open spec fn status_text(state: TrayState) -> Seq<char> {
    "JARVIS Статус:\n\nПрослушивание: "@ + (if state.is_listening {
        "🟢 Активно"@
    } else {
        "🔴 Неактивно"@
    }) + "\nСинтез речи: "@ + (if state.is_speaking {
        "🗣 Говорит"@
    } else {
        "🔇 Молчит"@
    }) + "\nМикрофоны: "@ + decimal_digits(state.microphone_count as nat) + " устройств\nПоследняя команда: "@
        + (match state.last_command {
        Some(c) => c@,
        None => "Нет"@,
    })
}

/// The status text to show.
pub fn show_status(state: &TrayState) -> (r: String)
    ensures
        r@ == status_text(*state),
{
    let mut out = String::from_str("JARVIS Статус:\n\nПрослушивание: ");
    if state.is_listening {
        out.append("🟢 Активно");
    } else {
        out.append("🔴 Неактивно");
    }
    out.append("\nСинтез речи: ");
    if state.is_speaking {
        out.append("🗣 Говорит");
    } else {
        out.append("🔇 Молчит");
    }
    out.append("\nМикрофоны: ");
    let count = from_chars(&digits_of(state.microphone_count as u64));
    out.append(count.as_str());
    out.append(" устройств\nПоследняя команда: ");
    match &state.last_command {
        Some(c) => {
            out.append(c.as_str());
        },
        None => {
            out.append("Нет");
        },
    }
    out
}

/// The notice after the configuration has been reloaded.
pub fn reload_config() -> (r: &'static str)
    ensures
        r@ == "Конфигурация перезагружена"@,
{
    "Конфигурация перезагружена"
}

/// Asks for the whole application to shut down.
pub fn quit_application(flags: &mut Lifecycle)
    ensures
        *final(flags) == (Lifecycle { shutdown_requested: true, ..*old(flags) }),
{
    crate::request_shutdown(flags);
}

/// Remembers the command that ran last.
pub fn set_last_command(state: &mut TrayState, command: &str)
    ensures
        final(state).last_command is Some,
        final(state).last_command->0@ == command@,
        final(state).is_listening == old(state).is_listening,
        final(state).is_speaking == old(state).is_speaking,
        final(state).microphone_count == old(state).microphone_count,
{
    state.last_command = Some(String::from_str(command));
}

} // verus!
