use jarvis::tray::{
    handle_menu_event, handle_tray_event, quit_application, reload_config, set_last_command,
    show_status, toggle_listening, update_tray_state, Toggle, TrayAction, TrayClick, TrayState,
};
use jarvis::{should_shutdown, Lifecycle};

#[test]
fn test_tray_state_default() {
    let state = TrayState::default();
    assert!(!state.is_listening);
    assert!(!state.is_speaking);
    assert!(state.last_command.is_none());
    assert_eq!(state.microphone_count, 0);
}

#[test]
fn menu_entries_and_clicks() {
    assert_eq!(handle_menu_event(Some("toggle_listening")), Some(TrayAction::ToggleListening));
    assert_eq!(handle_menu_event(Some("open_settings")), Some(TrayAction::OpenSettings));
    assert_eq!(handle_menu_event(Some("show_status")), Some(TrayAction::ShowStatus));
    assert_eq!(handle_menu_event(Some("reload_config")), Some(TrayAction::ReloadConfig));
    assert_eq!(handle_menu_event(Some("quit")), Some(TrayAction::Quit));
    assert_eq!(handle_menu_event(Some("Quit")), None);
    assert_eq!(handle_menu_event(None), None);
    assert_eq!(handle_tray_event(TrayClick::Left), Some(TrayAction::ToggleListening));
    assert_eq!(handle_tray_event(TrayClick::Double), Some(TrayAction::OpenSettings));
    assert_eq!(handle_tray_event(TrayClick::Right), None);
    assert_eq!(handle_tray_event(TrayClick::Other), None);
}

#[test]
fn state_follows_the_assistant() {
    let mut state = TrayState::default();
    update_tray_state(&mut state, true, false, Some(3));
    assert!(state.is_listening && !state.is_speaking);
    assert_eq!(state.microphone_count, 3);
    update_tray_state(&mut state, false, true, None);
    assert!(!state.is_listening && state.is_speaking);
    assert_eq!(state.microphone_count, 3);
    set_last_command(&mut state, "включи музыку");
    assert_eq!(state.last_command.as_deref(), Some("включи музыку"));
}

#[test]
fn toggling_depends_on_listening() {
    let mut state = TrayState::default();
    assert_eq!(toggle_listening(&state), (Toggle::StartRecording, "Прослушивание началось"));
    state.is_listening = true;
    assert_eq!(toggle_listening(&state), (Toggle::StopRecording, "Прослушивание остановлено"));
    assert_eq!(reload_config(), "Конфигурация перезагружена");
}

#[test]
fn status_text_on_given_states() {
    let mut state = TrayState::default();
    assert_eq!(
        show_status(&state),
        "JARVIS Статус:\n\nПрослушивание: 🔴 Неактивно\nСинтез речи: 🔇 Молчит\nМикрофоны: 0 устройств\nПоследняя команда: Нет"
    );
    state.is_listening = true;
    state.is_speaking = true;
    state.microphone_count = 12;
    state.last_command = Some("громче".to_string());
    assert_eq!(
        show_status(&state),
        "JARVIS Статус:\n\nПрослушивание: 🟢 Активно\nСинтез речи: 🗣 Говорит\nМикрофоны: 12 устройств\nПоследняя команда: громче"
    );
}

#[test]
fn quitting_asks_for_shutdown() {
    let mut flags = Lifecycle::new();
    quit_application(&mut flags);
    assert!(should_shutdown(&flags));
}
