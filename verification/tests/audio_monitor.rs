use std::sync::atomic::{AtomicUsize, Ordering};
use std::sync::Arc;

use jarvis::audio::audio_monitor::{
    add_device_callback, diff_devices, get_all_devices, get_audio_monitor, get_input_devices,
    get_output_devices,
    get_system_devices_static, init_audio_monitor, is_running, shutdown_audio_monitor,
    AudioDevice, AudioDeviceEvent, AudioMonitor,
};
use jarvis::error::{JarvisError, RecorderError};

fn device(id: i32, name: &str) -> AudioDevice {
    AudioDevice {
        id,
        name: name.to_string(),
        is_input: true,
        is_output: false,
        is_default: false,
        is_available: true,
    }
}

fn tags(events: &[AudioDeviceEvent]) -> Vec<String> {
    events
        .iter()
        .map(|e| match e {
            AudioDeviceEvent::DeviceAdded(d) => format!("+{}", d.id),
            AudioDeviceEvent::DeviceRemoved(id) => format!("-{}", id),
            AudioDeviceEvent::DeviceChanged(d) => format!("~{}", d.id),
            AudioDeviceEvent::DefaultDeviceChanged { device_id, .. } => format!("d{}", device_id),
        })
        .collect()
}

#[test]
fn test_audio_device_creation() {
    let device = AudioDevice {
        id: 1,
        name: "Test Device".to_string(),
        is_input: true,
        is_output: false,
        is_default: false,
        is_available: true,
    };

    assert_eq!(device.id, 1);
    assert_eq!(device.name, "Test Device");
    assert!(device.is_input);
    assert!(!device.is_output);
}

#[test]
fn test_audio_monitor_creation() {
    let monitor = AudioMonitor::<fn(AudioDeviceEvent)>::new();
    assert!(monitor.get_devices().unwrap().is_empty());
}

#[test]
fn test_callback_addition() {
    let mut monitor = AudioMonitor::new();
    let callback_called = Arc::new(AtomicUsize::new(0));
    let callback_called_clone = callback_called.clone();

    let callback = move |_event: AudioDeviceEvent| {
        callback_called_clone.fetch_add(1, Ordering::SeqCst);
    };

    assert!(monitor.add_callback(callback).is_ok());
}

#[test]
fn scan_reports_added_removed_and_changed_in_that_order() {
    let mut monitor = AudioMonitor::new();
    let seen = Arc::new(AtomicUsize::new(0));
    let seen_by_observer = seen.clone();
    monitor
        .add_callback(move |_event: AudioDeviceEvent| {
            seen_by_observer.fetch_add(1, Ordering::SeqCst);
        })
        .unwrap();
    monitor.scan_devices_initial(vec![device(1, "a"), device(2, "b"), device(3, "c")]).unwrap();
    assert_eq!(seen.load(Ordering::SeqCst), 0);

    let mut renamed = device(2, "b2");
    renamed.is_available = false;
    let events =
        monitor.scan_devices_update(Ok(vec![device(4, "d"), renamed, device(3, "c")])).unwrap();
    assert_eq!(tags(&events), vec!["+4", "-1", "~2"]);
    assert_eq!(seen.load(Ordering::SeqCst), 3);

    let ids: Vec<i32> = monitor.get_devices().unwrap().iter().map(|d| d.id).collect();
    assert_eq!(ids, vec![4, 2, 3]);
    assert!(!monitor.is_device_available(2));
    assert!(monitor.is_device_available(3));
    assert!(!monitor.is_device_available(1));
    assert_eq!(monitor.get_device(4).unwrap().unwrap().name, "d");
    assert!(monitor.get_device(1).unwrap().is_none());
}

#[test]
fn unchanged_scan_is_silent_and_failed_scan_changes_nothing() {
    let mut monitor = AudioMonitor::<fn(AudioDeviceEvent)>::new();
    monitor.scan_devices_initial(vec![device(1, "a")]).unwrap();
    assert!(monitor.scan_devices_update(Ok(vec![device(1, "a")])).unwrap().is_empty());
    let failed = Err(JarvisError::Generic("scan failed".to_string()));
    assert!(monitor.scan_devices_update(failed).unwrap().is_empty());
    assert_eq!(monitor.get_devices().unwrap().len(), 1);
}

#[test]
fn later_report_for_an_id_replaces_the_earlier_one() {
    let mut monitor = AudioMonitor::<fn(AudioDeviceEvent)>::new();
    monitor.scan_devices_initial(vec![device(7, "old"), device(8, "x"), device(7, "new")]).unwrap();
    let devices = monitor.get_devices().unwrap();
    assert_eq!(devices.len(), 2);
    assert_eq!(devices[0].id, 7);
    assert_eq!(devices[0].name, "new");
}

#[test]
fn diff_of_given_tables() {
    let old_table = vec![device(1, "a"), device(2, "b")];
    let new_table = vec![device(2, "b"), device(5, "e"), device(6, "f")];
    assert_eq!(tags(&diff_devices(&old_table, &new_table)), vec!["+5", "+6", "-1"]);
    assert!(diff_devices(&old_table, &old_table).is_empty());
}

#[test]
fn start_and_stop_are_idempotent_and_polling_follows_the_interval() {
    let mut monitor = AudioMonitor::<fn(AudioDeviceEvent)>::new();
    assert!(!monitor.is_running());
    assert!(!monitor.scan_due(5000));
    assert_eq!(monitor.start().unwrap(), true);
    assert_eq!(monitor.start().unwrap(), false);
    assert!(monitor.is_running());
    assert!(!monitor.scan_due(999));
    assert!(monitor.scan_due(1000));
    monitor.stop().unwrap();
    monitor.stop().unwrap();
    assert!(!monitor.is_running());
}

#[test]
fn system_devices_mark_the_selected_microphone() {
    let speakers = AudioDevice {
        id: 2000,
        name: "Speakers".to_string(),
        is_input: false,
        is_output: true,
        is_default: true,
        is_available: true,
    };
    let all = get_system_devices_static(
        Ok(vec![(0, "Mic".to_string()), (1, "USB".to_string())]),
        Ok(1),
        Ok(vec![speakers]),
    )
    .unwrap();
    assert_eq!(all.len(), 3);
    assert!(all[0].is_input && !all[0].is_default);
    assert!(all[1].is_default && all[1].is_available && !all[1].is_output);
    assert_eq!(all[2].id, 2000);

    let no_inputs = get_system_devices_static(
        Err(JarvisError::Generic("x".to_string())),
        Err(JarvisError::Generic("y".to_string())),
        Ok(Vec::new()),
    )
    .unwrap();
    assert!(no_inputs.is_empty());
    let failed =
        get_system_devices_static(Ok(Vec::new()), Ok(0), Err(JarvisError::Generic("z".to_string())));
    assert!(failed.is_err());
}

#[test]
fn the_process_has_one_monitor() {
    let mut slot: Option<AudioMonitor<fn(AudioDeviceEvent)>> = None;
    assert!(get_audio_monitor(&slot).is_none());
    assert!(!is_running(&slot));
    assert!(get_all_devices(&slot).is_err());
    fn observer(_e: AudioDeviceEvent) {}
    assert!(add_device_callback(&mut slot, observer as fn(AudioDeviceEvent)).is_err());

    init_audio_monitor(&mut slot).unwrap();
    assert!(is_running(&slot));
    match init_audio_monitor(&mut slot) {
        Err(JarvisError::RecorderError(RecorderError::InitializationFailed(msg))) => {
            assert_eq!(msg, "Audio monitor already initialized")
        }
        _ => panic!("second set-up must fail"),
    }
    assert!(add_device_callback(&mut slot, observer as fn(AudioDeviceEvent)).is_ok());
    assert!(get_all_devices(&slot).unwrap().is_empty());
    shutdown_audio_monitor(&mut slot).unwrap();
    assert!(!is_running(&slot));
    assert!(get_audio_monitor(&slot).is_some());
}

#[test]
fn devices_are_read_off_tab_separated_listings() {
    let listing = "0\talsa_output.pci.analog\tmodule-alsa\ts16le\tSUSPENDED\nbroken line\n2\thdmi\n";
    let sinks = get_output_devices(Some(listing)).unwrap();
    assert_eq!(sinks.len(), 2);
    assert_eq!(sinks[0].id, 2000);
    assert_eq!(sinks[0].name, "alsa_output.pci.analog");
    assert!(sinks[0].is_default && sinks[0].is_output && !sinks[0].is_input);
    assert_eq!(sinks[1].id, 2002);
    assert_eq!(sinks[1].name, "hdmi");
    assert!(!sinks[1].is_default && sinks[1].is_available);
    assert!(get_output_devices(None).unwrap().is_empty());
    assert!(get_output_devices(Some("")).unwrap().is_empty());
    assert_eq!(get_output_devices(Some("x\t")).unwrap()[0].name, "");

    let with_returns = get_output_devices(Some("0\tspeakers\r\n1\thdmi\r\n")).unwrap();
    assert_eq!(with_returns[0].name, "speakers");
    assert_eq!(with_returns[1].name, "hdmi");

    let sources = get_input_devices("5\tmic.usb\tx\n\n6\tmonitor");
    assert_eq!(sources, vec![(0, "mic.usb".to_string()), (2, "monitor".to_string())]);
}
