use ear_native::app::state::{AppState, Message};
use ear_native::app::status::{init_failure_message, loading_title, AdapterRetry};
use ear_native::app::EarNative;
use ear_native::config::AppConfig;
use ear_native::link::{channel_candidates, choose_channel, choose_service};
use ear_native::protocol::DeviceBattery;

#[test]
fn defaults() {
    let app = EarNative::default();
    assert!(matches!(app.state, AppState::Disconnected));
    assert!(app.active_model_assets_ready);
    assert!(!app.is_loading());
    assert!(AppConfig::default().known_devices.is_empty());
    let b = DeviceBattery::default();
    assert!(b.left.is_none() && b.right.is_none() && b.case.is_none());
}

#[test]
fn loading_state_and_captions() {
    let mut app = EarNative::new();
    app.update(Message::Connect("AA".to_string()), 0);
    assert!(app.is_loading());
    assert_eq!(loading_title(&app.state), Some("connecting to headphones"));
    assert_eq!(loading_title(&AppState::Identifying("x".to_string())), Some("loading headphone data"));
    assert_eq!(loading_title(&AppState::Disconnected), None);
    assert!(!app.refreshes_battery());
}

#[test]
fn adapter_failure_texts() {
    assert_eq!(
        init_failure_message("adapter not present"),
        "Make sure Bluetooth is enabled in your system settings."
    );
    assert_eq!(
        init_failure_message("Permission denied"),
        "The application doesn't have permission to access Bluetooth. Check your system permissions."
    );
    assert_eq!(init_failure_message("busy"), "Please enable Bluetooth: busy");
}

#[test]
fn adapter_failures_are_reported_once_on_the_third() {
    let mut retry = AdapterRetry::new();
    assert_eq!(retry.failed("not found"), None);
    assert_eq!(retry.failed("not found"), None);
    assert_eq!(
        retry.failed("not found").as_deref(),
        Some("Make sure Bluetooth is enabled in your system settings.")
    );
    assert_eq!(retry.failed("not found"), None);
    assert_eq!(retry.failures, 4);
}

#[test]
fn rfcomm_channel_choice() {
    assert_eq!(channel_candidates(), vec![15, 13, 14, 16]);
    assert_eq!(choose_channel(&vec![13, 14]), 13);
    assert_eq!(choose_channel(&vec![]), 15);
}

#[test]
fn rfcomm_service_choice() {
    let ids = |v: &[&str]| v.iter().map(|s| s.to_string()).collect::<Vec<String>>();
    assert_eq!(choose_service(&ids(&["00001101-0000", "0000AEAC-0000", "0000aeac-1111"])), 1);
    assert_eq!(choose_service(&ids(&["00001101-0000", "1234", "00001101-ffff"])), 2);
    assert_eq!(choose_service(&ids(&["1234", "5678"])), 0);
}
