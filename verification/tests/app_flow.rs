use ear_native::app::state::{Action, AppState, EqLevels, Message, RingTarget};
use ear_native::app::update::{anc_level_for_mode, anc_proto_for_level};
use ear_native::app::EarNative;
use ear_native::bluetooth::{BluetoothEvent, DiscoveredDevice};
use ear_native::protocol::{AncMode, EqMode, Packet, PacketCommand};

fn ready() -> EarNative {
    let mut app = EarNative::new();
    let actions = app.update(Message::Ready, 0);
    assert!(actions.is_empty());
    app
}

fn device(id: &str, name: &str, paired: bool, system_connected: bool) -> DiscoveredDevice {
    DiscoveredDevice { id: id.to_string(), name: name.to_string(), paired, system_connected }
}

fn packet(app: &mut EarNative, command: PacketCommand, payload: Vec<u8>) -> Vec<Action> {
    app.update(Message::Bluetooth(BluetoothEvent::PacketReceived(Packet::new(command, payload, 0))), 0)
}

/// The packets sent, as (command, payload, operation number, delay).
fn sent(actions: &[Action]) -> Vec<(PacketCommand, Vec<u8>, u8, u64)> {
    actions
        .iter()
        .filter_map(|a| match a {
            Action::SendPacket { packet, delay_ms } => {
                Some((packet.command, packet.payload.clone(), packet.operation_id, *delay_ms))
            }
            _ => None,
        })
        .collect()
}

fn connected_ear_2() -> EarNative {
    let mut app = ready();
    app.update(Message::Bluetooth(BluetoothEvent::DeviceDiscovered(device("AA", "Nothing Ear (2)", true, false))), 0);
    app.update(Message::Bluetooth(BluetoothEvent::Connected("AA".to_string())), 0);
    packet(&mut app, PacketCommand::RespSku, vec![0x00, 0x17]);
    app
}

#[test]
fn discovery_lists_and_remembers_devices() {
    let mut app = ready();
    let a = app.update(Message::Bluetooth(BluetoothEvent::DeviceDiscovered(device("AA", "Nothing Ear (2)", true, false))), 0);
    assert_eq!(a.len(), 1);
    assert!(matches!(a[0], Action::PersistConfig));
    let a = app.update(Message::Bluetooth(BluetoothEvent::DeviceDiscovered(device("AA", "Nothing Ear (2)", true, false))), 0);
    assert!(a.is_empty());
    app.update(Message::Bluetooth(BluetoothEvent::DeviceDiscovered(device("BB", "CMF Buds", true, false))), 0);
    let a = app.update(Message::Bluetooth(BluetoothEvent::DeviceDiscovered(device("AA", "renamed", true, false))), 0);
    assert_eq!(a.len(), 1);
    assert_eq!(app.discovered_devices, vec![
        ("AA".to_string(), "renamed".to_string()),
        ("BB".to_string(), "CMF Buds".to_string()),
    ]);
}

#[test]
fn connecting_asks_for_the_sku() {
    let mut app = ready();
    app.update(Message::Bluetooth(BluetoothEvent::DeviceDiscovered(device("AA", "Nothing Ear (2)", true, false))), 0);
    let a = app.update(Message::Bluetooth(BluetoothEvent::Connected("AA".to_string())), 0);
    assert!(matches!(&app.state, AppState::Identifying(n) if n == "Nothing Ear (2)"));
    assert!(matches!(a[0], Action::PersistConfig));
    assert_eq!(sent(&a), vec![
        (PacketCommand::ReadSku, vec![], 1, 600),
        (PacketCommand::ReadSkuAlt, vec![], 2, 1000),
        (PacketCommand::RespSku, vec![], 3, 1400),
        (PacketCommand::ReadFirmware, vec![], 4, 1800),
    ]);
    assert!(matches!(a.last(), Some(Action::ScheduleIdentificationTimeout)));
    let d = app.connected_device.as_ref().unwrap();
    assert_eq!(d.id, "AA");
    assert_eq!(d.model.name, "Nothing Ear (2)");
    assert_eq!(d.firmware_version, "loading...");
    assert_eq!(app.config.last_connected_device_id.as_deref(), Some("AA"));
}

#[test]
fn a_listed_sku_identifies_the_model() {
    let mut app = ready();
    app.update(Message::Bluetooth(BluetoothEvent::DeviceDiscovered(device("AA", "Nothing Ear (2)", true, false))), 0);
    app.update(Message::Bluetooth(BluetoothEvent::Connected("AA".to_string())), 0);
    let a = packet(&mut app, PacketCommand::RespSku, vec![0x00, 0x17]);
    assert!(matches!(&app.state, AppState::Connected(m) if m.base == "B155"));
    assert!(matches!(a[0], Action::PersistConfig));
    assert!(matches!(&a[1], Action::PreloadModelAssets(m) if m.name == "Nothing Ear (2)"));
    let cmds: Vec<(PacketCommand, u64)> = sent(&a).into_iter().map(|s| (s.0, s.3)).collect();
    assert_eq!(cmds, vec![
        (PacketCommand::ReadBattery, 100),
        (PacketCommand::ReadAnc, 300),
        (PacketCommand::ReadEq, 500),
        (PacketCommand::ReadPersonalizedAnc, 650),
        (PacketCommand::ReadInEar, 700),
        (PacketCommand::ReadLatency, 900),
        (PacketCommand::ReadEnhancedBass, 1100),
        (PacketCommand::ReadAdvancedEq, 1300),
        (PacketCommand::ReadCustomEq, 1500),
    ]);
    assert!(matches!(a.last(), Some(Action::ScheduleInitialDataLoadTimeout)));
    assert_eq!(app.config.known_model_key("AA"), Some("ear_2_white"));
    assert!(app.initial_data_load.is_some());
    assert!(!app.active_model_assets_ready);
}

#[test]
fn a_remembered_model_loads_at_once() {
    let mut app = connected_ear_2();
    app.update(Message::Disconnect, 0);
    let a = app.update(Message::Bluetooth(BluetoothEvent::Connected("AA".to_string())), 0);
    assert!(matches!(&app.state, AppState::Connected(m) if m.base == "B155"));
    let s = sent(&a);
    assert_eq!(s.last().map(|x| (x.0, x.3)), Some((PacketCommand::ReadFirmware, 1700)));
    assert!(!a.iter().any(|x| matches!(x, Action::ScheduleIdentificationTimeout)));
}

#[test]
fn an_unreadable_sku_is_retried_three_times() {
    let mut app = ready();
    app.update(Message::Bluetooth(BluetoothEvent::DeviceDiscovered(device("AA", "CMF Neckband Pro", true, false))), 0);
    app.update(Message::Bluetooth(BluetoothEvent::Connected("AA".to_string())), 0);
    for attempt in 1..=3u8 {
        let a = packet(&mut app, PacketCommand::RespSku, vec![]);
        let s = sent(&a);
        assert_eq!(s.len(), 1);
        assert_eq!((s[0].0, s[0].3), (PacketCommand::ReadSku, 300));
        assert_eq!(app.connected_device.as_ref().unwrap().sku_attempts, attempt);
        assert!(matches!(app.state, AppState::Identifying(_)));
    }
    packet(&mut app, PacketCommand::RespSku, vec![]);
    assert!(matches!(&app.state, AppState::Connected(m) if m.name == "CMF Neckband Pro"));
}

#[test]
fn identification_timeout_falls_back_to_the_name() {
    let mut app = ready();
    app.update(Message::Bluetooth(BluetoothEvent::DeviceDiscovered(device("AA", "my headphones", true, false))), 0);
    app.update(Message::Bluetooth(BluetoothEvent::Connected("AA".to_string())), 0);
    assert_eq!(app.connected_device.as_ref().unwrap().model.name, "Nothing Ear (1)");
    app.update(Message::IdentificationTimeout, 0);
    assert!(matches!(&app.state, AppState::Connected(m) if m.base == "B181"));
    let a = app.update(Message::IdentificationTimeout, 0);
    assert!(a.is_empty());
}

#[test]
fn a_firmware_report_shows_the_version_and_identifies() {
    let mut app = ready();
    app.update(Message::Bluetooth(BluetoothEvent::DeviceDiscovered(device("AA", "CMF Buds", true, false))), 0);
    app.update(Message::Bluetooth(BluetoothEvent::Connected("AA".to_string())), 0);
    packet(&mut app, PacketCommand::RespFirmware, b"\0 V1.0.2 \0".to_vec());
    assert_eq!(app.connected_device.as_ref().unwrap().firmware_version, "v1.0.2");
    assert!(matches!(&app.state, AppState::Connected(m) if m.base == "B168"));
}

#[test]
fn reports_update_the_device_and_end_the_load() {
    let mut app = connected_ear_2();
    let a = packet(&mut app, PacketCommand::RespBattery, vec![3, 0x02, 0x50, 0x03, 0xCA, 0x04, 0x20]);
    assert!(matches!(a[0], Action::UpdateTrayBattery { left: Some(80), case: Some(32), right: Some(74) }));
    packet(&mut app, PacketCommand::RespAnc, vec![0, 0x02]);
    assert_eq!(app.connected_device.as_ref().unwrap().anc_status, 5);
    packet(&mut app, PacketCommand::RespEq, vec![3]);
    assert_eq!(app.connected_device.as_ref().unwrap().eq_mode, EqMode::Voice);
    packet(&mut app, PacketCommand::RespPersonalizedAnc, vec![1]);
    packet(&mut app, PacketCommand::RespInEar, vec![0, 0, 0]);
    packet(&mut app, PacketCommand::RespLatency, vec![1]);
    assert!(app.initial_data_load.is_some());
    packet(&mut app, PacketCommand::RespEnhancedBass, vec![1, 8]);
    assert_eq!(app.connected_device.as_ref().unwrap().bass_level, 4);
    let mut eq = vec![0u8; 45];
    eq[32..36].copy_from_slice(&9.0f32.to_le_bytes());
    eq[6..10].copy_from_slice(&2.0f32.to_le_bytes());
    eq[19..23].copy_from_slice(&(-1.2f32).to_le_bytes());
    assert!(app.initial_data_load.is_some());
    let a = packet(&mut app, PacketCommand::RespCustomEq, eq);
    assert!(a.is_empty());
    assert!(app.initial_data_load.is_none());
    assert_eq!(app.connected_device.as_ref().unwrap().custom_eq, EqLevels { low: 6, mid: 2, high: -1 });
    let d = app.connected_device.as_ref().unwrap();
    assert!(!d.in_ear_enabled);
    assert!(d.latency_low);
    assert!(d.personalized_anc_enabled);
}

#[test]
fn selecting_anc_sends_its_mode_twice() {
    let mut app = connected_ear_2();
    let op = app.operation_id;
    let a = app.update(Message::SetANC(3), 0);
    assert_eq!(sent(&a), vec![
        (PacketCommand::SetAnc, vec![0x01, 0x03, 0x00], op.wrapping_add(1), 0),
        (PacketCommand::SetAnc, vec![0x01, 0x03, 0x00], op.wrapping_add(2), 0),
    ]);
    assert!(app.update(Message::SetANC(3), 0).is_empty());
    let a = app.update(Message::SetANC(9), 0);
    assert_eq!(sent(&a)[0].1, vec![0x01, 0x05, 0x00]);
}

#[test]
fn selecting_a_preset_turns_advanced_eq_off_first() {
    let mut app = connected_ear_2();
    let a = app.update(Message::SetEQ(2), 0);
    let s: Vec<(PacketCommand, Vec<u8>)> = sent(&a).into_iter().map(|x| (x.0, x.1)).collect();
    assert_eq!(s, vec![
        (PacketCommand::SetAdvancedEqEnabled, vec![0, 0]),
        (PacketCommand::SetEq, vec![2, 0]),
    ]);
    assert_eq!(app.connected_device.as_ref().unwrap().eq_mode, EqMode::MoreBass);
}

#[test]
fn bass_controls() {
    let mut app = connected_ear_2();
    let a = app.update(Message::SetBassLevel(9), 0);
    assert_eq!(sent(&a)[0].1, vec![0, 10]);
    let a = app.update(Message::ToggleBassEnhance(true), 0);
    assert_eq!((sent(&a)[0].0, sent(&a)[0].1.clone()), (PacketCommand::SetEnhancedBass, vec![1, 10]));
    let a = app.update(Message::SetBassLevel(0), 0);
    assert_eq!(sent(&a)[0].1, vec![1, 2]);
}

#[test]
fn custom_eq_steps_and_clamps() {
    let mut app = connected_ear_2();
    let a = app.update(Message::IncCustomEQ(0), 0);
    let d = app.connected_device.as_ref().unwrap();
    assert_eq!(d.custom_eq, EqLevels { low: 1, mid: 0, high: 0 });
    assert_eq!(d.eq_mode, EqMode::Custom);
    assert_eq!(d.eq_preset, 5);
    let s = sent(&a);
    assert_eq!(s[0].0, PacketCommand::SetCustomEq);
    assert_eq!(s[0].1, EarNative::build_custom_eq_payload(EqLevels { low: 1, mid: 0, high: 0 }));
    app.update(Message::ScrollCustomEQ(2, -100), 0);
    app.update(Message::SetCustomEQLevel(1, 42), 0);
    assert_eq!(app.connected_device.as_ref().unwrap().custom_eq, EqLevels { low: 1, mid: 6, high: -6 });
    assert!(app.update(Message::DecCustomEQ(3), 0).is_empty());
}

#[test]
fn ringing_needs_confirmation() {
    let mut app = connected_ear_2();
    assert!(app.update(Message::RequestRing(RingTarget::Left), 0).is_empty());
    let a = app.update(Message::ConfirmPendingAction, 0);
    assert_eq!(sent(&a)[0].1, vec![0x02, 0x01]);
    assert!(app.connected_device.as_ref().unwrap().ringing_left);
    assert!(app.pending_confirmation.is_none());
    let a = app.update(Message::StopRing(RingTarget::Left), 0);
    assert_eq!(sent(&a)[0].1, vec![0x02, 0x00]);
    app.update(Message::RequestRing(RingTarget::Both), 0);
    app.update(Message::CancelPendingAction, 0);
    assert!(app.update(Message::ConfirmPendingAction, 0).is_empty());
}

#[test]
fn disconnecting_forgets_the_device() {
    let mut app = connected_ear_2();
    let a = app.update(Message::Disconnect, 0);
    assert!(matches!(a[0], Action::ManagerDisconnect));
    assert!(app.connected_device.is_none());
    assert!(matches!(app.state, AppState::Disconnected));
    let mut app = connected_ear_2();
    app.update(Message::Bluetooth(BluetoothEvent::Error("boom".to_string())), 0);
    assert!(matches!(&app.state, AppState::Error(e) if e == "boom"));
}

#[test]
fn automatic_reconnection_is_rate_limited() {
    let mut app = connected_ear_2();
    app.update(Message::Disconnect, 0);
    let dev = device("AA", "Nothing Ear (2)", true, true);
    let a = app.update(Message::Bluetooth(BluetoothEvent::DeviceDiscovered(dev.clone())), 1_000);
    assert!(matches!(&a[0], Action::ManagerConnect(id) if id == "AA"));
    assert!(matches!(&app.state, AppState::Connecting(s) if s == "system reconnect"));
    app.state = AppState::Disconnected;
    assert!(app.update(Message::Bluetooth(BluetoothEvent::DeviceDiscovered(dev.clone())), 20_000).is_empty());
    let a = app.update(Message::Bluetooth(BluetoothEvent::DeviceDiscovered(dev.clone())), 31_000);
    assert!(matches!(&a[0], Action::ManagerConnect(_)));
    app.state = AppState::Disconnected;
    let other = device("BB", "CMF Buds", true, true);
    assert!(app.update(Message::Bluetooth(BluetoothEvent::DeviceDiscovered(other)), 90_000).len() <= 1);
    assert!(matches!(app.state, AppState::Disconnected));
}

#[test]
fn window_tray_and_ticks() {
    let mut app = ready();
    assert!(app.update(Message::CloseRequested, 0).is_empty());
    app.update(Message::WindowId(true), 0);
    assert!(matches!(app.update(Message::CloseRequested, 0)[0], Action::MinimizeWindow(true)));
    assert!(matches!(app.update(Message::Tray(ear_native::tray::TrayEvent::Show), 0)[0], Action::ShowWindow));
    assert!(matches!(app.update(Message::Tray(ear_native::tray::TrayEvent::Quit), 0)[0], Action::Exit));
    for expected in [1usize, 2, 3, 0, 1] {
        app.update(Message::LoadingTick, 0);
        assert_eq!(app.loading_frame, expected);
    }
    app.update(Message::BluetoothInitializationFailed("no adapter".to_string()), 0);
    assert!(matches!(&app.state, AppState::Error(e) if e == "Bluetooth is disabled. no adapter"));
    assert!(app.bluetooth_init_failed);
}

#[test]
fn battery_refresh_only_when_connected() {
    let mut app = ready();
    assert!(app.update(Message::BatteryRefreshTick, 0).is_empty());
    let mut app = connected_ear_2();
    let a = app.update(Message::BatteryRefreshTick, 0);
    assert_eq!(sent(&a)[0].0, PacketCommand::ReadBattery);
}

#[test]
fn nothing_is_sent_without_the_command_channel() {
    let mut app = EarNative::new();
    app.update(Message::Bluetooth(BluetoothEvent::DeviceDiscovered(device("AA", "Nothing Ear (2)", true, false))), 0);
    let a = app.update(Message::Bluetooth(BluetoothEvent::Connected("AA".to_string())), 0);
    assert!(sent(&a).is_empty());
    assert_eq!(app.operation_id, 4);
    assert!(app.update(Message::Connect("AA".to_string()), 0).is_empty());
}

#[test]
fn device_list_order() {
    let mut app = EarNative::new();
    app.discovered_devices = vec![
        ("03".to_string(), "Speaker".to_string()),
        ("02".to_string(), "CMF Buds".to_string()),
        ("01".to_string(), "alpha".to_string()),
        ("04".to_string(), "Nothing Ear (2)".to_string()),
        ("00".to_string(), "CMF Buds".to_string()),
    ];
    assert_eq!(app.device_order(), vec![4, 1, 3, 2, 0]);
}

#[test]
fn listening_mode_models_use_their_own_command() {
    let mut app = ready();
    app.update(Message::Bluetooth(BluetoothEvent::DeviceDiscovered(device("BB", "CMF Buds", true, false))), 0);
    app.update(Message::Bluetooth(BluetoothEvent::Connected("BB".to_string())), 0);
    app.update(Message::IdentificationTimeout, 0);
    assert!(matches!(&app.state, AppState::Connected(m) if m.base == "B168"));
    let a = app.update(Message::SetEQ(3), 0);
    let s = sent(&a);
    assert_eq!(s.len(), 1);
    assert_eq!((s[0].0, s[0].1.clone()), (PacketCommand::SetListeningMode, vec![3, 0]));
    app.update(Message::IncCustomEQ(1), 0);
    assert_eq!(app.connected_device.as_ref().unwrap().eq_preset, 6);
}

#[test]
fn anc_levels_and_modes_correspond() {
    for level in 1u8..=6 {
        let mode = AncMode::from_u8(anc_proto_for_level(level)).unwrap();
        assert_eq!(anc_level_for_mode(mode), level);
    }
    assert_eq!(anc_proto_for_level(0), 0x05);
    let mut app = connected_ear_2();
    app.update(Message::SetANC(6), 0);
    packet(&mut app, PacketCommand::RespAnc, vec![0, anc_proto_for_level(6)]);
    assert_eq!(app.connected_device.as_ref().unwrap().anc_status, 6);
}

#[test]
fn tables_and_records_survive_a_session() {
    let mut app = connected_ear_2();
    app.update(Message::Bluetooth(BluetoothEvent::DeviceDiscovered(device("BB", "CMF Buds", true, false))), 0);
    app.update(Message::Bluetooth(BluetoothEvent::DeviceDiscovered(device("AA", "Nothing Ear (2)", true, true))), 0);
    app.update(Message::SetEQ(1), 0);
    app.update(Message::Disconnect, 0);
    assert_eq!(app.models.entries.len(), 24);
    assert_eq!(app.sku_map.entries.len(), 60);
    let ids: Vec<&str> = app.config.known_devices.iter().map(|(id, _)| id.as_str()).collect();
    assert_eq!(ids, vec!["AA", "BB"]);
}

#[test]
fn firmware_text_loses_unicode_white_space() {
    let mut app = connected_ear_2();
    let fw = "\u{3000}\tV2.0.1\u{a0}\u{2029}\n".as_bytes().to_vec();
    packet(&mut app, PacketCommand::RespFirmware, fw);
    assert_eq!(app.connected_device.as_ref().unwrap().firmware_version, "v2.0.1");
}

#[test]
fn a_disconnected_app_holds_no_device() {
    let mut app = ready();
    let clean = |a: &EarNative| {
        !matches!(a.state, AppState::Disconnected) || (a.connected_device.is_none() && a.initial_data_load.is_none())
    };
    assert!(clean(&app));
    app.update(Message::Bluetooth(BluetoothEvent::DeviceDiscovered(device("AA", "Nothing Ear (2)", true, false))), 0);
    assert!(clean(&app));
    app.update(Message::Bluetooth(BluetoothEvent::Connected("AA".to_string())), 0);
    packet(&mut app, PacketCommand::RespSku, vec![0x00, 0x17]);
    assert!(app.connected_device.is_some());
    app.update(Message::Bluetooth(BluetoothEvent::Disconnected), 0);
    assert!(matches!(app.state, AppState::Disconnected));
    assert!(clean(&app));
    packet(&mut app, PacketCommand::RespBattery, vec![1, 0x02, 0x50]);
    app.update(Message::BatteryRefreshTick, 0);
    app.update(Message::IdentificationTimeout, 0);
    assert!(clean(&app));
}
