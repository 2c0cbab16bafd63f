//! What the application does with each message, stated over the views.

use vstd::prelude::*;
use crate::app::capabilities::{
    advanced_eq_model, custom_eq_model, ear_tip_model, inferred_key, listening_mode_model,
    personalized_anc_model, eq_mode_or_balanced, ring_payload, with_ringing,
};
use crate::app::commands::{
    auto_connect_spec, custom_eq_payload, decoded_levels, mark_spec, send_all, send_spec, start_load_spec,
    LoadItem,
};
use crate::app::state::{
    ActionView, AppStateView, BluetoothEventView, ConnectedDeviceView, DiscoveredDeviceView,
    EqLevels, MessageView, PendingConfirmation, RingTarget, level_at, with_level,
};
use crate::app::EarNativeView;
use crate::config::{entry_or_default, with_entry, AppConfigView, KnownDeviceView};
use crate::models::{find_from, lookup, ModelInfoView};
use crate::protocol::{
    AncMode, BatteryStatus, EqBandBits, EqMode, PacketCommand, PacketView, ResponseView, parse_response,
};
use crate::text::{lowercase, strip_nuls, trimmed};
use crate::tray::TrayEvent;

verus! {

/// Byte of a boolean flag.
pub open spec fn flag(b: bool) -> u8 {
    if b {
        1
    } else {
        0
    }
}

/// Interface level (1 off, 2 transparent, 3 to 6 noise cancellation low,
/// high, mid and adaptive) of a noise-control mode reported by the device.
pub open spec fn anc_level_of_mode(m: AncMode) -> u8 {
    match m {
        AncMode::Off => 1,
        AncMode::Transparent => 2,
        AncMode::NcLow => 3,
        AncMode::NcHigh => 4,
        AncMode::NcMid => 5,
        AncMode::NcAdaptive => 6,
    }
}

/// Wire code of the noise-control mode selected by interface level `l`; an
/// unknown level selects "off".
pub open spec fn anc_proto(l: u8) -> u8 {
    if l == 1 {
        0x05
    } else if l == 2 {
        0x07
    } else if l == 3 {
        0x03
    } else if l == 4 {
        0x01
    } else if l == 5 {
        0x02
    } else if l == 6 {
        0x04
    } else {
        0x05
    }
}

/// A level clamped to the range -6 to 6 dB.
pub open spec fn clamp_level(v: int) -> i8 {
    if v < -6 {
        -6i8
    } else if v > 6 {
        6i8
    } else {
        v as i8
    }
}

/// Preset number that marks the custom equalizer as active on a model.
pub open spec fn custom_preset(m: ModelInfoView) -> u8 {
    if listening_mode_model(m) {
        6
    } else {
        5
    }
}

/// A bass level clamped to 1 to 5.
pub open spec fn clamp_bass(l: u8) -> u8 {
    if l < 1 {
        1
    } else if l > 5 {
        5
    } else {
        l
    }
}

/// The bass-level byte sent to the device: twice the level, modulo 256.
pub open spec fn bass_byte(l: u8) -> u8 {
    ((l * 2) % 256) as u8
}

/// The state with a new connected device.
pub open spec fn set_device(s: EarNativeView, d: ConnectedDeviceView) -> EarNativeView {
    EarNativeView { connected_device: Some(d), ..s }
}

/// The state after the connection ends, showing `st`.
pub open spec fn reset_spec(s: EarNativeView, st: AppStateView) -> EarNativeView {
    EarNativeView {
        state: st,
        active_model_assets_ready: true,
        connected_device: None,
        initial_data_load: None,
        loading_frame: 0,
        pending_confirmation: None,
        ..s
    }
}

/// Nothing changes and nothing is done.
pub open spec fn idle(s: EarNativeView) -> (EarNativeView, Seq<ActionView>) {
    (s, Seq::empty())
}

/// The device that has just connected at `addr`, assumed to be model `m`.
pub open spec fn new_device(addr: Seq<char>, m: ModelInfoView) -> ConnectedDeviceView {
    ConnectedDeviceView {
        id: addr,
        model: m,
        battery_left: None,
        sku_attempts: 0,
        battery_right: None,
        battery_case: None,
        anc_status: 1,
        eq_mode: EqMode::Balanced,
        eq_preset: 0,
        advanced_eq_enabled: false,
        bass_level: 2,
        bass_enhance_enabled: false,
        ringing_left: false,
        ringing_right: false,
        in_ear_enabled: true,
        latency_low: false,
        personalized_anc_enabled: false,
        firmware_version: "loading..."@,
        custom_eq: EqLevels { low: 0, mid: 0, high: 0 },
        ear_tip_left: None,
        ear_tip_right: None,
        ear_tip_test_running: false,
    }
}

/// The list of seen devices with `id` named `name`: an existing entry is
/// renamed, a new one appended.
pub open spec fn record_device(list: Seq<(Seq<char>, Seq<char>)>, id: Seq<char>, name: Seq<char>) -> Seq<
    (Seq<char>, Seq<char>),
> {
    match find_from(list, id, 0) {
        Some(i) => list.update(i, (list[i].0, name)),
        None => list.push((id, name)),
    }
}

/// Selecting noise-control level `l`.
pub open spec fn set_anc_spec(s: EarNativeView, l: u8) -> (EarNativeView, Seq<ActionView>) {
    match s.connected_device {
        None => idle(s),
        Some(d) => if d.anc_status == l {
            idle(s)
        } else {
            let p = seq![1u8, anc_proto(l), 0u8];
            send_all(
                set_device(s, ConnectedDeviceView { anc_status: l, ..d }),
                seq![(PacketCommand::SetAnc, p, 0u64), (PacketCommand::SetAnc, p, 0u64)],
            )
        },
    }
}

/// Selecting equalizer preset `m`.
pub open spec fn set_eq_spec(s: EarNativeView, m: u8) -> (EarNativeView, Seq<ActionView>) {
    match s.connected_device {
        None => idle(s),
        Some(d) => {
            let s1 = set_device(
                s,
                ConnectedDeviceView {
                    eq_mode: eq_mode_or_balanced(m),
                    eq_preset: m,
                    advanced_eq_enabled: false,
                    ..d
                },
            );
            let cmd = if listening_mode_model(d.model) {
                PacketCommand::SetListeningMode
            } else {
                PacketCommand::SetEq
            };
            if advanced_eq_model(d.model) {
                send_all(
                    s1,
                    seq![
                        (PacketCommand::SetAdvancedEqEnabled, seq![0u8, 0u8], 0u64),
                        (cmd, seq![m, 0u8], 0u64),
                    ],
                )
            } else {
                send_spec(s1, cmd, seq![m, 0u8], 0)
            }
        },
    }
}

/// Switching the advanced equalizer on or off.
pub open spec fn toggle_advanced_spec(s: EarNativeView, e: bool) -> (EarNativeView, Seq<ActionView>) {
    match s.connected_device {
        Some(d) => if advanced_eq_model(d.model) {
            send_spec(
                set_device(s, ConnectedDeviceView { advanced_eq_enabled: e, ..d }),
                PacketCommand::SetAdvancedEqEnabled,
                seq![flag(e), 0u8],
                0,
            )
        } else {
            idle(s)
        },
        None => idle(s),
    }
}

/// Selecting bass level `l`.
pub open spec fn set_bass_spec(s: EarNativeView, l: u8) -> (EarNativeView, Seq<ActionView>) {
    match s.connected_device {
        Some(d) => {
            let lv = clamp_bass(l);
            send_spec(
                set_device(s, ConnectedDeviceView { bass_level: lv, ..d }),
                PacketCommand::SetEnhancedBass,
                seq![flag(d.bass_enhance_enabled), bass_byte(lv)],
                0,
            )
        },
        None => idle(s),
    }
}

/// Switching bass enhancement on or off.
pub open spec fn toggle_bass_spec(s: EarNativeView, e: bool) -> (EarNativeView, Seq<ActionView>) {
    match s.connected_device {
        Some(d) => send_spec(
            set_device(s, ConnectedDeviceView { bass_enhance_enabled: e, ..d }),
            PacketCommand::SetEnhancedBass,
            seq![flag(e), bass_byte(d.bass_level)],
            0,
        ),
        None => idle(s),
    }
}

/// Stopping the buds of `t` from ringing.
pub open spec fn stop_ring_spec(s: EarNativeView, t: RingTarget) -> (EarNativeView, Seq<ActionView>) {
    match s.connected_device {
        Some(d) => send_spec(
            set_device(s, with_ringing(d, t, false)),
            PacketCommand::SetRingBuds,
            ring_payload(d.model, t, false),
            0,
        ),
        None => idle(s),
    }
}

/// Carrying out the action waiting for confirmation.
pub open spec fn confirm_spec(s: EarNativeView) -> (EarNativeView, Seq<ActionView>) {
    match s.pending_confirmation {
        Some(PendingConfirmation::StartRing(t)) => {
            let s0 = EarNativeView { pending_confirmation: None, ..s };
            match s.connected_device {
                Some(d) => send_spec(
                    set_device(s0, with_ringing(d, t, true)),
                    PacketCommand::SetRingBuds,
                    ring_payload(d.model, t, true),
                    0,
                ),
                None => idle(s0),
            }
        },
        None => idle(s),
    }
}

/// Switching personalized noise cancellation on or off.
pub open spec fn set_personalized_spec(s: EarNativeView, e: bool) -> (EarNativeView, Seq<ActionView>) {
    match s.connected_device {
        Some(d) => if personalized_anc_model(d.model) {
            send_spec(
                set_device(s, ConnectedDeviceView { personalized_anc_enabled: e, ..d }),
                PacketCommand::SetPersonalizedAnc,
                seq![flag(e)],
                0,
            )
        } else {
            idle(s)
        },
        None => idle(s),
    }
}

/// Starting the ear-tip fit test.
pub open spec fn start_tip_spec(s: EarNativeView) -> (EarNativeView, Seq<ActionView>) {
    match s.connected_device {
        Some(d) => if ear_tip_model(d.model) {
            send_spec(
                set_device(
                    s,
                    ConnectedDeviceView {
                        ear_tip_left: None,
                        ear_tip_right: None,
                        ear_tip_test_running: true,
                        ..d
                    },
                ),
                PacketCommand::StartEarFitTest,
                seq![1u8],
                0,
            )
        } else {
            idle(s)
        },
        None => idle(s),
    }
}

/// Forgetting the fit-test results.
pub open spec fn reset_tip_spec(s: EarNativeView) -> (EarNativeView, Seq<ActionView>) {
    match s.connected_device {
        Some(d) => idle(
            set_device(
                s,
                ConnectedDeviceView {
                    ear_tip_left: None,
                    ear_tip_right: None,
                    ear_tip_test_running: false,
                    ..d
                },
            ),
        ),
        None => idle(s),
    }
}

/// Switching in-ear detection on or off.
pub open spec fn toggle_in_ear_spec(s: EarNativeView, e: bool) -> (EarNativeView, Seq<ActionView>) {
    match s.connected_device {
        Some(d) => send_spec(
            set_device(s, ConnectedDeviceView { in_ear_enabled: e, ..d }),
            PacketCommand::SetInEar,
            seq![1u8, 1u8, flag(e)],
            0,
        ),
        None => idle(s),
    }
}

/// Switching low-latency mode on or off.
pub open spec fn toggle_latency_spec(s: EarNativeView, e: bool) -> (EarNativeView, Seq<ActionView>) {
    match s.connected_device {
        Some(d) => send_spec(
            set_device(s, ConnectedDeviceView { latency_low: e, ..d }),
            PacketCommand::SetLatency,
            seq![flag(e), 0u8],
            0,
        ),
        None => idle(s),
    }
}

/// Giving custom-equalizer band `i` the new level `v` (already clamped): the
/// custom preset becomes active and the three levels are sent.
pub open spec fn apply_level_spec(s: EarNativeView, d: ConnectedDeviceView, i: int, v: i8) -> (
    EarNativeView,
    Seq<ActionView>,
) {
    let lv = with_level(d.custom_eq, i, v);
    send_spec(
        set_device(
            s,
            ConnectedDeviceView {
                custom_eq: lv,
                eq_mode: EqMode::Custom,
                eq_preset: custom_preset(d.model),
                advanced_eq_enabled: false,
                ..d
            },
        ),
        PacketCommand::SetCustomEq,
        custom_eq_payload(lv),
        0,
    )
}

/// Moving custom-equalizer band `i` by `delta` dB, clamped to -6 to 6.
pub open spec fn eq_delta_spec(s: EarNativeView, i: usize, delta: int) -> (EarNativeView, Seq<ActionView>) {
    match s.connected_device {
        Some(d) => if i < 3 && delta != 0 && custom_eq_model(d.model) {
            apply_level_spec(s, d, i as int, clamp_level(level_at(d.custom_eq, i as int) + delta))
        } else {
            idle(s)
        },
        None => idle(s),
    }
}

/// Setting custom-equalizer band `i` to `level` dB, clamped to -6 to 6.
pub open spec fn set_level_spec(s: EarNativeView, i: usize, level: i8) -> (EarNativeView, Seq<ActionView>) {
    match s.connected_device {
        Some(d) => if i < 3 && custom_eq_model(d.model) {
            apply_level_spec(s, d, i as int, clamp_level(level as int))
        } else {
            idle(s)
        },
        None => idle(s),
    }
}

/// A custom-equalizer report: a model with the custom equalizer takes the
/// levels that the band values stand for, and the report counts as loaded.
pub open spec fn custom_eq_report_spec(s: EarNativeView, b: EqBandBits) -> (EarNativeView, Seq<ActionView>) {
    match s.connected_device {
        Some(d) => {
            let s1 = if custom_eq_model(d.model) {
                set_device(s, ConnectedDeviceView { custom_eq: decoded_levels(b), ..d })
            } else {
                s
            };
            idle(mark_spec(s1, LoadItem::CustomEq))
        },
        None => idle(s),
    }
}

/// Asking for the battery levels again while connected.
pub open spec fn battery_tick_spec(s: EarNativeView) -> (EarNativeView, Seq<ActionView>) {
    if s.connected_device is Some && s.state is Connected {
        send_spec(s, PacketCommand::ReadBattery, Seq::empty(), 0)
    } else {
        idle(s)
    }
}

/// Starting the load of the model with key `key`; nothing happens when the
/// key is missing from the model table.
pub open spec fn load_key_spec(s: EarNativeView, base: EarNativeView, key: Seq<char>) -> (
    EarNativeView,
    Seq<ActionView>,
) {
    match lookup(s.models, key) {
        Some(m) => start_load_spec(base, m),
        None => idle(base),
    }
}

/// Falling back to the model inferred from the device name.
pub open spec fn identification_timeout_spec(s: EarNativeView) -> (EarNativeView, Seq<ActionView>) {
    match s.state {
        AppStateView::Identifying(name) => load_key_spec(s, s, inferred_key(s.models, name)),
        _ => idle(s),
    }
}

/// A device seen by the adapter: it is listed, its name remembered (saving
/// the settings when the name changed), and it may be reconnected to.
pub open spec fn discovered_spec(s: EarNativeView, dev: DiscoveredDeviceView, now: u64) -> (
    EarNativeView,
    Seq<ActionView>,
) {
    let e = entry_or_default(s.config.known_devices, dev.id);
    let s1 = EarNativeView {
        discovered_devices: record_device(s.discovered_devices, dev.id, dev.name),
        config: AppConfigView {
            known_devices: with_entry(
                s.config.known_devices,
                dev.id,
                KnownDeviceView { name: dev.name, ..e },
            ),
            ..s.config
        },
        ..s
    };
    let a1 = if e.name != dev.name {
        seq![ActionView::PersistConfig]
    } else {
        Seq::empty()
    };
    let r = auto_connect_spec(s1, dev, now);
    (r.0, a1 + r.1)
}

/// The reads that identify a device whose model is not remembered.
pub open spec fn identification_reads() -> Seq<(PacketCommand, Seq<u8>, u64)> {
    let e = Seq::<u8>::empty();
    seq![
        (PacketCommand::ReadSku, e, 600u64),
        (PacketCommand::ReadSkuAlt, e, 1000u64),
        (PacketCommand::RespSku, e, 1400u64),
        (PacketCommand::ReadFirmware, e, 1800u64),
    ]
}

/// The remembered model of device `addr`, if it is in the model table.
pub open spec fn cached_model(s: EarNativeView, addr: Seq<char>) -> Option<ModelInfoView> {
    match lookup(s.config.known_devices, addr) {
        Some(e) => match e.model_key {
            Some(k) => lookup(s.models, k),
            None => None,
        },
        None => None,
    }
}

/// A device connected at `addr`: it is shown as being identified under its
/// listed name, remembered as the last connected device (saving the settings
/// when that changed) and assumed to be the model inferred from its name;
/// a remembered model is loaded at once, otherwise its SKU and firmware are
/// asked for and the identification timeout is armed.
pub open spec fn connected_spec(s: EarNativeView, addr: Seq<char>) -> (EarNativeView, Seq<ActionView>) {
    let name = match lookup(s.discovered_devices, addr) {
        Some(n) => n,
        None => "unknown"@,
    };
    let changed = s.config.last_connected_device_id != Some(addr)
        || s.config.last_connected_mac_address != Some(addr);
    let s2 = EarNativeView {
        state: AppStateView::Identifying(name),
        bluetooth_init_failed: false,
        initial_data_load: None,
        loading_frame: 0,
        config: AppConfigView {
            last_connected_device_id: Some(addr),
            last_connected_mac_address: Some(addr),
            ..s.config
        },
        ..s
    };
    let a1 = if changed {
        seq![ActionView::PersistConfig]
    } else {
        Seq::empty()
    };
    match lookup(s.models, inferred_key(s.models, name)) {
        None => (s2, a1),
        Some(m0) => {
            let s3 = set_device(s2, new_device(addr, m0));
            match cached_model(s2, addr) {
                Some(cm) => {
                    let r = start_load_spec(s3, cm);
                    let r2 = send_spec(r.0, PacketCommand::ReadFirmware, Seq::empty(), 1700);
                    (r2.0, a1 + r.1 + r2.1)
                },
                None => {
                    let r = send_all(s3, identification_reads());
                    (r.0, a1 + r.1 + seq![ActionView::ScheduleIdentificationTimeout])
                },
            }
        },
    }
}

/// A SKU report while the device is being identified: an unreadable SKU is
/// asked for again, up to three times; otherwise the model is looked up by
/// SKU (or inferred from the name), remembered for the device (saving the
/// settings when that changed) and loaded.
pub open spec fn sku_spec(s: EarNativeView, sku: Seq<char>, name: Seq<char>) -> (
    EarNativeView,
    Seq<ActionView>,
) {
    let retry = sku == "unknown"@ && (s.connected_device matches Some(d) && d.sku_attempts < 3);
    if retry {
        let d = s.connected_device.unwrap();
        send_spec(
            set_device(s, ConnectedDeviceView { sku_attempts: (d.sku_attempts + 1) as u8, ..d }),
            PacketCommand::ReadSku,
            Seq::empty(),
            300,
        )
    } else {
        let key = match lookup(s.sku_map, sku) {
            Some(k) => k,
            None => inferred_key(s.models, name),
        };
        match lookup(s.models, key) {
            None => idle(s),
            Some(m) => match s.connected_device {
                Some(d) => {
                    let e = entry_or_default(s.config.known_devices, d.id);
                    let n = KnownDeviceView { name: m.name, model_key: Some(key), sku: Some(sku) };
                    let s1 = EarNativeView {
                        config: AppConfigView {
                            known_devices: with_entry(s.config.known_devices, d.id, n),
                            ..s.config
                        },
                        ..s
                    };
                    let r = start_load_spec(s1, m);
                    if n != e {
                        (r.0, seq![ActionView::PersistConfig] + r.1)
                    } else {
                        r
                    }
                },
                None => start_load_spec(s, m),
            },
        }
    }
}

/// Level of an optional battery status.
pub open spec fn level_of(b: Option<BatteryStatus>) -> Option<u8> {
    match b {
        Some(x) => Some(x.level),
        None => None,
    }
}

/// The firmware version as shown: without NULs at either end, trimmed and
/// lower-cased.
pub open spec fn firmware_text(raw: Seq<char>) -> Seq<char> {
    lowercase(trimmed(strip_nuls(raw)))
}

/// A device report, applied to the connected device.
pub open spec fn report_spec(s: EarNativeView, r: ResponseView) -> (EarNativeView, Seq<ActionView>) {
    match s.connected_device {
        None => idle(s),
        Some(d) => match r {
            ResponseView::Battery(b) => {
                let d2 = ConnectedDeviceView {
                    battery_left: level_of(b.left),
                    battery_right: level_of(b.right),
                    battery_case: level_of(b.case),
                    ..d
                };
                (
                    mark_spec(set_device(s, d2), LoadItem::Battery),
                    seq![
                        ActionView::UpdateTrayBattery {
                            left: d2.battery_left,
                            case: d2.battery_case,
                            right: d2.battery_right,
                        },
                    ],
                )
            },
            ResponseView::Anc(m) => idle(
                mark_spec(
                    set_device(s, ConnectedDeviceView { anc_status: anc_level_of_mode(m), ..d }),
                    LoadItem::Anc,
                ),
            ),
            ResponseView::Eq { mode: _, preset } => idle(
                mark_spec(
                    set_device(
                        s,
                        ConnectedDeviceView {
                            eq_preset: preset,
                            eq_mode: eq_mode_or_balanced(preset),
                            advanced_eq_enabled: false,
                            ..d
                        },
                    ),
                    LoadItem::Eq,
                ),
            ),
            ResponseView::PersonalizedAnc(e) => idle(
                mark_spec(
                    set_device(s, ConnectedDeviceView { personalized_anc_enabled: e, ..d }),
                    LoadItem::PersonalizedAnc,
                ),
            ),
            ResponseView::AdvancedEq(e) => idle(
                set_device(s, ConnectedDeviceView { advanced_eq_enabled: e, ..d }),
            ),
            ResponseView::Firmware(fw) => {
                let s1 = set_device(s, ConnectedDeviceView { firmware_version: firmware_text(fw), ..d });
                match s.state {
                    AppStateView::Identifying(name) => load_key_spec(
                        s,
                        s1,
                        inferred_key(s.models, name),
                    ),
                    _ => idle(s1),
                }
            },
            ResponseView::InEar(b) => idle(
                mark_spec(
                    set_device(s, ConnectedDeviceView { in_ear_enabled: b, ..d }),
                    LoadItem::InEar,
                ),
            ),
            ResponseView::Latency(b) => idle(
                mark_spec(
                    set_device(s, ConnectedDeviceView { latency_low: b, ..d }),
                    LoadItem::Latency,
                ),
            ),
            ResponseView::EnhancedBass { enabled, level } => idle(
                mark_spec(
                    set_device(
                        s,
                        ConnectedDeviceView { bass_enhance_enabled: enabled, bass_level: level, ..d },
                    ),
                    LoadItem::EnhancedBass,
                ),
            ),
            ResponseView::CustomEq(bits) => custom_eq_report_spec(s, bits),
            ResponseView::EarFitTest { left, right } => idle(
                set_device(
                    s,
                    ConnectedDeviceView {
                        ear_tip_left: Some(left),
                        ear_tip_right: Some(right),
                        ear_tip_test_running: false,
                        ..d
                    },
                ),
            ),
            _ => idle(s),
        },
    }
}

/// A packet received from the device.
#[verifier::opaque]
pub open spec fn packet_spec(s: EarNativeView, p: PacketView) -> (EarNativeView, Seq<ActionView>) {
    let r = parse_response(p);
    match r {
        ResponseView::Sku(sku) => match s.state {
            AppStateView::Identifying(name) => sku_spec(s, sku, name),
            _ => report_spec(s, r),
        },
        _ => report_spec(s, r),
    }
}

/// An event from the Bluetooth side.
#[verifier::opaque]
pub open spec fn bluetooth_spec(s: EarNativeView, e: BluetoothEventView, now: u64) -> (
    EarNativeView,
    Seq<ActionView>,
) {
    match e {
        BluetoothEventView::DeviceDiscovered(dev) => discovered_spec(s, dev, now),
        BluetoothEventView::Error(err) => idle(reset_spec(s, AppStateView::Error(err))),
        BluetoothEventView::Connected(addr) => connected_spec(s, addr),
        BluetoothEventView::Disconnected => idle(reset_spec(s, AppStateView::Disconnected)),
        BluetoothEventView::PacketReceived(p) => packet_spec(s, p),
    }
}

/// What the application does with message `m` at time `now` (milliseconds):
/// the next state and the actions to perform, in order.
#[verifier::opaque]
pub open spec fn update_spec(s: EarNativeView, m: MessageView, now: u64) -> (
    EarNativeView,
    Seq<ActionView>,
) {
    match m {
        MessageView::ActiveModelAssetsPreloaded => idle(
            EarNativeView { active_model_assets_ready: true, ..s },
        ),
        MessageView::ConfigLoaded(c) => idle(EarNativeView { config: c, ..s }),
        MessageView::ConfigPersisted(_) => idle(s),
        MessageView::Ready => idle(
            EarNativeView { has_command_channel: true, bluetooth_init_failed: false, ..s },
        ),
        MessageView::BluetoothInitializationFailed(err) => idle(
            EarNativeView {
                bluetooth_init_failed: true,
                state: AppStateView::Error("Bluetooth is disabled. "@ + err),
                ..s
            },
        ),
        MessageView::LoadingTick => idle(
            EarNativeView { loading_frame: ((s.loading_frame % 4 + 1) % 4) as usize, ..s },
        ),
        MessageView::InitialDataLoadTimedOut => idle(EarNativeView { initial_data_load: None, ..s }),
        MessageView::IdentificationTimeout => identification_timeout_spec(s),
        MessageView::Bluetooth(e) => bluetooth_spec(s, e, now),
        MessageView::Connect(addr) => (
            EarNativeView {
                state: AppStateView::Connecting("initializing"@),
                active_model_assets_ready: true,
                loading_frame: 0,
                ..s
            },
            if s.has_command_channel {
                seq![ActionView::ManagerConnect(addr)]
            } else {
                Seq::empty()
            },
        ),
        MessageView::Disconnect => (
            reset_spec(s, AppStateView::Disconnected),
            if s.has_command_channel {
                seq![ActionView::ManagerDisconnect]
            } else {
                Seq::empty()
            },
        ),
        MessageView::SetANC(l) => set_anc_spec(s, l),
        MessageView::SetEQ(p) => set_eq_spec(s, p),
        MessageView::ToggleAdvancedEQ(e) => toggle_advanced_spec(s, e),
        MessageView::SetBassLevel(l) => set_bass_spec(s, l),
        MessageView::ToggleBassEnhance(e) => toggle_bass_spec(s, e),
        MessageView::RequestRing(t) => idle(
            EarNativeView { pending_confirmation: Some(PendingConfirmation::StartRing(t)), ..s },
        ),
        MessageView::StopRing(t) => stop_ring_spec(s, t),
        MessageView::ConfirmPendingAction => confirm_spec(s),
        MessageView::CancelPendingAction => idle(EarNativeView { pending_confirmation: None, ..s }),
        MessageView::SetPersonalizedANC(e) => set_personalized_spec(s, e),
        MessageView::StartEarTipTest => start_tip_spec(s),
        MessageView::ResetEarTipTest => reset_tip_spec(s),
        MessageView::ToggleInEar(e) => toggle_in_ear_spec(s, e),
        MessageView::ToggleLatency(e) => toggle_latency_spec(s, e),
        MessageView::IncCustomEQ(i) => eq_delta_spec(s, i, 1),
        MessageView::DecCustomEQ(i) => eq_delta_spec(s, i, -1),
        MessageView::ScrollCustomEQ(i, d) => eq_delta_spec(s, i, d as int),
        MessageView::SetCustomEQLevel(i, l) => set_level_spec(s, i, l),
        MessageView::CommandSent => idle(s),
        MessageView::WindowId(b) => idle(EarNativeView { has_window: b, ..s }),
        MessageView::CloseRequested => (
            s,
            if s.has_window {
                seq![ActionView::MinimizeWindow(true)]
            } else {
                Seq::empty()
            },
        ),
        MessageView::Tray(TrayEvent::Quit) => (s, seq![ActionView::Exit]),
        MessageView::Tray(TrayEvent::Show) => (
            s,
            if s.has_window {
                seq![ActionView::ShowWindow]
            } else {
                Seq::empty()
            },
        ),
        MessageView::Tray(TrayEvent::Hide) => (
            s,
            if s.has_window {
                seq![ActionView::MinimizeWindow(true)]
            } else {
                Seq::empty()
            },
        ),
        MessageView::BatteryRefreshTick => battery_tick_spec(s),
    }
}

} // verus!
