//! Properties of the application state machine that hold across messages.

use vstd::prelude::*;
use crate::app::commands::{send_all, send_spec};

use crate::app::machine::{
    bluetooth_spec, packet_spec, set_device, sku_spec, update_spec,
};
use crate::app::state::{
    levels_in_range, load_complete, ActionView, AppStateView, BluetoothEventView,
    ConnectedDeviceView, DiscoveredDeviceView, InitialDataLoad, MessageView, PendingConfirmation,
    RingTarget,
};
use crate::app::{initial_state, EarNativeView};
use crate::app::machine::{
    anc_level_of_mode, anc_proto, battery_tick_spec, cached_model, confirm_spec,
    identification_timeout_spec, set_anc_spec, set_bass_spec, set_eq_spec, set_personalized_spec,
    start_tip_spec, stop_ring_spec, toggle_advanced_spec, toggle_bass_spec, toggle_in_ear_spec,
    toggle_latency_spec, eq_delta_spec, set_level_spec,
};
use crate::protocol::{device_code, DeviceId};
use crate::app::capabilities::{
    eq_mode_or_balanced, inferred_key, lemma_inferred_key_known, listening_mode_model, load_for_model,
    ring_payload, with_ringing,
};
use crate::app::commands::{initial_reads, mark_spec, start_load_spec, LoadItem};
use crate::config::{
    entry_or_default, keys_unique, lemma_with_entry_lookup, lemma_with_entry_unique, KnownDeviceView,
};
use crate::models::{
    find_from, lemma_find_from, lemma_sku_targets_known, lemma_unknown_sku_not_listed, lookup,
    standard_models, standard_skus, ModelInfoView,
};
use crate::protocol::{anc_of, byte_or_zero, parse_response, AncMode, EqMode, PacketCommand, PacketView, ResponseView};
use crate::components::equalizer::presets_for;

verus! {

/// Sending a list of commands is sending all but the last, then the last:
/// each packet is numbered with the operation number that follows the
/// previous one (wrapping at 256).
pub proof fn lemma_send_all_in_turn(s: EarNativeView, cmds: Seq<(PacketCommand, Seq<u8>, u64)>)
    requires
        cmds.len() > 0,
    ensures
        ({
            let r = send_all(s, cmds.drop_last());
            let c = cmds.last();
            let t = send_spec(r.0, c.0, c.1, c.2);
            send_all(s, cmds) == (t.0, r.1 + t.1)
        }),
{
    let n = cmds.len() as int;
    let r = send_all(s, cmds.drop_last());
    let c = cmds.last();
    let t = send_spec(r.0, c.0, c.1, c.2);
    vstd::arithmetic::div_mod::lemma_add_mod_noop(s.operation_id + (n - 1), 1, 256);
    assert(r.0.operation_id == ((s.operation_id + (n - 1)) % 256) as u8);
    assert(t.0.operation_id == ((s.operation_id + n) % 256) as u8);
    assert(send_all(s, cmds).1 =~= r.1 + t.1);
}

/// A packet from the device changes neither table.
proof fn lemma_packet_keeps_tables(s: EarNativeView, p: PacketView)
    ensures
        packet_spec(s, p).0.models == s.models,
        packet_spec(s, p).0.sku_map == s.sku_map,
{
    reveal(packet_spec);
    match parse_response(p) {
        ResponseView::Sku(sku) => match s.state {
            AppStateView::Identifying(name) => {
                assert(sku_spec(s, sku, name).0.models == s.models);
            },
            _ => {},
        },
        _ => {},
    }
}

/// A Bluetooth event changes neither table.
proof fn lemma_bluetooth_keeps_tables(s: EarNativeView, e: BluetoothEventView, now: u64)
    ensures
        bluetooth_spec(s, e, now).0.models == s.models,
        bluetooth_spec(s, e, now).0.sku_map == s.sku_map,
{
    reveal(bluetooth_spec);
    match e {
        BluetoothEventView::PacketReceived(p) => lemma_packet_keeps_tables(s, p),
        _ => {},
    }
}

/// No message changes the model table or the SKU table.
pub proof fn lemma_update_keeps_tables(s: EarNativeView, m: MessageView, now: u64)
    ensures
        update_spec(s, m, now).0.models == s.models,
        update_spec(s, m, now).0.sku_map == s.sku_map,
{
    match m {
        MessageView::Bluetooth(e) => {
            assert(update_spec(s, m, now) == bluetooth_spec(s, e, now)) by {
                reveal(update_spec);
            }
            lemma_bluetooth_keeps_tables(s, e, now);
        },
        MessageView::IdentificationTimeout => lemma_identification_timeout_frame(s, now),
        MessageView::SetANC(_) | MessageView::SetEQ(_) | MessageView::ToggleAdvancedEQ(_)
        | MessageView::SetBassLevel(_) | MessageView::ToggleBassEnhance(_) | MessageView::StopRing(_)
        | MessageView::ConfirmPendingAction | MessageView::SetPersonalizedANC(_)
        | MessageView::StartEarTipTest | MessageView::ToggleInEar(_) | MessageView::ToggleLatency(_)
        | MessageView::BatteryRefreshTick => lemma_control_frame(s, m, now),
        _ => {
            assert(update_spec(s, m, now).0.models == s.models && update_spec(s, m, now).0.sku_map
                == s.sku_map) by {
                reveal(update_spec);
            }
        },
    }
}

/// The connected device, if any, has every custom-equalizer level within
/// -6 to 6 dB.
pub open spec fn levels_ok(s: EarNativeView) -> bool {
    s.connected_device matches Some(d) ==> levels_in_range(d.custom_eq)
}

proof fn lemma_packet_keeps_levels(s: EarNativeView, p: PacketView)
    requires
        levels_ok(s),
    ensures
        levels_ok(packet_spec(s, p).0),
{
    reveal(packet_spec);
    match parse_response(p) {
        ResponseView::Sku(sku) => match s.state {
            AppStateView::Identifying(name) => {
                assert(levels_ok(sku_spec(s, sku, name).0));
            },
            _ => {},
        },
        _ => {},
    }
}

proof fn lemma_bluetooth_keeps_levels(s: EarNativeView, e: BluetoothEventView, now: u64)
    requires
        levels_ok(s),
    ensures
        levels_ok(bluetooth_spec(s, e, now).0),
{
    reveal(bluetooth_spec);
    match e {
        BluetoothEventView::PacketReceived(p) => lemma_packet_keeps_levels(s, p),
        _ => {},
    }
}

/// Custom-equalizer levels stay within -6 to 6 dB whatever message arrives.
#[verifier::rlimit(30)]
pub proof fn lemma_update_keeps_levels(s: EarNativeView, m: MessageView, now: u64)
    requires
        levels_ok(s),
    ensures
        levels_ok(update_spec(s, m, now).0),
{
    match m {
        MessageView::Bluetooth(e) => {
            assert(update_spec(s, m, now) == bluetooth_spec(s, e, now)) by {
                reveal(update_spec);
            }
            lemma_bluetooth_keeps_levels(s, e, now);
        },
        MessageView::IdentificationTimeout => lemma_identification_timeout_frame(s, now),
        MessageView::SetANC(_) | MessageView::SetEQ(_) | MessageView::ToggleAdvancedEQ(_)
        | MessageView::SetBassLevel(_) | MessageView::ToggleBassEnhance(_) | MessageView::StopRing(_)
        | MessageView::ConfirmPendingAction | MessageView::SetPersonalizedANC(_)
        | MessageView::StartEarTipTest | MessageView::ToggleInEar(_) | MessageView::ToggleLatency(_)
        | MessageView::BatteryRefreshTick => lemma_control_frame(s, m, now),
        _ => {
            assert(levels_ok(update_spec(s, m, now).0)) by {
                reveal(update_spec);
            }
        },
    }
}

proof fn lemma_bluetooth_keeps_loading_frame(s: EarNativeView, e: BluetoothEventView, now: u64)
    requires
        s.loading_frame < 4,
    ensures
        bluetooth_spec(s, e, now).0.loading_frame < 4,
{
    reveal(bluetooth_spec);
    reveal(packet_spec);
    match e {
        BluetoothEventView::PacketReceived(p) => match parse_response(p) {
            ResponseView::Sku(sku) => match s.state {
                AppStateView::Identifying(name) => {
                    assert(sku_spec(s, sku, name).0.loading_frame < 4);
                },
                _ => {},
            },
            _ => {},
        },
        _ => {},
    }
}

/// The loading animation frame stays below 4 whatever message arrives.
pub proof fn lemma_update_keeps_loading_frame(s: EarNativeView, m: MessageView, now: u64)
    requires
        s.loading_frame < 4,
    ensures
        update_spec(s, m, now).0.loading_frame < 4,
{
    match m {
        MessageView::Bluetooth(e) => {
            assert(update_spec(s, m, now) == bluetooth_spec(s, e, now)) by {
                reveal(update_spec);
            }
            lemma_bluetooth_keeps_loading_frame(s, e, now);
        },
        MessageView::IdentificationTimeout => lemma_identification_timeout_frame(s, now),
        MessageView::SetANC(_) | MessageView::SetEQ(_) | MessageView::ToggleAdvancedEQ(_)
        | MessageView::SetBassLevel(_) | MessageView::ToggleBassEnhance(_) | MessageView::StopRing(_)
        | MessageView::ConfirmPendingAction | MessageView::SetPersonalizedANC(_)
        | MessageView::StartEarTipTest | MessageView::ToggleInEar(_) | MessageView::ToggleLatency(_)
        | MessageView::BatteryRefreshTick => lemma_control_frame(s, m, now),
        _ => {
            assert(update_spec(s, m, now).0.loading_frame < 4) by {
                reveal(update_spec);
            }
        },
    }
}

/// Messages that only act on the connected device.
pub open spec fn device_control(m: MessageView) -> bool {
    ||| m is SetANC
    ||| m is SetEQ
    ||| m is ToggleAdvancedEQ
    ||| m is SetBassLevel
    ||| m is ToggleBassEnhance
    ||| m is StopRing
    ||| m is ConfirmPendingAction
    ||| m is SetPersonalizedANC
    ||| m is StartEarTipTest
    ||| m is ToggleInEar
    ||| m is ToggleLatency
    ||| m is BatteryRefreshTick
}

/// `r` differs from `s` at most in the connected device's settings, the
/// operation number and the action awaiting confirmation; the device keeps
/// its address, model and custom-equalizer levels, and stays connected or not
/// connected.
pub open spec fn only_device_settings_change(s: EarNativeView, r: EarNativeView) -> bool {
    &&& r == (EarNativeView {
        connected_device: r.connected_device,
        operation_id: r.operation_id,
        pending_confirmation: r.pending_confirmation,
        ..s
    })
    &&& (r.connected_device is Some <==> s.connected_device is Some)
    &&& r.connected_device matches Some(d2) ==> {
        &&& d2.id == s.connected_device.unwrap().id
        &&& d2.model == s.connected_device.unwrap().model
        &&& d2.custom_eq == s.connected_device.unwrap().custom_eq
    }
}

/// A message that acts on the connected device changes nothing but that
/// device's settings, the operation number and the action awaiting
/// confirmation (see `only_device_settings_change`).
pub proof fn lemma_control_frame(s: EarNativeView, m: MessageView, now: u64)
    requires
        device_control(m),
    ensures
        only_device_settings_change(s, update_spec(s, m, now).0),
{
    if m is SetANC || m is SetEQ || m is ToggleAdvancedEQ {
        lemma_control_frame_0(s, m, now);
    } else if m is SetBassLevel || m is ToggleBassEnhance || m is StopRing {
        lemma_control_frame_1(s, m, now);
    } else if m is ConfirmPendingAction || m is SetPersonalizedANC || m is StartEarTipTest {
        lemma_control_frame_2(s, m, now);
    } else {
        lemma_control_frame_3(s, m, now);
    }
}

proof fn lemma_control_frame_0(s: EarNativeView, m: MessageView, now: u64)
    requires
        m is SetANC || m is SetEQ || m is ToggleAdvancedEQ,
    ensures
        only_device_settings_change(s, update_spec(s, m, now).0),
{
    match m {
        MessageView::SetANC(l) => {
            assert(update_spec(s, m, now) == set_anc_spec(s, l)) by {
                reveal(update_spec);
            }
        },
        MessageView::SetEQ(x) => {
            assert(update_spec(s, m, now) == set_eq_spec(s, x)) by {
                reveal(update_spec);
            }
        },
        MessageView::ToggleAdvancedEQ(e) => {
            assert(update_spec(s, m, now) == toggle_advanced_spec(s, e)) by {
                reveal(update_spec);
            }
        },
        _ => {},
    }
}

proof fn lemma_control_frame_1(s: EarNativeView, m: MessageView, now: u64)
    requires
        m is SetBassLevel || m is ToggleBassEnhance || m is StopRing,
    ensures
        only_device_settings_change(s, update_spec(s, m, now).0),
{
    match m {
        MessageView::SetBassLevel(l) => {
            assert(update_spec(s, m, now) == set_bass_spec(s, l)) by {
                reveal(update_spec);
            }
        },
        MessageView::ToggleBassEnhance(e) => {
            assert(update_spec(s, m, now) == toggle_bass_spec(s, e)) by {
                reveal(update_spec);
            }
        },
        MessageView::StopRing(t) => {
            assert(update_spec(s, m, now) == stop_ring_spec(s, t)) by {
                reveal(update_spec);
            }
        },
        _ => {},
    }
}

proof fn lemma_control_frame_2(s: EarNativeView, m: MessageView, now: u64)
    requires
        m is ConfirmPendingAction || m is SetPersonalizedANC || m is StartEarTipTest,
    ensures
        only_device_settings_change(s, update_spec(s, m, now).0),
{
    match m {
        MessageView::ConfirmPendingAction => {
            assert(update_spec(s, m, now) == confirm_spec(s)) by {
                reveal(update_spec);
            }
        },
        MessageView::SetPersonalizedANC(e) => {
            assert(update_spec(s, m, now) == set_personalized_spec(s, e)) by {
                reveal(update_spec);
            }
        },
        MessageView::StartEarTipTest => {
            assert(update_spec(s, m, now) == start_tip_spec(s)) by {
                reveal(update_spec);
            }
        },
        _ => {},
    }
}

proof fn lemma_control_frame_3(s: EarNativeView, m: MessageView, now: u64)
    requires
        m is ToggleInEar || m is ToggleLatency || m is BatteryRefreshTick,
    ensures
        only_device_settings_change(s, update_spec(s, m, now).0),
{
    match m {
        MessageView::ToggleInEar(e) => {
            assert(update_spec(s, m, now) == toggle_in_ear_spec(s, e)) by {
                reveal(update_spec);
            }
        },
        MessageView::ToggleLatency(e) => {
            assert(update_spec(s, m, now) == toggle_latency_spec(s, e)) by {
                reveal(update_spec);
            }
        },
        MessageView::BatteryRefreshTick => {
            assert(update_spec(s, m, now) == battery_tick_spec(s)) by {
                reveal(update_spec);
            }
        },
        _ => {},
    }
}

/// Starting to load a model changes only what the load shows: the state, the
/// awaited reports, the artwork flag, the connected device's model and the
/// operation number.
pub proof fn lemma_start_load_frame(s: EarNativeView, m: ModelInfoView)
    ensures
        start_load_spec(s, m).0 == (EarNativeView {
            state: AppStateView::Connected(m),
            initial_data_load: Some(load_for_model(m)),
            active_model_assets_ready: false,
            connected_device: match s.connected_device {
                Some(d) => Some(ConnectedDeviceView { model: m, ..d }),
                None => None,
            },
            operation_id: ((s.operation_id + initial_reads(m).len()) % 256) as u8,
            ..s
        }),
{
    let s1 = EarNativeView {
        state: AppStateView::Connected(m),
        initial_data_load: Some(load_for_model(m)),
        active_model_assets_ready: false,
        connected_device: match s.connected_device {
            Some(d) => Some(ConnectedDeviceView { model: m, ..d }),
            None => None,
        },
        ..s
    };
}

/// When identification times out, the inferred model, if the table has it,
/// starts loading; otherwise nothing changes.
proof fn lemma_identification_timeout_frame(s: EarNativeView, now: u64)
    ensures
        update_spec(s, MessageView::IdentificationTimeout, now).0 == match s.state {
            AppStateView::Identifying(name) => match lookup(s.models, inferred_key(s.models, name)) {
                Some(m) => EarNativeView {
                    state: AppStateView::Connected(m),
                    initial_data_load: Some(load_for_model(m)),
                    active_model_assets_ready: false,
                    connected_device: match s.connected_device {
                        Some(d) => Some(ConnectedDeviceView { model: m, ..d }),
                        None => None,
                    },
                    operation_id: ((s.operation_id + initial_reads(m).len()) % 256) as u8,
                    ..s
                },
                None => s,
            },
            _ => s,
        },
{
    assert(update_spec(s, MessageView::IdentificationTimeout, now) == identification_timeout_spec(s))
        by {
        reveal(update_spec);
    }
}

/// Disconnecting, on request or when the link drops, forgets the connected
/// device, the load in progress and any action awaiting confirmation; a
/// request is passed on to the Bluetooth side when the command channel exists.
pub proof fn lemma_disconnect_resets(s: EarNativeView, now: u64)
    ensures
        ({
            let r = update_spec(s, MessageView::Disconnect, now);
            &&& r.0.state == AppStateView::Disconnected
            &&& r.0.connected_device is None
            &&& r.0.initial_data_load is None
            &&& r.0.pending_confirmation is None
            &&& r.1 == if s.has_command_channel {
                seq![ActionView::ManagerDisconnect]
            } else {
                Seq::<ActionView>::empty()
            }
        }),
        ({
            let r = update_spec(
                s,
                MessageView::Bluetooth(BluetoothEventView::Disconnected),
                now,
            );
            &&& r.0.state == AppStateView::Disconnected
            &&& r.0.connected_device is None
            &&& r.0.initial_data_load is None
            &&& r.0.pending_confirmation is None
            &&& r.1 == Seq::<ActionView>::empty()
        }),
{
    reveal(update_spec);
    reveal(bluetooth_spec);
}

/// Selecting the noise-control level the device already has changes nothing
/// and sends nothing.
pub proof fn lemma_same_anc_level_is_quiet(s: EarNativeView, l: u8, now: u64)
    requires
        s.connected_device matches Some(d) && d.anc_status == l,
    ensures
        update_spec(s, MessageView::SetANC(l), now) == (s, Seq::<ActionView>::empty()),
{
    reveal(update_spec);
}

/// Interface levels and device modes correspond one to one: the mode sent for
/// the level shown for a reported mode is that mode, and the level shown for
/// the mode sent for a level from 1 to 6 is that level.
pub proof fn lemma_anc_levels_roundtrip(m: AncMode, l: u8)
    ensures
        anc_of(anc_proto(anc_level_of_mode(m))) == Some(m),
        1 <= l <= 6 ==> (anc_of(anc_proto(l)) matches Some(k) && anc_level_of_mode(k) == l),
{
}

/// A noise-control report of a known mode shows that mode's level.
proof fn lemma_anc_report(s: EarNativeView, p: PacketView, now: u64)
    requires
        s.connected_device is Some,
        p.command == PacketCommand::RespAnc,
        p.payload.len() >= 2,
        anc_of(p.payload[1]) is Some,
    ensures
        update_spec(
            s,
            MessageView::Bluetooth(BluetoothEventView::PacketReceived(p)),
            now,
        ).0.connected_device matches Some(d) && d.anc_status == anc_level_of_mode(
            anc_of(p.payload[1]).unwrap(),
        ),
{
    reveal(update_spec);
    reveal(bluetooth_spec);
    reveal(packet_spec);
    reveal(parse_response);
    assert(byte_or_zero(p.payload, 1) == p.payload[1]);
    assert(parse_response(p) == ResponseView::Anc(anc_of(p.payload[1]).unwrap()));
    assert(update_spec(s, MessageView::Bluetooth(BluetoothEventView::PacketReceived(p)), now)
        == packet_spec(s, p));
}

/// Selecting a new noise-control level sends its mode twice; when the device
/// then reports that mode, the level shown is the one selected.
pub proof fn lemma_anc_select_then_report(s: EarNativeView, l: u8, p: PacketView, now: u64)
    requires
        1 <= l <= 6,
        s.connected_device matches Some(d) && d.anc_status != l,
        p.command == PacketCommand::RespAnc,
        p.payload.len() >= 2,
        p.payload[1] == anc_proto(l),
    ensures
        ({
            let r1 = update_spec(s, MessageView::SetANC(l), now);
            let r2 = update_spec(
                r1.0,
                MessageView::Bluetooth(BluetoothEventView::PacketReceived(p)),
                now,
            );
            &&& r1.0.connected_device matches Some(d) && d.anc_status == l
            &&& r2.0.connected_device matches Some(d) && d.anc_status == l
            &&& r1.1.len() == if s.has_command_channel {
                2int
            } else {
                0int
            }
            &&& forall|k: int|
                0 <= k < r1.1.len() ==> (#[trigger] r1.1[k] matches ActionView::SendPacket {
                    packet,
                    delay_ms: _,
                } && packet.command == PacketCommand::SetAnc && packet.payload == seq![
                    1u8,
                    anc_proto(l),
                    0u8,
                ])
        }),
{
    reveal(update_spec);
    let d = s.connected_device.unwrap();
    let pl = seq![1u8, anc_proto(l), 0u8];
    let s1 = set_device(s, ConnectedDeviceView { anc_status: l, ..d });
    let cmds = seq![(PacketCommand::SetAnc, pl, 0u64), (PacketCommand::SetAnc, pl, 0u64)];
    assert(update_spec(s, MessageView::SetANC(l), now) == send_all(s1, cmds));
    lemma_anc_report(update_spec(s, MessageView::SetANC(l), now).0, p, now);
}

/// With the standard model table, a device that connects is always taken for
/// some model: it becomes the connected device and the last connected device,
/// and it is either loaded at once as its remembered model, or asked for its
/// SKU and firmware with the identification timeout armed.
pub proof fn lemma_connect_assumes_model(s: EarNativeView, addr: Seq<char>, now: u64)
    requires
        s.models == standard_models(),
    ensures
        ({
            let r = update_spec(
                s,
                MessageView::Bluetooth(BluetoothEventView::Connected(addr)),
                now,
            );
            &&& r.0.connected_device matches Some(d) && d.id == addr
            &&& r.0.config.last_connected_device_id == Some(addr)
            &&& match cached_model(s, addr) {
                Some(m) => r.0.state == AppStateView::Connected(m),
                None => r.0.state is Identifying && r.1.len() > 0 && r.1.last()
                    == ActionView::ScheduleIdentificationTimeout,
            }
        }),
{
    reveal(update_spec);
    reveal(bluetooth_spec);
    let name = match lookup(s.discovered_devices, addr) {
        Some(n) => n,
        None => "unknown"@,
    };
    lemma_inferred_key_known(name);
}

/// With the standard tables, a SKU listed in the SKU table identifies a
/// device being identified as the model the table names: that model is
/// loaded, and remembered with its key and the SKU for the connected device.
pub proof fn lemma_sku_identifies_model(
    s: EarNativeView,
    p: PacketView,
    name: Seq<char>,
    sku: Seq<char>,
    now: u64,
)
    requires
        s.models == standard_models(),
        s.sku_map == standard_skus(),
        s.state == AppStateView::Identifying(name),
        parse_response(p) == ResponseView::Sku(sku),
        lookup(standard_skus(), sku) is Some,
    ensures
        ({
            let key = lookup(standard_skus(), sku).unwrap();
            let r = update_spec(
                s,
                MessageView::Bluetooth(BluetoothEventView::PacketReceived(p)),
                now,
            );
            &&& lookup(standard_models(), key) is Some
            &&& r.0.state == AppStateView::Connected(lookup(standard_models(), key).unwrap())
            &&& s.connected_device matches Some(d) ==> lookup(r.0.config.known_devices, d.id)
                == Some(
                KnownDeviceView {
                    name: lookup(standard_models(), key).unwrap().name,
                    model_key: Some(key),
                    sku: Some(sku),
                },
            )
        }),
{
    reveal(update_spec);
    reveal(bluetooth_spec);
    reveal(packet_spec);
    lemma_unknown_sku_not_listed();
    lemma_sku_targets_known();
    lemma_find_from(standard_skus(), sku, 0);
    let j = find_from(standard_skus(), sku, 0).unwrap();
    assert(sku != "unknown"@);
    let key = standard_skus()[j].1;
    assert(find_from(standard_models(), key, 0) is Some);
    assert(update_spec(s, MessageView::Bluetooth(BluetoothEventView::PacketReceived(p)), now)
        == sku_spec(s, sku, name));
    match s.connected_device {
        Some(d) => {
            let m = lookup(standard_models(), key).unwrap();
            lemma_with_entry_lookup(
                s.config.known_devices,
                d.id,
                KnownDeviceView { name: m.name, model_key: Some(key), sku: Some(sku) },
                d.id,
            );
        },
        None => {},
    }
}

/// Once the data of a model starts loading, the load ends when every report
/// has arrived.
pub proof fn lemma_load_completes(s: EarNativeView, m: ModelInfoView)
    ensures
        ({
            let s0 = start_load_spec(s, m).0;
            let s1 = mark_spec(mark_spec(mark_spec(s0, LoadItem::Battery), LoadItem::Anc), LoadItem::Eq);
            let s2 = mark_spec(
                mark_spec(mark_spec(s1, LoadItem::PersonalizedAnc), LoadItem::InEar),
                LoadItem::Latency,
            );
            let s3 = mark_spec(mark_spec(s2, LoadItem::EnhancedBass), LoadItem::CustomEq);
            &&& s0.initial_data_load == Some(load_for_model(m))
            &&& s3.initial_data_load is None
        }),
{
}

/// A load still waiting for the battery report has not ended.
pub proof fn lemma_load_waits_for_battery(l: InitialDataLoad)
    requires
        !l.battery,
    ensures
        !load_complete(l),
{
}

/// After an automatic reconnection, no other is attempted while the
/// connection is under way, nor for 30 seconds.
pub proof fn lemma_auto_connect_once(
    s: EarNativeView,
    dev: DiscoveredDeviceView,
    now: u64,
    dev2: DiscoveredDeviceView,
    now2: u64,
)
    requires
        exists|k: int| 0 <= k < update_spec(
            s,
            MessageView::Bluetooth(BluetoothEventView::DeviceDiscovered(dev)),
            now,
        ).1.len() && (#[trigger] update_spec(
            s,
            MessageView::Bluetooth(BluetoothEventView::DeviceDiscovered(dev)),
            now,
        ).1[k]) is ManagerConnect,
    ensures
        ({
            let r1 = update_spec(
                s,
                MessageView::Bluetooth(BluetoothEventView::DeviceDiscovered(dev)),
                now,
            );
            let r2 = update_spec(
                r1.0,
                MessageView::Bluetooth(BluetoothEventView::DeviceDiscovered(dev2)),
                now2,
            );
            &&& r1.0.last_auto_connect_at == Some(now)
            &&& forall|k: int| 0 <= k < r2.1.len() ==> !(#[trigger] r2.1[k] is ManagerConnect)
        }),
{
    reveal(update_spec);
    reveal(bluetooth_spec);
}

/// Ringing the buds takes a confirmation: the request alone sends nothing,
/// and confirming it rings the chosen buds.
pub proof fn lemma_ring_needs_confirmation(s: EarNativeView, t: RingTarget, now: u64)
    requires
        s.connected_device is Some,
        s.has_command_channel,
    ensures
        ({
            let d = s.connected_device.unwrap();
            let r1 = update_spec(s, MessageView::RequestRing(t), now);
            let r2 = update_spec(r1.0, MessageView::ConfirmPendingAction, now);
            &&& r1.1 == Seq::<ActionView>::empty()
            &&& r1.0.pending_confirmation == Some(PendingConfirmation::StartRing(t))
            &&& r2.0.pending_confirmation is None
            &&& r2.0.connected_device == Some(with_ringing(d, t, true))
            &&& r2.1 == seq![
                ActionView::SendPacket {
                    packet: PacketView {
                        command: PacketCommand::SetRingBuds,
                        payload: ring_payload(d.model, t, true),
                        operation_id: ((s.operation_id + 1) % 256) as u8,
                    },
                    delay_ms: 0,
                },
            ]
        }),
{
    reveal(update_spec);
}

/// A cancelled ring request is not carried out.
pub proof fn lemma_cancelled_ring_is_dropped(s: EarNativeView, t: RingTarget, now: u64)
    ensures
        ({
            let r1 = update_spec(s, MessageView::RequestRing(t), now);
            let r2 = update_spec(r1.0, MessageView::CancelPendingAction, now);
            let r3 = update_spec(r2.0, MessageView::ConfirmPendingAction, now);
            &&& r3.0 == r2.0
            &&& r3.1 == Seq::<ActionView>::empty()
        }),
{
    reveal(update_spec);
}

/// An unreadable SKU is asked for again, 300 ms later, up to three times;
/// after that, with the standard tables, the device is taken for the model
/// inferred from its name.
pub proof fn lemma_unknown_sku_retries(s: EarNativeView, p: PacketView, name: Seq<char>, now: u64)
    requires
        s.state == AppStateView::Identifying(name),
        parse_response(p) == ResponseView::Sku("unknown"@),
        s.connected_device is Some,
    ensures
        ({
            let d = s.connected_device.unwrap();
            let r = update_spec(
                s,
                MessageView::Bluetooth(BluetoothEventView::PacketReceived(p)),
                now,
            );
            &&& d.sku_attempts < 3 ==> {
                &&& r.0.connected_device == Some(
                    ConnectedDeviceView { sku_attempts: (d.sku_attempts + 1) as u8, ..d },
                )
                &&& r.0.state == s.state
                &&& r.1 == if s.has_command_channel {
                    seq![
                        ActionView::SendPacket {
                            packet: PacketView {
                                command: PacketCommand::ReadSku,
                                payload: Seq::empty(),
                                operation_id: ((s.operation_id + 1) % 256) as u8,
                            },
                            delay_ms: 300,
                        },
                    ]
                } else {
                    Seq::<ActionView>::empty()
                }
            }
            &&& (d.sku_attempts >= 3 && s.models == standard_models() && s.sku_map
                == standard_skus()) ==> r.0.state == AppStateView::Connected(
                lookup(standard_models(), inferred_key(standard_models(), name)).unwrap(),
            )
        }),
{
    reveal(update_spec);
    reveal(bluetooth_spec);
    reveal(packet_spec);
    lemma_unknown_sku_not_listed();
    lemma_inferred_key_known(name);
    assert(update_spec(s, MessageView::Bluetooth(BluetoothEventView::PacketReceived(p)), now)
        == sku_spec(s, "unknown"@, name));
}

proof fn lemma_packet_keeps_records_unique(s: EarNativeView, p: PacketView)
    requires
        keys_unique(s.config.known_devices),
    ensures
        keys_unique(packet_spec(s, p).0.config.known_devices),
{
    reveal(packet_spec);
    match parse_response(p) {
        ResponseView::Sku(sku) => match s.state {
            AppStateView::Identifying(name) => {
                match s.connected_device {
                    Some(d) => {
                        let key = match lookup(s.sku_map, sku) {
                            Some(k) => k,
                            None => inferred_key(s.models, name),
                        };
                        match lookup(s.models, key) {
                            Some(m) => lemma_with_entry_unique(
                                s.config.known_devices,
                                d.id,
                                KnownDeviceView { name: m.name, model_key: Some(key), sku: Some(sku) },
                            ),
                            None => {},
                        }
                    },
                    None => {},
                }
                assert(keys_unique(sku_spec(s, sku, name).0.config.known_devices));
            },
            _ => {},
        },
        _ => {},
    }
}

proof fn lemma_bluetooth_keeps_records_unique(s: EarNativeView, e: BluetoothEventView, now: u64)
    requires
        keys_unique(s.config.known_devices),
    ensures
        keys_unique(bluetooth_spec(s, e, now).0.config.known_devices),
{
    reveal(bluetooth_spec);
    match e {
        BluetoothEventView::PacketReceived(p) => lemma_packet_keeps_records_unique(s, p),
        BluetoothEventView::DeviceDiscovered(dev) => {
            let ent = entry_or_default(s.config.known_devices, dev.id);
            lemma_with_entry_unique(
                s.config.known_devices,
                dev.id,
                KnownDeviceView { name: dev.name, ..ent },
            );
        },
        _ => {},
    }
}

/// The settings keep at most one record per device whatever message
/// arrives, provided that settings read from disk have that property.
pub proof fn lemma_update_keeps_records_unique(s: EarNativeView, m: MessageView, now: u64)
    requires
        keys_unique(s.config.known_devices),
        m matches MessageView::ConfigLoaded(c) ==> keys_unique(c.known_devices),
    ensures
        keys_unique(update_spec(s, m, now).0.config.known_devices),
{
    match m {
        MessageView::Bluetooth(e) => {
            assert(update_spec(s, m, now) == bluetooth_spec(s, e, now)) by {
                reveal(update_spec);
            }
            lemma_bluetooth_keeps_records_unique(s, e, now);
        },
        MessageView::IdentificationTimeout => lemma_identification_timeout_frame(s, now),
        MessageView::SetANC(_) | MessageView::SetEQ(_) | MessageView::ToggleAdvancedEQ(_)
        | MessageView::SetBassLevel(_) | MessageView::ToggleBassEnhance(_) | MessageView::StopRing(_)
        | MessageView::ConfirmPendingAction | MessageView::SetPersonalizedANC(_)
        | MessageView::StartEarTipTest | MessageView::ToggleInEar(_) | MessageView::ToggleLatency(_)
        | MessageView::BatteryRefreshTick => lemma_control_frame(s, m, now),
        _ => {
            assert(keys_unique(update_spec(s, m, now).0.config.known_devices)) by {
                reveal(update_spec);
            }
        },
    }
}

/// A disconnected application has no connected device and no load in
/// progress.
pub open spec fn disconnected_clean(s: EarNativeView) -> bool {
    s.state is Disconnected ==> s.connected_device is None && s.initial_data_load is None
}

proof fn lemma_bluetooth_keeps_disconnected_clean(s: EarNativeView, e: BluetoothEventView, now: u64)
    requires
        disconnected_clean(s),
    ensures
        disconnected_clean(bluetooth_spec(s, e, now).0),
{
    reveal(bluetooth_spec);
    reveal(packet_spec);
    match e {
        BluetoothEventView::PacketReceived(p) => match parse_response(p) {
            ResponseView::Sku(sku) => match s.state {
                AppStateView::Identifying(name) => {
                    assert(disconnected_clean(sku_spec(s, sku, name).0));
                },
                _ => {},
            },
            _ => {},
        },
        _ => {},
    }
}

/// A new application is disconnected with no device and no load in progress;
/// whatever message arrives, a disconnected application has no connected
/// device and no load in progress, provided that it had none before.
pub proof fn lemma_update_keeps_disconnected_clean(s: EarNativeView, m: MessageView, now: u64)
    requires
        disconnected_clean(s),
    ensures
        disconnected_clean(initial_state()),
        disconnected_clean(update_spec(s, m, now).0),
{
    match m {
        MessageView::Bluetooth(e) => {
            assert(update_spec(s, m, now) == bluetooth_spec(s, e, now)) by {
                reveal(update_spec);
            }
            lemma_bluetooth_keeps_disconnected_clean(s, e, now);
        },
        MessageView::IdentificationTimeout => lemma_identification_timeout_frame(s, now),
        MessageView::SetANC(_) | MessageView::SetEQ(_) | MessageView::ToggleAdvancedEQ(_)
        | MessageView::SetBassLevel(_) | MessageView::ToggleBassEnhance(_) | MessageView::StopRing(_)
        | MessageView::ConfirmPendingAction | MessageView::SetPersonalizedANC(_)
        | MessageView::StartEarTipTest | MessageView::ToggleInEar(_) | MessageView::ToggleLatency(_)
        | MessageView::BatteryRefreshTick => lemma_control_frame(s, m, now),
        _ => {
            assert(disconnected_clean(update_spec(s, m, now).0)) by {
                reveal(update_spec);
            }
        },
    }
}

/// The packet `cmd` with `payload`, numbered with the operation number that
/// follows the current one and sent at once, when the command channel exists.
pub open spec fn one_send(s: EarNativeView, cmd: PacketCommand, payload: Seq<u8>) -> Seq<ActionView> {
    if s.has_command_channel {
        seq![
            ActionView::SendPacket {
                packet: PacketView {
                    command: cmd,
                    payload,
                    operation_id: ((s.operation_id + 1) % 256) as u8,
                },
                delay_ms: 0,
            },
        ]
    } else {
        Seq::empty()
    }
}

/// The on/off byte of a switch command.
pub open spec fn on_off(e: bool) -> u8 {
    if e {
        1
    } else {
        0
    }
}

/// The switches of a connected device: each sends exactly one command and
/// the device then shows the new setting. Low latency sends `SetLatency`
/// with `[on/off, 0]`; in-ear detection `SetInEar` with `[1, 1, on/off]`;
/// bass enhancement `SetEnhancedBass` with `[on/off, 2 * bass level]`; a bass
/// level `l` is held within 1 to 5 and sent as `[enhancement on/off, 2 * l]`.
pub proof fn lemma_switch_commands(s: EarNativeView, e: bool, l: u8, now: u64)
    requires
        s.connected_device is Some,
    ensures
        ({
            let d = s.connected_device.unwrap();
            let lat = update_spec(s, MessageView::ToggleLatency(e), now);
            let ear = update_spec(s, MessageView::ToggleInEar(e), now);
            let bass = update_spec(s, MessageView::ToggleBassEnhance(e), now);
            let lvl = update_spec(s, MessageView::SetBassLevel(l), now);
            let held: u8 = if l < 1 {
                1
            } else if l > 5 {
                5
            } else {
                l
            };
            &&& lat.1 == one_send(s, PacketCommand::SetLatency, seq![on_off(e), 0u8])
            &&& lat.0.connected_device.unwrap().latency_low == e
            &&& ear.1 == one_send(s, PacketCommand::SetInEar, seq![1u8, 1u8, on_off(e)])
            &&& ear.0.connected_device.unwrap().in_ear_enabled == e
            &&& bass.1 == one_send(
                s,
                PacketCommand::SetEnhancedBass,
                seq![on_off(e), ((2 * d.bass_level) % 256) as u8],
            )
            &&& bass.0.connected_device.unwrap().bass_enhance_enabled == e
            &&& lvl.1 == one_send(
                s,
                PacketCommand::SetEnhancedBass,
                seq![on_off(d.bass_enhance_enabled), (2 * held) as u8],
            )
            &&& lvl.0.connected_device.unwrap().bass_level == held
        }),
{
    let d = s.connected_device.unwrap();
    assert(update_spec(s, MessageView::ToggleLatency(e), now) == toggle_latency_spec(s, e)) by {
        reveal(update_spec);
    }
    assert(update_spec(s, MessageView::ToggleInEar(e), now) == toggle_in_ear_spec(s, e)) by {
        reveal(update_spec);
    }
    assert(update_spec(s, MessageView::ToggleBassEnhance(e), now) == toggle_bass_spec(s, e)) by {
        reveal(update_spec);
    }
    assert(update_spec(s, MessageView::SetBassLevel(l), now) == set_bass_spec(s, l)) by {
        reveal(update_spec);
    }
}

/// Changing a custom-equalizer band of a model that has the custom equalizer
/// makes the custom preset the device's preset: 6 on the B172 and B168
/// families and 5 on the others, in either case the preset listed as
/// "custom" for the model; the equalizer mode becomes custom and the advanced
/// equalizer off.
pub proof fn lemma_band_change_selects_custom(s: EarNativeView, i: usize, l: i8, now: u64)
    requires
        s.connected_device is Some,
        s.connected_device.unwrap().model.base != "B181"@,
        i < 3,
    ensures
        ({
            let m = s.connected_device.unwrap().model;
            let custom: u8 = if m.base == "B172"@ || m.base == "B168"@ {
                6
            } else {
                5
            };
            &&& forall|msg: MessageView|
                (msg == MessageView::IncCustomEQ(i) || msg == MessageView::DecCustomEQ(i)
                    || msg == MessageView::SetCustomEQLevel(i, l)) ==> {
                    let d2 = (#[trigger] update_spec(s, msg, now)).0.connected_device.unwrap();
                    &&& d2.eq_preset == custom
                    &&& d2.eq_mode == EqMode::Custom
                    &&& !d2.advanced_eq_enabled
                }
            &&& exists|k: int|
                0 <= k < presets_for(m).len() && #[trigger] presets_for(m)[k] == (custom, "custom"@)
        }),
{
    let m = s.connected_device.unwrap().model;
    assert(update_spec(s, MessageView::IncCustomEQ(i), now) == eq_delta_spec(s, i, 1)) by {
        reveal(update_spec);
    }
    assert(update_spec(s, MessageView::DecCustomEQ(i), now) == eq_delta_spec(s, i, -1)) by {
        reveal(update_spec);
    }
    assert(update_spec(s, MessageView::SetCustomEQLevel(i, l), now) == set_level_spec(s, i, l)) by {
        reveal(update_spec);
    }
    if m.base == "B172"@ || m.base == "B168"@ {
        assert(presets_for(m)[6] == (6u8, "custom"@));
    } else {
        assert(presets_for(m)[4] == (5u8, "custom"@));
    }
}

/// The reads sent to a freshly identified model: the battery at 100 ms, the
/// noise control at 300 ms, and at 500 ms the listening mode on the B172 and
/// B168 families and the equalizer on every other; those families are never
/// asked for the equalizer and the others never for the listening mode.
/// Personalized noise cancellation is read only on the B155 family, and the
/// custom equalizer on every family but B181.
pub proof fn lemma_initial_reads_by_family(m: ModelInfoView)
    ensures
        ({
            let r = initial_reads(m);
            let listening = m.base == "B172"@ || m.base == "B168"@;
            let e = Seq::<u8>::empty();
            &&& r[0] == (PacketCommand::ReadBattery, e, 100u64)
            &&& r[1] == (PacketCommand::ReadAnc, e, 300u64)
            &&& r[2] == (if listening {
                PacketCommand::ReadListeningMode
            } else {
                PacketCommand::ReadEq
            }, e, 500u64)
            &&& forall|k: int|
                0 <= k < r.len() ==> (#[trigger] r[k]).0 != (if listening {
                    PacketCommand::ReadEq
                } else {
                    PacketCommand::ReadListeningMode
                })
            &&& (exists|k: int| 0 <= k < r.len() && (#[trigger] r[k]).0 == PacketCommand::ReadPersonalizedAnc)
                <==> m.base == "B155"@
            &&& (exists|k: int| 0 <= k < r.len() && #[trigger] r[k] == (PacketCommand::ReadCustomEq, e, 1500u64))
                <==> m.base != "B181"@
        }),
{
    let r = initial_reads(m);
    let e = Seq::<u8>::empty();
    if m.base == "B155"@ {
        assert(r[3].0 == PacketCommand::ReadPersonalizedAnc);
    }
    if m.base != "B181"@ {
        assert(r[r.len() - 1] == (PacketCommand::ReadCustomEq, e, 1500u64));
    }
}

/// The packets `a` and then `b`, numbered with the two operation numbers that
/// follow the current one and sent at once, when the command channel exists.
pub open spec fn two_sends(
    s: EarNativeView,
    a: (PacketCommand, Seq<u8>),
    b: (PacketCommand, Seq<u8>),
) -> Seq<ActionView> {
    if s.has_command_channel {
        seq![
            ActionView::SendPacket {
                packet: PacketView {
                    command: a.0,
                    payload: a.1,
                    operation_id: ((s.operation_id + 1) % 256) as u8,
                },
                delay_ms: 0,
            },
            ActionView::SendPacket {
                packet: PacketView {
                    command: b.0,
                    payload: b.1,
                    operation_id: ((s.operation_id + 2) % 256) as u8,
                },
                delay_ms: 0,
            },
        ]
    } else {
        Seq::empty()
    }
}

/// Byte that selects noise-control level `l` on the device: 1 off (5),
/// 2 transparent (7), 3 low (3), 4 high (1), 5 mid (2), 6 adaptive (4).
pub open spec fn anc_wire_byte(l: u8) -> u8 {
    if l == 2 {
        7
    } else if l == 3 {
        3
    } else if l == 4 {
        1
    } else if l == 5 {
        2
    } else if l == 6 {
        4
    } else {
        5
    }
}

/// Commands that choose a mode of a connected device. A new noise-control
/// level is sent twice as `SetAnc` with `[1, byte, 0]`, and the level the
/// device already has sends nothing. An equalizer preset `p` goes out as
/// `SetListeningMode` on the B172 and B168 families and as `SetEq` on the
/// others, with `[p, 0]`, after switching the advanced equalizer off
/// (`SetAdvancedEqEnabled` with `[0, 0]`) on the B157, B155, B171 and B174
/// families. Personalized noise cancellation is sent as `[on/off]` on the
/// B155 family only; the fit test starts with `[1]` on the B155, B171, B172
/// and B162 families only.
pub proof fn lemma_mode_commands(s: EarNativeView, l: u8, p: u8, e: bool, now: u64)
    requires
        s.connected_device is Some,
    ensures
        ({
            let d = s.connected_device.unwrap();
            let b = d.model.base;
            let anc = update_spec(s, MessageView::SetANC(l), now);
            let eq = update_spec(s, MessageView::SetEQ(p), now);
            let cmd = if b == "B172"@ || b == "B168"@ {
                PacketCommand::SetListeningMode
            } else {
                PacketCommand::SetEq
            };
            let adv = b == "B157"@ || b == "B155"@ || b == "B171"@ || b == "B174"@;
            &&& d.anc_status != l ==> anc.1 == two_sends(
                s,
                (PacketCommand::SetAnc, seq![1u8, anc_wire_byte(l), 0u8]),
                (PacketCommand::SetAnc, seq![1u8, anc_wire_byte(l), 0u8]),
            ) && anc.0.connected_device.unwrap().anc_status == l
            &&& d.anc_status == l ==> anc.1.len() == 0
            &&& adv ==> eq.1 == two_sends(
                s,
                (PacketCommand::SetAdvancedEqEnabled, seq![0u8, 0u8]),
                (cmd, seq![p, 0u8]),
            )
            &&& !adv ==> eq.1 == one_send(s, cmd, seq![p, 0u8])
            &&& eq.0.connected_device.unwrap().eq_preset == p
            &&& update_spec(s, MessageView::SetPersonalizedANC(e), now).1 == (if b == "B155"@ {
                one_send(s, PacketCommand::SetPersonalizedAnc, seq![on_off(e)])
            } else {
                Seq::empty()
            })
            &&& update_spec(s, MessageView::StartEarTipTest, now).1 == (if b == "B155"@ || b == "B171"@
                || b == "B172"@ || b == "B162"@ {
                one_send(s, PacketCommand::StartEarFitTest, seq![1u8])
            } else {
                Seq::empty()
            })
        }),
{
    assert(update_spec(s, MessageView::SetANC(l), now) == set_anc_spec(s, l)) by {
        reveal(update_spec);
    }
    assert(update_spec(s, MessageView::SetEQ(p), now) == set_eq_spec(s, p)) by {
        reveal(update_spec);
    }
    assert(update_spec(s, MessageView::SetPersonalizedANC(e), now) == set_personalized_spec(s, e))
        by {
        reveal(update_spec);
    }
    assert(update_spec(s, MessageView::StartEarTipTest, now) == start_tip_spec(s)) by {
        reveal(update_spec);
    }
    assert(anc_proto(l) == anc_wire_byte(l));
}

/// Bytes of a ring command for the family `base`: `[on]` on the B181 family,
/// otherwise the part code (2 for the left bud, 3 for the right one and for
/// both) followed by `[on]`.
pub open spec fn ring_bytes(base: Seq<char>, t: RingTarget, on: u8) -> Seq<u8> {
    if base == "B181"@ {
        seq![on]
    } else {
        seq![
            match t {
                RingTarget::Left => 2u8,
                _ => 3u8,
            },
            on,
        ]
    }
}

/// Ringing, once confirmed, sends `SetRingBuds` with the ring bytes and on
/// set to 1; stopping sends the same with 0.
pub proof fn lemma_ring_commands(s: EarNativeView, t: RingTarget, now: u64)
    requires
        s.connected_device is Some,
    ensures
        ({
            let b = s.connected_device.unwrap().model.base;
            let asked = update_spec(s, MessageView::RequestRing(t), now).0;
            &&& update_spec(asked, MessageView::ConfirmPendingAction, now).1 == one_send(
                asked,
                PacketCommand::SetRingBuds,
                ring_bytes(b, t, 1),
            )
            &&& update_spec(s, MessageView::StopRing(t), now).1 == one_send(
                s,
                PacketCommand::SetRingBuds,
                ring_bytes(b, t, 0),
            )
        }),
{
    let asked = update_spec(s, MessageView::RequestRing(t), now).0;
    assert(asked == EarNativeView { pending_confirmation: Some(PendingConfirmation::StartRing(t)), ..s })
        by {
        reveal(update_spec);
    }
    assert(update_spec(asked, MessageView::ConfirmPendingAction, now) == confirm_spec(asked)) by {
        reveal(update_spec);
    }
    assert(update_spec(s, MessageView::StopRing(t), now) == stop_ring_spec(s, t)) by {
        reveal(update_spec);
    }
    assert(device_code(DeviceId::Left) == 2 && device_code(DeviceId::Right) == 3);
}

} // verus!
