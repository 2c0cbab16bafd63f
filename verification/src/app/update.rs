use vstd::prelude::*;
use crate::app::capabilities::{base_is, eq_mode_or_balanced, inferred_key};
use crate::app::commands::{cmds_view, decode_levels, LoadItem};
use crate::app::machine::{
    anc_level_of_mode, anc_proto, apply_level_spec, battery_tick_spec, clamp_level, confirm_spec,
    custom_eq_report_spec, custom_preset, eq_delta_spec, flag, reset_spec, set_device, reset_tip_spec,
    set_anc_spec, set_bass_spec, set_eq_spec, set_level_spec, set_personalized_spec,
    start_tip_spec, stop_ring_spec, toggle_advanced_spec, toggle_bass_spec, toggle_in_ear_spec,
    toggle_latency_spec, level_of, identification_reads, record_device, discovered_spec,
    load_key_spec, cached_model, connected_spec, identification_timeout_spec, sku_spec,
    report_spec, packet_spec, bluetooth_spec, update_spec,
};
use crate::app::state::{
    actions_view, Action, ActionView, AppState, ConnectedDevice, ConnectedDeviceView, EqLevels, Message,
    PendingConfirmation, RingTarget, discovered_view, event_view,
};
use crate::app::{pairs_view, EarNative, EarNativeView};
use crate::bluetooth::{BluetoothEvent, DiscoveredDevice, ManagerCommand};
use crate::models::{find_from, lemma_find_from, lookup, ModelInfo};
use crate::protocol::{
    AncMode, BatteryStatus, DeviceBattery, EqBandBits, EqMode, Packet, PacketCommand, ParsedResponse, ResponseView,
};
use crate::text::{owned, str_eq, to_lower, trim_nul, trim_ws};
use crate::tray::TrayEvent;
use vstd::string::*;

verus! {

/// No actions.
fn no_actions() -> (r: Vec<Action>)
    ensures
        actions_view(r@) == Seq::<ActionView>::empty(),
{
    let r: Vec<Action> = Vec::new();
    proof {
        assert(actions_view(r@) =~= Seq::<ActionView>::empty());
    }
    r
}

/// One action.
fn one_action(a: Action) -> (r: Vec<Action>)
    ensures
        actions_view(r@) == seq![a@],
{
    let mut r: Vec<Action> = Vec::new();
    r.push(a);
    proof {
        assert(actions_view(r@) =~= seq![a@]);
    }
    r
}

/// The actions of `a` followed by those of `b`.
fn concat_actions(a: Vec<Action>, b: Vec<Action>) -> (r: Vec<Action>)
    ensures
        actions_view(r@) == actions_view(a@) + actions_view(b@),
{
    let mut a = a;
    let mut b = b;
    let ghost av = a@;
    let ghost bv = b@;
    a.append(&mut b);
    proof {
        assert(actions_view(a@) =~= actions_view(av) + actions_view(bv));
    }
    a
}

fn bytes1(a: u8) -> (r: Vec<u8>)
    ensures
        r@ == seq![a],
{
    let mut v: Vec<u8> = Vec::new();
    v.push(a);
    proof {
        assert(v@ =~= seq![a]);
    }
    v
}

fn bytes2(a: u8, b: u8) -> (r: Vec<u8>)
    ensures
        r@ == seq![a, b],
{
    let mut v: Vec<u8> = Vec::new();
    v.push(a);
    v.push(b);
    proof {
        assert(v@ =~= seq![a, b]);
    }
    v
}

fn bytes3(a: u8, b: u8, c: u8) -> (r: Vec<u8>)
    ensures
        r@ == seq![a, b, c],
{
    let mut v: Vec<u8> = Vec::new();
    v.push(a);
    v.push(b);
    v.push(c);
    proof {
        assert(v@ =~= seq![a, b, c]);
    }
    v
}

fn flag_byte(b: bool) -> (r: u8)
    ensures
        r == flag(b),
{
    if b {
        1
    } else {
        0
    }
}

/// Wire code of the noise-control mode selected by interface level `l`.
pub fn anc_proto_for_level(l: u8) -> (r: u8)
    ensures
        r == anc_proto(l),
{
    match l {
        1 => 0x05,
        2 => 0x07,
        3 => 0x03,
        4 => 0x01,
        5 => 0x02,
        6 => 0x04,
        _ => 0x05,
    }
}

/// Interface level of a noise-control mode reported by the device.
pub fn anc_level_for_mode(m: AncMode) -> (r: u8)
    ensures
        r == anc_level_of_mode(m),
{
    match m {
        AncMode::Off => 1,
        AncMode::Transparent => 2,
        AncMode::NcLow => 3,
        AncMode::NcHigh => 4,
        AncMode::NcMid => 5,
        AncMode::NcAdaptive => 6,
    }
}

fn clamp_level_exec(v: i16) -> (r: i8)
    ensures
        r == clamp_level(v as int),
{
    if v < -6 {
        -6
    } else if v > 6 {
        6
    } else {
        v as i8
    }
}

fn custom_preset_exec(model: &crate::models::ModelInfo) -> (r: u8)
    ensures
        r == custom_preset(model@),
{
    if base_is(model, "B172") || base_is(model, "B168") {
        6
    } else {
        5
    }
}

impl EarNative {
    fn reset(&mut self, st: AppState)
        ensures
            final(self)@ == reset_spec(old(self)@, st@),
    {
        self.state = st;
        self.active_model_assets_ready = true;
        self.connected_device = None;
        self.initial_data_load = None;
        self.loading_frame = 0;
        self.pending_confirmation = None;
    }

    fn set_anc(&mut self, l: u8) -> (r: Vec<Action>)
        ensures
            (final(self)@, actions_view(r@)) == set_anc_spec(old(self)@, l),
    {
        let go = match &mut self.connected_device {
            Some(d) => {
                if d.anc_status == l {
                    false
                } else {
                    d.anc_status = l;
                    true
                }
            },
            None => false,
        };
        if !go {
            return no_actions();
        }
        let proto = anc_proto_for_level(l);
        let mut cmds: Vec<(PacketCommand, Vec<u8>, u64)> = Vec::new();
        cmds.push((PacketCommand::SetAnc, bytes3(1, proto, 0), 0));
        cmds.push((PacketCommand::SetAnc, bytes3(1, proto, 0), 0));
        proof {
            let p = seq![1u8, anc_proto(l), 0u8];
            assert(cmds_view(cmds@) =~= seq![
                (PacketCommand::SetAnc, p, 0u64),
                (PacketCommand::SetAnc, p, 0u64),
            ]);
        }
        self.send_batch(cmds)
    }

    /// Records preset `m` as selected on the connected device.
    fn select_preset(&mut self, m: u8)
        ensures
            final(self)@ == match old(self)@.connected_device {
                Some(d) => set_device(
                    old(self)@,
                    ConnectedDeviceView {
                        eq_mode: eq_mode_or_balanced(m),
                        eq_preset: m,
                        advanced_eq_enabled: false,
                        ..d
                    },
                ),
                None => old(self)@,
            },
    {
        match &mut self.connected_device {
            Some(d) => {
                d.eq_mode = EarNative::eq_mode_from_raw(m);
                d.eq_preset = m;
                d.advanced_eq_enabled = false;
            },
            None => {},
        }
    }

    fn set_eq(&mut self, m: u8) -> (r: Vec<Action>)
        ensures
            (final(self)@, actions_view(r@)) == set_eq_spec(old(self)@, m),
    {
        let info = match &self.connected_device {
            Some(d) => Some(
                (
                    EarNative::eq_command_for_model(&d.model),
                    EarNative::supports_advanced_eq(&d.model),
                ),
            ),
            None => None,
        };
        self.select_preset(m);
        match info {
            None => no_actions(),
            Some((cmd, adv)) => {
                if adv {
                    let mut cmds: Vec<(PacketCommand, Vec<u8>, u64)> = Vec::new();
                    cmds.push((PacketCommand::SetAdvancedEqEnabled, bytes2(0, 0), 0));
                    cmds.push((cmd, bytes2(m, 0), 0));
                    proof {
                        assert(cmds_view(cmds@) =~= seq![
                            (PacketCommand::SetAdvancedEqEnabled, seq![0u8, 0u8], 0u64),
                            (cmd, seq![m, 0u8], 0u64),
                        ]);
                    }
                    self.send_batch(cmds)
                } else {
                    self.send_command(cmd, bytes2(m, 0))
                }
            },
        }
    }

    fn toggle_advanced_eq(&mut self, e: bool) -> (r: Vec<Action>)
        ensures
            (final(self)@, actions_view(r@)) == toggle_advanced_spec(old(self)@, e),
    {
        let go = match &self.connected_device {
            Some(d) => EarNative::supports_advanced_eq(&d.model),
            None => false,
        };
        if !go {
            return no_actions();
        }
        match &mut self.connected_device {
            Some(d) => {
                d.advanced_eq_enabled = e;
            },
            None => {},
        }
        self.send_command(PacketCommand::SetAdvancedEqEnabled, bytes2(flag_byte(e), 0))
    }

    fn set_bass_level(&mut self, l: u8) -> (r: Vec<Action>)
        ensures
            (final(self)@, actions_view(r@)) == set_bass_spec(old(self)@, l),
    {
        let payload = match &mut self.connected_device {
            Some(d) => {
                let lv: u8 = if l < 1 {
                    1
                } else if l > 5 {
                    5
                } else {
                    l
                };
                d.bass_level = lv;
                Some(bytes2(flag_byte(d.bass_enhance_enabled), lv.wrapping_mul(2)))
            },
            None => None,
        };
        match payload {
            Some(p) => self.send_command(PacketCommand::SetEnhancedBass, p),
            None => no_actions(),
        }
    }

    fn toggle_bass_enhance(&mut self, e: bool) -> (r: Vec<Action>)
        ensures
            (final(self)@, actions_view(r@)) == toggle_bass_spec(old(self)@, e),
    {
        let payload = match &mut self.connected_device {
            Some(d) => {
                d.bass_enhance_enabled = e;
                Some(bytes2(flag_byte(e), d.bass_level.wrapping_mul(2)))
            },
            None => None,
        };
        match payload {
            Some(p) => self.send_command(PacketCommand::SetEnhancedBass, p),
            None => no_actions(),
        }
    }

    fn stop_ring(&mut self, t: RingTarget) -> (r: Vec<Action>)
        ensures
            (final(self)@, actions_view(r@)) == stop_ring_spec(old(self)@, t),
    {
        let payload = match &mut self.connected_device {
            Some(d) => {
                EarNative::set_ringing_state(d, t, false);
                Some(EarNative::ring_buds_payload(&d.model, t, false))
            },
            None => None,
        };
        match payload {
            Some(p) => self.send_command(PacketCommand::SetRingBuds, p),
            None => no_actions(),
        }
    }

    fn confirm_pending(&mut self) -> (r: Vec<Action>)
        ensures
            (final(self)@, actions_view(r@)) == confirm_spec(old(self)@),
    {
        match self.pending_confirmation.take() {
            Some(PendingConfirmation::StartRing(t)) => {
                let payload = match &mut self.connected_device {
                    Some(d) => {
                        EarNative::set_ringing_state(d, t, true);
                        Some(EarNative::ring_buds_payload(&d.model, t, true))
                    },
                    None => None,
                };
                match payload {
                    Some(p) => self.send_command(PacketCommand::SetRingBuds, p),
                    None => no_actions(),
                }
            },
            None => no_actions(),
        }
    }

    fn set_personalized_anc(&mut self, e: bool) -> (r: Vec<Action>)
        ensures
            (final(self)@, actions_view(r@)) == set_personalized_spec(old(self)@, e),
    {
        let go = match &self.connected_device {
            Some(d) => EarNative::supports_personalized_anc(&d.model),
            None => false,
        };
        if !go {
            return no_actions();
        }
        match &mut self.connected_device {
            Some(d) => {
                d.personalized_anc_enabled = e;
            },
            None => {},
        }
        self.send_command(PacketCommand::SetPersonalizedAnc, bytes1(flag_byte(e)))
    }

    fn start_ear_tip_test(&mut self) -> (r: Vec<Action>)
        ensures
            (final(self)@, actions_view(r@)) == start_tip_spec(old(self)@),
    {
        let go = match &mut self.connected_device {
            Some(d) => {
                if EarNative::supports_ear_tip_test(&d.model) {
                    d.ear_tip_left = None;
                    d.ear_tip_right = None;
                    d.ear_tip_test_running = true;
                    true
                } else {
                    false
                }
            },
            None => false,
        };
        if go {
            self.send_command(PacketCommand::StartEarFitTest, bytes1(1))
        } else {
            no_actions()
        }
    }

    fn reset_ear_tip_test(&mut self) -> (r: Vec<Action>)
        ensures
            (final(self)@, actions_view(r@)) == reset_tip_spec(old(self)@),
    {
        match &mut self.connected_device {
            Some(d) => {
                d.ear_tip_left = None;
                d.ear_tip_right = None;
                d.ear_tip_test_running = false;
            },
            None => {},
        }
        no_actions()
    }

    fn toggle_in_ear(&mut self, e: bool) -> (r: Vec<Action>)
        ensures
            (final(self)@, actions_view(r@)) == toggle_in_ear_spec(old(self)@, e),
    {
        let go = match &mut self.connected_device {
            Some(d) => {
                d.in_ear_enabled = e;
                true
            },
            None => false,
        };
        if go {
            self.send_command(PacketCommand::SetInEar, bytes3(1, 1, flag_byte(e)))
        } else {
            no_actions()
        }
    }

    fn toggle_latency(&mut self, e: bool) -> (r: Vec<Action>)
        ensures
            (final(self)@, actions_view(r@)) == toggle_latency_spec(old(self)@, e),
    {
        let go = match &mut self.connected_device {
            Some(d) => {
                d.latency_low = e;
                true
            },
            None => false,
        };
        if go {
            self.send_command(PacketCommand::SetLatency, bytes2(flag_byte(e), 0))
        } else {
            no_actions()
        }
    }

    /// Gives band `i` of the connected device the clamped level `v`, makes the
    /// custom preset active and sends the levels.
    fn apply_level(&mut self, i: usize, v: i8) -> (r: Vec<Action>)
        requires
            i < 3,
            old(self).connected_device is Some,
        ensures
            (final(self)@, actions_view(r@)) == apply_level_spec(
                old(self)@,
                old(self)@.connected_device.unwrap(),
                i as int,
                v,
            ),
    {
        let levels = match &mut self.connected_device {
            Some(d) => {
                d.custom_eq.set(i, v);
                d.eq_mode = EqMode::Custom;
                d.eq_preset = custom_preset_exec(&d.model);
                d.advanced_eq_enabled = false;
                d.custom_eq
            },
            None => EqLevels { low: 0, mid: 0, high: 0 },
        };
        self.send_custom_eq_commands(levels)
    }

    /// Moves custom-equalizer band `i` by `delta` dB.
    fn custom_eq_delta(&mut self, i: usize, delta: i8) -> (r: Vec<Action>)
        ensures
            (final(self)@, actions_view(r@)) == eq_delta_spec(old(self)@, i, delta as int),
    {
        let target = match &self.connected_device {
            Some(d) => {
                if i < 3 && delta != 0 && EarNative::supports_custom_eq(&d.model) {
                    Some(clamp_level_exec(d.custom_eq.get(i) as i16 + delta as i16))
                } else {
                    None
                }
            },
            None => None,
        };
        match target {
            Some(v) => self.apply_level(i, v),
            None => no_actions(),
        }
    }

    fn set_custom_eq_level(&mut self, i: usize, level: i8) -> (r: Vec<Action>)
        ensures
            (final(self)@, actions_view(r@)) == set_level_spec(old(self)@, i, level),
    {
        let go = match &self.connected_device {
            Some(d) => i < 3 && EarNative::supports_custom_eq(&d.model),
            None => false,
        };
        if go {
            self.apply_level(i, clamp_level_exec(level as i16))
        } else {
            no_actions()
        }
    }

    fn report_custom_eq(&mut self, b: EqBandBits) -> (r: Vec<Action>)
        ensures
            (final(self)@, actions_view(r@)) == custom_eq_report_spec(old(self)@, b),
    {
        let present = match &mut self.connected_device {
            Some(d) => {
                if EarNative::supports_custom_eq(&d.model) {
                    d.custom_eq = decode_levels(b);
                }
                true
            },
            None => false,
        };
        if present {
            self.mark_initial_data_loaded(LoadItem::CustomEq);
        }
        no_actions()
    }

    fn battery_refresh(&mut self) -> (r: Vec<Action>)
        ensures
            (final(self)@, actions_view(r@)) == battery_tick_spec(old(self)@),
    {
        let connected = match &self.state {
            AppState::Connected(_) => true,
            _ => false,
        };
        if self.connected_device.is_some() && connected {
            self.send_command(PacketCommand::ReadBattery, Vec::new())
        } else {
            no_actions()
        }
    }
}


/// Level of an optional battery status.
fn level_of_status(b: Option<BatteryStatus>) -> (r: Option<u8>)
    ensures
        r == level_of(b),
{
    match b {
        Some(x) => Some(x.level),
        None => None,
    }
}

/// The reads that identify a device whose model is not remembered.
fn identification_reads_exec() -> (r: Vec<(PacketCommand, Vec<u8>, u64)>)
    ensures
        cmds_view(r@) == identification_reads(),
{
    let mut v: Vec<(PacketCommand, Vec<u8>, u64)> = Vec::new();
    v.push((PacketCommand::ReadSku, Vec::new(), 600));
    v.push((PacketCommand::ReadSkuAlt, Vec::new(), 1000));
    v.push((PacketCommand::RespSku, Vec::new(), 1400));
    v.push((PacketCommand::ReadFirmware, Vec::new(), 1800));
    proof {
        assert(cmds_view(v@) =~= identification_reads());
    }
    v
}

impl EarNative {
    /// Index of device `id` in the list of seen devices.
    fn find_discovered(&self, id: &str) -> (r: Option<usize>)
        ensures
            match r {
                Some(i) => find_from(self@.discovered_devices, id@, 0) == Some(i as int) && i
                    < self.discovered_devices@.len(),
                None => find_from(self@.discovered_devices, id@, 0) is None,
            },
    {
        let n = self.discovered_devices.len();
        let mut i: usize = 0;
        while i < n
            invariant
                n == self.discovered_devices@.len(),
                n == self@.discovered_devices.len(),
                i <= n,
                find_from(self@.discovered_devices, id@, 0) == find_from(
                    self@.discovered_devices,
                    id@,
                    i as int,
                ),
            decreases n - i,
        {
            if str_eq(self.discovered_devices[i].0.as_str(), id) {
                return Some(i);
            }
            i = i + 1;
        }
        None
    }

    /// Lists device `id` under `name`.
    fn record_discovered(&mut self, id: &str, name: &str)
        ensures
            final(self)@ == (EarNativeView {
                discovered_devices: record_device(old(self)@.discovered_devices, id@, name@),
                ..old(self)@
            }),
    {
        let ghost t = self@.discovered_devices;
        match self.find_discovered(id) {
            Some(i) => {
                self.discovered_devices.set(i, (owned(id), owned(name)));
                proof {
                    lemma_find_from(t, id@, 0);
                    assert(pairs_view(self.discovered_devices@) =~= t.update(
                        i as int,
                        (t[i as int].0, name@),
                    ));
                }
            },
            None => {
                self.discovered_devices.push((owned(id), owned(name)));
                proof {
                    assert(pairs_view(self.discovered_devices@) =~= t.push((id@, name@)));
                }
            },
        }
    }

    /// A device seen by the adapter (see `discovered_spec`).
    fn device_discovered(&mut self, device: DiscoveredDevice, now_ms: u64) -> (r: Vec<Action>)
        ensures
            (final(self)@, actions_view(r@)) == discovered_spec(
                old(self)@,
                discovered_view(device),
                now_ms,
            ),
    {
        self.record_discovered(device.id.as_str(), device.name.as_str());
        let changed = self.config.remember_device_name(device.id.as_str(), device.name.as_str());
        let first = if changed {
            self.persist_config()
        } else {
            no_actions()
        };
        let second = self.maybe_auto_connect(&device, now_ms);
        concat_actions(first, second)
    }

    /// Starts loading the model stored under `key`, if there is one.
    fn load_model_key(&mut self, key: &str) -> (r: Vec<Action>)
        ensures
            (final(self)@, actions_view(r@)) == load_key_spec(old(self)@, old(self)@, key@),
    {
        let found = match self.models.get(key) {
            Some(m) => Some(m.clone()),
            None => None,
        };
        match found {
            Some(m) => self.start_initial_data_load(m),
            None => no_actions(),
        }
    }

    /// The model remembered for device `addr`, if the table has it.
    fn cached_model_of(&self, addr: &str) -> (r: Option<ModelInfo>)
        ensures
            match cached_model(self@, addr@) {
                Some(m) => r is Some && r.unwrap()@ == m,
                None => r is None,
            },
    {
        match self.config.known_model_key(addr) {
            Some(k) => match self.models.get(k) {
                Some(m) => Some(m.clone()),
                None => None,
            },
            None => None,
        }
    }

    /// A device connected at `addr` (see `connected_spec`).
    fn device_connected(&mut self, addr: String) -> (r: Vec<Action>)
        ensures
            (final(self)@, actions_view(r@)) == connected_spec(old(self)@, addr@),
    {
        let name = match self.find_discovered(addr.as_str()) {
            Some(i) => owned(self.discovered_devices[i].1.as_str()),
            None => owned("unknown"),
        };
        self.state = AppState::Identifying(owned(name.as_str()));
        self.bluetooth_init_failed = false;
        self.initial_data_load = None;
        self.loading_frame = 0;
        let changed = self.config.remember_connected_device(addr.as_str());
        let first = if changed {
            self.persist_config()
        } else {
            no_actions()
        };
        let key = self.inferred_model_key(name.as_str());
        let m0 = match self.models.get(key.as_str()) {
            Some(m) => m.clone(),
            None => {
                return first;
            },
        };
        let cached = self.cached_model_of(addr.as_str());
        self.connected_device = Some(
            ConnectedDevice {
                id: addr,
                model: m0,
                battery_left: None,
                sku_attempts: 0,
                battery_right: None,
                battery_case: None,
                anc_status: 1,
                eq_mode: EqMode::Balanced,
                eq_preset: 0,
                advanced_eq_enabled: false,
                bass_level: 2,
                bass_enhance_enabled: false,
                ringing_left: false,
                ringing_right: false,
                in_ear_enabled: true,
                latency_low: false,
                personalized_anc_enabled: false,
                firmware_version: owned("loading..."),
                custom_eq: EqLevels { low: 0, mid: 0, high: 0 },
                ear_tip_left: None,
                ear_tip_right: None,
                ear_tip_test_running: false,
            },
        );
        match cached {
            Some(cm) => {
                let a = self.start_initial_data_load(cm);
                let b = self.send_delayed_command(PacketCommand::ReadFirmware, Vec::new(), 1700);
                concat_actions(concat_actions(first, a), b)
            },
            None => {
                let a = self.send_batch(identification_reads_exec());
                concat_actions(
                    concat_actions(first, a),
                    one_action(Action::ScheduleIdentificationTimeout),
                )
            },
        }
    }

    /// Falls back to the model inferred from the device name.
    fn identification_timeout(&mut self) -> (r: Vec<Action>)
        ensures
            (final(self)@, actions_view(r@)) == identification_timeout_spec(old(self)@),
    {
        let key = match &self.state {
            AppState::Identifying(name) => self.inferred_model_key(name.as_str()),
            _ => {
                return no_actions();
            },
        };
        self.load_model_key(key.as_str())
    }

    /// A SKU report while the device is being identified (see `sku_spec`).
    fn identify_by_sku(&mut self, sku: String, name: &str) -> (r: Vec<Action>)
        ensures
            (final(self)@, actions_view(r@)) == sku_spec(old(self)@, sku@, name@),
    {
        if str_eq(sku.as_str(), "unknown") {
            let retry = match &self.connected_device {
                Some(d) => d.sku_attempts < 3,
                None => false,
            };
            if retry {
                match &mut self.connected_device {
                    Some(d) => {
                        d.sku_attempts = d.sku_attempts + 1;
                    },
                    None => {},
                }
                return self.send_delayed_command(PacketCommand::ReadSku, Vec::new(), 300);
            }
        }
        let key = match self.sku_map.get(sku.as_str()) {
            Some(k) => owned(k.as_str()),
            None => self.inferred_model_key(name),
        };
        let model = match self.models.get(key.as_str()) {
            Some(m) => m.clone(),
            None => {
                return no_actions();
            },
        };
        let device_id = match &self.connected_device {
            Some(d) => Some(owned(d.id.as_str())),
            None => None,
        };
        match device_id {
            Some(id) => {
                let changed = self.config.remember_device_metadata(
                    id.as_str(),
                    Some(model.name.as_str()),
                    Some(key.as_str()),
                    Some(sku.as_str()),
                );
                let load = self.start_initial_data_load(model);
                if changed {
                    concat_actions(self.persist_config(), load)
                } else {
                    load
                }
            },
            None => self.start_initial_data_load(model),
        }
    }
}

impl EarNative {
    /// A battery report.
    fn report_battery(&mut self, b: DeviceBattery) -> (r: Vec<Action>)
        requires
            old(self).connected_device is Some,
        ensures
            (final(self)@, actions_view(r@)) == report_spec(old(self)@, ResponseView::Battery(b)),
    {
        let levels = match &mut self.connected_device {
            Some(d) => {
                d.battery_left = level_of_status(b.left);
                d.battery_right = level_of_status(b.right);
                d.battery_case = level_of_status(b.case);
                (d.battery_left, d.battery_case, d.battery_right)
            },
            None => (None, None, None),
        };
        self.mark_initial_data_loaded(LoadItem::Battery);
        one_action(Action::UpdateTrayBattery { left: levels.0, case: levels.1, right: levels.2 })
    }

    /// Shows `text` as the connected device's firmware version.
    fn set_firmware_text(&mut self, text: String)
        requires
            old(self).connected_device is Some,
        ensures
            final(self)@ == set_device(
                old(self)@,
                ConnectedDeviceView {
                    firmware_version: text@,
                    ..old(self)@.connected_device.unwrap()
                },
            ),
    {
        match &mut self.connected_device {
            Some(d) => {
                d.firmware_version = text;
            },
            None => {},
        }
    }

    /// A firmware report: the version is shown, and a device still being
    /// identified is taken for the model inferred from its name.
    fn report_firmware(&mut self, fw: String) -> (r: Vec<Action>)
        requires
            old(self).connected_device is Some,
        ensures
            (final(self)@, actions_view(r@)) == report_spec(old(self)@, ResponseView::Firmware(fw@)),
    {
        let stripped = trim_nul(fw.as_str());
        let text = to_lower(trim_ws(stripped.as_str()));
        self.set_firmware_text(text);
        let key = match &self.state {
            AppState::Identifying(name) => self.inferred_model_key(name.as_str()),
            _ => {
                return no_actions();
            },
        };
        self.load_model_key(key.as_str())
    }

    /// A noise-control report.
    fn report_anc(&mut self, m: AncMode) -> (r: Vec<Action>)
        requires
            old(self).connected_device is Some,
        ensures
            (final(self)@, actions_view(r@)) == report_spec(old(self)@, ResponseView::Anc(m)),
    {
        match &mut self.connected_device {
            Some(d) => {
                d.anc_status = anc_level_for_mode(m);
            },
            None => {},
        }
        self.mark_initial_data_loaded(LoadItem::Anc);
        no_actions()
    }

    /// An equalizer report.
    fn report_eq(&mut self, mode: EqMode, preset: u8) -> (r: Vec<Action>)
        requires
            old(self).connected_device is Some,
        ensures
            (final(self)@, actions_view(r@)) == report_spec(old(self)@, ResponseView::Eq { mode, preset }),
    {
        match &mut self.connected_device {
            Some(d) => {
                d.eq_preset = preset;
                d.eq_mode = EarNative::eq_mode_from_raw(preset);
                d.advanced_eq_enabled = false;
            },
            None => {},
        }
        self.mark_initial_data_loaded(LoadItem::Eq);
        no_actions()
    }

    /// A personalized noise-cancellation report.
    fn report_personalized(&mut self, e: bool) -> (r: Vec<Action>)
        requires
            old(self).connected_device is Some,
        ensures
            (final(self)@, actions_view(r@)) == report_spec(old(self)@, ResponseView::PersonalizedAnc(e)),
    {
        match &mut self.connected_device {
            Some(d) => {
                d.personalized_anc_enabled = e;
            },
            None => {},
        }
        self.mark_initial_data_loaded(LoadItem::PersonalizedAnc);
        no_actions()
    }

    /// An advanced-equalizer report.
    fn report_advanced(&mut self, e: bool) -> (r: Vec<Action>)
        requires
            old(self).connected_device is Some,
        ensures
            (final(self)@, actions_view(r@)) == report_spec(old(self)@, ResponseView::AdvancedEq(e)),
    {
        match &mut self.connected_device {
            Some(d) => {
                d.advanced_eq_enabled = e;
            },
            None => {},
        }
        no_actions()
    }

    /// An in-ear detection report.
    fn report_in_ear(&mut self, b: bool) -> (r: Vec<Action>)
        requires
            old(self).connected_device is Some,
        ensures
            (final(self)@, actions_view(r@)) == report_spec(old(self)@, ResponseView::InEar(b)),
    {
        match &mut self.connected_device {
            Some(d) => {
                d.in_ear_enabled = b;
            },
            None => {},
        }
        self.mark_initial_data_loaded(LoadItem::InEar);
        no_actions()
    }

    /// A low-latency report.
    fn report_latency(&mut self, b: bool) -> (r: Vec<Action>)
        requires
            old(self).connected_device is Some,
        ensures
            (final(self)@, actions_view(r@)) == report_spec(old(self)@, ResponseView::Latency(b)),
    {
        match &mut self.connected_device {
            Some(d) => {
                d.latency_low = b;
            },
            None => {},
        }
        self.mark_initial_data_loaded(LoadItem::Latency);
        no_actions()
    }

    /// A bass-enhancement report.
    fn report_bass(&mut self, enabled: bool, level: u8) -> (r: Vec<Action>)
        requires
            old(self).connected_device is Some,
        ensures
            (final(self)@, actions_view(r@)) == report_spec(old(self)@, ResponseView::EnhancedBass { enabled, level }),
    {
        match &mut self.connected_device {
            Some(d) => {
                d.bass_enhance_enabled = enabled;
                d.bass_level = level;
            },
            None => {},
        }
        self.mark_initial_data_loaded(LoadItem::EnhancedBass);
        no_actions()
    }

    /// An ear-tip fit-test result.
    fn report_fit(&mut self, left: u8, right: u8) -> (r: Vec<Action>)
        requires
            old(self).connected_device is Some,
        ensures
            (final(self)@, actions_view(r@)) == report_spec(old(self)@, ResponseView::EarFitTest { left, right }),
    {
        match &mut self.connected_device {
            Some(d) => {
                d.ear_tip_left = Some(left);
                d.ear_tip_right = Some(right);
                d.ear_tip_test_running = false;
            },
            None => {},
        }
        no_actions()
    }

    /// A device report, applied to the connected device (see `report_spec`).
    fn apply_report(&mut self, r: ParsedResponse) -> (out: Vec<Action>)
        ensures
            (final(self)@, actions_view(out@)) == report_spec(old(self)@, r@),
    {
        if self.connected_device.is_none() {
            return no_actions();
        }
        match r {
            ParsedResponse::Battery(b) => self.report_battery(b),
            ParsedResponse::Firmware(fw) => self.report_firmware(fw),
            ParsedResponse::Anc(m) => self.report_anc(m),
            ParsedResponse::Eq { mode, preset } => self.report_eq(mode, preset),
            ParsedResponse::PersonalizedAnc(e) => self.report_personalized(e),
            ParsedResponse::AdvancedEq(e) => self.report_advanced(e),
            ParsedResponse::InEar(b) => self.report_in_ear(b),
            ParsedResponse::Latency(b) => self.report_latency(b),
            ParsedResponse::EnhancedBass { enabled, level } => self.report_bass(enabled, level),
            ParsedResponse::CustomEq(bits) => self.report_custom_eq(bits),
            ParsedResponse::EarFitTest { left, right } => self.report_fit(left, right),
            _ => no_actions(),
        }
    }

    /// Handles a packet received from the device: a SKU report identifies a
    /// device being identified, any other report updates the connected device.
    pub fn handle_packet(&mut self, packet: Packet) -> (r: Vec<Action>)
        ensures
            (final(self)@, actions_view(r@)) == packet_spec(old(self)@, packet@),
    {
        proof {
            reveal(packet_spec);
        }
        let parsed = packet.parse();
        let name = match &self.state {
            AppState::Identifying(n) => Some(owned(n.as_str())),
            _ => None,
        };
        match parsed {
            ParsedResponse::Sku(sku) => match name {
                Some(n) => self.identify_by_sku(sku, n.as_str()),
                None => self.apply_report(ParsedResponse::Sku(sku)),
            },
            _ => self.apply_report(parsed),
        }
    }
}

impl EarNative {
    /// An event from the Bluetooth side (see `bluetooth_spec`).
    fn bluetooth_event(&mut self, event: BluetoothEvent, now_ms: u64) -> (r: Vec<Action>)
        ensures
            (final(self)@, actions_view(r@)) == bluetooth_spec(old(self)@, event_view(event), now_ms),
    {
        proof {
            reveal(bluetooth_spec);
        }
        match event {
            BluetoothEvent::DeviceDiscovered(device) => self.device_discovered(device, now_ms),
            BluetoothEvent::Error(err) => {
                self.reset(AppState::Error(err));
                no_actions()
            },
            BluetoothEvent::Connected(addr) => self.device_connected(addr),
            BluetoothEvent::Disconnected => {
                self.reset(AppState::Disconnected);
                no_actions()
            },
            BluetoothEvent::PacketReceived(packet) => self.handle_packet(packet),
        }
    }

    /// Reacts to `message`, received at time `now_ms` (milliseconds on any
    /// clock that does not go back): the state moves on and the returned
    /// actions, in order, are for the runtime to perform.
    #[verifier::rlimit(50)]
    pub fn update(&mut self, message: Message, now_ms: u64) -> (r: Vec<Action>)
        ensures
            (final(self)@, actions_view(r@)) == update_spec(old(self)@, message@, now_ms),
    {
        proof {
            reveal(update_spec);
        }
        match message {
            Message::ActiveModelAssetsPreloaded => {
                self.active_model_assets_ready = true;
                no_actions()
            },
            Message::ConfigLoaded(config) => {
                self.config = config;
                no_actions()
            },
            Message::ConfigPersisted(_) => no_actions(),
            Message::Ready => {
                self.has_command_channel = true;
                self.bluetooth_init_failed = false;
                no_actions()
            },
            Message::BluetoothInitializationFailed(error) => {
                self.bluetooth_init_failed = true;
                let mut text = owned("Bluetooth is disabled. ");
                text.append(error.as_str());
                self.state = AppState::Error(text);
                no_actions()
            },
            Message::LoadingTick => {
                self.loading_frame = (self.loading_frame % 4 + 1) % 4;
                no_actions()
            },
            Message::InitialDataLoadTimedOut => {
                self.initial_data_load = None;
                no_actions()
            },
            Message::IdentificationTimeout => self.identification_timeout(),
            Message::Bluetooth(event) => self.bluetooth_event(event, now_ms),
            Message::Connect(addr) => {
                self.state = AppState::Connecting(owned("initializing"));
                self.active_model_assets_ready = true;
                self.loading_frame = 0;
                self.send_manager_command(ManagerCommand::Connect(addr))
            },
            Message::Disconnect => {
                self.reset(AppState::Disconnected);
                self.send_manager_command(ManagerCommand::Disconnect)
            },
            Message::SetANC(l) => self.set_anc(l),
            Message::SetEQ(m) => self.set_eq(m),
            Message::ToggleAdvancedEQ(e) => self.toggle_advanced_eq(e),
            Message::SetBassLevel(l) => self.set_bass_level(l),
            Message::ToggleBassEnhance(e) => self.toggle_bass_enhance(e),
            Message::RequestRing(t) => {
                self.pending_confirmation = Some(PendingConfirmation::StartRing(t));
                no_actions()
            },
            Message::StopRing(t) => self.stop_ring(t),
            Message::ConfirmPendingAction => self.confirm_pending(),
            Message::CancelPendingAction => {
                self.pending_confirmation = None;
                no_actions()
            },
            Message::SetPersonalizedANC(e) => self.set_personalized_anc(e),
            Message::StartEarTipTest => self.start_ear_tip_test(),
            Message::ResetEarTipTest => self.reset_ear_tip_test(),
            Message::ToggleInEar(e) => self.toggle_in_ear(e),
            Message::ToggleLatency(e) => self.toggle_latency(e),
            Message::IncCustomEQ(i) => self.custom_eq_delta(i, 1),
            Message::DecCustomEQ(i) => self.custom_eq_delta(i, -1),
            Message::ScrollCustomEQ(i, d) => self.custom_eq_delta(i, d),
            Message::SetCustomEQLevel(i, l) => self.set_custom_eq_level(i, l),
            Message::CommandSent => no_actions(),
            Message::WindowId(known) => {
                self.has_window = known;
                no_actions()
            },
            Message::CloseRequested => {
                if self.has_window {
                    one_action(Action::MinimizeWindow(true))
                } else {
                    no_actions()
                }
            },
            Message::Tray(TrayEvent::Quit) => one_action(Action::Exit),
            Message::Tray(TrayEvent::Show) => {
                if self.has_window {
                    one_action(Action::ShowWindow)
                } else {
                    no_actions()
                }
            },
            Message::Tray(TrayEvent::Hide) => {
                if self.has_window {
                    one_action(Action::MinimizeWindow(true))
                } else {
                    no_actions()
                }
            },
            Message::BatteryRefreshTick => self.battery_refresh(),
        }
    }
}

} // verus!
