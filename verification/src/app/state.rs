use vstd::prelude::*;
use crate::bluetooth::{BluetoothEvent, DiscoveredDevice};
use crate::config::{AppConfig, AppConfigView};
use crate::models::{ModelInfo, ModelInfoView};
use crate::protocol::{EqMode, Packet, PacketView};
use crate::tray::TrayEvent;

verus! {

/// Which earbuds a ring request is for.
#[derive(Debug, Clone, Copy, PartialEq, Eq, Structural)]
pub enum RingTarget {
    Left,
    Right,
    Both,
}

/// An action waiting for the user's confirmation.
#[derive(Debug, Clone, Copy, PartialEq, Eq, Structural)]
pub enum PendingConfirmation {
    StartRing(RingTarget),
}

/// Connection state shown by the application.
#[derive(Debug)]
pub enum AppState {
    Disconnected,
    Connecting(String),
    Identifying(String),
    Connected(ModelInfo),
    Error(String),
}

/// Mathematical value of the connection state.
pub enum AppStateView {
    Disconnected,
    Connecting(Seq<char>),
    Identifying(Seq<char>),
    Connected(ModelInfoView),
    Error(Seq<char>),
}

impl View for AppState {
    type V = AppStateView;

    open spec fn view(&self) -> AppStateView {
        match self {
            AppState::Disconnected => AppStateView::Disconnected,
            AppState::Connecting(s) => AppStateView::Connecting(s@),
            AppState::Identifying(s) => AppStateView::Identifying(s@),
            AppState::Connected(m) => AppStateView::Connected(m@),
            AppState::Error(s) => AppStateView::Error(s@),
        }
    }
}

/// Custom-equalizer levels in decibels, for the low, mid and high bands
/// (band 0, 1 and 2).
#[derive(Debug, Clone, Copy, PartialEq, Eq, Structural)]
pub struct EqLevels {
    pub low: i8,
    pub mid: i8,
    pub high: i8,
}

/// Level of band `i`.
pub open spec fn level_at(l: EqLevels, i: int) -> i8 {
    if i == 0 {
        l.low
    } else if i == 1 {
        l.mid
    } else {
        l.high
    }
}

/// The levels with band `i` set to `v`.
pub open spec fn with_level(l: EqLevels, i: int, v: i8) -> EqLevels {
    if i == 0 {
        EqLevels { low: v, ..l }
    } else if i == 1 {
        EqLevels { mid: v, ..l }
    } else {
        EqLevels { high: v, ..l }
    }
}

/// Every level lies between -6 and 6 dB.
pub open spec fn levels_in_range(l: EqLevels) -> bool {
    -6 <= l.low <= 6 && -6 <= l.mid <= 6 && -6 <= l.high <= 6
}

impl EqLevels {
    /// Level of band `i` (0, 1 or 2).
    pub fn get(&self, i: usize) -> (r: i8)
        requires
            i < 3,
        ensures
            r == level_at(*self, i as int),
    {
        if i == 0 {
            self.low
        } else if i == 1 {
            self.mid
        } else {
            self.high
        }
    }

    /// Sets band `i` (0, 1 or 2) to `v`.
    pub fn set(&mut self, i: usize, v: i8)
        requires
            i < 3,
        ensures
            *final(self) == with_level(*old(self), i as int, v),
    {
        if i == 0 {
            self.low = v;
        } else if i == 1 {
            self.mid = v;
        } else {
            self.high = v;
        }
    }
}

/// What the application knows of the connected device.
#[derive(Debug)]
pub struct ConnectedDevice {
    pub id: String,
    pub model: ModelInfo,
    pub battery_left: Option<u8>,
    pub sku_attempts: u8,
    pub battery_right: Option<u8>,
    pub battery_case: Option<u8>,
    pub anc_status: u8,
    pub eq_mode: EqMode,
    pub eq_preset: u8,
    pub advanced_eq_enabled: bool,
    pub bass_level: u8,
    pub bass_enhance_enabled: bool,
    pub ringing_left: bool,
    pub ringing_right: bool,
    pub in_ear_enabled: bool,
    pub latency_low: bool,
    pub personalized_anc_enabled: bool,
    pub firmware_version: String,
    pub custom_eq: EqLevels,
    pub ear_tip_left: Option<u8>,
    pub ear_tip_right: Option<u8>,
    pub ear_tip_test_running: bool,
}

/// Mathematical value of the connected device.
pub struct ConnectedDeviceView {
    pub id: Seq<char>,
    pub model: ModelInfoView,
    pub battery_left: Option<u8>,
    pub sku_attempts: u8,
    pub battery_right: Option<u8>,
    pub battery_case: Option<u8>,
    pub anc_status: u8,
    pub eq_mode: EqMode,
    pub eq_preset: u8,
    pub advanced_eq_enabled: bool,
    pub bass_level: u8,
    pub bass_enhance_enabled: bool,
    pub ringing_left: bool,
    pub ringing_right: bool,
    pub in_ear_enabled: bool,
    pub latency_low: bool,
    pub personalized_anc_enabled: bool,
    pub firmware_version: Seq<char>,
    pub custom_eq: EqLevels,
    pub ear_tip_left: Option<u8>,
    pub ear_tip_right: Option<u8>,
    pub ear_tip_test_running: bool,
}

impl View for ConnectedDevice {
    type V = ConnectedDeviceView;

    open spec fn view(&self) -> ConnectedDeviceView {
        ConnectedDeviceView {
            id: self.id@,
            model: self.model@,
            battery_left: self.battery_left,
            sku_attempts: self.sku_attempts,
            battery_right: self.battery_right,
            battery_case: self.battery_case,
            anc_status: self.anc_status,
            eq_mode: self.eq_mode,
            eq_preset: self.eq_preset,
            advanced_eq_enabled: self.advanced_eq_enabled,
            bass_level: self.bass_level,
            bass_enhance_enabled: self.bass_enhance_enabled,
            ringing_left: self.ringing_left,
            ringing_right: self.ringing_right,
            in_ear_enabled: self.in_ear_enabled,
            latency_low: self.latency_low,
            personalized_anc_enabled: self.personalized_anc_enabled,
            firmware_version: self.firmware_version@,
            custom_eq: self.custom_eq,
            ear_tip_left: self.ear_tip_left,
            ear_tip_right: self.ear_tip_right,
            ear_tip_test_running: self.ear_tip_test_running,
        }
    }
}

/// Which of the first reports after identification have arrived, and which
/// of them the model needs.
#[derive(Debug, Clone, Copy, PartialEq, Eq, Structural)]
pub struct InitialDataLoad {
    pub battery: bool,
    pub anc: bool,
    pub eq: bool,
    pub personalized_anc: bool,
    pub in_ear: bool,
    pub latency: bool,
    pub enhanced_bass: bool,
    pub custom_eq: bool,
    pub require_anc: bool,
    pub require_personalized_anc: bool,
}

/// Whether every report the model needs has arrived.
pub open spec fn load_complete(l: InitialDataLoad) -> bool {
    l.battery && l.eq && (!l.require_personalized_anc || l.personalized_anc) && l.in_ear
        && l.latency && l.enhanced_bass && l.custom_eq && (!l.require_anc || l.anc)
}

impl InitialDataLoad {
    /// Whether every report the model needs has arrived.
    pub fn is_complete(&self) -> (r: bool)
        ensures
            r == load_complete(*self),
    {
        self.battery && self.eq && (!self.require_personalized_anc || self.personalized_anc)
            && self.in_ear && self.latency && self.enhanced_bass && self.custom_eq && (
        !self.require_anc || self.anc)
    }
}

/// Inputs to the application state machine.
#[derive(Debug)]
pub enum Message {
    ActiveModelAssetsPreloaded,
    Bluetooth(BluetoothEvent),
    Connect(String),
    Disconnect,
    IncCustomEQ(usize),
    DecCustomEQ(usize),
    ScrollCustomEQ(usize, i8),
    SetCustomEQLevel(usize, i8),
    LoadingTick,
    InitialDataLoadTimedOut,
    IdentificationTimeout,
    ConfigLoaded(AppConfig),
    ConfigPersisted(Result<(), String>),
    SetANC(u8),
    SetEQ(u8),
    ToggleAdvancedEQ(bool),
    SetBassLevel(u8),
    ToggleBassEnhance(bool),
    RequestRing(RingTarget),
    StopRing(RingTarget),
    ConfirmPendingAction,
    CancelPendingAction,
    SetPersonalizedANC(bool),
    StartEarTipTest,
    ResetEarTipTest,
    ToggleInEar(bool),
    ToggleLatency(bool),
    CommandSent,
    /// The command channel to the Bluetooth side is ready.
    Ready,
    BluetoothInitializationFailed(String),
    /// Whether the main window is known.
    WindowId(bool),
    CloseRequested,
    Tray(TrayEvent),
    BatteryRefreshTick,
}

/// Mathematical value of a device seen by the adapter.
pub struct DiscoveredDeviceView {
    pub id: Seq<char>,
    pub name: Seq<char>,
    pub paired: bool,
    pub system_connected: bool,
}

/// View of a discovered device.
pub open spec fn discovered_view(d: DiscoveredDevice) -> DiscoveredDeviceView {
    DiscoveredDeviceView {
        id: d.id@,
        name: d.name@,
        paired: d.paired,
        system_connected: d.system_connected,
    }
}

/// Mathematical value of a Bluetooth event.
pub enum BluetoothEventView {
    DeviceDiscovered(DiscoveredDeviceView),
    Connected(Seq<char>),
    Disconnected,
    PacketReceived(PacketView),
    Error(Seq<char>),
}

/// View of a Bluetooth event.
pub open spec fn event_view(e: BluetoothEvent) -> BluetoothEventView {
    match e {
        BluetoothEvent::DeviceDiscovered(d) => BluetoothEventView::DeviceDiscovered(
            discovered_view(d),
        ),
        BluetoothEvent::Connected(s) => BluetoothEventView::Connected(s@),
        BluetoothEvent::Disconnected => BluetoothEventView::Disconnected,
        BluetoothEvent::PacketReceived(p) => BluetoothEventView::PacketReceived(p@),
        BluetoothEvent::Error(s) => BluetoothEventView::Error(s@),
    }
}

/// Mathematical value of a message.
pub enum MessageView {
    ActiveModelAssetsPreloaded,
    Bluetooth(BluetoothEventView),
    Connect(Seq<char>),
    Disconnect,
    IncCustomEQ(usize),
    DecCustomEQ(usize),
    ScrollCustomEQ(usize, i8),
    SetCustomEQLevel(usize, i8),
    LoadingTick,
    InitialDataLoadTimedOut,
    IdentificationTimeout,
    ConfigLoaded(AppConfigView),
    ConfigPersisted(bool),
    SetANC(u8),
    SetEQ(u8),
    ToggleAdvancedEQ(bool),
    SetBassLevel(u8),
    ToggleBassEnhance(bool),
    RequestRing(RingTarget),
    StopRing(RingTarget),
    ConfirmPendingAction,
    CancelPendingAction,
    SetPersonalizedANC(bool),
    StartEarTipTest,
    ResetEarTipTest,
    ToggleInEar(bool),
    ToggleLatency(bool),
    CommandSent,
    Ready,
    BluetoothInitializationFailed(Seq<char>),
    WindowId(bool),
    CloseRequested,
    Tray(TrayEvent),
    BatteryRefreshTick,
}

impl View for Message {
    type V = MessageView;

    open spec fn view(&self) -> MessageView {
        match self {
            Message::ActiveModelAssetsPreloaded => MessageView::ActiveModelAssetsPreloaded,
            Message::Bluetooth(e) => MessageView::Bluetooth(event_view(*e)),
            Message::Connect(s) => MessageView::Connect(s@),
            Message::Disconnect => MessageView::Disconnect,
            Message::IncCustomEQ(i) => MessageView::IncCustomEQ(*i),
            Message::DecCustomEQ(i) => MessageView::DecCustomEQ(*i),
            Message::ScrollCustomEQ(i, d) => MessageView::ScrollCustomEQ(*i, *d),
            Message::SetCustomEQLevel(i, l) => MessageView::SetCustomEQLevel(*i, *l),
            Message::LoadingTick => MessageView::LoadingTick,
            Message::InitialDataLoadTimedOut => MessageView::InitialDataLoadTimedOut,
            Message::IdentificationTimeout => MessageView::IdentificationTimeout,
            Message::ConfigLoaded(c) => MessageView::ConfigLoaded(c@),
            Message::ConfigPersisted(r) => MessageView::ConfigPersisted(r is Ok),
            Message::SetANC(l) => MessageView::SetANC(*l),
            Message::SetEQ(m) => MessageView::SetEQ(*m),
            Message::ToggleAdvancedEQ(b) => MessageView::ToggleAdvancedEQ(*b),
            Message::SetBassLevel(l) => MessageView::SetBassLevel(*l),
            Message::ToggleBassEnhance(b) => MessageView::ToggleBassEnhance(*b),
            Message::RequestRing(t) => MessageView::RequestRing(*t),
            Message::StopRing(t) => MessageView::StopRing(*t),
            Message::ConfirmPendingAction => MessageView::ConfirmPendingAction,
            Message::CancelPendingAction => MessageView::CancelPendingAction,
            Message::SetPersonalizedANC(b) => MessageView::SetPersonalizedANC(*b),
            Message::StartEarTipTest => MessageView::StartEarTipTest,
            Message::ResetEarTipTest => MessageView::ResetEarTipTest,
            Message::ToggleInEar(b) => MessageView::ToggleInEar(*b),
            Message::ToggleLatency(b) => MessageView::ToggleLatency(*b),
            Message::CommandSent => MessageView::CommandSent,
            Message::Ready => MessageView::Ready,
            Message::BluetoothInitializationFailed(s) => MessageView::BluetoothInitializationFailed(
                s@,
            ),
            Message::WindowId(b) => MessageView::WindowId(*b),
            Message::CloseRequested => MessageView::CloseRequested,
            Message::Tray(t) => MessageView::Tray(*t),
            Message::BatteryRefreshTick => MessageView::BatteryRefreshTick,
        }
    }
}

/// Work that the state machine hands to the application's runtime.
#[derive(Debug)]
pub enum Action {
    /// Send a packet to the device after waiting `delay_ms` milliseconds.
    SendPacket { packet: Packet, delay_ms: u64 },
    /// Ask the Bluetooth side to connect to a device.
    ManagerConnect(String),
    /// Ask the Bluetooth side to disconnect.
    ManagerDisconnect,
    /// Save the current settings.
    PersistConfig,
    /// Load the artwork of a model in the background.
    PreloadModelAssets(ModelInfo),
    /// Report `InitialDataLoadTimedOut` after 2600 milliseconds.
    ScheduleInitialDataLoadTimeout,
    /// Report `IdentificationTimeout` after 5 seconds.
    ScheduleIdentificationTimeout,
    /// Show battery levels in the tray menu.
    UpdateTrayBattery { left: Option<u8>, case: Option<u8>, right: Option<u8> },
    /// Minimize (true) or restore (false) the main window.
    MinimizeWindow(bool),
    /// Restore, focus and draw attention to the main window.
    ShowWindow,
    /// End the process.
    Exit,
}

/// Mathematical value of an action.
pub enum ActionView {
    SendPacket { packet: PacketView, delay_ms: u64 },
    ManagerConnect(Seq<char>),
    ManagerDisconnect,
    PersistConfig,
    PreloadModelAssets(ModelInfoView),
    ScheduleInitialDataLoadTimeout,
    ScheduleIdentificationTimeout,
    UpdateTrayBattery { left: Option<u8>, case: Option<u8>, right: Option<u8> },
    MinimizeWindow(bool),
    ShowWindow,
    Exit,
}

impl View for Action {
    type V = ActionView;

    open spec fn view(&self) -> ActionView {
        match self {
            Action::SendPacket { packet, delay_ms } => ActionView::SendPacket {
                packet: packet@,
                delay_ms: *delay_ms,
            },
            Action::ManagerConnect(s) => ActionView::ManagerConnect(s@),
            Action::ManagerDisconnect => ActionView::ManagerDisconnect,
            Action::PersistConfig => ActionView::PersistConfig,
            Action::PreloadModelAssets(m) => ActionView::PreloadModelAssets(m@),
            Action::ScheduleInitialDataLoadTimeout => ActionView::ScheduleInitialDataLoadTimeout,
            Action::ScheduleIdentificationTimeout => ActionView::ScheduleIdentificationTimeout,
            Action::UpdateTrayBattery { left, case, right } => ActionView::UpdateTrayBattery {
                left: *left,
                case: *case,
                right: *right,
            },
            Action::MinimizeWindow(b) => ActionView::MinimizeWindow(*b),
            Action::ShowWindow => ActionView::ShowWindow,
            Action::Exit => ActionView::Exit,
        }
    }
}

/// Views of a sequence of actions.
pub open spec fn actions_view(a: Seq<Action>) -> Seq<ActionView> {
    a.map_values(|x: Action| x@)
}

} // verus!
