//! The application: its state, the messages it reacts to and the actions it
//! asks its runtime to perform.

pub mod state;
pub mod capabilities;
pub mod commands;
pub mod machine;
pub mod update;
pub mod laws;
pub mod device_list;
pub mod status;
pub mod controls;

use vstd::prelude::*;
use crate::app::state::{
    AppState, AppStateView, ConnectedDevice, ConnectedDeviceView, InitialDataLoad,
    PendingConfirmation,
};
use crate::config::{empty_config, AppConfig, AppConfigView};
use crate::models::{
    get_models, get_sku_map, standard_models, standard_skus, ModelInfoView, ModelTable, SkuTable,
};

verus! {

/// The application state.
#[derive(Debug)]
pub struct EarNative {
    pub models: ModelTable,
    pub sku_map: SkuTable,
    pub config: AppConfig,
    /// Time, in milliseconds, of the last automatic connection attempt.
    pub last_auto_connect_at: Option<u64>,
    pub active_model_assets_ready: bool,
    pub state: AppState,
    /// Address and name of every device seen, in order of first sighting.
    pub discovered_devices: Vec<(String, String)>,
    pub connected_device: Option<ConnectedDevice>,
    pub initial_data_load: Option<InitialDataLoad>,
    pub loading_frame: usize,
    /// Whether the command channel to the Bluetooth side exists.
    pub has_command_channel: bool,
    pub operation_id: u8,
    pub pending_confirmation: Option<PendingConfirmation>,
    pub bluetooth_init_failed: bool,
    /// Whether the main window is known.
    pub has_window: bool,
}

/// Mathematical value of the application state.
pub struct EarNativeView {
    pub models: Seq<(Seq<char>, ModelInfoView)>,
    pub sku_map: Seq<(Seq<char>, Seq<char>)>,
    pub config: AppConfigView,
    pub last_auto_connect_at: Option<u64>,
    pub active_model_assets_ready: bool,
    pub state: AppStateView,
    pub discovered_devices: Seq<(Seq<char>, Seq<char>)>,
    pub connected_device: Option<ConnectedDeviceView>,
    pub initial_data_load: Option<InitialDataLoad>,
    pub loading_frame: usize,
    pub has_command_channel: bool,
    pub operation_id: u8,
    pub pending_confirmation: Option<PendingConfirmation>,
    pub bluetooth_init_failed: bool,
    pub has_window: bool,
}

/// View of an optional connected device.
pub open spec fn device_view(d: Option<ConnectedDevice>) -> Option<ConnectedDeviceView> {
    match d {
        Some(x) => Some(x@),
        None => None,
    }
}

/// View of a list of (address, name) pairs.
pub open spec fn pairs_view(v: Seq<(String, String)>) -> Seq<(Seq<char>, Seq<char>)> {
    Seq::new(v.len(), |i: int| (v[i].0@, v[i].1@))
}

impl View for EarNative {
    type V = EarNativeView;

    open spec fn view(&self) -> EarNativeView {
        EarNativeView {
            models: self.models@,
            sku_map: self.sku_map@,
            config: self.config@,
            last_auto_connect_at: self.last_auto_connect_at,
            active_model_assets_ready: self.active_model_assets_ready,
            state: self.state@,
            discovered_devices: pairs_view(self.discovered_devices@),
            connected_device: device_view(self.connected_device),
            initial_data_load: self.initial_data_load,
            loading_frame: self.loading_frame,
            has_command_channel: self.has_command_channel,
            operation_id: self.operation_id,
            pending_confirmation: self.pending_confirmation,
            bluetooth_init_failed: self.bluetooth_init_failed,
            has_window: self.has_window,
        }
    }
}

/// The state at start-up: the standard model and SKU tables, default settings,
/// nothing seen and nothing connected.
pub open spec fn initial_state() -> EarNativeView {
    EarNativeView {
        models: standard_models(),
        sku_map: standard_skus(),
        config: empty_config(),
        last_auto_connect_at: None,
        active_model_assets_ready: true,
        state: AppStateView::Disconnected,
        discovered_devices: Seq::empty(),
        connected_device: None,
        initial_data_load: None,
        loading_frame: 0,
        has_command_channel: false,
        operation_id: 0,
        pending_confirmation: None,
        bluetooth_init_failed: false,
        has_window: false,
    }
}

impl Default for EarNative {
    fn default() -> (r: EarNative)
        ensures
            r@ == initial_state(),
    {
        EarNative::new()
    }
}

impl EarNative {
    /// The state at start-up.
    pub fn new() -> (r: EarNative)
        ensures
            r@ == initial_state(),
    {
        let r = EarNative {
            models: get_models(),
            sku_map: get_sku_map(),
            config: AppConfig::empty(),
            last_auto_connect_at: None,
            active_model_assets_ready: true,
            state: AppState::Disconnected,
            discovered_devices: Vec::new(),
            connected_device: None,
            initial_data_load: None,
            loading_frame: 0,
            has_command_channel: false,
            operation_id: 0,
            pending_confirmation: None,
            bluetooth_init_failed: false,
            has_window: false,
        };
        proof {
            assert(r@.discovered_devices =~= Seq::<(Seq<char>, Seq<char>)>::empty());
        }
        r
    }
}

} // verus!
