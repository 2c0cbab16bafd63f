//! What the application shows and schedules depending on its state, and how
//! a failing Bluetooth adapter is reported.

use vstd::prelude::*;
use crate::app::state::{AppState, AppStateView};
use crate::app::{EarNative, EarNativeView};
use crate::text::{contains_seq, contains_str, owned};

verus! {

/// Whether the loading animation runs: a connection is being made or the
/// device identified, the first reports are awaited, or the model's artwork
/// is still loading.
pub open spec fn loading(s: EarNativeView) -> bool {
    s.state is Connecting || s.state is Identifying || s.initial_data_load is Some
        || !s.active_model_assets_ready
}

/// Caption of the loading screen for a state that shows it.
pub open spec fn loading_caption(st: AppStateView) -> Option<Seq<char>> {
    match st {
        AppStateView::Connecting(_) => Some("connecting to headphones"@),
        AppStateView::Identifying(_) => Some("loading headphone data"@),
        _ => None,
    }
}

/// Text shown when the Bluetooth adapter cannot be used, given the adapter's
/// error text.
pub open spec fn init_failure_text(error: Seq<char>) -> Seq<char> {
    if contains_seq(error, "not present"@) || contains_seq(error, "not found"@) {
        "Make sure Bluetooth is enabled in your system settings."@
    } else if contains_seq(error, "Permission"@) {
        "The application doesn't have permission to access Bluetooth. Check your system permissions."@
    } else {
        "Please enable Bluetooth: "@ + error
    }
}

/// Number of failed attempts to open the adapter after which the user is told.
pub const FAILURES_BEFORE_NOTICE: u32 = 3;

impl EarNative {
    /// Whether the loading animation runs (see `loading`).
    pub fn is_loading(&self) -> (r: bool)
        ensures
            r == loading(self@),
    {
        let busy = match &self.state {
            AppState::Connecting(_) | AppState::Identifying(_) => true,
            _ => false,
        };
        busy || self.initial_data_load.is_some() || !self.active_model_assets_ready
    }

    /// Whether the battery levels are refreshed periodically: only while a
    /// model is connected.
    pub fn refreshes_battery(&self) -> (r: bool)
        ensures
            r == (self@.state is Connected),
    {
        match &self.state {
            AppState::Connected(_) => true,
            _ => false,
        }
    }
}

/// Caption of the loading screen for `state`, if it shows one.
pub fn loading_title(state: &AppState) -> (r: Option<&'static str>)
    ensures
        match loading_caption(state@) {
            Some(c) => r is Some && r.unwrap()@ == c,
            None => r is None,
        },
{
    match state {
        AppState::Connecting(_) => Some("connecting to headphones"),
        AppState::Identifying(_) => Some("loading headphone data"),
        _ => None,
    }
}

/// Text shown when the Bluetooth adapter cannot be used (see
/// `init_failure_text`).
pub fn init_failure_message(error: &str) -> (r: String)
    ensures
        r@ == init_failure_text(error@),
{
    if contains_str(error, "not present") || contains_str(error, "not found") {
        owned("Make sure Bluetooth is enabled in your system settings.")
    } else if contains_str(error, "Permission") {
        owned(
            "The application doesn't have permission to access Bluetooth. Check your system permissions.",
        )
    } else {
        let mut r = owned("Please enable Bluetooth: ");
        r.append(error);
        r
    }
}

/// Count of failed attempts to open the Bluetooth adapter, and whether the
/// user has been told.
#[derive(Debug)]
pub struct AdapterRetry {
    pub failures: u32,
    pub notified: bool,
}

impl AdapterRetry {
    /// No attempt failed yet.
    pub fn new() -> (r: AdapterRetry)
        ensures
            r.failures == 0,
            !r.notified,
    {
        AdapterRetry { failures: 0, notified: false }
    }

    /// Records a failed attempt with error text `error`; returns the text to
    /// show the user when this is the third failure and nothing was shown yet.
    pub fn failed(&mut self, error: &str) -> (r: Option<String>)
        ensures
            final(self).failures == if old(self).failures < u32::MAX {
                (old(self).failures + 1) as u32
            } else {
                old(self).failures
            },
            final(self).notified == (old(self).notified || r is Some),
            match r {
                Some(t) => t@ == init_failure_text(error@) && !old(self).notified
                    && final(self).failures == FAILURES_BEFORE_NOTICE,
                None => old(self).notified || final(self).failures != FAILURES_BEFORE_NOTICE,
            },
    {
        if self.failures < u32::MAX {
            self.failures = self.failures + 1;
        }
        if self.failures == FAILURES_BEFORE_NOTICE && !self.notified {
            self.notified = true;
            Some(init_failure_message(error))
        } else {
            None
        }
    }
}

} // verus!
