use vstd::prelude::*;
use crate::app::state::{ConnectedDevice, ConnectedDeviceView, InitialDataLoad, RingTarget};
use crate::app::EarNative;
use crate::models::{fallback_model_key, find_from, lemma_find_from, ModelInfo, ModelInfoView};
use crate::protocol::{device_code, eq_mode_of, DeviceId, EqMode, PacketCommand};
use crate::text::{contains_seq, contains_str, lowercase, owned, str_eq, to_lower};

verus! {

/// Models that take listening-mode commands instead of equalizer commands.
pub open spec fn listening_mode_model(m: ModelInfoView) -> bool {
    m.base == "B172"@ || m.base == "B168"@
}

/// Models with ultra-bass control.
pub open spec fn ultra_bass_model(m: ModelInfoView) -> bool {
    m.base == "B171"@ || m.base == "B172"@ || m.base == "B168"@ || m.base == "B162"@
}

/// Models with the advanced equalizer.
pub open spec fn advanced_eq_model(m: ModelInfoView) -> bool {
    m.base == "B157"@ || m.base == "B155"@ || m.base == "B171"@ || m.base == "B174"@
}

/// Models with personalized noise cancellation.
pub open spec fn personalized_anc_model(m: ModelInfoView) -> bool {
    m.base == "B155"@
}

/// Models with the ear-tip fit test.
pub open spec fn ear_tip_model(m: ModelInfoView) -> bool {
    m.base == "B155"@ || m.base == "B171"@ || m.base == "B172"@ || m.base == "B162"@
}

/// Models whose buds ring separately.
pub open spec fn split_ring_model(m: ModelInfoView) -> bool {
    m.base != "B181"@ && m.left_img.len() > 0 && m.right_img.len() > 0
}

/// Models with the three-band custom equalizer.
pub open spec fn custom_eq_model(m: ModelInfoView) -> bool {
    m.base != "B181"@
}

/// The equalizer mode of a raw preset value, `Balanced` for unknown values.
pub open spec fn eq_mode_or_balanced(v: u8) -> EqMode {
    match eq_mode_of(v) {
        Some(m) => m,
        None => EqMode::Balanced,
    }
}

/// Index of the first model, from index `i` on, whose lower-cased name occurs
/// in the lower-cased device name `lname`.
pub open spec fn match_from(models: Seq<(Seq<char>, ModelInfoView)>, lname: Seq<char>, i: int) -> Option<
    int,
>
    decreases models.len() - i,
{
    if i < 0 || i >= models.len() {
        None
    } else if contains_seq(lname, lowercase(models[i].1.name)) {
        Some(i)
    } else {
        match_from(models, lname, i + 1)
    }
}

/// Key of the first model whose name occurs in `device_name`, ignoring case.
pub open spec fn matched_key(models: Seq<(Seq<char>, ModelInfoView)>, device_name: Seq<char>) -> Option<
    Seq<char>,
> {
    match match_from(models, lowercase(device_name), 0) {
        Some(i) => Some(models[i].0),
        None => None,
    }
}

/// Key of the model assumed for a device called `device_name`: the matched
/// one, or the fallback model.
pub open spec fn inferred_key(models: Seq<(Seq<char>, ModelInfoView)>, device_name: Seq<char>) -> Seq<
    char,
> {
    match matched_key(models, device_name) {
        Some(k) => k,
        None => fallback_model_key(),
    }
}

/// Payload of a ring command: one on/off byte for models that ring both buds
/// together, otherwise the bud's part code followed by the on/off byte (both
/// buds are addressed as the right one).
pub open spec fn ring_payload(m: ModelInfoView, target: RingTarget, enabled: bool) -> Seq<u8> {
    let flag: u8 = if enabled {
        1
    } else {
        0
    };
    if m.base == "B181"@ {
        seq![flag]
    } else {
        seq![
            match target {
                RingTarget::Left => device_code(DeviceId::Left),
                _ => device_code(DeviceId::Right),
            },
            flag,
        ]
    }
}

/// The device with the ringing flags of `target` set to `enabled`.
pub open spec fn with_ringing(d: ConnectedDeviceView, target: RingTarget, enabled: bool) -> ConnectedDeviceView {
    match target {
        RingTarget::Left => ConnectedDeviceView { ringing_left: enabled, ..d },
        RingTarget::Right => ConnectedDeviceView { ringing_right: enabled, ..d },
        RingTarget::Both => ConnectedDeviceView { ringing_left: enabled, ringing_right: enabled, ..d },
    }
}

/// Which reports a freshly identified model still owes.
pub open spec fn load_for_model(m: ModelInfoView) -> InitialDataLoad {
    InitialDataLoad {
        battery: false,
        anc: false,
        eq: false,
        personalized_anc: false,
        in_ear: false,
        latency: false,
        enhanced_bass: false,
        custom_eq: m.base == "B181"@,
        require_anc: m.is_anc,
        require_personalized_anc: personalized_anc_model(m),
    }
}

/// Whether the model family is `code`.
pub fn base_is(model: &ModelInfo, code: &str) -> (r: bool)
    ensures
        r == (model.base@ == code@),
{
    str_eq(model.base.as_str(), code)
}

impl InitialDataLoad {
    /// The reports owed by a freshly identified model: nothing has arrived; the
    /// custom-equalizer report is not awaited on models without custom
    /// equalizer reads (family B181).
    pub fn for_model(model: &ModelInfo) -> (r: InitialDataLoad)
        ensures
            r == load_for_model(model@),
    {
        InitialDataLoad {
            battery: false,
            anc: false,
            eq: false,
            personalized_anc: false,
            in_ear: false,
            latency: false,
            enhanced_bass: false,
            custom_eq: base_is(model, "B181"),
            require_anc: model.is_anc,
            require_personalized_anc: EarNative::supports_personalized_anc(model),
        }
    }
}

impl EarNative {
    /// The command that selects an equalizer preset on this model.
    pub fn eq_command_for_model(model: &ModelInfo) -> (r: PacketCommand)
        ensures
            r == if listening_mode_model(model@) {
                PacketCommand::SetListeningMode
            } else {
                PacketCommand::SetEq
            },
    {
        if base_is(model, "B172") || base_is(model, "B168") {
            PacketCommand::SetListeningMode
        } else {
            PacketCommand::SetEq
        }
    }

    /// The equalizer mode of a raw preset value, `Balanced` for unknown values.
    pub fn eq_mode_from_raw(value: u8) -> (r: EqMode)
        ensures
            r == eq_mode_or_balanced(value),
    {
        match EqMode::from_u8(value) {
            Some(m) => m,
            None => EqMode::Balanced,
        }
    }

    /// Whether the model has ultra-bass control.
    pub fn supports_ultra_bass(model: &ModelInfo) -> (r: bool)
        ensures
            r == ultra_bass_model(model@),
    {
        base_is(model, "B171") || base_is(model, "B172") || base_is(model, "B168") || base_is(
            model,
            "B162",
        )
    }

    /// Whether the model has the advanced equalizer.
    pub fn supports_advanced_eq(model: &ModelInfo) -> (r: bool)
        ensures
            r == advanced_eq_model(model@),
    {
        base_is(model, "B157") || base_is(model, "B155") || base_is(model, "B171") || base_is(
            model,
            "B174",
        )
    }

    /// Whether the model has personalized noise cancellation.
    pub fn supports_personalized_anc(model: &ModelInfo) -> (r: bool)
        ensures
            r == personalized_anc_model(model@),
    {
        base_is(model, "B155")
    }

    /// Whether the model has the ear-tip fit test.
    pub fn supports_ear_tip_test(model: &ModelInfo) -> (r: bool)
        ensures
            r == ear_tip_model(model@),
    {
        base_is(model, "B155") || base_is(model, "B171") || base_is(model, "B172") || base_is(
            model,
            "B162",
        )
    }

    /// Whether the buds of this model ring separately.
    pub fn supports_split_ring(model: &ModelInfo) -> (r: bool)
        ensures
            r == split_ring_model(model@),
    {
        !base_is(model, "B181") && model.left_img.as_str().unicode_len() > 0
            && model.right_img.as_str().unicode_len() > 0
    }

    /// Whether the model has the three-band custom equalizer.
    pub fn supports_custom_eq(model: &ModelInfo) -> (r: bool)
        ensures
            r == custom_eq_model(model@),
    {
        crate::components::equalizer::supports_custom_eq(model)
    }

    /// Key of the first model in the table whose name occurs in the device
    /// name, ignoring case. Several colours of one model share its name; the
    /// table order decides which of them is taken, and any of them is a
    /// model that the name does match.
    pub fn matched_model_key(&self, device_name: &str) -> (r: Option<&str>)
        ensures
            match matched_key(self.models@, device_name@) {
                Some(k) => r is Some && r.unwrap()@ == k,
                None => r is None,
            },
    {
        let lname = to_lower(device_name);
        let n = self.models.entries.len();
        let mut i: usize = 0;
        while i < n
            invariant
                n == self.models.entries@.len(),
                n == self.models@.len(),
                i <= n,
                lname@ == lowercase(device_name@),
                match_from(self.models@, lname@, 0) == match_from(self.models@, lname@, i as int),
            decreases n - i,
        {
            let mname = to_lower(self.models.entries[i].1.name.as_str());
            if contains_str(lname.as_str(), mname.as_str()) {
                return Some(self.models.entries[i].0.as_str());
            }
            i = i + 1;
        }
        None
    }

    /// Name of the model matched by `matched_model_key`.
    pub fn matched_model_name(&self, device_name: &str) -> (r: Option<&str>)
        ensures
            match matched_key(self.models@, device_name@) {
                Some(k) => match find_from(self.models@, k, 0) {
                    Some(i) => r is Some && r.unwrap()@ == self.models@[i].1.name,
                    None => r is None,
                },
                None => r is None,
            },
    {
        match self.matched_model_key(device_name) {
            Some(key) => match self.models.get(key) {
                Some(model) => Some(model.name.as_str()),
                None => None,
            },
            None => None,
        }
    }

    /// Key of the model assumed for a device: the matched one, or the
    /// fallback model.
    pub fn inferred_model_key(&self, device_name: &str) -> (r: String)
        ensures
            r@ == inferred_key(self.models@, device_name@),
    {
        match self.matched_model_key(device_name) {
            Some(k) => owned(k),
            None => owned("ear_1_black"),
        }
    }

    /// Payload of a ring command for `target`.
    pub fn ring_buds_payload(model: &ModelInfo, target: RingTarget, enabled: bool) -> (r: Vec<u8>)
        ensures
            r@ == ring_payload(model@, target, enabled),
    {
        let flag: u8 = if enabled {
            1
        } else {
            0
        };
        let mut v: Vec<u8> = Vec::new();
        if base_is(model, "B181") {
            v.push(flag);
            proof {
                assert(v@ =~= ring_payload(model@, target, enabled));
            }
        } else {
            let part = match target {
                RingTarget::Left => DeviceId::Left.to_u8(),
                RingTarget::Right => DeviceId::Right.to_u8(),
                RingTarget::Both => DeviceId::Right.to_u8(),
            };
            v.push(part);
            v.push(flag);
            proof {
                assert(v@ =~= ring_payload(model@, target, enabled));
            }
        }
        v
    }

    /// Sets the ringing flags of `target` to `enabled`.
    pub fn set_ringing_state(device: &mut ConnectedDevice, target: RingTarget, enabled: bool)
        ensures
            final(device)@ == with_ringing(old(device)@, target, enabled),
    {
        match target {
            RingTarget::Left => {
                device.ringing_left = enabled;
            },
            RingTarget::Right => {
                device.ringing_right = enabled;
            },
            RingTarget::Both => {
                device.ringing_left = enabled;
                device.ringing_right = enabled;
            },
        }
    }

    /// The question asked before ringing `target`.
    pub fn confirm_message(target: RingTarget) -> (r: &'static str)
        ensures
            r@ == match target {
                RingTarget::Left => "start ringing the left earbud?"@,
                RingTarget::Right => "start ringing the right earbud?"@,
                RingTarget::Both => "start ringing both earbuds?"@,
            },
    {
        match target {
            RingTarget::Left => "start ringing the left earbud?",
            RingTarget::Right => "start ringing the right earbud?",
            RingTarget::Both => "start ringing both earbuds?",
        }
    }

    /// Label of one bud's fit-test result.
    pub fn ear_tip_status_label(status: Option<u8>) -> (r: &'static str)
        ensures
            r@ == match status {
                Some(0) => "good fit"@,
                Some(1) => "adjust fit"@,
                Some(2) => "not detected"@,
                _ => "not tested"@,
            },
    {
        match status {
            Some(0) => "good fit",
            Some(1) => "adjust fit",
            Some(2) => "not detected",
            _ => "not tested",
        }
    }

    /// Label of the button that starts the fit test.
    pub fn ear_tip_action_label(left: Option<u8>, right: Option<u8>, running: bool) -> (r: &'static str)
        ensures
            r@ == if running {
                "testing..."@
            } else if left is Some || right is Some {
                "run again"@
            } else {
                "start test"@
            },
    {
        if running {
            "testing..."
        } else if left.is_some() || right.is_some() {
            "run again"
        } else {
            "start test"
        }
    }

    /// Summary of both buds' fit-test results.
    pub fn ear_tip_summary(left: Option<u8>, right: Option<u8>, running: bool) -> (r: &'static str)
        ensures
            r@ == if running {
                "testing fit. keep both earbuds in your ears."@
            } else {
                match (left, right) {
                    (Some(0), Some(0)) => "perfect fit on both sides."@,
                    (Some(1), Some(1)) => "adjust both earbuds or try another tip size."@,
                    (Some(1), Some(0)) => "adjust the left earbud or try another tip size."@,
                    (Some(0), Some(1)) => "adjust the right earbud or try another tip size."@,
                    (Some(2), _) => "make sure both earbuds are connected and in your ears."@,
                    (_, Some(2)) => "make sure both earbuds are connected and in your ears."@,
                    _ => "put both earbuds in your ears, then start the test."@,
                }
            },
    {
        if running {
            "testing fit. keep both earbuds in your ears."
        } else {
            match (left, right) {
                (Some(0), Some(0)) => "perfect fit on both sides.",
                (Some(1), Some(1)) => "adjust both earbuds or try another tip size.",
                (Some(1), Some(0)) => "adjust the left earbud or try another tip size.",
                (Some(0), Some(1)) => "adjust the right earbud or try another tip size.",
                (Some(2), _) | (_, Some(2)) => {
                    "make sure both earbuds are connected and in your ears."
                },
                _ => "put both earbuds in your ears, then start the test.",
            }
        }
    }
}

/// With the standard tables, the key inferred for any device name is a
/// key of the model table.
pub proof fn lemma_inferred_key_known(device_name: Seq<char>)
    ensures
        find_from(
            crate::models::standard_models(),
            inferred_key(crate::models::standard_models(), device_name),
            0,
        ) is Some,
{
    let t = crate::models::standard_models();
    crate::models::lemma_sku_targets_known();
    match match_from(t, lowercase(device_name), 0) {
        Some(i) => {
            lemma_match_from(t, lowercase(device_name), 0);
            crate::models::lemma_find_present(t, t[i].0, i);
        },
        None => {},
    }
}

/// A matched index lies in the table.
pub proof fn lemma_match_from(models: Seq<(Seq<char>, ModelInfoView)>, lname: Seq<char>, i: int)
    requires
        0 <= i,
    ensures
        match_from(models, lname, i) matches Some(j) ==> i <= j < models.len(),
    decreases models.len() - i,
{
    if i < models.len() && !contains_seq(lname, lowercase(models[i].1.name)) {
        lemma_match_from(models, lname, i + 1);
    }
}

} // verus!
