//! What the device page writes on its buttons and battery gauges.

use vstd::prelude::*;
use crate::app::state::RingTarget;

verus! {

/// Percentage shown on a battery gauge: the reported level, or 0 when the
/// part has not reported one.
pub fn battery_percent(value: Option<u8>) -> (r: u8)
    ensures
        r == match value {
            Some(v) => v,
            None => 0,
        },
{
    match value {
        Some(v) => v,
        None => 0,
    }
}

/// Label of the personalized noise-cancellation switch.
pub fn personalized_anc_label(on: bool) -> (r: &'static str)
    ensures
        r@ == (if on {
            "personalized anc [ on ]"@
        } else {
            "personalized anc [ off ]"@
        }),
{
    if on {
        "personalized anc [ on ]"
    } else {
        "personalized anc [ off ]"
    }
}

/// Label of the in-ear detection switch.
pub fn in_ear_label(on: bool) -> (r: &'static str)
    ensures
        r@ == (if on {
            "in-ear detect [ on ]"@
        } else {
            "in-ear detect [ off ]"@
        }),
{
    if on {
        "in-ear detect [ on ]"
    } else {
        "in-ear detect [ off ]"
    }
}

/// Label of the low-latency switch.
pub fn latency_label(on: bool) -> (r: &'static str)
    ensures
        r@ == (if on {
            "low latency [ on ]"@
        } else {
            "low latency [ off ]"@
        }),
{
    if on {
        "low latency [ on ]"
    } else {
        "low latency [ off ]"
    }
}

/// A button of the "find my earbuds" section: its label, whether pressing it
/// stops a ring (otherwise it asks for one), and the earbuds it is for.
pub struct RingButton {
    pub label: &'static str,
    pub stop: bool,
    pub target: RingTarget,
}

/// Mathematical value of a ring button.
pub open spec fn ring_button_view(b: RingButton) -> (Seq<char>, bool, RingTarget) {
    (b.label@, b.stop, b.target)
}

/// The button for one earbud: "stop" while it rings, "ring" otherwise.
pub open spec fn one_bud_button(ringing: bool, left: bool) -> (Seq<char>, bool, RingTarget) {
    if left {
        if ringing {
            ("stop left"@, true, RingTarget::Left)
        } else {
            ("ring left"@, false, RingTarget::Left)
        }
    } else {
        if ringing {
            ("stop right"@, true, RingTarget::Right)
        } else {
            ("ring right"@, false, RingTarget::Right)
        }
    }
}

/// The ring buttons shown: one per earbud for a model that rings them
/// separately, otherwise a single button for both that stops the ring while
/// either rings.
pub open spec fn ring_buttons_spec(split: bool, ringing_left: bool, ringing_right: bool) -> Seq<
    (Seq<char>, bool, RingTarget),
> {
    if split {
        seq![one_bud_button(ringing_left, true), one_bud_button(ringing_right, false)]
    } else if ringing_left || ringing_right {
        seq![("stop ringing"@, true, RingTarget::Both)]
    } else {
        seq![("ring earbuds"@, false, RingTarget::Both)]
    }
}

fn one_bud(ringing: bool, left: bool) -> (r: RingButton)
    ensures
        ring_button_view(r) == one_bud_button(ringing, left),
{
    if left {
        if ringing {
            RingButton { label: "stop left", stop: true, target: RingTarget::Left }
        } else {
            RingButton { label: "ring left", stop: false, target: RingTarget::Left }
        }
    } else {
        if ringing {
            RingButton { label: "stop right", stop: true, target: RingTarget::Right }
        } else {
            RingButton { label: "ring right", stop: false, target: RingTarget::Right }
        }
    }
}

/// The ring buttons for a device (see `ring_buttons_spec`); `split` tells
/// whether the model rings each earbud on its own.
pub fn ring_buttons(split: bool, ringing_left: bool, ringing_right: bool) -> (r: Vec<RingButton>)
    ensures
        r@.map_values(|b: RingButton| ring_button_view(b)) == ring_buttons_spec(
            split,
            ringing_left,
            ringing_right,
        ),
{
    let mut r: Vec<RingButton> = Vec::new();
    if split {
        r.push(one_bud(ringing_left, true));
        r.push(one_bud(ringing_right, false));
    } else if ringing_left || ringing_right {
        r.push(RingButton { label: "stop ringing", stop: true, target: RingTarget::Both });
    } else {
        r.push(RingButton { label: "ring earbuds", stop: false, target: RingTarget::Both });
    }
    proof {
        assert(r@.map_values(|b: RingButton| ring_button_view(b)) =~= ring_buttons_spec(
            split,
            ringing_left,
            ringing_right,
        ));
    }
    r
}

} // verus!
