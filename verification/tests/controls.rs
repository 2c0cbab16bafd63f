use ear_native::app::controls::{
    battery_percent, in_ear_label, latency_label, personalized_anc_label, ring_buttons,
};
use ear_native::app::state::RingTarget;

fn shown(split: bool, left: bool, right: bool) -> Vec<(&'static str, bool, RingTarget)> {
    ring_buttons(split, left, right).into_iter().map(|b| (b.label, b.stop, b.target)).collect()
}

#[test]
fn battery_gauge_shows_zero_without_a_report() {
    assert_eq!(battery_percent(None), 0);
    assert_eq!(battery_percent(Some(87)), 87);
}

#[test]
fn switch_labels() {
    assert_eq!(personalized_anc_label(true), "personalized anc [ on ]");
    assert_eq!(personalized_anc_label(false), "personalized anc [ off ]");
    assert_eq!(in_ear_label(true), "in-ear detect [ on ]");
    assert_eq!(in_ear_label(false), "in-ear detect [ off ]");
    assert_eq!(latency_label(true), "low latency [ on ]");
    assert_eq!(latency_label(false), "low latency [ off ]");
}

#[test]
fn ring_buttons_per_model() {
    assert_eq!(shown(true, true, false), vec![
        ("stop left", true, RingTarget::Left),
        ("ring right", false, RingTarget::Right),
    ]);
    assert_eq!(shown(true, false, true), vec![
        ("ring left", false, RingTarget::Left),
        ("stop right", true, RingTarget::Right),
    ]);
    assert_eq!(shown(false, false, true), vec![("stop ringing", true, RingTarget::Both)]);
    assert_eq!(shown(false, false, false), vec![("ring earbuds", false, RingTarget::Both)]);
}
