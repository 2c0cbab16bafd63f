use ear_native::app::state::RingTarget;
use ear_native::app::EarNative;
use ear_native::components::anc::{strength_options, supports_personalized_anc};
use ear_native::components::equalizer::{
    custom_eq_active, eq_button_active, eq_presets, meter_bar_lit, supports_advanced_eq,
    supports_custom_eq,
};
use ear_native::models::{get_models, get_sku_map};

#[test]
fn model_table() {
    let models = get_models();
    assert_eq!(models.entries.len(), 24);
    let m = models.get("ear_2_white").unwrap();
    assert_eq!(m.name, "Nothing Ear (2)");
    assert_eq!(m.base, "B155");
    assert!(models.get("nope").is_none());
    for (i, (k, _)) in models.entries.iter().enumerate() {
        for (j, (l, _)) in models.entries.iter().enumerate() {
            assert!(i == j || k != l);
        }
    }
}

#[test]
fn sku_table_points_at_known_models() {
    let skus = get_sku_map();
    let models = get_models();
    assert_eq!(skus.entries.len(), 60);
    assert_eq!(skus.get("17").map(|s| s.as_str()), Some("ear_2_white"));
    assert!(skus.get("unknown").is_none());
    for (_, key) in skus.entries.iter() {
        assert!(models.get(key).is_some(), "{} missing", key);
    }
}

#[test]
fn capabilities_follow_the_documented_families() {
    let models = get_models();
    for (_, m) in models.entries.iter() {
        assert_eq!(supports_personalized_anc(m), m.name == "Nothing Ear (2)");
        assert_eq!(supports_custom_eq(m), m.name != "Nothing Ear (1)");
        assert_eq!(
            supports_advanced_eq(m),
            ["B155", "B157", "B171", "B174"].contains(&m.base.as_str())
        );
        assert_eq!(
            EarNative::supports_ultra_bass(m),
            ["B171", "B172", "B168", "B162"].contains(&m.base.as_str())
        );
        assert_eq!(
            EarNative::supports_ear_tip_test(m),
            ["B155", "B171", "B172", "B162"].contains(&m.base.as_str())
        );
        let listening = m.name == "CMF Buds" || m.name == "CMF Buds Pro 2";
        assert_eq!(
            EarNative::eq_command_for_model(m) == ear_native::protocol::PacketCommand::SetListeningMode,
            listening
        );
    }
}

#[test]
fn preset_and_strength_lists() {
    let models = get_models();
    let buds = models.get("donphan_black").unwrap();
    assert_eq!(eq_presets(buds)[0], (0, "dirac opteo"));
    assert_eq!(eq_presets(buds).len(), 7);
    let ear2 = models.get("ear_2_white").unwrap();
    assert_eq!(eq_presets(ear2).last(), Some(&(6, "advanced")));
    let ear1 = models.get("ear_1_white").unwrap();
    assert_eq!(eq_presets(ear1).len(), 5);
    assert_eq!(strength_options(ear1), vec![(4, "high"), (3, "low")]);
    assert_eq!(strength_options(ear2).len(), 4);
    let stick = models.get("ear_stick").unwrap();
    assert!(strength_options(stick).is_empty());
    assert!(eq_button_active(ear2, 6, 0, true));
    assert!(!eq_button_active(ear2, 2, 2, true));
    assert!(eq_button_active(ear2, 2, 2, false));
    assert!(custom_eq_active(buds, 6, true));
    assert!(!custom_eq_active(ear2, 5, true));
    assert!(custom_eq_active(ear2, 5, false));
}

#[test]
fn ring_and_fit_texts() {
    let models = get_models();
    let ear1 = models.get("ear_1_white").unwrap();
    let ear2 = models.get("ear_2_white").unwrap();
    assert_eq!(EarNative::ring_buds_payload(ear1, RingTarget::Left, true), vec![1]);
    assert_eq!(EarNative::ring_buds_payload(ear2, RingTarget::Left, true), vec![2, 1]);
    assert_eq!(EarNative::ring_buds_payload(ear2, RingTarget::Both, false), vec![3, 0]);
    assert!(!EarNative::supports_split_ring(ear1));
    assert_eq!(EarNative::confirm_message(RingTarget::Both), "start ringing both earbuds?");
    assert_eq!(EarNative::ear_tip_action_label(None, None, false), "start test");
    assert_eq!(EarNative::ear_tip_action_label(Some(0), None, false), "run again");
    assert_eq!(EarNative::ear_tip_action_label(Some(0), None, true), "testing...");
    assert_eq!(EarNative::ear_tip_status_label(Some(1)), "adjust fit");
    assert_eq!(EarNative::ear_tip_status_label(None), "not tested");
    assert_eq!(EarNative::ear_tip_summary(Some(0), Some(0), false), "perfect fit on both sides.");
    assert_eq!(
        EarNative::ear_tip_summary(Some(0), Some(2), false),
        "make sure both earbuds are connected and in your ears."
    );
    assert_eq!(
        EarNative::ear_tip_summary(None, None, true),
        "testing fit. keep both earbuds in your ears."
    );
}

#[test]
fn name_matching_ignores_case() {
    let app = EarNative::new();
    assert_eq!(app.matched_model_key("my NOTHING EAR (2) buds"), Some("ear_2_white"));
    assert_eq!(app.matched_model_name("cmf neckband pro"), Some("CMF Neckband Pro"));
    assert_eq!(app.matched_model_key("speaker"), None);
    assert_eq!(app.inferred_model_key("speaker"), "ear_1_black");
}

#[test]
fn meter_bars() {
    let lit: Vec<i8> = (-6i8..=6).filter(|&step| meter_bar_lit(3, step)).collect();
    assert_eq!(lit, vec![1, 2, 3]);
    let lit: Vec<i8> = (-6i8..=6).filter(|&step| meter_bar_lit(-2, step)).collect();
    assert_eq!(lit, vec![-2, -1]);
    assert!((-6i8..=6).all(|step| !meter_bar_lit(0, step)));
}

#[test]
fn sku_table_shape() {
    let skus = get_sku_map();
    let models = get_models();
    assert_eq!(skus.entries.len(), 60);
    for (key, _) in models.entries.iter() {
        assert!(skus.entries.iter().any(|(_, k)| k == key), "{} not named", key);
    }
    for (i, (sku, _)) in skus.entries.iter().enumerate() {
        let hex = sku.len() == 2 && sku.chars().all(|c| c.is_ascii_digit() || ('a'..='f').contains(&c));
        assert!(hex || sku == "11200005", "{}", sku);
        for (j, (other, _)) in skus.entries.iter().enumerate() {
            assert!(i == j || sku != other);
        }
    }
}

#[test]
fn at_most_one_preset_button_is_active() {
    let models = get_models();
    for (_, m) in models.entries.iter() {
        for eq_preset in 0u8..8 {
            for adv in [false, true] {
                let active: Vec<u8> = eq_presets(m)
                    .into_iter()
                    .map(|(id, _)| id)
                    .filter(|id| eq_button_active(m, *id, eq_preset, adv))
                    .collect();
                assert!(active.len() <= 1, "{} {} {}", m.base, eq_preset, adv);
                if adv {
                    assert!(active.iter().all(|id| *id == 6 && supports_advanced_eq(m)));
                } else {
                    assert!(active.iter().all(|id| *id == eq_preset));
                }
            }
        }
    }
}
