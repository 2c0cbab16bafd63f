use vstd::prelude::*;
use crate::app::capabilities::{advanced_eq_model, base_is, custom_eq_model, listening_mode_model};
use crate::models::{ModelInfo, ModelInfoView};

verus! {

/// Whether the model has the three-band custom equalizer.
pub fn supports_custom_eq(model: &ModelInfo) -> (r: bool)
    ensures
        r == custom_eq_model(model@),
{
    !base_is(model, "B181")
}

/// Whether the model has the advanced equalizer.
pub fn supports_advanced_eq(model: &ModelInfo) -> (r: bool)
    ensures
        r == advanced_eq_model(model@),
{
    base_is(model, "B157") || base_is(model, "B155") || base_is(model, "B171") || base_is(
        model,
        "B174",
    )
}

/// Preset numbers and labels, with the label text as characters.
pub open spec fn labeled(v: Seq<(u8, &'static str)>) -> Seq<(u8, Seq<char>)> {
    v.map_values(|e: (u8, &'static str)| (e.0, e.1@))
}

/// The equalizer presets offered by a model, in display order.
pub open spec fn presets_for(m: ModelInfoView) -> Seq<(u8, Seq<char>)> {
    if listening_mode_model(m) {
        seq![
            (0u8, "dirac opteo"@),
            (3u8, "pop"@),
            (1u8, "rock"@),
            (5u8, "classical"@),
            (2u8, "electronic"@),
            (4u8, "enhance vocals"@),
            (6u8, "custom"@),
        ]
    } else if m.base == "B155"@ || m.base == "B157"@ || m.base == "B171"@ || m.base == "B174"@ {
        seq![
            (0u8, "balanced"@),
            (3u8, "more bass"@),
            (2u8, "more treble"@),
            (1u8, "voice"@),
            (5u8, "custom"@),
            (6u8, "advanced"@),
        ]
    } else {
        seq![
            (0u8, "balanced"@),
            (3u8, "more bass"@),
            (2u8, "more treble"@),
            (1u8, "voice"@),
            (5u8, "custom"@),
        ]
    }
}

/// The equalizer presets offered by a model, in display order.
pub fn eq_presets(model: &ModelInfo) -> (r: Vec<(u8, &'static str)>)
    ensures
        labeled(r@) == presets_for(model@),
{
    let mut v: Vec<(u8, &'static str)> = Vec::new();
    if base_is(model, "B172") || base_is(model, "B168") {
        v.push((0, "dirac opteo"));
        v.push((3, "pop"));
        v.push((1, "rock"));
        v.push((5, "classical"));
        v.push((2, "electronic"));
        v.push((4, "enhance vocals"));
        v.push((6, "custom"));
    } else if base_is(model, "B155") || base_is(model, "B157") || base_is(model, "B171")
        || base_is(model, "B174") {
        v.push((0, "balanced"));
        v.push((3, "more bass"));
        v.push((2, "more treble"));
        v.push((1, "voice"));
        v.push((5, "custom"));
        v.push((6, "advanced"));
    } else {
        v.push((0, "balanced"));
        v.push((3, "more bass"));
        v.push((2, "more treble"));
        v.push((1, "voice"));
        v.push((5, "custom"));
    }
    proof {
        assert(labeled(v@) =~= presets_for(model@));
    }
    v
}

/// Whether the preset button `preset` shows as selected.
pub open spec fn eq_button_is_active(
    m: ModelInfoView,
    preset: u8,
    eq_preset: u8,
    advanced_eq_enabled: bool,
) -> bool {
    if advanced_eq_model(m) && preset == 6 {
        advanced_eq_enabled
    } else {
        !advanced_eq_enabled && preset == eq_preset
    }
}

/// Whether the preset button `preset` shows as selected: the advanced button
/// follows the advanced-equalizer flag, every other button the current preset
/// while the advanced equalizer is off.
pub fn eq_button_active(model: &ModelInfo, preset: u8, eq_preset: u8, advanced_eq_enabled: bool) -> (r:
    bool)
    ensures
        r == eq_button_is_active(model@, preset, eq_preset, advanced_eq_enabled),
{
    if supports_advanced_eq(model) && preset == 6 {
        advanced_eq_enabled
    } else {
        !advanced_eq_enabled && preset == eq_preset
    }
}

/// At most one preset button shows as selected: with the advanced equalizer
/// on, only the advanced button (6) of a model that has it; otherwise only the
/// button of the current preset, and never the advanced button.
pub proof fn lemma_one_preset_active(m: ModelInfoView, eq_preset: u8, advanced_eq_enabled: bool)
    ensures
        forall|i: int, j: int|
            0 <= i < j < presets_for(m).len() ==> !(eq_button_is_active(
                m,
                #[trigger] presets_for(m)[i].0,
                eq_preset,
                advanced_eq_enabled,
            ) && eq_button_is_active(m, #[trigger] presets_for(m)[j].0, eq_preset, advanced_eq_enabled)),
        forall|id: u8|
            #[trigger] eq_button_is_active(m, id, eq_preset, advanced_eq_enabled) ==> if advanced_eq_enabled {
                advanced_eq_model(m) && id == 6
            } else {
                id == eq_preset && !(advanced_eq_model(m) && id == 6)
            },
{
    let p = presets_for(m);
    assert forall|i: int, j: int| 0 <= i < j < p.len() implies p[i].0 != p[j].0 by {
        if listening_mode_model(m) {
            assert(p =~= seq![
                (0u8, "dirac opteo"@),
                (3u8, "pop"@),
                (1u8, "rock"@),
                (5u8, "classical"@),
                (2u8, "electronic"@),
                (4u8, "enhance vocals"@),
                (6u8, "custom"@),
            ]);
        }
    }
}

/// Whether the custom equalizer is the active preset.
pub open spec fn custom_eq_is_active(m: ModelInfoView, eq_preset: u8, advanced_eq_enabled: bool) -> bool {
    if listening_mode_model(m) {
        eq_preset == 6
    } else {
        eq_preset == 5 && !advanced_eq_enabled
    }
}

/// Whether the custom equalizer is the active preset: preset 6 on models with
/// listening modes, otherwise preset 5 while the advanced equalizer is off.
pub fn custom_eq_active(model: &ModelInfo, eq_preset: u8, advanced_eq_enabled: bool) -> (r: bool)
    ensures
        r == custom_eq_is_active(model@, eq_preset, advanced_eq_enabled),
{
    if base_is(model, "B172") || base_is(model, "B168") {
        eq_preset == 6
    } else {
        eq_preset == 5 && !advanced_eq_enabled
    }
}

/// Whether the bar for `step` dB of a band's meter is lit when the band is at
/// `level` dB: the bars from 0 (excluded) up to the level, on the level's side.
pub fn meter_bar_lit(level: i8, step: i8) -> (r: bool)
    ensures
        r == ((level > 0 && 0 < step <= level) || (level < 0 && level <= step < 0)),
{
    if level > 0 {
        step > 0 && step <= level
    } else if level < 0 {
        step < 0 && step >= level
    } else {
        false
    }
}

/// The presets offered per family: on B172 and B168 dirac opteo (0), pop
/// (3), rock (1), classical (5), electronic (2), enhance vocals (4) and
/// custom (6); on B155, B157, B171 and B174 balanced (0), more bass (3), more
/// treble (2), voice (1), custom (5) and advanced (6); on every other family
/// the same without advanced.
pub proof fn lemma_preset_families(m: ModelInfoView)
    ensures
        (m.base == "B172"@ || m.base == "B168"@) ==> presets_for(m) == seq![
            (0u8, "dirac opteo"@),
            (3u8, "pop"@),
            (1u8, "rock"@),
            (5u8, "classical"@),
            (2u8, "electronic"@),
            (4u8, "enhance vocals"@),
            (6u8, "custom"@),
        ],
        (m.base == "B155"@ || m.base == "B157"@ || m.base == "B171"@ || m.base == "B174"@)
            ==> presets_for(m) == seq![
            (0u8, "balanced"@),
            (3u8, "more bass"@),
            (2u8, "more treble"@),
            (1u8, "voice"@),
            (5u8, "custom"@),
            (6u8, "advanced"@),
        ],
        !(m.base == "B172"@ || m.base == "B168"@ || m.base == "B155"@ || m.base == "B157"@
            || m.base == "B171"@ || m.base == "B174"@) ==> presets_for(m) == seq![
            (0u8, "balanced"@),
            (3u8, "more bass"@),
            (2u8, "more treble"@),
            (1u8, "voice"@),
            (5u8, "custom"@),
        ],
{
    reveal_strlit("B172");
    assert("B172"@[2] == '7' && "B172"@[3] == '2');
    reveal_strlit("B168");
    assert("B168"@[2] == '6' && "B168"@[3] == '8');
    reveal_strlit("B155");
    assert("B155"@[2] == '5' && "B155"@[3] == '5');
    reveal_strlit("B157");
    assert("B157"@[2] == '5' && "B157"@[3] == '7');
    reveal_strlit("B171");
    assert("B171"@[2] == '7' && "B171"@[3] == '1');
    reveal_strlit("B174");
    assert("B174"@[2] == '7' && "B174"@[3] == '4');
}

} // verus!
