use vstd::prelude::*;
use crate::app::capabilities::{base_is, personalized_anc_model};
use crate::components::equalizer::labeled;
use crate::models::{ModelInfo, ModelInfoView};

verus! {

/// The noise-cancellation strengths offered by a model, as interface level
/// and label, in display order.
pub open spec fn strengths_for(m: ModelInfoView) -> Seq<(u8, Seq<char>)> {
    if m.base == "B181"@ {
        seq![(4u8, "high"@), (3u8, "low"@)]
    } else if m.base == "B163"@ {
        seq![(4u8, "high"@), (5u8, "mid"@), (3u8, "low"@)]
    } else if m.base == "B155"@ || m.base == "B171"@ || m.base == "B162"@ || m.base == "B172"@ {
        seq![(4u8, "high"@), (5u8, "mid"@), (3u8, "low"@), (6u8, "adaptive"@)]
    } else {
        Seq::empty()
    }
}

/// The noise-cancellation strengths offered by a model.
pub fn strength_options(model: &ModelInfo) -> (r: Vec<(u8, &'static str)>)
    ensures
        labeled(r@) == strengths_for(model@),
{
    let mut v: Vec<(u8, &'static str)> = Vec::new();
    if base_is(model, "B181") {
        v.push((4, "high"));
        v.push((3, "low"));
    } else if base_is(model, "B163") {
        v.push((4, "high"));
        v.push((5, "mid"));
        v.push((3, "low"));
    } else if base_is(model, "B155") || base_is(model, "B171") || base_is(model, "B162")
        || base_is(model, "B172") {
        v.push((4, "high"));
        v.push((5, "mid"));
        v.push((3, "low"));
        v.push((6, "adaptive"));
    }
    proof {
        assert(labeled(v@) =~= strengths_for(model@));
    }
    v
}

/// Whether the model has personalized noise cancellation.
pub fn supports_personalized_anc(model: &ModelInfo) -> (r: bool)
    ensures
        r == personalized_anc_model(model@),
{
    base_is(model, "B155")
}

/// Label of a noise-cancellation strength level: 3 low, 4 high, 5 mid,
/// 6 adaptive.
pub open spec fn strength_label(l: u8) -> Seq<char> {
    if l == 3 {
        "low"@
    } else if l == 4 {
        "high"@
    } else if l == 5 {
        "mid"@
    } else {
        "adaptive"@
    }
}

/// The strengths offered per family: B181 high and low; B163 high, mid and
/// low; B155, B171, B162 and B172 high, mid, low and adaptive; none on any
/// other family. Every offered strength carries its level's label, and no
/// level is offered twice.
pub proof fn lemma_strength_families(m: ModelInfoView)
    ensures
        m.base == "B181"@ ==> strengths_for(m) == seq![(4u8, "high"@), (3u8, "low"@)],
        m.base == "B163"@ ==> strengths_for(m) == seq![(4u8, "high"@), (5u8, "mid"@), (3u8, "low"@)],
        (m.base == "B155"@ || m.base == "B171"@ || m.base == "B162"@ || m.base == "B172"@)
            ==> strengths_for(m) == seq![
            (4u8, "high"@),
            (5u8, "mid"@),
            (3u8, "low"@),
            (6u8, "adaptive"@),
        ],
        !(m.base == "B181"@ || m.base == "B163"@ || m.base == "B155"@ || m.base == "B171"@
            || m.base == "B162"@ || m.base == "B172"@) ==> strengths_for(m).len() == 0,
        forall|k: int|
            0 <= k < strengths_for(m).len() ==> (#[trigger] strengths_for(m)[k]).1 == strength_label(
                strengths_for(m)[k].0,
            ),
        forall|j: int, k: int|
            0 <= j < k < strengths_for(m).len() ==> (#[trigger] strengths_for(m)[j]).0
                != (#[trigger] strengths_for(m)[k]).0,
{
    let v = strengths_for(m);
    reveal_strlit("B181");
    reveal_strlit("B163");
    reveal_strlit("B155");
    reveal_strlit("B171");
    reveal_strlit("B162");
    reveal_strlit("B172");
    assert("B181"@[2] == '8' && "B181"@[3] == '1');
    assert("B163"@[2] == '6' && "B163"@[3] == '3');
    assert("B155"@[2] == '5' && "B155"@[3] == '5');
    assert("B171"@[2] == '7' && "B171"@[3] == '1');
    assert("B162"@[2] == '6' && "B162"@[3] == '2');
    assert("B172"@[2] == '7' && "B172"@[3] == '2');
    if m.base == "B181"@ {
        assert(v =~= seq![(4u8, "high"@), (3u8, "low"@)]);
    } else if m.base == "B163"@ {
        assert(v =~= seq![(4u8, "high"@), (5u8, "mid"@), (3u8, "low"@)]);
    } else if m.base == "B155"@ || m.base == "B171"@ || m.base == "B162"@ || m.base == "B172"@ {
        assert(v =~= seq![(4u8, "high"@), (5u8, "mid"@), (3u8, "low"@), (6u8, "adaptive"@)]);
    }
}

} // verus!
