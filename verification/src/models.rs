use vstd::prelude::*;
use crate::text::{owned, str_eq};
use crate::app::device_list::{lemma_text_lt_order, text_lt};

verus! {

/// Name, model family, artwork and noise-cancelling support of one model.
#[derive(Debug)]
pub struct ModelInfo {
    pub name: String,
    pub base: String,
    pub left_img: String,
    pub case_img: String,
    pub right_img: String,
    pub duo_img: String,
    pub is_anc: bool,
}

/// Mathematical value of a model description.
pub struct ModelInfoView {
    pub name: Seq<char>,
    pub base: Seq<char>,
    pub left_img: Seq<char>,
    pub case_img: Seq<char>,
    pub right_img: Seq<char>,
    pub duo_img: Seq<char>,
    pub is_anc: bool,
}

impl View for ModelInfo {
    type V = ModelInfoView;

    open spec fn view(&self) -> ModelInfoView {
        ModelInfoView {
            name: self.name@,
            base: self.base@,
            left_img: self.left_img@,
            case_img: self.case_img@,
            right_img: self.right_img@,
            duo_img: self.duo_img@,
            is_anc: self.is_anc,
        }
    }
}

impl Clone for ModelInfo {
    fn clone(&self) -> (r: Self)
        ensures
            r@ == self@,
    {
        ModelInfo {
            name: self.name.clone(),
            base: self.base.clone(),
            left_img: self.left_img.clone(),
            case_img: self.case_img.clone(),
            right_img: self.right_img.clone(),
            duo_img: self.duo_img.clone(),
            is_anc: self.is_anc,
        }
    }
}

/// The model descriptions, each under its key.
#[derive(Debug)]
pub struct ModelTable {
    pub entries: Vec<(String, ModelInfo)>,
}

impl View for ModelTable {
    type V = Seq<(Seq<char>, ModelInfoView)>;

    open spec fn view(&self) -> Seq<(Seq<char>, ModelInfoView)> {
        Seq::new(self.entries@.len(), |i: int| (self.entries@[i].0@, self.entries@[i].1@))
    }
}

/// The model key of each SKU code.
#[derive(Debug)]
pub struct SkuTable {
    pub entries: Vec<(String, String)>,
}

impl View for SkuTable {
    type V = Seq<(Seq<char>, Seq<char>)>;

    open spec fn view(&self) -> Seq<(Seq<char>, Seq<char>)> {
        Seq::new(self.entries@.len(), |i: int| (self.entries@[i].0@, self.entries@[i].1@))
    }
}

/// Index of the first entry at or after `i` whose key is `key`.
pub open spec fn find_from<V>(t: Seq<(Seq<char>, V)>, key: Seq<char>, i: int) -> Option<int>
    decreases t.len() - i,
{
    if i < 0 || i >= t.len() {
        None
    } else if t[i].0 == key {
        Some(i)
    } else {
        find_from(t, key, i + 1)
    }
}

/// The value stored under `key` (the first one, should the key repeat).
pub open spec fn lookup<V>(t: Seq<(Seq<char>, V)>, key: Seq<char>) -> Option<V> {
    match find_from(t, key, 0) {
        Some(i) => Some(t[i].1),
        None => None,
    }
}

/// A found index holds the key, and no earlier index from `i` on does.
pub proof fn lemma_find_from<V>(t: Seq<(Seq<char>, V)>, key: Seq<char>, i: int)
    requires
        0 <= i,
    ensures
        find_from(t, key, i) matches Some(j) ==> i <= j < t.len() && t[j].0 == key && forall|
            k: int,
        |
            i <= k < j ==> t[k].0 != key,
        find_from(t, key, i) is None ==> forall|k: int| i <= k < t.len() ==> t[k].0 != key,
    decreases t.len() - i,
{
    if i < t.len() && t[i].0 != key {
        lemma_find_from(t, key, i + 1);
    }
}

/// A key present at index `j` is found.
pub proof fn lemma_find_present<V>(t: Seq<(Seq<char>, V)>, key: Seq<char>, j: int)
    requires
        0 <= j < t.len(),
        t[j].0 == key,
    ensures
        find_from(t, key, 0) is Some,
{
    lemma_find_from(t, key, 0);
}

fn model(
    name: &str,
    base: &str,
    left_img: &str,
    case_img: &str,
    right_img: &str,
    duo_img: &str,
    is_anc: bool,
) -> (r: ModelInfo)
    ensures
        r@ == (ModelInfoView {
            name: name@,
            base: base@,
            left_img: left_img@,
            case_img: case_img@,
            right_img: right_img@,
            duo_img: duo_img@,
            is_anc,
        }),
{
    ModelInfo {
        name: owned(name),
        base: owned(base),
        left_img: owned(left_img),
        case_img: owned(case_img),
        right_img: owned(right_img),
        duo_img: owned(duo_img),
        is_anc,
    }
}

/// The known models, in table order.
pub open spec fn standard_models() -> Seq<(Seq<char>, ModelInfoView)> {
    seq![
        (
            "ear_1_white"@,
            ModelInfoView {
                name: "Nothing Ear (1)"@,
                base: "B181"@,
                left_img: "res/assets/ear_one_white_left.webp"@,
                case_img: "res/assets/ear_one_white_case.webp"@,
                right_img: "res/assets/ear_one_white_right.webp"@,
                duo_img: "res/assets/ear_one_white_duo.webp"@,
                is_anc: true,
            },
        ),
        (
            "ear_1_black"@,
            ModelInfoView {
                name: "Nothing Ear (1)"@,
                base: "B181"@,
                left_img: "res/assets/ear_one_black_left.webp"@,
                case_img: "res/assets/ear_one_black_case.webp"@,
                right_img: "res/assets/ear_one_black_right.webp"@,
                duo_img: "res/assets/ear_one_black_duo.webp"@,
                is_anc: true,
            },
        ),
        (
            "ear_stick"@,
            ModelInfoView {
                name: "Nothing Ear (stick)"@,
                base: "B157"@,
                left_img: "res/assets/ear_stick_left.webp"@,
                case_img: "res/assets/ear_stick_case_none.webp"@,
                right_img: "res/assets/ear_stick_right.webp"@,
                duo_img: "res/assets/ear_stick_white_duo.webp"@,
                is_anc: false,
            },
        ),
        (
            "ear_2_white"@,
            ModelInfoView {
                name: "Nothing Ear (2)"@,
                base: "B155"@,
                left_img: "res/assets/ear_two_white_left.webp"@,
                case_img: "res/assets/ear_two_white_case.webp"@,
                right_img: "res/assets/ear_two_white_right.webp"@,
                duo_img: "res/assets/ear_two_white_duo.webp"@,
                is_anc: true,
            },
        ),
        (
            "ear_2_black"@,
            ModelInfoView {
                name: "Nothing Ear (2)"@,
                base: "B155"@,
                left_img: "res/assets/ear_two_black_left.webp"@,
                case_img: "res/assets/ear_two_black_case.webp"@,
                right_img: "res/assets/ear_two_black_right.webp"@,
                duo_img: "res/assets/ear_two_black_duo.webp"@,
                is_anc: true,
            },
        ),
        (
            "corsola_orange"@,
            ModelInfoView {
                name: "CMF Buds Pro"@,
                base: "B163"@,
                left_img: "res/assets/ear_corsola_orange_left.webp"@,
                case_img: "res/assets/ear_corsola_orange_case.webp"@,
                right_img: "res/assets/ear_corsola_orange_right.webp"@,
                duo_img: ""@,
                is_anc: true,
            },
        ),
        (
            "corsola_black"@,
            ModelInfoView {
                name: "CMF Buds Pro"@,
                base: "B163"@,
                left_img: "res/assets/ear_corsola_black_left.webp"@,
                case_img: "res/assets/ear_corsola_black_case.webp"@,
                right_img: "res/assets/ear_corsola_black_right.webp"@,
                duo_img: ""@,
                is_anc: true,
            },
        ),
        (
            "corsola_white"@,
            ModelInfoView {
                name: "CMF Buds Pro"@,
                base: "B163"@,
                left_img: "res/assets/ear_corsola_white_left.webp"@,
                case_img: "res/assets/ear_corsola_white_case.webp"@,
                right_img: "res/assets/ear_corsola_white_right.webp"@,
                duo_img: ""@,
                is_anc: true,
            },
        ),
        (
            "entei_black"@,
            ModelInfoView {
                name: "Nothing Ear"@,
                base: "B171"@,
                left_img: "res/assets/ear_twos_black_left.webp"@,
                case_img: "res/assets/ear_twos_black_case.webp"@,
                right_img: "res/assets/ear_twos_black_right.webp"@,
                duo_img: ""@,
                is_anc: true,
            },
        ),
        (
            "entei_white"@,
            ModelInfoView {
                name: "Nothing Ear"@,
                base: "B171"@,
                left_img: "res/assets/ear_twos_white_left.webp"@,
                case_img: "res/assets/ear_twos_white_case.webp"@,
                right_img: "res/assets/ear_twos_white_right.webp"@,
                duo_img: ""@,
                is_anc: true,
            },
        ),
        (
            "cleffa_black"@,
            ModelInfoView {
                name: "Nothing Ear (a)"@,
                base: "B162"@,
                left_img: "res/assets/ear_color_black_left.webp"@,
                case_img: "res/assets/ear_color_black_case.webp"@,
                right_img: "res/assets/ear_color_black_right.webp"@,
                duo_img: ""@,
                is_anc: true,
            },
        ),
        (
            "cleffa_white"@,
            ModelInfoView {
                name: "Nothing Ear (a)"@,
                base: "B162"@,
                left_img: "res/assets/ear_color_white_left.webp"@,
                case_img: "res/assets/ear_color_white_case.webp"@,
                right_img: "res/assets/ear_color_white_right.webp"@,
                duo_img: ""@,
                is_anc: true,
            },
        ),
        (
            "cleffa_yellow"@,
            ModelInfoView {
                name: "Nothing Ear (a)"@,
                base: "B162"@,
                left_img: "res/assets/ear_color_yellow_left.webp"@,
                case_img: "res/assets/ear_color_yellow_case.webp"@,
                right_img: "res/assets/ear_color_yellow_right.webp"@,
                duo_img: ""@,
                is_anc: true,
            },
        ),
        (
            "crobat_orange"@,
            ModelInfoView {
                name: "CMF Neckband Pro"@,
                base: "B164"@,
                left_img: ""@,
                case_img: ""@,
                right_img: ""@,
                duo_img: "res/assets/crobat_orange.webp"@,
                is_anc: true,
            },
        ),
        (
            "crobat_white"@,
            ModelInfoView {
                name: "CMF Neckband Pro"@,
                base: "B164"@,
                left_img: ""@,
                case_img: ""@,
                right_img: ""@,
                duo_img: "res/assets/crobat_white.webp"@,
                is_anc: true,
            },
        ),
        (
            "crobat_black"@,
            ModelInfoView {
                name: "CMF Neckband Pro"@,
                base: "B164"@,
                left_img: ""@,
                case_img: ""@,
                right_img: ""@,
                duo_img: "res/assets/crobat_black.webp"@,
                is_anc: true,
            },
        ),
        (
            "donphan_black"@,
            ModelInfoView {
                name: "CMF Buds"@,
                base: "B168"@,
                left_img: "res/assets/donphan_black_left.webp"@,
                case_img: "res/assets/donphan_black_case.webp"@,
                right_img: "res/assets/donphan_black_right.webp"@,
                duo_img: ""@,
                is_anc: true,
            },
        ),
        (
            "donphan_white"@,
            ModelInfoView {
                name: "CMF Buds"@,
                base: "B168"@,
                left_img: "res/assets/donphan_white_left.webp"@,
                case_img: "res/assets/donphan_white_case.webp"@,
                right_img: "res/assets/donphan_white_right.webp"@,
                duo_img: ""@,
                is_anc: true,
            },
        ),
        (
            "donphan_orange"@,
            ModelInfoView {
                name: "CMF Buds"@,
                base: "B168"@,
                left_img: "res/assets/donphan_orange_left.webp"@,
                case_img: "res/assets/donphan_orange_case.webp"@,
                right_img: "res/assets/donphan_orange_right.webp"@,
                duo_img: ""@,
                is_anc: true,
            },
        ),
        (
            "espeon_black"@,
            ModelInfoView {
                name: "CMF Buds Pro 2"@,
                base: "B172"@,
                left_img: "res/assets/espeon_black_left.webp"@,
                case_img: "res/assets/espeon_black_case.webp"@,
                right_img: "res/assets/espeon_black_right.webp"@,
                duo_img: ""@,
                is_anc: true,
            },
        ),
        (
            "espeon_white"@,
            ModelInfoView {
                name: "CMF Buds Pro 2"@,
                base: "B172"@,
                left_img: "res/assets/espeon_white_left.webp"@,
                case_img: "res/assets/espeon_white_case.webp"@,
                right_img: "res/assets/espeon_white_right.webp"@,
                duo_img: ""@,
                is_anc: true,
            },
        ),
        (
            "espeon_orange"@,
            ModelInfoView {
                name: "CMF Buds Pro 2"@,
                base: "B172"@,
                left_img: "res/assets/espeon_orange_left.webp"@,
                case_img: "res/assets/espeon_orange_case.webp"@,
                right_img: "res/assets/espeon_orange_right.webp"@,
                duo_img: ""@,
                is_anc: true,
            },
        ),
        (
            "espeon_blue"@,
            ModelInfoView {
                name: "CMF Buds Pro 2"@,
                base: "B172"@,
                left_img: "res/assets/espeon_blue_left.webp"@,
                case_img: "res/assets/espeon_blue_case.webp"@,
                right_img: "res/assets/espeon_blue_right.webp"@,
                duo_img: ""@,
                is_anc: true,
            },
        ),
        (
            "flaaffy_white"@,
            ModelInfoView {
                name: "Nothing Ear (open)"@,
                base: "B174"@,
                left_img: "res/assets/flaffy_white_left.webp"@,
                case_img: "res/assets/flaffy_white_case.webp"@,
                right_img: "res/assets/flaffy_white_right.webp"@,
                duo_img: ""@,
                is_anc: false,
            },
        ),
    ]
}

/// The known SKU codes and the model key of each, in table order.
pub open spec fn standard_skus() -> Seq<(Seq<char>, Seq<char>)> {
    seq![
        ("01"@, "ear_1_white"@),
        ("02"@, "ear_1_black"@),
        ("03"@, "ear_1_white"@),
        ("04"@, "ear_1_black"@),
        ("06"@, "ear_1_black"@),
        ("07"@, "ear_1_white"@),
        ("08"@, "ear_1_black"@),
        ("10"@, "ear_1_black"@),
        ("14"@, "ear_stick"@),
        ("15"@, "ear_stick"@),
        ("16"@, "ear_stick"@),
        ("17"@, "ear_2_white"@),
        ("18"@, "ear_2_white"@),
        ("19"@, "ear_2_white"@),
        ("27"@, "ear_2_black"@),
        ("28"@, "ear_2_black"@),
        ("29"@, "ear_2_black"@),
        ("30"@, "corsola_black"@),
        ("31"@, "corsola_black"@),
        ("32"@, "corsola_white"@),
        ("33"@, "corsola_white"@),
        ("34"@, "corsola_orange"@),
        ("35"@, "corsola_orange"@),
        ("48"@, "crobat_orange"@),
        ("49"@, "crobat_white"@),
        ("50"@, "crobat_black"@),
        ("51"@, "crobat_black"@),
        ("52"@, "crobat_white"@),
        ("53"@, "crobat_orange"@),
        ("54"@, "donphan_black"@),
        ("55"@, "donphan_black"@),
        ("56"@, "donphan_white"@),
        ("57"@, "donphan_white"@),
        ("58"@, "donphan_orange"@),
        ("59"@, "donphan_orange"@),
        ("61"@, "entei_black"@),
        ("62"@, "entei_white"@),
        ("63"@, "cleffa_black"@),
        ("64"@, "cleffa_white"@),
        ("65"@, "cleffa_yellow"@),
        ("66"@, "cleffa_black"@),
        ("67"@, "cleffa_white"@),
        ("68"@, "cleffa_yellow"@),
        ("69"@, "entei_black"@),
        ("70"@, "entei_white"@),
        ("71"@, "cleffa_black"@),
        ("72"@, "cleffa_white"@),
        ("73"@, "cleffa_yellow"@),
        ("74"@, "entei_black"@),
        ("75"@, "entei_white"@),
        ("76"@, "espeon_black"@),
        ("77"@, "espeon_white"@),
        ("78"@, "espeon_orange"@),
        ("79"@, "espeon_blue"@),
        ("80"@, "espeon_blue"@),
        ("81"@, "espeon_orange"@),
        ("82"@, "espeon_white"@),
        ("83"@, "espeon_black"@),
        ("05"@, "espeon_white"@),
        ("11200005"@, "flaaffy_white"@),
    ]
}

/// The table of known models.
pub fn get_models() -> (r: ModelTable)
    ensures
        r@ == standard_models(),
        table_keys_unique(r@),
{
    proof {
        lemma_model_keys_unique();
    }
    let mut m: Vec<(String, ModelInfo)> = Vec::new();
    m.push(
        (
            owned("ear_1_white"),
            model(
                "Nothing Ear (1)",
                "B181",
                "res/assets/ear_one_white_left.webp",
                "res/assets/ear_one_white_case.webp",
                "res/assets/ear_one_white_right.webp",
                "res/assets/ear_one_white_duo.webp",
                true,
            ),
        ),
    );
    m.push(
        (
            owned("ear_1_black"),
            model(
                "Nothing Ear (1)",
                "B181",
                "res/assets/ear_one_black_left.webp",
                "res/assets/ear_one_black_case.webp",
                "res/assets/ear_one_black_right.webp",
                "res/assets/ear_one_black_duo.webp",
                true,
            ),
        ),
    );
    m.push(
        (
            owned("ear_stick"),
            model(
                "Nothing Ear (stick)",
                "B157",
                "res/assets/ear_stick_left.webp",
                "res/assets/ear_stick_case_none.webp",
                "res/assets/ear_stick_right.webp",
                "res/assets/ear_stick_white_duo.webp",
                false,
            ),
        ),
    );
    m.push(
        (
            owned("ear_2_white"),
            model(
                "Nothing Ear (2)",
                "B155",
                "res/assets/ear_two_white_left.webp",
                "res/assets/ear_two_white_case.webp",
                "res/assets/ear_two_white_right.webp",
                "res/assets/ear_two_white_duo.webp",
                true,
            ),
        ),
    );
    m.push(
        (
            owned("ear_2_black"),
            model(
                "Nothing Ear (2)",
                "B155",
                "res/assets/ear_two_black_left.webp",
                "res/assets/ear_two_black_case.webp",
                "res/assets/ear_two_black_right.webp",
                "res/assets/ear_two_black_duo.webp",
                true,
            ),
        ),
    );
    m.push(
        (
            owned("corsola_orange"),
            model(
                "CMF Buds Pro",
                "B163",
                "res/assets/ear_corsola_orange_left.webp",
                "res/assets/ear_corsola_orange_case.webp",
                "res/assets/ear_corsola_orange_right.webp",
                "",
                true,
            ),
        ),
    );
    m.push(
        (
            owned("corsola_black"),
            model(
                "CMF Buds Pro",
                "B163",
                "res/assets/ear_corsola_black_left.webp",
                "res/assets/ear_corsola_black_case.webp",
                "res/assets/ear_corsola_black_right.webp",
                "",
                true,
            ),
        ),
    );
    m.push(
        (
            owned("corsola_white"),
            model(
                "CMF Buds Pro",
                "B163",
                "res/assets/ear_corsola_white_left.webp",
                "res/assets/ear_corsola_white_case.webp",
                "res/assets/ear_corsola_white_right.webp",
                "",
                true,
            ),
        ),
    );
    m.push(
        (
            owned("entei_black"),
            model(
                "Nothing Ear",
                "B171",
                "res/assets/ear_twos_black_left.webp",
                "res/assets/ear_twos_black_case.webp",
                "res/assets/ear_twos_black_right.webp",
                "",
                true,
            ),
        ),
    );
    m.push(
        (
            owned("entei_white"),
            model(
                "Nothing Ear",
                "B171",
                "res/assets/ear_twos_white_left.webp",
                "res/assets/ear_twos_white_case.webp",
                "res/assets/ear_twos_white_right.webp",
                "",
                true,
            ),
        ),
    );
    m.push(
        (
            owned("cleffa_black"),
            model(
                "Nothing Ear (a)",
                "B162",
                "res/assets/ear_color_black_left.webp",
                "res/assets/ear_color_black_case.webp",
                "res/assets/ear_color_black_right.webp",
                "",
                true,
            ),
        ),
    );
    m.push(
        (
            owned("cleffa_white"),
            model(
                "Nothing Ear (a)",
                "B162",
                "res/assets/ear_color_white_left.webp",
                "res/assets/ear_color_white_case.webp",
                "res/assets/ear_color_white_right.webp",
                "",
                true,
            ),
        ),
    );
    m.push(
        (
            owned("cleffa_yellow"),
            model(
                "Nothing Ear (a)",
                "B162",
                "res/assets/ear_color_yellow_left.webp",
                "res/assets/ear_color_yellow_case.webp",
                "res/assets/ear_color_yellow_right.webp",
                "",
                true,
            ),
        ),
    );
    m.push(
        (
            owned("crobat_orange"),
            model(
                "CMF Neckband Pro",
                "B164",
                "",
                "",
                "",
                "res/assets/crobat_orange.webp",
                true,
            ),
        ),
    );
    m.push(
        (
            owned("crobat_white"),
            model(
                "CMF Neckband Pro",
                "B164",
                "",
                "",
                "",
                "res/assets/crobat_white.webp",
                true,
            ),
        ),
    );
    m.push(
        (
            owned("crobat_black"),
            model(
                "CMF Neckband Pro",
                "B164",
                "",
                "",
                "",
                "res/assets/crobat_black.webp",
                true,
            ),
        ),
    );
    m.push(
        (
            owned("donphan_black"),
            model(
                "CMF Buds",
                "B168",
                "res/assets/donphan_black_left.webp",
                "res/assets/donphan_black_case.webp",
                "res/assets/donphan_black_right.webp",
                "",
                true,
            ),
        ),
    );
    m.push(
        (
            owned("donphan_white"),
            model(
                "CMF Buds",
                "B168",
                "res/assets/donphan_white_left.webp",
                "res/assets/donphan_white_case.webp",
                "res/assets/donphan_white_right.webp",
                "",
                true,
            ),
        ),
    );
    m.push(
        (
            owned("donphan_orange"),
            model(
                "CMF Buds",
                "B168",
                "res/assets/donphan_orange_left.webp",
                "res/assets/donphan_orange_case.webp",
                "res/assets/donphan_orange_right.webp",
                "",
                true,
            ),
        ),
    );
    m.push(
        (
            owned("espeon_black"),
            model(
                "CMF Buds Pro 2",
                "B172",
                "res/assets/espeon_black_left.webp",
                "res/assets/espeon_black_case.webp",
                "res/assets/espeon_black_right.webp",
                "",
                true,
            ),
        ),
    );
    m.push(
        (
            owned("espeon_white"),
            model(
                "CMF Buds Pro 2",
                "B172",
                "res/assets/espeon_white_left.webp",
                "res/assets/espeon_white_case.webp",
                "res/assets/espeon_white_right.webp",
                "",
                true,
            ),
        ),
    );
    m.push(
        (
            owned("espeon_orange"),
            model(
                "CMF Buds Pro 2",
                "B172",
                "res/assets/espeon_orange_left.webp",
                "res/assets/espeon_orange_case.webp",
                "res/assets/espeon_orange_right.webp",
                "",
                true,
            ),
        ),
    );
    m.push(
        (
            owned("espeon_blue"),
            model(
                "CMF Buds Pro 2",
                "B172",
                "res/assets/espeon_blue_left.webp",
                "res/assets/espeon_blue_case.webp",
                "res/assets/espeon_blue_right.webp",
                "",
                true,
            ),
        ),
    );
    m.push(
        (
            owned("flaaffy_white"),
            model(
                "Nothing Ear (open)",
                "B174",
                "res/assets/flaffy_white_left.webp",
                "res/assets/flaffy_white_case.webp",
                "res/assets/flaffy_white_right.webp",
                "",
                false,
            ),
        ),
    );
    let t = ModelTable { entries: m };
    proof {
        assert(t@ =~= standard_models());
    }
    t
}

/// The table of known SKU codes.
pub fn get_sku_map() -> (r: SkuTable)
    ensures
        r@ == standard_skus(),
        table_keys_unique(r@),
{
    proof {
        lemma_sku_keys_unique();
    }
    let mut m: Vec<(String, String)> = Vec::new();
    m.push((owned("01"), owned("ear_1_white")));
    m.push((owned("02"), owned("ear_1_black")));
    m.push((owned("03"), owned("ear_1_white")));
    m.push((owned("04"), owned("ear_1_black")));
    m.push((owned("06"), owned("ear_1_black")));
    m.push((owned("07"), owned("ear_1_white")));
    m.push((owned("08"), owned("ear_1_black")));
    m.push((owned("10"), owned("ear_1_black")));
    m.push((owned("14"), owned("ear_stick")));
    m.push((owned("15"), owned("ear_stick")));
    m.push((owned("16"), owned("ear_stick")));
    m.push((owned("17"), owned("ear_2_white")));
    m.push((owned("18"), owned("ear_2_white")));
    m.push((owned("19"), owned("ear_2_white")));
    m.push((owned("27"), owned("ear_2_black")));
    m.push((owned("28"), owned("ear_2_black")));
    m.push((owned("29"), owned("ear_2_black")));
    m.push((owned("30"), owned("corsola_black")));
    m.push((owned("31"), owned("corsola_black")));
    m.push((owned("32"), owned("corsola_white")));
    m.push((owned("33"), owned("corsola_white")));
    m.push((owned("34"), owned("corsola_orange")));
    m.push((owned("35"), owned("corsola_orange")));
    m.push((owned("48"), owned("crobat_orange")));
    m.push((owned("49"), owned("crobat_white")));
    m.push((owned("50"), owned("crobat_black")));
    m.push((owned("51"), owned("crobat_black")));
    m.push((owned("52"), owned("crobat_white")));
    m.push((owned("53"), owned("crobat_orange")));
    m.push((owned("54"), owned("donphan_black")));
    m.push((owned("55"), owned("donphan_black")));
    m.push((owned("56"), owned("donphan_white")));
    m.push((owned("57"), owned("donphan_white")));
    m.push((owned("58"), owned("donphan_orange")));
    m.push((owned("59"), owned("donphan_orange")));
    m.push((owned("61"), owned("entei_black")));
    m.push((owned("62"), owned("entei_white")));
    m.push((owned("63"), owned("cleffa_black")));
    m.push((owned("64"), owned("cleffa_white")));
    m.push((owned("65"), owned("cleffa_yellow")));
    m.push((owned("66"), owned("cleffa_black")));
    m.push((owned("67"), owned("cleffa_white")));
    m.push((owned("68"), owned("cleffa_yellow")));
    m.push((owned("69"), owned("entei_black")));
    m.push((owned("70"), owned("entei_white")));
    m.push((owned("71"), owned("cleffa_black")));
    m.push((owned("72"), owned("cleffa_white")));
    m.push((owned("73"), owned("cleffa_yellow")));
    m.push((owned("74"), owned("entei_black")));
    m.push((owned("75"), owned("entei_white")));
    m.push((owned("76"), owned("espeon_black")));
    m.push((owned("77"), owned("espeon_white")));
    m.push((owned("78"), owned("espeon_orange")));
    m.push((owned("79"), owned("espeon_blue")));
    m.push((owned("80"), owned("espeon_blue")));
    m.push((owned("81"), owned("espeon_orange")));
    m.push((owned("82"), owned("espeon_white")));
    m.push((owned("83"), owned("espeon_black")));
    m.push((owned("05"), owned("espeon_white")));
    m.push((owned("11200005"), owned("flaaffy_white")));
    let t = SkuTable { entries: m };
    proof {
        assert(t@ =~= standard_skus());
    }
    t
}

impl ModelTable {
    /// The model stored under `key`.
    pub fn get(&self, key: &str) -> (r: Option<&ModelInfo>)
        ensures
            match find_from(self@, key@, 0) {
                Some(i) => r is Some && r.unwrap()@ == self@[i].1,
                None => r is None,
            },
    {
        let n = self.entries.len();
        let mut i: usize = 0;
        while i < n
            invariant
                n == self.entries@.len(),
                i <= n,
                find_from(self@, key@, 0) == find_from(self@, key@, i as int),
            decreases n - i,
        {
            if str_eq(self.entries[i].0.as_str(), key) {
                return Some(&self.entries[i].1);
            }
            i = i + 1;
        }
        None
    }
}

impl SkuTable {
    /// The model key stored under `sku`.
    pub fn get(&self, sku: &str) -> (r: Option<&String>)
        ensures
            match find_from(self@, sku@, 0) {
                Some(i) => r is Some && r.unwrap()@ == self@[i].1,
                None => r is None,
            },
    {
        let n = self.entries.len();
        let mut i: usize = 0;
        while i < n
            invariant
                n == self.entries@.len(),
                i <= n,
                find_from(self@, sku@, 0) == find_from(self@, sku@, i as int),
            decreases n - i,
        {
            if str_eq(self.entries[i].0.as_str(), sku) {
                return Some(&self.entries[i].1);
            }
            i = i + 1;
        }
        None
    }
}

/// Key of the model assumed when nothing identifies the device.
pub open spec fn fallback_model_key() -> Seq<char> {
    "ear_1_black"@
}

/// Every model key that the SKU table names is in the model table, and so is
/// the fallback key: identification always ends at a known model.
pub proof fn lemma_sku_targets_known()
    ensures
        forall|j: int|
            0 <= j < standard_skus().len() ==> #[trigger] find_from(
                standard_models(),
                standard_skus()[j].1,
                0,
            ) is Some,
        find_from(standard_models(), fallback_model_key(), 0) is Some,
{
    let t = standard_models();
    let s = standard_skus();
    lemma_find_present(t, fallback_model_key(), 1);
    lemma_find_present(t, s[0].1, 0);
    lemma_find_present(t, s[1].1, 1);
    lemma_find_present(t, s[2].1, 0);
    lemma_find_present(t, s[3].1, 1);
    lemma_find_present(t, s[4].1, 1);
    lemma_find_present(t, s[5].1, 0);
    lemma_find_present(t, s[6].1, 1);
    lemma_find_present(t, s[7].1, 1);
    lemma_find_present(t, s[8].1, 2);
    lemma_find_present(t, s[9].1, 2);
    lemma_find_present(t, s[10].1, 2);
    lemma_find_present(t, s[11].1, 3);
    lemma_find_present(t, s[12].1, 3);
    lemma_find_present(t, s[13].1, 3);
    lemma_find_present(t, s[14].1, 4);
    lemma_find_present(t, s[15].1, 4);
    lemma_find_present(t, s[16].1, 4);
    lemma_find_present(t, s[17].1, 6);
    lemma_find_present(t, s[18].1, 6);
    lemma_find_present(t, s[19].1, 7);
    lemma_find_present(t, s[20].1, 7);
    lemma_find_present(t, s[21].1, 5);
    lemma_find_present(t, s[22].1, 5);
    lemma_find_present(t, s[23].1, 13);
    lemma_find_present(t, s[24].1, 14);
    lemma_find_present(t, s[25].1, 15);
    lemma_find_present(t, s[26].1, 15);
    lemma_find_present(t, s[27].1, 14);
    lemma_find_present(t, s[28].1, 13);
    lemma_find_present(t, s[29].1, 16);
    lemma_find_present(t, s[30].1, 16);
    lemma_find_present(t, s[31].1, 17);
    lemma_find_present(t, s[32].1, 17);
    lemma_find_present(t, s[33].1, 18);
    lemma_find_present(t, s[34].1, 18);
    lemma_find_present(t, s[35].1, 8);
    lemma_find_present(t, s[36].1, 9);
    lemma_find_present(t, s[37].1, 10);
    lemma_find_present(t, s[38].1, 11);
    lemma_find_present(t, s[39].1, 12);
    lemma_find_present(t, s[40].1, 10);
    lemma_find_present(t, s[41].1, 11);
    lemma_find_present(t, s[42].1, 12);
    lemma_find_present(t, s[43].1, 8);
    lemma_find_present(t, s[44].1, 9);
    lemma_find_present(t, s[45].1, 10);
    lemma_find_present(t, s[46].1, 11);
    lemma_find_present(t, s[47].1, 12);
    lemma_find_present(t, s[48].1, 8);
    lemma_find_present(t, s[49].1, 9);
    lemma_find_present(t, s[50].1, 19);
    lemma_find_present(t, s[51].1, 20);
    lemma_find_present(t, s[52].1, 21);
    lemma_find_present(t, s[53].1, 22);
    lemma_find_present(t, s[54].1, 22);
    lemma_find_present(t, s[55].1, 21);
    lemma_find_present(t, s[56].1, 20);
    lemma_find_present(t, s[57].1, 19);
    lemma_find_present(t, s[58].1, 20);
    lemma_find_present(t, s[59].1, 23);
}


/// No SKU in the table reads "unknown", the text given for an unreadable SKU.
pub proof fn lemma_unknown_sku_not_listed()
    ensures
        find_from(standard_skus(), "unknown"@, 0) is None,
{
    let t = standard_skus();
    reveal_strlit("unknown");
    reveal_strlit("01");
    reveal_strlit("02");
    reveal_strlit("03");
    reveal_strlit("04");
    reveal_strlit("06");
    reveal_strlit("07");
    reveal_strlit("08");
    reveal_strlit("10");
    reveal_strlit("14");
    reveal_strlit("15");
    reveal_strlit("16");
    reveal_strlit("17");
    reveal_strlit("18");
    reveal_strlit("19");
    reveal_strlit("27");
    reveal_strlit("28");
    reveal_strlit("29");
    reveal_strlit("30");
    reveal_strlit("31");
    reveal_strlit("32");
    reveal_strlit("33");
    reveal_strlit("34");
    reveal_strlit("35");
    reveal_strlit("48");
    reveal_strlit("49");
    reveal_strlit("50");
    reveal_strlit("51");
    reveal_strlit("52");
    reveal_strlit("53");
    reveal_strlit("54");
    reveal_strlit("55");
    reveal_strlit("56");
    reveal_strlit("57");
    reveal_strlit("58");
    reveal_strlit("59");
    reveal_strlit("61");
    reveal_strlit("62");
    reveal_strlit("63");
    reveal_strlit("64");
    reveal_strlit("65");
    reveal_strlit("66");
    reveal_strlit("67");
    reveal_strlit("68");
    reveal_strlit("69");
    reveal_strlit("70");
    reveal_strlit("71");
    reveal_strlit("72");
    reveal_strlit("73");
    reveal_strlit("74");
    reveal_strlit("75");
    reveal_strlit("76");
    reveal_strlit("77");
    reveal_strlit("78");
    reveal_strlit("79");
    reveal_strlit("80");
    reveal_strlit("81");
    reveal_strlit("82");
    reveal_strlit("83");
    reveal_strlit("05");
    reveal_strlit("11200005");
    assert(t[0].0.len() == 2);
    assert(t[1].0.len() == 2);
    assert(t[2].0.len() == 2);
    assert(t[3].0.len() == 2);
    assert(t[4].0.len() == 2);
    assert(t[5].0.len() == 2);
    assert(t[6].0.len() == 2);
    assert(t[7].0.len() == 2);
    assert(t[8].0.len() == 2);
    assert(t[9].0.len() == 2);
    assert(t[10].0.len() == 2);
    assert(t[11].0.len() == 2);
    assert(t[12].0.len() == 2);
    assert(t[13].0.len() == 2);
    assert(t[14].0.len() == 2);
    assert(t[15].0.len() == 2);
    assert(t[16].0.len() == 2);
    assert(t[17].0.len() == 2);
    assert(t[18].0.len() == 2);
    assert(t[19].0.len() == 2);
    assert(t[20].0.len() == 2);
    assert(t[21].0.len() == 2);
    assert(t[22].0.len() == 2);
    assert(t[23].0.len() == 2);
    assert(t[24].0.len() == 2);
    assert(t[25].0.len() == 2);
    assert(t[26].0.len() == 2);
    assert(t[27].0.len() == 2);
    assert(t[28].0.len() == 2);
    assert(t[29].0.len() == 2);
    assert(t[30].0.len() == 2);
    assert(t[31].0.len() == 2);
    assert(t[32].0.len() == 2);
    assert(t[33].0.len() == 2);
    assert(t[34].0.len() == 2);
    assert(t[35].0.len() == 2);
    assert(t[36].0.len() == 2);
    assert(t[37].0.len() == 2);
    assert(t[38].0.len() == 2);
    assert(t[39].0.len() == 2);
    assert(t[40].0.len() == 2);
    assert(t[41].0.len() == 2);
    assert(t[42].0.len() == 2);
    assert(t[43].0.len() == 2);
    assert(t[44].0.len() == 2);
    assert(t[45].0.len() == 2);
    assert(t[46].0.len() == 2);
    assert(t[47].0.len() == 2);
    assert(t[48].0.len() == 2);
    assert(t[49].0.len() == 2);
    assert(t[50].0.len() == 2);
    assert(t[51].0.len() == 2);
    assert(t[52].0.len() == 2);
    assert(t[53].0.len() == 2);
    assert(t[54].0.len() == 2);
    assert(t[55].0.len() == 2);
    assert(t[56].0.len() == 2);
    assert(t[57].0.len() == 2);
    assert(t[58].0.len() == 2);
    assert(t[59].0.len() == 8);
    lemma_find_from(t, "unknown"@, 0);
}



/// No key occurs twice in the table.
pub open spec fn table_keys_unique<V>(t: Seq<(Seq<char>, V)>) -> bool {
    forall|i: int, j: int| 0 <= i < j < t.len() ==> #[trigger] t[i].0 != #[trigger] t[j].0
}

/// A text that agrees with another up to position `k` and has a smaller
/// character there comes first.
proof fn lemma_text_lt_at(a: Seq<char>, b: Seq<char>, k: int)
    requires
        0 <= k < a.len(),
        k < b.len(),
        forall|i: int| 0 <= i < k ==> a[i] == b[i],
        (a[k] as int) < (b[k] as int),
    ensures
        text_lt(a, b),
    decreases k,
{
    if k > 0 {
        lemma_text_lt_at(a.drop_first(), b.drop_first(), k - 1);
    }
}

/// In the order `perm`, the key at place `c` is in the table and comes
/// strictly before the key at place `c + 1`.
pub open spec fn ordered_step<V>(t: Seq<(Seq<char>, V)>, perm: Seq<int>, c: int) -> bool {
    0 <= perm[c] < t.len() && text_lt(t[perm[c]].0, t[perm[c + 1]].0)
}

/// Keys listed in an order `perm` in which each comes strictly before the
/// next, where `perm` reaches every index (`perm[inv[i]] == i`), are all
/// different.
proof fn lemma_keys_unique_by_order<V>(t: Seq<(Seq<char>, V)>, perm: Seq<int>, inv: Seq<int>)
    requires
        t.len() >= 1,
        perm.len() == t.len(),
        0 <= perm[t.len() - 1] < t.len(),
        forall|a: int| 0 <= a < t.len() - 1 ==> #[trigger] ordered_step(t, perm, a),
        forall|i: int| 0 <= i < t.len() ==> 0 <= #[trigger] inv[i] < t.len() && perm[inv[i]] == i,
    ensures
        table_keys_unique(t),
{
    assert forall|a: int, b: int| 0 <= a < b < t.len() implies text_lt(t[perm[a]].0, t[perm[b]].0) by {
        lemma_order_chain(t, perm, a, b);
    }
    assert forall|i: int, j: int| 0 <= i < j < t.len() implies t[i].0 != t[j].0 by {
        let a = inv[i];
        let b = inv[j];
        lemma_text_lt_order(t[i].0, t[j].0, t[i].0);
        if a < b {
            assert(text_lt(t[perm[a]].0, t[perm[b]].0));
        } else {
            assert(text_lt(t[perm[b]].0, t[perm[a]].0));
        }
    }
}

proof fn lemma_order_chain<V>(t: Seq<(Seq<char>, V)>, perm: Seq<int>, a: int, b: int)
    requires
        0 <= a < b < t.len(),
        forall|c: int| 0 <= c < t.len() - 1 ==> #[trigger] ordered_step(t, perm, c),
    ensures
        text_lt(t[perm[a]].0, t[perm[b]].0),
    decreases b - a,
{
    assert(ordered_step(t, perm, b - 1));
    if b > a + 1 {
        lemma_order_chain(t, perm, a, b - 1);
        lemma_text_lt_order(t[perm[a]].0, t[perm[b - 1]].0, t[perm[b]].0);
    }
}

/// Each model key occurs once in the model table, and each SKU once in the
/// SKU table.
pub proof fn lemma_standard_keys_unique()
    ensures
        table_keys_unique(standard_models()),
        table_keys_unique(standard_skus()),
{
    lemma_model_keys_unique();
    lemma_sku_keys_unique();
}

proof fn lemma_model_keys_unique()
    ensures
        table_keys_unique(standard_models()),
{
    let t = standard_models();
    reveal_strlit("cleffa_black");
    reveal_strlit("cleffa_white");
    reveal_strlit("cleffa_yellow");
    reveal_strlit("corsola_black");
    reveal_strlit("corsola_orange");
    reveal_strlit("corsola_white");
    reveal_strlit("crobat_black");
    reveal_strlit("crobat_orange");
    reveal_strlit("crobat_white");
    reveal_strlit("donphan_black");
    reveal_strlit("donphan_orange");
    reveal_strlit("donphan_white");
    reveal_strlit("ear_1_black");
    reveal_strlit("ear_1_white");
    reveal_strlit("ear_2_black");
    reveal_strlit("ear_2_white");
    reveal_strlit("ear_stick");
    reveal_strlit("entei_black");
    reveal_strlit("entei_white");
    reveal_strlit("espeon_black");
    reveal_strlit("espeon_blue");
    reveal_strlit("espeon_orange");
    reveal_strlit("espeon_white");
    reveal_strlit("flaaffy_white");
    let perm: Seq<int> = seq![10, 11, 12, 6, 5, 7, 15, 13, 14, 16, 18, 17, 1, 0, 4, 3, 2, 8, 9, 19, 22, 21, 20, 23];
    let inv: Seq<int> = seq![13, 12, 16, 15, 14, 4, 3, 5, 17, 18, 0, 1, 2, 7, 8, 6, 9, 11, 10, 19, 22, 21, 20, 23];
    lemma_text_lt_at("cleffa_black"@, "cleffa_white"@, 7);
    lemma_text_lt_at("cleffa_white"@, "cleffa_yellow"@, 7);
    lemma_text_lt_at("cleffa_yellow"@, "corsola_black"@, 1);
    lemma_text_lt_at("corsola_black"@, "corsola_orange"@, 8);
    lemma_text_lt_at("corsola_orange"@, "corsola_white"@, 8);
    lemma_text_lt_at("corsola_white"@, "crobat_black"@, 1);
    lemma_text_lt_at("crobat_black"@, "crobat_orange"@, 7);
    lemma_text_lt_at("crobat_orange"@, "crobat_white"@, 7);
    lemma_text_lt_at("crobat_white"@, "donphan_black"@, 0);
    lemma_text_lt_at("donphan_black"@, "donphan_orange"@, 8);
    lemma_text_lt_at("donphan_orange"@, "donphan_white"@, 8);
    lemma_text_lt_at("donphan_white"@, "ear_1_black"@, 0);
    lemma_text_lt_at("ear_1_black"@, "ear_1_white"@, 6);
    lemma_text_lt_at("ear_1_white"@, "ear_2_black"@, 4);
    lemma_text_lt_at("ear_2_black"@, "ear_2_white"@, 6);
    lemma_text_lt_at("ear_2_white"@, "ear_stick"@, 4);
    lemma_text_lt_at("ear_stick"@, "entei_black"@, 1);
    lemma_text_lt_at("entei_black"@, "entei_white"@, 6);
    lemma_text_lt_at("entei_white"@, "espeon_black"@, 1);
    lemma_text_lt_at("espeon_black"@, "espeon_blue"@, 9);
    lemma_text_lt_at("espeon_blue"@, "espeon_orange"@, 7);
    lemma_text_lt_at("espeon_orange"@, "espeon_white"@, 7);
    lemma_text_lt_at("espeon_white"@, "flaaffy_white"@, 0);
    assert forall|a: int| 0 <= a < t.len() - 1 implies ordered_step(t, perm, a) by {
        if a == 0 {
            assert(t[perm[a]].0 == "cleffa_black"@ && t[perm[a + 1]].0 == "cleffa_white"@);
        } else if a == 1 {
            assert(t[perm[a]].0 == "cleffa_white"@ && t[perm[a + 1]].0 == "cleffa_yellow"@);
        } else if a == 2 {
            assert(t[perm[a]].0 == "cleffa_yellow"@ && t[perm[a + 1]].0 == "corsola_black"@);
        } else if a == 3 {
            assert(t[perm[a]].0 == "corsola_black"@ && t[perm[a + 1]].0 == "corsola_orange"@);
        } else if a == 4 {
            assert(t[perm[a]].0 == "corsola_orange"@ && t[perm[a + 1]].0 == "corsola_white"@);
        } else if a == 5 {
            assert(t[perm[a]].0 == "corsola_white"@ && t[perm[a + 1]].0 == "crobat_black"@);
        } else if a == 6 {
            assert(t[perm[a]].0 == "crobat_black"@ && t[perm[a + 1]].0 == "crobat_orange"@);
        } else if a == 7 {
            assert(t[perm[a]].0 == "crobat_orange"@ && t[perm[a + 1]].0 == "crobat_white"@);
        } else if a == 8 {
            assert(t[perm[a]].0 == "crobat_white"@ && t[perm[a + 1]].0 == "donphan_black"@);
        } else if a == 9 {
            assert(t[perm[a]].0 == "donphan_black"@ && t[perm[a + 1]].0 == "donphan_orange"@);
        } else if a == 10 {
            assert(t[perm[a]].0 == "donphan_orange"@ && t[perm[a + 1]].0 == "donphan_white"@);
        } else if a == 11 {
            assert(t[perm[a]].0 == "donphan_white"@ && t[perm[a + 1]].0 == "ear_1_black"@);
        } else if a == 12 {
            assert(t[perm[a]].0 == "ear_1_black"@ && t[perm[a + 1]].0 == "ear_1_white"@);
        } else if a == 13 {
            assert(t[perm[a]].0 == "ear_1_white"@ && t[perm[a + 1]].0 == "ear_2_black"@);
        } else if a == 14 {
            assert(t[perm[a]].0 == "ear_2_black"@ && t[perm[a + 1]].0 == "ear_2_white"@);
        } else if a == 15 {
            assert(t[perm[a]].0 == "ear_2_white"@ && t[perm[a + 1]].0 == "ear_stick"@);
        } else if a == 16 {
            assert(t[perm[a]].0 == "ear_stick"@ && t[perm[a + 1]].0 == "entei_black"@);
        } else if a == 17 {
            assert(t[perm[a]].0 == "entei_black"@ && t[perm[a + 1]].0 == "entei_white"@);
        } else if a == 18 {
            assert(t[perm[a]].0 == "entei_white"@ && t[perm[a + 1]].0 == "espeon_black"@);
        } else if a == 19 {
            assert(t[perm[a]].0 == "espeon_black"@ && t[perm[a + 1]].0 == "espeon_blue"@);
        } else if a == 20 {
            assert(t[perm[a]].0 == "espeon_blue"@ && t[perm[a + 1]].0 == "espeon_orange"@);
        } else if a == 21 {
            assert(t[perm[a]].0 == "espeon_orange"@ && t[perm[a + 1]].0 == "espeon_white"@);
        } else if a == 22 {
            assert(t[perm[a]].0 == "espeon_white"@ && t[perm[a + 1]].0 == "flaaffy_white"@);
        }
    }
    assert forall|i: int| 0 <= i < t.len() implies 0 <= inv[i] < t.len() && perm[inv[i]] == i by {
        if i == 0 {
            assert(perm[inv[i]] == 0);
        } else if i == 1 {
            assert(perm[inv[i]] == 1);
        } else if i == 2 {
            assert(perm[inv[i]] == 2);
        } else if i == 3 {
            assert(perm[inv[i]] == 3);
        } else if i == 4 {
            assert(perm[inv[i]] == 4);
        } else if i == 5 {
            assert(perm[inv[i]] == 5);
        } else if i == 6 {
            assert(perm[inv[i]] == 6);
        } else if i == 7 {
            assert(perm[inv[i]] == 7);
        } else if i == 8 {
            assert(perm[inv[i]] == 8);
        } else if i == 9 {
            assert(perm[inv[i]] == 9);
        } else if i == 10 {
            assert(perm[inv[i]] == 10);
        } else if i == 11 {
            assert(perm[inv[i]] == 11);
        } else if i == 12 {
            assert(perm[inv[i]] == 12);
        } else if i == 13 {
            assert(perm[inv[i]] == 13);
        } else if i == 14 {
            assert(perm[inv[i]] == 14);
        } else if i == 15 {
            assert(perm[inv[i]] == 15);
        } else if i == 16 {
            assert(perm[inv[i]] == 16);
        } else if i == 17 {
            assert(perm[inv[i]] == 17);
        } else if i == 18 {
            assert(perm[inv[i]] == 18);
        } else if i == 19 {
            assert(perm[inv[i]] == 19);
        } else if i == 20 {
            assert(perm[inv[i]] == 20);
        } else if i == 21 {
            assert(perm[inv[i]] == 21);
        } else if i == 22 {
            assert(perm[inv[i]] == 22);
        } else if i == 23 {
            assert(perm[inv[i]] == 23);
        }
    }
    lemma_keys_unique_by_order(t, perm, inv);
}

proof fn lemma_sku_keys_unique()
    ensures
        table_keys_unique(standard_skus()),
{
    let t = standard_skus();
    reveal_strlit("01");
    reveal_strlit("02");
    reveal_strlit("03");
    reveal_strlit("04");
    reveal_strlit("05");
    reveal_strlit("06");
    reveal_strlit("07");
    reveal_strlit("08");
    reveal_strlit("10");
    reveal_strlit("11200005");
    reveal_strlit("14");
    reveal_strlit("15");
    reveal_strlit("16");
    reveal_strlit("17");
    reveal_strlit("18");
    reveal_strlit("19");
    reveal_strlit("27");
    reveal_strlit("28");
    reveal_strlit("29");
    reveal_strlit("30");
    reveal_strlit("31");
    reveal_strlit("32");
    reveal_strlit("33");
    reveal_strlit("34");
    reveal_strlit("35");
    reveal_strlit("48");
    reveal_strlit("49");
    reveal_strlit("50");
    reveal_strlit("51");
    reveal_strlit("52");
    reveal_strlit("53");
    reveal_strlit("54");
    reveal_strlit("55");
    reveal_strlit("56");
    reveal_strlit("57");
    reveal_strlit("58");
    reveal_strlit("59");
    reveal_strlit("61");
    reveal_strlit("62");
    reveal_strlit("63");
    reveal_strlit("64");
    reveal_strlit("65");
    reveal_strlit("66");
    reveal_strlit("67");
    reveal_strlit("68");
    reveal_strlit("69");
    reveal_strlit("70");
    reveal_strlit("71");
    reveal_strlit("72");
    reveal_strlit("73");
    reveal_strlit("74");
    reveal_strlit("75");
    reveal_strlit("76");
    reveal_strlit("77");
    reveal_strlit("78");
    reveal_strlit("79");
    reveal_strlit("80");
    reveal_strlit("81");
    reveal_strlit("82");
    reveal_strlit("83");
    let perm: Seq<int> = seq![0, 1, 2, 3, 58, 4, 5, 6, 7, 59, 8, 9, 10, 11, 12, 13, 14, 15, 16, 17, 18, 19, 20, 21, 22, 23, 24, 25, 26, 27, 28, 29, 30, 31, 32, 33, 34, 35, 36, 37, 38, 39, 40, 41, 42, 43, 44, 45, 46, 47, 48, 49, 50, 51, 52, 53, 54, 55, 56, 57];
    let inv: Seq<int> = seq![0, 1, 2, 3, 5, 6, 7, 8, 10, 11, 12, 13, 14, 15, 16, 17, 18, 19, 20, 21, 22, 23, 24, 25, 26, 27, 28, 29, 30, 31, 32, 33, 34, 35, 36, 37, 38, 39, 40, 41, 42, 43, 44, 45, 46, 47, 48, 49, 50, 51, 52, 53, 54, 55, 56, 57, 58, 59, 4, 9];
    lemma_text_lt_at("01"@, "02"@, 1);
    lemma_text_lt_at("02"@, "03"@, 1);
    lemma_text_lt_at("03"@, "04"@, 1);
    lemma_text_lt_at("04"@, "05"@, 1);
    lemma_text_lt_at("05"@, "06"@, 1);
    lemma_text_lt_at("06"@, "07"@, 1);
    lemma_text_lt_at("07"@, "08"@, 1);
    lemma_text_lt_at("08"@, "10"@, 0);
    lemma_text_lt_at("10"@, "11200005"@, 1);
    lemma_text_lt_at("11200005"@, "14"@, 1);
    lemma_text_lt_at("14"@, "15"@, 1);
    lemma_text_lt_at("15"@, "16"@, 1);
    lemma_text_lt_at("16"@, "17"@, 1);
    lemma_text_lt_at("17"@, "18"@, 1);
    lemma_text_lt_at("18"@, "19"@, 1);
    lemma_text_lt_at("19"@, "27"@, 0);
    lemma_text_lt_at("27"@, "28"@, 1);
    lemma_text_lt_at("28"@, "29"@, 1);
    lemma_text_lt_at("29"@, "30"@, 0);
    lemma_text_lt_at("30"@, "31"@, 1);
    lemma_text_lt_at("31"@, "32"@, 1);
    lemma_text_lt_at("32"@, "33"@, 1);
    lemma_text_lt_at("33"@, "34"@, 1);
    lemma_text_lt_at("34"@, "35"@, 1);
    lemma_text_lt_at("35"@, "48"@, 0);
    lemma_text_lt_at("48"@, "49"@, 1);
    lemma_text_lt_at("49"@, "50"@, 0);
    lemma_text_lt_at("50"@, "51"@, 1);
    lemma_text_lt_at("51"@, "52"@, 1);
    lemma_text_lt_at("52"@, "53"@, 1);
    lemma_text_lt_at("53"@, "54"@, 1);
    lemma_text_lt_at("54"@, "55"@, 1);
    lemma_text_lt_at("55"@, "56"@, 1);
    lemma_text_lt_at("56"@, "57"@, 1);
    lemma_text_lt_at("57"@, "58"@, 1);
    lemma_text_lt_at("58"@, "59"@, 1);
    lemma_text_lt_at("59"@, "61"@, 0);
    lemma_text_lt_at("61"@, "62"@, 1);
    lemma_text_lt_at("62"@, "63"@, 1);
    lemma_text_lt_at("63"@, "64"@, 1);
    lemma_text_lt_at("64"@, "65"@, 1);
    lemma_text_lt_at("65"@, "66"@, 1);
    lemma_text_lt_at("66"@, "67"@, 1);
    lemma_text_lt_at("67"@, "68"@, 1);
    lemma_text_lt_at("68"@, "69"@, 1);
    lemma_text_lt_at("69"@, "70"@, 0);
    lemma_text_lt_at("70"@, "71"@, 1);
    lemma_text_lt_at("71"@, "72"@, 1);
    lemma_text_lt_at("72"@, "73"@, 1);
    lemma_text_lt_at("73"@, "74"@, 1);
    lemma_text_lt_at("74"@, "75"@, 1);
    lemma_text_lt_at("75"@, "76"@, 1);
    lemma_text_lt_at("76"@, "77"@, 1);
    lemma_text_lt_at("77"@, "78"@, 1);
    lemma_text_lt_at("78"@, "79"@, 1);
    lemma_text_lt_at("79"@, "80"@, 0);
    lemma_text_lt_at("80"@, "81"@, 1);
    lemma_text_lt_at("81"@, "82"@, 1);
    lemma_text_lt_at("82"@, "83"@, 1);
    assert forall|a: int| 0 <= a < t.len() - 1 implies ordered_step(t, perm, a) by {
        if a == 0 {
            assert(t[perm[a]].0 == "01"@ && t[perm[a + 1]].0 == "02"@);
        } else if a == 1 {
            assert(t[perm[a]].0 == "02"@ && t[perm[a + 1]].0 == "03"@);
        } else if a == 2 {
            assert(t[perm[a]].0 == "03"@ && t[perm[a + 1]].0 == "04"@);
        } else if a == 3 {
            assert(t[perm[a]].0 == "04"@ && t[perm[a + 1]].0 == "05"@);
        } else if a == 4 {
            assert(t[perm[a]].0 == "05"@ && t[perm[a + 1]].0 == "06"@);
        } else if a == 5 {
            assert(t[perm[a]].0 == "06"@ && t[perm[a + 1]].0 == "07"@);
        } else if a == 6 {
            assert(t[perm[a]].0 == "07"@ && t[perm[a + 1]].0 == "08"@);
        } else if a == 7 {
            assert(t[perm[a]].0 == "08"@ && t[perm[a + 1]].0 == "10"@);
        } else if a == 8 {
            assert(t[perm[a]].0 == "10"@ && t[perm[a + 1]].0 == "11200005"@);
        } else if a == 9 {
            assert(t[perm[a]].0 == "11200005"@ && t[perm[a + 1]].0 == "14"@);
        } else if a == 10 {
            assert(t[perm[a]].0 == "14"@ && t[perm[a + 1]].0 == "15"@);
        } else if a == 11 {
            assert(t[perm[a]].0 == "15"@ && t[perm[a + 1]].0 == "16"@);
        } else if a == 12 {
            assert(t[perm[a]].0 == "16"@ && t[perm[a + 1]].0 == "17"@);
        } else if a == 13 {
            assert(t[perm[a]].0 == "17"@ && t[perm[a + 1]].0 == "18"@);
        } else if a == 14 {
            assert(t[perm[a]].0 == "18"@ && t[perm[a + 1]].0 == "19"@);
        } else if a == 15 {
            assert(t[perm[a]].0 == "19"@ && t[perm[a + 1]].0 == "27"@);
        } else if a == 16 {
            assert(t[perm[a]].0 == "27"@ && t[perm[a + 1]].0 == "28"@);
        } else if a == 17 {
            assert(t[perm[a]].0 == "28"@ && t[perm[a + 1]].0 == "29"@);
        } else if a == 18 {
            assert(t[perm[a]].0 == "29"@ && t[perm[a + 1]].0 == "30"@);
        } else if a == 19 {
            assert(t[perm[a]].0 == "30"@ && t[perm[a + 1]].0 == "31"@);
        } else if a == 20 {
            assert(t[perm[a]].0 == "31"@ && t[perm[a + 1]].0 == "32"@);
        } else if a == 21 {
            assert(t[perm[a]].0 == "32"@ && t[perm[a + 1]].0 == "33"@);
        } else if a == 22 {
            assert(t[perm[a]].0 == "33"@ && t[perm[a + 1]].0 == "34"@);
        } else if a == 23 {
            assert(t[perm[a]].0 == "34"@ && t[perm[a + 1]].0 == "35"@);
        } else if a == 24 {
            assert(t[perm[a]].0 == "35"@ && t[perm[a + 1]].0 == "48"@);
        } else if a == 25 {
            assert(t[perm[a]].0 == "48"@ && t[perm[a + 1]].0 == "49"@);
        } else if a == 26 {
            assert(t[perm[a]].0 == "49"@ && t[perm[a + 1]].0 == "50"@);
        } else if a == 27 {
            assert(t[perm[a]].0 == "50"@ && t[perm[a + 1]].0 == "51"@);
        } else if a == 28 {
            assert(t[perm[a]].0 == "51"@ && t[perm[a + 1]].0 == "52"@);
        } else if a == 29 {
            assert(t[perm[a]].0 == "52"@ && t[perm[a + 1]].0 == "53"@);
        } else if a == 30 {
            assert(t[perm[a]].0 == "53"@ && t[perm[a + 1]].0 == "54"@);
        } else if a == 31 {
            assert(t[perm[a]].0 == "54"@ && t[perm[a + 1]].0 == "55"@);
        } else if a == 32 {
            assert(t[perm[a]].0 == "55"@ && t[perm[a + 1]].0 == "56"@);
        } else if a == 33 {
            assert(t[perm[a]].0 == "56"@ && t[perm[a + 1]].0 == "57"@);
        } else if a == 34 {
            assert(t[perm[a]].0 == "57"@ && t[perm[a + 1]].0 == "58"@);
        } else if a == 35 {
            assert(t[perm[a]].0 == "58"@ && t[perm[a + 1]].0 == "59"@);
        } else if a == 36 {
            assert(t[perm[a]].0 == "59"@ && t[perm[a + 1]].0 == "61"@);
        } else if a == 37 {
            assert(t[perm[a]].0 == "61"@ && t[perm[a + 1]].0 == "62"@);
        } else if a == 38 {
            assert(t[perm[a]].0 == "62"@ && t[perm[a + 1]].0 == "63"@);
        } else if a == 39 {
            assert(t[perm[a]].0 == "63"@ && t[perm[a + 1]].0 == "64"@);
        } else if a == 40 {
            assert(t[perm[a]].0 == "64"@ && t[perm[a + 1]].0 == "65"@);
        } else if a == 41 {
            assert(t[perm[a]].0 == "65"@ && t[perm[a + 1]].0 == "66"@);
        } else if a == 42 {
            assert(t[perm[a]].0 == "66"@ && t[perm[a + 1]].0 == "67"@);
        } else if a == 43 {
            assert(t[perm[a]].0 == "67"@ && t[perm[a + 1]].0 == "68"@);
        } else if a == 44 {
            assert(t[perm[a]].0 == "68"@ && t[perm[a + 1]].0 == "69"@);
        } else if a == 45 {
            assert(t[perm[a]].0 == "69"@ && t[perm[a + 1]].0 == "70"@);
        } else if a == 46 {
            assert(t[perm[a]].0 == "70"@ && t[perm[a + 1]].0 == "71"@);
        } else if a == 47 {
            assert(t[perm[a]].0 == "71"@ && t[perm[a + 1]].0 == "72"@);
        } else if a == 48 {
            assert(t[perm[a]].0 == "72"@ && t[perm[a + 1]].0 == "73"@);
        } else if a == 49 {
            assert(t[perm[a]].0 == "73"@ && t[perm[a + 1]].0 == "74"@);
        } else if a == 50 {
            assert(t[perm[a]].0 == "74"@ && t[perm[a + 1]].0 == "75"@);
        } else if a == 51 {
            assert(t[perm[a]].0 == "75"@ && t[perm[a + 1]].0 == "76"@);
        } else if a == 52 {
            assert(t[perm[a]].0 == "76"@ && t[perm[a + 1]].0 == "77"@);
        } else if a == 53 {
            assert(t[perm[a]].0 == "77"@ && t[perm[a + 1]].0 == "78"@);
        } else if a == 54 {
            assert(t[perm[a]].0 == "78"@ && t[perm[a + 1]].0 == "79"@);
        } else if a == 55 {
            assert(t[perm[a]].0 == "79"@ && t[perm[a + 1]].0 == "80"@);
        } else if a == 56 {
            assert(t[perm[a]].0 == "80"@ && t[perm[a + 1]].0 == "81"@);
        } else if a == 57 {
            assert(t[perm[a]].0 == "81"@ && t[perm[a + 1]].0 == "82"@);
        } else if a == 58 {
            assert(t[perm[a]].0 == "82"@ && t[perm[a + 1]].0 == "83"@);
        }
    }
    assert forall|i: int| 0 <= i < t.len() implies 0 <= inv[i] < t.len() && perm[inv[i]] == i by {
        if i == 0 {
            assert(perm[inv[i]] == 0);
        } else if i == 1 {
            assert(perm[inv[i]] == 1);
        } else if i == 2 {
            assert(perm[inv[i]] == 2);
        } else if i == 3 {
            assert(perm[inv[i]] == 3);
        } else if i == 4 {
            assert(perm[inv[i]] == 4);
        } else if i == 5 {
            assert(perm[inv[i]] == 5);
        } else if i == 6 {
            assert(perm[inv[i]] == 6);
        } else if i == 7 {
            assert(perm[inv[i]] == 7);
        } else if i == 8 {
            assert(perm[inv[i]] == 8);
        } else if i == 9 {
            assert(perm[inv[i]] == 9);
        } else if i == 10 {
            assert(perm[inv[i]] == 10);
        } else if i == 11 {
            assert(perm[inv[i]] == 11);
        } else if i == 12 {
            assert(perm[inv[i]] == 12);
        } else if i == 13 {
            assert(perm[inv[i]] == 13);
        } else if i == 14 {
            assert(perm[inv[i]] == 14);
        } else if i == 15 {
            assert(perm[inv[i]] == 15);
        } else if i == 16 {
            assert(perm[inv[i]] == 16);
        } else if i == 17 {
            assert(perm[inv[i]] == 17);
        } else if i == 18 {
            assert(perm[inv[i]] == 18);
        } else if i == 19 {
            assert(perm[inv[i]] == 19);
        } else if i == 20 {
            assert(perm[inv[i]] == 20);
        } else if i == 21 {
            assert(perm[inv[i]] == 21);
        } else if i == 22 {
            assert(perm[inv[i]] == 22);
        } else if i == 23 {
            assert(perm[inv[i]] == 23);
        } else if i == 24 {
            assert(perm[inv[i]] == 24);
        } else if i == 25 {
            assert(perm[inv[i]] == 25);
        } else if i == 26 {
            assert(perm[inv[i]] == 26);
        } else if i == 27 {
            assert(perm[inv[i]] == 27);
        } else if i == 28 {
            assert(perm[inv[i]] == 28);
        } else if i == 29 {
            assert(perm[inv[i]] == 29);
        } else if i == 30 {
            assert(perm[inv[i]] == 30);
        } else if i == 31 {
            assert(perm[inv[i]] == 31);
        } else if i == 32 {
            assert(perm[inv[i]] == 32);
        } else if i == 33 {
            assert(perm[inv[i]] == 33);
        } else if i == 34 {
            assert(perm[inv[i]] == 34);
        } else if i == 35 {
            assert(perm[inv[i]] == 35);
        } else if i == 36 {
            assert(perm[inv[i]] == 36);
        } else if i == 37 {
            assert(perm[inv[i]] == 37);
        } else if i == 38 {
            assert(perm[inv[i]] == 38);
        } else if i == 39 {
            assert(perm[inv[i]] == 39);
        } else if i == 40 {
            assert(perm[inv[i]] == 40);
        } else if i == 41 {
            assert(perm[inv[i]] == 41);
        } else if i == 42 {
            assert(perm[inv[i]] == 42);
        } else if i == 43 {
            assert(perm[inv[i]] == 43);
        } else if i == 44 {
            assert(perm[inv[i]] == 44);
        } else if i == 45 {
            assert(perm[inv[i]] == 45);
        } else if i == 46 {
            assert(perm[inv[i]] == 46);
        } else if i == 47 {
            assert(perm[inv[i]] == 47);
        } else if i == 48 {
            assert(perm[inv[i]] == 48);
        } else if i == 49 {
            assert(perm[inv[i]] == 49);
        } else if i == 50 {
            assert(perm[inv[i]] == 50);
        } else if i == 51 {
            assert(perm[inv[i]] == 51);
        } else if i == 52 {
            assert(perm[inv[i]] == 52);
        } else if i == 53 {
            assert(perm[inv[i]] == 53);
        } else if i == 54 {
            assert(perm[inv[i]] == 54);
        } else if i == 55 {
            assert(perm[inv[i]] == 55);
        } else if i == 56 {
            assert(perm[inv[i]] == 56);
        } else if i == 57 {
            assert(perm[inv[i]] == 57);
        } else if i == 58 {
            assert(perm[inv[i]] == 58);
        } else if i == 59 {
            assert(perm[inv[i]] == 59);
        }
    }
    lemma_keys_unique_by_order(t, perm, inv);
}


/// A lower-case hexadecimal digit.
pub open spec fn is_lower_hex(c: char) -> bool {
    ('0' <= c && c <= '9') || ('a' <= c && c <= 'f')
}

/// Some SKU of the SKU table names the model key `k`.
pub open spec fn named_by_a_sku(k: Seq<char>) -> bool {
    exists|j: int| 0 <= j < standard_skus().len() && #[trigger] standard_skus()[j].1 == k
}

/// The SKU table has 60 entries; every model of the model table is named by
/// at least one of them; and every SKU is two lower-case hexadecimal digits,
/// but for "11200005".
pub proof fn lemma_sku_table_shape()
    ensures
        standard_skus().len() == 60,
        forall|i: int| 0 <= i < standard_models().len() ==> named_by_a_sku(#[trigger] standard_models()[i].0),
        forall|j: int|
            0 <= j < standard_skus().len() ==> #[trigger] standard_skus()[j].0 == "11200005"@ || (
            standard_skus()[j].0.len() == 2 && is_lower_hex(standard_skus()[j].0[0]) && is_lower_hex(
                standard_skus()[j].0[1],
            )),
{
    let t = standard_models();
    let s = standard_skus();
    assert forall|i: int| 0 <= i < t.len() implies named_by_a_sku(#[trigger] t[i].0) by {
        if i == 0 {
            assert(s[0].1 == t[0].0);
        } else if i == 1 {
            assert(s[1].1 == t[1].0);
        } else if i == 2 {
            assert(s[8].1 == t[2].0);
        } else if i == 3 {
            assert(s[11].1 == t[3].0);
        } else if i == 4 {
            assert(s[14].1 == t[4].0);
        } else if i == 5 {
            assert(s[21].1 == t[5].0);
        } else if i == 6 {
            assert(s[17].1 == t[6].0);
        } else if i == 7 {
            assert(s[19].1 == t[7].0);
        } else if i == 8 {
            assert(s[35].1 == t[8].0);
        } else if i == 9 {
            assert(s[36].1 == t[9].0);
        } else if i == 10 {
            assert(s[37].1 == t[10].0);
        } else if i == 11 {
            assert(s[38].1 == t[11].0);
        } else if i == 12 {
            assert(s[39].1 == t[12].0);
        } else if i == 13 {
            assert(s[23].1 == t[13].0);
        } else if i == 14 {
            assert(s[24].1 == t[14].0);
        } else if i == 15 {
            assert(s[25].1 == t[15].0);
        } else if i == 16 {
            assert(s[29].1 == t[16].0);
        } else if i == 17 {
            assert(s[31].1 == t[17].0);
        } else if i == 18 {
            assert(s[33].1 == t[18].0);
        } else if i == 19 {
            assert(s[50].1 == t[19].0);
        } else if i == 20 {
            assert(s[51].1 == t[20].0);
        } else if i == 21 {
            assert(s[52].1 == t[21].0);
        } else if i == 22 {
            assert(s[53].1 == t[22].0);
        } else if i == 23 {
            assert(s[59].1 == t[23].0);
        }
    }
    assert forall|j: int| 0 <= j < s.len() implies #[trigger] s[j].0 == "11200005"@ || (s[j].0.len()
        == 2 && is_lower_hex(s[j].0[0]) && is_lower_hex(s[j].0[1])) by {
        if j == 0 {
            reveal_strlit("01");
            assert(s[0].0 == "01"@);
        } else if j == 1 {
            reveal_strlit("02");
            assert(s[1].0 == "02"@);
        } else if j == 2 {
            reveal_strlit("03");
            assert(s[2].0 == "03"@);
        } else if j == 3 {
            reveal_strlit("04");
            assert(s[3].0 == "04"@);
        } else if j == 4 {
            reveal_strlit("06");
            assert(s[4].0 == "06"@);
        } else if j == 5 {
            reveal_strlit("07");
            assert(s[5].0 == "07"@);
        } else if j == 6 {
            reveal_strlit("08");
            assert(s[6].0 == "08"@);
        } else if j == 7 {
            reveal_strlit("10");
            assert(s[7].0 == "10"@);
        } else if j == 8 {
            reveal_strlit("14");
            assert(s[8].0 == "14"@);
        } else if j == 9 {
            reveal_strlit("15");
            assert(s[9].0 == "15"@);
        } else if j == 10 {
            reveal_strlit("16");
            assert(s[10].0 == "16"@);
        } else if j == 11 {
            reveal_strlit("17");
            assert(s[11].0 == "17"@);
        } else if j == 12 {
            reveal_strlit("18");
            assert(s[12].0 == "18"@);
        } else if j == 13 {
            reveal_strlit("19");
            assert(s[13].0 == "19"@);
        } else if j == 14 {
            reveal_strlit("27");
            assert(s[14].0 == "27"@);
        } else if j == 15 {
            reveal_strlit("28");
            assert(s[15].0 == "28"@);
        } else if j == 16 {
            reveal_strlit("29");
            assert(s[16].0 == "29"@);
        } else if j == 17 {
            reveal_strlit("30");
            assert(s[17].0 == "30"@);
        } else if j == 18 {
            reveal_strlit("31");
            assert(s[18].0 == "31"@);
        } else if j == 19 {
            reveal_strlit("32");
            assert(s[19].0 == "32"@);
        } else if j == 20 {
            reveal_strlit("33");
            assert(s[20].0 == "33"@);
        } else if j == 21 {
            reveal_strlit("34");
            assert(s[21].0 == "34"@);
        } else if j == 22 {
            reveal_strlit("35");
            assert(s[22].0 == "35"@);
        } else if j == 23 {
            reveal_strlit("48");
            assert(s[23].0 == "48"@);
        } else if j == 24 {
            reveal_strlit("49");
            assert(s[24].0 == "49"@);
        } else if j == 25 {
            reveal_strlit("50");
            assert(s[25].0 == "50"@);
        } else if j == 26 {
            reveal_strlit("51");
            assert(s[26].0 == "51"@);
        } else if j == 27 {
            reveal_strlit("52");
            assert(s[27].0 == "52"@);
        } else if j == 28 {
            reveal_strlit("53");
            assert(s[28].0 == "53"@);
        } else if j == 29 {
            reveal_strlit("54");
            assert(s[29].0 == "54"@);
        } else if j == 30 {
            reveal_strlit("55");
            assert(s[30].0 == "55"@);
        } else if j == 31 {
            reveal_strlit("56");
            assert(s[31].0 == "56"@);
        } else if j == 32 {
            reveal_strlit("57");
            assert(s[32].0 == "57"@);
        } else if j == 33 {
            reveal_strlit("58");
            assert(s[33].0 == "58"@);
        } else if j == 34 {
            reveal_strlit("59");
            assert(s[34].0 == "59"@);
        } else if j == 35 {
            reveal_strlit("61");
            assert(s[35].0 == "61"@);
        } else if j == 36 {
            reveal_strlit("62");
            assert(s[36].0 == "62"@);
        } else if j == 37 {
            reveal_strlit("63");
            assert(s[37].0 == "63"@);
        } else if j == 38 {
            reveal_strlit("64");
            assert(s[38].0 == "64"@);
        } else if j == 39 {
            reveal_strlit("65");
            assert(s[39].0 == "65"@);
        } else if j == 40 {
            reveal_strlit("66");
            assert(s[40].0 == "66"@);
        } else if j == 41 {
            reveal_strlit("67");
            assert(s[41].0 == "67"@);
        } else if j == 42 {
            reveal_strlit("68");
            assert(s[42].0 == "68"@);
        } else if j == 43 {
            reveal_strlit("69");
            assert(s[43].0 == "69"@);
        } else if j == 44 {
            reveal_strlit("70");
            assert(s[44].0 == "70"@);
        } else if j == 45 {
            reveal_strlit("71");
            assert(s[45].0 == "71"@);
        } else if j == 46 {
            reveal_strlit("72");
            assert(s[46].0 == "72"@);
        } else if j == 47 {
            reveal_strlit("73");
            assert(s[47].0 == "73"@);
        } else if j == 48 {
            reveal_strlit("74");
            assert(s[48].0 == "74"@);
        } else if j == 49 {
            reveal_strlit("75");
            assert(s[49].0 == "75"@);
        } else if j == 50 {
            reveal_strlit("76");
            assert(s[50].0 == "76"@);
        } else if j == 51 {
            reveal_strlit("77");
            assert(s[51].0 == "77"@);
        } else if j == 52 {
            reveal_strlit("78");
            assert(s[52].0 == "78"@);
        } else if j == 53 {
            reveal_strlit("79");
            assert(s[53].0 == "79"@);
        } else if j == 54 {
            reveal_strlit("80");
            assert(s[54].0 == "80"@);
        } else if j == 55 {
            reveal_strlit("81");
            assert(s[55].0 == "81"@);
        } else if j == 56 {
            reveal_strlit("82");
            assert(s[56].0 == "82"@);
        } else if j == 57 {
            reveal_strlit("83");
            assert(s[57].0 == "83"@);
        } else if j == 58 {
            reveal_strlit("05");
            assert(s[58].0 == "05"@);
        } else if j == 59 {
            assert(s[59].0 == "11200005"@);
        }
    }
}

} // verus!
