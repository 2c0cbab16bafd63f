//! Order in which the seen devices are listed: devices that match a known
//! model first, then by model name, device name and address, each compared
//! without regard to case.

use vstd::prelude::*;
use crate::app::capabilities::matched_key;
use crate::app::EarNative;
use crate::models::{find_from, ModelInfoView};
use crate::text::{chars_of, lowercase, to_lower};

verus! {

/// Whether `a` comes strictly before `b`, comparing character by character
/// by code point, a proper prefix coming first.
pub open spec fn text_lt(a: Seq<char>, b: Seq<char>) -> bool
    decreases a.len(),
{
    if a.len() == 0 {
        b.len() > 0
    } else if b.len() == 0 {
        false
    } else if a[0] != b[0] {
        (a[0] as int) < (b[0] as int)
    } else {
        text_lt(a.drop_first(), b.drop_first())
    }
}

/// `text_lt` is irreflexive and transitive, and orders any two different
/// texts one way or the other.
pub proof fn lemma_text_lt_order(a: Seq<char>, b: Seq<char>, c: Seq<char>)
    ensures
        !text_lt(a, a),
        text_lt(a, b) ==> !text_lt(b, a),
        text_lt(a, b) && text_lt(b, c) ==> text_lt(a, c),
        a != b ==> text_lt(a, b) || text_lt(b, a),
    decreases a.len(),
{
    if a.len() > 0 {
        lemma_text_lt_order(a.drop_first(), b.drop_first(), c.drop_first());
        if b.len() > 0 && a[0] == b[0] && a.drop_first() == b.drop_first() {
            assert(a =~= seq![a[0]] + a.drop_first());
            assert(b =~= seq![b[0]] + b.drop_first());
        }
    } else {
        if b.len() == 0 {
            assert(a =~= b);
        }
    }
}

/// What the list order compares for one device.
pub struct DeviceSortKey {
    /// No known model matches the device name.
    pub unmatched: bool,
    /// The matched model's name (or the device name), lower-cased.
    pub model: Seq<char>,
    /// The device name, lower-cased.
    pub raw: Seq<char>,
    pub addr: Seq<char>,
}

/// Whether the device with key `x` is listed before the one with key `y`.
pub open spec fn key_lt(x: DeviceSortKey, y: DeviceSortKey) -> bool {
    if x.unmatched != y.unmatched {
        !x.unmatched
    } else if x.model != y.model {
        text_lt(x.model, y.model)
    } else if x.raw != y.raw {
        text_lt(x.raw, y.raw)
    } else {
        text_lt(x.addr, y.addr)
    }
}

proof fn lemma_key_lt_order(x: DeviceSortKey, y: DeviceSortKey, z: DeviceSortKey)
    ensures
        !key_lt(x, x),
        key_lt(x, y) ==> !key_lt(y, x),
        key_lt(x, y) && !key_lt(z, y) ==> key_lt(x, z),
{
    lemma_text_lt_order(x.model, x.model, x.model);
    lemma_text_lt_order(x.raw, x.raw, x.raw);
    lemma_text_lt_order(x.addr, x.addr, x.addr);
    lemma_text_lt_order(x.model, y.model, z.model);
    lemma_text_lt_order(y.model, z.model, x.model);
    lemma_text_lt_order(z.model, y.model, x.model);
    lemma_text_lt_order(x.raw, y.raw, z.raw);
    lemma_text_lt_order(y.raw, z.raw, x.raw);
    lemma_text_lt_order(z.raw, y.raw, x.raw);
    lemma_text_lt_order(x.addr, y.addr, z.addr);
    lemma_text_lt_order(y.addr, z.addr, x.addr);
    lemma_text_lt_order(z.addr, y.addr, x.addr);
}

/// Whether `a` comes strictly before `b` (see `text_lt`).
pub fn text_less(a: &str, b: &str) -> (r: bool)
    ensures
        r == text_lt(a@, b@),
{
    let x = chars_of(a);
    let y = chars_of(b);
    let mut i: usize = 0;
    proof {
        assert(a@.skip(0) =~= a@);
        assert(b@.skip(0) =~= b@);
    }
    while i < x.len() && i < y.len() && x[i] == y[i]
        invariant
            x@ == a@,
            y@ == b@,
            i <= x@.len(),
            i <= y@.len(),
            text_lt(a@, b@) == text_lt(a@.skip(i as int), b@.skip(i as int)),
        decreases x@.len() - i,
    {
        proof {
            assert(a@.skip(i as int).drop_first() =~= a@.skip(i + 1));
            assert(b@.skip(i as int).drop_first() =~= b@.skip(i + 1));
        }
        i = i + 1;
    }
    if i == x.len() {
        i < y.len()
    } else if i == y.len() {
        false
    } else {
        proof {
            assert(a@.skip(i as int)[0] == x@[i as int]);
            assert(b@.skip(i as int)[0] == y@[i as int]);
        }
        x[i] < y[i]
    }
}

/// Name of the model that a device called `name` matches, if any.
pub open spec fn matched_name(models: Seq<(Seq<char>, ModelInfoView)>, name: Seq<char>) -> Option<
    Seq<char>,
> {
    match matched_key(models, name) {
        Some(k) => match find_from(models, k, 0) {
            Some(i) => Some(models[i].1.name),
            None => None,
        },
        None => None,
    }
}

/// Sort key of the device at `addr` called `name`.
pub open spec fn device_sort_key(models: Seq<(Seq<char>, ModelInfoView)>, addr: Seq<char>, name: Seq<char>) -> DeviceSortKey {
    DeviceSortKey {
        unmatched: matched_name(models, name) is None,
        model: lowercase(
            match matched_name(models, name) {
                Some(n) => n,
                None => name,
            },
        ),
        raw: lowercase(name),
        addr,
    }
}

/// Whether `order` lists every index below `n` exactly once, sorted by
/// `keys`, with devices of equal rank in the order they were seen.
pub open spec fn stably_sorted(order: Seq<usize>, keys: Seq<DeviceSortKey>, n: nat) -> bool {
    &&& order.len() == n
    &&& forall|a: int| 0 <= a < order.len() ==> (#[trigger] order[a]) < n
    &&& forall|a: int, b: int| 0 <= a < b < order.len() ==> order[a] != order[b]
    &&& forall|a: int, b: int|
        0 <= a < b < order.len() ==> !key_lt(keys[order[b] as int], keys[order[a] as int]) && (
        !key_lt(keys[order[a] as int], keys[order[b] as int]) ==> order[a] < order[b])
}

/// Sort key of one device, computed.
struct SortEntry {
    unmatched: bool,
    model: String,
    raw: String,
    addr: String,
}

impl View for SortEntry {
    type V = DeviceSortKey;

    closed spec fn view(&self) -> DeviceSortKey {
        DeviceSortKey {
            unmatched: self.unmatched,
            model: self.model@,
            raw: self.raw@,
            addr: self.addr@,
        }
    }
}

/// Whether the device with key `x` is listed before the one with key `y`.
fn key_less(x: &SortEntry, y: &SortEntry) -> (r: bool)
    ensures
        r == key_lt(x@, y@),
{
    if x.unmatched != y.unmatched {
        !x.unmatched
    } else if !crate::text::str_eq(x.model.as_str(), y.model.as_str()) {
        text_less(x.model.as_str(), y.model.as_str())
    } else if !crate::text::str_eq(x.raw.as_str(), y.raw.as_str()) {
        text_less(x.raw.as_str(), y.raw.as_str())
    } else {
        text_less(x.addr.as_str(), y.addr.as_str())
    }
}

impl EarNative {
    /// Sort key of the seen device at index `i`.
    fn sort_entry(&self, i: usize) -> (r: SortEntry)
        requires
            i < self.discovered_devices@.len(),
        ensures
            r@ == device_sort_key(
                self.models@,
                self.discovered_devices@[i as int].0@,
                self.discovered_devices@[i as int].1@,
            ),
    {
        let name = self.discovered_devices[i].1.as_str();
        let matched = self.matched_model_name(name);
        let model = match matched {
            Some(n) => to_lower(n),
            None => to_lower(name),
        };
        SortEntry {
            unmatched: matched.is_none(),
            model,
            raw: to_lower(name),
            addr: self.discovered_devices[i].0.clone(),
        }
    }

    /// The seen devices in the order they are listed: indices into
    /// `discovered_devices`, devices matching a known model first, then by
    /// model name, device name and address ignoring case, devices of equal
    /// rank keeping the order in which they were seen.
    pub fn device_order(&self) -> (r: Vec<usize>)
        ensures
            stably_sorted(
                r@,
                Seq::new(
                    self.discovered_devices@.len(),
                    |k: int|
                        device_sort_key(
                            self.models@,
                            self.discovered_devices@[k].0@,
                            self.discovered_devices@[k].1@,
                        ),
                ),
                self.discovered_devices@.len(),
            ),
    {
        let n = self.discovered_devices.len();
        let ghost keys = Seq::new(
            n as nat,
            |k: int|
                device_sort_key(
                    self.models@,
                    self.discovered_devices@[k].0@,
                    self.discovered_devices@[k].1@,
                ),
        );
        let mut entries: Vec<SortEntry> = Vec::new();
        let mut j: usize = 0;
        while j < n
            invariant
                n == self.discovered_devices@.len(),
                j <= n,
                entries@.len() == j,
                forall|k: int| 0 <= k < j ==> (#[trigger] entries@[k])@ == keys[k],
                keys == Seq::new(
                    n as nat,
                    |k: int|
                        device_sort_key(
                            self.models@,
                            self.discovered_devices@[k].0@,
                            self.discovered_devices@[k].1@,
                        ),
                ),
            decreases n - j,
        {
            entries.push(self.sort_entry(j));
            j = j + 1;
        }
        let mut order: Vec<usize> = Vec::new();
        let mut i: usize = 0;
        while i < n
            invariant
                n == self.discovered_devices@.len(),
                i <= n,
                entries@.len() == n,
                keys.len() == n,
                forall|k: int| 0 <= k < n ==> (#[trigger] entries@[k])@ == keys[k],
                stably_sorted(order@, keys, i as nat),
            decreases n - i,
        {
            let mut p: usize = 0;
            while p < order.len() && !key_less(&entries[i], &entries[order[p]])
                invariant
                    n == entries@.len(),
                    i < n,
                    p <= order@.len(),
                    keys.len() == n,
                    forall|k: int| 0 <= k < n ==> (#[trigger] entries@[k])@ == keys[k],
                    stably_sorted(order@, keys, i as nat),
                    forall|q: int| 0 <= q < p ==> !key_lt(keys[i as int], keys[#[trigger] order@[q] as int]),
                decreases order@.len() - p,
            {
                p = p + 1;
            }
            proof {
                if p < order@.len() {
                    assert forall|q: int| p <= q < order@.len() implies key_lt(
                        keys[i as int],
                        keys[#[trigger] order@[q] as int],
                    ) by {
                        lemma_key_lt_order(keys[i as int], keys[order@[p as int] as int], keys[order@[q] as int]);
                    }
                }
            }
            let ghost old_order = order@;
            order.insert(p, i);
            proof {
                assert forall|q: int| 0 <= q < old_order.len() implies #[trigger] old_order[q] < i by {}
                assert forall|a: int, b: int| 0 <= a < b < order@.len() implies !key_lt(
                    keys[order@[b] as int],
                    keys[order@[a] as int],
                ) && (!key_lt(keys[order@[a] as int], keys[order@[b] as int]) ==> order@[a]
                    < order@[b]) by {
                    if b == p {
                        assert(order@[a] == old_order[a]);
                    } else if a == p {
                        assert(order@[b] == old_order[b - 1]);
                        lemma_key_lt_order(keys[i as int], keys[old_order[b - 1] as int], keys[i as int]);
                    } else {
                        let oa = if a < p { a } else { a - 1 };
                        let ob = if b < p { b } else { b - 1 };
                        assert(order@[a] == old_order[oa]);
                        assert(order@[b] == old_order[ob]);
                    }
                }
            }
            i = i + 1;
        }
        order
    }
}

} // verus!
