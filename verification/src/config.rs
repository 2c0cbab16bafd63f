use vstd::prelude::*;
use crate::models::{find_from, lemma_find_from, lookup};
use crate::text::{owned, str_eq};

verus! {

/// What is remembered about one device.
#[derive(Debug)]
pub struct KnownDeviceConfig {
    pub name: String,
    pub sku: Option<String>,
    pub model_key: Option<String>,
}

/// Mathematical value of a remembered device.
pub struct KnownDeviceView {
    pub name: Seq<char>,
    pub sku: Option<Seq<char>>,
    pub model_key: Option<Seq<char>>,
}

/// View of an optional string.
pub open spec fn opt_view(o: Option<String>) -> Option<Seq<char>> {
    match o {
        Some(s) => Some(s@),
        None => None,
    }
}

impl View for KnownDeviceConfig {
    type V = KnownDeviceView;

    open spec fn view(&self) -> KnownDeviceView {
        KnownDeviceView { name: self.name@, sku: opt_view(self.sku), model_key: opt_view(self.model_key) }
    }
}

/// A device that nothing is known of yet.
pub open spec fn unknown_device() -> KnownDeviceView {
    KnownDeviceView { name: Seq::empty(), sku: None, model_key: None }
}

fn clone_opt(o: &Option<String>) -> (r: Option<String>)
    ensures
        opt_view(r) == opt_view(*o),
{
    match o {
        Some(s) => Some(s.clone()),
        None => None,
    }
}

impl KnownDeviceConfig {
    /// A device that nothing is known of yet.
    pub fn empty() -> (r: KnownDeviceConfig)
        ensures
            r@ == unknown_device(),
    {
        KnownDeviceConfig { name: String::new(), sku: None, model_key: None }
    }

    fn copy(&self) -> (r: KnownDeviceConfig)
        ensures
            r@ == self@,
    {
        KnownDeviceConfig {
            name: self.name.clone(),
            sku: clone_opt(&self.sku),
            model_key: clone_opt(&self.model_key),
        }
    }
}

/// Settings kept between runs.
#[derive(Debug)]
pub struct AppConfig {
    pub last_connected_device_id: Option<String>,
    pub last_connected_mac_address: Option<String>,
    pub known_devices: Vec<(String, KnownDeviceConfig)>,
}

/// Mathematical value of the settings.
pub struct AppConfigView {
    pub last_connected_device_id: Option<Seq<char>>,
    pub last_connected_mac_address: Option<Seq<char>>,
    pub known_devices: Seq<(Seq<char>, KnownDeviceView)>,
}

impl View for AppConfig {
    type V = AppConfigView;

    open spec fn view(&self) -> AppConfigView {
        AppConfigView {
            last_connected_device_id: opt_view(self.last_connected_device_id),
            last_connected_mac_address: opt_view(self.last_connected_mac_address),
            known_devices: Seq::new(
                self.known_devices@.len(),
                |i: int| (self.known_devices@[i].0@, self.known_devices@[i].1@),
            ),
        }
    }
}

/// What is remembered of device `id`, or an empty record.
pub open spec fn entry_or_default(t: Seq<(Seq<char>, KnownDeviceView)>, id: Seq<char>) -> KnownDeviceView {
    match lookup(t, id) {
        Some(e) => e,
        None => unknown_device(),
    }
}

/// The table with the record of `id` set to `e`: the existing record is
/// replaced in place, or a new one is appended.
pub open spec fn with_entry(
    t: Seq<(Seq<char>, KnownDeviceView)>,
    id: Seq<char>,
    e: KnownDeviceView,
) -> Seq<(Seq<char>, KnownDeviceView)> {
    match find_from(t, id, 0) {
        Some(i) => t.update(i, (id, e)),
        None => t.push((id, e)),
    }
}

/// No key occurs twice.
pub open spec fn keys_unique<V>(t: Seq<(Seq<char>, V)>) -> bool {
    forall|i: int, j: int| 0 <= i < j < t.len() ==> t[i].0 != t[j].0
}

/// The default settings: nothing remembered.
pub open spec fn empty_config() -> AppConfigView {
    AppConfigView {
        last_connected_device_id: None,
        last_connected_mac_address: None,
        known_devices: Seq::empty(),
    }
}

impl Default for KnownDeviceConfig {
    fn default() -> (r: KnownDeviceConfig)
        ensures
            r@ == unknown_device(),
    {
        KnownDeviceConfig::empty()
    }
}

impl Default for AppConfig {
    fn default() -> (r: AppConfig)
        ensures
            r@ == empty_config(),
    {
        AppConfig::empty()
    }
}

impl AppConfig {
    /// Default settings: nothing remembered.
    pub fn empty() -> (r: AppConfig)
        ensures
            r@ == empty_config(),
    {
        let r = AppConfig {
            last_connected_device_id: None,
            last_connected_mac_address: None,
            known_devices: Vec::new(),
        };
        proof {
            assert(r@.known_devices =~= Seq::<(Seq<char>, KnownDeviceView)>::empty());
        }
        r
    }

    /// A copy of these settings.
    pub fn copy(&self) -> (r: AppConfig)
        ensures
            r@ == self@,
    {
        let mut known: Vec<(String, KnownDeviceConfig)> = Vec::new();
        let n = self.known_devices.len();
        let mut i: usize = 0;
        while i < n
            invariant
                n == self.known_devices@.len(),
                i <= n,
                known@.len() == i,
                forall|k: int|
                    0 <= k < i ==> (#[trigger] known@[k]).0@ == self.known_devices@[k].0@
                        && known@[k].1@ == self.known_devices@[k].1@,
            decreases n - i,
        {
            let e = &self.known_devices[i];
            known.push((e.0.clone(), e.1.copy()));
            i = i + 1;
        }
        let r = AppConfig {
            last_connected_device_id: clone_opt(&self.last_connected_device_id),
            last_connected_mac_address: clone_opt(&self.last_connected_mac_address),
            known_devices: known,
        };
        proof {
            assert(r@.known_devices =~= self@.known_devices);
        }
        r
    }

    /// The settings read from disk, or the defaults when reading failed.
    pub fn load_or_default(loaded: Result<AppConfig, String>) -> (r: AppConfig)
        ensures
            match loaded {
                Ok(c) => r@ == c@,
                Err(_) => r@ == empty_config(),
            },
    {
        match loaded {
            Ok(c) => c,
            Err(_) => AppConfig::empty(),
        }
    }

    /// Index of the record of `id`.
    fn find(&self, id: &str) -> (r: Option<usize>)
        ensures
            match r {
                Some(i) => find_from(self@.known_devices, id@, 0) == Some(i as int) && i
                    < self.known_devices@.len(),
                None => find_from(self@.known_devices, id@, 0) is None,
            },
    {
        proof {
            lemma_find_from(self@.known_devices, id@, 0);
        }
        let n = self.known_devices.len();
        let mut i: usize = 0;
        while i < n
            invariant
                n == self.known_devices@.len(),
                i <= n,
                find_from(self@.known_devices, id@, 0) == find_from(
                    self@.known_devices,
                    id@,
                    i as int,
                ),
            decreases n - i,
        {
            if str_eq(self.known_devices[i].0.as_str(), id) {
                return Some(i);
            }
            i = i + 1;
        }
        None
    }

    /// Sets the record of `id` to `e`.
    fn put(&mut self, id: &str, e: KnownDeviceConfig)
        ensures
            final(self)@ == (AppConfigView {
                known_devices: with_entry(old(self)@.known_devices, id@, e@),
                ..old(self)@
            }),
    {
        let ghost t = self@.known_devices;
        match self.find(id) {
            Some(i) => {
                self.known_devices.set(i, (owned(id), e));
                proof {
                    lemma_find_from(t, id@, 0);
                    assert(find_from(t, id@, 0) == Some(i as int));
                    assert(self@.known_devices =~= t.update(i as int, (id@, e@)));
                }
            },
            None => {
                self.known_devices.push((owned(id), e));
                proof {
                    assert(self@.known_devices =~= t.push((id@, e@)));
                }
            },
        }
    }

    /// A copy of what is remembered of `id`, or an empty record.
    fn entry_copy(&self, id: &str) -> (r: KnownDeviceConfig)
        ensures
            r@ == entry_or_default(self@.known_devices, id@),
    {
        match self.find(id) {
            Some(i) => {
                proof {
                    assert(find_from(self@.known_devices, id@, 0) == Some(i as int));
                    assert(self@.known_devices[i as int].1 == self.known_devices@[i as int].1@);
                }
                self.known_devices[i].1.copy()
            },
            None => KnownDeviceConfig::empty(),
        }
    }

    /// Remembers the name of device `id` (creating its record if needed) and
    /// tells whether the name changed.
    pub fn remember_device_name(&mut self, id: &str, name: &str) -> (changed: bool)
        ensures
            ({
                let e = entry_or_default(old(self)@.known_devices, id@);
                &&& changed == (e.name != name@)
                &&& final(self)@ == (AppConfigView {
                    known_devices: with_entry(
                        old(self)@.known_devices,
                        id@,
                        KnownDeviceView { name: name@, ..e },
                    ),
                    ..old(self)@
                })
            }),
    {
        let e = self.entry_copy(id);
        let changed = !str_eq(e.name.as_str(), name);
        let updated = KnownDeviceConfig { name: owned(name), sku: e.sku, model_key: e.model_key };
        self.put(id, updated);
        changed
    }

    /// Remembers `id` as the last connected device (both as device id and as
    /// address) and tells whether either changed.
    pub fn remember_connected_device(&mut self, id: &str) -> (changed: bool)
        ensures
            changed == (old(self)@.last_connected_device_id != Some(id@)
                || old(self)@.last_connected_mac_address != Some(id@)),
            final(self)@ == (AppConfigView {
                last_connected_device_id: Some(id@),
                last_connected_mac_address: Some(id@),
                ..old(self)@
            }),
    {
        let same_id = match &self.last_connected_device_id {
            Some(s) => str_eq(s.as_str(), id),
            None => false,
        };
        let same_mac = match &self.last_connected_mac_address {
            Some(s) => str_eq(s.as_str(), id),
            None => false,
        };
        self.last_connected_device_id = Some(owned(id));
        self.last_connected_mac_address = Some(owned(id));
        !same_id || !same_mac
    }

    /// Remembers whichever of name, model key and SKU are given for device
    /// `id` (creating its record if needed) and tells whether the record's
    /// values changed.
    pub fn remember_device_metadata(
        &mut self,
        id: &str,
        name: Option<&str>,
        model_key: Option<&str>,
        sku: Option<&str>,
    ) -> (changed: bool)
        ensures
            ({
                let e = entry_or_default(old(self)@.known_devices, id@);
                let n = KnownDeviceView {
                    name: match name {
                        Some(s) => s@,
                        None => e.name,
                    },
                    model_key: match model_key {
                        Some(s) => Some(s@),
                        None => e.model_key,
                    },
                    sku: match sku {
                        Some(s) => Some(s@),
                        None => e.sku,
                    },
                };
                &&& changed == (n != e)
                &&& final(self)@ == (AppConfigView {
                    known_devices: with_entry(old(self)@.known_devices, id@, n),
                    ..old(self)@
                })
            }),
    {
        let e = self.entry_copy(id);
        let name_changed = match name {
            Some(s) => !str_eq(e.name.as_str(), s),
            None => false,
        };
        let key_changed = match model_key {
            Some(s) => match &e.model_key {
                Some(k) => !str_eq(k.as_str(), s),
                None => true,
            },
            None => false,
        };
        let sku_changed = match sku {
            Some(s) => match &e.sku {
                Some(k) => !str_eq(k.as_str(), s),
                None => true,
            },
            None => false,
        };
        let new_name = match name {
            Some(s) => owned(s),
            None => e.name,
        };
        let new_key = match model_key {
            Some(s) => Some(owned(s)),
            None => e.model_key,
        };
        let new_sku = match sku {
            Some(s) => Some(owned(s)),
            None => e.sku,
        };
        self.put(id, KnownDeviceConfig { name: new_name, sku: new_sku, model_key: new_key });
        name_changed || key_changed || sku_changed
    }

    /// The remembered model key of device `id`.
    pub fn known_model_key(&self, id: &str) -> (r: Option<&str>)
        ensures
            match lookup(self@.known_devices, id@) {
                Some(e) => match e.model_key {
                    Some(k) => r is Some && r.unwrap()@ == k,
                    None => r is None,
                },
                None => r is None,
            },
    {
        match self.find(id) {
            Some(i) => {
                proof {
                    assert(find_from(self@.known_devices, id@, 0) == Some(i as int));
                    assert(self@.known_devices[i as int].1 == self.known_devices@[i as int].1@);
                }
                match &self.known_devices[i].1.model_key {
                    Some(k) => Some(k.as_str()),
                    None => None,
                }
            },
            None => None,
        }
    }
}

/// After a record is set, looking up its device gives the new record, and
/// every other device keeps its record.
pub proof fn lemma_with_entry_lookup(
    t: Seq<(Seq<char>, KnownDeviceView)>,
    id: Seq<char>,
    e: KnownDeviceView,
    other: Seq<char>,
)
    ensures
        lookup(with_entry(t, id, e), id) == Some(e),
        other != id ==> lookup(with_entry(t, id, e), other) == lookup(t, other),
{
    let u = with_entry(t, id, e);
    lemma_find_from(t, id, 0);
    lemma_find_from(t, other, 0);
    lemma_find_from(u, id, 0);
    lemma_find_from(u, other, 0);
    match find_from(t, id, 0) {
        Some(i) => {
            assert(u[i].0 == id);
            if other != id {
                match find_from(t, other, 0) {
                    Some(j) => {
                        assert(u[j].0 == other);
                    },
                    None => {},
                }
            }
        },
        None => {
            assert(u[t.len() as int].0 == id);
            if other != id {
                match find_from(t, other, 0) {
                    Some(j) => {
                        assert(u[j].0 == other);
                    },
                    None => {},
                }
            }
        },
    }
}

/// Setting a record keeps every device at most once in the table.
pub proof fn lemma_with_entry_unique(
    t: Seq<(Seq<char>, KnownDeviceView)>,
    id: Seq<char>,
    e: KnownDeviceView,
)
    requires
        keys_unique(t),
    ensures
        keys_unique(with_entry(t, id, e)),
{
    lemma_find_from(t, id, 0);
}

} // verus!
